//! What goes over the wire, field by field: the bodies of requests and the heads of all of them.
use vstd::prelude::*;

use crate::client::{
    appended_children, appended_markdown, base_url_of, new_page, query_value, replaced_markdown,
    ClientView, ParentView,
};
use crate::flow::new_upload;
use crate::json::JsonView;
use crate::output::error_value;
use crate::text::{decimal, trimmed, without_trailing};

verus! {

/// The document is an object.
pub open spec fn is_object(document: JsonView) -> bool {
    document is Object
}

/// The fields of an object.
pub open spec fn fields_of(document: JsonView) -> Map<Seq<char>, JsonView> {
    document->Object_0
}

/// A query of a data source holds the filter, the sorts, the page size and the cursor, each where it
/// is given, whatever else is given, and nothing else.
pub proof fn queries_hold_what_is_given(
    filter: Option<JsonView>,
    sorts: Option<JsonView>,
    page_size: Option<usize>,
    cursor: Option<Seq<char>>,
)
    ensures
        ({
            let body = query_value(filter, sorts, page_size, cursor);
            let fields = fields_of(body);
            &&& is_object(body)
            &&& fields.dom().contains("filter"@) == (filter is Some)
            &&& filter matches Some(value) ==> fields["filter"@] == value
            &&& fields.dom().contains("sorts"@) == (sorts is Some)
            &&& sorts matches Some(value) ==> fields["sorts"@] == value
            &&& fields.dom().contains("page_size"@) == (page_size is Some)
            &&& page_size matches Some(n) ==> fields["page_size"@] == JsonView::Number(
                decimal(n as nat),
            )
            &&& fields.dom().contains("start_cursor"@) == (cursor is Some)
            &&& cursor matches Some(c) ==> fields["start_cursor"@] == JsonView::Text(c)
            &&& forall|name: Seq<char>| #[trigger]
                fields.dom().contains(name) ==> name == "filter"@ || name == "sorts"@ || name
                    == "page_size"@ || name == "start_cursor"@
        }),
{
    reveal_strlit("filter");
    reveal_strlit("sorts");
    reveal_strlit("page_size");
    reveal_strlit("start_cursor");
    assert("filter"@.len() != "sorts"@.len());
    assert("filter"@.len() != "page_size"@.len());
    assert("filter"@.len() != "start_cursor"@.len());
    assert("sorts"@.len() != "page_size"@.len());
    assert("sorts"@.len() != "start_cursor"@.len());
    assert("page_size"@.len() != "start_cursor"@.len());
}

/// Replacing the contents of a page sends the markdown, and whether content may be deleted just as
/// the user said.
pub proof fn replacements_delete_only_what_is_allowed(markdown: Seq<char>, allowed: bool)
    ensures
        ({
            let body = replaced_markdown(markdown, allowed);
            let fields = fields_of(body);
            let inner = fields_of(fields["replace_content"@]);
            &&& is_object(body)
            &&& fields.dom() == set!["type"@, "replace_content"@]
            &&& fields["type"@] == JsonView::Text("replace_content"@)
            &&& is_object(fields["replace_content"@])
            &&& inner.dom() == set!["new_str"@, "allow_deleting_content"@]
            &&& inner["new_str"@] == JsonView::Text(markdown)
            &&& inner["allow_deleting_content"@] == JsonView::Bool(allowed)
        }),
        replaced_markdown(markdown, true) != replaced_markdown(markdown, false),
{
    reveal_strlit("type");
    reveal_strlit("replace_content");
    assert("type"@.len() != "replace_content"@.len());
    reveal_strlit("new_str");
    reveal_strlit("allow_deleting_content");
    assert("new_str"@.len() != "allow_deleting_content"@.len());
    let fields = fields_of(replaced_markdown(markdown, allowed));
    let inner = fields_of(fields["replace_content"@]);
    assert(fields.dom() =~= set!["type"@, "replace_content"@]);
    assert(inner.dom() =~= set!["new_str"@, "allow_deleting_content"@]);
    let yes = fields_of(fields_of(replaced_markdown(markdown, true))["replace_content"@]);
    let no = fields_of(fields_of(replaced_markdown(markdown, false))["replace_content"@]);
    assert(yes["allow_deleting_content"@] != no["allow_deleting_content"@]);
}

/// Adding to a page sends the markdown, to be put in.
pub proof fn additions_hold_the_markdown(markdown: Seq<char>)
    ensures
        ({
            let body = appended_markdown(markdown);
            let fields = fields_of(body);
            let inner = fields_of(fields["insert_content"@]);
            &&& is_object(body)
            &&& fields.dom() == set!["type"@, "insert_content"@]
            &&& fields["type"@] == JsonView::Text("insert_content"@)
            &&& is_object(fields["insert_content"@])
            &&& inner.dom() == set!["content"@]
            &&& inner["content"@] == JsonView::Text(markdown)
        }),
{
    reveal_strlit("type");
    reveal_strlit("insert_content");
    assert("type"@.len() != "insert_content"@.len());
    let fields = fields_of(appended_markdown(markdown));
    assert(fields.dom() =~= set!["type"@, "insert_content"@]);
    assert(fields_of(fields["insert_content"@]).dom() =~= set!["content"@]);
}

/// Adding blocks sends the blocks, and the position where one is given, and nothing else.
pub proof fn added_blocks_are_sent(children: JsonView, position: Option<JsonView>)
    ensures
        ({
            let body = appended_children(children, position);
            let fields = fields_of(body);
            &&& is_object(body)
            &&& fields.dom().contains("children"@)
            &&& fields["children"@] == children
            &&& fields.dom().contains("position"@) == (position is Some)
            &&& position matches Some(value) ==> fields["position"@] == value
            &&& forall|name: Seq<char>| #[trigger]
                fields.dom().contains(name) ==> name == "children"@ || name == "position"@
        }),
{
    reveal_strlit("children");
    reveal_strlit("position");
    assert("children"@[0] != "position"@[0]);
}

/// The document is the rich text of just this title.
pub open spec fn is_title(document: JsonView, title: Seq<char>) -> bool {
    let items = fields_of(document)["title"@]->Array_0;
    let text = fields_of(items[0])["text"@];
    &&& document is Object
    &&& fields_of(document).dom() == set!["title"@]
    &&& fields_of(document)["title"@] is Array
    &&& items.len() == 1
    &&& items[0] is Object
    &&& fields_of(items[0]).dom() == set!["text"@]
    &&& text is Object
    &&& fields_of(text).dom() == set!["content"@]
    &&& fields_of(text)["content"@] == JsonView::Text(title)
}

/// A new page under a page names its parent, its title and its content, if it has any, and nothing
/// else.
pub proof fn new_pages_under_pages(
    page_id: Seq<char>,
    title: Seq<char>,
    markdown: Option<Seq<char>>,
)
    ensures
        ({
            let body = new_page(ParentView::Page { page_id }, title, markdown);
            let fields = fields_of(body);
            let parent = fields_of(fields["parent"@]);
            let properties = fields_of(fields["properties"@]);
            &&& is_object(body)
            &&& fields.dom().contains("parent"@) && is_object(fields["parent"@])
            &&& parent.dom() == set!["type"@, "page_id"@]
            &&& parent["type"@] == JsonView::Text("page_id"@)
            &&& parent["page_id"@] == JsonView::Text(page_id)
            &&& fields.dom().contains("properties"@) && is_object(fields["properties"@])
            &&& properties.dom() == set!["title"@]
            &&& is_title(properties["title"@], title)
            &&& fields.dom().contains("markdown"@) == (markdown is Some)
            &&& markdown matches Some(text) ==> fields["markdown"@] == JsonView::Text(text)
            &&& forall|name: Seq<char>| #[trigger]
                fields.dom().contains(name) ==> name == "parent"@ || name == "properties"@ || name
                    == "markdown"@
        }),
{
    reveal_strlit("parent");
    reveal_strlit("properties");
    reveal_strlit("markdown");
    assert("parent"@.len() != "properties"@.len());
    assert("parent"@.len() != "markdown"@.len());
    assert("properties"@.len() != "markdown"@.len());
    reveal_strlit("type");
    reveal_strlit("page_id");
    assert("type"@.len() != "page_id"@.len());
    let fields = fields_of(new_page(ParentView::Page { page_id }, title, markdown));
    let properties = fields_of(fields["properties"@]);
    assert(fields_of(fields["parent"@]).dom() =~= set!["type"@, "page_id"@]);
    assert(properties.dom() =~= set!["title"@]);
    is_title_by_parts(properties["title"@], title);
}

/// A new entry of a data source names its parent, its title under the title property, and its
/// content, if it has any, and nothing else.
pub proof fn new_pages_in_data_sources(
    data_source_id: Seq<char>,
    title_property: Seq<char>,
    title: Seq<char>,
    markdown: Option<Seq<char>>,
)
    ensures
        ({
            let body = new_page(
                ParentView::DataSource { data_source_id, title_property },
                title,
                markdown,
            );
            let fields = fields_of(body);
            let parent = fields_of(fields["parent"@]);
            let properties = fields_of(fields["properties"@]);
            &&& is_object(body)
            &&& fields.dom().contains("parent"@) && is_object(fields["parent"@])
            &&& parent.dom() == set!["type"@, "data_source_id"@]
            &&& parent["type"@] == JsonView::Text("data_source_id"@)
            &&& parent["data_source_id"@] == JsonView::Text(data_source_id)
            &&& fields.dom().contains("properties"@) && is_object(fields["properties"@])
            &&& properties.dom() == set![title_property]
            &&& is_title(properties[title_property], title)
            &&& fields.dom().contains("markdown"@) == (markdown is Some)
            &&& markdown matches Some(text) ==> fields["markdown"@] == JsonView::Text(text)
            &&& forall|name: Seq<char>| #[trigger]
                fields.dom().contains(name) ==> name == "parent"@ || name == "properties"@ || name
                    == "markdown"@
        }),
{
    reveal_strlit("parent");
    reveal_strlit("properties");
    reveal_strlit("markdown");
    assert("parent"@.len() != "properties"@.len());
    assert("parent"@.len() != "markdown"@.len());
    assert("properties"@.len() != "markdown"@.len());
    reveal_strlit("type");
    reveal_strlit("data_source_id");
    assert("type"@.len() != "data_source_id"@.len());
    let fields = fields_of(
        new_page(ParentView::DataSource { data_source_id, title_property }, title, markdown),
    );
    let properties = fields_of(fields["properties"@]);
    assert(fields_of(fields["parent"@]).dom() =~= set!["type"@, "data_source_id"@]);
    assert(properties.dom() =~= set![title_property]);
    is_title_by_parts(properties[title_property], title);
}

/// The domains that a title is made of.
proof fn is_title_by_parts(document: JsonView, title: Seq<char>)
    requires
        document == crate::client::title_value(title),
    ensures
        is_title(document, title),
{
    let outer = fields_of(document);
    let items = outer["title"@]->Array_0;
    let item = fields_of(items[0]);
    let text = fields_of(item["text"@]);
    assert(outer.dom() =~= set!["title"@]);
    assert(item.dom() =~= set!["text"@]);
    assert(text.dom() =~= set!["content"@]);
}

/// A new upload says that the file comes in one piece, under which name, and of which type where
/// that is given, and nothing else.
pub proof fn new_uploads_name_the_file(filename: Seq<char>, content_type: Option<Seq<char>>)
    ensures
        ({
            let body = new_upload(filename, content_type);
            let fields = fields_of(body);
            &&& is_object(body)
            &&& fields.dom().contains("mode"@) && fields["mode"@] == JsonView::Text("single_part"@)
            &&& fields.dom().contains("filename"@) && fields["filename"@] == JsonView::Text(filename)
            &&& fields.dom().contains("content_type"@) == (content_type is Some)
            &&& content_type matches Some(value) ==> fields["content_type"@] == JsonView::Text(value)
            &&& forall|name: Seq<char>| #[trigger]
                fields.dom().contains(name) ==> name == "mode"@ || name == "filename"@ || name
                    == "content_type"@
        }),
{
    reveal_strlit("mode");
    reveal_strlit("filename");
    reveal_strlit("content_type");
    assert("mode"@.len() != "filename"@.len());
    assert("mode"@.len() != "content_type"@.len());
    assert("filename"@.len() != "content_type"@.len());
}

/// A failure is reported with its status, its code and its message, and nothing else.
pub proof fn reports_say_what_went_wrong(status: u16, code: Seq<char>, message: Seq<char>)
    ensures
        ({
            let object = error_value(status, code, message);
            let fields = fields_of(object);
            &&& is_object(object)
            &&& fields.dom() == set!["object"@, "status"@, "code"@, "message"@]
            &&& fields["object"@] == JsonView::Text("error"@)
            &&& fields["status"@] == JsonView::Number(decimal(status as nat))
            &&& fields["code"@] == JsonView::Text(code)
            &&& fields["message"@] == JsonView::Text(message)
        }),
{
    reveal_strlit("object");
    reveal_strlit("status");
    reveal_strlit("code");
    reveal_strlit("message");
    assert("object"@[0] != "status"@[0]);
    assert("object"@.len() != "code"@.len());
    assert("object"@.len() != "message"@.len());
    assert("status"@.len() != "code"@.len());
    assert("status"@.len() != "message"@.len());
    assert("code"@.len() != "message"@.len());
    assert(fields_of(error_value(status, code, message)).dom() =~= set![
        "object"@,
        "status"@,
        "code"@,
        "message"@,
    ]);
}

/// What is left after trailing characters are taken off, and those characters, are the text.
proof fn trailing_characters_are_all_that_goes(s: Seq<char>, c: char)
    ensures
        without_trailing(s, c).len() <= s.len(),
        s.take(without_trailing(s, c).len() as int) == without_trailing(s, c),
        forall|i: int| without_trailing(s, c).len() <= i < s.len() ==> s[i] == c,
        without_trailing(s, c).len() > 0 ==> without_trailing(s, c).last() != c,
    decreases s.len(),
{
    if s.len() > 0 && s.last() == c {
        trailing_characters_are_all_that_goes(s.drop_last(), c);
        let kept = without_trailing(s, c);
        assert(s.take(kept.len() as int) =~= s.drop_last().take(kept.len() as int));
        assert forall|i: int| kept.len() <= i < s.len() implies s[i] == c by {
            if i < s.len() - 1 {
                assert(s.drop_last()[i] == s[i]);
            }
        }
    } else {
        assert(s.take(s.len() as int) =~= s);
    }
}

/// The address of the API is the one that is given but for slashes at its end, and Notion's own
/// where none is given.
pub proof fn addresses_are_kept(base_url: Seq<char>)
    ensures
        trimmed(base_url).len() == 0 ==> base_url_of(base_url) == "https://api.notion.com"@,
        trimmed(base_url).len() > 0 ==> ({
            let kept = base_url_of(base_url);
            &&& kept.len() <= base_url.len()
            &&& base_url.take(kept.len() as int) == kept
            &&& forall|i: int| kept.len() <= i < base_url.len() ==> base_url[i] == '/'
            &&& kept.len() > 0 ==> kept.last() != '/'
        }),
{
    reveal_strlit("https://api.notion.com");
    trailing_characters_are_all_that_goes(base_url, '/');
    assert("https://api.notion.com"@.last() == 'm');
}

/// Every request goes to the address of the API with its path behind it, names the version of the
/// API and what it accepts, and carries the token.
pub proof fn every_request_has_its_head(client: ClientView, token: Seq<char>, path: Seq<char>)
    ensures
        ({
            let head = client.head(token, path);
            &&& head.url == client.base_url + path
            &&& head.bearer_token == token
            &&& head.headers.len() == 2
            &&& head.headers[0] == ("Notion-Version"@, client.notion_version)
            &&& head.headers[1] == ("Accept"@, "application/json"@)
        }),
{
}

} // verus!
