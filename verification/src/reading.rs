//! What is read out of documents, field by field.
use vstd::prelude::*;

use crate::json::{Json, JsonView};
use crate::names::{a_first_member_exists, before, is_first, only_one_is_first};
use crate::objects::{
    data_source_title_property_name, joined_plain_text, owner_email, owner_name, plain_text,
    properties, property_title, title_of, title_properties, title_property, titled_properties,
};

verus! {

/// The value of the field `name` of a document that is an object.
pub open spec fn at(document: JsonView, name: Seq<char>) -> Option<JsonView> {
    match document {
        JsonView::Object(fields) => if fields.dom().contains(name) {
            Some(fields[name])
        } else {
            None
        },
        _ => None,
    }
}

/// The value of a field in a field.
pub open spec fn within(document: Option<JsonView>, name: Seq<char>) -> Option<JsonView> {
    match document {
        Some(inner) => at(inner, name),
        None => None,
    }
}

/// The text, where the value is there and is a string.
pub open spec fn string_in(value: Option<JsonView>) -> Option<Seq<char>> {
    match value {
        Some(JsonView::Text(text)) => Some(text),
        _ => None,
    }
}

/// A field is found by its name, in objects alone; its text is found where it is a string.
pub proof fn fields_are_found_by_name(document: JsonView, name: Seq<char>)
    ensures
        document.field(name) == at(document, name),
        document.text_field(name) == string_in(at(document, name)),
        document.text() == string_in(Some(document)),
        document.inside(name) == match at(document, name) {
            Some(value) => value,
            None => JsonView::Null,
        },
{
}

/// The document has a property of this name.
pub open spec fn has_property(document: JsonView, name: Seq<char>) -> bool {
    at(document, "properties"@) matches Some(JsonView::Object(all)) && all.dom().contains(name)
}

/// The property of this name.
pub open spec fn property_at(document: JsonView, name: Seq<char>) -> JsonView {
    at(document, "properties"@)->0->Object_0[name]
}

/// The property of this name is there, and its `type` is `title`.
pub open spec fn is_title_at(document: JsonView, name: Seq<char>) -> bool {
    &&& has_property(document, name)
    &&& at(property_at(document, name), "type"@) == Some(JsonView::Text("title"@))
}

/// The names that the search for a title property finds are those of the type `title`.
proof fn title_names(document: JsonView)
    ensures
        forall|name: Seq<char>| #[trigger]
            title_properties(document).contains(name) <==> is_title_at(document, name),
{
    assert forall|name: Seq<char>| #[trigger] title_properties(document).contains(name)
        <==> is_title_at(document, name) by {
        if has_property(document, name) {
            fields_are_found_by_name(property_at(document, name), "type"@);
            assert(properties(document)[name] == property_at(document, name));
        }
    }
}

/// The title property of a data source is the first one, by name, whose `type` is `title`; there is
/// none just where no property is of that type.
pub proof fn title_properties_are_of_the_type_title(document: JsonView)
    requires
        at(document, "properties"@) matches Some(JsonView::Object(all)) ==> all.dom().finite(),
    ensures
        match title_property(document) {
            Some(name) => {
                &&& is_title_at(document, name)
                &&& forall|other: Seq<char>| #[trigger]
                    is_title_at(document, other) ==> other == name || before(name, other)
            },
            None => forall|name: Seq<char>| !(#[trigger] is_title_at(document, name)),
        },
{
    let titles = title_properties(document);
    title_names(document);
    if titles == Set::<Seq<char>>::empty() {
        assert forall|name: Seq<char>| !(#[trigger] is_title_at(document, name)) by {
            assert(!titles.contains(name));
        }
    } else {
        assert(titles.finite()) by {
            assert(titles.subset_of(properties(document).dom()));
            vstd::set_lib::lemma_set_subset_finite(properties(document).dom(), titles);
        }
        a_first_member_exists(titles);
        let name = title_property(document)->0;
        assert(titles.contains(name));
        assert forall|other: Seq<char>| #[trigger] is_title_at(document, other) implies other == name
            || before(name, other) by {
            assert(titles.contains(other));
        }
    }
}

/// The name that is found for the title property is that of the first property, by name, whose `type`
/// is `title`; none is found just where no property is of that type.
pub proof fn title_properties_are_found(value: &Json, r: Option<String>)
    requires
        call_ensures(data_source_title_property_name, (value,), r),
    ensures
        match r {
            Some(name) => {
                &&& is_title_at(value@, name@)
                &&& forall|other: Seq<char>| #[trigger]
                    is_title_at(value@, other) ==> other == name@ || before(name@, other)
            },
            None => forall|name: Seq<char>| !(#[trigger] is_title_at(value@, name)),
        },
{
    let titles = title_properties(value@);
    title_names(value@);
    match r {
        Some(name) => {
            assert(titles.contains(name@));
            assert forall|other: Seq<char>| #[trigger] is_title_at(value@, other) implies other
                == name@ || before(name@, other) by {
                assert(titles.contains(other));
            }
        },
        None => {
            assert forall|name: Seq<char>| !(#[trigger] is_title_at(value@, name)) by {
                assert(!titles.contains(name));
            }
        },
    }
}

/// The plain texts of the items, from the first to the last.
pub open spec fn text_run(items: Seq<JsonView>) -> Seq<char>
    decreases items.len(),
{
    if items.len() == 0 {
        Seq::empty()
    } else {
        (match at(items.first(), "plain_text"@) {
            Some(JsonView::Text(text)) => text,
            _ => Seq::empty(),
        }) + text_run(items.drop_first())
    }
}

proof fn runs_are_joined(items: Seq<JsonView>)
    ensures
        joined_plain_text(items) == text_run(items),
    decreases items.len(),
{
    if items.len() == 1 {
        assert(items.drop_last() =~= Seq::empty());
        assert(items.drop_first() =~= Seq::empty());
        fields_are_found_by_name(items[0], "plain_text"@);
        assert(joined_plain_text(Seq::empty()) =~= Seq::empty());
        assert(text_run(Seq::empty()) =~= Seq::empty());
        assert(joined_plain_text(items) =~= text_run(items));
    } else if items.len() > 1 {
        let front = items.drop_last();
        let rest = items.drop_first();
        runs_are_joined(front);
        runs_are_joined(rest);
        runs_are_joined(rest.drop_last());
        assert(front.drop_first() =~= rest.drop_last());
        assert(front.first() == items.first());
        assert(rest.last() == items.last());
        assert(joined_plain_text(items) =~= text_run(items));
    }
}

/// The plain text of rich text is that of its items one after another, and only an array with some
/// text has any.
pub proof fn plain_text_is_that_of_the_items(value: JsonView)
    ensures
        plain_text(value) == match value {
            JsonView::Array(items) => if text_run(items).len() > 0 {
                Some(text_run(items))
            } else {
                None
            },
            _ => None,
        },
{
    if let JsonView::Array(items) = value {
        runs_are_joined(items);
    }
}

/// The property gives this title: its `type` is `title`, and its `title` has this text.
pub open spec fn gives_title(document: JsonView, name: Seq<char>, title: Seq<char>) -> bool {
    &&& is_title_at(document, name)
    &&& at(property_at(document, name), "title"@) matches Some(JsonView::Array(items)) && text_run(
        items,
    ) == title
    &&& title.len() > 0
}

proof fn titles_given(document: JsonView, name: Seq<char>)
    ensures
        titled_properties(document).contains(name) <==> exists|title: Seq<char>|
            gives_title(document, name, title),
        forall|title: Seq<char>| #[trigger]
            gives_title(document, name, title) ==> property_title(properties(document)[name])
                == Some(title),
{
    title_names(document);
    if has_property(document, name) {
        let property = property_at(document, name);
        assert(properties(document)[name] == property);
        fields_are_found_by_name(property, "type"@);
        fields_are_found_by_name(property, "title"@);
        plain_text_is_that_of_the_items(property.inside("title"@));
        if titled_properties(document).contains(name) {
            let items = at(property, "title"@)->0->Array_0;
            assert(gives_title(document, name, text_run(items)));
        }
    }
}

/// The title of an object is that of its first property, by name, which gives one. Where no property
/// gives one it is the object's own title, or else its name, if they have any text, or else its id.
pub proof fn titles_come_from_where_they_should(document: JsonView)
    ensures
        forall|name: Seq<char>, title: Seq<char>|
            #![trigger gives_title(document, name, title)]
            gives_title(document, name, title) && (forall|other: Seq<char>, theirs: Seq<char>|
                #![trigger gives_title(document, other, theirs)]
                gives_title(document, other, theirs) ==> other == name || before(name, other))
                ==> title_of(document) == title,
        (forall|name: Seq<char>, title: Seq<char>|
            #![trigger gives_title(document, name, title)]
            !gives_title(document, name, title)) ==> title_of(document) == match at(
            document,
            "title"@,
        ) {
            Some(JsonView::Array(items)) if text_run(items).len() > 0 => text_run(items),
            _ => match string_in(at(document, "name"@)) {
                Some(name) if name.len() > 0 => name,
                _ => match string_in(at(document, "id"@)) {
                    Some(id) => id,
                    None => "<untitled>"@,
                },
            },
        },
{
    let titled = titled_properties(document);
    assert forall|name: Seq<char>, title: Seq<char>|
        #![trigger gives_title(document, name, title)]
        gives_title(document, name, title) && (forall|other: Seq<char>, theirs: Seq<char>|
            #![trigger gives_title(document, other, theirs)]
            gives_title(document, other, theirs) ==> other == name || before(
                name,
                other,
            )) implies title_of(document) == title by {
        titles_given(document, name);
        assert(titled.contains(name));
        assert forall|other: Seq<char>| #[trigger] titled.contains(other) implies other == name
            || before(name, other) by {
            titles_given(document, other);
            let theirs = choose|theirs: Seq<char>| gives_title(document, other, theirs);
            assert(gives_title(document, other, theirs));
        }
        assert(is_first(name, titled));
        only_one_is_first(name, titled);
    }
    if forall|name: Seq<char>, title: Seq<char>|
        #![trigger gives_title(document, name, title)]
        !gives_title(document, name, title) {
        assert forall|name: Seq<char>| !titled.contains(name) by {
            titles_given(document, name);
        }
        assert(titled =~= Set::<Seq<char>>::empty());
        fields_are_found_by_name(document, "title"@);
        fields_are_found_by_name(document, "name"@);
        fields_are_found_by_name(document, "id"@);
        plain_text_is_that_of_the_items(document.inside("title"@));
    }
}

/// The owner's name and e-mail address are those of the user who owns the bot, where the bot's user
/// object tells them, or else the bot's own.
pub proof fn owners_go_before_bots(me: JsonView)
    ensures
        ({
            let user = within(at(me, "owner"@), "user"@);
            &&& owner_name(me) == match string_in(within(user, "name"@)) {
                Some(name) => Some(name),
                None => string_in(at(me, "name"@)),
            }
            &&& owner_email(me) == match string_in(within(within(user, "person"@), "email"@)) {
                Some(email) => Some(email),
                None => string_in(within(at(me, "person"@), "email"@)),
            }
        }),
{
}

} // verus!
