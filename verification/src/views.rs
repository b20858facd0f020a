//! What stands for a value in contracts says all that the value holds.
use vstd::prelude::*;

use crate::client::{
    document_view, documents_view, CreateParent, ListResponse, PageMarkdown, ParentView,
    RequestHead,
};
use crate::config::{
    credentials_view, ConfigFile, CredentialsFile, RuntimeSession, StoredSecret,
};
use crate::errors::CliError;
use crate::flow::{list_outcome, markdown_outcome};
use crate::inputs::{optional_document_outcome, optional_text_outcome, text_outcome};
use crate::json::{Json, JsonView};
use crate::output::texts;
use crate::request::{outcome, pairs_view, ApiRequest, RequestView};
use crate::text::{view_of, view_of_str};
use crate::transport::document_outcome;

verus! {

/// A text that is there is told as it is, and one that is missing as missing.
pub proof fn missing_texts_are_told(text: String, slice: &str, document: Json)
    ensures
        view_of(Some(text)) == Some(text@),
        view_of(None) is None,
        view_of_str(Some(slice)) == Some(slice@),
        view_of_str(None) is None,
        document_view(Some(document)) == Some(document@),
        document_view(None) is None,
{
}

/// What came out is told as it is, and a failure by its message.
pub proof fn outcomes_are_told(
    request: ApiRequest,
    document: Json,
    found: Option<Json>,
    text: String,
    typed: Option<String>,
    list: ListResponse,
    markdown: PageMarkdown,
    file: CredentialsFile,
    e: CliError,
)
    ensures
        e@ == e.message@,
        outcome(Ok(request)) == Ok::<RequestView, Seq<char>>(request@),
        outcome(Err(e)) == Err::<RequestView, Seq<char>>(e.message@),
        document_outcome(Ok(document)) == Ok::<JsonView, Seq<char>>(document@),
        document_outcome(Err(e)) == Err::<JsonView, Seq<char>>(e.message@),
        optional_document_outcome(Ok(found)) == Ok::<Option<JsonView>, Seq<char>>(
            match found {
                Some(inner) => Some(inner@),
                None => None,
            },
        ),
        optional_document_outcome(Err(e)) == Err::<Option<JsonView>, Seq<char>>(e.message@),
        text_outcome(Ok(text)) == Ok::<Seq<char>, Seq<char>>(text@),
        text_outcome(Err(e)) == Err::<Seq<char>, Seq<char>>(e.message@),
        optional_text_outcome(Ok(typed)) == Ok::<Option<Seq<char>>, Seq<char>>(
            match typed {
                Some(inner) => Some(inner@),
                None => None,
            },
        ),
        optional_text_outcome(Err(e)) == Err::<Option<Seq<char>>, Seq<char>>(e.message@),
        list_outcome(Ok(list)) matches Ok(told) && told == list@,
        list_outcome(Err(e)) matches Err(told) && told == e.message@,
        markdown_outcome(Ok(markdown)) matches Ok(told) && told == markdown@,
        markdown_outcome(Err(e)) matches Err(told) && told == e.message@,
        credentials_view(Ok(file)) == Ok::<Map<Seq<char>, StoredSecret>, Seq<char>>(file.profiles@),
        credentials_view(Err(e)) == Err::<Map<Seq<char>, StoredSecret>, Seq<char>>(e.message@),
{
}

/// Lists of values are told one by one.
pub proof fn lists_are_told_one_by_one(
    documents: Seq<Json>,
    pairs: Seq<(String, String)>,
    args: Seq<String>,
)
    ensures
        documents_view(documents).len() == documents.len(),
        forall|i: int|
            0 <= i < documents.len() ==> #[trigger] documents_view(documents)[i] == documents[i]@,
        pairs_view(pairs).len() == pairs.len(),
        forall|i: int|
            0 <= i < pairs.len() ==> #[trigger] pairs_view(pairs)[i] == (pairs[i].0@, pairs[i].1@),
        texts(args).len() == args.len(),
        forall|i: int| 0 <= i < args.len() ==> #[trigger] texts(args)[i] == args[i]@,
{
}

/// A request, and what it has in common with all others, are told part by part.
pub proof fn requests_are_told_in_full(request: ApiRequest, head: RequestHead)
    ensures
        request@.method == request.method,
        request@.path == request.path@,
        request.query is None ==> request@.query is None,
        request.query matches Some(pairs) ==> request@.query == Some(pairs_view(pairs@)),
        request.body is None ==> request@.body is None,
        request.body matches Some(body) ==> request@.body == Some(body@),
        head@.url == head.url@,
        head@.headers == pairs_view(head.headers@),
        head@.bearer_token == head.bearer_token@,
{
}

/// What the API sends is told part by part.
pub proof fn answers_are_told_in_full(list: ListResponse, markdown: PageMarkdown)
    ensures
        list@.object == list.object@,
        list@.results == documents_view(list.results@),
        list@.next_cursor == view_of(list.next_cursor),
        list@.has_more == list.has_more,
        list@.list_type == view_of(list.list_type),
        list@.extra == list.extra@,
        markdown@.object == markdown.object@,
        markdown@.markdown == markdown.markdown@,
        markdown@.truncated == markdown.truncated,
        markdown@.unknown_block_ids.len() == markdown.unknown_block_ids@.len(),
        forall|i: int|
            0 <= i < markdown.unknown_block_ids@.len() ==> #[trigger] markdown@.unknown_block_ids[i]
                == markdown.unknown_block_ids@[i]@,
{
}

/// What is saved, and what a command works with, is told part by part.
pub proof fn settings_are_told_in_full(
    config: ConfigFile,
    file: CredentialsFile,
    session: RuntimeSession,
    parent: CreateParent,
)
    ensures
        config@.api_version == config.api_version@,
        config@.active_profile == view_of(config.active_profile),
        config@.profiles == config.profiles@,
        file@ == file.profiles@,
        session@.profile_name == view_of(session.profile_name),
        session@.token == session.secret@,
        session@.source == session.source,
        parent matches CreateParent::Page { page_id } ==> parent@ == (ParentView::Page {
            page_id: page_id@,
        }),
        parent matches CreateParent::DataSource { data_source_id, title_property } ==> parent@ == (
        ParentView::DataSource {
            data_source_id: data_source_id@,
            title_property: title_property@,
        }),
{
}

} // verus!
