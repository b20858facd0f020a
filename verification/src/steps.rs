//! What each command sends, and what each answer brings.
use std::path::PathBuf;

use vstd::prelude::*;

use crate::client::{
    appended_children, appended_markdown, new_page, query_value, replaced_markdown, ListView,
    MarkdownView, ParentView, SearchFilter,
};
use crate::commands::{
    BlockCommand, CommentCommand, CursorArgs, DataSourceCommand, DatabaseCommand,
    FileUploadCommand, PageCommand, ParentTarget, UserCommand,
};
use crate::flow::{
    bad_content_type_message, new_upload, search_step, sent_file, AfterDocumentView, AfterListView,
    AfterMarkdownView, AfterReadView, PayloadView, StepView,
};
use crate::ids::{no_id_message, normalized_id};
use crate::inputs::{Input, JsonInputArgs};
use crate::json::JsonView;
use crate::objects::title_property;
use crate::parents::ParentLookupView;
use crate::parse::document_of;
use crate::paths::name_of;
use crate::reading::{at, string_in};
use crate::request::{paging, Method, RequestView};
use crate::search::{new_search, SearchStepView, SearchView};
use crate::text::{decimal, view_of};
use crate::transport::says_nothing;
use crate::wire::{fields_of, is_object};

verus! {

/// A request with these four parts.
pub open spec fn sent(
    method: Method,
    path: Seq<char>,
    query: Option<Seq<(Seq<char>, Seq<char>)>>,
    body: Option<JsonView>,
) -> RequestView {
    RequestView { method, path, query, body }
}

/// The request goes out, and the document that comes back is the result.
pub open spec fn for_document(request: RequestView) -> StepView {
    StepView::AskDocument { request, then: AfterDocumentView::Emit }
}

/// The request goes out, and the page of a list that comes back is the result.
pub open spec fn for_list(request: RequestView, context: Seq<char>) -> StepView {
    StepView::AskList { request, context: Some(context), then: AfterListView::Emit }
}

/// The request goes out, and the markdown that comes back is the result.
pub open spec fn for_markdown(request: RequestView, context: Seq<char>) -> StepView {
    StepView::AskMarkdown { request, context, then: AfterMarkdownView::Emit }
}

/// The command ends, and the user is told this.
pub open spec fn told(message: Seq<char>) -> StepView {
    StepView::Done(Err(message))
}

/// The parameters that choose a page of a list.
pub open spec fn page_parameters(cursor: CursorArgs) -> Seq<(Seq<char>, Seq<char>)> {
    match (cursor.page_size, cursor.cursor) {
        (None, None) => Seq::empty(),
        (Some(size), None) => seq![("page_size"@, decimal(size as nat))],
        (None, Some(start)) => seq![("start_cursor"@, start@)],
        (Some(size), Some(start)) => seq![
            ("page_size"@, decimal(size as nat)),
            ("start_cursor"@, start@),
        ],
    }
}

proof fn parameters_choose_a_page(cursor: CursorArgs)
    ensures
        cursor.parameters() == page_parameters(cursor),
        paging(cursor.page_size, view_of(cursor.cursor)) == page_parameters(cursor),
        Seq::<(Seq<char>, Seq<char>)>::empty() + page_parameters(cursor) == page_parameters(cursor),
{
    assert(cursor.parameters() =~= page_parameters(cursor));
    assert(Seq::<(Seq<char>, Seq<char>)>::empty() + page_parameters(cursor) =~= page_parameters(
        cursor,
    ));
}

/// The document that a text spells, or what the user is told of the place that it comes from.
pub open spec fn document_from(text: Seq<char>, place: Seq<char>) -> Result<JsonView, Seq<char>> {
    match document_of(text) {
        Some(document) => Ok(document),
        None => Err("failed to parse JSON request body from "@ + place),
    }
}

/// The document that is to be sent, or what the user is told: it comes from exactly one place.
pub open spec fn body_from(args: JsonInputArgs, read: Result<Seq<char>, Seq<char>>) -> Result<
    JsonView,
    Seq<char>,
> {
    match (args.body_json, args.from_file, args.stdin) {
        (Some(text), None, false) => document_from(text@, "--body-json"@),
        (None, Some(path), false) => match read {
            Ok(text) => document_from(text, path@),
            Err(message) => Err(message),
        },
        (None, None, true) => match read {
            Ok(text) => document_from(text, "stdin"@),
            Err(message) => Err(message),
        },
        (None, None, false) => Err("provide JSON body with --body-json, --from-file, or --stdin"@),
        _ => Err("use only one of --body-json, --from-file, or --stdin"@),
    }
}

/// What has to be read for a document that is to be sent.
pub open spec fn body_place(args: JsonInputArgs) -> Input {
    match (args.body_json, args.from_file, args.stdin) {
        (None, Some(_), false) => Input::File,
        (None, None, true) => Input::Stdin,
        _ => Input::Nothing,
    }
}

/// The markdown that is given, if any, or what the user is told.
pub open spec fn markdown_from(
    from_file: bool,
    stdin: bool,
    read: Result<Seq<char>, Seq<char>>,
) -> Result<Option<Seq<char>>, Seq<char>> {
    match (from_file, stdin, read) {
        (false, false, _) => Ok(None),
        (true, true, _) => Err("use either --from-file or --stdin, not both"@),
        (_, _, Ok(text)) => Ok(Some(text)),
        (_, _, Err(message)) => Err(message),
    }
}

/// What has to be read for markdown.
pub open spec fn markdown_place(from_file: bool, stdin: bool) -> Input {
    match (from_file, stdin) {
        (true, false) => Input::File,
        (false, true) => Input::Stdin,
        _ => Input::Nothing,
    }
}

/// A page is asked for by its id. Its markdown follows where that is wanted.
pub proof fn pages_are_got_by_id(
    page: String,
    include_markdown: bool,
    include_transcript: bool,
    read: Result<Seq<char>, Seq<char>>,
)
    ensures
        (PageCommand::Get { page, include_markdown, include_transcript }).first_step(read)
            == match normalized_id(page@) {
            Some(id) => (StepView::AskDocument {
                request: sent(Method::Get, "/v1/pages/"@ + id, None, None),
                then: if include_markdown {
                    AfterDocumentView::FetchMarkdown { page: page@, include_transcript }
                } else {
                    AfterDocumentView::Emit
                },
            }),
            None => told(no_id_message(page@)),
        },
{
}

/// A property of a page is asked for by the ids of both.
pub proof fn properties_are_got_by_id(
    page: String,
    property: String,
    cursor: CursorArgs,
    read: Result<Seq<char>, Seq<char>>,
)
    ensures
        (PageCommand::Property { page, property, cursor }).first_step(read) == match normalized_id(
            page@,
        ) {
            Some(id) => for_document(
                sent(
                    Method::Get,
                    "/v1/pages/"@ + id + "/properties/"@ + property@,
                    Some(page_parameters(cursor)),
                    None,
                ),
            ),
            None => told(no_id_message(page@)),
        },
{
    parameters_choose_a_page(cursor);
}

/// What is known of where a new page goes decides what is sent first: the page itself, or a request
/// for the data source.
pub proof fn new_pages_are_sent(
    target: ParentTarget,
    title: String,
    from_file: bool,
    stdin: bool,
    read: Result<Seq<char>, Seq<char>>,
)
    ensures
        ({
            let step = (PageCommand::Create { target, title, from_file, stdin }).first_step(read);
            match (markdown_from(from_file, stdin, read), target) {
                (Err(message), _) => step == told(message),
                (Ok(markdown), ParentTarget::Page(raw)) => step == match normalized_id(raw@) {
                    Some(id) => for_document(
                        sent(
                            Method::Post,
                            "/v1/pages"@,
                            None,
                            Some(new_page(ParentView::Page { page_id: id }, title@, markdown)),
                        ),
                    ),
                    None => told(no_id_message(raw@)),
                },
                (Ok(markdown), ParentTarget::DataSource { data_source, title_property }) => step
                    == match (normalized_id(data_source@), title_property) {
                    (Some(id), Some(name)) => for_document(
                        sent(
                            Method::Post,
                            "/v1/pages"@,
                            None,
                            Some(
                                new_page(
                                    ParentView::DataSource {
                                        data_source_id: id,
                                        title_property: name@,
                                    },
                                    title@,
                                    markdown,
                                ),
                            ),
                        ),
                    ),
                    (Some(id), None) => (StepView::AskDocument {
                        request: sent(Method::Get, "/v1/data_sources/"@ + id, None, None),
                        then: AfterDocumentView::CreatePage {
                            lookup: ParentLookupView::DataSource { id },
                            title: title@,
                            markdown,
                        },
                    }),
                    (None, _) => told(no_id_message(data_source@)),
                },
                (Ok(markdown), ParentTarget::Detect(raw)) => step == match normalized_id(raw@) {
                    Some(id) => (StepView::AskDocument {
                        request: sent(Method::Get, "/v1/data_sources/"@ + id, None, None),
                        then: AfterDocumentView::CreatePage {
                            lookup: ParentLookupView::Detect { id },
                            title: title@,
                            markdown,
                        },
                    }),
                    None => told(no_id_message(raw@)),
                },
            }
        }),
{
}

/// Markdown is added to the page that is named, and put in place of its contents where that is asked
/// for.
pub proof fn markdown_is_sent_to_its_page(
    page: String,
    from_file: bool,
    stdin: bool,
    allow_deleting_content: bool,
    read: Result<Seq<char>, Seq<char>>,
)
    ensures
        ({
            let append = (PageCommand::Append { page, from_file, stdin }).first_step(read);
            let replace = (PageCommand::Replace {
                page,
                from_file,
                stdin,
                allow_deleting_content,
            }).first_step(read);
            match (markdown_from(from_file, stdin, read), normalized_id(page@)) {
                (Err(message), _) => append == told(message) && replace == told(message),
                (Ok(None), _) => {
                    &&& append == told("provide markdown with --from-file or --stdin"@)
                    &&& replace == told("provide markdown with --from-file or --stdin"@)
                },
                (Ok(Some(_)), None) => {
                    &&& append == told(no_id_message(page@))
                    &&& replace == told(no_id_message(page@))
                },
                (Ok(Some(text)), Some(id)) => {
                    &&& append == for_markdown(
                        sent(
                            Method::Patch,
                            "/v1/pages/"@ + id + "/markdown"@,
                            None,
                            Some(appended_markdown(text)),
                        ),
                        "failed to decode markdown append response"@,
                    )
                    &&& replace == for_markdown(
                        sent(
                            Method::Patch,
                            "/v1/pages/"@ + id + "/markdown"@,
                            None,
                            Some(replaced_markdown(text, allow_deleting_content)),
                        ),
                        "failed to decode markdown replace response"@,
                    )
                },
            }
        }),
{
}

/// A page is changed by the document that is given, and put in the trash or taken out of it by its
/// one field.
pub proof fn pages_are_changed_as_asked(
    page: String,
    body: JsonInputArgs,
    read: Result<Seq<char>, Seq<char>>,
)
    ensures
        (PageCommand::Update { page, body }).first_step(read) == match (
            body_from(body, read),
            normalized_id(page@),
        ) {
            (Err(message), _) => told(message),
            (Ok(_), None) => told(no_id_message(page@)),
            (Ok(document), Some(id)) => for_document(
                sent(Method::Patch, "/v1/pages/"@ + id, None, Some(document)),
            ),
        },
        normalized_id(page@) is None ==> {
            &&& (PageCommand::Trash { page }).first_step(read) == told(no_id_message(page@))
            &&& (PageCommand::Restore { page }).first_step(read) == told(no_id_message(page@))
        },
        normalized_id(page@) matches Some(id) ==> {
            let trash = (PageCommand::Trash { page }).first_step(read);
            let restore = (PageCommand::Restore { page }).first_step(read);
            let away = trash->AskDocument_request.body->0;
            let back = restore->AskDocument_request.body->0;
            &&& trash == for_document(
                sent(Method::Patch, "/v1/pages/"@ + id, None, Some(away)),
            )
            &&& restore == for_document(
                sent(Method::Patch, "/v1/pages/"@ + id, None, Some(back)),
            )
            &&& is_object(away) && fields_of(away).dom() == set!["in_trash"@]
            &&& fields_of(away)["in_trash"@] == JsonView::Bool(true)
            &&& is_object(back) && fields_of(back).dom() == set!["in_trash"@]
            &&& fields_of(back)["in_trash"@] == JsonView::Bool(false)
        },
{
    let trash = (PageCommand::Trash { page }).first_step(read);
    let restore = (PageCommand::Restore { page }).first_step(read);
    if normalized_id(page@) is Some {
        let away = trash->AskDocument_request.body->0;
        let back = restore->AskDocument_request.body->0;
        assert(fields_of(away).dom() =~= set!["in_trash"@]);
        assert(fields_of(back).dom() =~= set!["in_trash"@]);
    }
}

/// What a command on pages reads: the file or standard input, where just one of them is named.
pub proof fn page_commands_read_what_they_need(command: PageCommand)
    ensures
        command.wanted() == match command {
            PageCommand::Create { from_file, stdin, .. } => markdown_place(from_file, stdin),
            PageCommand::Append { from_file, stdin, .. } => markdown_place(from_file, stdin),
            PageCommand::Replace { from_file, stdin, .. } => markdown_place(from_file, stdin),
            PageCommand::Update { body, .. } => body_place(body),
            _ => Input::Nothing,
        },
{
}

/// What the other commands read: the file or standard input that the document comes from.
pub proof fn commands_read_what_they_need(
    target: String,
    filter_json: Option<String>,
    sort_json: Option<String>,
    cursor: CursorArgs,
    body: JsonInputArgs,
)
    ensures
        body.wanted() == body_place(body),
        (DataSourceCommand::Get { data_source: target }).wanted() == Input::Nothing,
        (DataSourceCommand::Query {
            data_source: target,
            filter_json,
            sort_json,
            cursor,
        }).wanted() == Input::Nothing,
        (DataSourceCommand::Create { body }).wanted() == body_place(body),
        (DataSourceCommand::Update { data_source: target, body }).wanted() == body_place(body),
        (DatabaseCommand::Get { database: target }).wanted() == Input::Nothing,
        (DatabaseCommand::Create { body }).wanted() == body_place(body),
        (DatabaseCommand::Update { database: target, body }).wanted() == body_place(body),
        (BlockCommand::Get { block: target }).wanted() == Input::Nothing,
        (BlockCommand::Children { block: target, cursor }).wanted() == Input::Nothing,
        (BlockCommand::Append { block: target, body }).wanted() == body_place(body),
        (BlockCommand::Update { block: target, body }).wanted() == body_place(body),
        (BlockCommand::Delete { block: target }).wanted() == Input::Nothing,
        (CommentCommand::List { target, cursor }).wanted() == Input::Nothing,
        (CommentCommand::Get { comment: target }).wanted() == Input::Nothing,
        (CommentCommand::Create { body }).wanted() == body_place(body),
{
}

/// The JSON in a flag that may be missing, or what the user is told of the flag.
pub open spec fn flag_from(raw: Option<String>, flag: Seq<char>) -> Result<
    Option<JsonView>,
    Seq<char>,
> {
    match raw {
        None => Ok(None),
        Some(text) => match document_of(text@) {
            Some(document) => Ok(Some(document)),
            None => Err("failed to parse "@ + flag + " as JSON"@),
        },
    }
}

/// A data source is queried with the filter, the sorts and the page that the flags give.
pub proof fn data_sources_are_queried(
    data_source: String,
    filter_json: Option<String>,
    sort_json: Option<String>,
    cursor: CursorArgs,
    read: Result<Seq<char>, Seq<char>>,
)
    ensures
        (DataSourceCommand::Query { data_source, filter_json, sort_json, cursor }).first_step(read)
            == match (
            flag_from(filter_json, "--filter-json"@),
            flag_from(sort_json, "--sort-json"@),
            normalized_id(data_source@),
        ) {
            (Err(message), _, _) => told(message),
            (Ok(_), Err(message), _) => told(message),
            (Ok(_), Ok(_), None) => told(no_id_message(data_source@)),
            (Ok(filter), Ok(sorts), Some(id)) => for_list(
                sent(
                    Method::Post,
                    "/v1/data_sources/"@ + id + "/query"@,
                    None,
                    Some(query_value(filter, sorts, cursor.page_size, view_of(cursor.cursor))),
                ),
                "failed to decode data source query response"@,
            ),
        },
{
}

/// Data sources are asked for, created and changed under their own path.
pub proof fn data_sources_are_reached(
    data_source: String,
    body: JsonInputArgs,
    read: Result<Seq<char>, Seq<char>>,
)
    ensures
        (DataSourceCommand::Get { data_source }).first_step(read) == match normalized_id(
            data_source@,
        ) {
            Some(id) => for_document(sent(Method::Get, "/v1/data_sources/"@ + id, None, None)),
            None => told(no_id_message(data_source@)),
        },
        (DataSourceCommand::Create { body }).first_step(read) == match body_from(body, read) {
            Ok(document) => for_document(
                sent(Method::Post, "/v1/data_sources"@, None, Some(document)),
            ),
            Err(message) => told(message),
        },
        (DataSourceCommand::Update { data_source, body }).first_step(read) == match (
            body_from(body, read),
            normalized_id(data_source@),
        ) {
            (Err(message), _) => told(message),
            (Ok(_), None) => told(no_id_message(data_source@)),
            (Ok(document), Some(id)) => for_document(
                sent(Method::Patch, "/v1/data_sources/"@ + id, None, Some(document)),
            ),
        },
{
}

/// Databases are asked for, created and changed under their own path.
pub proof fn databases_are_reached(
    database: String,
    body: JsonInputArgs,
    read: Result<Seq<char>, Seq<char>>,
)
    ensures
        (DatabaseCommand::Get { database }).first_step(read) == match normalized_id(database@) {
            Some(id) => for_document(sent(Method::Get, "/v1/databases/"@ + id, None, None)),
            None => told(no_id_message(database@)),
        },
        (DatabaseCommand::Create { body }).first_step(read) == match body_from(body, read) {
            Ok(document) => for_document(sent(Method::Post, "/v1/databases"@, None, Some(document))),
            Err(message) => told(message),
        },
        (DatabaseCommand::Update { database, body }).first_step(read) == match (
            body_from(body, read),
            normalized_id(database@),
        ) {
            (Err(message), _) => told(message),
            (Ok(_), None) => told(no_id_message(database@)),
            (Ok(document), Some(id)) => for_document(
                sent(Method::Patch, "/v1/databases/"@ + id, None, Some(document)),
            ),
        },
{
}

/// Blocks are asked for, changed and deleted under their own path, and so are the blocks in them.
pub proof fn blocks_are_reached(
    block: String,
    cursor: CursorArgs,
    body: JsonInputArgs,
    read: Result<Seq<char>, Seq<char>>,
)
    ensures
        (BlockCommand::Get { block }).first_step(read) == match normalized_id(block@) {
            Some(id) => for_document(sent(Method::Get, "/v1/blocks/"@ + id, None, None)),
            None => told(no_id_message(block@)),
        },
        (BlockCommand::Delete { block }).first_step(read) == match normalized_id(block@) {
            Some(id) => for_document(sent(Method::Delete, "/v1/blocks/"@ + id, None, None)),
            None => told(no_id_message(block@)),
        },
        (BlockCommand::Children { block, cursor }).first_step(read) == match normalized_id(block@) {
            Some(id) => for_list(
                sent(
                    Method::Get,
                    "/v1/blocks/"@ + id + "/children"@,
                    Some(page_parameters(cursor)),
                    None,
                ),
                "failed to decode block children response"@,
            ),
            None => told(no_id_message(block@)),
        },
        (BlockCommand::Update { block, body }).first_step(read) == match (
            body_from(body, read),
            normalized_id(block@),
        ) {
            (Err(message), _) => told(message),
            (Ok(_), None) => told(no_id_message(block@)),
            (Ok(document), Some(id)) => for_document(
                sent(Method::Patch, "/v1/blocks/"@ + id, None, Some(document)),
            ),
        },
{
    parameters_choose_a_page(cursor);
}

/// The blocks to add are those in the document's field `children`, which it must have. They go where
/// its field `position` says, where it has one.
pub proof fn blocks_are_added(
    block: String,
    body: JsonInputArgs,
    read: Result<Seq<char>, Seq<char>>,
)
    ensures
        (BlockCommand::Append { block, body }).first_step(read) == match body_from(body, read) {
            Err(message) => told(message),
            Ok(document) => match (at(document, "children"@), normalized_id(block@)) {
                (None, _) => told("JSON request body must include `children`"@),
                (Some(_), None) => told(no_id_message(block@)),
                (Some(children), Some(id)) => for_document(
                    sent(
                        Method::Patch,
                        "/v1/blocks/"@ + id + "/children"@,
                        None,
                        Some(appended_children(children, at(document, "position"@))),
                    ),
                ),
            },
        },
{
}

/// Comments are listed for what they stand on, asked for by id, and created.
pub proof fn comments_are_reached(
    target: String,
    cursor: CursorArgs,
    body: JsonInputArgs,
    read: Result<Seq<char>, Seq<char>>,
)
    ensures
        (CommentCommand::List { target, cursor }).first_step(read) == match normalized_id(target@) {
            Some(id) => for_list(
                sent(
                    Method::Get,
                    "/v1/comments"@,
                    Some(seq![("block_id"@, id)] + page_parameters(cursor)),
                    None,
                ),
                "failed to decode comments list response"@,
            ),
            None => told(no_id_message(target@)),
        },
        (CommentCommand::Get { comment: target }).first_step(read) == match normalized_id(target@) {
            Some(id) => for_document(sent(Method::Get, "/v1/comments/"@ + id, None, None)),
            None => told(no_id_message(target@)),
        },
        (CommentCommand::Create { body }).first_step(read) == match body_from(body, read) {
            Ok(document) => for_document(sent(Method::Post, "/v1/comments"@, None, Some(document))),
            Err(message) => told(message),
        },
{
    parameters_choose_a_page(cursor);
}

/// Users are listed and asked for by id, the bot itself by its own path.
pub proof fn users_are_reached(user: String, cursor: CursorArgs)
    ensures
        UserCommand::Me.first_step() == for_document(sent(Method::Get, "/v1/users/me"@, None, None)),
        (UserCommand::List { cursor }).first_step() == for_list(
            sent(Method::Get, "/v1/users"@, Some(page_parameters(cursor)), None),
            "failed to decode users list response"@,
        ),
        (UserCommand::Get { user }).first_step() == match normalized_id(user@) {
            Some(id) => for_document(sent(Method::Get, "/v1/users/"@ + id, None, None)),
            None => told(no_id_message(user@)),
        },
{
    parameters_choose_a_page(cursor);
}

/// Uploads are listed, with the status that is given, and asked for by id.
pub proof fn uploads_are_reached(status: Option<String>, file_upload: String, cursor: CursorArgs)
    ensures
        (FileUploadCommand::List { status, cursor }).first_step() == for_list(
            sent(
                Method::Get,
                "/v1/file_uploads"@,
                Some(
                    match status {
                        Some(wanted) => seq![("status"@, wanted@)] + page_parameters(cursor),
                        None => page_parameters(cursor),
                    },
                ),
                None,
            ),
            "failed to decode file uploads list response"@,
        ),
        (FileUploadCommand::Get { file_upload }).first_step() == match normalized_id(file_upload@) {
            Some(id) => for_document(sent(Method::Get, "/v1/file_uploads/"@ + id, None, None)),
            None => told(no_id_message(file_upload@)),
        },
{
    parameters_choose_a_page(cursor);
}

/// A file of up to 20 MiB is read, to be sent under its own name. A larger one, or one whose size
/// cannot be found out, is not.
pub proof fn files_are_read_unless_too_large(
    path: PathBuf,
    file: String,
    size: Option<u64>,
    content_type: Option<String>,
)
    ensures
        (FileUploadCommand::Create { path, file, size, content_type }).first_step() == match size {
            Some(n) => if n <= 20_971_520 {
                (StepView::ReadFile {
                    then: AfterReadView {
                        file: file@,
                        filename: name_of(path),
                        content_type: view_of(content_type),
                    },
                })
            } else {
                told(
                    "file "@ + file@ + " is "@ + decimal(n as nat)
                        + " bytes, which exceeds the 20 MB single-part upload limit"@,
                )
            },
            None => told("failed to read file "@ + file@),
        },
{
}

/// Once a file was read, an upload is created for it under its name and type.
pub proof fn read_files_are_announced(then: AfterReadView, read: bool)
    ensures
        then.answered(read) == match (read, then.filename) {
            (false, _) => told("failed to read file "@ + then.file),
            (true, None) => told("failed to determine the file name for upload"@),
            (true, Some(filename)) => (StepView::AskDocument {
                request: sent(
                    Method::Post,
                    "/v1/file_uploads"@,
                    None,
                    Some(new_upload(filename, then.content_type)),
                ),
                then: AfterDocumentView::SendUpload { filename, content_type: then.content_type },
            }),
        },
{
}

/// The file goes to the upload that the answer names, under its name and type, or as plain bytes
/// where no type is given. The upload is asked for once the file was sent.
pub proof fn files_go_to_their_uploads(
    filename: Seq<char>,
    content_type: Option<Seq<char>>,
    created: JsonView,
    file_upload_id: Seq<char>,
    reply: Result<JsonView, Seq<char>>,
)
    ensures
        (AfterDocumentView::SendUpload { filename, content_type }).answered(Ok(created))
            == match string_in(at(created, "id"@)) {
            Some(id) => (StepView::SendFile {
                path: "/v1/file_uploads/"@ + id + "/send"@,
                filename,
                content_type: match content_type {
                    Some(given) => given,
                    None => "application/octet-stream"@,
                },
                file_upload_id: id,
            }),
            None => told("file upload creation response did not include an id"@),
        },
        sent_file(file_upload_id, reply) == match (reply, normalized_id(file_upload_id)) {
            (Err(message), _) => told(message),
            (Ok(_), None) => told(no_id_message(file_upload_id)),
            (Ok(_), Some(id)) => for_document(
                sent(Method::Get, "/v1/file_uploads/"@ + id, None, None),
            ),
        },
{
}

/// A type that makes no sense is named.
pub proof fn bad_content_types_are_named(content_type: Seq<char>)
    ensures
        bad_content_type_message(content_type) == "invalid content type `"@ + content_type
            + "` for file upload"@,
{
}

/// The markdown of a page is asked for with its transcripts just where they are wanted, and both are
/// given back.
pub proof fn markdown_follows_its_page(
    page: Seq<char>,
    include_transcript: bool,
    document: JsonView,
    markdown: MarkdownView,
)
    ensures
        (AfterDocumentView::FetchMarkdown { page, include_transcript }).answered(Ok(document))
            == match normalized_id(page) {
            Some(id) => (StepView::AskMarkdown {
                request: sent(
                    Method::Get,
                    "/v1/pages/"@ + id + "/markdown"@,
                    Some(
                        if include_transcript {
                            seq![("include_transcript"@, "true"@)]
                        } else {
                            Seq::empty()
                        },
                    ),
                    None,
                ),
                context: "failed to decode markdown response"@,
                then: AfterMarkdownView::JoinPage { page: document },
            }),
            None => told(no_id_message(page)),
        },
        (AfterMarkdownView::JoinPage { page: document }).answered(Ok(markdown)) == StepView::Done(
            Ok(PayloadView::PageWithMarkdown { page: document, markdown }),
        ),
{
}

/// A new page goes into the data source that was asked for, with its title under the title property
/// which that has. An id that turns out not to be that of a data source is taken for that of a page,
/// where it was to be found out.
pub proof fn lookups_decide_where_pages_go(
    id: Seq<char>,
    title: Seq<char>,
    markdown: Option<Seq<char>>,
    reply: Result<JsonView, Seq<char>>,
)
    ensures
        ({
            let detect = (AfterDocumentView::CreatePage {
                lookup: ParentLookupView::Detect { id },
                title,
                markdown,
            }).answered(reply);
            let known = (AfterDocumentView::CreatePage {
                lookup: ParentLookupView::DataSource { id },
                title,
                markdown,
            }).answered(reply);
            let under_page = for_document(
                sent(
                    Method::Post,
                    "/v1/pages"@,
                    None,
                    Some(new_page(ParentView::Page { page_id: id }, title, markdown)),
                ),
            );
            let untitled = told(
                "could not determine the title property for data source `"@ + id + "`"@,
            );
            match reply {
                Ok(document) => match title_property(document) {
                    Some(name) => {
                        let inside = for_document(
                            sent(
                                Method::Post,
                                "/v1/pages"@,
                                None,
                                Some(
                                    new_page(
                                        ParentView::DataSource {
                                            data_source_id: id,
                                            title_property: name,
                                        },
                                        title,
                                        markdown,
                                    ),
                                ),
                            ),
                        );
                        detect == inside && known == inside
                    },
                    None => {
                        &&& known == untitled
                        &&& at(document, "object"@) == Some(JsonView::Text("data_source"@))
                            ==> detect == untitled
                        &&& at(document, "object"@) != Some(JsonView::Text("data_source"@))
                            ==> detect == under_page
                    },
                },
                Err(message) => {
                    &&& known == told(message)
                    &&& says_nothing(message) ==> detect == told(message)
                    &&& !says_nothing(message) ==> detect == under_page
                },
            }
        }),
{
}

/// What comes back is given back as it is, and a failure with its own words.
pub proof fn answers_are_results(
    filename: Seq<char>,
    content_type: Option<Seq<char>>,
    page: Seq<char>,
    include_transcript: bool,
    shown: JsonView,
    document: Result<JsonView, Seq<char>>,
    list: Result<ListView, Seq<char>>,
    markdown: Result<MarkdownView, Seq<char>>,
)
    ensures
        AfterDocumentView::Emit.answered(document) == match document {
            Ok(found) => StepView::Done(Ok(PayloadView::Document(found))),
            Err(message) => told(message),
        },
        AfterListView::Emit.answered(list) == match list {
            Ok(found) => StepView::Done(Ok(PayloadView::List(found))),
            Err(message) => told(message),
        },
        AfterMarkdownView::Emit.answered(markdown) == match markdown {
            Ok(found) => StepView::Done(Ok(PayloadView::Markdown(found))),
            Err(message) => told(message),
        },
        document matches Err(message) ==> (AfterDocumentView::SendUpload {
            filename,
            content_type,
        }).answered(document) == told(message),
        document matches Err(message) ==> (AfterDocumentView::FetchMarkdown {
            page,
            include_transcript,
        }).answered(document) == told(message),
        markdown matches Err(message) ==> (AfterMarkdownView::JoinPage { page: shown }).answered(
            markdown,
        ) == told(message),
{
}

/// A search asks for its pages one after another, and gives its list back once it has no more to ask
/// for. Each page goes to the search that asked for it.
pub proof fn searches_ask_page_by_page(
    query: Seq<char>,
    filter: SearchFilter,
    limit: nat,
    run: SearchView,
    page: Result<ListView, Seq<char>>,
)
    ensures
        ({
            let start = new_search(query, filter, limit);
            let first = search_step(start.step(limit > 0));
            &&& limit > 0 ==> first == (StepView::AskList {
                request: start.request(),
                context: None,
                then: AfterListView::Search(start),
            })
            &&& limit == 0 ==> first == StepView::Done(Ok(PayloadView::List(start.answer())))
        }),
        AfterListView::Search(run).answered(page) == match page {
            Err(message) => told(message),
            Ok(list) => match run.with_page(list).step(run.with_page(list).goes_on()) {
                SearchStepView::Ask { request, run: next } => (StepView::AskList {
                    request,
                    context: None,
                    then: AfterListView::Search(next),
                }),
                SearchStepView::Done(all) => StepView::Done(Ok(PayloadView::List(all))),
            },
        },
{
}

} // verus!
