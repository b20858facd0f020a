//! The commands that talk to the API: which request each of them starts with, and what it does with
//! the answer.
use std::path::PathBuf;

use vstd::prelude::*;

use crate::client::{
    appended_children, appended_markdown, object_of, query_value, replaced_markdown,
    DataSourceQuery, NotionClient, SearchFilter,
};
use crate::errors::CliError;
use crate::flow::{
    ask_markdown, check_upload_size, continue_creation, continue_search, create_step,
    emit_document, emit_list, failed, search_step, size_checked, AfterDocument, AfterDocumentView,
    AfterMarkdown, AfterMarkdownView, AfterRead, AfterReadView, Step, StepView,
};
use crate::ids::normalized_id;
use crate::inputs::{
    flag_value, markdown_input, markdown_value, needed, parse_json_arg, read_optional_markdown,
    read_required_json_input, read_required_markdown, spelled, text_outcome, Input, JsonInputArgs,
    JSON_BODY_NEEDED, MARKDOWN_NEEDED, ONE_JSON_SOURCE,
};
use crate::json::{Json, JsonView};
use crate::parents::{data_source_parent, detected_parent, page_parent, ParentStepView};
use crate::paths::{file_name, name_of, parts};
use crate::request::{
    body_request, for_id, paging, plain_request, query_request, Method, RequestView,
};
use crate::search::new_search;
use crate::text::{borrowed, view_of};

verus! {

/// Which page of a list is asked for.
#[derive(Debug)]
pub struct CursorArgs {
    pub page_size: Option<usize>,
    pub cursor: Option<String>,
}

impl CursorArgs {
    /// The parameters of the query string.
    pub open spec fn parameters(self) -> Seq<(Seq<char>, Seq<char>)> {
        paging(self.page_size, view_of(self.cursor))
    }
}

/// Where a new page goes, as the user names it.
#[derive(Debug)]
pub enum ParentTarget {
    /// A page or a data source.
    Detect(String),
    Page(String),
    DataSource { data_source: String, title_property: Option<String> },
}

impl ParentTarget {
    /// Where a new page goes, where exactly one kind of parent is named.
    pub fn from_flags(
        parent: Option<String>,
        parent_page: Option<String>,
        parent_data_source: Option<String>,
        title_property: Option<String>,
    ) -> (r: Option<ParentTarget>)
        ensures
            r == (match (parent, parent_page, parent_data_source) {
                (Some(parent), _, _) => Some(ParentTarget::Detect(parent)),
                (None, Some(page), _) => Some(ParentTarget::Page(page)),
                (None, None, Some(data_source)) => Some(
                    ParentTarget::DataSource { data_source, title_property },
                ),
                (None, None, None) => None,
            }),
    {
        if let Some(parent) = parent {
            Some(ParentTarget::Detect(parent))
        } else if let Some(page) = parent_page {
            Some(ParentTarget::Page(page))
        } else if let Some(data_source) = parent_data_source {
            Some(ParentTarget::DataSource { data_source, title_property })
        } else {
            None
        }
    }

    /// What is known of the parent before anything is asked.
    pub open spec fn parent(self) -> ParentStepView {
        match self {
            ParentTarget::Detect(raw) => detected_parent(raw@),
            ParentTarget::Page(raw) => page_parent(raw@),
            ParentTarget::DataSource { data_source, title_property } => data_source_parent(
                data_source@,
                view_of(title_property),
            ),
        }
    }
}

/// What is done with pages.
#[derive(Debug)]
pub enum PageCommand {
    Get { page: String, include_markdown: bool, include_transcript: bool },
    Property { page: String, property: String, cursor: CursorArgs },
    Create { target: ParentTarget, title: String, from_file: bool, stdin: bool },
    Append { page: String, from_file: bool, stdin: bool },
    Replace { page: String, from_file: bool, stdin: bool, allow_deleting_content: bool },
    Update { page: String, body: JsonInputArgs },
    Trash { page: String },
    Restore { page: String },
}

/// What is sent to move a page to the trash or out of it.
pub open spec fn trash_value(in_trash: bool) -> JsonView {
    JsonView::Object(map!["in_trash"@ => JsonView::Bool(in_trash)])
}

/// Changes a page.
pub open spec fn page_update(page: Seq<char>, body: JsonView) -> Result<RequestView, Seq<char>> {
    for_id(page, |id: Seq<char>| body_request(Method::Patch, "/v1/pages/"@ + id, body))
}

/// Changes the markdown of a page.
pub open spec fn markdown_update(page: Seq<char>, body: JsonView) -> Result<
    RequestView,
    Seq<char>,
> {
    for_id(
        page,
        |id: Seq<char>| body_request(Method::Patch, "/v1/pages/"@ + id + "/markdown"@, body),
    )
}

/// What the user is told where the answer to added markdown makes no sense.
pub const BAD_APPEND: &'static str = "failed to decode markdown append response";

/// What the user is told where the answer to replaced markdown makes no sense.
pub const BAD_REPLACE: &'static str = "failed to decode markdown replace response";

impl PageCommand {
    /// What has to be read before the command can start.
    pub open spec fn wanted(self) -> Input {
        match self {
            PageCommand::Create { from_file, stdin, .. }
            | PageCommand::Append { from_file, stdin, .. }
            | PageCommand::Replace { from_file, stdin, .. } => if from_file == stdin {
                Input::Nothing
            } else if from_file {
                Input::File
            } else {
                Input::Stdin
            },
            PageCommand::Update { body, .. } => body.wanted(),
            _ => Input::Nothing,
        }
    }

    /// What has to be read before the command can start.
    pub fn input(&self) -> (r: Input)
        ensures
            r == self.wanted(),
    {
        match self {
            PageCommand::Create { from_file, stdin, .. } => markdown_input(*from_file, *stdin),
            PageCommand::Append { from_file, stdin, .. } => markdown_input(*from_file, *stdin),
            PageCommand::Replace { from_file, stdin, .. } => markdown_input(*from_file, *stdin),
            PageCommand::Update { body, .. } => body.input(),
            _ => Input::Nothing,
        }
    }

    /// What the command does first, where `read` is what the file or standard input gave.
    pub open spec fn first_step(self, read: Result<Seq<char>, Seq<char>>) -> StepView {
        match self {
            PageCommand::Get { page, include_markdown, include_transcript } => match for_id(
                page@,
                |id: Seq<char>| plain_request(Method::Get, "/v1/pages/"@ + id),
            ) {
                Ok(request) => StepView::AskDocument {
                    request,
                    then: if include_markdown {
                        AfterDocumentView::FetchMarkdown { page: page@, include_transcript }
                    } else {
                        AfterDocumentView::Emit
                    },
                },
                Err(message) => failed(message),
            },
            PageCommand::Property { page, property, cursor } => emit_document(
                for_id(
                    page@,
                    |id: Seq<char>|
                        query_request(
                            "/v1/pages/"@ + id + "/properties/"@ + property@,
                            cursor.parameters(),
                        ),
                ),
            ),
            PageCommand::Create { target, title, from_file, stdin } => match markdown_value(
                from_file,
                stdin,
                read,
            ) {
                Ok(markdown) => create_step(target.parent(), title@, markdown),
                Err(message) => failed(message),
            },
            PageCommand::Append { page, from_file, stdin } => match needed(
                markdown_value(from_file, stdin, read),
                MARKDOWN_NEEDED@,
            ) {
                Ok(markdown) => ask_markdown(
                    markdown_update(page@, appended_markdown(markdown)),
                    BAD_APPEND@,
                    AfterMarkdownView::Emit,
                ),
                Err(message) => failed(message),
            },
            PageCommand::Replace { page, from_file, stdin, allow_deleting_content } => match needed(
                markdown_value(from_file, stdin, read),
                MARKDOWN_NEEDED@,
            ) {
                Ok(markdown) => ask_markdown(
                    markdown_update(page@, replaced_markdown(markdown, allow_deleting_content)),
                    BAD_REPLACE@,
                    AfterMarkdownView::Emit,
                ),
                Err(message) => failed(message),
            },
            PageCommand::Update { page, body } => match needed(
                body.document(read),
                JSON_BODY_NEEDED@,
            ) {
                Ok(document) => emit_document(page_update(page@, document)),
                Err(message) => failed(message),
            },
            PageCommand::Trash { page } => emit_document(page_update(page@, trash_value(true))),
            PageCommand::Restore { page } => emit_document(page_update(page@, trash_value(false))),
        }
    }
}

/// Starts a command on pages. `read` is what the file or standard input gave, where one of them had
/// to be read.
pub fn handle_page(
    client: &NotionClient,
    command: PageCommand,
    read: Result<String, CliError>,
) -> (r: Step)
    ensures
        r@ == command.first_step(text_outcome(read)),
{
    match command {
        PageCommand::Get { page, include_markdown, include_transcript } => {
            let request = match client.get_page(page.as_str()) {
                Ok(request) => request,
                Err(e) => {
                    return Step::failed(e);
                },
            };
            let then = if include_markdown {
                AfterDocument::FetchMarkdown { page, include_transcript }
            } else {
                AfterDocument::Emit
            };
            Step::AskDocument { request, then }
        },
        PageCommand::Property { page, property, cursor } => Step::emit_document(
            client.get_page_property(
                page.as_str(),
                property.as_str(),
                cursor.page_size,
                cursor.cursor,
            ),
        ),
        PageCommand::Create { target, title, from_file, stdin } => {
            let markdown = match read_optional_markdown(from_file, stdin, read) {
                Ok(markdown) => markdown,
                Err(e) => {
                    return Step::failed(e);
                },
            };
            let parent = match target {
                ParentTarget::Detect(raw) => client.resolve_create_parent(raw.as_str()),
                ParentTarget::Page(raw) => client.page_parent(raw.as_str()),
                ParentTarget::DataSource { data_source, title_property } =>
                    client.resolve_data_source_parent(data_source.as_str(), title_property),
            };
            continue_creation(client, parent, title, markdown)
        },
        PageCommand::Append { page, from_file, stdin } => {
            match read_required_markdown(from_file, stdin, read) {
                Ok(markdown) => Step::ask_markdown(
                    client.append_page_markdown(page.as_str(), markdown.as_str()),
                    BAD_APPEND,
                    AfterMarkdown::Emit,
                ),
                Err(e) => Step::failed(e),
            }
        },
        PageCommand::Replace { page, from_file, stdin, allow_deleting_content } => {
            match read_required_markdown(from_file, stdin, read) {
                Ok(markdown) => Step::ask_markdown(
                    client.replace_page_markdown(
                        page.as_str(),
                        markdown.as_str(),
                        allow_deleting_content,
                    ),
                    BAD_REPLACE,
                    AfterMarkdown::Emit,
                ),
                Err(e) => Step::failed(e),
            }
        },
        PageCommand::Update { page, body } => match read_required_json_input(&body, read) {
            Ok(document) => Step::emit_document(client.update_page(page.as_str(), document)),
            Err(e) => Step::failed(e),
        },
        PageCommand::Trash { page } => Step::emit_document(
            client.update_page(page.as_str(), object_of("in_trash", Json::boolean(true))),
        ),
        PageCommand::Restore { page } => Step::emit_document(
            client.update_page(page.as_str(), object_of("in_trash", Json::boolean(false))),
        ),
    }
}

/// Starts a search.
pub fn handle_search(
    client: &NotionClient,
    query: &str,
    filter: SearchFilter,
    limit: usize,
) -> (r: Step)
    ensures
        r@ == search_step(new_search(query@, filter, limit as nat).step(limit > 0)),
{
    continue_search(client.search(query, filter, limit))
}

/// What is done with data sources.
#[derive(Debug)]
pub enum DataSourceCommand {
    Get { data_source: String },
    Query {
        data_source: String,
        filter_json: Option<String>,
        sort_json: Option<String>,
        cursor: CursorArgs,
    },
    Create { body: JsonInputArgs },
    Update { data_source: String, body: JsonInputArgs },
}

/// What the user is told where the entries of a data source make no sense.
pub const BAD_QUERY: &'static str = "failed to decode data source query response";

impl DataSourceCommand {
    /// What has to be read before the command can start.
    pub open spec fn wanted(self) -> Input {
        match self {
            DataSourceCommand::Create { body } => body.wanted(),
            DataSourceCommand::Update { body, .. } => body.wanted(),
            _ => Input::Nothing,
        }
    }

    /// What has to be read before the command can start.
    pub fn input(&self) -> (r: Input)
        ensures
            r == self.wanted(),
    {
        match self {
            DataSourceCommand::Create { body } => body.input(),
            DataSourceCommand::Update { body, .. } => body.input(),
            _ => Input::Nothing,
        }
    }

    /// What the command does first, where `read` is what the file or standard input gave.
    pub open spec fn first_step(self, read: Result<Seq<char>, Seq<char>>) -> StepView {
        match self {
            DataSourceCommand::Get { data_source } => emit_document(
                for_id(
                    data_source@,
                    |id: Seq<char>| plain_request(Method::Get, "/v1/data_sources/"@ + id),
                ),
            ),
            DataSourceCommand::Query { data_source, filter_json, sort_json, cursor } => {
                let filter = flag_value(
                    view_of(filter_json),
                    spelled(view_of(filter_json)),
                    "--filter-json"@,
                );
                let sorts = flag_value(
                    view_of(sort_json),
                    spelled(view_of(sort_json)),
                    "--sort-json"@,
                );
                match (filter, sorts) {
                    (Err(message), _) => failed(message),
                    (Ok(_), Err(message)) => failed(message),
                    (Ok(filter), Ok(sorts)) => emit_list(
                        for_id(
                            data_source@,
                            |id: Seq<char>|
                                body_request(
                                    Method::Post,
                                    "/v1/data_sources/"@ + id + "/query"@,
                                    query_value(
                                        filter,
                                        sorts,
                                        cursor.page_size,
                                        view_of(cursor.cursor),
                                    ),
                                ),
                        ),
                        BAD_QUERY@,
                    ),
                }
            },
            DataSourceCommand::Create { body } => match needed(
                body.document(read),
                JSON_BODY_NEEDED@,
            ) {
                Ok(document) => emit_document(
                    Ok(body_request(Method::Post, "/v1/data_sources"@, document)),
                ),
                Err(message) => failed(message),
            },
            DataSourceCommand::Update { data_source, body } => match needed(
                body.document(read),
                JSON_BODY_NEEDED@,
            ) {
                Ok(document) => emit_document(
                    for_id(
                        data_source@,
                        |id: Seq<char>|
                            body_request(Method::Patch, "/v1/data_sources/"@ + id, document),
                    ),
                ),
                Err(message) => failed(message),
            },
        }
    }
}

/// Starts a command on data sources. `read` is what the file or standard input gave, where one of
/// them had to be read.
pub fn handle_data_source(
    client: &NotionClient,
    command: DataSourceCommand,
    read: Result<String, CliError>,
) -> (r: Step)
    ensures
        r@ == command.first_step(text_outcome(read)),
{
    match command {
        DataSourceCommand::Get { data_source } => Step::emit_document(
            client.get_data_source(data_source.as_str()),
        ),
        DataSourceCommand::Query { data_source, filter_json, sort_json, cursor } => {
            let filter = match parse_json_arg(borrowed(&filter_json), "--filter-json") {
                Ok(filter) => filter,
                Err(e) => {
                    return Step::failed(e);
                },
            };
            let sorts = match parse_json_arg(borrowed(&sort_json), "--sort-json") {
                Ok(sorts) => sorts,
                Err(e) => {
                    return Step::failed(e);
                },
            };
            let query = DataSourceQuery {
                filter,
                sorts,
                page_size: cursor.page_size,
                cursor: cursor.cursor,
            };
            Step::emit_list(client.query_data_source(data_source.as_str(), query), BAD_QUERY)
        },
        DataSourceCommand::Create { body } => match read_required_json_input(&body, read) {
            Ok(document) => Step::emit_document(Ok(client.create_data_source(document))),
            Err(e) => Step::failed(e),
        },
        DataSourceCommand::Update { data_source, body } => match read_required_json_input(
            &body,
            read,
        ) {
            Ok(document) => Step::emit_document(
                client.update_data_source(data_source.as_str(), document),
            ),
            Err(e) => Step::failed(e),
        },
    }
}

/// What is done with databases.
#[derive(Debug)]
pub enum DatabaseCommand {
    Get { database: String },
    Create { body: JsonInputArgs },
    Update { database: String, body: JsonInputArgs },
}

impl DatabaseCommand {
    /// What has to be read before the command can start.
    pub open spec fn wanted(self) -> Input {
        match self {
            DatabaseCommand::Get { .. } => Input::Nothing,
            DatabaseCommand::Create { body } => body.wanted(),
            DatabaseCommand::Update { body, .. } => body.wanted(),
        }
    }

    /// What has to be read before the command can start.
    pub fn input(&self) -> (r: Input)
        ensures
            r == self.wanted(),
    {
        match self {
            DatabaseCommand::Get { .. } => Input::Nothing,
            DatabaseCommand::Create { body } => body.input(),
            DatabaseCommand::Update { body, .. } => body.input(),
        }
    }

    /// What the command does first, where `read` is what the file or standard input gave.
    pub open spec fn first_step(self, read: Result<Seq<char>, Seq<char>>) -> StepView {
        match self {
            DatabaseCommand::Get { database } => emit_document(
                for_id(
                    database@,
                    |id: Seq<char>| plain_request(Method::Get, "/v1/databases/"@ + id),
                ),
            ),
            DatabaseCommand::Create { body } => match needed(
                body.document(read),
                JSON_BODY_NEEDED@,
            ) {
                Ok(document) => emit_document(
                    Ok(body_request(Method::Post, "/v1/databases"@, document)),
                ),
                Err(message) => failed(message),
            },
            DatabaseCommand::Update { database, body } => match needed(
                body.document(read),
                JSON_BODY_NEEDED@,
            ) {
                Ok(document) => emit_document(
                    for_id(
                        database@,
                        |id: Seq<char>|
                            body_request(Method::Patch, "/v1/databases/"@ + id, document),
                    ),
                ),
                Err(message) => failed(message),
            },
        }
    }
}

/// Starts a command on databases. `read` is what the file or standard input gave, where one of them
/// had to be read.
pub fn handle_database(
    client: &NotionClient,
    command: DatabaseCommand,
    read: Result<String, CliError>,
) -> (r: Step)
    ensures
        r@ == command.first_step(text_outcome(read)),
{
    match command {
        DatabaseCommand::Get { database } => Step::emit_document(
            client.get_database(database.as_str()),
        ),
        DatabaseCommand::Create { body } => match read_required_json_input(&body, read) {
            Ok(document) => Step::emit_document(Ok(client.create_database(document))),
            Err(e) => Step::failed(e),
        },
        DatabaseCommand::Update { database, body } => match read_required_json_input(&body, read) {
            Ok(document) => Step::emit_document(
                client.update_database(database.as_str(), document),
            ),
            Err(e) => Step::failed(e),
        },
    }
}

/// What is done with blocks.
#[derive(Debug)]
pub enum BlockCommand {
    Get { block: String },
    Children { block: String, cursor: CursorArgs },
    Append { block: String, body: JsonInputArgs },
    Update { block: String, body: JsonInputArgs },
    Delete { block: String },
}

/// What the user is told where the blocks in a block make no sense.
pub const BAD_CHILDREN: &'static str = "failed to decode block children response";

/// What the user is told where there are no blocks to add.
pub const CHILDREN_NEEDED: &'static str = "JSON request body must include `children`";

impl BlockCommand {
    /// What has to be read before the command can start.
    pub open spec fn wanted(self) -> Input {
        match self {
            BlockCommand::Append { body, .. } => body.wanted(),
            BlockCommand::Update { body, .. } => body.wanted(),
            _ => Input::Nothing,
        }
    }

    /// What has to be read before the command can start.
    pub fn input(&self) -> (r: Input)
        ensures
            r == self.wanted(),
    {
        match self {
            BlockCommand::Append { body, .. } => body.input(),
            BlockCommand::Update { body, .. } => body.input(),
            _ => Input::Nothing,
        }
    }

    /// What the command does first, where `read` is what the file or standard input gave.
    pub open spec fn first_step(self, read: Result<Seq<char>, Seq<char>>) -> StepView {
        match self {
            BlockCommand::Get { block } => emit_document(
                for_id(
                    block@,
                    |id: Seq<char>| plain_request(Method::Get, "/v1/blocks/"@ + id),
                ),
            ),
            BlockCommand::Children { block, cursor } => emit_list(
                for_id(
                    block@,
                    |id: Seq<char>|
                        query_request(
                            "/v1/blocks/"@ + id + "/children"@,
                            cursor.parameters(),
                        ),
                ),
                BAD_CHILDREN@,
            ),
            BlockCommand::Append { block, body } => match needed(
                body.document(read),
                JSON_BODY_NEEDED@,
            ) {
                Ok(document) => append_step(block@, document),
                Err(message) => failed(message),
            },
            BlockCommand::Update { block, body } => match needed(
                body.document(read),
                JSON_BODY_NEEDED@,
            ) {
                Ok(document) => emit_document(
                    for_id(
                        block@,
                        |id: Seq<char>|
                            body_request(Method::Patch, "/v1/blocks/"@ + id, document),
                    ),
                ),
                Err(message) => failed(message),
            },
            BlockCommand::Delete { block } => emit_document(
                for_id(
                    block@,
                    |id: Seq<char>| plain_request(Method::Delete, "/v1/blocks/"@ + id),
                ),
            ),
        }
    }
}

/// The blocks in the document are added to a block.
pub open spec fn append_step(block: Seq<char>, document: JsonView) -> StepView {
    match document.field("children"@) {
        Some(children) => emit_document(
            for_id(
                block,
                |id: Seq<char>|
                    body_request(
                        Method::Patch,
                        "/v1/blocks/"@ + id + "/children"@,
                        appended_children(children, document.field("position"@)),
                    ),
            ),
        ),
        None => failed(CHILDREN_NEEDED@),
    }
}

/// Adds the blocks in the document to a block.
pub fn append_blocks(client: &NotionClient, block: &str, document: &Json) -> (r: Step)
    ensures
        r@ == append_step(block@, document@),
{
    let children = match document.get("children") {
        Some(children) => children.clone(),
        None => {
            return Step::failed(CliError::new(CHILDREN_NEEDED));
        },
    };
    let position = match document.get("position") {
        Some(position) => Some(position.clone()),
        None => None,
    };
    Step::emit_document(client.append_block_children(block, children, position))
}

/// Starts a command on blocks. `read` is what the file or standard input gave, where one of them
/// had to be read.
pub fn handle_block(
    client: &NotionClient,
    command: BlockCommand,
    read: Result<String, CliError>,
) -> (r: Step)
    ensures
        r@ == command.first_step(text_outcome(read)),
{
    match command {
        BlockCommand::Get { block } => Step::emit_document(client.get_block(block.as_str())),
        BlockCommand::Children { block, cursor } => Step::emit_list(
            client.get_block_children(block.as_str(), cursor.page_size, cursor.cursor),
            BAD_CHILDREN,
        ),
        BlockCommand::Append { block, body } => match read_required_json_input(&body, read) {
            Ok(document) => append_blocks(client, block.as_str(), &document),
            Err(e) => Step::failed(e),
        },
        BlockCommand::Update { block, body } => match read_required_json_input(&body, read) {
            Ok(document) => Step::emit_document(client.update_block(block.as_str(), document)),
            Err(e) => Step::failed(e),
        },
        BlockCommand::Delete { block } => Step::emit_document(client.delete_block(block.as_str())),
    }
}

/// What is done with comments.
#[derive(Debug)]
pub enum CommentCommand {
    List { target: String, cursor: CursorArgs },
    Get { comment: String },
    Create { body: JsonInputArgs },
}

/// What the user is told where a list of comments makes no sense.
pub const BAD_COMMENTS: &'static str = "failed to decode comments list response";

impl CommentCommand {
    /// What has to be read before the command can start.
    pub open spec fn wanted(self) -> Input {
        match self {
            CommentCommand::Create { body } => body.wanted(),
            _ => Input::Nothing,
        }
    }

    /// What has to be read before the command can start.
    pub fn input(&self) -> (r: Input)
        ensures
            r == self.wanted(),
    {
        match self {
            CommentCommand::Create { body } => body.input(),
            _ => Input::Nothing,
        }
    }

    /// What the command does first, where `read` is what the file or standard input gave.
    pub open spec fn first_step(self, read: Result<Seq<char>, Seq<char>>) -> StepView {
        match self {
            CommentCommand::List { target, cursor } => emit_list(
                for_id(
                    target@,
                    |id: Seq<char>|
                        query_request(
                            "/v1/comments"@,
                            seq![("block_id"@, id)] + cursor.parameters(),
                        ),
                ),
                BAD_COMMENTS@,
            ),
            CommentCommand::Get { comment } => emit_document(
                for_id(
                    comment@,
                    |id: Seq<char>| plain_request(Method::Get, "/v1/comments/"@ + id),
                ),
            ),
            CommentCommand::Create { body } => match needed(
                body.document(read),
                JSON_BODY_NEEDED@,
            ) {
                Ok(document) => emit_document(
                    Ok(body_request(Method::Post, "/v1/comments"@, document)),
                ),
                Err(message) => failed(message),
            },
        }
    }
}

/// Starts a command on comments. `read` is what the file or standard input gave, where one of them
/// had to be read.
pub fn handle_comment(
    client: &NotionClient,
    command: CommentCommand,
    read: Result<String, CliError>,
) -> (r: Step)
    ensures
        r@ == command.first_step(text_outcome(read)),
{
    match command {
        CommentCommand::List { target, cursor } => Step::emit_list(
            client.list_comments(target.as_str(), cursor.page_size, cursor.cursor),
            BAD_COMMENTS,
        ),
        CommentCommand::Get { comment } => Step::emit_document(
            client.get_comment(comment.as_str()),
        ),
        CommentCommand::Create { body } => match read_required_json_input(&body, read) {
            Ok(document) => Step::emit_document(Ok(client.create_comment(document))),
            Err(e) => Step::failed(e),
        },
    }
}

/// What is done with users.
#[derive(Debug)]
pub enum UserCommand {
    Me,
    List { cursor: CursorArgs },
    Get { user: String },
}

/// What the user is told where a list of users makes no sense.
pub const BAD_USERS: &'static str = "failed to decode users list response";

impl UserCommand {
    /// What the command does first.
    pub open spec fn first_step(self) -> StepView {
        match self {
            UserCommand::Me => emit_document(
                Ok(plain_request(Method::Get, "/v1/users/me"@)),
            ),
            UserCommand::List { cursor } => emit_list(
                Ok(query_request("/v1/users"@, cursor.parameters())),
                BAD_USERS@,
            ),
            UserCommand::Get { user } => emit_document(
                for_id(
                    user@,
                    |id: Seq<char>| plain_request(Method::Get, "/v1/users/"@ + id),
                ),
            ),
        }
    }
}

/// Starts a command on users.
pub fn handle_user(client: &NotionClient, command: UserCommand) -> (r: Step)
    ensures
        r@ == command.first_step(),
{
    match command {
        UserCommand::Me => Step::emit_document(Ok(client.get_self())),
        UserCommand::List { cursor } => Step::emit_list(
            Ok(client.list_users(cursor.page_size, cursor.cursor)),
            BAD_USERS,
        ),
        UserCommand::Get { user } => Step::emit_document(client.get_user(user.as_str())),
    }
}

/// What is done with file uploads.
#[derive(Debug)]
pub enum FileUploadCommand {
    List { status: Option<String>, cursor: CursorArgs },
    Get { file_upload: String },
    /// The file is named by its path, and by the text that stands for it in messages. The size is
    /// missing where it could not be found out.
    Create { path: PathBuf, file: String, size: Option<u64>, content_type: Option<String> },
}

/// What the user is told where a list of file uploads makes no sense.
pub const BAD_UPLOADS: &'static str = "failed to decode file uploads list response";

impl FileUploadCommand {
    /// What the command does first.
    pub open spec fn first_step(self) -> StepView {
        match self {
            FileUploadCommand::List { status, cursor } => emit_list(
                Ok(
                    query_request(
                        "/v1/file_uploads"@,
                        (match status {
                            Some(s) => seq![("status"@, s@)],
                            None => Seq::empty(),
                        }) + cursor.parameters(),
                    ),
                ),
                BAD_UPLOADS@,
            ),
            FileUploadCommand::Get { file_upload } => emit_document(
                for_id(
                    file_upload@,
                    |id: Seq<char>| plain_request(Method::Get, "/v1/file_uploads/"@ + id),
                ),
            ),
            FileUploadCommand::Create { path, file, size, content_type } => match size_checked(
                file@,
                size,
            ) {
                Ok(()) => StepView::ReadFile {
                    then: AfterReadView {
                        file: file@,
                        filename: name_of(path),
                        content_type: view_of(content_type),
                    },
                },
                Err(message) => failed(message),
            },
        }
    }
}

/// Starts a command on file uploads. A file is sent under the last part of its path.
pub fn handle_file_upload(client: &NotionClient, command: FileUploadCommand) -> (r: Step)
    ensures
        r@ == command.first_step(),
        command matches FileUploadCommand::Create { path, .. } ==> (r matches Step::ReadFile { then }
            ==> (then.filename matches Some(name) ==> parts(path).len() > 0 && parts(path).last()
            == name@)),
{
    match command {
        FileUploadCommand::List { status, cursor } => Step::emit_list(
            Ok(client.list_file_uploads(borrowed(&status), cursor.page_size, cursor.cursor)),
            BAD_UPLOADS,
        ),
        FileUploadCommand::Get { file_upload } => Step::emit_document(
            client.get_file_upload(file_upload.as_str()),
        ),
        FileUploadCommand::Create { path, file, size, content_type } => {
            match check_upload_size(file.as_str(), size) {
                Ok(()) => Step::ReadFile {
                    then: AfterRead { file, filename: file_name(&path), content_type },
                },
                Err(e) => Step::failed(e),
            }
        },
    }
}

/// Where nothing has to be read before a command can start, what was read does not matter.
pub proof fn unwanted_input_changes_no_command(
    page: PageCommand,
    data_source: DataSourceCommand,
    database: DatabaseCommand,
    block: BlockCommand,
    comment: CommentCommand,
    one: Result<Seq<char>, Seq<char>>,
    other: Result<Seq<char>, Seq<char>>,
)
    ensures
        page.wanted() == Input::Nothing ==> page.first_step(one) == page.first_step(other),
        data_source.wanted() == Input::Nothing ==> data_source.first_step(one)
            == data_source.first_step(other),
        database.wanted() == Input::Nothing ==> database.first_step(one) == database.first_step(
            other,
        ),
        block.wanted() == Input::Nothing ==> block.first_step(one) == block.first_step(other),
        comment.wanted() == Input::Nothing ==> comment.first_step(one) == comment.first_step(other),
{
}

/// A command whose request body comes from two places fails at once.
pub proof fn two_bodies_are_refused(
    target: String,
    body: JsonInputArgs,
    read: Result<Seq<char>, Seq<char>>,
)
    requires
        body.conflict(),
    ensures
        (PageCommand::Update { page: target, body }).first_step(read) == failed(ONE_JSON_SOURCE@),
        (DataSourceCommand::Create { body }).first_step(read) == failed(ONE_JSON_SOURCE@),
        (DataSourceCommand::Update { data_source: target, body }).first_step(read) == failed(
            ONE_JSON_SOURCE@,
        ),
        (DatabaseCommand::Create { body }).first_step(read) == failed(ONE_JSON_SOURCE@),
        (DatabaseCommand::Update { database: target, body }).first_step(read) == failed(
            ONE_JSON_SOURCE@,
        ),
        (BlockCommand::Append { block: target, body }).first_step(read) == failed(ONE_JSON_SOURCE@),
        (BlockCommand::Update { block: target, body }).first_step(read) == failed(ONE_JSON_SOURCE@),
        (CommentCommand::Create { body }).first_step(read) == failed(ONE_JSON_SOURCE@),
{
}

/// Moving a page to the trash and restoring it are asked of the same page in the same way, but for
/// the flag.
pub proof fn restoring_goes_where_trashing_went(page: String, read: Result<Seq<char>, Seq<char>>)
    requires
        normalized_id(page@) is Some,
    ensures
        (PageCommand::Trash { page }).first_step(read) matches StepView::AskDocument {
            request: trash,
            ..
        } && (PageCommand::Restore { page }).first_step(read) matches StepView::AskDocument {
            request: restore,
            ..
        } && trash.method == restore.method && trash.path == restore.path && trash.body == Some(
            trash_value(true),
        ) && restore.body == Some(trash_value(false)),
{
}

} // verus!
