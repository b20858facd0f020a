//! What a command does, one exchange with the API at a time: each step names what goes out and what
//! is done with what comes back.
use vstd::prelude::*;
use vstd::string::StringExecFns;

use crate::client::{
    add_field, new_page, text_document, text_view, with_field, ListResponse, ListView,
    MarkdownView, NotionClient, PageMarkdown,
};
use crate::errors::CliError;
use crate::ids::{canonical_ids_are_kept, is_canonical, normalized_id};
use crate::inputs::{unreadable_file, unreadable_file_message};
use crate::json::{Json, JsonObject, JsonView};
use crate::parents::{ParentLookup, ParentLookupView, ParentStep, ParentStepView};
use crate::request::{
    body_request, for_id, outcome, plain_request, query_request, ApiRequest, Method, RequestView,
};
use crate::search::{SearchRun, SearchStep, SearchStepView, SearchView};
use crate::text::{decimal, decimal_string, view_of, view_of_str};
use crate::transport::{document_outcome, says_nothing};

verus! {

/// What a command gives back.
#[derive(Debug)]
pub enum Payload {
    Document(Json),
    List(ListResponse),
    Markdown(PageMarkdown),
    PageWithMarkdown { page: Json, markdown: PageMarkdown },
}

/// What a command gives back.
pub enum PayloadView {
    Document(JsonView),
    List(ListView),
    Markdown(MarkdownView),
    PageWithMarkdown { page: JsonView, markdown: MarkdownView },
}

impl View for Payload {
    type V = PayloadView;

    open spec fn view(&self) -> PayloadView {
        match self {
            Payload::Document(document) => PayloadView::Document(document@),
            Payload::List(list) => PayloadView::List(list@),
            Payload::Markdown(markdown) => PayloadView::Markdown(markdown@),
            Payload::PageWithMarkdown { page, markdown } => PayloadView::PageWithMarkdown {
                page: page@,
                markdown: markdown@,
            },
        }
    }
}

/// What is done with a document that comes back.
#[derive(Debug)]
pub enum AfterDocument {
    /// It is what the command gives back.
    Emit,
    /// It is a page, and its markdown is asked for next.
    FetchMarkdown { page: String, include_transcript: bool },
    /// It tells where a new page goes.
    CreatePage { lookup: ParentLookup, title: String, markdown: Option<String> },
    /// It is a new file upload, and the file is sent next.
    SendUpload { filename: String, content_type: Option<String> },
}

/// What is done with a document that comes back.
pub enum AfterDocumentView {
    Emit,
    FetchMarkdown { page: Seq<char>, include_transcript: bool },
    CreatePage { lookup: ParentLookupView, title: Seq<char>, markdown: Option<Seq<char>> },
    SendUpload { filename: Seq<char>, content_type: Option<Seq<char>> },
}

impl View for AfterDocument {
    type V = AfterDocumentView;

    open spec fn view(&self) -> AfterDocumentView {
        match self {
            AfterDocument::Emit => AfterDocumentView::Emit,
            AfterDocument::FetchMarkdown { page, include_transcript } =>
                AfterDocumentView::FetchMarkdown {
                page: page@,
                include_transcript: *include_transcript,
            },
            AfterDocument::CreatePage { lookup, title, markdown } =>
                AfterDocumentView::CreatePage {
                lookup: lookup@,
                title: title@,
                markdown: view_of(*markdown),
            },
            AfterDocument::SendUpload { filename, content_type } =>
                AfterDocumentView::SendUpload {
                filename: filename@,
                content_type: view_of(*content_type),
            },
        }
    }
}

/// What is done with a page of a list that comes back.
#[derive(Debug)]
pub enum AfterList {
    /// It is what the command gives back.
    Emit,
    /// It belongs to a search.
    Search(SearchRun),
}

/// What is done with a page of a list that comes back.
pub enum AfterListView {
    Emit,
    Search(SearchView),
}

impl View for AfterList {
    type V = AfterListView;

    open spec fn view(&self) -> AfterListView {
        match self {
            AfterList::Emit => AfterListView::Emit,
            AfterList::Search(run) => AfterListView::Search(run@),
        }
    }
}

/// What is done with markdown that comes back.
#[derive(Debug)]
pub enum AfterMarkdown {
    /// It is what the command gives back.
    Emit,
    /// It belongs to this page.
    JoinPage { page: Json },
}

/// What is done with markdown that comes back.
pub enum AfterMarkdownView {
    Emit,
    JoinPage { page: JsonView },
}

impl View for AfterMarkdown {
    type V = AfterMarkdownView;

    open spec fn view(&self) -> AfterMarkdownView {
        match self {
            AfterMarkdown::Emit => AfterMarkdownView::Emit,
            AfterMarkdown::JoinPage { page } => AfterMarkdownView::JoinPage { page: page@ },
        }
    }
}

/// What is done once a local file was read.
#[derive(Debug)]
pub struct AfterRead {
    pub file: String,
    pub filename: Option<String>,
    pub content_type: Option<String>,
}

/// What is done once a local file was read.
pub struct AfterReadView {
    pub file: Seq<char>,
    pub filename: Option<Seq<char>>,
    pub content_type: Option<Seq<char>>,
}

impl View for AfterRead {
    type V = AfterReadView;

    open spec fn view(&self) -> AfterReadView {
        AfterReadView {
            file: self.file@,
            filename: view_of(self.filename),
            content_type: view_of(self.content_type),
        }
    }
}

/// What is done once a file was sent: its upload is asked for.
#[derive(Debug)]
pub struct AfterFile {
    pub file_upload_id: String,
}

/// What a command does next.
#[derive(Debug)]
pub enum Step {
    /// A request for a document.
    AskDocument { request: ApiRequest, then: AfterDocument },
    /// A request for a page of a list. The user is told `context` where the answer is something
    /// else, or what is wrong with it where there is no `context`.
    AskList { request: ApiRequest, context: Option<&'static str>, then: AfterList },
    /// A request for markdown. The user is told `context` where the answer is something else.
    AskMarkdown { request: ApiRequest, context: &'static str, then: AfterMarkdown },
    /// The local file is read.
    ReadFile { then: AfterRead },
    /// The local file goes out, as a form, to `path`.
    SendFile { path: String, filename: String, content_type: String, then: AfterFile },
    /// There is nothing left to do.
    Done(Result<Payload, CliError>),
}

/// What a command does next.
pub enum StepView {
    AskDocument { request: RequestView, then: AfterDocumentView },
    AskList { request: RequestView, context: Option<Seq<char>>, then: AfterListView },
    AskMarkdown { request: RequestView, context: Seq<char>, then: AfterMarkdownView },
    ReadFile { then: AfterReadView },
    SendFile {
        path: Seq<char>,
        filename: Seq<char>,
        content_type: Seq<char>,
        file_upload_id: Seq<char>,
    },
    Done(Result<PayloadView, Seq<char>>),
}

impl View for Step {
    type V = StepView;

    open spec fn view(&self) -> StepView {
        match self {
            Step::AskDocument { request, then } => StepView::AskDocument {
                request: request@,
                then: then@,
            },
            Step::AskList { request, context, then } => StepView::AskList {
                request: request@,
                context: view_of_str(*context),
                then: then@,
            },
            Step::AskMarkdown { request, context, then } => StepView::AskMarkdown {
                request: request@,
                context: context@,
                then: then@,
            },
            Step::ReadFile { then } => StepView::ReadFile { then: then@ },
            Step::SendFile { path, filename, content_type, then } => StepView::SendFile {
                path: path@,
                filename: filename@,
                content_type: content_type@,
                file_upload_id: then.file_upload_id@,
            },
            Step::Done(Ok(payload)) => StepView::Done(Ok(payload@)),
            Step::Done(Err(e)) => StepView::Done(Err(e@)),
        }
    }
}

/// The command has failed.
pub open spec fn failed(message: Seq<char>) -> StepView {
    StepView::Done(Err(message))
}

/// The request goes out, if it could be made, and its document is given back.
pub open spec fn emit_document(request: Result<RequestView, Seq<char>>) -> StepView {
    match request {
        Ok(request) => StepView::AskDocument { request, then: AfterDocumentView::Emit },
        Err(message) => failed(message),
    }
}

/// The request goes out, if it could be made, and its page of a list is given back.
pub open spec fn emit_list(
    request: Result<RequestView, Seq<char>>,
    context: Seq<char>,
) -> StepView {
    match request {
        Ok(request) => StepView::AskList {
            request,
            context: Some(context),
            then: AfterListView::Emit,
        },
        Err(message) => failed(message),
    }
}

/// The request goes out, if it could be made, and its markdown is handed on.
pub open spec fn ask_markdown(
    request: Result<RequestView, Seq<char>>,
    context: Seq<char>,
    then: AfterMarkdownView,
) -> StepView {
    match request {
        Ok(request) => StepView::AskMarkdown { request, context, then },
        Err(message) => failed(message),
    }
}

impl Step {
    /// The command has failed.
    pub fn failed(e: CliError) -> (r: Step)
        ensures
            r@ == failed(e@),
    {
        Step::Done(Err(e))
    }

    /// The request goes out, if it could be made, and its document is given back.
    pub fn emit_document(request: Result<ApiRequest, CliError>) -> (r: Step)
        ensures
            r@ == emit_document(outcome(request)),
    {
        match request {
            Ok(request) => Step::AskDocument { request, then: AfterDocument::Emit },
            Err(e) => Step::failed(e),
        }
    }

    /// The request goes out, if it could be made, and its page of a list is given back.
    pub fn emit_list(request: Result<ApiRequest, CliError>, context: &'static str) -> (r: Step)
        ensures
            r@ == emit_list(outcome(request), context@),
    {
        match request {
            Ok(request) => Step::AskList {
                request,
                context: Some(context),
                then: AfterList::Emit,
            },
            Err(e) => Step::failed(e),
        }
    }

    /// The request goes out, if it could be made, and its markdown is handed on.
    pub fn ask_markdown(
        request: Result<ApiRequest, CliError>,
        context: &'static str,
        then: AfterMarkdown,
    ) -> (r: Step)
        ensures
            r@ == ask_markdown(outcome(request), context@, then@),
    {
        match request {
            Ok(request) => Step::AskMarkdown { request, context, then },
            Err(e) => Step::failed(e),
        }
    }
}

/// A search goes on or gives its list back.
pub open spec fn search_step(step: SearchStepView) -> StepView {
    match step {
        SearchStepView::Ask { request, run } => StepView::AskList {
            request,
            context: None,
            then: AfterListView::Search(run),
        },
        SearchStepView::Done(list) => StepView::Done(Ok(PayloadView::List(list))),
    }
}

/// A search goes on or gives its list back.
pub fn continue_search(step: SearchStep) -> (r: Step)
    ensures
        r@ == search_step(step@),
{
    match step {
        SearchStep::Ask { request, run } => Step::AskList {
            request,
            context: None,
            then: AfterList::Search(run),
        },
        SearchStep::Done(list) => Step::Done(Ok(Payload::List(list))),
    }
}

/// The page is created once it is known where it goes.
pub open spec fn create_step(
    parent: ParentStepView,
    title: Seq<char>,
    markdown: Option<Seq<char>>,
) -> StepView {
    match parent {
        ParentStepView::Ask { request, lookup } => StepView::AskDocument {
            request,
            then: AfterDocumentView::CreatePage { lookup, title, markdown },
        },
        ParentStepView::Known(Ok(parent)) => StepView::AskDocument {
            request: body_request(Method::Post, "/v1/pages"@, new_page(parent, title, markdown)),
            then: AfterDocumentView::Emit,
        },
        ParentStepView::Known(Err(message)) => failed(message),
    }
}

/// The page is created once it is known where it goes.
pub fn continue_creation(
    client: &NotionClient,
    parent: ParentStep,
    title: String,
    markdown: Option<String>,
) -> (r: Step)
    ensures
        r@ == create_step(parent@, title@, view_of(markdown)),
{
    match parent {
        ParentStep::Ask { request, lookup } => Step::AskDocument {
            request,
            then: AfterDocument::CreatePage { lookup, title, markdown },
        },
        ParentStep::Known(Ok(parent)) => Step::AskDocument {
            request: client.create_page(parent, title.as_str(), markdown),
            then: AfterDocument::Emit,
        },
        ParentStep::Known(Err(e)) => Step::failed(e),
    }
}

/// What the user is told where a new file upload has no id.
pub const NO_UPLOAD_ID: &'static str = "file upload creation response did not include an id";

/// What the user is told where the name of a file is not text.
pub const NO_FILE_NAME: &'static str = "failed to determine the file name for upload";

/// The type of a file where none is given.
pub const UNKNOWN_CONTENT_TYPE: &'static str = "application/octet-stream";

/// The size of the largest file that can be sent in one piece, in bytes.
pub const MAX_UPLOAD_SIZE: u64 = 20 * 1024 * 1024;

/// What is sent to create a file upload.
pub open spec fn new_upload(filename: Seq<char>, content_type: Option<Seq<char>>) -> JsonView {
    let fields = map![
        "mode"@ => JsonView::Text("single_part"@),
        "filename"@ => JsonView::Text(filename),
    ];
    JsonView::Object(with_field(fields, "content_type"@, text_view(content_type)))
}

/// A file upload is created, and the file is sent then.
pub open spec fn upload_step(filename: Seq<char>, content_type: Option<Seq<char>>) -> StepView {
    StepView::AskDocument {
        request: body_request(
            Method::Post,
            "/v1/file_uploads"@,
            new_upload(filename, content_type),
        ),
        then: AfterDocumentView::SendUpload { filename, content_type },
    }
}

impl NotionClient {
    /// Uploads a file in one piece: an upload is created, the file is sent, and the upload is asked
    /// for.
    pub fn upload_small_file(&self, filename: String, content_type: Option<String>) -> (r: Step)
        ensures
            r@ == upload_step(filename@, view_of(content_type)),
    {
        let mut body = JsonObject::new();
        body.insert("mode", Json::string("single_part"));
        body.insert("filename", Json::string(filename.as_str()));
        add_field(&mut body, "content_type", text_document(&content_type));
        Step::AskDocument {
            request: ApiRequest::with_body(Method::Post, "/v1/file_uploads", body.document()),
            then: AfterDocument::SendUpload { filename, content_type },
        }
    }
}

/// What the user is told where the type of a file makes no sense.
pub open spec fn bad_content_type_message(content_type: Seq<char>) -> Seq<char> {
    "invalid content type `"@ + content_type + "` for file upload"@
}

/// The failure to send a file of this type.
pub fn bad_content_type(content_type: &str) -> (r: CliError)
    ensures
        r@ == bad_content_type_message(content_type@),
{
    let mut message = "invalid content type `".to_owned();
    message.append(content_type);
    message.append("` for file upload");
    CliError { message }
}

/// What the user is told of a file that is too large.
pub open spec fn too_large_message(file: Seq<char>, size: u64) -> Seq<char> {
    "file "@ + file + " is "@ + decimal(size as nat)
        + " bytes, which exceeds the 20 MB single-part upload limit"@
}

/// Whether a file of this size can be sent.
pub open spec fn size_checked(file: Seq<char>, size: Option<u64>) -> Result<(), Seq<char>> {
    match size {
        Some(n) => if n > MAX_UPLOAD_SIZE {
            Err(too_large_message(file, n))
        } else {
            Ok(())
        },
        None => Err(unreadable_file_message(file)),
    }
}

/// Whether a file of this size can be sent; the size is missing where it could not be found out.
pub fn check_upload_size(file: &str, size: Option<u64>) -> (r: Result<(), CliError>)
    ensures
        match r {
            Ok(()) => size_checked(file@, size) is Ok,
            Err(e) => size_checked(file@, size) == Err::<(), Seq<char>>(e@),
        },
{
    match size {
        Some(n) => {
            if n > MAX_UPLOAD_SIZE {
                let mut message = "file ".to_owned();
                message.append(file);
                message.append(" is ");
                message.append(decimal_string(n).as_str());
                message.append(" bytes, which exceeds the 20 MB single-part upload limit");
                return Err(CliError { message });
            }
            Ok(())
        },
        None => Err(unreadable_file(file)),
    }
}

impl AfterReadView {
    /// What happens once the file was read, or could not be.
    pub open spec fn answered(self, read: bool) -> StepView {
        if !read {
            failed(unreadable_file_message(self.file))
        } else {
            match self.filename {
                Some(filename) => upload_step(filename, self.content_type),
                None => failed(NO_FILE_NAME@),
            }
        }
    }
}

impl AfterRead {
    /// Goes on once the file was read, or could not be.
    pub fn resume(self, client: &NotionClient, read: bool) -> (r: Step)
        ensures
            r@ == self@.answered(read),
    {
        if !read {
            return Step::failed(unreadable_file(self.file.as_str()));
        }
        match self.filename {
            Some(filename) => client.upload_small_file(filename, self.content_type),
            None => Step::failed(CliError::new(NO_FILE_NAME)),
        }
    }
}

/// Asks for the upload with this id.
pub open spec fn upload_request(file_upload_id: Seq<char>) -> Result<RequestView, Seq<char>> {
    for_id(
        file_upload_id,
        |id: Seq<char>| plain_request(Method::Get, "/v1/file_uploads/"@ + id),
    )
}

/// What happens once a file was sent: its upload is asked for.
pub open spec fn sent_file(
    file_upload_id: Seq<char>,
    reply: Result<JsonView, Seq<char>>,
) -> StepView {
    match reply {
        Ok(_) => emit_document(upload_request(file_upload_id)),
        Err(message) => failed(message),
    }
}

impl AfterFile {
    /// Goes on once the file was sent.
    pub fn resume(self, client: &NotionClient, reply: Result<Json, CliError>) -> (r: Step)
        ensures
            r@ == sent_file(self.file_upload_id@, document_outcome(reply)),
    {
        match reply {
            Ok(_) => Step::emit_document(client.get_file_upload(self.file_upload_id.as_str())),
            Err(e) => Step::failed(e),
        }
    }
}

/// What the user is told where the markdown of a page makes no sense.
pub const BAD_MARKDOWN: &'static str = "failed to decode markdown response";

/// Asks for the markdown of a page.
pub open spec fn markdown_request(page: Seq<char>, include_transcript: bool) -> Result<
    RequestView,
    Seq<char>,
> {
    for_id(
        page,
        |id: Seq<char>|
            query_request(
                "/v1/pages/"@ + id + "/markdown"@,
                if include_transcript {
                    seq![("include_transcript"@, "true"@)]
                } else {
                    Seq::empty()
                },
            ),
    )
}

/// The file goes out to the upload that was created.
pub open spec fn send_step(
    created: JsonView,
    filename: Seq<char>,
    content_type: Option<Seq<char>>,
) -> StepView {
    match created.text_field("id"@) {
        Some(id) => StepView::SendFile {
            path: "/v1/file_uploads/"@ + id + "/send"@,
            filename,
            content_type: match content_type {
                Some(value) => value,
                None => UNKNOWN_CONTENT_TYPE@,
            },
            file_upload_id: id,
        },
        None => failed(NO_UPLOAD_ID@),
    }
}

/// The file goes out to the upload that was created.
fn send_upload(created: &Json, filename: String, content_type: Option<String>) -> (r: Step)
    ensures
        r@ == send_step(created@, filename@, view_of(content_type)),
{
    let id = match created.get_str("id") {
        Some(id) => id.to_owned(),
        None => {
            return Step::failed(CliError::new(NO_UPLOAD_ID));
        },
    };
    let mut path = "/v1/file_uploads/".to_owned();
    path.append(id.as_str());
    path.append("/send");
    let content_type = match content_type {
        Some(value) => value,
        None => UNKNOWN_CONTENT_TYPE.to_owned(),
    };
    Step::SendFile { path, filename, content_type, then: AfterFile { file_upload_id: id } }
}

impl AfterDocumentView {
    /// What happens once the document, or a failure, came back.
    pub open spec fn answered(self, reply: Result<JsonView, Seq<char>>) -> StepView {
        match (self, reply) {
            (AfterDocumentView::CreatePage { lookup, title, markdown }, _) => create_step(
                lookup.answered(reply),
                title,
                markdown,
            ),
            (_, Err(message)) => failed(message),
            (AfterDocumentView::Emit, Ok(document)) => StepView::Done(
                Ok(PayloadView::Document(document)),
            ),
            (AfterDocumentView::FetchMarkdown { page, include_transcript }, Ok(document)) =>
                ask_markdown(
                markdown_request(page, include_transcript),
                BAD_MARKDOWN@,
                AfterMarkdownView::JoinPage { page: document },
            ),
            (AfterDocumentView::SendUpload { filename, content_type }, Ok(document)) => send_step(
                document,
                filename,
                content_type,
            ),
        }
    }
}

impl AfterDocument {
    /// Goes on once the document, or a failure, came back.
    pub fn resume(self, client: &NotionClient, reply: Result<Json, CliError>) -> (r: Step)
        ensures
            r@ == self@.answered(document_outcome(reply)),
    {
        match self {
            AfterDocument::CreatePage { lookup, title, markdown } => continue_creation(
                client,
                lookup.resume(reply),
                title,
                markdown,
            ),
            AfterDocument::Emit => match reply {
                Ok(document) => Step::Done(Ok(Payload::Document(document))),
                Err(e) => Step::failed(e),
            },
            AfterDocument::FetchMarkdown { page, include_transcript } => match reply {
                Ok(document) => Step::ask_markdown(
                    client.get_page_markdown(page.as_str(), include_transcript),
                    BAD_MARKDOWN,
                    AfterMarkdown::JoinPage { page: document },
                ),
                Err(e) => Step::failed(e),
            },
            AfterDocument::SendUpload { filename, content_type } => match reply {
                Ok(document) => send_upload(&document, filename, content_type),
                Err(e) => Step::failed(e),
            },
        }
    }
}

/// A page of a list or the message of the failure, as text.
pub open spec fn list_outcome(r: Result<ListResponse, CliError>) -> Result<ListView, Seq<char>> {
    match r {
        Ok(list) => Ok(list@),
        Err(e) => Err(e@),
    }
}

impl AfterListView {
    /// What happens once the page of the list, or a failure, came back.
    pub open spec fn answered(self, reply: Result<ListView, Seq<char>>) -> StepView {
        match (self, reply) {
            (_, Err(message)) => failed(message),
            (AfterListView::Emit, Ok(list)) => StepView::Done(Ok(PayloadView::List(list))),
            (AfterListView::Search(run), Ok(list)) => search_step(
                run.with_page(list).step(run.with_page(list).goes_on()),
            ),
        }
    }
}

impl AfterList {
    /// Goes on once the page of the list, or a failure, came back.
    pub fn resume(self, reply: Result<ListResponse, CliError>) -> (r: Step)
        ensures
            r@ == self@.answered(list_outcome(reply)),
    {
        match reply {
            Ok(list) => match self {
                AfterList::Emit => Step::Done(Ok(Payload::List(list))),
                AfterList::Search(run) => continue_search(run.absorb(list)),
            },
            Err(e) => Step::failed(e),
        }
    }
}

/// Markdown or the message of the failure, as text.
pub open spec fn markdown_outcome(r: Result<PageMarkdown, CliError>) -> Result<
    MarkdownView,
    Seq<char>,
> {
    match r {
        Ok(markdown) => Ok(markdown@),
        Err(e) => Err(e@),
    }
}

impl AfterMarkdownView {
    /// What happens once the markdown, or a failure, came back.
    pub open spec fn answered(self, reply: Result<MarkdownView, Seq<char>>) -> StepView {
        match (self, reply) {
            (_, Err(message)) => failed(message),
            (AfterMarkdownView::Emit, Ok(markdown)) => StepView::Done(
                Ok(PayloadView::Markdown(markdown)),
            ),
            (AfterMarkdownView::JoinPage { page }, Ok(markdown)) => StepView::Done(
                Ok(PayloadView::PageWithMarkdown { page, markdown }),
            ),
        }
    }
}

impl AfterMarkdown {
    /// Goes on once the markdown, or a failure, came back.
    pub fn resume(self, reply: Result<PageMarkdown, CliError>) -> (r: Step)
        ensures
            r@ == self@.answered(markdown_outcome(reply)),
    {
        match reply {
            Ok(markdown) => match self {
                AfterMarkdown::Emit => Step::Done(Ok(Payload::Markdown(markdown))),
                AfterMarkdown::JoinPage { page } => Step::Done(
                    Ok(Payload::PageWithMarkdown { page, markdown }),
                ),
            },
            Err(e) => Step::failed(e),
        }
    }
}

/// What the API answers is given back as it is.
pub proof fn answers_are_given_back_unchanged(
    document: JsonView,
    list: ListView,
    markdown: MarkdownView,
)
    ensures
        AfterDocumentView::Emit.answered(Ok(document)) == StepView::Done(
            Ok(PayloadView::Document(document)),
        ),
        AfterListView::Emit.answered(Ok(list)) == StepView::Done(Ok(PayloadView::List(list))),
        AfterMarkdownView::Emit.answered(Ok(markdown)) == StepView::Done(
            Ok(PayloadView::Markdown(markdown)),
        ),
{
}

/// A failure ends a command, and the user is told of it. The one exception is the question whether
/// the parent of a new page is a data source: where the API answers that it is not, it is a page.
pub proof fn failures_end_commands(
    document: AfterDocumentView,
    list: AfterListView,
    markdown: AfterMarkdownView,
    file_upload_id: Seq<char>,
    message: Seq<char>,
)
    ensures
        !(document matches AfterDocumentView::CreatePage { lookup, .. } && lookup is Detect
            && !says_nothing(message)) ==> document.answered(Err(message)) == failed(message),
        list.answered(Err(message)) == failed(message),
        markdown.answered(Err(message)) == failed(message),
        sent_file(file_upload_id, Err(message)) == failed(message),
{
}

/// The upload that is asked for at the end, and that the file goes to, is the one that was created.
pub proof fn uploads_end_with_what_was_created(
    created: JsonView,
    filename: Seq<char>,
    content_type: Option<Seq<char>>,
    sent: JsonView,
)
    requires
        created.text_field("id"@) matches Some(id) && is_canonical(id),
    ensures
        ({
            let id = created.text_field("id"@)->0;
            let after = AfterDocumentView::SendUpload { filename, content_type };
            &&& after.answered(Ok(created)) matches StepView::SendFile {
                path,
                filename: name,
                file_upload_id,
                ..
            } && path == "/v1/file_uploads/"@ + id + "/send"@ && name == filename && file_upload_id
                == id
            &&& sent_file(id, Ok(sent)) == StepView::AskDocument {
                request: plain_request(Method::Get, "/v1/file_uploads/"@ + id),
                then: AfterDocumentView::Emit,
            }
        }),
{
    canonical_ids_are_kept(created.text_field("id"@)->0);
}

/// Every file under 20 MB can be sent.
pub proof fn small_files_can_be_sent(file: Seq<char>, size: u64)
    requires
        size < 20 * 1024 * 1024,
    ensures
        size_checked(file, Some(size)) is Ok,
{
}

/// Where the markdown of a page is wanted too, both are given back, as the API answers them.
pub proof fn pages_come_with_their_markdown(
    page: Seq<char>,
    include_transcript: bool,
    document: JsonView,
    markdown: MarkdownView,
)
    requires
        normalized_id(page) is Some,
    ensures
        (AfterDocumentView::FetchMarkdown { page, include_transcript }).answered(
            Ok(document),
        ) matches StepView::AskMarkdown { then, .. } && then.answered(Ok(markdown))
            == StepView::Done(Ok((PayloadView::PageWithMarkdown { page: document, markdown }))),
{
}

/// The most exchanges, with the API or with the local file, that are left to a command which does
/// not search.
pub open spec fn exchanges_left(step: StepView) -> nat {
    match step {
        StepView::AskDocument { then, .. } => match then {
            AfterDocumentView::Emit => 1,
            AfterDocumentView::FetchMarkdown { .. } => 2,
            AfterDocumentView::CreatePage { .. } => 2,
            AfterDocumentView::SendUpload { .. } => 3,
        },
        StepView::AskList { .. } => 1,
        StepView::AskMarkdown { .. } => 1,
        StepView::ReadFile { .. } => 4,
        StepView::SendFile { .. } => 2,
        StepView::Done(_) => 0,
    }
}

/// Whatever the answer is, it brings a command that does not search closer to its end.
pub proof fn answers_bring_commands_to_an_end(
    step: StepView,
    document: Result<JsonView, Seq<char>>,
    list: Result<ListView, Seq<char>>,
    markdown: Result<MarkdownView, Seq<char>>,
    read: bool,
)
    requires
        !(step matches StepView::AskList { then, .. } && then is Search),
    ensures
        match step {
            StepView::AskDocument { then, .. } => exchanges_left(then.answered(document))
                < exchanges_left(step),
            StepView::AskList { then, .. } => exchanges_left(then.answered(list))
                < exchanges_left(step),
            StepView::AskMarkdown { then, .. } => exchanges_left(then.answered(markdown))
                < exchanges_left(step),
            StepView::ReadFile { then } => exchanges_left(then.answered(read)) < exchanges_left(
                step,
            ),
            StepView::SendFile { file_upload_id, .. } => exchanges_left(
                sent_file(file_upload_id, document),
            ) < exchanges_left(step),
            StepView::Done(_) => true,
        },
{
}

} // verus!
