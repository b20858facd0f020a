use std::path::PathBuf;

use notioncli::client::{
    normalize_base_url, CreateParent, DataSourceQuery, ListResponse, NotionClient, PageMarkdown,
    SearchFilter,
};
use notioncli::commands::{
    append_blocks, handle_block, handle_comment, handle_data_source, handle_database,
    handle_file_upload, handle_page, handle_search, handle_user, BlockCommand, CommentCommand,
    CursorArgs, DataSourceCommand, DatabaseCommand, FileUploadCommand, PageCommand, ParentTarget,
    UserCommand,
};
use notioncli::config::ConfigStore;
use notioncli::errors::CliError;
use notioncli::flow::{bad_content_type, AfterDocument, AfterMarkdown, Payload, Step};
use notioncli::inputs::{Input, JsonInputArgs};
use notioncli::json::{Json, JsonObject};
use notioncli::parse::parse_json;
use notioncli::paths::AppPaths;
use notioncli::request::{ApiRequest, Method};
use notioncli::transport::{decode_response, is_uninformative, REQUEST_FAILED};

const COMPACT: &str = "1234567890abcdef1234567890abcdef";
const ID: &str = "12345678-90ab-cdef-1234-567890abcdef";

fn client() -> NotionClient {
    NotionClient::new("https://api.example.com/", "2026-03-11")
}

fn doc(text: &str) -> Json {
    parse_json(text).expect("JSON")
}

fn show(value: &Json) -> String {
    match value {
        Json::Null => "null".to_string(),
        Json::Bool(b) => b.to_string(),
        Json::Number(n) => n.clone(),
        Json::Text(s) => format!("{:?}", s),
        Json::Array(items) => {
            let parts: Vec<String> = items.iter().map(show).collect();
            format!("[{}]", parts.join(","))
        }
        Json::Object(fields) => {
            let mut parts: Vec<String> = Vec::new();
            for i in 0..fields.len() {
                parts.push(format!("{:?}:{}", fields.name_at(i), show(fields.value_at(i))));
            }
            format!("{{{}}}", parts.join(","))
        }
    }
}

fn say(request: &ApiRequest) -> String {
    let method = match request.method {
        Method::Get => "GET",
        Method::Post => "POST",
        Method::Patch => "PATCH",
        Method::Delete => "DELETE",
    };
    let mut text = format!("{} {}", method, request.path);
    if let Some(pairs) = &request.query {
        let parts: Vec<String> = pairs.iter().map(|(k, v)| format!("{k}={v}")).collect();
        text = format!("{}?{}", text, parts.join("&"));
    }
    if let Some(body) = &request.body {
        text = format!("{} {}", text, show(body));
    }
    text
}

fn asked(step: &Step) -> String {
    match step {
        Step::AskDocument { request, .. } => format!("document {}", say(request)),
        Step::AskList { request, context, .. } => {
            format!("list {} / {}", say(request), context.unwrap_or("-"))
        }
        Step::AskMarkdown { request, context, .. } => {
            format!("markdown {} / {}", say(request), context)
        }
        Step::ReadFile { .. } => "read file".to_string(),
        Step::SendFile { path, filename, content_type, .. } => {
            format!("send {path} {filename} {content_type}")
        }
        Step::Done(Ok(Payload::Document(d))) => format!("done {}", show(d)),
        Step::Done(Ok(Payload::List(list))) => format!("done list of {}", list.results.len()),
        Step::Done(Ok(Payload::Markdown(m))) => format!("done markdown {}", m.markdown),
        Step::Done(Ok(Payload::PageWithMarkdown { page, markdown })) => {
            format!("done {} with {}", show(page), markdown.markdown)
        }
        Step::Done(Err(e)) => format!("failed: {}", e.message),
    }
}

fn nothing() -> Result<String, CliError> {
    Err(CliError::new("nothing was read"))
}

fn text(s: &str) -> Result<String, CliError> {
    Ok(s.to_string())
}

fn resume(step: Step, reply: Result<Json, CliError>) -> Step {
    match step {
        Step::AskDocument { then, .. } => then.resume(&client(), reply),
        _ => panic!("no document was asked for"),
    }
}

fn cursor(page_size: Option<usize>, cursor: Option<&str>) -> CursorArgs {
    CursorArgs { page_size, cursor: cursor.map(|c| c.to_string()) }
}

fn body(json: &str) -> JsonInputArgs {
    JsonInputArgs { body_json: Some(json.to_string()), from_file: None, stdin: false }
}

fn markdown(text: &str) -> PageMarkdown {
    PageMarkdown {
        object: "page_markdown".to_string(),
        markdown: text.to_string(),
        truncated: None,
        unknown_block_ids: Vec::new(),
    }
}

fn list(results: Vec<Json>, next: Option<&str>, has_more: bool) -> ListResponse {
    ListResponse {
        object: "list".to_string(),
        results,
        next_cursor: next.map(|c| c.to_string()),
        has_more,
        list_type: Some("page_or_data_source".to_string()),
        extra: JsonObject::new(),
    }
}

#[test]
fn addresses_are_normalized() {
    assert_eq!(normalize_base_url("https://api.example.com//"), "https://api.example.com");
    assert_eq!(normalize_base_url("  "), "https://api.notion.com");
    assert_eq!(normalize_base_url("http://h/base/"), "http://h/base");
}

#[test]
fn requests_carry_version_and_token() {
    let head = client().request_bearer_json("secret", "/v1/users/me");
    assert_eq!(head.url, "https://api.example.com/v1/users/me");
    assert_eq!(head.bearer_token, "secret");
    assert_eq!(
        head.headers,
        vec![
            ("Notion-Version".to_string(), "2026-03-11".to_string()),
            ("Accept".to_string(), "application/json".to_string()),
        ]
    );
    let (head, request) = client().get_self_for_token("other");
    assert_eq!(head.bearer_token, "other");
    assert_eq!(head.url, "https://api.example.com/v1/users/me");
    assert_eq!(say(&request), "GET /v1/users/me");
}

#[test]
fn clients_follow_the_configuration() {
    let paths = AppPaths::from_base(PathBuf::from("/base"));
    let store = ConfigStore::with_secret_store(paths, Ok(None)).unwrap();
    let head = NotionClient::from_config(&store, None, None).request_bearer_json("t", "/p");
    assert_eq!(head.url, "https://api.notion.com/p");
    assert_eq!(head.headers[0].1, "2026-03-11");
    let other = NotionClient::from_config(&store, Some("http://h/".into()), Some("v2".into()));
    let head = other.request_bearer_json("t", "/p");
    assert_eq!(head.url, "http://h/p");
    assert_eq!(head.headers[0].1, "v2");
}

#[test]
fn pages_are_asked_for() {
    let get = PageCommand::Get {
        page: format!("https://notion.so/Page-{COMPACT}"),
        include_markdown: false,
        include_transcript: false,
    };
    let step = handle_page(&client(), get, nothing());
    assert_eq!(asked(&step), format!("document GET /v1/pages/{ID}"));
    assert_eq!(asked(&resume(step, Ok(doc(r#"{"id":"p"}"#)))), r#"done {"id":"p"}"#);

    let bad = PageCommand::Get {
        page: "nope".to_string(),
        include_markdown: true,
        include_transcript: false,
    };
    assert_eq!(
        asked(&handle_page(&client(), bad, nothing())),
        "failed: `nope` does not look like a Notion page or data source id/url"
    );
}

#[test]
fn pages_come_with_markdown() {
    let get = PageCommand::Get {
        page: COMPACT.to_string(),
        include_markdown: true,
        include_transcript: true,
    };
    let step = handle_page(&client(), get, nothing());
    assert_eq!(asked(&step), format!("document GET /v1/pages/{ID}"));
    let step = resume(step, Ok(doc(r#"{"id":"p"}"#)));
    assert_eq!(
        asked(&step),
        format!(
            "markdown GET /v1/pages/{ID}/markdown?include_transcript=true / failed to decode markdown response"
        )
    );
    let done = match step {
        Step::AskMarkdown { then, .. } => then.resume(Ok(markdown("# Hi"))),
        _ => panic!("no markdown was asked for"),
    };
    assert_eq!(asked(&done), r##"done {"id":"p"} with # Hi"##);

    let plain = client().get_page_markdown(COMPACT, false).unwrap();
    assert_eq!(say(&plain), format!("GET /v1/pages/{ID}/markdown?"));
    assert_eq!(
        asked(&AfterMarkdown::Emit.resume(Err(CliError::new("broken")))),
        "failed: broken"
    );
}

#[test]
fn properties_are_asked_for_in_pages() {
    let property = PageCommand::Property {
        page: COMPACT.to_string(),
        property: "title".to_string(),
        cursor: cursor(Some(50), Some("abc")),
    };
    assert_eq!(
        asked(&handle_page(&client(), property, nothing())),
        format!("document GET /v1/pages/{ID}/properties/title?page_size=50&start_cursor=abc")
    );
}

#[test]
fn pages_are_created_under_pages() {
    let create = PageCommand::Create {
        target: ParentTarget::Page(COMPACT.to_string()),
        title: "New".to_string(),
        from_file: false,
        stdin: true,
    };
    assert_eq!(create.input(), Input::Stdin);
    let step = handle_page(&client(), create, text("# Body"));
    assert_eq!(
        asked(&step),
        format!(
            r##"document POST /v1/pages {{"markdown":"# Body","parent":{{"page_id":"{ID}","type":"page_id"}},"properties":{{"title":{{"title":[{{"text":{{"content":"New"}}}}]}}}}}}"##
        )
    );
}

#[test]
fn pages_are_created_in_data_sources() {
    let named = ParentTarget::DataSource {
        data_source: COMPACT.to_string(),
        title_property: Some("Task".to_string()),
    };
    let create =
        PageCommand::Create { target: named, title: "Row".into(), from_file: false, stdin: false };
    assert_eq!(create.input(), Input::Nothing);
    let expected = format!(
        r#"document POST /v1/pages {{"parent":{{"data_source_id":"{ID}","type":"data_source_id"}},"properties":{{"Task":{{"title":[{{"text":{{"content":"Row"}}}}]}}}}}}"#
    );
    assert_eq!(asked(&handle_page(&client(), create, nothing())), expected);

    let looked_up =
        ParentTarget::DataSource { data_source: COMPACT.to_string(), title_property: None };
    let create = PageCommand::Create {
        target: looked_up,
        title: "Row".into(),
        from_file: false,
        stdin: false,
    };
    let step = handle_page(&client(), create, nothing());
    assert_eq!(asked(&step), format!("document GET /v1/data_sources/{ID}"));
    let step = resume(step, Ok(doc(r#"{"properties":{"Task":{"type":"title"}}}"#)));
    assert_eq!(asked(&step), expected);
    assert_eq!(asked(&resume(step, Ok(doc(r#"{"id":"new"}"#)))), r#"done {"id":"new"}"#);
}

#[test]
fn data_sources_without_a_title_are_refused() {
    let target =
        ParentTarget::DataSource { data_source: COMPACT.to_string(), title_property: None };
    let create =
        PageCommand::Create { target, title: "Row".into(), from_file: false, stdin: false };
    let step = handle_page(&client(), create, nothing());
    assert_eq!(
        asked(&resume(step, Ok(doc("{}")))),
        format!("failed: could not determine the title property for data source `{ID}`")
    );
}

fn detect() -> Step {
    let create = PageCommand::Create {
        target: ParentTarget::Detect(COMPACT.to_string()),
        title: "T".into(),
        from_file: false,
        stdin: false,
    };
    handle_page(&client(), create, nothing())
}

#[test]
fn parents_are_detected() {
    let step = detect();
    assert_eq!(asked(&step), format!("document GET /v1/data_sources/{ID}"));
    let step = resume(step, Ok(doc(r#"{"properties":{"Name":{"type":"title"}}}"#)));
    assert_eq!(
        asked(&step),
        format!(
            r#"document POST /v1/pages {{"parent":{{"data_source_id":"{ID}","type":"data_source_id"}},"properties":{{"Name":{{"title":[{{"text":{{"content":"T"}}}}]}}}}}}"#
        )
    );

    let missing = r#"{"code":"object_not_found","message":"no data source 429"}"#;
    let wrong_kind = r#"{"code":"validation_error","message":"the id is that of a page"}"#;
    for first in [
        decode_response(404, missing),
        decode_response(404, ""),
        decode_response(400, wrong_kind),
        decode_response(403, "{}"),
        Ok(doc("{}")),
    ] {
        let step = resume(detect(), first);
        assert_eq!(
            asked(&step),
            format!(
                r#"document POST /v1/pages {{"parent":{{"page_id":"{ID}","type":"page_id"}},"properties":{{"title":{{"title":[{{"text":{{"content":"T"}}}}]}}}}}}"#
            )
        );
        assert_eq!(asked(&resume(step, Err(CliError::new("no page")))), "failed: no page");
    }
}

#[test]
fn lookups_without_an_answer_create_nothing() {
    for (status, body) in [(401, ""), (429, ""), (500, "x"), (503, ""), (599, ""), (200, "<html>")] {
        let failure = decode_response(status, body).unwrap_err();
        assert!(is_uninformative(&failure), "{status}");
        let message = failure.message.clone();
        assert_eq!(asked(&resume(detect(), Err(failure))), format!("failed: {message}"));
    }
    let lost = Err(CliError::new(REQUEST_FAILED));
    assert_eq!(asked(&resume(detect(), lost)), "failed: request to Notion failed");
    for status in [300, 400, 402, 403, 404, 409, 428, 430, 499, 600] {
        assert!(!is_uninformative(&decode_response(status, "").unwrap_err()), "{status}");
    }
    let untitled = doc(r#"{"object":"data_source","properties":{}}"#);
    assert_eq!(
        asked(&resume(detect(), Ok(untitled))),
        format!("failed: could not determine the title property for data source `{ID}`")
    );
}

#[test]
fn parent_flags_are_told_apart() {
    let some = |s: &str| Some(s.to_string());
    assert!(matches!(
        ParentTarget::from_flags(some("a"), None, None, None),
        Some(ParentTarget::Detect(p)) if p == "a"
    ));
    assert!(matches!(
        ParentTarget::from_flags(None, some("b"), None, None),
        Some(ParentTarget::Page(p)) if p == "b"
    ));
    assert!(matches!(
        ParentTarget::from_flags(None, None, some("c"), some("t")),
        Some(ParentTarget::DataSource { data_source, title_property: Some(t) })
            if data_source == "c" && t == "t"
    ));
    assert!(ParentTarget::from_flags(None, None, None, some("t")).is_none());
}

#[test]
fn markdown_is_appended_and_replaced() {
    let append = PageCommand::Append { page: COMPACT.into(), from_file: true, stdin: false };
    assert_eq!(append.input(), Input::File);
    assert_eq!(
        asked(&handle_page(&client(), append, text("more"))),
        format!(
            r#"markdown PATCH /v1/pages/{ID}/markdown {{"insert_content":{{"content":"more"}},"type":"insert_content"}} / failed to decode markdown append response"#
        )
    );
    let replace = PageCommand::Replace {
        page: COMPACT.into(),
        from_file: false,
        stdin: true,
        allow_deleting_content: true,
    };
    assert_eq!(
        asked(&handle_page(&client(), replace, text("all"))),
        format!(
            r#"markdown PATCH /v1/pages/{ID}/markdown {{"replace_content":{{"allow_deleting_content":true,"new_str":"all"}},"type":"replace_content"}} / failed to decode markdown replace response"#
        )
    );
    let none = PageCommand::Append { page: "bad".into(), from_file: false, stdin: false };
    assert_eq!(
        asked(&handle_page(&client(), none, nothing())),
        "failed: provide markdown with --from-file or --stdin"
    );
    let both = PageCommand::Append { page: "bad".into(), from_file: true, stdin: true };
    assert_eq!(
        asked(&handle_page(&client(), both, nothing())),
        "failed: use either --from-file or --stdin, not both"
    );
    let done = AfterMarkdown::Emit.resume(Ok(markdown("x")));
    assert_eq!(asked(&done), "done markdown x");
}

#[test]
fn pages_are_updated_trashed_and_restored() {
    let update = PageCommand::Update { page: COMPACT.into(), body: body(r#"{"a":1}"#) };
    assert_eq!(
        asked(&handle_page(&client(), update, nothing())),
        format!(r#"document PATCH /v1/pages/{ID} {{"a":1}}"#)
    );
    assert_eq!(
        asked(&handle_page(&client(), PageCommand::Trash { page: COMPACT.into() }, nothing())),
        format!(r#"document PATCH /v1/pages/{ID} {{"in_trash":true}}"#)
    );
    assert_eq!(
        asked(&handle_page(&client(), PageCommand::Restore { page: COMPACT.into() }, nothing())),
        format!(r#"document PATCH /v1/pages/{ID} {{"in_trash":false}}"#)
    );
}

#[test]
fn data_sources_are_queried() {
    let query = DataSourceCommand::Query {
        data_source: COMPACT.into(),
        filter_json: Some(r#"{"property":"Done"}"#.into()),
        sort_json: Some("[1]".into()),
        cursor: cursor(Some(5), Some("c")),
    };
    assert_eq!(query.input(), Input::Nothing);
    assert_eq!(
        asked(&handle_data_source(&client(), query, nothing())),
        format!(
            r#"list POST /v1/data_sources/{ID}/query {{"filter":{{"property":"Done"}},"page_size":5,"sorts":[1],"start_cursor":"c"}} / failed to decode data source query response"#
        )
    );
    let empty = client().query_data_source(COMPACT, DataSourceQuery::default()).unwrap();
    assert_eq!(say(&empty), format!("POST /v1/data_sources/{ID}/query {{}}"));

    let bad = |filter: Option<&str>, sort: Option<&str>| {
        let query = DataSourceCommand::Query {
            data_source: COMPACT.into(),
            filter_json: filter.map(|s| s.to_string()),
            sort_json: sort.map(|s| s.to_string()),
            cursor: cursor(None, None),
        };
        asked(&handle_data_source(&client(), query, nothing()))
    };
    assert_eq!(bad(Some("{"), Some("[")), "failed: failed to parse --filter-json as JSON");
    assert_eq!(bad(None, Some("[")), "failed: failed to parse --sort-json as JSON");
}

#[test]
fn data_sources_and_databases_are_changed() {
    let c = client();
    let get = DataSourceCommand::Get { data_source: COMPACT.into() };
    assert_eq!(
        asked(&handle_data_source(&c, get, nothing())),
        format!("document GET /v1/data_sources/{ID}")
    );
    let create = DataSourceCommand::Create { body: body("{}") };
    assert_eq!(
        asked(&handle_data_source(&c, create, nothing())),
        "document POST /v1/data_sources {}"
    );
    let from_file =
        JsonInputArgs { body_json: None, from_file: Some("ds.json".into()), stdin: false };
    let update = DataSourceCommand::Update { data_source: COMPACT.into(), body: from_file };
    assert_eq!(update.input(), Input::File);
    assert_eq!(
        asked(&handle_data_source(&c, update, text("[true]"))),
        format!("document PATCH /v1/data_sources/{ID} [true]")
    );
    let get = DatabaseCommand::Get { database: COMPACT.into() };
    assert_eq!(
        asked(&handle_database(&c, get, nothing())),
        format!("document GET /v1/databases/{ID}")
    );
    let create = DatabaseCommand::Create { body: body("{}") };
    assert_eq!(asked(&handle_database(&c, create, nothing())), "document POST /v1/databases {}");
    let update = DatabaseCommand::Update { database: COMPACT.into(), body: body("{}") };
    assert_eq!(update.input(), Input::Nothing);
    assert_eq!(
        asked(&handle_database(&c, update, nothing())),
        format!("document PATCH /v1/databases/{ID} {{}}")
    );
}

#[test]
fn blocks_are_read_and_changed() {
    let c = client();
    let get = BlockCommand::Get { block: COMPACT.into() };
    assert_eq!(
        asked(&handle_block(&c, get, nothing())),
        format!("document GET /v1/blocks/{ID}")
    );
    let children = BlockCommand::Children { block: COMPACT.into(), cursor: cursor(Some(1), None) };
    assert_eq!(
        asked(&handle_block(&c, children, nothing())),
        format!(
            "list GET /v1/blocks/{ID}/children?page_size=1 / failed to decode block children response"
        )
    );
    let append = BlockCommand::Append {
        block: COMPACT.into(),
        body: body(r#"{"children":[{}],"position":{"type":"start"},"other":1}"#),
    };
    assert_eq!(
        asked(&handle_block(&c, append, nothing())),
        format!(
            r#"document PATCH /v1/blocks/{ID}/children {{"children":[{{}}],"position":{{"type":"start"}}}}"#
        )
    );
    let step = append_blocks(&c, COMPACT, &doc(r#"{"children":null}"#));
    assert_eq!(asked(&step), format!(r#"document PATCH /v1/blocks/{ID}/children {{"children":null}}"#));
    let none = BlockCommand::Append { block: COMPACT.into(), body: body("{}") };
    assert_eq!(
        asked(&handle_block(&c, none, nothing())),
        "failed: JSON request body must include `children`"
    );
    let update = BlockCommand::Update { block: COMPACT.into(), body: body("{}") };
    assert_eq!(
        asked(&handle_block(&c, update, nothing())),
        format!("document PATCH /v1/blocks/{ID} {{}}")
    );
    let delete = BlockCommand::Delete { block: COMPACT.into() };
    assert_eq!(delete.input(), Input::Nothing);
    assert_eq!(
        asked(&handle_block(&c, delete, nothing())),
        format!("document DELETE /v1/blocks/{ID}")
    );
}

#[test]
fn comments_and_users_are_read() {
    let c = client();
    let all = CommentCommand::List { target: COMPACT.into(), cursor: cursor(None, Some("x")) };
    assert_eq!(
        asked(&handle_comment(&c, all, nothing())),
        format!(
            "list GET /v1/comments?block_id={ID}&start_cursor=x / failed to decode comments list response"
        )
    );
    let get = CommentCommand::Get { comment: COMPACT.into() };
    assert_eq!(
        asked(&handle_comment(&c, get, nothing())),
        format!("document GET /v1/comments/{ID}")
    );
    let stdin = JsonInputArgs { body_json: None, from_file: None, stdin: true };
    let create = CommentCommand::Create { body: stdin };
    assert_eq!(create.input(), Input::Stdin);
    assert_eq!(
        asked(&handle_comment(&c, create, text("nope"))),
        "failed: failed to parse JSON request body from stdin"
    );
    assert_eq!(asked(&handle_user(&c, UserCommand::Me)), "document GET /v1/users/me");
    assert_eq!(
        asked(&handle_user(&c, UserCommand::List { cursor: cursor(None, None) })),
        "list GET /v1/users? / failed to decode users list response"
    );
    assert_eq!(
        asked(&handle_user(&c, UserCommand::Get { user: COMPACT.into() })),
        format!("document GET /v1/users/{ID}")
    );
}

#[test]
fn uploads_are_listed() {
    let c = client();
    let all =
        FileUploadCommand::List { status: Some("uploaded".into()), cursor: cursor(Some(2), None) };
    assert_eq!(
        asked(&handle_file_upload(&c, all)),
        "list GET /v1/file_uploads?status=uploaded&page_size=2 / failed to decode file uploads list response"
    );
    let get = FileUploadCommand::Get { file_upload: COMPACT.into() };
    assert_eq!(
        asked(&handle_file_upload(&c, get)),
        format!("document GET /v1/file_uploads/{ID}")
    );
}

fn upload(size: Option<u64>, path: &str, content_type: Option<&str>) -> Step {
    let create = FileUploadCommand::Create {
        path: PathBuf::from(path),
        file: path.to_string(),
        size,
        content_type: content_type.map(|s| s.to_string()),
    };
    handle_file_upload(&client(), create)
}

fn after_reading(step: Step, read: bool) -> Step {
    match step {
        Step::ReadFile { then } => then.resume(&client(), read),
        _ => panic!("no file was to be read"),
    }
}

#[test]
fn uploads_are_created_sent_and_asked_for() {
    let step = upload(Some(10), "./a.png", Some("image/png"));
    assert_eq!(asked(&step), "read file");
    let step = after_reading(step, true);
    assert_eq!(
        asked(&step),
        r#"document POST /v1/file_uploads {"content_type":"image/png","filename":"a.png","mode":"single_part"}"#
    );
    let step = resume(step, Ok(doc(&format!(r#"{{"id":"{ID}"}}"#))));
    assert_eq!(asked(&step), format!("send /v1/file_uploads/{ID}/send a.png image/png"));
    let step = match step {
        Step::SendFile { then, .. } => then.resume(&client(), Ok(Json::null())),
        _ => panic!("no file was to be sent"),
    };
    assert_eq!(asked(&step), format!("document GET /v1/file_uploads/{ID}"));
}

#[test]
fn uploads_can_fail() {
    assert_eq!(asked(&upload(None, "./a.png", None)), "failed: failed to read file ./a.png");
    assert_eq!(asked(&upload(Some(20 * 1024 * 1024), "./a.png", None)), "read file");
    assert_eq!(
        asked(&upload(Some(20 * 1024 * 1024 + 1), "./a.png", None)),
        "failed: file ./a.png is 20971521 bytes, which exceeds the 20 MB single-part upload limit"
    );
    assert_eq!(
        asked(&after_reading(upload(Some(1), "./a.png", None), false)),
        "failed: failed to read file ./a.png"
    );
    assert_eq!(
        asked(&after_reading(upload(Some(1), "dir/..", None), true)),
        "failed: failed to determine the file name for upload"
    );
    let created = || after_reading(upload(Some(1), "some/dir/a", None), true);
    assert_eq!(
        asked(&created()),
        r#"document POST /v1/file_uploads {"filename":"a","mode":"single_part"}"#
    );
    assert_eq!(
        asked(&resume(created(), Ok(doc(r#"{"id":1}"#)))),
        "failed: file upload creation response did not include an id"
    );
    let step = resume(created(), Ok(doc(r#"{"id":"x"}"#)));
    assert_eq!(asked(&step), "send /v1/file_uploads/x/send a application/octet-stream");
    let step = match step {
        Step::SendFile { then, .. } => then.resume(&client(), Err(CliError::new("lost"))),
        _ => panic!("no file was to be sent"),
    };
    assert_eq!(asked(&step), "failed: lost");
    assert_eq!(
        bad_content_type("???").message,
        "invalid content type `???` for file upload"
    );
}

#[test]
fn failures_and_answers_are_handed_on() {
    let c = client();
    assert_eq!(
        asked(&AfterDocument::Emit.resume(&c, Err(CliError::new("refused")))),
        "failed: refused"
    );
    let step = handle_user(&c, UserCommand::List { cursor: cursor(None, None) });
    let done = match step {
        Step::AskList { then, .. } => then.resume(Ok(list(vec![Json::null()], None, false))),
        _ => panic!("no list was asked for"),
    };
    assert_eq!(asked(&done), "done list of 1");
    let parent = CreateParent::Page { page_id: "p".into() };
    let request = c.create_page(parent, "T", None);
    assert_eq!(
        say(&request),
        r#"POST /v1/pages {"parent":{"page_id":"p","type":"page_id"},"properties":{"title":{"title":[{"text":{"content":"T"}}]}}}"#
    );
}

fn numbers(from: usize, count: usize) -> Vec<Json> {
    (from..from + count).map(|n| Json::numeral(n.to_string())).collect()
}

fn next_page(step: Step, page: ListResponse) -> Step {
    match step {
        Step::AskList { then, .. } => then.resume(Ok(page)),
        _ => panic!("no page was asked for"),
    }
}

fn found(step: Step) -> ListResponse {
    match step {
        Step::Done(Ok(Payload::List(list))) => list,
        _ => panic!("the search goes on"),
    }
}

#[test]
fn searches_walk_the_pages() {
    let step = handle_search(&client(), "road map", SearchFilter::Page, 150);
    assert_eq!(
        asked(&step),
        r#"list POST /v1/search {"filter":{"property":"object","value":"page"},"page_size":100,"query":"road map"} / -"#
    );
    let step = next_page(step, list(numbers(0, 100), Some("c1"), true));
    assert_eq!(
        asked(&step),
        r#"list POST /v1/search {"filter":{"property":"object","value":"page"},"page_size":50,"query":"road map","start_cursor":"c1"} / -"#
    );
    let answer = found(next_page(step, list(numbers(100, 60), Some("c2"), true)));
    assert_eq!(answer.results.len(), 150);
    assert_eq!(show(&answer.results[149]), "149");
    assert_eq!(answer.next_cursor.as_deref(), Some("c2"));
    assert!(answer.has_more);
    assert_eq!(answer.object, "list");
    assert_eq!(answer.list_type.as_deref(), Some("page_or_data_source"));
}

#[test]
fn searches_stop_at_the_last_page() {
    let step = handle_search(&client(), "", SearchFilter::All, 10);
    assert_eq!(asked(&step), r#"list POST /v1/search {"page_size":10,"query":""} / -"#);
    let answer = found(next_page(step, list(numbers(0, 3), Some("ignored"), false)));
    assert_eq!(answer.results.len(), 3);
    assert_eq!(answer.next_cursor, None);
    assert!(!answer.has_more);

    let step = handle_search(&client(), "q", SearchFilter::DataSource, 10);
    let answer = found(next_page(step, list(numbers(0, 3), None, true)));
    assert_eq!(answer.results.len(), 3);
    assert!(answer.has_more);
    assert_eq!(answer.next_cursor, None);
}

#[test]
fn searches_for_nothing_ask_nothing() {
    let answer = found(handle_search(&client(), "q", SearchFilter::All, 0));
    assert_eq!(answer.object, "list");
    assert_eq!(answer.results.len(), 0);
    assert_eq!(answer.list_type, None);
    assert!(!answer.has_more);
    assert_eq!(answer.next_cursor, None);
}

#[test]
fn the_first_results_describe_the_answer() {
    let mut first = list(Vec::new(), Some("c1"), true);
    first.object = "empty".into();
    let mut second = list(numbers(0, 1), Some("c2"), true);
    second.object = "second".into();
    second.extra.insert("request_id", Json::string("r2"));
    let mut third = list(numbers(1, 1), None, false);
    third.object = "third".into();
    let step = handle_search(&client(), "q", SearchFilter::All, 5);
    let step = next_page(step, first);
    let step = next_page(step, second);
    let answer = found(next_page(step, third));
    assert_eq!(answer.object, "second");
    assert_eq!(show(answer.extra.get("request_id").unwrap()), "\"r2\"");
    assert_eq!(answer.results.len(), 2);

    let step = handle_search(&client(), "q", SearchFilter::All, 5);
    let failure = match step {
        Step::AskList { then, .. } => then.resume(Err(CliError::new("refused"))),
        _ => panic!("no page was asked for"),
    };
    assert_eq!(asked(&failure), "failed: refused");
    assert_eq!(SearchFilter::All.api_value(), None);
    assert_eq!(SearchFilter::DataSource.api_value(), Some("data_source"));
}

#[test]
fn values_are_cloned_whole() {
    let mut whole = list(numbers(0, 2), Some("c"), true);
    whole.extra.insert("k", Json::boolean(true));
    let copy = whole.clone();
    assert_eq!(copy.object, "list");
    assert_eq!(copy.results.len(), 2);
    assert_eq!(show(&copy.results[1]), "1");
    assert_eq!(copy.next_cursor.as_deref(), Some("c"));
    assert!(copy.has_more);
    assert_eq!(copy.list_type.as_deref(), Some("page_or_data_source"));
    assert_eq!(show(copy.extra.get("k").unwrap()), "true");

    let mut page = markdown("text");
    page.truncated = Some(true);
    page.unknown_block_ids = vec!["b".to_string()];
    let copy = page.clone();
    assert_eq!(copy.object, "page_markdown");
    assert_eq!(copy.markdown, "text");
    assert_eq!(copy.truncated, Some(true));
    assert_eq!(copy.unknown_block_ids, vec!["b"]);

    let query = DataSourceQuery {
        filter: Some(doc("{}")),
        sorts: None,
        page_size: Some(3),
        cursor: Some("c".to_string()),
    };
    let request = client().clone().query_data_source(COMPACT, query.clone()).unwrap();
    assert_eq!(
        say(&request),
        format!(
            r#"POST /v1/data_sources/{ID}/query {{"filter":{{}},"page_size":3,"start_cursor":"c"}}"#
        )
    );

    let parent = CreateParent::DataSource {
        data_source_id: "d".to_string(),
        title_property: "t".to_string(),
    };
    let copy = parent.clone();
    assert_eq!(
        say(&client().create_page(copy, "T", None)),
        say(&client().create_page(parent, "T", None))
    );
}

#[test]
fn urls_and_ids_ask_for_the_same_page() {
    let c = client();
    let forms = [
        COMPACT.to_string(),
        ID.to_string(),
        ID.to_uppercase(),
        format!(" https://www.notion.so/team/Roadmap-{COMPACT}?pvs=4 "),
    ];
    for form in forms {
        assert_eq!(say(&c.get_page(&form).unwrap()), format!("GET /v1/pages/{ID}"));
    }
}
