use std::path::PathBuf;

use notioncli::auth::{
    command_wants_credentials, deleted_profile_document, emit_auth_login_result, finish_logout,
    handle_auth, login_internal, resume_login, save_login, AuthCommand, AuthStep,
};
use notioncli::config::{
    AuthType, ConfigStore, CredentialsFile, ProfileMeta, StoredSecret,
};
use notioncli::errors::{classify_error, friendly_error, CliError};
use notioncli::inputs::{
    choose_json_text, markdown_input, parse_json_arg, parse_json_text, parsed_json_arg,
    parsed_json_text, prompt_for_internal_token, read_optional_json_input,
    read_optional_markdown, read_required_json_input, unreadable_file, Input, JsonInputArgs,
};
use notioncli::json::Json;
use notioncli::output::{
    error_object, log_filter, parse_output_format, requested_output_format_from_argv, OutputFormat,
};
use notioncli::parse::parse_json;
use notioncli::paths::AppPaths;
use notioncli::transport::{
    decode_parsed, decode_response, retry_delay, should_retry, Attempts, Next, REQUEST_FAILED,
    UPLOAD_FAILED,
};

fn show(value: &Json) -> String {
    match value {
        Json::Null => "null".to_string(),
        Json::Bool(b) => b.to_string(),
        Json::Number(n) => n.clone(),
        Json::Text(s) => format!("{:?}", s),
        Json::Array(items) => {
            let parts: Vec<String> = items.iter().map(show).collect();
            format!("[{}]", parts.join(","))
        }
        Json::Object(fields) => {
            let mut parts: Vec<String> = Vec::new();
            for i in 0..fields.len() {
                parts.push(format!("{:?}:{}", fields.name_at(i), show(fields.value_at(i))));
            }
            format!("{{{}}}", parts.join(","))
        }
    }
}

fn doc(text: &str) -> Json {
    parse_json(text).expect("JSON")
}

fn inline(body: &str) -> JsonInputArgs {
    JsonInputArgs { body_json: Some(body.to_string()), from_file: None, stdin: false }
}

fn unread() -> Result<String, CliError> {
    Err(CliError::new("nothing was read"))
}

#[test]
fn reads_inline_json_input() {
    let args = JsonInputArgs {
        body_json: Some(r#"{"hello":"world"}"#.into()),
        from_file: None,
        stdin: false,
    };

    let value = read_required_json_input(&args, unread()).unwrap();
    assert_eq!(value.get("hello").and_then(Json::as_str), Some("world"));
}

#[test]
fn rejects_multiple_json_input_sources() {
    let args = JsonInputArgs {
        body_json: Some("{}".into()),
        from_file: Some("body.json".into()),
        stdin: false,
    };

    let error = read_optional_json_input(&args, unread()).unwrap_err();
    assert!(
        error
            .message
            .contains("use only one of --body-json, --from-file, or --stdin")
    );
}

#[test]
fn json_comes_from_one_place() {
    let args = |body: Option<&str>, file: Option<&str>, stdin: bool| JsonInputArgs {
        body_json: body.map(|s| s.to_string()),
        from_file: file.map(|s| s.to_string()),
        stdin,
    };
    for conflict in [
        args(Some("{}"), Some("f"), true),
        args(Some("{}"), None, true),
        args(None, Some("f"), true),
    ] {
        assert_eq!(conflict.input(), Input::Nothing);
        assert_eq!(
            choose_json_text(&conflict, Ok("{}".into())).unwrap_err().message,
            "use only one of --body-json, --from-file, or --stdin"
        );
    }
    let file = args(None, Some("f.json"), false);
    assert_eq!(file.input(), Input::File);
    assert_eq!(
        choose_json_text(&file, Ok("{}".into())).unwrap(),
        Some(("{}".to_string(), "f.json".to_string()))
    );
    assert_eq!(
        read_optional_json_input(&file, Ok("?".into())).unwrap_err().message,
        "failed to parse JSON request body from f.json"
    );
    assert_eq!(
        read_optional_json_input(&file, Err(unreadable_file("f.json"))).unwrap_err().message,
        "failed to read file f.json"
    );
    let stdin = args(None, None, true);
    assert_eq!(stdin.input(), Input::Stdin);
    assert_eq!(
        choose_json_text(&stdin, Ok("[]".into())).unwrap(),
        Some(("[]".to_string(), "stdin".to_string()))
    );
    let none = args(None, None, false);
    assert_eq!(none.input(), Input::Nothing);
    assert!(read_optional_json_input(&none, unread()).unwrap().is_none());
    assert_eq!(
        read_required_json_input(&none, unread()).unwrap_err().message,
        "provide JSON body with --body-json, --from-file, or --stdin"
    );
    assert_eq!(
        choose_json_text(&inline("1"), unread()).unwrap(),
        Some(("1".to_string(), "--body-json".to_string()))
    );
    assert_eq!(
        read_required_json_input(&inline("{"), unread()).unwrap_err().message,
        "failed to parse JSON request body from --body-json"
    );
}

#[test]
fn json_texts_are_parsed_or_refused() {
    assert_eq!(show(&parse_json_text("[1]", "x").unwrap()), "[1]");
    assert_eq!(
        parse_json_text("", "x").unwrap_err().message,
        "failed to parse JSON request body from x"
    );
    assert_eq!(show(&parsed_json_text(Some(Json::null()), "x").unwrap()), "null");
    assert!(parsed_json_text(None, "x").is_err());
    assert!(parse_json_arg(None, "--flag").unwrap().is_none());
    assert_eq!(show(&parse_json_arg(Some("2"), "--flag").unwrap().unwrap()), "2");
    assert_eq!(
        parse_json_arg(Some("{"), "--flag").unwrap_err().message,
        "failed to parse --flag as JSON"
    );
    assert_eq!(
        parsed_json_arg(Some("{"), None, "--flag").unwrap_err().message,
        "failed to parse --flag as JSON"
    );
}

#[test]
fn markdown_comes_from_one_place() {
    assert_eq!(markdown_input(true, true), Input::Nothing);
    assert_eq!(markdown_input(true, false), Input::File);
    assert_eq!(markdown_input(false, true), Input::Stdin);
    assert_eq!(markdown_input(false, false), Input::Nothing);
    assert_eq!(read_optional_markdown(false, false, unread()).unwrap(), None);
    assert_eq!(
        read_optional_markdown(true, false, Ok("# T".into())).unwrap(),
        Some("# T".to_string())
    );
    assert_eq!(
        read_optional_markdown(false, true, unread()).unwrap_err().message,
        "nothing was read"
    );
}

#[test]
fn typed_tokens_are_trimmed_and_needed() {
    assert_eq!(prompt_for_internal_token(Some(" tok \n".into())).unwrap(), "tok");
    assert_eq!(
        prompt_for_internal_token(Some(" \t".into())).unwrap_err().message,
        "provide a Notion integration token"
    );
    assert_eq!(
        prompt_for_internal_token(None).unwrap_err().message,
        "failed to read token input"
    );
}

#[test]
fn passing_failures_are_retried() {
    assert!(should_retry(429));
    assert!(should_retry(500));
    assert!(should_retry(599));
    assert!(!should_retry(600));
    assert!(!should_retry(499));
    assert!(!should_retry(200));
}

#[test]
fn pauses_follow_the_response() {
    assert_eq!(retry_delay(Some("12"), 1), 12);
    assert_eq!(retry_delay(Some("0"), 3), 1);
    assert_eq!(retry_delay(Some("soon"), 2), 2);
    assert_eq!(retry_delay(Some("-1"), 2), 2);
    assert_eq!(retry_delay(None, 1), 1);
    assert_eq!(retry_delay(None, 9), 4);
}

#[test]
fn requests_are_repeated_three_times_at_most() {
    let mut attempts = Attempts::new();
    let mut pauses: Vec<u64> = Vec::new();
    loop {
        match attempts.request_json(503, None) {
            Next::Retry { seconds, attempts: next } => {
                pauses.push(seconds);
                attempts = next;
            }
            Next::Decode => break,
        }
    }
    assert_eq!(pauses, vec![1, 2, 3]);
    assert!(matches!(Attempts::new().request_json(404, Some("5")), Next::Decode));
    assert!(matches!(
        Attempts::new().request_json(429, Some("7")),
        Next::Retry { seconds: 7, .. }
    ));
}

#[test]
fn responses_are_decoded() {
    assert_eq!(show(&decode_response(200, r#"{"a":1}"#).unwrap()), r#"{"a":1}"#);
    assert_eq!(show(&decode_response(204, " \n").unwrap()), "null");
    assert_eq!(
        decode_response(200, "<html>").unwrap_err().message,
        "failed to decode JSON response"
    );
    assert_eq!(
        decode_response(404, r#"{"code":"object_not_found","message":"gone"}"#).unwrap_err().message,
        "Notion could not find that object. The page or data source may not be shared with the integration. gone"
    );
    assert_eq!(
        decode_response(502, "<html>").unwrap_err().message,
        "Notion API error 502: <html>"
    );
    assert_eq!(
        decode_response(300, r#"{"code":"x"}"#).unwrap_err().message,
        r#"Notion API error 300: {"code":"x"}"#
    );
    assert_eq!(
        decode_parsed(401, "body", Some(doc(r#"{"message":"bad token"}"#))).unwrap_err().message,
        "Notion authentication failed. Re-run `notioncli auth login ...`. bad token"
    );
    assert_eq!(
        decode_parsed(500, "body", None).unwrap_err().message,
        "Notion API error 500: body"
    );
}

fn class(message: &str) -> (u16, &'static str, i32) {
    let c = classify_error(&CliError::new(message));
    (c.status, c.code, c.exit_code)
}

#[test]
fn failures_are_classified() {
    assert_eq!(class("Rate Limit hit"), (429, "rate_limited", 7));
    assert_eq!(class("see Retry-After"), (429, "rate_limited", 7));
    assert_eq!(
        class("no active profile configured; run `notioncli auth login` or set `NOTION_TOKEN`"),
        (401, "unauthorized", 3)
    );
    assert_eq!(class("provide a Notion integration token"), (401, "unauthorized", 3));
    assert_eq!(class("failed to read token input"), (401, "unauthorized", 3));
    assert_eq!(
        class("`x` does not look like a Notion page or data source id/url"),
        (404, "object_not_found", 5)
    );
    assert_eq!(class("failed to parse --filter-json as JSON"), (400, "validation_error", 6));
    assert_eq!(class("failed to parse --sort-json as JSON"), (400, "validation_error", 6));
    assert_eq!(
        class("failed to parse JSON request body from stdin"),
        (400, "validation_error", 6)
    );
    assert_eq!(
        class("provide JSON body with --body-json, --from-file, or --stdin"),
        (400, "validation_error", 6)
    );
    assert_eq!(
        class("use only one of --body-json, --from-file, or --stdin"),
        (400, "validation_error", 6)
    );
    assert_eq!(class("JSON request body must include `children`"), (400, "validation_error", 6));
    assert_eq!(class("use either --from-file or --stdin, not both"), (400, "validation_error", 6));
    assert_eq!(class("provide markdown with --from-file or --stdin"), (400, "validation_error", 6));
    assert_eq!(class("failed to read config file /x"), (400, "invalid_request", 4));
    assert_eq!(class("failed to read file a.md"), (400, "invalid_request", 4));
    assert_eq!(class("failed to read stdin"), (400, "invalid_request", 4));
    assert_eq!(class(REQUEST_FAILED), (500, "internal_server_error", 8));
    assert_eq!(class(UPLOAD_FAILED), (500, "internal_server_error", 10));
    assert_eq!(class("anything else"), (500, "internal_server_error", 10));
}

#[test]
fn friendly_messages_are_classified() {
    assert_eq!(class(&friendly_error(403, None, "no")), (403, "forbidden", 9));
    assert_eq!(class(&friendly_error(401, None, "no")), (401, "unauthorized", 3));
    assert_eq!(
        class(&friendly_error(404, Some("object_not_found"), "no")),
        (404, "object_not_found", 5)
    );
    assert_eq!(
        class(&friendly_error(400, Some("validation_error"), "no")),
        (400, "validation_error", 6)
    );
    assert_eq!(class(&friendly_error(429, Some("rate_limited"), "")), (429, "rate_limited", 7));
    assert_eq!(class(&friendly_error(404, Some("other"), "no")), (500, "internal_server_error", 8));
    assert_eq!(
        friendly_error(403, Some("restricted_resource"), "why"),
        "Notion rejected the request with 403. Check your integration capabilities and page/data source sharing. why"
    );
    assert_eq!(
        friendly_error(400, Some("validation_error"), "why"),
        "Notion rejected the request as invalid. why"
    );
    assert_eq!(friendly_error(400, None, "why"), "Notion API error 400: why");
}

#[test]
fn failures_are_reported_as_objects() {
    assert_eq!(
        show(&error_object(400, "validation_error", "m")),
        r#"{"code":"validation_error","message":"m","object":"error","status":400}"#
    );
}

fn args(list: &[&str]) -> Vec<String> {
    list.iter().map(|s| s.to_string()).collect()
}

#[test]
fn output_formats_are_recognized() {
    assert_eq!(parse_output_format("human"), Some(OutputFormat::Human));
    assert_eq!(parse_output_format("json"), Some(OutputFormat::Json));
    assert_eq!(parse_output_format("yaml"), Some(OutputFormat::Yaml));
    assert_eq!(parse_output_format("JSON"), None);
    let requested = |list: &[&str]| requested_output_format_from_argv(&args(list));
    assert_eq!(requested(&["notioncli", "search"]), OutputFormat::Human);
    assert_eq!(requested(&["notioncli", "--output", "json", "x"]), OutputFormat::Json);
    assert_eq!(requested(&["notioncli", "x", "--output=yaml"]), OutputFormat::Yaml);
    assert_eq!(requested(&["notioncli", "--output", "bad", "--output=json"]), OutputFormat::Json);
    assert_eq!(
        requested(&["notioncli", "--output", "--output=json", "--output=yaml"]),
        OutputFormat::Yaml
    );
    assert_eq!(requested(&["notioncli", "--output=bad", "--output"]), OutputFormat::Human);
    assert_eq!(requested(&["--output=json"]), OutputFormat::Human);
    assert_eq!(requested(&[]), OutputFormat::Human);
}

#[test]
fn logging_follows_verbosity() {
    assert_eq!(log_filter(0), "warn");
    assert_eq!(log_filter(1), "info");
    assert_eq!(log_filter(2), "debug");
    assert_eq!(log_filter(255), "debug");
}

fn store() -> (ConfigStore, CredentialsFile) {
    let paths = AppPaths::from_base(PathBuf::from("/base"));
    let mut store = ConfigStore::with_secret_store(paths, Ok(None)).unwrap();
    let mut file = CredentialsFile::default();
    for name in ["work", "home"] {
        let meta = ProfileMeta {
            auth_type: AuthType::Internal,
            workspace_id: None,
            workspace_name: Some(name.to_string()),
            bot_id: None,
            owner_name: None,
            owner_email: None,
        };
        let secret = StoredSecret::Internal { token: format!("t-{name}") };
        file = store.put_profile(name.to_string(), meta, &secret, Ok(file), Ok(())).unwrap();
    }
    (store, file)
}

fn profile(name: &str) -> String {
    format!(
        r#"{{"auth_type":"internal","bot_id":null,"owner_email":null,"owner_name":null,"workspace_id":null,"workspace_name":"{name}"}}"#
    )
}

#[test]
fn profiles_are_listed_by_name() {
    let (mut store, file) = store();
    match handle_auth(&mut store, AuthCommand::List, None, None, Ok(file)) {
        AuthStep::Done(Ok(document)) => assert_eq!(
            show(&document),
            format!(
                r#"{{"profiles":[{{"active":true,"name":"home","profile":{}}},{{"active":false,"name":"work","profile":{}}}]}}"#,
                profile("home"),
                profile("work")
            )
        ),
        _ => panic!("the profiles are listed at once"),
    }
}

#[test]
fn profiles_are_switched() {
    let (mut store, file) = store();
    let switch = AuthCommand::Use { profile_name: "work".into() };
    match handle_auth(&mut store, switch, None, None, Ok(file.clone())) {
        AuthStep::Save { document } => assert_eq!(show(&document), r#"{"active_profile":"work"}"#),
        _ => panic!("the configuration is saved"),
    }
    assert_eq!(store.active_profile(), Some("work"));
    let switch = AuthCommand::Use { profile_name: "zz".into() };
    match handle_auth(&mut store, switch, None, None, Ok(file)) {
        AuthStep::Done(Err(e)) => assert_eq!(e.message, "profile `zz` does not exist"),
        _ => panic!("there is no such profile"),
    }
    assert_eq!(store.active_profile(), Some("work"));
}

#[test]
fn logging_out_names_a_profile() {
    let (mut store, file) = store();
    let mut removed = |given: Option<&str>, all: Option<&str>| {
        let command = AuthCommand::Logout { profile_name: given.map(|s| s.to_string()) };
        let all = all.map(|s| s.to_string());
        match handle_auth(&mut store, command, all, None, Ok(file.clone())) {
            AuthStep::Remove { profile_name } => profile_name,
            _ => panic!("a profile is removed"),
        }
    };
    assert_eq!(removed(Some("a"), Some("b")), "a");
    assert_eq!(removed(None, Some("b")), "b");
    assert_eq!(removed(None, None), "home");
    assert_eq!(show(&deleted_profile_document("a")), r#"{"deleted_profile":"a"}"#);

    let paths = AppPaths::from_base(PathBuf::from("/base"));
    let mut empty = ConfigStore::with_secret_store(paths, Ok(None)).unwrap();
    let command = AuthCommand::Logout { profile_name: None };
    match handle_auth(&mut empty, command, None, None, Ok(CredentialsFile::default())) {
        AuthStep::Done(Err(e)) => {
            assert_eq!(e.message, "no profile specified and there is no active profile")
        }
        _ => panic!("there is no profile to remove"),
    }
}

#[test]
fn the_bot_is_shown() {
    let (mut store, file) = store();
    match handle_auth(&mut store, AuthCommand::Whoami, None, None, Ok(file.clone())) {
        AuthStep::AskSelf { session, then } => {
            assert_eq!(session.secret.access_token(), "t-home");
            let shown = then.resume(&store, Ok(doc(r#"{"object":"user"}"#))).unwrap();
            assert_eq!(
                show(&shown),
                format!(
                    r#"{{"live_object":"user","live_user":{{"object":"user"}},"profile":"home","stored_profile":{}}}"#,
                    profile("home")
                )
            );
        }
        _ => panic!("the bot is asked for"),
    }
    let other = Some("zz".to_string());
    match handle_auth(&mut store, AuthCommand::Whoami, other, Some("env".into()), Ok(file.clone())) {
        AuthStep::AskSelf { session, then } => {
            assert_eq!(session.secret.access_token(), "env");
            let shown = then.resume(&store, Ok(doc("{}"))).unwrap();
            assert_eq!(
                show(&shown),
                r#"{"live_object":"unknown","live_user":{},"profile":"zz","stored_profile":null}"#
            );
        }
        _ => panic!("the bot is asked for"),
    }
    match handle_auth(&mut store, AuthCommand::Whoami, None, None, Ok(file)) {
        AuthStep::AskSelf { then, .. } => {
            let e = then.resume(&store, Err(CliError::new("refused"))).unwrap_err();
            assert_eq!(e.message, "refused");
        }
        _ => panic!("the bot is asked for"),
    }
}

const LOGIN_FLOW: &str =
    "run `notioncli auth login` to save a token locally, or set `NOTION_TOKEN` for one-shot use";

#[test]
fn credentials_are_checked() {
    let (mut store, file) = store();
    let check = |store: &mut ConfigStore, profile: Option<&str>, token: Option<&str>| {
        handle_auth(
            store,
            AuthCommand::Doctor,
            profile.map(|s| s.to_string()),
            token.map(|s| s.to_string()),
            Ok(file.clone()),
        )
    };
    match check(&mut store, None, None) {
        AuthStep::AskSelf { then, .. } => {
            let report = then.resume(&store, Ok(doc(r#"{"id":1}"#))).unwrap();
            assert_eq!(
                show(&report),
                format!(
                    r#"{{"active_profile":"home","auth_error":null,"auth_ok":true,"live_user":{{"id":1}},"login_flow":"{LOGIN_FLOW}","stored_credentials":true,"token_persistence":"credentials_file","token_source":"credentials_file"}}"#
                )
            );
        }
        _ => panic!("the bot is asked for"),
    }
    match check(&mut store, Some("zz"), Some("env")) {
        AuthStep::AskSelf { then, .. } => {
            let report = then.resume(&store, Err(CliError::new("refused"))).unwrap();
            assert_eq!(
                show(&report),
                format!(
                    r#"{{"active_profile":"zz","auth_error":"refused","auth_ok":false,"live_user":null,"login_flow":"{LOGIN_FLOW}","stored_credentials":false,"token_persistence":"environment","token_source":"environment"}}"#
                )
            );
        }
        _ => panic!("the bot is asked for"),
    }
    match check(&mut store, Some("zz"), None) {
        AuthStep::Done(Ok(report)) => assert_eq!(
            show(&report),
            format!(
                r#"{{"active_profile":"zz","auth_error":"no persisted credentials found for profile `zz`; run `notioncli auth login ...` again","auth_ok":false,"live_user":null,"login_flow":"{LOGIN_FLOW}","stored_credentials":false,"token_persistence":null,"token_source":null}}"#
            )
        ),
        _ => panic!("there is no session"),
    }
}

#[test]
fn logging_in_checks_the_token() {
    let (mut store, file) = store();
    let mut login = |token: Option<&str>| {
        let command = AuthCommand::Login {
            profile_name: Some("p".into()),
            token: token.map(|s| s.to_string()),
        };
        handle_auth(&mut store, command, None, None, Ok(file.clone()))
    };
    match login(Some(" tok ")) {
        AuthStep::CheckToken { token, profile_name } => {
            assert_eq!(token, " tok ");
            assert_eq!(profile_name.as_deref(), Some("p"));
        }
        _ => panic!("the token is checked"),
    }
    assert!(matches!(login(Some("  ")), AuthStep::Prompt { .. }));
    assert!(matches!(login(None), AuthStep::Prompt { .. }));
    match resume_login(Some(" typed ".into()), None) {
        AuthStep::CheckToken { token, profile_name } => {
            assert_eq!(token, "typed");
            assert_eq!(profile_name, None);
        }
        _ => panic!("the token is checked"),
    }
    match resume_login(Some("".into()), None) {
        AuthStep::Done(Err(e)) => assert_eq!(e.message, "provide a Notion integration token"),
        _ => panic!("there is no token"),
    }
}

#[test]
fn logging_in_makes_a_profile() {
    let me = doc(
        r#"{"id":"bot","name":"Bot","owner":{"user":{"name":"Ada L","person":{"email":"a@e"}}}}"#,
    );
    let new = login_internal("tok".into(), None, Ok(me)).unwrap();
    assert_eq!(new.name, "ada-l");
    assert_eq!(new.secret.access_token(), "tok");
    assert_eq!(new.meta.bot_id.as_deref(), Some("bot"));
    assert_eq!(new.meta.owner_email.as_deref(), Some("a@e"));
    assert_eq!(new.meta.workspace_name, None);
    assert_eq!(
        show(&emit_auth_login_result(&new.name, &new.meta)),
        r#"{"profile":{"auth_type":"internal","bot_id":"bot","owner_email":"a@e","owner_name":"Ada L","workspace_id":null,"workspace_name":null},"profile_name":"ada-l"}"#
    );
    let named = login_internal("tok".into(), Some("Mine".into()), Ok(doc("{}"))).unwrap();
    assert_eq!(named.name, "Mine");
    assert_eq!(named.meta.owner_name, None);
    let refused = login_internal("tok".into(), None, Err(CliError::new("refused")));
    assert_eq!(refused.err().unwrap().message, "refused");
}

#[test]
fn logins_are_saved() {
    let (mut store, file) = store();
    let new = || login_internal("tok".into(), Some("new".into()), Ok(doc("{}"))).unwrap();
    let full = || Err(CliError::new("full"));
    let e = save_login(&mut store, new(), Ok(file.clone()), full()).unwrap_err();
    assert_eq!(e.message, "full");
    assert!(store.get_profile("new").is_none());
    assert_eq!(store.active_profile(), Some("home"));
    let e = save_login(&mut store, new(), Err(CliError::new("unreadable")), Ok(())).unwrap_err();
    assert_eq!(e.message, "unreadable");
    assert_eq!(store.active_profile(), Some("home"));

    let (stored, document) = save_login(&mut store, new(), Ok(file), Ok(())).unwrap();
    assert_eq!(stored.read_secret("new").unwrap().access_token(), "tok");
    assert!(stored.has_secret("home"));
    assert_eq!(store.active_profile(), Some("new"));
    assert!(show(&document).ends_with(r#""profile_name":"new"}"#));
}

#[test]
fn logouts_are_finished() {
    let (mut store, file) = store();
    let (stored, document) = finish_logout(&mut store, "home", Ok(file), Ok(())).unwrap();
    assert_eq!(show(&document), r#"{"deleted_profile":"home"}"#);
    assert!(!stored.has_secret("home"));
    assert!(stored.has_secret("work"));
    assert_eq!(store.active_profile(), Some("work"));
    let full = Err(CliError::new("full"));
    let e = finish_logout(&mut store, "work", Ok(stored), full).unwrap_err();
    assert_eq!(e.message, "full");
    assert!(store.get_profile("work").is_none());
    assert_eq!(store.active_profile(), Some("work"));
}

#[test]
fn commands_read_credentials_only_where_they_matter() {
    let (store, _) = store();
    let wanted = |command: AuthCommand, token: bool| {
        command_wants_credentials(&store, &command, &None, token)
    };
    assert!(wanted(AuthCommand::Doctor, true));
    assert!(wanted(AuthCommand::Whoami, false));
    assert!(!wanted(AuthCommand::Whoami, true));
    assert!(!wanted(AuthCommand::List, false));
    assert!(!wanted(AuthCommand::Logout { profile_name: None }, false));
}

#[test]
fn storing_leads_to_saving() {
    let stored = Ok((CredentialsFile::default(), doc("{}")));
    match AuthStep::after_storing(stored) {
        AuthStep::Save { document } => match AuthStep::after_saving(document, Ok(())) {
            AuthStep::Done(Ok(document)) => assert_eq!(show(&document), "{}"),
            _ => panic!("the document is given back"),
        },
        _ => panic!("the configuration is saved"),
    }
    let failed = |step: AuthStep| match step {
        AuthStep::Done(Err(e)) => e.message,
        _ => panic!("there was a failure"),
    };
    assert_eq!(failed(AuthStep::after_storing(Err(CliError::new("full")))), "full");
    assert_eq!(failed(AuthStep::after_saving(doc("{}"), Err(CliError::new("full")))), "full");
}
