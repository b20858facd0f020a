//! What the calls of the library give back, whatever they are called with.
use std::path::PathBuf;

use vstd::prelude::*;

use crate::auth::{
    auth_config, auth_step, deleted_profile_document, deleted_profile_value, doctor_document,
    doctor_value, emit_auth_login_result, finish_logout, handle_auth, list_profiles,
    login_internal, login_value, profile_document, profile_value, profiles_value, prompted_step,
    resume_login, save_login, whoami_document, whoami_value, AuthCommand, AuthStep, AuthStepView,
    NewProfile,
};
use crate::client::{
    appended_children, appended_markdown, base_url_of, default_list_object, document_view,
    new_page, CreateParent, DataSourceQuery, ListResponse, NotionClient, PageMarkdown,
    RequestHead, SearchFilter,
};
use crate::commands::{
    handle_block, handle_comment, handle_data_source, handle_database, handle_file_upload,
    handle_page, handle_search, handle_user, BlockCommand, CommentCommand, DataSourceCommand,
    DatabaseCommand, FileUploadCommand, PageCommand, ParentTarget, UserCommand,
};
use crate::config::{
    default_api_version, derive_profile_name, derived_name, not_blank_or, resolved,
    runtime_token_override, token_override, AuthType, ConfigFile, ConfigStore, CredentialsFile,
    ProfileMeta, RuntimeSession, SessionSource, StoredSecret,
};
use crate::errors::{classify_error, friendly, friendly_error, ClassifiedError, CliError};
use crate::flow::{
    check_upload_size, sent_file, AfterDocument, AfterFile, AfterList, AfterMarkdown, AfterRead, Step,
};
use crate::ids::{no_id_message, normalize_notion_id, normalized_id};
use crate::inputs::{
    prompt_for_internal_token, read_required_json_input, read_required_markdown, text_outcome,
    typed_token, Input, JsonInputArgs,
};
use crate::json::{Json, JsonView};
use crate::objects::{
    bot_id_from_user_me, extract_title, object_kind, owner_email, owner_email_from_user_me,
    owner_name, owner_name_from_user_me, plain_text, rich_text_to_plain_text, title_of,
};
use crate::output::{
    error_object, format_named, log_filter, log_level, parse_output_format, requested_format,
    requested_output_format_from_argv, texts, OutputFormat,
};
use crate::parents::{ParentLookup, ParentStep};
use crate::parse::document_of;
use crate::paths::{discovered, parts, AppPaths, LocalDir};
use crate::profiles::logins_learn_what_the_bot_tells;
use crate::reading::{at, string_in};
use crate::request::{paging, ApiRequest, Method};
use crate::search::{
    keeps_to, new_search, searches_ask_for_what_is_looked_for, searches_start_at_the_beginning,
    SearchRun, SearchStep,
};
use crate::slug::{slug, slugify_profile_name};
use crate::steps::{body_from, markdown_from, sent};
use crate::text::{decimal, trimmed, view_of};
use crate::transport::{
    decode_parsed, decode_response, decoded, document_outcome, is_uninformative, pause,
    retry_delay, says_nothing, should_retry, Attempts, Next,
};
use crate::verdicts::reported;
use crate::wire::{
    addresses_are_kept, fields_of, is_object, queries_hold_what_is_given,
    replacements_delete_only_what_is_allowed, reports_say_what_went_wrong,
};

verus! {

/// The request is one for what `front` and the id in `raw` lead to; without an id there is none, and
/// the user is told so.
pub open spec fn by_id(
    r: Result<ApiRequest, CliError>,
    raw: Seq<char>,
    method: Method,
    front: Seq<char>,
    query: Option<Seq<(Seq<char>, Seq<char>)>>,
    body: Option<JsonView>,
) -> bool {
    match normalized_id(raw) {
        Some(id) => r is Ok && r->Ok_0@ == sent(method, front + id, query, body),
        None => r is Err && r->Err_0.message@ == no_id_message(raw),
    }
}

/// The request is one for what `front`, the id in `raw` and `back` lead to; without an id there is
/// none, and the user is told so.
pub open spec fn by_id_and(
    r: Result<ApiRequest, CliError>,
    raw: Seq<char>,
    method: Method,
    front: Seq<char>,
    back: Seq<char>,
    query: Option<Seq<(Seq<char>, Seq<char>)>>,
    body: Option<JsonView>,
) -> bool {
    match normalized_id(raw) {
        Some(id) => r is Ok && r->Ok_0@ == sent(method, front + id + back, query, body),
        None => r is Err && r->Err_0.message@ == no_id_message(raw),
    }
}

/// Every object is asked for under its own path, by its id.
pub proof fn objects_are_asked_for_by_id(client: &NotionClient, raw: &str)
    ensures
        forall|r: Result<ApiRequest, CliError>|
            call_ensures(NotionClient::get_page, (client, raw), r) ==> by_id(
                r,
                raw@,
                Method::Get,
                "/v1/pages/"@,
                None,
                None,
            ),
        forall|r: Result<ApiRequest, CliError>|
            call_ensures(NotionClient::get_data_source, (client, raw), r) ==> by_id(
                r,
                raw@,
                Method::Get,
                "/v1/data_sources/"@,
                None,
                None,
            ),
        forall|r: Result<ApiRequest, CliError>|
            call_ensures(NotionClient::get_database, (client, raw), r) ==> by_id(
                r,
                raw@,
                Method::Get,
                "/v1/databases/"@,
                None,
                None,
            ),
        forall|r: Result<ApiRequest, CliError>|
            call_ensures(NotionClient::get_block, (client, raw), r) ==> by_id(
                r,
                raw@,
                Method::Get,
                "/v1/blocks/"@,
                None,
                None,
            ),
        forall|r: Result<ApiRequest, CliError>|
            call_ensures(NotionClient::get_user, (client, raw), r) ==> by_id(
                r,
                raw@,
                Method::Get,
                "/v1/users/"@,
                None,
                None,
            ),
        forall|r: Result<ApiRequest, CliError>|
            call_ensures(NotionClient::get_comment, (client, raw), r) ==> by_id(
                r,
                raw@,
                Method::Get,
                "/v1/comments/"@,
                None,
                None,
            ),
        forall|r: Result<ApiRequest, CliError>|
            call_ensures(NotionClient::get_file_upload, (client, raw), r) ==> by_id(
                r,
                raw@,
                Method::Get,
                "/v1/file_uploads/"@,
                None,
                None,
            ),
        forall|r: Result<ApiRequest, CliError>|
            call_ensures(NotionClient::delete_block, (client, raw), r) ==> by_id(
                r,
                raw@,
                Method::Delete,
                "/v1/blocks/"@,
                None,
                None,
            ),
{
}

/// Every object is changed under its own path, by its id, with the document that is given, and
/// created under the path of its kind.
pub proof fn objects_are_changed_by_id(client: &NotionClient, raw: &str, body: Json)
    ensures
        forall|r: Result<ApiRequest, CliError>|
            call_ensures(NotionClient::update_page, (client, raw, body), r) ==> by_id(
                r,
                raw@,
                Method::Patch,
                "/v1/pages/"@,
                None,
                Some(body@),
            ),
        forall|r: Result<ApiRequest, CliError>|
            call_ensures(NotionClient::update_data_source, (client, raw, body), r) ==> by_id(
                r,
                raw@,
                Method::Patch,
                "/v1/data_sources/"@,
                None,
                Some(body@),
            ),
        forall|r: Result<ApiRequest, CliError>|
            call_ensures(NotionClient::update_database, (client, raw, body), r) ==> by_id(
                r,
                raw@,
                Method::Patch,
                "/v1/databases/"@,
                None,
                Some(body@),
            ),
        forall|r: Result<ApiRequest, CliError>|
            call_ensures(NotionClient::update_block, (client, raw, body), r) ==> by_id(
                r,
                raw@,
                Method::Patch,
                "/v1/blocks/"@,
                None,
                Some(body@),
            ),
        forall|r: ApiRequest|
            call_ensures(NotionClient::create_data_source, (client, body), r) ==> r@ == sent(
                Method::Post,
                "/v1/data_sources"@,
                None,
                Some(body@),
            ),
        forall|r: ApiRequest|
            call_ensures(NotionClient::create_database, (client, body), r) ==> r@ == sent(
                Method::Post,
                "/v1/databases"@,
                None,
                Some(body@),
            ),
        forall|r: ApiRequest|
            call_ensures(NotionClient::create_comment, (client, body), r) ==> r@ == sent(
                Method::Post,
                "/v1/comments"@,
                None,
                Some(body@),
            ),
{
}

/// Lists are asked for under the path of what they list, one page at a time.
pub proof fn lists_are_asked_for_page_by_page(
    client: &NotionClient,
    raw: &str,
    property: &str,
    status: Option<&str>,
    page_size: Option<usize>,
    cursor: Option<String>,
)
    ensures
        forall|r: Result<ApiRequest, CliError>|
            call_ensures(
                NotionClient::get_page_property,
                (client, raw, property, page_size, cursor),
                r,
            ) ==> match normalized_id(raw@) {
                Some(id) => r is Ok && r->Ok_0@ == sent(
                    Method::Get,
                    "/v1/pages/"@ + id + "/properties/"@ + property@,
                    Some(paging(page_size, view_of(cursor))),
                    None,
                ),
                None => r is Err && r->Err_0.message@ == no_id_message(raw@),
            },
        forall|r: Result<ApiRequest, CliError>|
            call_ensures(NotionClient::get_block_children, (client, raw, page_size, cursor), r)
                ==> by_id_and(
                r,
                raw@,
                Method::Get,
                "/v1/blocks/"@,
                "/children"@,
                Some(paging(page_size, view_of(cursor))),
                None,
            ),
        forall|r: Result<ApiRequest, CliError>|
            call_ensures(NotionClient::list_comments, (client, raw, page_size, cursor), r)
                ==> match normalized_id(raw@) {
                Some(id) => r is Ok && r->Ok_0@ == sent(
                    Method::Get,
                    "/v1/comments"@,
                    Some(seq![("block_id"@, id)] + paging(page_size, view_of(cursor))),
                    None,
                ),
                None => r is Err && r->Err_0.message@ == no_id_message(raw@),
            },
        forall|r: ApiRequest|
            call_ensures(NotionClient::list_users, (client, page_size, cursor), r) ==> r@ == sent(
                Method::Get,
                "/v1/users"@,
                Some(paging(page_size, view_of(cursor))),
                None,
            ),
        forall|r: ApiRequest|
            call_ensures(NotionClient::list_file_uploads, (client, status, page_size, cursor), r)
                ==> r@ == sent(
                Method::Get,
                "/v1/file_uploads"@,
                Some(
                    (match status {
                        Some(wanted) => seq![("status"@, wanted@)],
                        None => Seq::empty(),
                    }) + paging(page_size, view_of(cursor)),
                ),
                None,
            ),
{
}

/// A query of a data source holds each of the filter, the sorts, the page size and the cursor just
/// where it is given.
pub proof fn queries_are_sent_in_full(
    client: &NotionClient,
    raw: &str,
    query: DataSourceQuery,
    r: Result<ApiRequest, CliError>,
)
    requires
        call_ensures(NotionClient::query_data_source, (client, raw, query), r),
    ensures
        normalized_id(raw@) is None ==> r is Err && r->Err_0.message@ == no_id_message(raw@),
        normalized_id(raw@) matches Some(id) ==> {
            let request = r->Ok_0@;
            let fields = fields_of(request.body->0);
            &&& r is Ok
            &&& request.method == Method::Post
            &&& request.path == "/v1/data_sources/"@ + id + "/query"@
            &&& request.query is None
            &&& request.body is Some
            &&& is_object(request.body->0)
            &&& fields.dom().contains("filter"@) == (query.filter is Some)
            &&& query.filter matches Some(filter) ==> fields["filter"@] == filter@
            &&& fields.dom().contains("sorts"@) == (query.sorts is Some)
            &&& query.sorts matches Some(sorts) ==> fields["sorts"@] == sorts@
            &&& fields.dom().contains("page_size"@) == (query.page_size is Some)
            &&& query.page_size matches Some(n) ==> fields["page_size"@] == JsonView::Number(
                decimal(n as nat),
            )
            &&& fields.dom().contains("start_cursor"@) == (query.cursor is Some)
            &&& query.cursor matches Some(cursor) ==> fields["start_cursor"@] == JsonView::Text(
                cursor@,
            )
            &&& forall|name: Seq<char>| #[trigger]
                fields.dom().contains(name) ==> name == "filter"@ || name == "sorts"@ || name
                    == "page_size"@ || name == "start_cursor"@
        },
{
    queries_hold_what_is_given(
        document_view(query.filter),
        document_view(query.sorts),
        query.page_size,
        view_of(query.cursor),
    );
}

/// Replacing the contents of a page sends whether content may be deleted just as it is given.
pub proof fn replacements_are_sent_as_given(
    client: &NotionClient,
    raw: &str,
    markdown: &str,
    allowed: bool,
    r: Result<ApiRequest, CliError>,
)
    requires
        call_ensures(NotionClient::replace_page_markdown, (client, raw, markdown, allowed), r),
    ensures
        normalized_id(raw@) is None ==> r is Err && r->Err_0.message@ == no_id_message(raw@),
        normalized_id(raw@) matches Some(id) ==> {
            let request = r->Ok_0@;
            let fields = fields_of(request.body->0);
            let inner = fields_of(fields["replace_content"@]);
            &&& r is Ok
            &&& request.method == Method::Patch
            &&& request.path == "/v1/pages/"@ + id + "/markdown"@
            &&& request.query is None
            &&& request.body is Some
            &&& is_object(request.body->0)
            &&& fields.dom() == set!["type"@, "replace_content"@]
            &&& fields["type"@] == JsonView::Text("replace_content"@)
            &&& is_object(fields["replace_content"@])
            &&& inner.dom() == set!["new_str"@, "allow_deleting_content"@]
            &&& inner["new_str"@] == JsonView::Text(markdown@)
            &&& inner["allow_deleting_content"@] == JsonView::Bool(allowed)
        },
{
    replacements_delete_only_what_is_allowed(markdown@, allowed);
}

/// What is added to pages and blocks, and the pages that are created, go where they belong.
pub proof fn additions_go_where_they_belong(
    client: &NotionClient,
    raw: &str,
    markdown: &str,
    children: Json,
    position: Option<Json>,
    include_transcript: bool,
    parent: CreateParent,
    content: Option<String>,
)
    ensures
        forall|r: Result<ApiRequest, CliError>|
            call_ensures(NotionClient::append_page_markdown, (client, raw, markdown), r)
                ==> by_id_and(
                r,
                raw@,
                Method::Patch,
                "/v1/pages/"@,
                "/markdown"@,
                None,
                Some(appended_markdown(markdown@)),
            ),
        forall|r: Result<ApiRequest, CliError>|
            call_ensures(
                NotionClient::append_block_children,
                (client, raw, children, position),
                r,
            ) ==> by_id_and(
                r,
                raw@,
                Method::Patch,
                "/v1/blocks/"@,
                "/children"@,
                None,
                Some(
                    appended_children(
                        children@,
                        match position {
                            Some(place) => Some(place@),
                            None => None,
                        },
                    ),
                ),
            ),
        forall|r: Result<ApiRequest, CliError>|
            call_ensures(NotionClient::get_page_markdown, (client, raw, include_transcript), r)
                ==> by_id_and(
                r,
                raw@,
                Method::Get,
                "/v1/pages/"@,
                "/markdown"@,
                Some(
                    if include_transcript {
                        seq![("include_transcript"@, "true"@)]
                    } else {
                        Seq::empty()
                    },
                ),
                None,
            ),
        forall|r: ApiRequest|
            call_ensures(NotionClient::create_page, (client, parent, markdown, content), r) ==> r@
                == sent(
                Method::Post,
                "/v1/pages"@,
                None,
                Some(new_page(parent@, markdown@, view_of(content))),
            ),
{
}

/// A client talks to the API at the address that is given, in the version that is given, and asks for
/// the bot of a token with that token.
pub proof fn clients_talk_to_their_api(
    base_url: &str,
    version: &str,
    client: &NotionClient,
    token: &str,
    path: &str,
)
    ensures
        forall|r: NotionClient|
            call_ensures(NotionClient::new, (base_url, version), r) ==> r@.notion_version
                == version@,
        forall|r: NotionClient|
            call_ensures(NotionClient::new, (base_url, version), r) && trimmed(base_url@).len() == 0
                ==> r@.base_url == "https://api.notion.com"@,
        forall|r: RequestHead|
            call_ensures(NotionClient::request_bearer_json, (client, token, path), r) ==> {
                &&& r@.url == client@.base_url + path@
                &&& r@.bearer_token == token@
                &&& r@.headers == seq![
                    ("Notion-Version"@, client@.notion_version),
                    ("Accept"@, "application/json"@),
                ]
            },
        forall|r: ApiRequest|
            call_ensures(NotionClient::get_self, (client,), r) ==> r@ == sent(
                Method::Get,
                "/v1/users/me"@,
                None,
                None,
            ),
        forall|r: (RequestHead, ApiRequest)|
            call_ensures(NotionClient::get_self_for_token, (client, token), r) ==> {
                &&& r.0@.url == client@.base_url + "/v1/users/me"@
                &&& r.0@.bearer_token == token@
                &&& r.1@ == sent(Method::Get, "/v1/users/me"@, None, None)
            },
{
    addresses_are_kept(base_url@);
}

/// What the environment says of the API goes before what is saved, unless it is blank.
pub proof fn the_environment_chooses_the_api(
    store: &ConfigStore,
    environment_base_url: Option<String>,
    environment_version: Option<String>,
    r: NotionClient,
)
    requires
        call_ensures(
            NotionClient::from_config,
            (store, environment_base_url, environment_version),
            r,
        ),
    ensures
        environment_version matches Some(version) && trimmed(version@).len() > 0
            ==> r@.notion_version == environment_version->0@,
        !(environment_version matches Some(version) && trimmed(version@).len() > 0)
            ==> r@.notion_version == store@.api_version,
        !(environment_base_url matches Some(url) && trimmed(url@).len() > 0) ==> r@.base_url
            == "https://api.notion.com"@,
        environment_base_url matches Some(url) ==> (trimmed(url@).len() > 0 ==> ({
            let kept = r@.base_url;
            &&& kept.len() <= url@.len()
            &&& url@.take(kept.len() as int) == kept
            &&& forall|i: int| kept.len() <= i < url@.len() ==> url@[i] == '/'
            &&& kept.len() > 0 ==> kept.last() != '/'
        })),
{
    reveal_strlit("https://api.notion.com");
    let standard = "https://api.notion.com"@;
    if let Some(url) = environment_base_url {
        addresses_are_kept(url@);
    }
    addresses_are_kept(standard);
    assert(standard.last() == 'm');
    let kept = base_url_of(standard);
    if trimmed(standard).len() > 0 {
        assert(kept.len() == standard.len()) by {
            if kept.len() < standard.len() {
                assert(standard[standard.len() - 1] == '/');
            }
        }
        assert(kept =~= standard);
    }
}

/// The kind of parent that is named first decides: one that is to be found out, a page, or a data
/// source with its title property.
pub proof fn one_kind_of_parent_is_taken(
    parent: Option<String>,
    page: Option<String>,
    data_source: Option<String>,
    title_property: Option<String>,
    r: Option<ParentTarget>,
)
    requires
        call_ensures(
            ParentTarget::from_flags,
            (parent, page, data_source, title_property),
            r,
        ),
    ensures
        parent matches Some(raw) ==> r == Some(ParentTarget::Detect(raw)),
        parent is None ==> (page matches Some(raw) ==> r == Some(ParentTarget::Page(raw))),
        parent is None && page is None ==> (data_source matches Some(raw) ==> r == Some(
            ParentTarget::DataSource { data_source: raw, title_property },
        )),
        parent is None && page is None && data_source is None ==> r is None,
{
}

/// The names of things are what the program and the API call them.
pub proof fn things_go_by_their_names(filter: SearchFilter, session: &RuntimeSession, value: &Json)
    ensures
        forall|r: &'static str|
            call_ensures(AuthType::as_str, (AuthType::Internal,), r) ==> r@ == "internal"@,
        forall|r: &'static str|
            call_ensures(SessionSource::as_str, (SessionSource::PersistedProfile,), r) ==> r@
                == "credentials_file"@,
        forall|r: &'static str|
            call_ensures(SessionSource::as_str, (SessionSource::Environment,), r) ==> r@
                == "environment"@,
        forall|r: Option<&'static str>|
            call_ensures(SearchFilter::api_value, (filter,), r) ==> match filter {
                SearchFilter::All => r is None,
                SearchFilter::Page => r is Some && r->0@ == "page"@,
                SearchFilter::DataSource => r is Some && r->0@ == "data_source"@,
            },
        forall|r: &str|
            call_ensures(RuntimeSession::display_name, (session,), r) ==> r@ == (
            match session.profile_name {
                Some(name) => name@,
                None => "unknown-profile"@,
            }),
        forall|r: &str|
            call_ensures(object_kind, (value,), r) ==> r@ == (match string_in(
                at(value@, "object"@),
            ) {
                Some(kind) => kind,
                None => "unknown"@,
            }),
        forall|r: Option<String>|
            call_ensures(bot_id_from_user_me, (value,), r) ==> view_of(r) == string_in(
                at(value@, "id"@),
            ),
        forall|r: String| call_ensures(default_list_object, (), r) ==> r@ == "list"@,
        forall|r: String| call_ensures(default_api_version, (), r) ==> r@ == "2026-03-11"@,
{
}

/// A request goes out again just where the status allows it and fewer than four went out, after the
/// pause for the number of requests so far.
pub proof fn attempts_are_counted(
    attempts: Attempts,
    status: u16,
    retry_after: Option<&str>,
    r: Next,
)
    requires
        call_ensures(Attempts::request_json, (attempts, status, retry_after), r),
    ensures
        r is Retry <==> attempts@ < 3 && (status == 429 || 500 <= status <= 599),
        r matches Next::Retry { seconds, attempts: made } ==> made@ == attempts@ + 1 && seconds
            == pause(
            match retry_after {
                Some(text) => Some(text@),
                None => None,
            },
            attempts@ + 1,
        ),
        forall|again: bool|
            call_ensures(should_retry, (status,), again) ==> again == (status == 429 || 500 <= status
                <= 599),
        forall|first: Attempts| call_ensures(Attempts::new, (), first) ==> first@ == 0,
{
}

/// A login gives the new profile the token, what the bot tells, and the name that was chosen, or one
/// that is made up. If the bot cannot be asked for, the user is told why.
pub proof fn logins_make_profiles(
    token: String,
    profile_name: Option<String>,
    reply: Result<Json, CliError>,
    r: Result<NewProfile, CliError>,
)
    requires
        call_ensures(login_internal, (token, profile_name, reply), r),
    ensures
        reply matches Err(e) ==> r is Err && r->Err_0.message@ == e.message@,
        reply matches Ok(me) ==> {
            let profile = r->Ok_0;
            &&& r is Ok
            &&& profile.secret@ == token@
            &&& profile_name matches Some(name) ==> profile.name@ == name@
            &&& profile_name is None ==> profile.name@ == derived_name(profile.meta)
            &&& view_of(profile.meta.bot_id) == string_in(at(me@, "id"@))
            &&& profile.meta.workspace_id is None
            &&& profile.meta.workspace_name is None
        },
{
    if let Ok(me) = reply {
        logins_learn_what_the_bot_tells(me@, r->Ok_0.meta);
    }
}

/// The configuration is saved only after the credentials were, and the document is given back only
/// after the configuration was.
pub proof fn saving_goes_step_by_step(
    stored: Result<(CredentialsFile, Json), CliError>,
    document: Json,
    saved: Result<(), CliError>,
)
    ensures
        forall|r: AuthStep|
            call_ensures(AuthStep::after_storing, (stored,), r) ==> match stored {
                Ok(both) => r@ == (AuthStepView::Save { document: both.1@ }),
                Err(e) => r@ == AuthStepView::Done(Err(e.message@)),
            },
        forall|r: AuthStep|
            call_ensures(AuthStep::after_saving, (document, saved), r) ==> match saved {
                Ok(_) => r@ == AuthStepView::Done(Ok(document@)),
                Err(e) => r@ == AuthStepView::Done(Err(e.message@)),
            },
{
}

/// The configuration is what the file says, or nothing yet where there is no file. A failure to find
/// the directory or to read the file is handed on.
pub proof fn configurations_are_loaded(
    paths: Result<AppPaths, CliError>,
    file: Result<Option<ConfigFile>, CliError>,
    r: Result<ConfigStore, CliError>,
)
    requires
        call_ensures(ConfigStore::load, (paths, file), r),
    ensures
        paths matches Err(e) ==> r is Err && r->Err_0 == e,
        paths is Ok ==> (file matches Err(e) ==> r is Err && r->Err_0 == e),
        paths is Ok && file is Ok ==> r is Ok && r->Ok_0.paths_view() == paths->Ok_0,
        paths is Ok && file is Ok ==> (file->Ok_0 matches Some(found) ==> r->Ok_0@ == found@),
        paths is Ok && file is Ok && file->Ok_0 is None ==> {
            &&& r->Ok_0@.api_version == "2026-03-11"@
            &&& r->Ok_0@.active_profile is None
            &&& r->Ok_0@.profiles.dom() == Set::<Seq<char>>::empty()
        },
{
    if paths is Ok && file is Ok && file->Ok_0 is None {
        assert(r->Ok_0@.profiles.dom() =~= Set::<Seq<char>>::empty());
    }
}

/// A secret that is saved is found under the name of its profile alone, and its token is what is sent.
pub proof fn secrets_are_found_by_name(file: &CredentialsFile, name: &str, secret: &StoredSecret)
    ensures
        forall|r: Result<StoredSecret, CliError>|
            call_ensures(CredentialsFile::read_secret, (file, name), r) ==> if file.profiles@.dom().contains(
                name@,
            ) {
                r is Ok && r->Ok_0 == file.profiles@[name@]
            } else {
                r is Err && r->Err_0.message@ == "no persisted credentials found for profile `"@
                    + name@ + "`; run `notioncli auth login ...` again"@
            },
        forall|r: bool|
            call_ensures(CredentialsFile::has_secret, (file, name), r) ==> r
                == file.profiles@.dom().contains(name@),
        forall|r: &str|
            call_ensures(StoredSecret::access_token, (secret,), r) ==> r@ == (match *secret {
                StoredSecret::Internal { token } => token@,
            }),
{
}

/// The id that comes out is the one in the text, and where there is none the user is told so.
pub proof fn ids_are_found_or_missed(raw: &str, r: Result<String, CliError>)
    requires
        call_ensures(normalize_notion_id, (raw,), r),
    ensures
        normalized_id(raw@) matches Some(id) ==> r is Ok && r->Ok_0@ == id,
        normalized_id(raw@) is None ==> r is Err && r->Err_0.message@ == no_id_message(raw@),
{
}

/// A failure is reported by its message, and the report holds all that there is to say.
pub proof fn failures_are_reported(
    error: &CliError,
    status: u16,
    code: &str,
    message: &str,
)
    ensures
        forall|r: ClassifiedError|
            call_ensures(classify_error, (error,), r) ==> reported(
                error.message@,
                r.status as int,
                r.code@,
                r.exit_code as int,
            ),
        forall|r: Json|
            call_ensures(error_object, (status, code, message), r) ==> {
                let fields = fields_of(r@);
                &&& is_object(r@)
                &&& fields.dom() == set!["object"@, "status"@, "code"@, "message"@]
                &&& fields["object"@] == JsonView::Text("error"@)
                &&& fields["status"@] == JsonView::Number(decimal(status as nat))
                &&& fields["code"@] == JsonView::Text(code@)
                &&& fields["message"@] == JsonView::Text(message@)
            },
{
    reports_say_what_went_wrong(status, code@, message@);
}

/// Every command starts with the step that it stands for, whatever the client.
pub proof fn commands_start_with_their_step(
    client: &NotionClient,
    page: PageCommand,
    data_source: DataSourceCommand,
    database: DatabaseCommand,
    block: BlockCommand,
    comment: CommentCommand,
    user: UserCommand,
    file_upload: FileUploadCommand,
    read: Result<String, CliError>,
)
    ensures
        ({
            let given = match read {
                Ok(text) => Ok(text@),
                Err(e) => Err(e.message@),
            };
            &&& forall|r: Step|
                call_ensures(handle_page, (client, page, read), r) ==> r@ == page.first_step(given)
            &&& forall|r: Step|
                call_ensures(handle_data_source, (client, data_source, read), r) ==> r@
                    == data_source.first_step(given)
            &&& forall|r: Step|
                call_ensures(handle_database, (client, database, read), r) ==> r@
                    == database.first_step(given)
            &&& forall|r: Step|
                call_ensures(handle_block, (client, block, read), r) ==> r@ == block.first_step(
                    given,
                )
            &&& forall|r: Step|
                call_ensures(handle_comment, (client, comment, read), r) ==> r@
                    == comment.first_step(given)
            &&& forall|r: Step|
                call_ensures(handle_user, (client, user), r) ==> r@ == user.first_step()
            &&& forall|r: Step|
                call_ensures(handle_file_upload, (client, file_upload), r) ==> r@
                    == file_upload.first_step()
        }),
        forall|r: Input| call_ensures(PageCommand::input, (&page,), r) ==> r == page.wanted(),
        forall|r: Input|
            call_ensures(DataSourceCommand::input, (&data_source,), r) ==> r == data_source.wanted(),
        forall|r: Input|
            call_ensures(DatabaseCommand::input, (&database,), r) ==> r == database.wanted(),
        forall|r: Input| call_ensures(BlockCommand::input, (&block,), r) ==> r == block.wanted(),
        forall|r: Input|
            call_ensures(CommentCommand::input, (&comment,), r) ==> r == comment.wanted(),
{
}

/// A search asks for the kind of object that it keeps to, and for as many results as are wanted but
/// no more than a hundred. Where nothing is wanted, it gives back nothing at once.
pub proof fn searches_are_sent_in_full(
    client: &NotionClient,
    query: &str,
    filter: SearchFilter,
    limit: usize,
    r: Step,
)
    requires
        call_ensures(handle_search, (client, query, filter, limit), r),
    ensures
        limit == 0 ==> r@ is Done && r@->Done_0 is Ok && r@->Done_0->Ok_0 is List
            && r@->Done_0->Ok_0->List_0.results.len() == 0,
        limit > 0 ==> {
            let request = r@->AskList_request;
            let fields = fields_of(request.body->0);
            &&& r@ is AskList
            &&& request.method == Method::Post
            &&& request.path == "/v1/search"@
            &&& request.query is None
            &&& request.body is Some
            &&& is_object(request.body->0)
            &&& fields.dom().contains("query"@) && fields["query"@] == JsonView::Text(query@)
            &&& fields.dom().contains("page_size"@) && fields["page_size"@] == JsonView::Number(
                decimal(
                    if limit < 100 {
                        limit as nat
                    } else {
                        100
                    },
                ),
            )
            &&& fields.dom().contains("filter"@) == (filter != SearchFilter::All)
            &&& filter == SearchFilter::Page ==> keeps_to(fields["filter"@], "page"@)
            &&& filter == SearchFilter::DataSource ==> keeps_to(
                fields["filter"@],
                "data_source"@,
            )
            &&& !fields.dom().contains("start_cursor"@)
        },
{
    let start = new_search(query@, filter, limit as nat);
    searches_start_at_the_beginning(query@, filter, limit as nat);
    if limit > 0 {
        searches_ask_for_what_is_looked_for(start);
    }
}

/// Each answer brings the step that it decides.
pub proof fn answers_bring_their_step(
    client: &NotionClient,
    document: AfterDocument,
    list: AfterList,
    markdown: AfterMarkdown,
    file: AfterFile,
    local: AfterRead,
    lookup: ParentLookup,
    run: SearchRun,
    reply: Result<Json, CliError>,
    page: Result<ListResponse, CliError>,
    text: Result<PageMarkdown, CliError>,
    found: ListResponse,
    read: bool,
)
    ensures
        ({
            let given = match reply {
                Ok(answer) => Ok(answer@),
                Err(e) => Err(e.message@),
            };
            &&& forall|r: Step|
                call_ensures(AfterDocument::resume, (document, client, reply), r) ==> r@
                    == document@.answered(given)
            &&& forall|r: ParentStep|
                call_ensures(ParentLookup::resume, (lookup, reply), r) ==> r@ == lookup@.answered(
                    given,
                )
            &&& forall|r: Step|
                call_ensures(AfterFile::resume, (file, client, reply), r) ==> r@ == sent_file(
                    file.file_upload_id@,
                    given,
                )
        }),
        forall|r: Step|
            call_ensures(AfterList::resume, (list, page), r) ==> r@ == list@.answered(
                match page {
                    Ok(answer) => Ok(answer@),
                    Err(e) => Err(e.message@),
                },
            ),
        forall|r: Step|
            call_ensures(AfterMarkdown::resume, (markdown, text), r) ==> r@ == markdown@.answered(
                match text {
                    Ok(answer) => Ok(answer@),
                    Err(e) => Err(e.message@),
                },
            ),
        forall|r: Step|
            call_ensures(AfterRead::resume, (local, client, read), r) ==> r@ == local@.answered(read),
        forall|r: SearchStep|
            call_ensures(SearchRun::absorb, (run, found), r) ==> r@ == run@.with_page(found@).step(
                run@.results.len() + found@.results.len() < run@.limit && found.has_more
                    && found.next_cursor is Some,
            ),
{
}

/// A response is decoded from its status and what its body spells.
pub proof fn responses_are_decoded(status: u16, body: &str, parsed: Option<Json>)
    ensures
        forall|r: Result<Json, CliError>|
            call_ensures(decode_response, (status, body), r) ==> document_outcome(r) == decoded(
                status,
                body@,
                document_of(body@),
            ),
        forall|r: Result<Json, CliError>|
            call_ensures(decode_parsed, (status, body, parsed), r) ==> document_outcome(r)
                == decoded(
                status,
                body@,
                match parsed {
                    Some(document) => Some(document@),
                    None => None,
                },
            ),
{
}

/// A profile is saved, and made the active one, only where its secret was written. Nothing changes
/// where it was not.
pub proof fn profiles_are_saved_with_their_secrets(
    store: &mut ConfigStore,
    name: String,
    meta: ProfileMeta,
    secret: &StoredSecret,
    credentials: Result<CredentialsFile, CliError>,
    written: Result<(), CliError>,
    r: Result<CredentialsFile, CliError>,
)
    requires
        call_ensures(
            ConfigStore::put_profile,
            (store, name, meta, secret, credentials, written),
            r,
        ),
    ensures
        r is Ok <==> credentials is Ok && written is Ok,
        r is Ok ==> {
            &&& r->Ok_0@ == credentials->Ok_0@.insert(name@, *secret)
            &&& final(store)@.active_profile == Some(name@)
            &&& final(store)@.profiles == old(store)@.profiles.insert(name@, meta)
            &&& final(store)@.api_version == old(store)@.api_version
        },
        r is Err ==> final(store)@ == old(store)@,
        credentials matches Err(e) ==> r is Err && r->Err_0 == e,
        credentials is Ok ==> (written matches Err(e) ==> r is Err && r->Err_0 == e),
{
}

/// A profile is taken out of the configuration whether or not its secret could be deleted; another
/// one becomes active only where it could.
pub proof fn profiles_are_taken_out_with_their_secrets(
    store: &mut ConfigStore,
    name: &str,
    credentials: Result<CredentialsFile, CliError>,
    written: Result<(), CliError>,
    r: Result<CredentialsFile, CliError>,
)
    requires
        call_ensures(ConfigStore::remove_profile, (store, name, credentials, written), r),
    ensures
        r is Ok <==> credentials is Ok && written is Ok,
        final(store)@.profiles == old(store)@.profiles.remove(name@),
        final(store)@.api_version == old(store)@.api_version,
        r is Ok ==> r->Ok_0@ == credentials->Ok_0@.remove(name@),
        r is Ok ==> final(store)@.active_profile == old(store)@.without_profile(
            name@,
        ).active_profile,
        r is Err ==> final(store)@.active_profile == old(store)@.active_profile,
        credentials matches Err(e) ==> r is Err && r->Err_0 == e,
        credentials is Ok ==> (written matches Err(e) ==> r is Err && r->Err_0 == e),
{
}

/// A login that is saved shows the profile, and a logout names it, once the credentials were written.
pub proof fn logins_and_logouts_are_shown(
    store: &mut ConfigStore,
    new: NewProfile,
    profile_name: &str,
    credentials: Result<CredentialsFile, CliError>,
    written: Result<(), CliError>,
    r: Result<(CredentialsFile, Json), CliError>,
)
    ensures
        call_ensures(save_login, (store, new, credentials, written), r) ==> {
            &&& r is Ok <==> credentials is Ok && written is Ok
            &&& r is Ok ==> {
                &&& r->Ok_0.0@ == credentials->Ok_0@.insert(new.name@, new.secret)
                &&& r->Ok_0.1@ == login_value(new.name@, new.meta)
                &&& final(store)@ == old(store)@.with_profile(new.name@, new.meta)
            }
            &&& r is Err ==> final(store)@ == old(store)@
        },
        call_ensures(finish_logout, (store, profile_name, credentials, written), r) ==> {
            &&& r is Ok <==> credentials is Ok && written is Ok
            &&& r is Ok ==> {
                &&& r->Ok_0.0@ == credentials->Ok_0@.remove(profile_name@)
                &&& r->Ok_0.1@ == deleted_profile_value(profile_name@)
                &&& final(store)@ == old(store)@.without_profile(profile_name@)
            }
            &&& r is Err ==> final(store)@ == old(store)@.only_without(profile_name@)
        },
{
}

/// Switching to a profile needs it to be saved; the files stay where they are.
pub proof fn switching_needs_a_saved_profile(
    store: &mut ConfigStore,
    name: &str,
    r: Result<(), CliError>,
)
    requires
        call_ensures(ConfigStore::set_active_profile, (store, name), r),
    ensures
        r is Ok <==> old(store)@.profiles.dom().contains(name@),
        r is Ok ==> final(store)@.active_profile == Some(name@),
        final(store)@.profiles == old(store)@.profiles,
        final(store)@.api_version == old(store)@.api_version,
        final(store).paths_view() == old(store).paths_view(),
        r is Err ==> final(store)@ == old(store)@ && r->Err_0.message@ == "profile `"@ + name@
            + "` does not exist"@,
{
}

/// A command on profiles starts with the step that it stands for.
pub proof fn profile_commands_start_with_their_step(
    store: &mut ConfigStore,
    command: AuthCommand,
    profile: Option<String>,
    token: Option<String>,
    credentials: Result<CredentialsFile, CliError>,
    typed: Option<String>,
    r: AuthStep,
)
    ensures
        call_ensures(handle_auth, (store, command, profile, token, credentials), r) ==> {
            &&& r@ == auth_step(
                old(store)@,
                command,
                view_of(profile),
                view_of(token),
                match credentials {
                    Ok(file) => Ok(file@),
                    Err(e) => Err(e.message@),
                },
            )
            &&& final(store)@ == auth_config(old(store)@, command)
        },
        call_ensures(resume_login, (typed, profile), r) ==> r@ == prompted_step(
            view_of(typed),
            view_of(profile),
        ),
{
}

/// What is read out of a document is its title, and its owner's name and e-mail address.
pub proof fn documents_are_read(value: &Json)
    ensures
        forall|r: String| call_ensures(extract_title, (value,), r) ==> r@ == title_of(value@),
        forall|r: Option<String>|
            call_ensures(rich_text_to_plain_text, (value,), r) ==> view_of(r) == plain_text(value@),
        forall|r: Option<String>|
            call_ensures(owner_name_from_user_me, (value,), r) ==> view_of(r) == owner_name(value@),
        forall|r: Option<String>|
            call_ensures(owner_email_from_user_me, (value,), r) ==> view_of(r) == owner_email(
                value@,
            ),
{
}

/// The session of a command is the one that its settings lead to, and so is the name of a new
/// profile.
pub proof fn settings_lead_to_sessions(
    store: &ConfigStore,
    named: Option<&str>,
    token: Option<String>,
    other: Option<String>,
    credentials: Result<CredentialsFile, CliError>,
    meta: &ProfileMeta,
    raw: &str,
)
    ensures
        forall|r: Result<RuntimeSession, CliError>|
            call_ensures(ConfigStore::resolve_session, (store, named, token, credentials), r) ==> ({
                let told = match r {
                    Ok(session) => Ok(session@),
                    Err(e) => Err(e.message@),
                };
                told == resolved(
                    store@,
                    match named {
                        Some(name) => Some(name@),
                        None => None,
                    },
                    view_of(token),
                    match credentials {
                        Ok(file) => Ok(file@),
                        Err(e) => Err(e.message@),
                    },
                )
            }),
        forall|r: Option<String>|
            call_ensures(runtime_token_override, (token, other), r) ==> view_of(r)
                == token_override(view_of(token), view_of(other)),
        forall|r: String|
            call_ensures(derive_profile_name, (meta,), r) ==> r@ == derived_name(*meta),
        forall|r: String| call_ensures(slugify_profile_name, (raw,), r) ==> r@ == slug(raw@),
        forall|r: String|
            call_ensures(ConfigStore::api_version, (store, other), r) ==> r@ == not_blank_or(
                view_of(other),
                store@.api_version,
            ),
        forall|r: String|
            call_ensures(ConfigStore::api_base_url, (store, other), r) ==> r@ == not_blank_or(
                view_of(other),
                "https://api.notion.com"@,
            ),
{
}

/// What is shown of profiles is made of what is saved of them and of what the bot tells.
pub proof fn profiles_are_shown_as_saved(
    store: &ConfigStore,
    session: &RuntimeSession,
    live: Json,
    active_profile: &Option<String>,
    stored: bool,
    source: Option<SessionSource>,
    reply: Result<Json, CliError>,
    name: &str,
    meta: &ProfileMeta,
)
    ensures
        forall|r: Json| call_ensures(list_profiles, (store,), r) ==> r@ == profiles_value(store@),
        forall|r: Json|
            call_ensures(whoami_document, (store, session, live), r) ==> r@ == whoami_value(
                store@,
                session@,
                live@,
            ),
        forall|r: Json|
            call_ensures(doctor_document, (active_profile, stored, source, reply), r) ==> r@
                == doctor_value(view_of(*active_profile), stored, source, document_outcome(reply)),
        forall|r: Json|
            call_ensures(emit_auth_login_result, (name, meta), r) ==> r@ == login_value(
                name@,
                *meta,
            ),
        forall|r: Json|
            call_ensures(deleted_profile_document, (name,), r) ==> r@ == deleted_profile_value(
                name@,
            ),
        forall|r: Json|
            call_ensures(profile_document, (meta,), r) ==> r@ == profile_value(*meta),
{
}

/// What a command takes in is what its flags lead to.
pub proof fn flags_lead_to_inputs(
    args: &JsonInputArgs,
    read: Result<String, CliError>,
    from_file: bool,
    stdin: bool,
    typed: Option<String>,
    file: &str,
    size: Option<u64>,
)
    ensures
        forall|r: Result<Json, CliError>|
            call_ensures(read_required_json_input, (args, read), r) ==> document_outcome(r)
                == body_from(*args, text_outcome(read)),
        forall|r: Result<String, CliError>|
            call_ensures(read_required_markdown, (from_file, stdin, read), r) ==> text_outcome(r)
                == match markdown_from(from_file, stdin, text_outcome(read)) {
                Ok(Some(text)) => Ok::<Seq<char>, Seq<char>>(text),
                Ok(None) => Err("provide markdown with --from-file or --stdin"@),
                Err(message) => Err(message),
            },
        forall|r: Result<String, CliError>|
            call_ensures(prompt_for_internal_token, (typed,), r) ==> text_outcome(r) == typed_token(
                view_of(typed),
            ),
        forall|r: Result<(), CliError>|
            call_ensures(check_upload_size, (file, size), r) ==> (r is Ok <==> size is Some
                && size->0 <= 20_971_520),
{
}

/// How results and failures are put into words is decided by the arguments and by the response.
pub proof fn words_are_chosen(
    args: &Vec<String>,
    name: &str,
    verbose: u8,
    status: u16,
    code: Option<&str>,
    message: &str,
    retry_after: Option<&str>,
    attempt: usize,
    error: &CliError,
)
    ensures
        forall|r: OutputFormat|
            call_ensures(requested_output_format_from_argv, (args,), r) ==> r == requested_format(
                texts(args@),
                1,
            ),
        forall|r: Option<OutputFormat>|
            call_ensures(parse_output_format, (name,), r) ==> r == format_named(name@),
        forall|r: &'static str| call_ensures(log_filter, (verbose,), r) ==> r@ == log_level(verbose),
        forall|r: String|
            call_ensures(friendly_error, (status, code, message), r) ==> r@ == friendly(
                status,
                match code {
                    Some(text) => Some(text@),
                    None => None,
                },
                message@,
            ),
        forall|r: u64|
            call_ensures(retry_delay, (retry_after, attempt), r) ==> r == pause(
                match retry_after {
                    Some(text) => Some(text@),
                    None => None,
                },
                attempt as nat,
            ),
        forall|r: bool|
            call_ensures(is_uninformative, (error,), r) ==> r == says_nothing(error.message@),
{
}

/// The configuration is kept in the directory that is chosen, under the names of its two files.
pub proof fn configurations_are_kept_in_one_place(
    named: Option<PathBuf>,
    legacy_named: Option<PathBuf>,
    current: Option<LocalDir>,
    legacy: Option<LocalDir>,
    r: Result<AppPaths, CliError>,
)
    requires
        call_ensures(AppPaths::discover, (named, legacy_named, current, legacy), r),
    ensures
        match discovered(named, legacy_named, current, legacy) {
            Some(base) => {
                &&& r is Ok
                &&& r->Ok_0.config_dir == base
                &&& parts(r->Ok_0.config_file) == parts(base).push("config.toml"@)
                &&& parts(r->Ok_0.credentials_file) == parts(base).push("credentials.toml"@)
            },
            None => r is Err && r->Err_0.message@
                == "could not determine a platform config directory"@,
        },
{
}

} // verus!
