//! Logging in and out, and looking at the saved profiles.
use vstd::prelude::*;

use crate::client::{documents_view, object_of, object_of_two};
use crate::config::{
    credentials_view, derive_profile_name, derived_name, resolved, session_wants_credentials,
    unknown_profile_message, AuthType, ConfigStore, ConfigView, CredentialsFile, ProfileMeta, RuntimeSession,
    SessionSource, SessionView, StoredSecret,
};
use crate::errors::CliError;
use crate::inputs::{prompt_for_internal_token, typed_token};
use crate::json::{Json, JsonObject, JsonView};
use crate::names::{listing, only_one_listing};
use crate::objects::{
    bot_id_from_user_me, object_kind, owner_email, owner_email_from_user_me, owner_name,
    owner_name_from_user_me,
};
use crate::text::{borrowed, owned, same, trim, trimmed, view_of, view_of_str};
use crate::transport::document_outcome;

verus! {

/// What is done with profiles.
#[derive(Debug)]
pub enum AuthCommand {
    Login { profile_name: Option<String>, token: Option<String> },
    List,
    Doctor,
    Use { profile_name: String },
    Whoami,
    Logout { profile_name: Option<String> },
}

/// What is done with the answer to the question who the bot is.
#[derive(Debug)]
pub enum AfterSelf {
    /// It is shown, beside the profile of the session.
    Whoami { session: RuntimeSession },
    /// It goes into a report.
    Doctor { active_profile: Option<String>, stored_credentials: bool, source: SessionSource },
}

/// What is done with the answer to the question who the bot is.
pub enum AfterSelfView {
    Whoami { session: SessionView },
    Doctor { active_profile: Option<Seq<char>>, stored_credentials: bool, source: SessionSource },
}

impl View for AfterSelf {
    type V = AfterSelfView;

    open spec fn view(&self) -> AfterSelfView {
        match self {
            AfterSelf::Whoami { session } => AfterSelfView::Whoami { session: session@ },
            AfterSelf::Doctor { active_profile, stored_credentials, source } =>
                AfterSelfView::Doctor {
                active_profile: view_of(*active_profile),
                stored_credentials: *stored_credentials,
                source: *source,
            },
        }
    }
}

/// What a command on profiles does next.
#[derive(Debug)]
pub enum AuthStep {
    /// The user is asked for a token.
    Prompt { profile_name: Option<String> },
    /// The bot that the token belongs to is asked for, with the token and once.
    CheckToken { token: String, profile_name: Option<String> },
    /// The bot of the session is asked for.
    AskSelf { session: RuntimeSession, then: AfterSelf },
    /// The profile is taken out of the configuration, and its secret out of the credentials.
    Remove { profile_name: String },
    /// The configuration is saved, and the document is given back.
    Save { document: Json },
    /// There is nothing left to do.
    Done(Result<Json, CliError>),
}

/// What a command on profiles does next.
pub enum AuthStepView {
    Prompt { profile_name: Option<Seq<char>> },
    CheckToken { token: Seq<char>, profile_name: Option<Seq<char>> },
    AskSelf { session: SessionView, then: AfterSelfView },
    Remove { profile_name: Seq<char> },
    Save { document: JsonView },
    Done(Result<JsonView, Seq<char>>),
}

impl View for AuthStep {
    type V = AuthStepView;

    open spec fn view(&self) -> AuthStepView {
        match self {
            AuthStep::Prompt { profile_name } => AuthStepView::Prompt {
                profile_name: view_of(*profile_name),
            },
            AuthStep::CheckToken { token, profile_name } => AuthStepView::CheckToken {
                token: token@,
                profile_name: view_of(*profile_name),
            },
            AuthStep::AskSelf { session, then } => AuthStepView::AskSelf {
                session: session@,
                then: then@,
            },
            AuthStep::Remove { profile_name } => AuthStepView::Remove {
                profile_name: profile_name@,
            },
            AuthStep::Save { document } => AuthStepView::Save { document: document@ },
            AuthStep::Done(r) => AuthStepView::Done(document_outcome(*r)),
        }
    }
}

/// A JSON string, or null where there is no text.
pub open spec fn text_or_null(text: Option<Seq<char>>) -> JsonView {
    match text {
        Some(t) => JsonView::Text(t),
        None => JsonView::Null,
    }
}

/// A JSON string, or null where there is no text.
fn optional_string(text: Option<&str>) -> (r: Json)
    ensures
        r@ == text_or_null(view_of_str(text)),
{
    match text {
        Some(t) => Json::string(t),
        None => Json::null(),
    }
}

/// How what is known of a profile is shown.
pub open spec fn profile_value(meta: ProfileMeta) -> JsonView {
    JsonView::Object(
        map![
            "auth_type"@ => JsonView::Text("internal"@),
            "workspace_id"@ => text_or_null(view_of(meta.workspace_id)),
            "workspace_name"@ => text_or_null(view_of(meta.workspace_name)),
            "bot_id"@ => text_or_null(view_of(meta.bot_id)),
            "owner_name"@ => text_or_null(view_of(meta.owner_name)),
            "owner_email"@ => text_or_null(view_of(meta.owner_email)),
        ],
    )
}

/// How what is known of a profile is shown.
pub fn profile_document(meta: &ProfileMeta) -> (r: Json)
    ensures
        r@ == profile_value(*meta),
{
    let mut object = JsonObject::new();
    object.insert("auth_type", Json::string(meta.auth_type.as_str()));
    object.insert("workspace_id", optional_string(borrowed(&meta.workspace_id)));
    object.insert("workspace_name", optional_string(borrowed(&meta.workspace_name)));
    object.insert("bot_id", optional_string(borrowed(&meta.bot_id)));
    object.insert("owner_name", optional_string(borrowed(&meta.owner_name)));
    object.insert("owner_email", optional_string(borrowed(&meta.owner_email)));
    object.document()
}

/// How a saved profile is listed.
pub open spec fn entry_value(config: ConfigView, name: Seq<char>) -> JsonView {
    JsonView::Object(
        map![
            "name"@ => JsonView::Text(name),
            "active"@ => JsonView::Bool(config.active_profile == Some(name)),
            "profile"@ => profile_value(config.profiles[name]),
        ],
    )
}

/// How the saved profiles are listed: by name.
pub open spec fn profiles_value(config: ConfigView) -> JsonView {
    JsonView::Object(
        map![
            "profiles"@ => JsonView::Array(
                listing(config.profiles.dom()).map_values(
                    |name: Seq<char>| entry_value(config, name),
                ),
            ),
        ],
    )
}

/// Lists the saved profiles.
pub fn list_profiles(store: &ConfigStore) -> (r: Json)
    ensures
        r@ == profiles_value(store@),
{
    let profiles = store.profiles();
    let count = profiles.len();
    let ghost names = profiles.keys();
    proof {
        only_one_listing(names, store@.profiles.dom());
    }
    let mut entries: Vec<Json> = Vec::new();
    let mut i: usize = 0;
    while i < count
        invariant
            i <= count,
            count == names.len(),
            names == profiles.keys(),
            profiles@ == store@.profiles,
            entries@.len() == i,
            forall|k: int|
                0 <= k < i ==> (#[trigger] entries@[k])@ == entry_value(store@, names[k]),
        decreases count - i,
    {
        let name = profiles.key_at(i);
        let active = match store.active_profile() {
            Some(current) => same(current, name.as_str()),
            None => false,
        };
        let mut entry = JsonObject::new();
        entry.insert("name", Json::string(name.as_str()));
        entry.insert("active", Json::boolean(active));
        entry.insert("profile", profile_document(profiles.value_at(i)));
        entries.push(entry.document());
        i = i + 1;
    }
    assert(documents_view(entries@) =~= names.map_values(
        |name: Seq<char>| entry_value(store@, name),
    ));
    object_of("profiles", Json::array(entries))
}

/// The profile that a command on profiles is about, where the command names none: the one that is
/// named for all commands, or else the active one.
pub open spec fn current_profile(config: ConfigView, profile: Option<Seq<char>>) -> Option<
    Seq<char>,
> {
    match profile {
        Some(name) => Some(name),
        None => config.active_profile,
    }
}

/// The profile that a command on profiles is about.
fn profile_in_use(store: &ConfigStore, profile: Option<String>) -> (r: Option<String>)
    ensures
        view_of(r) == current_profile(store@, view_of(profile)),
{
    match profile {
        Some(name) => Some(name),
        None => owned(store.active_profile()),
    }
}

/// What the user is told where there is no profile to log out of.
pub const NO_PROFILE_TO_REMOVE: &'static str = "no profile specified and there is no active profile";

/// The way to log in, for the report on the saved credentials.
pub const LOGIN_FLOW: &'static str =
    "run `notioncli auth login` to save a token locally, or set `NOTION_TOKEN` for one-shot use";

/// The name of the place that a token comes from.
pub open spec fn source_name(source: SessionSource) -> Seq<char> {
    match source {
        SessionSource::PersistedProfile => "credentials_file"@,
        SessionSource::Environment => "environment"@,
    }
}

/// The report on the saved credentials. `source` is the place that the token comes from, where
/// there is one, and `live` what asking for the bot gave.
pub open spec fn doctor_value(
    active_profile: Option<Seq<char>>,
    stored_credentials: bool,
    source: Option<SessionSource>,
    live: Result<JsonView, Seq<char>>,
) -> JsonView {
    let token_source = match source {
        Some(s) => JsonView::Text(source_name(s)),
        None => JsonView::Null,
    };
    JsonView::Object(
        map![
            "active_profile"@ => text_or_null(active_profile),
            "stored_credentials"@ => JsonView::Bool(stored_credentials),
            "auth_ok"@ => JsonView::Bool(live is Ok),
            "auth_error"@ => match live {
                Ok(_) => JsonView::Null,
                Err(message) => JsonView::Text(message),
            },
            "live_user"@ => match live {
                Ok(user) => user,
                Err(_) => JsonView::Null,
            },
            "token_source"@ => token_source,
            "token_persistence"@ => token_source,
            "login_flow"@ => JsonView::Text(LOGIN_FLOW@),
        ],
    )
}

/// The report on the saved credentials.
pub fn doctor_document(
    active_profile: &Option<String>,
    stored_credentials: bool,
    source: Option<SessionSource>,
    live: Result<Json, CliError>,
) -> (r: Json)
    ensures
        r@ == doctor_value(
            view_of(*active_profile),
            stored_credentials,
            source,
            document_outcome(live),
        ),
{
    let source_text = match source {
        Some(s) => Some(s.as_str()),
        None => None,
    };
    let (auth_ok, auth_error, live_user) = match live {
        Ok(user) => (true, Json::null(), user),
        Err(e) => (false, Json::string(e.message.as_str()), Json::null()),
    };
    let mut object = JsonObject::new();
    object.insert("active_profile", optional_string(borrowed(active_profile)));
    object.insert("stored_credentials", Json::boolean(stored_credentials));
    object.insert("auth_ok", Json::boolean(auth_ok));
    object.insert("auth_error", auth_error);
    object.insert("live_user", live_user);
    object.insert("token_source", optional_string(source_text));
    object.insert("token_persistence", optional_string(source_text));
    object.insert("login_flow", Json::string(LOGIN_FLOW));
    object.document()
}

/// A secret is saved for the profile.
pub open spec fn is_stored(
    credentials: Result<Map<Seq<char>, StoredSecret>, Seq<char>>,
    profile: Option<Seq<char>>,
) -> bool {
    profile matches Some(name) && credentials matches Ok(secrets) && secrets.dom().contains(name)
}

/// What checking the saved credentials does first.
pub open spec fn doctor_step(
    config: ConfigView,
    profile: Option<Seq<char>>,
    token: Option<Seq<char>>,
    credentials: Result<Map<Seq<char>, StoredSecret>, Seq<char>>,
) -> AuthStepView {
    let active_profile = current_profile(config, profile);
    let stored_credentials = is_stored(credentials, active_profile);
    match resolved(config, active_profile, token, credentials) {
        Ok(session) => AuthStepView::AskSelf {
            session,
            then: AfterSelfView::Doctor {
                active_profile,
                stored_credentials,
                source: session.source,
            },
        },
        Err(message) => AuthStepView::Done(
            Ok(doctor_value(active_profile, stored_credentials, None, Err(message))),
        ),
    }
}

/// Checks the saved credentials. `token` is the token in the environment, `credentials` what reading
/// the credentials file gave.
pub fn auth_doctor(
    store: &ConfigStore,
    profile: Option<String>,
    token: Option<String>,
    credentials: Result<CredentialsFile, CliError>,
) -> (r: AuthStep)
    ensures
        r@ == doctor_step(
            store@,
            view_of(profile),
            view_of(token),
            credentials_view(credentials),
        ),
{
    let active_profile = profile_in_use(store, profile);
    let stored_credentials = match &active_profile {
        Some(name) => store.has_persisted_secret(name.as_str(), &credentials),
        None => false,
    };
    match store.resolve_session(borrowed(&active_profile), token, credentials) {
        Ok(session) => {
            let source = session.source;
            AuthStep::AskSelf {
                session,
                then: AfterSelf::Doctor { active_profile, stored_credentials, source },
            }
        },
        Err(e) => AuthStep::Done(
            Ok(doctor_document(&active_profile, stored_credentials, None, Err(e))),
        ),
    }
}

/// How the bot of a session is shown.
pub open spec fn whoami_value(config: ConfigView, session: SessionView, live: JsonView) -> JsonView {
    JsonView::Object(
        map![
            "profile"@ => JsonView::Text(
                match session.profile_name {
                    Some(name) => name,
                    None => "unknown-profile"@,
                },
            ),
            "stored_profile"@ => match session.profile_name {
                Some(name) => if config.profiles.dom().contains(name) {
                    profile_value(config.profiles[name])
                } else {
                    JsonView::Null
                },
                None => JsonView::Null,
            },
            "live_user"@ => live,
            "live_object"@ => JsonView::Text(
                match live.text_field("object"@) {
                    Some(kind) => kind,
                    None => "unknown"@,
                },
            ),
        ],
    )
}

/// How the bot of a session is shown.
pub fn whoami_document(store: &ConfigStore, session: &RuntimeSession, live: Json) -> (r: Json)
    ensures
        r@ == whoami_value(store@, session@, live@),
{
    let stored_profile = match &session.profile_name {
        Some(name) => match store.get_profile(name.as_str()) {
            Some(meta) => profile_document(meta),
            None => Json::null(),
        },
        None => Json::null(),
    };
    let live_object = Json::string(object_kind(&live));
    let mut object = JsonObject::new();
    object.insert("profile", Json::string(session.display_name()));
    object.insert("stored_profile", stored_profile);
    object.insert("live_user", live);
    object.insert("live_object", live_object);
    object.document()
}

impl AfterSelfView {
    /// What is given back once the answer, or a failure, came.
    pub open spec fn answered(
        self,
        config: ConfigView,
        reply: Result<JsonView, Seq<char>>,
    ) -> Result<JsonView, Seq<char>> {
        match self {
            AfterSelfView::Whoami { session } => match reply {
                Ok(live) => Ok(whoami_value(config, session, live)),
                Err(message) => Err(message),
            },
            AfterSelfView::Doctor { active_profile, stored_credentials, source } => Ok(
                doctor_value(active_profile, stored_credentials, Some(source), reply),
            ),
        }
    }
}

impl AfterSelf {
    /// Takes in the answer, or a failure.
    pub fn resume(self, store: &ConfigStore, reply: Result<Json, CliError>) -> (r: Result<
        Json,
        CliError,
    >)
        ensures
            document_outcome(r) == self@.answered(store@, document_outcome(reply)),
    {
        match self {
            AfterSelf::Whoami { session } => match reply {
                Ok(live) => Ok(whoami_document(store, &session, live)),
                Err(e) => Err(e),
            },
            AfterSelf::Doctor { active_profile, stored_credentials, source } => Ok(
                doctor_document(&active_profile, stored_credentials, Some(source), reply),
            ),
        }
    }
}

/// The document that names the profile which became active.
pub open spec fn active_profile_value(name: Seq<char>) -> JsonView {
    JsonView::Object(map!["active_profile"@ => JsonView::Text(name)])
}

/// The document that names the profile which was taken out.
pub open spec fn deleted_profile_value(name: Seq<char>) -> JsonView {
    JsonView::Object(map!["deleted_profile"@ => JsonView::Text(name)])
}

/// The document that names the profile which was taken out.
pub fn deleted_profile_document(name: &str) -> (r: Json)
    ensures
        r@ == deleted_profile_value(name@),
{
    object_of("deleted_profile", Json::string(name))
}

/// A token is given on the command line.
pub open spec fn token_given(token: Option<Seq<char>>) -> bool {
    token matches Some(text) && trimmed(text).len() > 0
}

/// What a command on profiles does first. `profile` is the profile that is named for all commands,
/// `token` the token in the environment, `credentials` what reading the credentials file gave.
pub open spec fn auth_step(
    config: ConfigView,
    command: AuthCommand,
    profile: Option<Seq<char>>,
    token: Option<Seq<char>>,
    credentials: Result<Map<Seq<char>, StoredSecret>, Seq<char>>,
) -> AuthStepView {
    match command {
        AuthCommand::Login { profile_name, token: given } => if token_given(view_of(given)) {
            AuthStepView::CheckToken {
                token: given->0@,
                profile_name: view_of(profile_name),
            }
        } else {
            AuthStepView::Prompt { profile_name: view_of(profile_name) }
        },
        AuthCommand::List => AuthStepView::Done(Ok(profiles_value(config))),
        AuthCommand::Doctor => doctor_step(config, profile, token, credentials),
        AuthCommand::Use { profile_name } => if config.profiles.dom().contains(profile_name@) {
            AuthStepView::Save { document: active_profile_value(profile_name@) }
        } else {
            AuthStepView::Done(Err(unknown_profile_message(profile_name@)))
        },
        AuthCommand::Whoami => match resolved(config, profile, token, credentials) {
            Ok(session) => AuthStepView::AskSelf {
                session,
                then: AfterSelfView::Whoami { session },
            },
            Err(message) => AuthStepView::Done(Err(message)),
        },
        AuthCommand::Logout { profile_name } => match (
            profile_name,
            current_profile(config, profile),
        ) {
            (Some(name), _) => AuthStepView::Remove { profile_name: name@ },
            (None, Some(name)) => AuthStepView::Remove { profile_name: name },
            (None, None) => AuthStepView::Done(Err(NO_PROFILE_TO_REMOVE@)),
        },
    }
}

/// The credentials file has to be read before a command on profiles can start.
pub open spec fn auth_wants_credentials(
    config: ConfigView,
    command: AuthCommand,
    profile: Option<Seq<char>>,
    has_token: bool,
) -> bool {
    match command {
        AuthCommand::Doctor => current_profile(config, profile) is Some,
        AuthCommand::Whoami => session_wants_credentials(config, profile, has_token),
        _ => false,
    }
}

/// Whether the credentials file has to be read before a command on profiles can start. `has_token`
/// says that there is a token in the environment.
pub fn command_wants_credentials(
    store: &ConfigStore,
    command: &AuthCommand,
    profile: &Option<String>,
    has_token: bool,
) -> (r: bool)
    ensures
        r == auth_wants_credentials(store@, *command, view_of(*profile), has_token),
{
    match command {
        AuthCommand::Doctor => profile.is_some() || store.active_profile().is_some(),
        AuthCommand::Whoami => store.wants_credentials(borrowed(profile), has_token),
        _ => false,
    }
}

/// The configuration after the first step of a command on profiles.
pub open spec fn auth_config(config: ConfigView, command: AuthCommand) -> ConfigView {
    match command {
        AuthCommand::Use { profile_name } => if config.profiles.dom().contains(profile_name@) {
            config.with_active(profile_name@)
        } else {
            config
        },
        _ => config,
    }
}

/// Starts a command on profiles. `profile` is the profile that is named for all commands, `token`
/// the token in the environment, `credentials` what reading the credentials file gave.
pub fn handle_auth(
    store: &mut ConfigStore,
    command: AuthCommand,
    profile: Option<String>,
    token: Option<String>,
    credentials: Result<CredentialsFile, CliError>,
) -> (r: AuthStep)
    ensures
        r@ == auth_step(
            old(store)@,
            command,
            view_of(profile),
            view_of(token),
            credentials_view(credentials),
        ),
        final(store)@ == auth_config(old(store)@, command),
        final(store).paths_view() == old(store).paths_view(),
{
    match command {
        AuthCommand::Login { profile_name, token: given } => match given {
            Some(token) => {
                if trim(token.as_str()).as_str().is_empty() {
                    AuthStep::Prompt { profile_name }
                } else {
                    AuthStep::CheckToken { token, profile_name }
                }
            },
            None => AuthStep::Prompt { profile_name },
        },
        AuthCommand::List => AuthStep::Done(Ok(list_profiles(store))),
        AuthCommand::Doctor => auth_doctor(store, profile, token, credentials),
        AuthCommand::Use { profile_name } => match store.set_active_profile(
            profile_name.as_str(),
        ) {
            Ok(()) => AuthStep::Save {
                document: object_of("active_profile", Json::string(profile_name.as_str())),
            },
            Err(e) => AuthStep::Done(Err(e)),
        },
        AuthCommand::Whoami => match store.resolve_session(
            borrowed(&profile),
            token,
            credentials,
        ) {
            Ok(session) => {
                let shown = session.clone();
                AuthStep::AskSelf { session, then: AfterSelf::Whoami { session: shown } }
            },
            Err(e) => AuthStep::Done(Err(e)),
        },
        AuthCommand::Logout { profile_name } => {
            let chosen = match profile_name {
                Some(name) => Some(name),
                None => profile_in_use(store, profile),
            };
            match chosen {
                Some(profile_name) => AuthStep::Remove { profile_name },
                None => AuthStep::Done(Err(CliError::new(NO_PROFILE_TO_REMOVE))),
            }
        },
    }
}

/// What follows the prompt for a token.
pub open spec fn prompted_step(
    typed: Option<Seq<char>>,
    profile_name: Option<Seq<char>>,
) -> AuthStepView {
    match typed_token(typed) {
        Ok(token) => AuthStepView::CheckToken { token, profile_name },
        Err(message) => AuthStepView::Done(Err(message)),
    }
}

/// Goes on with what the user typed, where it could be read.
pub fn resume_login(typed: Option<String>, profile_name: Option<String>) -> (r: AuthStep)
    ensures
        r@ == prompted_step(view_of(typed), view_of(profile_name)),
{
    match prompt_for_internal_token(typed) {
        Ok(token) => AuthStep::CheckToken { token, profile_name },
        Err(e) => AuthStep::Done(Err(e)),
    }
}

/// `meta` is what the bot's own user object tells of its profile.
pub open spec fn tells(me: JsonView, meta: ProfileMeta) -> bool {
    &&& meta.auth_type == AuthType::Internal
    &&& meta.workspace_id is None
    &&& meta.workspace_name is None
    &&& view_of(meta.bot_id) == me.text_field("id"@)
    &&& view_of(meta.owner_name) == owner_name(me)
    &&& view_of(meta.owner_email) == owner_email(me)
}

/// A profile that is about to be saved.
#[derive(Debug)]
pub struct NewProfile {
    pub name: String,
    pub meta: ProfileMeta,
    pub secret: StoredSecret,
}

/// The profile for a token, where `reply` is what asking for its bot gave. It has the name that the
/// user chose, or else one that is derived from what is known of it.
pub fn login_internal(
    token: String,
    profile_name: Option<String>,
    reply: Result<Json, CliError>,
) -> (r: Result<NewProfile, CliError>)
    ensures
        match reply {
            Ok(me) => r matches Ok(profile) && {
                &&& tells(me@, profile.meta)
                &&& profile.secret@ == token@
                &&& profile.name@ == match profile_name {
                    Some(name) => name@,
                    None => derived_name(profile.meta),
                }
            },
            Err(e) => r matches Err(failure) && failure@ == e@,
        },
{
    let me = match reply {
        Ok(me) => me,
        Err(e) => {
            return Err(e);
        },
    };
    let meta = ProfileMeta {
        auth_type: AuthType::Internal,
        workspace_id: None,
        workspace_name: None,
        bot_id: bot_id_from_user_me(&me),
        owner_name: owner_name_from_user_me(&me),
        owner_email: owner_email_from_user_me(&me),
    };
    let name = match profile_name {
        Some(name) => name,
        None => derive_profile_name(&meta),
    };
    Ok(NewProfile { name, meta, secret: StoredSecret::Internal { token } })
}

/// The document that shows a profile which was saved.
pub open spec fn login_value(profile_name: Seq<char>, meta: ProfileMeta) -> JsonView {
    JsonView::Object(
        map![
            "profile_name"@ => JsonView::Text(profile_name),
            "profile"@ => profile_value(meta),
        ],
    )
}

/// The document that shows a profile which was saved.
pub fn emit_auth_login_result(profile_name: &str, meta: &ProfileMeta) -> (r: Json)
    ensures
        r@ == login_value(profile_name@, *meta),
{
    object_of_two(
        "profile_name",
        Json::string(profile_name),
        "profile",
        profile_document(meta),
    )
}

/// Saves the profile that a login made. `credentials` is what reading the credentials file gave,
/// `written` what writing it with the secret gave. The result is what was written, and the document
/// that shows the profile. Where the credentials could not be read or written nothing is saved.
pub fn save_login(
    store: &mut ConfigStore,
    new: NewProfile,
    credentials: Result<CredentialsFile, CliError>,
    written: Result<(), CliError>,
) -> (r: Result<(CredentialsFile, Json), CliError>)
    ensures
        final(store).paths_view() == old(store).paths_view(),
        match (credentials, written) {
            (Ok(file), Ok(())) => {
                &&& r matches Ok((stored, document)) && stored@ == file@.insert(
                    new.name@,
                    new.secret,
                ) && document@ == login_value(new.name@, new.meta)
                &&& final(store)@ == old(store)@.with_profile(new.name@, new.meta)
            },
            (Ok(_), Err(e)) => r == Err::<(CredentialsFile, Json), CliError>(e) && *final(store)
                == *old(store),
            (Err(e), _) => r == Err::<(CredentialsFile, Json), CliError>(e) && *final(store)
                == *old(store),
        },
{
    let document = emit_auth_login_result(new.name.as_str(), &new.meta);
    match store.put_profile(new.name, new.meta, &new.secret, credentials, written) {
        Ok(stored) => Ok((stored, document)),
        Err(e) => Err(e),
    }
}

/// Takes out the profile that is logged out of. `credentials` is what reading the credentials file
/// gave, `written` what writing it without the secret gave. The result is what was written, and the
/// document that names the profile. Where the credentials could not be read or written the profile
/// is still taken out, but no other one becomes active.
pub fn finish_logout(
    store: &mut ConfigStore,
    profile_name: &str,
    credentials: Result<CredentialsFile, CliError>,
    written: Result<(), CliError>,
) -> (r: Result<(CredentialsFile, Json), CliError>)
    ensures
        final(store).paths_view() == old(store).paths_view(),
        match (credentials, written) {
            (Ok(file), Ok(())) => {
                &&& r matches Ok((stored, document)) && stored@ == file@.remove(profile_name@)
                    && document@ == deleted_profile_value(profile_name@)
                &&& final(store)@ == old(store)@.without_profile(profile_name@)
            },
            (Ok(_), Err(e)) => r == Err::<(CredentialsFile, Json), CliError>(e) && final(store)@
                == old(store)@.only_without(profile_name@),
            (Err(e), _) => r == Err::<(CredentialsFile, Json), CliError>(e) && final(store)@
                == old(store)@.only_without(profile_name@),
        },
{
    match store.remove_profile(profile_name, credentials, written) {
        Ok(stored) => Ok((stored, deleted_profile_document(profile_name))),
        Err(e) => Err(e),
    }
}

impl AuthStep {
    /// Goes on once a profile and its secret were saved or taken out, or could not be: the
    /// configuration is saved next.
    pub fn after_storing(stored: Result<(CredentialsFile, Json), CliError>) -> (r: AuthStep)
        ensures
            r@ == match stored {
                Ok((_, document)) => AuthStepView::Save { document: document@ },
                Err(e) => AuthStepView::Done(Err(e@)),
            },
    {
        match stored {
            Ok((_, document)) => AuthStep::Save { document },
            Err(e) => AuthStep::Done(Err(e)),
        }
    }

    /// Goes on once the configuration was saved, or could not be: the document is given back.
    pub fn after_saving(document: Json, saved: Result<(), CliError>) -> (r: AuthStep)
        ensures
            r@ == match saved {
                Ok(()) => AuthStepView::Done(Ok(document@)),
                Err(e) => AuthStepView::Done(Err(e@)),
            },
    {
        match saved {
            Ok(()) => AuthStep::Done(Ok(document)),
            Err(e) => AuthStep::Done(Err(e)),
        }
    }
}

/// Credentials that do not have to be read make no difference to a command on profiles.
pub proof fn unwanted_credentials_change_no_command(
    config: ConfigView,
    command: AuthCommand,
    profile: Option<Seq<char>>,
    token: Option<Seq<char>>,
    one: Result<Map<Seq<char>, StoredSecret>, Seq<char>>,
    other: Result<Map<Seq<char>, StoredSecret>, Seq<char>>,
)
    requires
        !auth_wants_credentials(config, command, profile, token is Some),
    ensures
        auth_step(config, command, profile, token, one) == auth_step(
            config,
            command,
            profile,
            token,
            other,
        ),
{
}

/// Logging in and asking who the bot is: the bot is asked for with the token that was saved.
pub proof fn logins_are_used(
    config: ConfigView,
    secrets: Map<Seq<char>, StoredSecret>,
    name: Seq<char>,
    meta: ProfileMeta,
    secret: StoredSecret,
)
    ensures
        auth_step(
            config.with_profile(name, meta),
            AuthCommand::Whoami,
            None,
            None,
            Ok(secrets.insert(name, secret)),
        ) matches AuthStepView::AskSelf { session, .. } && session.token == secret@
            && session.profile_name == Some(name),
{
}

/// A profile that is switched to is the active one, and every profile stays saved.
pub proof fn switching_keeps_the_profiles(config: ConfigView, profile_name: String)
    ensures
        auth_config(config, AuthCommand::Use { profile_name }).profiles == config.profiles,
        config.profiles.dom().contains(profile_name@) ==> auth_config(
            config,
            AuthCommand::Use { profile_name },
        ).active_profile == Some(profile_name@),
{
}

/// A command that fails at its first step changes nothing.
pub proof fn failures_change_nothing(
    config: ConfigView,
    command: AuthCommand,
    profile: Option<Seq<char>>,
    token: Option<Seq<char>>,
    credentials: Result<Map<Seq<char>, StoredSecret>, Seq<char>>,
)
    requires
        auth_step(config, command, profile, token, credentials) matches AuthStepView::Done(Err(_)),
    ensures
        auth_config(config, command) == config,
{
}

/// Checking the saved credentials never fails: what is wrong with them goes into the report.
pub proof fn the_report_never_fails(
    config: ConfigView,
    profile: Option<Seq<char>>,
    token: Option<Seq<char>>,
    credentials: Result<Map<Seq<char>, StoredSecret>, Seq<char>>,
    reply: Result<JsonView, Seq<char>>,
)
    ensures
        match doctor_step(config, profile, token, credentials) {
            AuthStepView::Done(r) => r is Ok,
            AuthStepView::AskSelf { then, .. } => then.answered(config, reply) is Ok,
            _ => false,
        },
{
}

/// A token in the environment is what the bot is asked for with, whatever is saved.
pub proof fn the_environment_decides_who_the_bot_is(
    config: ConfigView,
    profile: Option<Seq<char>>,
    token: Seq<char>,
    credentials: Result<Map<Seq<char>, StoredSecret>, Seq<char>>,
)
    ensures
        auth_step(
            config,
            AuthCommand::Whoami,
            profile,
            Some(token),
            credentials,
        ) matches AuthStepView::AskSelf { session, .. } && session.token == token
            && session.source == SessionSource::Environment,
        doctor_step(config, profile, Some(token), credentials) matches AuthStepView::AskSelf {
            session,
            ..
        } && session.token == token && session.source == SessionSource::Environment,
{
}

/// Logging out is about the profile that is named for it, or else for all commands, or else about
/// the active one.
pub proof fn named_profiles_are_logged_out_of(
    config: ConfigView,
    profile_name: Option<String>,
    profile: Option<Seq<char>>,
    token: Option<Seq<char>>,
    credentials: Result<Map<Seq<char>, StoredSecret>, Seq<char>>,
)
    ensures
        auth_step(
            config,
            AuthCommand::Logout { profile_name },
            profile,
            token,
            credentials,
        ) matches AuthStepView::Remove { profile_name: removed } ==> Some(removed) == if profile_name
            is Some {
            view_of(profile_name)
        } else {
            current_profile(config, profile)
        },
{
}

} // verus!
