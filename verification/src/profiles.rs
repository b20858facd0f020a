//! Which profile a command uses, what becomes of profiles, and how they are shown.
use vstd::prelude::*;

use crate::auth::{
    active_profile_value, auth_config, auth_step, auth_wants_credentials, deleted_profile_value,
    doctor_value, entry_value, login_value, profile_value, profiles_value, prompted_step, tells,
    whoami_value, AfterSelfView, AuthCommand, AuthStepView,
};
use crate::config::{
    default_config, derived_name, no_secret_message, not_blank_or, resolved,
    session_wants_credentials, token_override, unknown_profile_message, with_secret,
    without_secret, AuthType, ConfigView, ProfileMeta, SessionSource, SessionView, StoredSecret,
};
use crate::json::JsonView;
use crate::names::{a_first_member_exists, a_listing_exists, before, listing, lists};
use crate::reading::{at, owners_go_before_bots, string_in, within};
use crate::slug::slug;
use crate::text::{trimmed, view_of};
use crate::wire::{fields_of, is_object};

verus! {

/// A token in the environment goes before everything else. Without one, the session is that of the
/// profile which is named, or else of the active one, with the secret that is saved for it.
pub proof fn sessions_are_found(
    config: ConfigView,
    named: Option<Seq<char>>,
    token: Option<Seq<char>>,
    credentials: Result<Map<Seq<char>, StoredSecret>, Seq<char>>,
)
    ensures
        ({
            let session = resolved(config, named, token, credentials);
            let profile = if named is Some {
                named
            } else {
                config.active_profile
            };
            match (token, profile) {
                (Some(text), _) => session == Ok::<SessionView, Seq<char>>(
                    SessionView {
                        profile_name: profile,
                        token: text,
                        source: SessionSource::Environment,
                    },
                ),
                (None, None) => session == Err::<SessionView, Seq<char>>(
                    "no active profile configured; run `notioncli auth login` or set `NOTION_TOKEN`"@,
                ),
                (None, Some(name)) => match credentials {
                    Err(message) => session == Err::<SessionView, Seq<char>>(message),
                    Ok(secrets) => {
                        &&& secrets.dom().contains(name) ==> session == Ok::<SessionView, Seq<char>>(
                            SessionView {
                                profile_name: Some(name),
                                token: secrets[name]@,
                                source: SessionSource::PersistedProfile,
                            },
                        )
                        &&& !secrets.dom().contains(name) ==> session == Err::<
                            SessionView,
                            Seq<char>,
                        >(
                            "no persisted credentials found for profile `"@ + name
                                + "`; run `notioncli auth login ...` again"@,
                        )
                    },
                },
            }
        }),
        session_wants_credentials(config, named, token is Some) <==> token is None && (named is Some
            || config.active_profile is Some),
{
}

/// The secret of a stored profile is its token.
pub proof fn secrets_are_tokens(token: String)
    ensures
        (StoredSecret::Internal { token })@ == token@,
{
}

/// Where the active profile is taken out, the first of the others by name becomes active, if there
/// are others. No other removal changes which profile is active.
pub proof fn the_first_profile_left_becomes_active(config: ConfigView, name: Seq<char>)
    requires
        config.profiles.dom().finite(),
    ensures
        config.active_profile != Some(name) ==> config.without_profile(name).active_profile
            == config.active_profile,
        config.active_profile == Some(name) ==> match config.without_profile(name).active_profile {
            Some(next) => {
                &&& config.profiles.dom().contains(next)
                &&& next != name
                &&& forall|other: Seq<char>| #[trigger]
                    config.profiles.dom().contains(other) && other != name ==> other == next
                        || before(next, other)
            },
            None => forall|other: Seq<char>| #[trigger]
                config.profiles.dom().contains(other) ==> other == name,
        },
{
    let rest = config.profiles.remove(name);
    if config.active_profile == Some(name) {
        if rest =~= Map::empty() {
            assert forall|other: Seq<char>| #[trigger]
                config.profiles.dom().contains(other) implies other == name by {
                if other != name {
                    assert(rest.dom().contains(other));
                }
            }
        } else {
            if rest.dom() =~= Set::empty() {
                assert(rest =~= Map::empty());
            }
            a_first_member_exists(rest.dom());
            let next = config.without_profile(name).active_profile->0;
            assert(rest.dom().contains(next));
            assert forall|other: Seq<char>| #[trigger]
                config.profiles.dom().contains(other) && other != name implies other == next
                || before(next, other) by {
                assert(rest.dom().contains(other));
            }
        }
    }
}

/// Saving, taking out and activating a profile do that, and nothing else.
pub proof fn profiles_change_one_at_a_time(
    config: ConfigView,
    name: Seq<char>,
    meta: ProfileMeta,
    other: Seq<char>,
)
    ensures
        config.with_profile(name, meta).active_profile == Some(name),
        config.with_profile(name, meta).profiles.dom().contains(other) <==> other == name
            || config.profiles.dom().contains(other),
        config.with_profile(name, meta).profiles[name] == meta,
        other != name ==> config.with_profile(name, meta).profiles[other] == config.profiles[other],
        config.with_profile(name, meta).api_version == config.api_version,
        config.without_profile(name).profiles.dom().contains(other) <==> other != name
            && config.profiles.dom().contains(other),
        other != name && config.profiles.dom().contains(other) ==> config.without_profile(
            name,
        ).profiles[other] == config.profiles[other],
        config.without_profile(name).api_version == config.api_version,
        config.only_without(name).profiles.dom().contains(other) <==> other != name
            && config.profiles.dom().contains(other),
        other != name && config.profiles.dom().contains(other) ==> config.only_without(
            name,
        ).profiles[other] == config.profiles[other],
        config.only_without(name).active_profile == config.active_profile,
        config.only_without(name).api_version == config.api_version,
        config.with_active(name).active_profile == Some(name),
        config.with_active(name).profiles == config.profiles,
        config.with_active(name).api_version == config.api_version,
{
}

/// Saving or deleting the secret of a profile leaves all others as they were, and a file that cannot
/// be read is not written.
pub proof fn secrets_change_one_at_a_time(
    secrets: Map<Seq<char>, StoredSecret>,
    message: Seq<char>,
    name: Seq<char>,
    secret: StoredSecret,
    other: Seq<char>,
)
    ensures
        with_secret(Ok(secrets), name, secret) matches Ok(added) && {
            &&& added.dom().contains(name) && added[name] == secret
            &&& other != name ==> added.dom().contains(other) == secrets.dom().contains(other)
            &&& other != name && secrets.dom().contains(other) ==> added[other] == secrets[other]
        },
        without_secret(Ok(secrets), name) matches Ok(left) && {
            &&& !left.dom().contains(name)
            &&& other != name ==> left.dom().contains(other) == secrets.dom().contains(other)
            &&& other != name && secrets.dom().contains(other) ==> left[other] == secrets[other]
        },
        with_secret(Err(message), name, secret) == Err::<Map<Seq<char>, StoredSecret>, Seq<char>>(
            message,
        ),
        without_secret(Err(message), name) == Err::<Map<Seq<char>, StoredSecret>, Seq<char>>(
            message,
        ),
{
}

/// Without anything saved, no profile is active, and the API version is the one that the program
/// was made for.
pub proof fn nothing_is_saved_at_first(name: Seq<char>)
    ensures
        default_config().api_version == "2026-03-11"@,
        default_config().active_profile is None,
        !default_config().profiles.dom().contains(name),
{
}

/// What the environment says is used as it is, unless it is blank.
pub proof fn blank_settings_do_not_count(text: Seq<char>, otherwise: Seq<char>)
    ensures
        trimmed(text).len() > 0 ==> not_blank_or(Some(text), otherwise) == text,
        trimmed(text).len() == 0 ==> not_blank_or(Some(text), otherwise) == otherwise,
        not_blank_or(None, otherwise) == otherwise,
{
}

/// The token in the environment is the first of the two that is set, without white space around it.
/// One that is blank hides the other one.
pub proof fn the_first_token_set_counts(
    text: Seq<char>,
    secondary: Option<Seq<char>>,
)
    ensures
        trimmed(text).len() > 0 ==> token_override(Some(text), secondary) == Some(trimmed(text)),
        trimmed(text).len() == 0 ==> token_override(Some(text), secondary) is None,
        trimmed(text).len() > 0 ==> token_override(None, Some(text)) == Some(trimmed(text)),
        trimmed(text).len() == 0 ==> token_override(None, Some(text)) is None,
        token_override(None, None) is None,
{
}

/// A new profile is named after its workspace, or else its owner, or else its bot.
pub proof fn profiles_are_named_after_what_is_known(meta: ProfileMeta)
    ensures
        ({
            let seed = if meta.workspace_name is Some {
                meta.workspace_name->0@
            } else if meta.owner_name is Some {
                meta.owner_name->0@
            } else if meta.bot_id is Some {
                meta.bot_id->0@
            } else {
                "internal"@
            };
            &&& slug(seed).len() > 0 ==> derived_name(meta) == slug(seed)
            &&& slug(seed).len() == 0 ==> derived_name(meta) == "internal"@
        }),
{
}

/// A text, or null where there is none.
pub open spec fn is_text_or_null(value: JsonView, text: Option<Seq<char>>) -> bool {
    match text {
        Some(t) => value == JsonView::Text(t),
        None => value == JsonView::Null,
    }
}

/// The document shows what is known of a profile, and nothing else. The secret is no part of it.
pub open spec fn shows_profile(document: JsonView, meta: ProfileMeta) -> bool {
    let fields = fields_of(document);
    &&& is_object(document)
    &&& fields.dom() == set![
        "auth_type"@,
        "workspace_id"@,
        "workspace_name"@,
        "bot_id"@,
        "owner_name"@,
        "owner_email"@,
    ]
    &&& fields["auth_type"@] == JsonView::Text("internal"@)
    &&& is_text_or_null(fields["workspace_id"@], view_of(meta.workspace_id))
    &&& is_text_or_null(fields["workspace_name"@], view_of(meta.workspace_name))
    &&& is_text_or_null(fields["bot_id"@], view_of(meta.bot_id))
    &&& is_text_or_null(fields["owner_name"@], view_of(meta.owner_name))
    &&& is_text_or_null(fields["owner_email"@], view_of(meta.owner_email))
}

/// A profile is shown with all that is known of it, and without its secret.
pub proof fn profiles_are_shown(meta: ProfileMeta)
    ensures
        shows_profile(profile_value(meta), meta),
{
    reveal_strlit("auth_type");
    reveal_strlit("workspace_id");
    reveal_strlit("workspace_name");
    reveal_strlit("bot_id");
    reveal_strlit("owner_name");
    reveal_strlit("owner_email");
    assert("auth_type"@.len() != "workspace_id"@.len());
    assert("auth_type"@.len() != "workspace_name"@.len());
    assert("auth_type"@.len() != "bot_id"@.len());
    assert("auth_type"@.len() != "owner_name"@.len());
    assert("auth_type"@.len() != "owner_email"@.len());
    assert("workspace_id"@.len() != "workspace_name"@.len());
    assert("workspace_id"@.len() != "bot_id"@.len());
    assert("workspace_id"@.len() != "owner_name"@.len());
    assert("workspace_id"@.len() != "owner_email"@.len());
    assert("workspace_name"@.len() != "bot_id"@.len());
    assert("workspace_name"@.len() != "owner_name"@.len());
    assert("workspace_name"@.len() != "owner_email"@.len());
    assert("bot_id"@.len() != "owner_name"@.len());
    assert("bot_id"@.len() != "owner_email"@.len());
    assert("owner_name"@.len() != "owner_email"@.len());
    assert(fields_of(profile_value(meta)).dom() =~= set![
        "auth_type"@,
        "workspace_id"@,
        "workspace_name"@,
        "bot_id"@,
        "owner_name"@,
        "owner_email"@,
    ]);
}

/// The document shows the profile of this name, and whether it is active.
pub open spec fn shows_entry(document: JsonView, config: ConfigView, name: Seq<char>) -> bool {
    let fields = fields_of(document);
    &&& is_object(document)
    &&& fields.dom() == set!["name"@, "active"@, "profile"@]
    &&& fields["name"@] == JsonView::Text(name)
    &&& fields["active"@] == JsonView::Bool(config.active_profile == Some(name))
    &&& shows_profile(fields["profile"@], config.profiles[name])
}

/// The saved profiles are listed by name, each of them once.
pub proof fn all_profiles_are_listed(config: ConfigView)
    requires
        config.profiles.dom().finite(),
    ensures
        ({
            let document = profiles_value(config);
            let fields = fields_of(document);
            let entries = fields["profiles"@]->Array_0;
            let names = listing(config.profiles.dom());
            &&& is_object(document)
            &&& fields.dom() == set!["profiles"@]
            &&& fields["profiles"@] is Array
            &&& forall|i: int, j: int|
                0 <= i < j < names.len() ==> before(#[trigger] names[i], #[trigger] names[j])
            &&& forall|name: Seq<char>| #[trigger]
                names.contains(name) <==> config.profiles.dom().contains(name)
            &&& entries.len() == names.len()
            &&& forall|i: int|
                0 <= i < names.len() ==> shows_entry(#[trigger] entries[i], config, names[i])
        }),
{
    let document = profiles_value(config);
    assert(fields_of(document).dom() =~= set!["profiles"@]);
    a_listing_exists(config.profiles.dom());
    let names = listing(config.profiles.dom());
    let entries = fields_of(document)["profiles"@]->Array_0;
    assert(lists(names, config.profiles.dom()));
    reveal_strlit("name");
    reveal_strlit("active");
    reveal_strlit("profile");
    assert("name"@.len() != "active"@.len());
    assert("name"@.len() != "profile"@.len());
    assert("active"@.len() != "profile"@.len());
    assert forall|i: int| 0 <= i < names.len() implies shows_entry(
        #[trigger] entries[i],
        config,
        names[i],
    ) by {
        assert(entries[i] == entry_value(config, names[i]));
        assert(fields_of(entries[i]).dom() =~= set!["name"@, "active"@, "profile"@]);
        profiles_are_shown(config.profiles[names[i]]);
    }
}

/// The report on the credentials says which profile is looked at, whether a secret is saved for it,
/// whether the bot could be asked for, and where the token comes from.
pub proof fn reports_tell_what_was_found(
    active_profile: Option<Seq<char>>,
    stored_credentials: bool,
    source: Option<SessionSource>,
    live: Result<JsonView, Seq<char>>,
)
    ensures
        ({
            let document = doctor_value(active_profile, stored_credentials, source, live);
            let fields = fields_of(document);
            let origin = match source {
                Some(SessionSource::PersistedProfile) => JsonView::Text("credentials_file"@),
                Some(SessionSource::Environment) => JsonView::Text("environment"@),
                None => JsonView::Null,
            };
            &&& is_object(document)
            &&& fields.dom() == set![
                "active_profile"@,
                "stored_credentials"@,
                "auth_ok"@,
                "auth_error"@,
                "live_user"@,
                "token_source"@,
                "token_persistence"@,
                "login_flow"@,
            ]
            &&& is_text_or_null(fields["active_profile"@], active_profile)
            &&& fields["stored_credentials"@] == JsonView::Bool(stored_credentials)
            &&& live matches Ok(user) ==> {
                &&& fields["auth_ok"@] == JsonView::Bool(true)
                &&& fields["auth_error"@] == JsonView::Null
                &&& fields["live_user"@] == user
            }
            &&& live matches Err(message) ==> {
                &&& fields["auth_ok"@] == JsonView::Bool(false)
                &&& fields["auth_error"@] == JsonView::Text(message)
                &&& fields["live_user"@] == JsonView::Null
            }
            &&& fields["token_source"@] == origin
            &&& fields["token_persistence"@] == origin
            &&& fields["login_flow"@] == JsonView::Text(
                "run `notioncli auth login` to save a token locally, or set `NOTION_TOKEN` for one-shot use"@,
            )
        }),
{
    reveal_strlit("active_profile");
    reveal_strlit("stored_credentials");
    reveal_strlit("auth_ok");
    reveal_strlit("auth_error");
    reveal_strlit("live_user");
    reveal_strlit("token_source");
    reveal_strlit("token_persistence");
    reveal_strlit("login_flow");
    assert("active_profile"@.len() != "stored_credentials"@.len());
    assert("active_profile"@.len() != "auth_ok"@.len());
    assert("active_profile"@.len() != "auth_error"@.len());
    assert("active_profile"@.len() != "live_user"@.len());
    assert("active_profile"@.len() != "token_source"@.len());
    assert("active_profile"@.len() != "token_persistence"@.len());
    assert("active_profile"@.len() != "login_flow"@.len());
    assert("stored_credentials"@.len() != "auth_ok"@.len());
    assert("stored_credentials"@.len() != "auth_error"@.len());
    assert("stored_credentials"@.len() != "live_user"@.len());
    assert("stored_credentials"@.len() != "token_source"@.len());
    assert("stored_credentials"@.len() != "token_persistence"@.len());
    assert("stored_credentials"@.len() != "login_flow"@.len());
    assert("auth_ok"@.len() != "auth_error"@.len());
    assert("auth_ok"@.len() != "live_user"@.len());
    assert("auth_ok"@.len() != "token_source"@.len());
    assert("auth_ok"@.len() != "token_persistence"@.len());
    assert("auth_ok"@.len() != "login_flow"@.len());
    assert("auth_error"@.len() != "live_user"@.len());
    assert("auth_error"@.len() != "token_source"@.len());
    assert("auth_error"@.len() != "token_persistence"@.len());
    assert("auth_error"@[0] != "login_flow"@[0]);
    assert("live_user"@.len() != "token_source"@.len());
    assert("live_user"@.len() != "token_persistence"@.len());
    assert("live_user"@.len() != "login_flow"@.len());
    assert("token_source"@.len() != "token_persistence"@.len());
    assert("token_source"@.len() != "login_flow"@.len());
    assert("token_persistence"@.len() != "login_flow"@.len());
    assert(fields_of(doctor_value(active_profile, stored_credentials, source, live)).dom()
        =~= set![
            "active_profile"@,
            "stored_credentials"@,
            "auth_ok"@,
            "auth_error"@,
            "live_user"@,
            "token_source"@,
            "token_persistence"@,
            "login_flow"@,
        ]);
}

/// The bot of a session is shown beside the profile of the session and what is saved of that.
pub proof fn bots_are_shown_with_their_profiles(
    config: ConfigView,
    session: SessionView,
    live: JsonView,
)
    ensures
        ({
            let document = whoami_value(config, session, live);
            let fields = fields_of(document);
            &&& is_object(document)
            &&& fields.dom() == set!["profile"@, "stored_profile"@, "live_user"@, "live_object"@]
            &&& fields["live_user"@] == live
            &&& string_in(at(live, "object"@)) matches Some(kind) ==> fields["live_object"@]
                == JsonView::Text(kind)
            &&& string_in(at(live, "object"@)) is None ==> fields["live_object"@] == JsonView::Text(
                "unknown"@,
            )
            &&& session.profile_name is None ==> fields["profile"@] == JsonView::Text(
                "unknown-profile"@,
            ) && fields["stored_profile"@] == JsonView::Null
            &&& session.profile_name matches Some(name) ==> {
                &&& fields["profile"@] == JsonView::Text(name)
                &&& config.profiles.dom().contains(name) ==> shows_profile(
                    fields["stored_profile"@],
                    config.profiles[name],
                )
                &&& !config.profiles.dom().contains(name) ==> fields["stored_profile"@]
                    == JsonView::Null
            }
        }),
{
    reveal_strlit("profile");
    reveal_strlit("stored_profile");
    reveal_strlit("live_user");
    reveal_strlit("live_object");
    assert("profile"@.len() != "stored_profile"@.len());
    assert("profile"@.len() != "live_user"@.len());
    assert("profile"@.len() != "live_object"@.len());
    assert("stored_profile"@.len() != "live_user"@.len());
    assert("stored_profile"@.len() != "live_object"@.len());
    assert("live_user"@.len() != "live_object"@.len());
    assert(fields_of(whoami_value(config, session, live)).dom() =~= set![
        "profile"@,
        "stored_profile"@,
        "live_user"@,
        "live_object"@,
    ]);
    if let Some(name) = session.profile_name {
        profiles_are_shown(config.profiles[name]);
    }
}

/// What a login, a change of the active profile and a logout give back names the profile.
pub proof fn changes_name_the_profile(name: Seq<char>, meta: ProfileMeta)
    ensures
        ({
            let login = fields_of(login_value(name, meta));
            let used = fields_of(active_profile_value(name));
            let deleted = fields_of(deleted_profile_value(name));
            &&& is_object(login_value(name, meta))
            &&& login.dom() == set!["profile_name"@, "profile"@]
            &&& login["profile_name"@] == JsonView::Text(name)
            &&& shows_profile(login["profile"@], meta)
            &&& is_object(active_profile_value(name))
            &&& used.dom() == set!["active_profile"@]
            &&& used["active_profile"@] == JsonView::Text(name)
            &&& is_object(deleted_profile_value(name))
            &&& deleted.dom() == set!["deleted_profile"@]
            &&& deleted["deleted_profile"@] == JsonView::Text(name)
        }),
{
    reveal_strlit("profile_name");
    reveal_strlit("profile");
    assert("profile_name"@.len() != "profile"@.len());
    profiles_are_shown(meta);
    assert(fields_of(login_value(name, meta)).dom() =~= set!["profile_name"@, "profile"@]);
    assert(fields_of(active_profile_value(name)).dom() =~= set!["active_profile"@]);
    assert(fields_of(deleted_profile_value(name)).dom() =~= set!["deleted_profile"@]);
}

/// What is known of a new profile is what the bot's user object tells: its id, and the name and
/// e-mail address of its owner, or else its own. The workspace is not known.
pub proof fn logins_learn_what_the_bot_tells(me: JsonView, meta: ProfileMeta)
    requires
        tells(me, meta),
    ensures
        ({
            let user = within(at(me, "owner"@), "user"@);
            &&& meta.auth_type == AuthType::Internal
            &&& meta.workspace_id is None
            &&& meta.workspace_name is None
            &&& view_of(meta.bot_id) == string_in(at(me, "id"@))
            &&& view_of(meta.owner_name) == match string_in(within(user, "name"@)) {
                Some(name) => Some(name),
                None => string_in(at(me, "name"@)),
            }
            &&& view_of(meta.owner_email) == match string_in(
                within(within(user, "person"@), "email"@),
            ) {
                Some(email) => Some(email),
                None => string_in(within(at(me, "person"@), "email"@)),
            }
        }),
{
    owners_go_before_bots(me);
}

/// Logging in checks the token that is given, as it is, or asks for one where none is given or it is
/// blank. What is typed is trimmed.
pub proof fn logins_check_the_token(
    config: ConfigView,
    profile_name: Option<String>,
    given: Option<String>,
    profile: Option<Seq<char>>,
    token: Option<Seq<char>>,
    credentials: Result<Map<Seq<char>, StoredSecret>, Seq<char>>,
    typed: Seq<char>,
    wanted: Option<Seq<char>>,
)
    ensures
        ({
            let step = auth_step(
                config,
                AuthCommand::Login { profile_name, token: given },
                profile,
                token,
                credentials,
            );
            let prompt = (AuthStepView::Prompt { profile_name: view_of(profile_name) });
            match given {
                None => step == prompt,
                Some(text) => if trimmed(text@).len() == 0 {
                    step == prompt
                } else {
                    step == (AuthStepView::CheckToken {
                        token: text@,
                        profile_name: view_of(profile_name),
                    })
                },
            }
        }),
        trimmed(typed).len() > 0 ==> prompted_step(Some(typed), wanted) == (
        AuthStepView::CheckToken { token: trimmed(typed), profile_name: wanted }),
        trimmed(typed).len() == 0 ==> prompted_step(Some(typed), wanted) == AuthStepView::Done(
            Err("provide a Notion integration token"@),
        ),
        prompted_step(None, wanted) == AuthStepView::Done(Err("failed to read token input"@)),
{
}

/// Listing the profiles gives the list, changes nothing and reads no credentials. Switching to a
/// profile saves that it is active; one that is not saved is refused.
pub proof fn profiles_are_switched_to(
    config: ConfigView,
    profile_name: String,
    profile: Option<Seq<char>>,
    token: Option<Seq<char>>,
    credentials: Result<Map<Seq<char>, StoredSecret>, Seq<char>>,
)
    ensures
        auth_step(config, AuthCommand::List, profile, token, credentials) == AuthStepView::Done(
            Ok(profiles_value(config)),
        ),
        ({
            let command = AuthCommand::Use { profile_name };
            let step = auth_step(config, command, profile, token, credentials);
            let after = auth_config(config, command);
            &&& config.profiles.dom().contains(profile_name@) ==> {
                &&& step == (AuthStepView::Save { document: active_profile_value(profile_name@) })
                &&& after.active_profile == Some(profile_name@)
                &&& after.profiles == config.profiles
                &&& after.api_version == config.api_version
            }
            &&& !config.profiles.dom().contains(profile_name@) ==> {
                &&& step == AuthStepView::Done(
                    Err("profile `"@ + profile_name@ + "` does not exist"@),
                )
                &&& after == config
            }
        }),
{
}

/// What the user is told of a profile that is not there, or has no secret, names it.
pub proof fn missing_profiles_are_named(name: Seq<char>)
    ensures
        unknown_profile_message(name) == "profile `"@ + name + "` does not exist"@,
        no_secret_message(name) == "no persisted credentials found for profile `"@ + name
            + "`; run `notioncli auth login ...` again"@,
{
}

/// Only switching to a profile changes the configuration at once, and only two commands may need the
/// credentials.
pub proof fn commands_leave_the_rest_alone(
    config: ConfigView,
    command: AuthCommand,
    profile: Option<Seq<char>>,
    has_token: bool,
)
    ensures
        !(command is Use) ==> auth_config(config, command) == config,
        command is Doctor ==> auth_wants_credentials(config, command, profile, has_token) == (
        profile is Some || config.active_profile is Some),
        command is Whoami ==> auth_wants_credentials(config, command, profile, has_token) == (
        !has_token && (profile is Some || config.active_profile is Some)),
        !(command is Doctor) && !(command is Whoami) ==> !auth_wants_credentials(
            config,
            command,
            profile,
            has_token,
        ),
{
}

/// Asking who the bot is is done with the session, and the answer is shown beside it. Without a
/// session, or without an answer, the user is told why.
pub proof fn the_bot_of_the_session_is_asked_for(
    config: ConfigView,
    profile: Option<Seq<char>>,
    token: Option<Seq<char>>,
    credentials: Result<Map<Seq<char>, StoredSecret>, Seq<char>>,
    session: SessionView,
    reply: Result<JsonView, Seq<char>>,
)
    ensures
        auth_step(config, AuthCommand::Whoami, profile, token, credentials) == match resolved(
            config,
            profile,
            token,
            credentials,
        ) {
            Ok(found) => (AuthStepView::AskSelf {
                session: found,
                then: AfterSelfView::Whoami { session: found },
            }),
            Err(message) => AuthStepView::Done(Err(message)),
        },
        (AfterSelfView::Whoami { session }).answered(config, reply) == match reply {
            Ok(live) => Ok(whoami_value(config, session, live)),
            Err(message) => Err(message),
        },
{
}

/// The credentials are checked for the profile that is named, or else for the active one: whether a
/// secret is saved for it, and whether the bot of its session answers. What is wrong goes into the
/// report.
pub proof fn credentials_are_checked(
    config: ConfigView,
    profile: Option<Seq<char>>,
    token: Option<Seq<char>>,
    credentials: Result<Map<Seq<char>, StoredSecret>, Seq<char>>,
    reply: Result<JsonView, Seq<char>>,
)
    ensures
        ({
            let step = auth_step(config, AuthCommand::Doctor, profile, token, credentials);
            let used = if profile is Some {
                profile
            } else {
                config.active_profile
            };
            let stored = used is Some && credentials is Ok && credentials->Ok_0.dom().contains(
                used->0,
            );
            match resolved(config, profile, token, credentials) {
                Ok(session) => {
                    &&& step is AskSelf
                    &&& step->session == session
                    &&& step->then.answered(config, reply) == Ok::<JsonView, Seq<char>>(
                        doctor_value(used, stored, Some(session.source), reply),
                    )
                },
                Err(message) => step == AuthStepView::Done(
                    Ok(doctor_value(used, stored, None, Err(message))),
                ),
            }
        }),
{
}

/// Logging out takes out the profile that is named for it, or else for all commands, or else the
/// active one. Where there is none the user is told so.
pub proof fn logouts_take_out_one_profile(
    config: ConfigView,
    profile_name: Option<String>,
    profile: Option<Seq<char>>,
    token: Option<Seq<char>>,
    credentials: Result<Map<Seq<char>, StoredSecret>, Seq<char>>,
)
    ensures
        ({
            let step = auth_step(
                config,
                AuthCommand::Logout { profile_name },
                profile,
                token,
                credentials,
            );
            match (profile_name, profile, config.active_profile) {
                (Some(name), _, _) => step == (AuthStepView::Remove { profile_name: name@ }),
                (None, Some(name), _) => step == (AuthStepView::Remove { profile_name: name }),
                (None, None, Some(name)) => step == (AuthStepView::Remove { profile_name: name }),
                (None, None, None) => step == AuthStepView::Done(
                    Err("no profile specified and there is no active profile"@),
                ),
            }
        }),
{
}

} // verus!
