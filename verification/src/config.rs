//! Profiles, their credentials, and which of them a command uses.
use vstd::prelude::*;
use vstd::string::StringExecFns;

use crate::errors::CliError;
use crate::names::{a_first_member_exists, first_of, only_one_is_first, NameMap};
use crate::paths::AppPaths;
use crate::slug::{is_slug, slug, slugify_profile_name, slugs_are_well_formed};
use crate::text::{same, trim, trimmed, view_of, view_of_str};

verus! {

pub const APP_NAME: &'static str = "notioncli";

pub const LEGACY_APP_NAME: &'static str = "notion-cli";

pub const DEFAULT_API_VERSION: &'static str = "2026-03-11";

pub const DEFAULT_API_BASE_URL: &'static str = "https://api.notion.com";

/// How a profile authenticates.
#[derive(Debug, Clone, Copy, PartialEq, Eq, Structural)]
pub enum AuthType {
    Internal,
}

impl AuthType {
    /// The name of the way to authenticate.
    pub fn as_str(self) -> (r: &'static str)
        ensures
            r@ == "internal"@,
    {
        match self {
            AuthType::Internal => "internal",
        }
    }
}

/// What is known of a profile, but for its secret.
#[derive(Debug)]
pub struct ProfileMeta {
    pub auth_type: AuthType,
    pub workspace_id: Option<String>,
    pub workspace_name: Option<String>,
    pub bot_id: Option<String>,
    pub owner_name: Option<String>,
    pub owner_email: Option<String>,
}

impl Clone for ProfileMeta {
    fn clone(&self) -> (r: Self)
        ensures
            r == *self,
    {
        ProfileMeta {
            auth_type: self.auth_type,
            workspace_id: self.workspace_id.clone(),
            workspace_name: self.workspace_name.clone(),
            bot_id: self.bot_id.clone(),
            owner_name: self.owner_name.clone(),
            owner_email: self.owner_email.clone(),
        }
    }
}

/// What a profile authenticates with.
#[derive(Debug)]
pub enum StoredSecret {
    Internal { token: String },
}

impl View for StoredSecret {
    type V = Seq<char>;

    open spec fn view(&self) -> Seq<char> {
        match self {
            StoredSecret::Internal { token } => token@,
        }
    }
}

impl Clone for StoredSecret {
    fn clone(&self) -> (r: Self)
        ensures
            r == *self,
    {
        match self {
            StoredSecret::Internal { token } => StoredSecret::Internal { token: token.clone() },
        }
    }
}

impl StoredSecret {
    /// The token to send.
    pub fn access_token(&self) -> (r: &str)
        ensures
            r@ == self@,
    {
        match self {
            StoredSecret::Internal { token } => token.as_str(),
        }
    }
}

/// Where the secret of a session comes from.
#[derive(Debug, Clone, Copy, PartialEq, Eq, Structural)]
pub enum SessionSource {
    PersistedProfile,
    Environment,
}

impl SessionSource {
    /// The name of the source.
    pub fn as_str(self) -> (r: &'static str)
        ensures
            r@ == match self {
                SessionSource::PersistedProfile => "credentials_file"@,
                SessionSource::Environment => "environment"@,
            },
    {
        match self {
            SessionSource::PersistedProfile => "credentials_file",
            SessionSource::Environment => "environment",
        }
    }
}

/// What a command authenticates with, and under which name.
#[derive(Debug)]
pub struct RuntimeSession {
    pub profile_name: Option<String>,
    pub secret: StoredSecret,
    pub source: SessionSource,
}

/// What a session consists of.
pub struct SessionView {
    pub profile_name: Option<Seq<char>>,
    pub token: Seq<char>,
    pub source: SessionSource,
}

impl View for RuntimeSession {
    type V = SessionView;

    open spec fn view(&self) -> SessionView {
        SessionView {
            profile_name: view_of(self.profile_name),
            token: self.secret@,
            source: self.source,
        }
    }
}

impl Clone for RuntimeSession {
    fn clone(&self) -> (r: Self)
        ensures
            r == *self,
    {
        RuntimeSession {
            profile_name: self.profile_name.clone(),
            secret: self.secret.clone(),
            source: self.source,
        }
    }
}

impl RuntimeSession {
    /// The name to show for the session.
    pub fn display_name(&self) -> (r: &str)
        ensures
            r@ == match self@.profile_name {
                Some(name) => name,
                None => "unknown-profile"@,
            },
    {
        match &self.profile_name {
            Some(name) => name.as_str(),
            None => "unknown-profile",
        }
    }
}

/// The contents of the credentials file: the secret of each profile that has one.
#[derive(Debug)]
pub struct CredentialsFile {
    pub profiles: NameMap<StoredSecret>,
}

impl View for CredentialsFile {
    type V = Map<Seq<char>, StoredSecret>;

    open spec fn view(&self) -> Map<Seq<char>, StoredSecret> {
        self.profiles@
    }
}

/// What the user is told where a profile has no secret.
pub open spec fn no_secret_message(profile_name: Seq<char>) -> Seq<char> {
    "no persisted credentials found for profile `"@ + profile_name
        + "`; run `notioncli auth login ...` again"@
}

impl Clone for CredentialsFile {
    fn clone(&self) -> (r: Self)
        ensures
            r@ == self@,
    {
        let r = CredentialsFile { profiles: self.profiles.clone() };
        assert(r.profiles@ =~= self.profiles@);
        r
    }
}

impl Default for CredentialsFile {
    fn default() -> (r: Self)
        ensures
            r@ == Map::<Seq<char>, StoredSecret>::empty(),
    {
        CredentialsFile { profiles: NameMap::new() }
    }
}

impl CredentialsFile {
    /// Gives the profile a secret, in place of the one it had.
    pub fn write_secret(&mut self, profile_name: &str, secret: &StoredSecret)
        ensures
            final(self)@ == old(self)@.insert(profile_name@, *secret),
    {
        self.profiles.insert(profile_name.to_owned(), secret.clone());
    }

    /// The secret of the profile.
    pub fn read_secret(&self, profile_name: &str) -> (r: Result<StoredSecret, CliError>)
        ensures
            match r {
                Ok(secret) => self@.dom().contains(profile_name@) && secret == self@[profile_name@],
                Err(e) => !self@.dom().contains(profile_name@) && e@ == no_secret_message(
                    profile_name@,
                ),
            },
    {
        match self.profiles.get(profile_name) {
            Some(secret) => Ok(secret.clone()),
            None => {
                let mut message = "no persisted credentials found for profile `".to_owned();
                message.append(profile_name);
                message.append("`; run `notioncli auth login ...` again");
                Err(CliError { message })
            },
        }
    }

    /// Takes the secret of the profile away, if it has one.
    pub fn delete_secret(&mut self, profile_name: &str)
        ensures
            final(self)@ == old(self)@.remove(profile_name@),
    {
        self.profiles.remove(profile_name);
    }

    /// Whether the profile has a secret.
    pub fn has_secret(&self, profile_name: &str) -> (r: bool)
        ensures
            r == self@.dom().contains(profile_name@),
    {
        self.profiles.contains_key(profile_name)
    }
}

/// The contents of the configuration file.
#[derive(Debug)]
pub struct ConfigFile {
    pub api_version: String,
    pub active_profile: Option<String>,
    pub profiles: NameMap<ProfileMeta>,
}

/// The API version where the configuration names none.
pub fn default_api_version() -> (r: String)
    ensures
        r@ == DEFAULT_API_VERSION@,
{
    DEFAULT_API_VERSION.to_owned()
}

/// What a configuration consists of.
#[verifier::ext_equal]
pub struct ConfigView {
    pub api_version: Seq<char>,
    pub active_profile: Option<Seq<char>>,
    pub profiles: Map<Seq<char>, ProfileMeta>,
}

impl View for ConfigFile {
    type V = ConfigView;

    open spec fn view(&self) -> ConfigView {
        ConfigView {
            api_version: self.api_version@,
            active_profile: view_of(self.active_profile),
            profiles: self.profiles@,
        }
    }
}

/// The configuration of a user who has saved nothing yet.
pub open spec fn default_config() -> ConfigView {
    ConfigView {
        api_version: DEFAULT_API_VERSION@,
        active_profile: None,
        profiles: Map::empty(),
    }
}

impl Default for ConfigFile {
    fn default() -> (r: Self)
        ensures
            r@ == default_config(),
    {
        ConfigFile {
            api_version: default_api_version(),
            active_profile: None,
            profiles: NameMap::new(),
        }
    }
}

impl Clone for ConfigFile {
    fn clone(&self) -> (r: Self)
        ensures
            r@ == self@,
    {
        let r = ConfigFile {
            api_version: self.api_version.clone(),
            active_profile: self.active_profile.clone(),
            profiles: self.profiles.clone(),
        };
        assert(r.profiles@ =~= self.profiles@);
        r
    }
}

impl ConfigView {
    /// The configuration once the profile `name` is saved with `meta` and made the active one.
    pub open spec fn with_profile(self, name: Seq<char>, meta: ProfileMeta) -> ConfigView {
        ConfigView {
            api_version: self.api_version,
            active_profile: Some(name),
            profiles: self.profiles.insert(name, meta),
        }
    }

    /// The configuration once the profile `name` is out of it, and another one active in its place
    /// if it was.
    pub open spec fn without_profile(self, name: Seq<char>) -> ConfigView {
        let rest = self.profiles.remove(name);
        ConfigView {
            api_version: self.api_version,
            active_profile: if self.active_profile == Some(name) {
                if rest =~= Map::empty() {
                    None
                } else {
                    Some(first_of(rest.dom()))
                }
            } else {
                self.active_profile
            },
            profiles: rest,
        }
    }

    /// The configuration without the profile `name`, and with the active profile that it had.
    pub open spec fn only_without(self, name: Seq<char>) -> ConfigView {
        ConfigView { profiles: self.profiles.remove(name), ..self }
    }

    /// The configuration with the profile `name` active.
    pub open spec fn with_active(self, name: Seq<char>) -> ConfigView {
        ConfigView {
            api_version: self.api_version,
            active_profile: Some(name),
            profiles: self.profiles,
        }
    }

    /// The active profile, if there is one, is among the saved ones.
    pub open spec fn active_is_saved(self) -> bool {
        self.active_profile matches Some(name) ==> self.profiles.dom().contains(name)
    }
}

/// The configuration that the program works with, and where it is kept.
#[derive(Debug)]
pub struct ConfigStore {
    paths: AppPaths,
    config: ConfigFile,
}

impl View for ConfigStore {
    type V = ConfigView;

    closed spec fn view(&self) -> ConfigView {
        self.config@
    }
}

/// What the user is told where no profile is active.
pub open spec fn no_profile_message() -> Seq<char> {
    "no active profile configured; run `notioncli auth login` or set `NOTION_TOKEN`"@
}

/// What the user is told of a profile that is not there.
pub open spec fn unknown_profile_message(name: Seq<char>) -> Seq<char> {
    "profile `"@ + name + "` does not exist"@
}

/// The session of a command, or what the user is told where there is none. A token in the
/// environment goes before everything that is saved; the profile that the user names goes before
/// the active one.
pub open spec fn resolved(
    config: ConfigView,
    explicit_profile: Option<Seq<char>>,
    token: Option<Seq<char>>,
    credentials: Result<Map<Seq<char>, StoredSecret>, Seq<char>>,
) -> Result<SessionView, Seq<char>> {
    let profile = match explicit_profile {
        Some(name) => Some(name),
        None => config.active_profile,
    };
    match (token, profile, credentials) {
        (Some(token), _, _) => Ok(
            SessionView { profile_name: profile, token, source: SessionSource::Environment },
        ),
        (None, None, _) => Err(no_profile_message()),
        (None, Some(_), Err(message)) => Err(message),
        (None, Some(name), Ok(secrets)) => if secrets.dom().contains(name) {
            Ok(
                SessionView {
                    profile_name: profile,
                    token: secrets[name]@,
                    source: SessionSource::PersistedProfile,
                },
            )
        } else {
            Err(no_secret_message(name))
        },
    }
}

/// The session depends on the credentials: there is no token in the environment, and there is a
/// profile that a secret may be saved for.
pub open spec fn session_wants_credentials(
    config: ConfigView,
    explicit_profile: Option<Seq<char>>,
    has_token: bool,
) -> bool {
    !has_token && (explicit_profile is Some || config.active_profile is Some)
}

/// What reading the credentials file gave.
pub open spec fn credentials_view(credentials: Result<CredentialsFile, CliError>) -> Result<
    Map<Seq<char>, StoredSecret>,
    Seq<char>,
> {
    match credentials {
        Ok(file) => Ok(file@),
        Err(e) => Err(e@),
    }
}

/// The credentials with the secret of a profile, where they could be read.
pub open spec fn with_secret(
    credentials: Result<Map<Seq<char>, StoredSecret>, Seq<char>>,
    profile_name: Seq<char>,
    secret: StoredSecret,
) -> Result<Map<Seq<char>, StoredSecret>, Seq<char>> {
    match credentials {
        Ok(secrets) => Ok(secrets.insert(profile_name, secret)),
        Err(message) => Err(message),
    }
}

/// The credentials without the secret of a profile, where they could be read.
pub open spec fn without_secret(
    credentials: Result<Map<Seq<char>, StoredSecret>, Seq<char>>,
    profile_name: Seq<char>,
) -> Result<Map<Seq<char>, StoredSecret>, Seq<char>> {
    match credentials {
        Ok(secrets) => Ok(secrets.remove(profile_name)),
        Err(message) => Err(message),
    }
}

/// What is to be written to the credentials file to save the secret of a profile. `credentials` is
/// what reading the file gave.
pub fn secret_added(
    credentials: Result<CredentialsFile, CliError>,
    profile_name: &str,
    secret: &StoredSecret,
) -> (r: Result<CredentialsFile, CliError>)
    ensures
        credentials_view(r) == with_secret(credentials_view(credentials), profile_name@, *secret),
        credentials matches Err(e) ==> r == Err::<CredentialsFile, CliError>(e),
{
    match credentials {
        Ok(file) => {
            let mut file = file;
            file.write_secret(profile_name, secret);
            Ok(file)
        },
        Err(e) => Err(e),
    }
}

/// What is to be written to the credentials file to delete the secret of a profile. `credentials`
/// is what reading the file gave.
pub fn secret_removed(credentials: Result<CredentialsFile, CliError>, profile_name: &str) -> (r:
    Result<CredentialsFile, CliError>)
    ensures
        credentials_view(r) == without_secret(credentials_view(credentials), profile_name@),
        credentials matches Err(e) ==> r == Err::<CredentialsFile, CliError>(e),
{
    match credentials {
        Ok(file) => {
            let mut file = file;
            file.delete_secret(profile_name);
            Ok(file)
        },
        Err(e) => Err(e),
    }
}

impl ConfigStore {
    /// Where the configuration is kept.
    pub closed spec fn paths_view(self) -> AppPaths {
        self.paths
    }

    /// The store for the paths that were found and what reading the configuration file there gave:
    /// its contents, or `None` where there is no such file.
    pub fn load(
        paths: Result<AppPaths, CliError>,
        file: Result<Option<ConfigFile>, CliError>,
    ) -> (r: Result<Self, CliError>)
        ensures
            match (paths, file) {
                (Err(e), _) => r == Err::<Self, CliError>(e),
                (Ok(_), Err(e)) => r == Err::<Self, CliError>(e),
                (Ok(p), Ok(Some(f))) => r matches Ok(store) && store@ == f@ && store.paths_view()
                    == p,
                (Ok(p), Ok(None)) => r matches Ok(store) && store@ == default_config()
                    && store.paths_view() == p,
            },
    {
        match paths {
            Ok(paths) => ConfigStore::with_secret_store(paths, file),
            Err(e) => Err(e),
        }
    }

    /// The store for these paths and what reading the configuration file there gave.
    pub fn with_secret_store(paths: AppPaths, file: Result<Option<ConfigFile>, CliError>) -> (r:
        Result<Self, CliError>)
        ensures
            match file {
                Err(e) => r == Err::<Self, CliError>(e),
                Ok(Some(f)) => r matches Ok(store) && store@ == f@ && store.paths_view() == paths,
                Ok(None) => r matches Ok(store) && store@ == default_config() && store.paths_view()
                    == paths,
            },
    {
        let config = match file {
            Ok(Some(found)) => found,
            Ok(None) => ConfigFile::default(),
            Err(e) => {
                return Err(e);
            },
        };
        Ok(ConfigStore { paths, config })
    }

    /// Where the configuration is kept.
    pub fn paths(&self) -> (r: &AppPaths)
        ensures
            *r == self.paths_view(),
    {
        &self.paths
    }

    /// What is to be written to the configuration file.
    pub fn config(&self) -> (r: &ConfigFile)
        ensures
            r@ == self@,
    {
        &self.config
    }

    /// The API version to ask for: the one in the environment, unless it is blank, or else the one
    /// in the configuration.
    pub fn api_version(&self, environment: Option<String>) -> (r: String)
        ensures
            r@ == not_blank_or(view_of(environment), self@.api_version),
    {
        if let Some(value) = environment {
            if !trim(value.as_str()).as_str().is_empty() {
                return value;
            }
        }
        self.config.api_version.clone()
    }

    /// The address of the API: the one in the environment, unless it is blank, or else Notion's.
    pub fn api_base_url(&self, environment: Option<String>) -> (r: String)
        ensures
            r@ == not_blank_or(view_of(environment), DEFAULT_API_BASE_URL@),
    {
        if let Some(value) = environment {
            if !trim(value.as_str()).as_str().is_empty() {
                return value;
            }
        }
        DEFAULT_API_BASE_URL.to_owned()
    }

    /// The name of the active profile.
    pub fn active_profile(&self) -> (r: Option<&str>)
        ensures
            view_of_str(r) == self@.active_profile,
    {
        match &self.config.active_profile {
            Some(name) => Some(name.as_str()),
            None => None,
        }
    }

    /// The saved profiles.
    pub fn profiles(&self) -> (r: &NameMap<ProfileMeta>)
        ensures
            r@ == self@.profiles,
    {
        &self.config.profiles
    }

    /// What is known of the profile `name`, if it is saved.
    pub fn get_profile(&self, name: &str) -> (r: Option<&ProfileMeta>)
        ensures
            match r {
                Some(meta) => self@.profiles.dom().contains(name@) && *meta
                    == self@.profiles[name@],
                None => !self@.profiles.dom().contains(name@),
            },
    {
        self.config.profiles.get(name)
    }

    /// Saves the profile `name` and makes it the active one. `credentials` is what reading the
    /// credentials file gave, `written` what writing it with the secret gave; the result is what was
    /// written. Where it could not be read or written nothing is saved.
    pub fn put_profile(
        &mut self,
        name: String,
        meta: ProfileMeta,
        secret: &StoredSecret,
        credentials: Result<CredentialsFile, CliError>,
        written: Result<(), CliError>,
    ) -> (r: Result<CredentialsFile, CliError>)
        ensures
            final(self).paths_view() == old(self).paths_view(),
            match (credentials, written) {
                (Ok(file), Ok(())) => {
                    &&& r matches Ok(stored) && stored@ == file@.insert(name@, *secret)
                    &&& final(self)@ == old(self)@.with_profile(name@, meta)
                },
                (Ok(_), Err(e)) => r == Err::<CredentialsFile, CliError>(e) && *final(self) == *old(
                    self,
                ),
                (Err(e), _) => r == Err::<CredentialsFile, CliError>(e) && *final(self) == *old(
                    self,
                ),
            },
    {
        let stored = match secret_added(credentials, name.as_str(), secret) {
            Ok(file) => file,
            Err(e) => {
                return Err(e);
            },
        };
        if let Err(e) = written {
            return Err(e);
        }
        self.config.profiles.insert(name.clone(), meta);
        self.config.active_profile = Some(name);
        Ok(stored)
    }

    /// Takes the profile `name` out of the configuration, and its secret out of the credentials.
    /// `credentials` is what reading the credentials file gave, `written` what writing it without
    /// the secret gave; the result is what was written. Where it could not be read or written the
    /// profile is still taken out, but no other one becomes active.
    pub fn remove_profile(
        &mut self,
        name: &str,
        credentials: Result<CredentialsFile, CliError>,
        written: Result<(), CliError>,
    ) -> (r: Result<CredentialsFile, CliError>)
        ensures
            final(self).paths_view() == old(self).paths_view(),
            match (credentials, written) {
                (Ok(file), Ok(())) => {
                    &&& r matches Ok(stored) && stored@ == file@.remove(name@)
                    &&& final(self)@ == old(self)@.without_profile(name@)
                },
                (Ok(_), Err(e)) => {
                    &&& r == Err::<CredentialsFile, CliError>(e)
                    &&& final(self)@ == old(self)@.only_without(name@)
                },
                (Err(e), _) => {
                    &&& r == Err::<CredentialsFile, CliError>(e)
                    &&& final(self)@ == old(self)@.only_without(name@)
                },
            },
    {
        self.config.profiles.remove(name);
        let stored = match secret_removed(credentials, name) {
            Ok(file) => file,
            Err(e) => {
                return Err(e);
            },
        };
        if let Err(e) = written {
            return Err(e);
        }

        let was_active = match &self.config.active_profile {
            Some(active) => same(active.as_str(), name),
            None => false,
        };
        if was_active {
            let next = match self.config.profiles.first_key() {
                Some(first) => {
                    proof {
                        only_one_is_first(first@, self.config.profiles@.dom());
                        assert(self.config.profiles@.dom().contains(first@));
                    }
                    Some(first.clone())
                },
                None => None,
            };
            self.config.active_profile = next;
        }
        Ok(stored)
    }

    /// Makes the profile `name`, which must be saved, the active one.
    pub fn set_active_profile(&mut self, name: &str) -> (r: Result<(), CliError>)
        ensures
            final(self).paths_view() == old(self).paths_view(),
            if old(self)@.profiles.dom().contains(name@) {
                r is Ok && final(self)@ == old(self)@.with_active(name@)
            } else {
                r matches Err(e) && e@ == unknown_profile_message(name@) && *final(self) == *old(
                    self,
                )
            },
    {
        if !self.config.profiles.contains_key(name) {
            let mut message = "profile `".to_owned();
            message.append(name);
            message.append("` does not exist");
            return Err(CliError { message });
        }
        self.config.active_profile = Some(name.to_owned());
        Ok(())
    }

    /// Whether the profile has a secret. `credentials` is what reading the credentials file gave;
    /// where it could not be read, no profile has one.
    pub fn has_persisted_secret(
        &self,
        name: &str,
        credentials: &Result<CredentialsFile, CliError>,
    ) -> (r: bool)
        ensures
            r == (credentials_view(*credentials) matches Ok(secrets) && secrets.dom().contains(
                name@,
            )),
    {
        match credentials {
            Ok(file) => file.has_secret(name),
            Err(_) => false,
        }
    }

    /// Whether the credentials file has to be read before the session for a command is known.
    /// `has_token` says that there is a token in the environment.
    pub fn wants_credentials(&self, explicit_profile: Option<&str>, has_token: bool) -> (r: bool)
        ensures
            r == session_wants_credentials(self@, view_of_str(explicit_profile), has_token),
    {
        !has_token && (explicit_profile.is_some() || self.config.active_profile.is_some())
    }

    /// The session for a command. `token` is the token in the environment, `credentials` what
    /// reading the credentials file gave.
    pub fn resolve_session(
        &self,
        explicit_profile: Option<&str>,
        token: Option<String>,
        credentials: Result<CredentialsFile, CliError>,
    ) -> (r: Result<RuntimeSession, CliError>)
        ensures
            (match r {
                Ok(session) => Ok(session@),
                Err(e) => Err(e@),
            }) == resolved(
                self@,
                view_of_str(explicit_profile),
                view_of(token),
                credentials_view(credentials),
            ),
    {
        let profile: Option<String> = match explicit_profile {
            Some(name) => Some(name.to_owned()),
            None => self.config.active_profile.clone(),
        };
        if let Some(token) = token {
            return Ok(
                RuntimeSession {
                    profile_name: profile,
                    secret: StoredSecret::Internal { token },
                    source: SessionSource::Environment,
                },
            );
        }
        let name = match profile {
            Some(name) => name,
            None => {
                return Err(
                    CliError::new(
                        "no active profile configured; run `notioncli auth login` or set `NOTION_TOKEN`",
                    ),
                );
            },
        };
        match credentials {
            Ok(file) => match file.read_secret(name.as_str()) {
                Ok(secret) => Ok(
                    RuntimeSession {
                        profile_name: Some(name),
                        secret,
                        source: SessionSource::PersistedProfile,
                    },
                ),
                Err(e) => Err(e),
            },
            Err(e) => Err(e),
        }
    }
}

/// A profile that was saved is found again: what is known of it, that it is active, and its
/// secret, whether the user names it or not.
pub proof fn saved_profiles_are_found(
    config: ConfigView,
    secrets: Map<Seq<char>, StoredSecret>,
    name: Seq<char>,
    meta: ProfileMeta,
    secret: StoredSecret,
)
    ensures
        ({
            let saved = config.with_profile(name, meta);
            let written = Ok(secrets.insert(name, secret));
            let session: Result<SessionView, Seq<char>> = Ok(
                SessionView {
                    profile_name: Some(name),
                    token: secret@,
                    source: SessionSource::PersistedProfile,
                },
            );
            &&& saved.profiles.dom().contains(name)
            &&& saved.profiles[name] == meta
            &&& saved.active_profile == Some(name)
            &&& resolved(saved, None, None, written) == session
            &&& resolved(saved, Some(name), None, written) == session
        }),
{
}

/// Saving or removing a profile leaves every other profile and its secret as they were, and the
/// API version too.
pub proof fn other_profiles_are_kept(
    config: ConfigView,
    secrets: Map<Seq<char>, StoredSecret>,
    name: Seq<char>,
    meta: ProfileMeta,
    secret: StoredSecret,
    other: Seq<char>,
)
    requires
        other != name,
    ensures
        config.with_profile(name, meta).profiles.dom().contains(other)
            == config.profiles.dom().contains(other),
        config.with_profile(name, meta).profiles[other] == config.profiles[other],
        config.without_profile(name).profiles.dom().contains(other)
            == config.profiles.dom().contains(other),
        config.profiles.dom().contains(other) ==> config.without_profile(name).profiles[other]
            == config.profiles[other],
        config.with_profile(name, meta).api_version == config.api_version,
        config.without_profile(name).api_version == config.api_version,
        resolved(config.with_profile(name, meta), Some(other), None, Ok(secrets.insert(name, secret)))
            == resolved(config, Some(other), None, Ok(secrets)),
        resolved(config.without_profile(name), Some(other), None, Ok(secrets.remove(name)))
            == resolved(config, Some(other), None, Ok(secrets)),
{
}

/// A profile that was removed is gone: it is not saved, it is not active, and it has no secret.
pub proof fn removed_profiles_are_gone(
    config: ConfigView,
    secrets: Map<Seq<char>, StoredSecret>,
    name: Seq<char>,
)
    requires
        config.profiles.dom().finite(),
    ensures
        !config.without_profile(name).profiles.dom().contains(name),
        config.without_profile(name).active_profile != Some(name),
        resolved(config.without_profile(name), Some(name), None, Ok(secrets.remove(name))) == Err::<
            SessionView,
            Seq<char>,
        >(no_secret_message(name)),
{
    let rest = config.profiles.remove(name);
    if config.active_profile == Some(name) && !(rest =~= Map::empty()) {
        a_first_member_exists(rest.dom());
    }
}

/// Removing a profile that was just saved leaves the profiles as if it had never been there.
pub proof fn removal_undoes_saving(
    config: ConfigView,
    secrets: Map<Seq<char>, StoredSecret>,
    name: Seq<char>,
    meta: ProfileMeta,
    secret: StoredSecret,
)
    requires
        !config.profiles.dom().contains(name),
        !secrets.dom().contains(name),
    ensures
        config.with_profile(name, meta).without_profile(name).profiles == config.profiles,
        secrets.insert(name, secret).remove(name) == secrets,
{
    assert(config.with_profile(name, meta).without_profile(name).profiles =~= config.profiles);
    assert(secrets.insert(name, secret).remove(name) =~= secrets);
}

/// Where the active profile is a saved one, it stays so whatever is saved, removed or activated;
/// and with nothing saved none is active.
pub proof fn active_profile_stays_saved(
    config: ConfigView,
    name: Seq<char>,
    meta: ProfileMeta,
)
    requires
        config.active_is_saved(),
        config.profiles.dom().finite(),
    ensures
        default_config().active_is_saved(),
        config.with_profile(name, meta).active_is_saved(),
        config.without_profile(name).active_is_saved(),
        config.profiles.dom().contains(name) ==> config.with_active(name).active_is_saved(),
{
    let rest = config.profiles.remove(name);
    if config.active_profile == Some(name) && !(rest =~= Map::empty()) {
        a_first_member_exists(rest.dom());
    }
}

/// A token in the environment is used whatever is saved, under the name that would be used without
/// it.
pub proof fn environment_goes_first(
    config: ConfigView,
    explicit_profile: Option<Seq<char>>,
    token: Seq<char>,
    credentials: Result<Map<Seq<char>, StoredSecret>, Seq<char>>,
)
    ensures
        resolved(config, explicit_profile, Some(token), credentials) matches Ok(session) && {
            &&& session.token == token
            &&& session.source == SessionSource::Environment
            &&& resolved(config, explicit_profile, None, credentials) matches Ok(saved)
                ==> saved.profile_name == session.profile_name
        },
{
}

/// Credentials that do not have to be read make no difference.
pub proof fn unwanted_credentials_are_ignored(
    config: ConfigView,
    explicit_profile: Option<Seq<char>>,
    token: Option<Seq<char>>,
    one: Result<Map<Seq<char>, StoredSecret>, Seq<char>>,
    other: Result<Map<Seq<char>, StoredSecret>, Seq<char>>,
)
    requires
        !session_wants_credentials(config, explicit_profile, token is Some),
    ensures
        resolved(config, explicit_profile, token, one) == resolved(
            config,
            explicit_profile,
            token,
            other,
        ),
{
}

/// A profile whose secret could not be deleted is out of the configuration, and every other one is
/// as it was. Which one is active has not changed.
pub proof fn unfinished_removals_take_the_profile_out(
    config: ConfigView,
    name: Seq<char>,
    other: Seq<char>,
)
    requires
        other != name,
    ensures
        !config.only_without(name).profiles.dom().contains(name),
        config.only_without(name).profiles.dom().contains(other) == config.profiles.dom().contains(
            other,
        ),
        config.profiles.dom().contains(other) ==> config.only_without(name).profiles[other]
            == config.profiles[other],
        config.only_without(name).active_profile == config.active_profile,
        config.only_without(name).api_version == config.api_version,
{
}

/// The profile that the user names is used whichever one is active.
pub proof fn named_profile_goes_before_the_active_one(
    config: ConfigView,
    other: ConfigView,
    name: Seq<char>,
    token: Option<Seq<char>>,
    credentials: Result<Map<Seq<char>, StoredSecret>, Seq<char>>,
)
    ensures
        resolved(config, Some(name), token, credentials) == resolved(
            other,
            Some(name),
            token,
            credentials,
        ),
{
}

/// `value`, unless it is missing or blank, and then `otherwise`.
pub open spec fn not_blank_or(value: Option<Seq<char>>, otherwise: Seq<char>) -> Seq<char> {
    match value {
        Some(text) => if trimmed(text).len() > 0 {
            text
        } else {
            otherwise
        },
        None => otherwise,
    }
}

/// The token in the environment: the first of the two that is set, trimmed, unless nothing of it
/// is left.
pub open spec fn token_override(primary: Option<Seq<char>>, secondary: Option<Seq<char>>) -> Option<
    Seq<char>,
> {
    let set = match primary {
        Some(value) => Some(value),
        None => secondary,
    };
    match set {
        Some(value) => if trimmed(value).len() > 0 {
            Some(trimmed(value))
        } else {
            None
        },
        None => None,
    }
}

/// The token in the environment. `primary` and `secondary` are the values of the two variables
/// that may hold one.
pub fn runtime_token_override(primary: Option<String>, secondary: Option<String>) -> (r: Option<
    String,
>)
    ensures
        view_of(r) == token_override(view_of(primary), view_of(secondary)),
{
    let set = match primary {
        Some(value) => Some(value),
        None => secondary,
    };
    match set {
        Some(value) => {
            let token = trim(value.as_str());
            if token.as_str().is_empty() {
                None
            } else {
                Some(token)
            }
        },
        None => None,
    }
}

/// The profile name that is made up for a new profile.
pub open spec fn derived_name(meta: ProfileMeta) -> Seq<char> {
    let seed = match (meta.workspace_name, meta.owner_name, meta.bot_id) {
        (Some(name), _, _) => name@,
        (None, Some(name), _) => name@,
        (None, None, Some(id)) => id@,
        (None, None, None) => "internal"@,
    };
    if slug(seed).len() > 0 {
        slug(seed)
    } else {
        "internal"@
    }
}

/// A name that is made up is never empty, and a slug.
pub proof fn derived_names_are_slugs(meta: ProfileMeta)
    ensures
        derived_name(meta).len() > 0,
        is_slug(derived_name(meta)),
{
    let seed = match (meta.workspace_name, meta.owner_name, meta.bot_id) {
        (Some(name), _, _) => name@,
        (None, Some(name), _) => name@,
        (None, None, Some(id)) => id@,
        (None, None, None) => "internal"@,
    };
    slugs_are_well_formed(seed);
    reveal_strlit("internal");
}

/// Makes up a name for a new profile.
pub fn derive_profile_name(meta: &ProfileMeta) -> (r: String)
    ensures
        r@ == derived_name(*meta),
{
    let seed = match (&meta.workspace_name, &meta.owner_name, &meta.bot_id) {
        (Some(name), _, _) => name.as_str(),
        (None, Some(name), _) => name.as_str(),
        (None, None, Some(id)) => id.as_str(),
        (None, None, None) => "internal",
    };
    let name = slugify_profile_name(seed);
    if name.as_str().is_empty() {
        "internal".to_owned()
    } else {
        name
    }
}

} // verus!
