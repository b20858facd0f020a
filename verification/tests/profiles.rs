use std::path::PathBuf;

use notioncli::config::{
    default_api_version, derive_profile_name, runtime_token_override, secret_added,
    secret_removed, AuthType, ConfigFile, ConfigStore, CredentialsFile, ProfileMeta, RuntimeSession, SessionSource, StoredSecret,
    DEFAULT_API_VERSION,
};
use notioncli::errors::CliError;
use notioncli::paths::{AppPaths, LocalDir};
use notioncli::slug::slugify_profile_name;

fn meta(name: &str) -> ProfileMeta {
    ProfileMeta {
        auth_type: AuthType::Internal,
        workspace_id: None,
        workspace_name: Some(name.to_string()),
        bot_id: None,
        owner_name: None,
        owner_email: None,
    }
}

fn secret(token: &str) -> StoredSecret {
    StoredSecret::Internal { token: token.to_string() }
}

fn empty_store() -> ConfigStore {
    let paths = AppPaths::from_base(PathBuf::from("/base"));
    ConfigStore::with_secret_store(paths, Ok(None)).unwrap()
}

#[test]
fn slugifies_profile_names() {
    assert_eq!(slugify_profile_name("Team Wiki"), "team-wiki");
    assert_eq!(slugify_profile_name("  QA / Eng  "), "qa-eng");
}

#[test]
fn config_round_trip() {
    let paths = AppPaths::from_base(PathBuf::from("/base"));
    let mut store = ConfigStore::with_secret_store(paths, Ok(None)).unwrap();

    let meta = ProfileMeta {
        auth_type: AuthType::Internal,
        workspace_id: Some("abc".into()),
        workspace_name: Some("Workspace".into()),
        bot_id: Some("bot".into()),
        owner_name: Some("Owner".into()),
        owner_email: None,
    };

    let credentials = store
        .put_profile(
            "workspace".into(),
            meta.clone(),
            &StoredSecret::Internal { token: "access".into() },
            Ok(CredentialsFile::default()),
            Ok(()),
        )
        .unwrap();

    let loaded = ConfigStore::with_secret_store(
        AppPaths::from_base(PathBuf::from("/base")),
        Ok(Some(store.config().clone())),
    )
    .unwrap();
    let profile = loaded.get_profile("workspace").expect("missing profile");
    let session = loaded.resolve_session(None, None, Ok(credentials)).unwrap();

    assert_eq!(profile.workspace_name.as_deref(), Some("Workspace"));
    assert_eq!(loaded.active_profile(), Some("workspace"));
    assert_eq!(session.profile_name.as_deref(), Some("workspace"));
    assert_eq!(session.secret.access_token(), "access");
    assert_eq!(session.source, SessionSource::PersistedProfile);
}

#[test]
fn derives_profile_names() {
    let meta = ProfileMeta {
        auth_type: AuthType::Internal,
        workspace_id: None,
        workspace_name: Some("My Team".into()),
        bot_id: None,
        owner_name: None,
        owner_email: None,
    };
    assert_eq!(derive_profile_name(&meta), "my-team");
}

#[test]
fn derived_names_fall_back() {
    let mut m = meta("!!!");
    assert_eq!(derive_profile_name(&m), "internal");
    m.workspace_name = None;
    assert_eq!(derive_profile_name(&m), "internal");
    m.bot_id = Some("Bot 7".into());
    assert_eq!(derive_profile_name(&m), "bot-7");
    m.owner_name = Some("Ada Lovelace".into());
    assert_eq!(derive_profile_name(&m), "ada-lovelace");
}

#[test]
fn slugs_keep_their_form() {
    assert_eq!(slugify_profile_name(""), "");
    assert_eq!(slugify_profile_name("--a--b--"), "a-b");
    assert_eq!(slugify_profile_name("\u{3000}Über Team 1\n"), "ber-team-1");
    let once = slugify_profile_name("A  b__C");
    assert_eq!(once, "a-b-c");
    assert_eq!(slugify_profile_name(&once), once);
}

#[test]
fn paths_stand_in_their_directory() {
    let paths = AppPaths::from_base(PathBuf::from("/base"));
    assert_eq!(paths.config_dir, PathBuf::from("/base"));
    assert_eq!(paths.config_file, PathBuf::from("/base").join("config.toml"));
    assert_eq!(paths.credentials_file, PathBuf::from("/base").join("credentials.toml"));
    let copy = paths.clone();
    assert_eq!(copy.config_file, paths.config_file);
}

fn dir(name: &str, config: bool, credentials: bool) -> Option<LocalDir> {
    Some(LocalDir {
        dir: PathBuf::from(name),
        config_file_exists: config,
        credentials_file_exists: credentials,
    })
}

#[test]
fn directories_are_chosen_in_order() {
    let named = |p: Result<AppPaths, CliError>| p.unwrap().config_dir;
    let a = Some(PathBuf::from("/a"));
    let b = Some(PathBuf::from("/b"));
    assert_eq!(
        named(AppPaths::discover(a, b.clone(), dir("/n", true, true), dir("/l", true, true))),
        PathBuf::from("/a")
    );
    assert_eq!(named(AppPaths::discover(None, b, None, None)), PathBuf::from("/b"));
    assert_eq!(
        named(AppPaths::discover(None, None, dir("/n", false, false), dir("/l", false, true))),
        PathBuf::from("/l")
    );
    assert_eq!(
        named(AppPaths::discover(None, None, dir("/n", true, false), dir("/l", true, true))),
        PathBuf::from("/n")
    );
    assert_eq!(
        named(AppPaths::discover(None, None, dir("/n", false, false), dir("/l", false, false))),
        PathBuf::from("/n")
    );
    let e = AppPaths::discover(None, None, dir("/n", true, true), None).unwrap_err();
    assert_eq!(e.message, "could not determine a platform config directory");
}

#[test]
fn new_configurations_are_empty() {
    let store = empty_store();
    assert_eq!(store.active_profile(), None);
    assert_eq!(store.profiles().len(), 0);
    assert_eq!(store.api_version(None), DEFAULT_API_VERSION);
    assert_eq!(default_api_version(), "2026-03-11");
    let failure = ConfigStore::load(Err(CliError::new("no paths")), Ok(None));
    assert_eq!(failure.err().unwrap().message, "no paths");
    let paths = AppPaths::from_base(PathBuf::from("/base"));
    let failure = ConfigStore::load(Ok(paths), Err(CliError::new("bad file")));
    assert_eq!(failure.err().unwrap().message, "bad file");
}

#[test]
fn the_environment_overrides_version_and_address() {
    let store = empty_store();
    assert_eq!(store.api_version(Some("2030-01-01".into())), "2030-01-01");
    assert_eq!(store.api_version(Some("  ".into())), "2026-03-11");
    assert_eq!(store.api_base_url(None), "https://api.notion.com");
    assert_eq!(store.api_base_url(Some("http://localhost".into())), "http://localhost");
    assert_eq!(store.api_base_url(Some("".into())), "https://api.notion.com");
}

#[test]
fn removing_a_profile_activates_the_first_of_the_others() {
    let mut store = empty_store();
    let file = CredentialsFile::default();
    let file = store.put_profile("b".into(), meta("B"), &secret("tb"), Ok(file), Ok(())).unwrap();
    let file = store.put_profile("c".into(), meta("C"), &secret("tc"), Ok(file), Ok(())).unwrap();
    let file = store.put_profile("a".into(), meta("A"), &secret("ta"), Ok(file), Ok(())).unwrap();
    assert_eq!(store.active_profile(), Some("a"));
    assert_eq!(store.profiles().key_at(0), "a");
    assert_eq!(store.profiles().key_at(2), "c");

    let file = store.remove_profile("a", Ok(file), Ok(())).unwrap();
    assert_eq!(store.active_profile(), Some("b"));
    assert!(store.get_profile("a").is_none());
    assert!(!file.has_secret("a"));
    assert!(file.has_secret("b"));

    let file = store.remove_profile("c", Ok(file), Ok(())).unwrap();
    assert_eq!(store.active_profile(), Some("b"));
    let file = store.remove_profile("b", Ok(file), Ok(())).unwrap();
    assert_eq!(store.active_profile(), None);
    assert_eq!(store.profiles().len(), 0);
    assert!(!file.has_secret("b"));
}

#[test]
fn unreadable_credentials_stop_changes() {
    let mut store = empty_store();
    let e = store
        .put_profile("a".into(), meta("A"), &secret("t"), Err(CliError::new("unreadable")), Ok(()))
        .unwrap_err();
    assert_eq!(e.message, "unreadable");
    assert!(store.get_profile("a").is_none());

    store.put_profile("a".into(), meta("A"), &secret("t"), Ok(CredentialsFile::default()), Ok(())).unwrap();
    let e = store.remove_profile("a", Err(CliError::new("unreadable")), Ok(())).unwrap_err();
    assert_eq!(e.message, "unreadable");
    assert_eq!(store.active_profile(), Some("a"));
    assert!(store.get_profile("a").is_none());
}

#[test]
fn only_saved_profiles_become_active() {
    let mut store = empty_store();
    let file = CredentialsFile::default();
    let file = store.put_profile("a".into(), meta("A"), &secret("ta"), Ok(file), Ok(())).unwrap();
    store.put_profile("b".into(), meta("B"), &secret("tb"), Ok(file), Ok(())).unwrap();
    assert!(store.set_active_profile("a").is_ok());
    assert_eq!(store.active_profile(), Some("a"));
    let e = store.set_active_profile("zz").unwrap_err();
    assert_eq!(e.message, "profile `zz` does not exist");
    assert_eq!(store.active_profile(), Some("a"));
}

#[test]
fn sessions_prefer_the_environment_and_then_the_named_profile() {
    let mut store = empty_store();
    let file = CredentialsFile::default();
    let file = store.put_profile("a".into(), meta("A"), &secret("ta"), Ok(file), Ok(())).unwrap();
    let file = store.put_profile("b".into(), meta("B"), &secret("tb"), Ok(file), Ok(())).unwrap();

    let s = store.resolve_session(Some("a"), None, Ok(file.clone())).unwrap();
    assert_eq!(s.secret.access_token(), "ta");
    assert_eq!(s.source.as_str(), "credentials_file");
    let s = store.resolve_session(None, None, Ok(file.clone())).unwrap();
    assert_eq!(s.secret.access_token(), "tb");
    let s = store.resolve_session(None, Some("env".into()), Err(CliError::new("x"))).unwrap();
    assert_eq!(s.secret.access_token(), "env");
    assert_eq!(s.source.as_str(), "environment");
    assert_eq!(s.display_name(), "b");

    let e = store.resolve_session(Some("zz"), None, Ok(file)).unwrap_err();
    assert_eq!(
        e.message,
        "no persisted credentials found for profile `zz`; run `notioncli auth login ...` again"
    );
    let e = store.resolve_session(None, None, Err(CliError::new("unreadable"))).unwrap_err();
    assert_eq!(e.message, "unreadable");
    let e = empty_store().resolve_session(None, None, Ok(CredentialsFile::default())).unwrap_err();
    assert_eq!(
        e.message,
        "no active profile configured; run `notioncli auth login` or set `NOTION_TOKEN`"
    );
}

#[test]
fn sessions_without_a_profile_have_a_name_to_show() {
    let session = RuntimeSession {
        profile_name: None,
        secret: secret("t"),
        source: SessionSource::Environment,
    };
    assert_eq!(session.display_name(), "unknown-profile");
    assert_eq!(session.clone().secret.access_token(), "t");
    assert_eq!(AuthType::Internal.as_str(), "internal");
}

#[test]
fn tokens_in_the_environment_are_trimmed() {
    assert_eq!(
        runtime_token_override(Some(" a ".into()), Some("b".into())),
        Some("a".to_string())
    );
    assert_eq!(runtime_token_override(None, Some("b".into())), Some("b".to_string()));
    assert_eq!(runtime_token_override(Some("  ".into()), Some("b".into())), None);
    assert_eq!(runtime_token_override(None, None), None);
}

#[test]
fn secrets_are_found_only_where_they_can_be_read() {
    let mut store = empty_store();
    let file = store
        .put_profile("a".into(), meta("A"), &secret("ta"), Ok(CredentialsFile::default()), Ok(()))
        .unwrap();
    assert!(store.has_persisted_secret("a", &Ok(file.clone())));
    assert!(!store.has_persisted_secret("b", &Ok(file)));
    assert!(!store.has_persisted_secret("a", &Err(CliError::new("unreadable"))));
}

#[test]
fn configurations_are_cloned_whole() {
    let mut store = empty_store();
    store.put_profile("a".into(), meta("A"), &secret("t"), Ok(CredentialsFile::default()), Ok(())).unwrap();
    let file: ConfigFile = store.config().clone();
    assert_eq!(file.api_version, "2026-03-11");
    assert_eq!(file.active_profile.as_deref(), Some("a"));
    assert_eq!(file.profiles.value_at(0).workspace_name.as_deref(), Some("A"));
    assert_eq!(store.paths().config_dir, PathBuf::from("/base"));
}

#[test]
fn profiles_are_not_saved_without_their_secret() {
    let mut store = empty_store();
    let file = CredentialsFile::default();
    let file = store.put_profile("a".into(), meta("A"), &secret("ta"), Ok(file), Ok(())).unwrap();
    let full = || Err(CliError::new("failed to replace credentials file /base/credentials.toml"));
    let e = store
        .put_profile("b".into(), meta("B"), &secret("tb"), Ok(file.clone()), full())
        .unwrap_err();
    assert_eq!(e.message, "failed to replace credentials file /base/credentials.toml");
    assert!(store.get_profile("b").is_none());
    assert_eq!(store.active_profile(), Some("a"));

    let file = store.put_profile("b".into(), meta("B"), &secret("tb"), Ok(file), Ok(())).unwrap();
    let e = store.remove_profile("b", Ok(file), full()).unwrap_err();
    assert_eq!(e.message, "failed to replace credentials file /base/credentials.toml");
    assert!(store.get_profile("b").is_none());
    assert!(store.get_profile("a").is_some());
    assert_eq!(store.active_profile(), Some("b"));
}

#[test]
fn secrets_are_added_and_removed() {
    let file = secret_added(Ok(CredentialsFile::default()), "a", &secret("ta")).unwrap();
    assert_eq!(file.read_secret("a").unwrap().access_token(), "ta");
    let file = secret_removed(Ok(file), "a").unwrap();
    assert!(!file.has_secret("a"));
    let unreadable = || Err(CliError::new("unreadable"));
    assert_eq!(secret_added(unreadable(), "a", &secret("t")).unwrap_err().message, "unreadable");
    assert_eq!(secret_removed(unreadable(), "a").unwrap_err().message, "unreadable");
}

#[test]
fn credentials_are_read_only_where_they_matter() {
    let mut store = empty_store();
    assert!(!store.wants_credentials(None, false));
    assert!(store.wants_credentials(Some("a"), false));
    assert!(!store.wants_credentials(Some("a"), true));
    let file = CredentialsFile::default();
    store.put_profile("a".into(), meta("A"), &secret("ta"), Ok(file), Ok(())).unwrap();
    assert!(store.wants_credentials(None, false));
    assert!(!store.wants_credentials(None, true));
}

#[test]
fn slugs_join_words() {
    assert_eq!(slugify_profile_name("  One2, THREE -- four!"), "one2-three-four");
    assert_eq!(slugify_profile_name("...x..."), "x");
    assert_eq!(slugify_profile_name("é"), "");
}
