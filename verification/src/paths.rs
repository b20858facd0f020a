//! Where the configuration lives.
use std::path::PathBuf;

use vstd::prelude::*;

use crate::errors::CliError;
use crate::text::view_of;

verus! {

/// The name of the file that the configuration is kept in.
pub const CONFIG_FILE: &'static str = "config.toml";

/// The name of the file that the secrets are kept in.
pub const CREDENTIALS_FILE: &'static str = "credentials.toml";

/// `std::path::PathBuf`: the path of a file or a directory.
#[verifier::external_type_specification]
#[verifier::external_body]
pub struct ExPathBuf(std::path::PathBuf);

/// The parts that a path consists of, from the first directory to the last name.
pub uninterp spec fn parts(path: PathBuf) -> Seq<Seq<char>>;

/// `std::path::Path::join`: joining a plain name to a path adds it to the parts of the path. How
/// the parts are written down is left to the platform.
#[verifier::external_body]
fn join_path(base: &PathBuf, name: &str) -> (r: PathBuf)
    requires
        name@ == CONFIG_FILE@ || name@ == CREDENTIALS_FILE@,
    ensures
        parts(r) == parts(*base).push(name@),
{
    base.join(name)
}

/// The name of the file that a path leads to, where it has one that is text.
pub uninterp spec fn name_of(path: PathBuf) -> Option<Seq<char>>;

/// `std::path::Path::file_name`, as text: the last of the parts of a path. There is none where the
/// path does not end in a name, or in one that is not text; that is for [`name_of`] to tell.
#[verifier::external_body]
pub(crate) fn file_name(path: &PathBuf) -> (r: Option<String>)
    ensures
        view_of(r) == name_of(*path),
        r matches Some(name) ==> parts(*path).len() > 0 && parts(*path).last() == name@,
{
    Some(path.file_name()?.to_str()?.to_owned())
}

/// `std::path::PathBuf::clone`: the clone is the same path.
pub assume_specification[ <std::path::PathBuf as std::clone::Clone>::clone ](
    path: &std::path::PathBuf,
) -> (r: std::path::PathBuf)
    ensures
        r == *path,
;

/// The configuration directory and the two files in it.
#[derive(Debug)]
pub struct AppPaths {
    pub config_dir: PathBuf,
    pub config_file: PathBuf,
    pub credentials_file: PathBuf,
}

impl Clone for AppPaths {
    fn clone(&self) -> (r: Self)
        ensures
            r == *self,
    {
        AppPaths {
            config_dir: self.config_dir.clone(),
            config_file: self.config_file.clone(),
            credentials_file: self.credentials_file.clone(),
        }
    }
}

impl AppPaths {
    /// These are the paths for the configuration directory `base`.
    pub open spec fn are_in(self, base: PathBuf) -> bool {
        &&& self.config_dir == base
        &&& parts(self.config_file) == parts(base).push(CONFIG_FILE@)
        &&& parts(self.credentials_file) == parts(base).push(CREDENTIALS_FILE@)
    }
}

/// A directory that the platform offers, and which of the two files it holds.
#[derive(Debug)]
pub struct LocalDir {
    pub dir: PathBuf,
    pub config_file_exists: bool,
    pub credentials_file_exists: bool,
}

impl LocalDir {
    /// The directory holds something that was saved.
    pub open spec fn in_use(self) -> bool {
        self.config_file_exists || self.credentials_file_exists
    }

    /// Whether the directory holds something that was saved.
    pub fn has_local_state(&self) -> (r: bool)
        ensures
            r == self.in_use(),
    {
        self.config_file_exists || self.credentials_file_exists
    }
}

/// The directory to use: one that the user named, the first before the second; or else the current
/// one, unless only the legacy one is in use. `None` where the platform does not offer both.
pub open spec fn discovered(
    named: Option<PathBuf>,
    legacy_named: Option<PathBuf>,
    current: Option<LocalDir>,
    legacy: Option<LocalDir>,
) -> Option<PathBuf> {
    match (named, legacy_named, current, legacy) {
        (Some(base), _, _, _) => Some(base),
        (None, Some(base), _, _) => Some(base),
        (None, None, Some(new), Some(old)) => if !new.in_use() && old.in_use() {
            Some(old.dir)
        } else {
            Some(new.dir)
        },
        (None, None, _, _) => None,
    }
}

impl AppPaths {
    /// The paths for the configuration directory `base`.
    pub fn from_base(base: PathBuf) -> (r: Self)
        ensures
            r.are_in(base),
    {
        let config_file = join_path(&base, CONFIG_FILE);
        let credentials_file = join_path(&base, CREDENTIALS_FILE);
        AppPaths { config_dir: base, config_file, credentials_file }
    }

    /// Chooses the configuration directory. `named` and `legacy_named` are the directories that the
    /// environment names, `current` and `legacy` those that the platform offers.
    pub fn discover(
        named: Option<PathBuf>,
        legacy_named: Option<PathBuf>,
        current: Option<LocalDir>,
        legacy: Option<LocalDir>,
    ) -> (r: Result<Self, CliError>)
        ensures
            match discovered(named, legacy_named, current, legacy) {
                Some(base) => r matches Ok(paths) && paths.are_in(base),
                None => r matches Err(e) && e@
                    == "could not determine a platform config directory"@,
            },
    {
        if let Some(base) = named {
            return Ok(AppPaths::from_base(base));
        }
        if let Some(base) = legacy_named {
            return Ok(AppPaths::from_base(base));
        }
        match (current, legacy) {
            (Some(new), Some(old)) => {
                if !new.has_local_state() && old.has_local_state() {
                    Ok(AppPaths::from_base(old.dir))
                } else {
                    Ok(AppPaths::from_base(new.dir))
                }
            },
            _ => Err(CliError::new("could not determine a platform config directory")),
        }
    }
}

/// A directory that the user names is used, whatever the platform offers and whatever is there.
pub proof fn named_directories_are_used(
    base: PathBuf,
    legacy_named: Option<PathBuf>,
    current: Option<LocalDir>,
    legacy: Option<LocalDir>,
)
    ensures
        discovered(Some(base), legacy_named, current, legacy) == Some(base),
        discovered(None, Some(base), current, legacy) == Some(base),
{
}

/// What was saved in the current directory is found, and what was saved in the legacy one as long
/// as there is nothing in the current one.
pub proof fn saved_state_is_found(current: LocalDir, legacy: LocalDir)
    ensures
        current.in_use() ==> discovered(None, None, Some(current), Some(legacy)) == Some(
            current.dir,
        ),
        !current.in_use() && legacy.in_use() ==> discovered(
            None,
            None,
            Some(current),
            Some(legacy),
        ) == Some(legacy.dir),
{
}

} // verus!
