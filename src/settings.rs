use vstd::prelude::*;
use vstd::string::*;

use crate::config::{ArchiveConfig, BuckleSource};
use crate::text::{same_text, trim_text, trimmed, uppercase_text, uppercased};

verus! {

/// Settings read from a `.buckleconfig.toml` file; each may be absent.
#[derive(Clone, Debug, PartialEq, Eq, Default)]
pub struct FileSettings {
    pub buck2_version: Option<String>,
    pub base_download_url: Option<String>,
    pub check_prelude: Option<bool>,
    pub cache_dir: Option<String>,
}

/// The environment variables that settings depend on; each may be unset.
#[derive(Clone, Debug, PartialEq, Eq, Default)]
pub struct EnvSettings {
    /// `USE_BUCK2_VERSION`
    pub use_buck2_version: Option<String>,
    /// `BUCKLE_DOWNLOAD_URL`
    pub download_url: Option<String>,
    /// `BUCKLE_PRELUDE_CHECK`
    pub prelude_check: Option<String>,
    /// `BUCKLE_CACHE`
    pub cache: Option<String>,
    /// `XDG_CACHE_HOME`
    pub xdg_cache_home: Option<String>,
    /// `HOME`
    pub home: Option<String>,
    /// `LocalAppData`
    pub local_app_data: Option<String>,
}

/// The settings of one invocation.
#[derive(Clone, Debug, PartialEq, Eq)]
pub struct Settings {
    /// A version pattern that overrides the archive's, if one is given.
    pub buck2_version: Option<String>,
    /// A mirror of the provider's downloads, if one is configured.
    pub base_download_url: Option<String>,
    pub check_prelude: bool,
    /// The cache root: `<cache dir>/buckle`.
    pub buckle_dir: String,
}

#[derive(Clone, Copy, Debug, PartialEq, Eq, Structural)]
pub enum SettingsError {
    /// On Linux neither `XDG_CACHE_HOME` nor `HOME` is set.
    NoCacheBase,
    /// On macOS `HOME` is not set.
    HomeUndefined,
    /// On Windows `LocalAppData` is not set.
    LocalAppDataUndefined,
    /// The operating system has no known cache location.
    UnsupportedOs,
}

pub open spec fn opt_view(o: Option<String>) -> Option<Seq<char>> {
    match o {
        Some(s) => Some(s@),
        None => None,
    }
}

/// The operating system's cache directory.
pub open spec fn os_cache_dir_of(os: Seq<char>, xdg: Option<Seq<char>>, home: Option<Seq<char>>, local: Option<Seq<char>>) -> Result<Seq<char>, SettingsError> {
    if os == "linux"@ {
        match (xdg, home) {
            (Some(x), _) => Ok(x),
            (None, Some(h)) => Ok(h + "/.cache"@),
            (None, None) => Err(SettingsError::NoCacheBase),
        }
    } else if os == "macos"@ {
        match home {
            Some(h) => Ok(h + "/Library/Caches"@),
            None => Err(SettingsError::HomeUndefined),
        }
    } else if os == "windows"@ {
        match local {
            Some(l) => Ok(l),
            None => Err(SettingsError::LocalAppDataUndefined),
        }
    } else {
        Err(SettingsError::UnsupportedOs)
    }
}

/// The cache directory of the operating system `os`, from its environment.
pub fn os_cache_dir(os: &str, env: &EnvSettings) -> (r: Result<String, SettingsError>)
    ensures
        match (r, os_cache_dir_of(os@, opt_view(env.xdg_cache_home), opt_view(env.home), opt_view(env.local_app_data))) {
            (Ok(s), Ok(t)) => s@ == t,
            (Err(e), Err(f)) => e == f,
            _ => false,
        },
{
    if same_text(os, "linux") {
        match (&env.xdg_cache_home, &env.home) {
            (Some(x), _) => Ok(String::from_str(x.as_str())),
            (None, Some(h)) => {
                let mut s = String::from_str(h.as_str());
                s.append("/.cache");
                Ok(s)
            },
            (None, None) => Err(SettingsError::NoCacheBase),
        }
    } else if same_text(os, "macos") {
        match &env.home {
            Some(h) => {
                let mut s = String::from_str(h.as_str());
                s.append("/Library/Caches");
                Ok(s)
            },
            None => Err(SettingsError::HomeUndefined),
        }
    } else if same_text(os, "windows") {
        match &env.local_app_data {
            Some(l) => Ok(String::from_str(l.as_str())),
            None => Err(SettingsError::LocalAppDataUndefined),
        }
    } else {
        Err(SettingsError::UnsupportedOs)
    }
}

/// The version override: the environment's, the file's, or the deprecated
/// `.buckversion` file's (trimmed); none of them, no override.
pub open spec fn version_of(env: Option<Seq<char>>, file: Option<Seq<char>>, buckversion: Option<Seq<char>>) -> Option<Seq<char>> {
    match (env, file, buckversion) {
        (Some(v), _, _) => Some(v),
        (None, Some(v), _) => Some(v),
        (None, None, Some(v)) => Some(trimmed(v)),
        (None, None, None) => None,
    }
}

/// Whether to check the prelude, given the environment's value in upper case:
/// anything but `NO` asks for the check; unset, the file decides; by default, yes.
pub open spec fn prelude_check_of(env_upper: Option<Seq<char>>, file: Option<bool>) -> bool {
    match (env_upper, file) {
        (Some(v), _) => v != "NO"@,
        (None, Some(b)) => b,
        (None, None) => true,
    }
}

pub fn prelude_check_setting(env_upper: Option<&str>, file: Option<bool>) -> (r: bool)
    ensures
        r == prelude_check_of(match env_upper { Some(s) => Some(s@), None => None }, file),
{
    match (env_upper, file) {
        (Some(v), _) => !same_text(v, "NO"),
        (None, Some(b)) => b,
        (None, None) => true,
    }
}

pub open spec fn upper_opt(o: Option<String>) -> Option<Seq<char>> {
    match o {
        Some(s) => Some(uppercased(s@)),
        None => None,
    }
}

/// The cache directory: the environment's, the file's, or the system's.
pub open spec fn cache_dir_of(os: Seq<char>, env: EnvSettings, file: FileSettings) -> Result<Seq<char>, SettingsError> {
    match (env.cache, file.cache_dir) {
        (Some(c), _) => Ok(c@),
        (None, Some(c)) => Ok(c@),
        (None, None) => os_cache_dir_of(os, opt_view(env.xdg_cache_home), opt_view(env.home), opt_view(env.local_app_data)),
    }
}

fn first_of(a: &Option<String>, b: &Option<String>) -> (r: Option<String>)
    ensures
        opt_view(r) == match (opt_view(*a), opt_view(*b)) {
            (Some(x), _) => Some(x),
            (None, y) => y,
        },
{
    match (a, b) {
        (Some(x), _) => Some(String::from_str(x.as_str())),
        (None, Some(y)) => Some(String::from_str(y.as_str())),
        (None, None) => None,
    }
}

/// Resolves the settings of an invocation: the environment overrides the
/// configuration file, which overrides the defaults. `buckversion` is the
/// text of a deprecated `.buckversion` file at the project root, if any.
pub fn resolve_settings(env: &EnvSettings, file: &FileSettings, buckversion: Option<&str>, os: &str) -> (r: Result<Settings, SettingsError>)
    ensures
        match (r, cache_dir_of(os@, *env, *file)) {
            (Ok(s), Ok(dir)) => {
                &&& s.buckle_dir@ == dir + "/buckle"@
                &&& opt_view(s.buck2_version) == version_of(opt_view(env.use_buck2_version), opt_view(file.buck2_version),
                    match buckversion { Some(b) => Some(b@), None => None })
                &&& opt_view(s.base_download_url) == match (opt_view(env.download_url), opt_view(file.base_download_url)) {
                    (Some(x), _) => Some(x),
                    (None, y) => y,
                }
                &&& s.check_prelude == prelude_check_of(upper_opt(env.prelude_check), file.check_prelude)
            },
            (Err(e), Err(f)) => e == f,
            _ => false,
        },
{
    let buck2_version = match (&env.use_buck2_version, &file.buck2_version, buckversion) {
        (Some(v), _, _) => Some(String::from_str(v.as_str())),
        (None, Some(v), _) => Some(String::from_str(v.as_str())),
        (None, None, Some(b)) => Some(trim_text(b)),
        (None, None, None) => None,
    };
    let base_download_url = first_of(&env.download_url, &file.base_download_url);
    let check_prelude = match &env.prelude_check {
        Some(v) => {
            let upper = uppercase_text(v.as_str());
            prelude_check_setting(Some(upper.as_str()), file.check_prelude)
        },
        None => prelude_check_setting(None, file.check_prelude),
    };
    let cache_dir = match (&env.cache, &file.cache_dir) {
        (Some(c), _) => String::from_str(c.as_str()),
        (None, Some(c)) => String::from_str(c.as_str()),
        (None, None) => match os_cache_dir(os, env) {
            Ok(c) => c,
            Err(e) => return Err(e),
        },
    };
    let mut buckle_dir = cache_dir;
    buckle_dir.append("/buckle");
    Ok(Settings { buck2_version, base_download_url, check_prelude, buckle_dir })
}

impl Settings {
    /// The pattern that selects a release of `archive`: the override, or the
    /// archive's own.
    pub fn version_pattern<'a>(&'a self, archive: &'a ArchiveConfig) -> (r: &'a str)
        ensures
            r@ == match self.buck2_version {
                Some(v) => v@,
                None => archive.source.github().version@,
            },
    {
        match &self.buck2_version {
            Some(v) => v.as_str(),
            None => match &archive.source {
                BuckleSource::Github(g) => g.version.as_str(),
            },
        }
    }
}

} // verus!
