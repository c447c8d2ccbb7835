//! The typed configuration record, the canonical default configuration, and
//! the resolution of the active configuration file's location.

use vstd::prelude::*;

use crate::errors::LostTheWay;
use crate::errors::LostTheWayView;
use crate::errors::TheWayError;
use crate::errors::TheWayErrorView;
use crate::errors::spec_no_such_file_error;

verus! {

/// The name of the application's configuration namespace.
pub const NAME: &'static str = "the-way";

/// The configuration subcommands presented by the command-line interface.
pub enum ConfigCommand {
    /// Print or write the default configuration options.
    Default { file: Option<String> },
    /// Print the location of the currently set configuration file.
    Get,
}

/// The configuration record: the contents of the resolved configuration file.
#[derive(Debug, Clone)]
pub struct TheWayConfig {
    /// Selected highlighting theme.
    pub theme: String,
    /// Path to the directory containing the snippet database files.
    pub db_dir: String,
    /// Path to the directory containing theme files.
    pub themes_dir: String,
    /// Platform clipboard command; absent when the feature is disabled.
    pub copy_cmd: Option<String>,
    /// Github token for the Gist API.
    pub github_access_token: Option<String>,
    /// ID of the Gist used for sync.
    pub gist_id: Option<String>,
}

/// The mathematical value of an optional string.
pub open spec fn opt_text(o: Option<String>) -> Option<Seq<char>> {
    match o {
        Some(s) => Some(s@),
        None => None,
    }
}

/// The mathematical value of a string-or-failure-text result.
pub open spec fn res_text(r: Result<String, String>) -> Result<Seq<char>, Seq<char>> {
    match r {
        Ok(s) => Ok(s@),
        Err(e) => Err(e@),
    }
}

/// The mathematical value of a [`TheWayConfig`]: every field over `Seq<char>`.
#[verifier::ext_equal]
pub struct ConfigView {
    pub theme: Seq<char>,
    pub db_dir: Seq<char>,
    pub themes_dir: Seq<char>,
    pub copy_cmd: Option<Seq<char>>,
    pub github_access_token: Option<Seq<char>>,
    pub gist_id: Option<Seq<char>>,
}

impl View for TheWayConfig {
    type V = ConfigView;

    open spec fn view(&self) -> ConfigView {
        ConfigView {
            theme: self.theme@,
            db_dir: self.db_dir@,
            themes_dir: self.themes_dir@,
            copy_cmd: opt_text(self.copy_cmd),
            github_access_token: opt_text(self.github_access_token),
            gist_id: opt_text(self.gist_id),
        }
    }
}

/// The default configuration record rooted at the given data directory: the
/// fixed theme, the database and theme directories under the data directory,
/// the given clipboard command, and no sync credentials.
pub open spec fn spec_default_record(data_dir: Seq<char>, copy_cmd: Option<Seq<char>>) -> ConfigView {
    ConfigView {
        theme: "base16-ocean.dark"@,
        db_dir: data_dir + "/the_way_db"@,
        themes_dir: data_dir + "/themes"@,
        copy_cmd: copy_cmd,
        github_access_token: None,
        gist_id: None,
    }
}

/// The canonical default configuration text for the given clipboard command.
pub open spec fn default_config_text(copy_cmd: Seq<char>) -> Seq<char> {
    "theme = 'base16-ocean.dark'\ndb_dir = 'the_way_db'\nthemes_dir = 'the_way_themes'\ncopy_cmd = '"@
        + copy_cmd + "'"@
}

/// Relies on `directories_next::ProjectDirs::from` and
/// `directories_next::ProjectDirs::data_dir`: the platform-standard
/// per-application data directory for the `rs` / `the-way` namespace, or
/// `None` where the platform offers no home directory. The result depends on
/// the process environment, so nothing is promised of its value.
#[verifier::external_body]
fn project_data_dir() -> (r: Option<String>) {
    match directories_next::ProjectDirs::from("rs", "", NAME) {
        Some(dirs) => Some(dirs.data_dir().to_string_lossy().into_owned()),
        None => None,
    }
}

/// Relies on `confy::get_configuration_file_path`: computes the
/// platform-standard configuration file path for the `the-way` namespace
/// without touching the filesystem, by joining the platform's configuration
/// directory with the file name `default-config.toml`; it fails when no home
/// directory can be determined. The path's directory part depends on the
/// process environment, so only the fixed file-name suffix is stated.
#[verifier::external_body]
fn platform_config_path() -> (r: Result<String, String>)
    ensures
        r matches Ok(p) ==> exists|dir: Seq<char>| p@ == dir + "default-config.toml"@,
{
    match confy::get_configuration_file_path(NAME, None) {
        Ok(path) => Ok(path.to_string_lossy().into_owned()),
        Err(e) => Err(format!("{e}")),
    }
}

/// The resolved location of the active configuration file, given the override
/// value from the environment, whether the override path exists, and the
/// platform-default path (or the failure text of its computation): the
/// override wins whenever it is set and exists; a set override that does not
/// exist is a failure naming that exact path; without an override the
/// platform-default path is returned unconditionally.
pub open spec fn spec_resolve(
    env_value: Option<Seq<char>>,
    override_exists: bool,
    platform: Result<Seq<char>, Seq<char>>,
) -> Result<Seq<char>, TheWayErrorView> {
    match env_value {
        Some(file) => if override_exists {
            Ok(file)
        } else {
            Err(spec_no_such_file_error(file))
        },
        None => match platform {
            Ok(path) => Ok(path),
            Err(cause) => Err(
                TheWayErrorView {
                    kind: LostTheWayView::ConfigError { message: cause },
                    suggestion: None,
                },
            ),
        },
    }
}

/// Resolves the configuration file location from the override value and a
/// platform-default path handed in by the caller.
pub fn resolve_with_platform(
    env_value: Option<String>,
    override_exists: bool,
    platform: Result<String, String>,
) -> (r: Result<String, TheWayError>)
    ensures
        (match r {
            Ok(p) => Ok(p@),
            Err(e) => Err(e@),
        }) == spec_resolve(opt_text(env_value), override_exists, res_text(platform)),
{
    match env_value {
        Some(file) => {
            if override_exists {
                Ok(file)
            } else {
                Err(TheWayError::no_such_file(file.as_str()))
            }
        },
        None => match platform {
            Ok(path) => Ok(path),
            Err(cause) => Err(TheWayError::config_error(cause)),
        },
    }
}

impl TheWayConfig {
    /// The default configuration record rooted at the given data directory.
    pub fn default_record_at(data_dir: &str, copy_cmd: Option<String>) -> (r: TheWayConfig)
        ensures
            r@ == spec_default_record(data_dir@, opt_text(copy_cmd)),
    {
        let mut db_dir = data_dir.to_owned();
        db_dir.append("/the_way_db");
        let mut themes_dir = data_dir.to_owned();
        themes_dir.append("/themes");
        TheWayConfig {
            theme: "base16-ocean.dark".to_owned(),
            db_dir,
            themes_dir,
            copy_cmd,
            github_access_token: None,
            gist_id: None,
        }
    }

    /// The default configuration record rooted at the platform's standard
    /// data directory; fails with `Homeless` where the platform offers none.
    pub fn default_record(copy_cmd: Option<String>) -> (r: Result<TheWayConfig, TheWayError>)
        ensures
            r matches Ok(c) ==> exists|d: Seq<char>| c@ == spec_default_record(
                d,
                opt_text(copy_cmd),
            ),
            r matches Err(e) ==> e@ == (TheWayErrorView {
                kind: LostTheWayView::Homeless,
                suggestion: None,
            }),
    {
        let ghost cc = opt_text(copy_cmd);
        match project_data_dir() {
            Some(dir) => {
                let c = Self::default_record_at(dir.as_str(), copy_cmd);
                proof {
                    assert(c@ == spec_default_record(dir@, cc));
                }
                Ok(c)
            },
            None => Err(TheWayError { kind: LostTheWay::Homeless, suggestion: None }),
        }
    }

    /// The canonical default configuration text, for the platform clipboard
    /// command handed in by the caller; fails when none could be determined.
    pub fn default_config(copy_cmd: Option<&str>) -> (r: Result<String, TheWayError>)
        ensures
            copy_cmd matches Some(cmd) ==> (r matches Ok(s) && s@ == default_config_text(cmd@)),
            copy_cmd is None ==> (r matches Err(e) && e@ == (TheWayErrorView {
                kind: LostTheWayView::NoDefaultCopyCommand,
                suggestion: None,
            })),
    {
        match copy_cmd {
            Some(cmd) => {
                let mut s =
                    "theme = 'base16-ocean.dark'\ndb_dir = 'the_way_db'\nthemes_dir = 'the_way_themes'\ncopy_cmd = '".to_owned();
                s.append(cmd);
                s.append("'");
                Ok(s)
            },
            None => Err(TheWayError { kind: LostTheWay::NoDefaultCopyCommand, suggestion: None }),
        }
    }

    /// Resolves the location of the active configuration file from the
    /// override value read from the environment and the existence of the path
    /// it names: the override path itself when set and existing; a failure
    /// naming that exact path when set and missing; otherwise the
    /// platform-standard configuration file path, which need not pre-exist.
    pub fn get(env_value: Option<String>, override_exists: bool) -> (r: Result<
        String,
        TheWayError,
    >)
        ensures
            env_value matches Some(file) ==> (override_exists ==> (r matches Ok(p) && p@
                == file@)),
            env_value matches Some(file) ==> (!override_exists ==> (r matches Err(e) && e@
                == spec_no_such_file_error(file@))),
            env_value is None ==> (r matches Ok(p) ==> exists|dir: Seq<char>| p@ == dir
                + "default-config.toml"@),
            env_value is None ==> (r matches Err(e) ==> e@.kind is ConfigError && e@.suggestion
                is None),
    {
        let platform = platform_config_path();
        resolve_with_platform(env_value, override_exists, platform)
    }
}

} // verus!
