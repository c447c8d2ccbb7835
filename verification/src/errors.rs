//! The error model of the configuration core: failure kinds, the remediation
//! suggestions attached to them, and the exact texts of both.

use vstd::prelude::*;

verus! {

/// The failure kinds of the configuration core.
#[derive(Debug)]
pub enum LostTheWay {
    /// The platform offers no standard project-directory location.
    Homeless,
    /// A resolution, provisioning or persistence failure, with a
    /// human-readable message.
    ConfigError { message: String },
    /// No platform clipboard command could be determined while generating the
    /// default configuration.
    NoDefaultCopyCommand,
}

/// The mathematical value of a [`LostTheWay`]: the same shape over `Seq<char>`.
pub enum LostTheWayView {
    Homeless,
    ConfigError { message: Seq<char> },
    NoDefaultCopyCommand,
}

impl View for LostTheWay {
    type V = LostTheWayView;

    open spec fn view(&self) -> LostTheWayView {
        match self {
            LostTheWay::Homeless => LostTheWayView::Homeless,
            LostTheWay::ConfigError { message } => LostTheWayView::ConfigError {
                message: message@,
            },
            LostTheWay::NoDefaultCopyCommand => LostTheWayView::NoDefaultCopyCommand,
        }
    }
}

/// A failure together with the actionable suggestion shown to the user, where
/// one applies.
#[derive(Debug)]
pub struct TheWayError {
    pub kind: LostTheWay,
    pub suggestion: Option<String>,
}

/// The mathematical value of a [`TheWayError`].
#[verifier::ext_equal]
pub struct TheWayErrorView {
    pub kind: LostTheWayView,
    pub suggestion: Option<Seq<char>>,
}

impl View for TheWayError {
    type V = TheWayErrorView;

    open spec fn view(&self) -> TheWayErrorView {
        TheWayErrorView {
            kind: self.kind@,
            suggestion: match self.suggestion {
                Some(s) => Some(s@),
                None => None,
            },
        }
    }
}

/// The resolution-failure message for an override path that does not exist.
pub open spec fn no_such_file_text(file: Seq<char>) -> Seq<char> {
    "No such file "@ + file
}

/// Builds the resolution-failure message for a missing override path.
pub fn no_such_file_message(file: &str) -> (r: String)
    ensures
        r@ == no_such_file_text(file@),
{
    let mut r = "No such file ".to_owned();
    r.append(file);
    r
}

/// The suggestion attached to a missing-override failure: generate a default
/// configuration at that exact path.
pub open spec fn default_config_suggestion_text(file: Seq<char>) -> Seq<char> {
    "Use `the-way config default "@ + file + "` to write out the default configuration"@
}

/// Builds the suggestion attached to a missing-override failure.
pub fn default_config_suggestion(file: &str) -> (r: String)
    ensures
        r@ == default_config_suggestion_text(file@),
{
    let mut r = "Use `the-way config default ".to_owned();
    r.append(file);
    r.append("` to write out the default configuration");
    r
}

/// The suggestion attached to a store failure: point the override variable at
/// a writable location.
pub open spec fn write_access_suggestion_text() -> Seq<char> {
    "The current config_file location does not seem to have write access. Use `export THE_WAY_CONFIG=<full/path/to/config_file.toml>` to set a new location"@
}

/// Builds the suggestion attached to a store failure.
pub fn write_access_suggestion() -> (r: String)
    ensures
        r@ == write_access_suggestion_text(),
{
    "The current config_file location does not seem to have write access. Use `export THE_WAY_CONFIG=<full/path/to/config_file.toml>` to set a new location".to_owned()
}

/// The suggestion attached to a failure of the platform-default load: write a
/// default configuration elsewhere and point the override variable at it.
pub open spec fn default_location_suggestion_text() -> Seq<char> {
    "Couldn't load from the default config location, maybe you don't have access? Try running `the-way config default config_file.toml`, modify the generated file if necessary, then `export THE_WAY_CONFIG=<full/path/to/config_file.toml>`"@
}

/// Builds the suggestion attached to a failure of the platform-default load.
pub fn default_location_suggestion() -> (r: String)
    ensures
        r@ == default_location_suggestion_text(),
{
    "Couldn't load from the default config location, maybe you don't have access? Try running `the-way config default config_file.toml`, modify the generated file if necessary, then `export THE_WAY_CONFIG=<full/path/to/config_file.toml>`".to_owned()
}

/// The provisioning-failure message for the snippet-database directory.
pub open spec fn db_dir_failure_text(path: Seq<char>, cause: Seq<char>) -> Seq<char> {
    "Couldn't create db dir \""@ + path + "\", "@ + cause
}

/// Builds the provisioning-failure message for the snippet-database directory.
pub fn db_dir_failure_message(path: &str, cause: &str) -> (r: String)
    ensures
        r@ == db_dir_failure_text(path@, cause@),
{
    let mut r = "Couldn't create db dir \"".to_owned();
    r.append(path);
    r.append("\", ");
    r.append(cause);
    r
}

/// The provisioning-failure message for the theme-files directory.
pub open spec fn themes_dir_failure_text(path: Seq<char>, cause: Seq<char>) -> Seq<char> {
    "Couldn't create themes dir \""@ + path + "\", "@ + cause
}

/// Builds the provisioning-failure message for the theme-files directory.
pub fn themes_dir_failure_message(path: &str, cause: &str) -> (r: String)
    ensures
        r@ == themes_dir_failure_text(path@, cause@),
{
    let mut r = "Couldn't create themes dir \"".to_owned();
    r.append(path);
    r.append("\", ");
    r.append(cause);
    r
}

/// The failure produced when the override path named by the environment does
/// not exist: a `ConfigError` naming that exact path, with the suggestion to
/// generate a default configuration there.
pub open spec fn spec_no_such_file_error(file: Seq<char>) -> TheWayErrorView {
    TheWayErrorView {
        kind: LostTheWayView::ConfigError { message: no_such_file_text(file) },
        suggestion: Some(default_config_suggestion_text(file)),
    }
}

impl TheWayError {
    /// Builds the missing-override failure for the given path.
    pub fn no_such_file(file: &str) -> (r: TheWayError)
        ensures
            r@ == spec_no_such_file_error(file@),
    {
        TheWayError {
            kind: LostTheWay::ConfigError { message: no_such_file_message(file) },
            suggestion: Some(default_config_suggestion(file)),
        }
    }

    /// Wraps an underlying failure text as a `ConfigError` without a
    /// suggestion.
    pub fn config_error(message: String) -> (r: TheWayError)
        ensures
            r@ == (TheWayErrorView {
                kind: LostTheWayView::ConfigError { message: message@ },
                suggestion: None,
            }),
    {
        TheWayError { kind: LostTheWay::ConfigError { message }, suggestion: None }
    }

    /// Wraps an underlying failure text as a `ConfigError` carrying a
    /// suggestion.
    pub fn config_error_with_suggestion(message: String, suggestion: String) -> (r: TheWayError)
        ensures
            r@ == (TheWayErrorView {
                kind: LostTheWayView::ConfigError { message: message@ },
                suggestion: Some(suggestion@),
            }),
    {
        TheWayError {
            kind: LostTheWay::ConfigError { message },
            suggestion: Some(suggestion),
        }
    }
}

} // verus!
