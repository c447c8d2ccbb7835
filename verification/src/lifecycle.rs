//! The load and store lifecycles, as state machines.
//!
//! The caller performs the outside work — reading the environment, probing
//! for the override file, reading or writing the configuration file, creating
//! a directory — and answers each state with the outcome as a plain value.
//! Every decision between those outcomes is made here and verified: which
//! branch resolution takes, which file is read or written, which directories
//! must be provisioned before a loaded record may be returned, and which
//! failure (with which suggestion) ends the run.

use vstd::prelude::*;

use crate::configuration::ConfigView;
use crate::configuration::TheWayConfig;
use crate::configuration::opt_text;
use crate::errors::LostTheWayView;
use crate::errors::TheWayError;
use crate::errors::TheWayErrorView;
use crate::errors::spec_no_such_file_error;
use crate::errors::default_location_suggestion;
use crate::errors::default_location_suggestion_text;
use crate::errors::write_access_suggestion;
use crate::errors::write_access_suggestion_text;
use crate::errors::db_dir_failure_message;
use crate::errors::db_dir_failure_text;
use crate::errors::themes_dir_failure_message;
use crate::errors::themes_dir_failure_text;

verus! {

/// A step of the load lifecycle. Each non-terminal state names the outside
/// work the caller owes next; `Ready` and `Failed` are terminal.
pub enum LoadState {
    /// Read the override variable from the environment and probe whether the
    /// path it names exists.
    Resolving,
    /// Read and deserialize the configuration file at the override path.
    ReadingOverride { path: String },
    /// Load the configuration from the platform-default location, creating a
    /// default file there if none exists.
    ReadingDefault,
    /// Ensure the record's database directory exists, creating it and its
    /// ancestors if missing.
    MakingDbDir { config: TheWayConfig },
    /// Ensure the record's themes directory exists, creating it and its
    /// ancestors if missing.
    MakingThemesDir { config: TheWayConfig },
    /// The load succeeded: both directories were provisioned for this record.
    Ready { config: TheWayConfig },
    /// The load failed.
    Failed { error: TheWayError },
}

/// The outcome of the outside work a [`LoadState`] asked for.
pub enum LoadEvent {
    /// The override variable's value, and whether the path it names exists
    /// (meaningless when no override is set).
    Resolved { env_value: Option<String>, override_exists: bool },
    /// The configuration file was read and deserialized (or created with
    /// defaults at the platform location), or failed with the given text.
    Fetched { result: Result<TheWayConfig, String> },
    /// The database directory exists now, or its creation failed with the
    /// given text.
    DbDirMade { error: Option<String> },
    /// The themes directory exists now, or its creation failed with the given
    /// text.
    ThemesDirMade { error: Option<String> },
}

/// The mathematical value of a [`LoadState`].
#[verifier::ext_equal]
pub enum LoadStateView {
    Resolving,
    ReadingOverride { path: Seq<char> },
    ReadingDefault,
    MakingDbDir { config: ConfigView },
    MakingThemesDir { config: ConfigView },
    Ready { config: ConfigView },
    Failed { error: TheWayErrorView },
}

/// The mathematical value of a [`LoadEvent`].
#[verifier::ext_equal]
pub enum LoadEventView {
    Resolved { env_value: Option<Seq<char>>, override_exists: bool },
    Fetched { result: Result<ConfigView, Seq<char>> },
    DbDirMade { error: Option<Seq<char>> },
    ThemesDirMade { error: Option<Seq<char>> },
}

impl View for LoadState {
    type V = LoadStateView;

    open spec fn view(&self) -> LoadStateView {
        match self {
            LoadState::Resolving => LoadStateView::Resolving,
            LoadState::ReadingOverride { path } => LoadStateView::ReadingOverride { path: path@ },
            LoadState::ReadingDefault => LoadStateView::ReadingDefault,
            LoadState::MakingDbDir { config } => LoadStateView::MakingDbDir { config: config@ },
            LoadState::MakingThemesDir { config } => LoadStateView::MakingThemesDir {
                config: config@,
            },
            LoadState::Ready { config } => LoadStateView::Ready { config: config@ },
            LoadState::Failed { error } => LoadStateView::Failed { error: error@ },
        }
    }
}

impl View for LoadEvent {
    type V = LoadEventView;

    open spec fn view(&self) -> LoadEventView {
        match self {
            LoadEvent::Resolved { env_value, override_exists } => LoadEventView::Resolved {
                env_value: opt_text(*env_value),
                override_exists: *override_exists,
            },
            LoadEvent::Fetched { result } => LoadEventView::Fetched {
                result: match result {
                    Ok(config) => Ok(config@),
                    Err(cause) => Err(cause@),
                },
            },
            LoadEvent::DbDirMade { error } => LoadEventView::DbDirMade {
                error: opt_text(*error),
            },
            LoadEvent::ThemesDirMade { error } => LoadEventView::ThemesDirMade {
                error: opt_text(*error),
            },
        }
    }
}

/// The load transition relation. An event that does not answer the state
/// (including any event in a terminal state) leaves the state unchanged.
pub open spec fn load_transition(s: LoadStateView, e: LoadEventView) -> LoadStateView {
    match (s, e) {
        (
            LoadStateView::Resolving,
            LoadEventView::Resolved { env_value, override_exists },
        ) => match env_value {
            Some(file) => if override_exists {
                LoadStateView::ReadingOverride { path: file }
            } else {
                LoadStateView::Failed { error: spec_no_such_file_error(file) }
            },
            None => LoadStateView::ReadingDefault,
        },
        (LoadStateView::ReadingOverride { .. }, LoadEventView::Fetched { result }) => match result {
            Ok(config) => LoadStateView::MakingDbDir { config },
            Err(cause) => LoadStateView::Failed {
                error: TheWayErrorView {
                    kind: LostTheWayView::ConfigError { message: cause },
                    suggestion: None,
                },
            },
        },
        (LoadStateView::ReadingDefault, LoadEventView::Fetched { result }) => match result {
            Ok(config) => LoadStateView::MakingDbDir { config },
            Err(cause) => LoadStateView::Failed {
                error: TheWayErrorView {
                    kind: LostTheWayView::ConfigError { message: cause },
                    suggestion: Some(default_location_suggestion_text()),
                },
            },
        },
        (LoadStateView::MakingDbDir { config }, LoadEventView::DbDirMade { error }) => match error {
            None => LoadStateView::MakingThemesDir { config },
            Some(cause) => LoadStateView::Failed {
                error: TheWayErrorView {
                    kind: LostTheWayView::ConfigError {
                        message: db_dir_failure_text(config.db_dir, cause),
                    },
                    suggestion: None,
                },
            },
        },
        (
            LoadStateView::MakingThemesDir { config },
            LoadEventView::ThemesDirMade { error },
        ) => match error {
            None => LoadStateView::Ready { config },
            Some(cause) => LoadStateView::Failed {
                error: TheWayErrorView {
                    kind: LostTheWayView::ConfigError {
                        message: themes_dir_failure_text(config.themes_dir, cause),
                    },
                    suggestion: None,
                },
            },
        },
        (s, _) => s,
    }
}

/// Advances the load lifecycle by one step.
pub fn load_step(state: LoadState, event: LoadEvent) -> (r: LoadState)
    ensures
        r@ == load_transition(state@, event@),
{
    match (state, event) {
        (LoadState::Resolving, LoadEvent::Resolved { env_value, override_exists }) => {
            match env_value {
                Some(file) => {
                    if override_exists {
                        LoadState::ReadingOverride { path: file }
                    } else {
                        LoadState::Failed { error: TheWayError::no_such_file(file.as_str()) }
                    }
                },
                None => LoadState::ReadingDefault,
            }
        },
        (LoadState::ReadingOverride { path: _ }, LoadEvent::Fetched { result }) => match result {
            Ok(config) => LoadState::MakingDbDir { config },
            Err(cause) => LoadState::Failed { error: TheWayError::config_error(cause) },
        },
        (LoadState::ReadingDefault, LoadEvent::Fetched { result }) => match result {
            Ok(config) => LoadState::MakingDbDir { config },
            Err(cause) => LoadState::Failed {
                error: TheWayError::config_error_with_suggestion(
                    cause,
                    default_location_suggestion(),
                ),
            },
        },
        (LoadState::MakingDbDir { config }, LoadEvent::DbDirMade { error }) => match error {
            None => LoadState::MakingThemesDir { config },
            Some(cause) => LoadState::Failed {
                error: TheWayError::config_error(
                    db_dir_failure_message(config.db_dir.as_str(), cause.as_str()),
                ),
            },
        },
        (LoadState::MakingThemesDir { config }, LoadEvent::ThemesDirMade { error }) => match error {
            None => LoadState::Ready { config },
            Some(cause) => LoadState::Failed {
                error: TheWayError::config_error(
                    themes_dir_failure_message(config.themes_dir.as_str(), cause.as_str()),
                ),
            },
        },
        (s, _) => s,
    }
}

/// A step of the store lifecycle for one given record.
pub enum StoreState {
    /// Read the override variable from the environment and probe whether the
    /// path it names exists.
    Resolving { config: TheWayConfig },
    /// Serialize the record and write it: to the target path when one is
    /// given, otherwise to the platform-default location.
    Writing { target: Option<String>, config: TheWayConfig },
    /// The store succeeded.
    Done,
    /// The store failed.
    Failed { error: TheWayError },
}

/// The outcome of the outside work a [`StoreState`] asked for.
pub enum StoreEvent {
    /// The override variable's value, and whether the path it names exists
    /// (meaningless when no override is set).
    Resolved { env_value: Option<String>, override_exists: bool },
    /// The record was serialized and written, or that failed with the given
    /// text.
    Written { error: Option<String> },
}

/// The mathematical value of a [`StoreState`].
#[verifier::ext_equal]
pub enum StoreStateView {
    Resolving { config: ConfigView },
    Writing { target: Option<Seq<char>>, config: ConfigView },
    Done,
    Failed { error: TheWayErrorView },
}

/// The mathematical value of a [`StoreEvent`].
#[verifier::ext_equal]
pub enum StoreEventView {
    Resolved { env_value: Option<Seq<char>>, override_exists: bool },
    Written { error: Option<Seq<char>> },
}

impl View for StoreState {
    type V = StoreStateView;

    open spec fn view(&self) -> StoreStateView {
        match self {
            StoreState::Resolving { config } => StoreStateView::Resolving { config: config@ },
            StoreState::Writing { target, config } => StoreStateView::Writing {
                target: opt_text(*target),
                config: config@,
            },
            StoreState::Done => StoreStateView::Done,
            StoreState::Failed { error } => StoreStateView::Failed { error: error@ },
        }
    }
}

impl View for StoreEvent {
    type V = StoreEventView;

    open spec fn view(&self) -> StoreEventView {
        match self {
            StoreEvent::Resolved { env_value, override_exists } => StoreEventView::Resolved {
                env_value: opt_text(*env_value),
                override_exists: *override_exists,
            },
            StoreEvent::Written { error } => StoreEventView::Written { error: opt_text(*error) },
        }
    }
}

/// The store transition relation. An event that does not answer the state
/// (including any event in a terminal state) leaves the state unchanged.
pub open spec fn store_transition(s: StoreStateView, e: StoreEventView) -> StoreStateView {
    match (s, e) {
        (
            StoreStateView::Resolving { config },
            StoreEventView::Resolved { env_value, override_exists },
        ) => match env_value {
            Some(file) => if override_exists {
                StoreStateView::Writing { target: Some(file), config }
            } else {
                StoreStateView::Failed { error: spec_no_such_file_error(file) }
            },
            None => StoreStateView::Writing { target: None, config },
        },
        (StoreStateView::Writing { .. }, StoreEventView::Written { error }) => match error {
            None => StoreStateView::Done,
            Some(cause) => StoreStateView::Failed {
                error: TheWayErrorView {
                    kind: LostTheWayView::ConfigError { message: cause },
                    suggestion: Some(write_access_suggestion_text()),
                },
            },
        },
        (s, _) => s,
    }
}

/// Advances the store lifecycle by one step.
pub fn store_step(state: StoreState, event: StoreEvent) -> (r: StoreState)
    ensures
        r@ == store_transition(state@, event@),
{
    match (state, event) {
        (StoreState::Resolving { config }, StoreEvent::Resolved { env_value, override_exists }) => {
            match env_value {
                Some(file) => {
                    if override_exists {
                        StoreState::Writing { target: Some(file), config }
                    } else {
                        StoreState::Failed { error: TheWayError::no_such_file(file.as_str()) }
                    }
                },
                None => StoreState::Writing { target: None, config },
            }
        },
        (StoreState::Writing { target: _, config: _ }, StoreEvent::Written { error }) => {
            match error {
                None => StoreState::Done,
                Some(cause) => StoreState::Failed {
                    error: TheWayError::config_error_with_suggestion(
                        cause,
                        write_access_suggestion(),
                    ),
                },
            }
        },
        (s, _) => s,
    }
}

} // verus!
