use the_way::configuration::TheWayConfig;
use the_way::errors::LostTheWay;
use the_way::lifecycle::{load_step, store_step, LoadEvent, LoadState, StoreEvent, StoreState};

fn sample_record() -> TheWayConfig {
    TheWayConfig::default_record_at("/data/the-way", Some("wl-copy".to_string()))
}

fn assert_records_equal(a: &TheWayConfig, b: &TheWayConfig) {
    assert_eq!(a.theme, b.theme);
    assert_eq!(a.db_dir, b.db_dir);
    assert_eq!(a.themes_dir, b.themes_dir);
    assert_eq!(a.copy_cmd, b.copy_cmd);
    assert_eq!(a.github_access_token, b.github_access_token);
    assert_eq!(a.gist_id, b.gist_id);
}

#[test]
fn load_reads_override_when_it_exists() {
    let s = load_step(
        LoadState::Resolving,
        LoadEvent::Resolved {
            env_value: Some("/tmp/way.toml".to_string()),
            override_exists: true,
        },
    );
    match s {
        LoadState::ReadingOverride { path } => assert_eq!(path, "/tmp/way.toml"),
        _ => panic!("an existing override must be read, never the platform default"),
    }
}

#[test]
fn load_fails_on_missing_override() {
    let s = load_step(
        LoadState::Resolving,
        LoadEvent::Resolved {
            env_value: Some("/tmp/missing.toml".to_string()),
            override_exists: false,
        },
    );
    match s {
        LoadState::Failed { error } => {
            match error.kind {
                LostTheWay::ConfigError { message } => {
                    assert_eq!(message, "No such file /tmp/missing.toml");
                }
                _ => panic!("a missing override is a ConfigError"),
            }
            let suggestion = error.suggestion.expect("the failure carries a suggestion");
            assert!(suggestion.contains("/tmp/missing.toml"));
            assert_eq!(
                suggestion,
                "Use `the-way config default /tmp/missing.toml` to write out the default configuration"
            );
        }
        _ => panic!("a missing override must fail the load"),
    }
}

#[test]
fn load_without_override_provisions_and_returns_the_record() {
    let record = sample_record();
    let fetched = sample_record();

    let s = load_step(
        LoadState::Resolving,
        LoadEvent::Resolved { env_value: None, override_exists: false },
    );
    assert!(matches!(s, LoadState::ReadingDefault));

    let s = load_step(s, LoadEvent::Fetched { result: Ok(fetched) });
    let s = match s {
        LoadState::MakingDbDir { config } => {
            assert_eq!(config.db_dir, "/data/the-way/the_way_db");
            LoadState::MakingDbDir { config }
        }
        _ => panic!("the record's database directory must be provisioned first"),
    };

    let s = load_step(s, LoadEvent::DbDirMade { error: None });
    let s = match s {
        LoadState::MakingThemesDir { config } => {
            assert_eq!(config.themes_dir, "/data/the-way/themes");
            LoadState::MakingThemesDir { config }
        }
        _ => panic!("the record's themes directory must be provisioned second"),
    };

    let s = load_step(s, LoadEvent::ThemesDirMade { error: None });
    match s {
        LoadState::Ready { config } => {
            assert_records_equal(&config, &record);
            assert!(!config.db_dir.is_empty());
            assert!(!config.themes_dir.is_empty());
            assert!(config.github_access_token.is_none());
            assert!(config.gist_id.is_none());
        }
        _ => panic!("both provisioned directories make the load ready"),
    }
}

#[test]
fn load_fails_when_db_dir_cannot_be_made() {
    let s = LoadState::MakingDbDir { config: sample_record() };
    let s = load_step(s, LoadEvent::DbDirMade { error: Some("permission denied".to_string()) });
    match s {
        LoadState::Failed { error } => match error.kind {
            LostTheWay::ConfigError { message } => {
                assert_eq!(
                    message,
                    "Couldn't create db dir \"/data/the-way/the_way_db\", permission denied"
                );
            }
            _ => panic!("a provisioning failure is a ConfigError"),
        },
        _ => panic!("a provisioning failure must fail the load"),
    }
}

#[test]
fn load_fails_when_themes_dir_cannot_be_made() {
    let s = LoadState::MakingThemesDir { config: sample_record() };
    let s = load_step(s, LoadEvent::ThemesDirMade { error: Some("read-only fs".to_string()) });
    match s {
        LoadState::Failed { error } => match error.kind {
            LostTheWay::ConfigError { message } => {
                assert_eq!(
                    message,
                    "Couldn't create themes dir \"/data/the-way/themes\", read-only fs"
                );
            }
            _ => panic!("a provisioning failure is a ConfigError"),
        },
        _ => panic!("a provisioning failure must fail the load"),
    }
}

#[test]
fn load_failure_from_default_location_carries_suggestion() {
    let s = load_step(
        LoadState::ReadingDefault,
        LoadEvent::Fetched { result: Err("could not write default file".to_string()) },
    );
    match s {
        LoadState::Failed { error } => {
            match error.kind {
                LostTheWay::ConfigError { message } => {
                    assert_eq!(message, "could not write default file");
                }
                _ => panic!("an underlying load failure is wrapped as a ConfigError"),
            }
            let suggestion = error.suggestion.expect("the failure carries a suggestion");
            assert!(suggestion.contains("THE_WAY_CONFIG"));
        }
        _ => panic!("a failed platform-default load must fail"),
    }
}

#[test]
fn load_failure_from_override_propagates_parse_error() {
    let s = load_step(
        LoadState::ReadingOverride { path: "/tmp/way.toml".to_string() },
        LoadEvent::Fetched { result: Err("invalid type: integer `3`".to_string()) },
    );
    match s {
        LoadState::Failed { error } => {
            match error.kind {
                LostTheWay::ConfigError { message } => {
                    assert_eq!(message, "invalid type: integer `3`");
                }
                _ => panic!("an underlying parse failure is wrapped as a ConfigError"),
            }
            assert!(error.suggestion.is_none());
        }
        _ => panic!("a failed override parse must fail the load, with no fallback"),
    }
}

#[test]
fn store_writes_to_existing_override() {
    let record = sample_record();
    let s = store_step(
        StoreState::Resolving { config: sample_record() },
        StoreEvent::Resolved {
            env_value: Some("/tmp/way.toml".to_string()),
            override_exists: true,
        },
    );
    match s {
        StoreState::Writing { target, config } => {
            assert_eq!(target.as_deref(), Some("/tmp/way.toml"));
            assert_records_equal(&config, &record);
        }
        _ => panic!("an existing override is where the store writes"),
    }
}

#[test]
fn store_fails_on_missing_override() {
    let s = store_step(
        StoreState::Resolving { config: sample_record() },
        StoreEvent::Resolved {
            env_value: Some("/tmp/missing.toml".to_string()),
            override_exists: false,
        },
    );
    match s {
        StoreState::Failed { error } => {
            match error.kind {
                LostTheWay::ConfigError { message } => {
                    assert_eq!(message, "No such file /tmp/missing.toml");
                }
                _ => panic!("a missing override is a ConfigError"),
            }
            let suggestion = error.suggestion.expect("the failure carries a suggestion");
            assert!(suggestion.contains("/tmp/missing.toml"));
        }
        _ => panic!("a missing override must fail the store"),
    }
}

#[test]
fn store_write_failure_suggests_new_location() {
    let s = store_step(
        StoreState::Writing { target: None, config: sample_record() },
        StoreEvent::Written { error: Some("Permission denied (os error 13)".to_string()) },
    );
    match s {
        StoreState::Failed { error } => {
            match error.kind {
                LostTheWay::ConfigError { message } => {
                    assert_eq!(message, "Permission denied (os error 13)");
                }
                _ => panic!("an underlying write failure is wrapped as a ConfigError"),
            }
            assert_eq!(
                error.suggestion.as_deref(),
                Some(
                    "The current config_file location does not seem to have write access. Use `export THE_WAY_CONFIG=<full/path/to/config_file.toml>` to set a new location"
                )
            );
        }
        _ => panic!("a failed write must fail the store"),
    }
}

#[test]
fn store_then_load_round_trips_the_record() {
    let record = sample_record();

    // Store over an existing override path.
    let s = store_step(
        StoreState::Resolving { config: sample_record() },
        StoreEvent::Resolved {
            env_value: Some("/tmp/way.toml".to_string()),
            override_exists: true,
        },
    );
    let written = match s {
        StoreState::Writing { target, config } => {
            assert_eq!(target.as_deref(), Some("/tmp/way.toml"));
            config
        }
        _ => panic!("resolution must reach the write"),
    };
    let s = store_step(
        StoreState::Writing { target: Some("/tmp/way.toml".to_string()), config: sample_record() },
        StoreEvent::Written { error: None },
    );
    assert!(matches!(s, StoreState::Done));

    // Load over the same resolution; the reader hands back what was written.
    let s = load_step(
        LoadState::Resolving,
        LoadEvent::Resolved {
            env_value: Some("/tmp/way.toml".to_string()),
            override_exists: true,
        },
    );
    match &s {
        LoadState::ReadingOverride { path } => assert_eq!(path, "/tmp/way.toml"),
        _ => panic!("the load must read where the store wrote"),
    }
    let s = load_step(s, LoadEvent::Fetched { result: Ok(written) });
    let s = load_step(s, LoadEvent::DbDirMade { error: None });
    let s = load_step(s, LoadEvent::ThemesDirMade { error: None });
    match s {
        LoadState::Ready { config } => assert_records_equal(&config, &record),
        _ => panic!("the load of a just-stored record must succeed"),
    }
}
