use flute_cli_mcp::config::{
    is_executable_file, truthy, BinaryProbe, Config, ConfigError, EnvVars, FileFacts, Profile,
};

const FAKE_BIN: &str = "/tmp/fake-flute/flute";

/// What the file system reports for a freshly written `flute` script with the given mode.
fn probe(mode: u32) -> BinaryProbe {
    BinaryProbe {
        flute_bin: Some(FileFacts { is_file: true, mode: 0o100000 | mode }),
        on_path: None,
    }
}

fn env_with_bin() -> EnvVars {
    EnvVars { binary: Some(FAKE_BIN.to_string()), ..Default::default() }
}

#[test]
fn defaults_to_sandbox_30s_no_prod_writes() {
    let cfg = Config::from_env(env_with_bin(), probe(0o755)).unwrap();
    assert_eq!(cfg.profile, Profile::Sandbox);
    assert_eq!(cfg.timeout_secs, 30);
    assert!(!cfg.debug);
    assert!(!cfg.allow_prod_writes);
    assert_eq!(cfg.merchant_id, None);
    assert_eq!(cfg.binary, FAKE_BIN);
}

#[test]
fn accepts_production_and_prod_alias() {
    for value in ["production", "prod"] {
        let env = EnvVars { profile: Some(value.to_string()), ..env_with_bin() };
        assert_eq!(Config::from_env(env, probe(0o755)).unwrap().profile, Profile::Production);
    }
}

#[test]
fn reads_merchant_id_and_prod_write_override() {
    let env = EnvVars {
        merchant_id: Some("m-123".to_string()),
        allow_prod_writes: Some("1".to_string()),
        ..env_with_bin()
    };
    let cfg = Config::from_env(env, probe(0o755)).unwrap();
    assert_eq!(cfg.merchant_id.as_deref(), Some("m-123"));
    assert!(cfg.allow_prod_writes);
}

#[test]
fn false_like_values_do_not_enable_prod_writes() {
    for value in ["false", "0", "no", "off", ""] {
        let env = EnvVars { allow_prod_writes: Some(value.to_string()), ..env_with_bin() };
        assert!(
            !Config::from_env(env, probe(0o755)).unwrap().allow_prod_writes,
            "value {value:?} must NOT enable production writes"
        );
    }
}

#[test]
fn truthy_values_enable_prod_writes() {
    for value in ["1", "true", "TRUE", "yes", "on"] {
        let env = EnvVars { allow_prod_writes: Some(value.to_string()), ..env_with_bin() };
        assert!(
            Config::from_env(env, probe(0o755)).unwrap().allow_prod_writes,
            "value {value:?} must enable production writes"
        );
    }
}

#[test]
fn non_executable_binary_errors() {
    // present but not executable
    assert!(matches!(
        Config::from_env(env_with_bin(), probe(0o644)),
        Err(ConfigError::BinaryUnusable(_))
    ));
}

#[test]
fn rejects_unknown_profile() {
    let env = EnvVars { profile: Some("staging".to_string()), ..env_with_bin() };
    assert!(
        matches!(Config::from_env(env, probe(0o755)), Err(ConfigError::InvalidProfile(s)) if s == "staging")
    );
}

#[test]
fn missing_binary_errors() {
    let env = EnvVars { binary: Some("/nope/does/not/exist".to_string()), ..Default::default() };
    let nothing_there = BinaryProbe { flute_bin: None, on_path: None };
    assert!(matches!(Config::from_env(env, nothing_there), Err(ConfigError::BinaryUnusable(_))));
}

#[test]
fn empty_profile_is_sandbox_and_empty_merchant_is_unset() {
    let env = EnvVars {
        profile: Some(String::new()),
        merchant_id: Some(String::new()),
        ..env_with_bin()
    };
    let cfg = Config::from_env(env, probe(0o755)).unwrap();
    assert_eq!(cfg.profile, Profile::Sandbox);
    assert_eq!(cfg.merchant_id, None);
}

#[test]
fn unset_binary_falls_back_to_path_lookup() {
    let found = BinaryProbe { flute_bin: None, on_path: Some("/usr/local/bin/flute".to_string()) };
    let cfg = Config::from_env(EnvVars::default(), found).unwrap();
    assert_eq!(cfg.binary, "/usr/local/bin/flute");
    let empty = EnvVars { binary: Some(String::new()), ..Default::default() };
    let missing = BinaryProbe { flute_bin: None, on_path: None };
    assert!(matches!(Config::from_env(empty, missing), Err(ConfigError::BinaryNotFound)));
}

#[test]
fn timeout_must_be_a_positive_integer() {
    for (value, expected) in [("45", Some(45u64)), ("+7", Some(7)), ("0", None), ("abc", None), (" 5", None), ("", None)] {
        let env = EnvVars { timeout_secs: Some(value.to_string()), ..env_with_bin() };
        match (Config::from_env(env, probe(0o755)), expected) {
            (Ok(cfg), Some(t)) => assert_eq!(cfg.timeout_secs, t),
            (Err(ConfigError::InvalidTimeout(v)), None) => assert_eq!(v, value),
            (other, _) => panic!("unexpected result for {value:?}: {other:?}"),
        }
    }
}

#[test]
fn profile_is_checked_before_timeout_and_binary() {
    let env = EnvVars {
        profile: Some("staging".to_string()),
        timeout_secs: Some("x".to_string()),
        ..Default::default()
    };
    let missing = BinaryProbe { flute_bin: None, on_path: None };
    assert!(matches!(Config::from_env(env, missing), Err(ConfigError::InvalidProfile(_))));
}

#[test]
fn config_error_messages() {
    assert_eq!(
        ConfigError::InvalidProfile("staging".to_string()).message(),
        "invalid FLUTE_PROFILE value `staging` (expected `sandbox` or `production`)"
    );
    assert_eq!(
        ConfigError::InvalidTimeout("0".to_string()).message(),
        "invalid FLUTE_MCP_TIMEOUT_SECS value `0` (expected positive integer)"
    );
    assert_eq!(
        ConfigError::BinaryNotFound.message(),
        "could not locate `flute` on PATH and FLUTE_BIN is unset"
    );
    assert_eq!(
        ConfigError::BinaryUnusable("/x".to_string()).message(),
        "FLUTE_BIN=`/x` does not exist or is not executable"
    );
}

#[test]
fn truthy_trims_and_ignores_ascii_case() {
    assert!(truthy(Some("  On\t".to_string())));
    assert!(truthy(Some("YES".to_string())));
    assert!(!truthy(Some("y".to_string())));
    assert!(!truthy(Some("tru e".to_string())));
    assert!(!truthy(None));
}

#[test]
fn executable_file_needs_a_regular_file_with_an_exec_bit() {
    assert!(is_executable_file(Some(FileFacts { is_file: true, mode: 0o100700 })));
    assert!(is_executable_file(Some(FileFacts { is_file: true, mode: 0o100001 })));
    assert!(!is_executable_file(Some(FileFacts { is_file: true, mode: 0o100666 })));
    assert!(!is_executable_file(Some(FileFacts { is_file: false, mode: 0o040755 })));
    assert!(!is_executable_file(None));
}

#[test]
fn profile_cli_names() {
    assert_eq!(Profile::Sandbox.as_cli_str(), "sandbox");
    assert_eq!(Profile::Production.as_cli_str(), "production");
}

#[test]
fn command_line_flags_win_over_the_environment() {
    let env = EnvVars {
        profile: Some("sandbox".to_string()),
        binary: Some("/from/env/flute".to_string()),
        merchant_id: Some("m-1".to_string()),
        ..Default::default()
    };
    let flagged = env.with_flags(Some("production".to_string()), Some(FAKE_BIN.to_string()));
    assert_eq!(flagged.profile.as_deref(), Some("production"));
    assert_eq!(flagged.binary.as_deref(), Some(FAKE_BIN));
    assert_eq!(flagged.merchant_id.as_deref(), Some("m-1"));
    let cfg = Config::from_env(flagged, probe(0o755)).unwrap();
    assert_eq!(cfg.profile, Profile::Production);
    assert_eq!(cfg.binary, FAKE_BIN);

    let env = EnvVars { profile: Some("prod".to_string()), ..env_with_bin() };
    let kept = env.with_flags(None, None);
    assert_eq!(kept.profile.as_deref(), Some("prod"));
    assert_eq!(kept.binary.as_deref(), Some(FAKE_BIN));
}
