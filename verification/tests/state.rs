use codex_updater::state::{
    ArtifactPaths, InstallOperation, InstallTransaction, PersistedState, UpdateStatus,
};
use codex_updater::clock::Timestamp;
use codex_updater::storage::{is_outdated, LoadError, LoadStep, SaveAction, SaveError};

fn load_ready(text: &str, auto_install: bool) -> PersistedState {
    match PersistedState::load_or_default(Some(text), auto_install) {
        Ok(LoadStep::Ready(state)) => state,
        other => panic!("{:?}", other),
    }
}

fn load_value(text: &str, auto_install: bool) -> serde_json::Value {
    match PersistedState::load_or_default(Some(text), auto_install) {
        Ok(LoadStep::Decode(value)) => value,
        other => panic!("{:?}", other),
    }
}

#[test]
fn legacy_v1_candidate_is_reset_but_rollback_is_preserved() {
    let state = load_ready(
        r#"{
          "installed_version":"1.2.3",
          "candidate_version":"legacy",
          "status":"ready_to_install",
          "artifact_paths":{"legacy_source_path":"/tmp/legacy-upstream","rollback_package_path":"/tmp/good.deb"},
          "last_known_good_version":"1.2.2"
        }"#,
        true,
    );
    assert_eq!(state.schema_version, 2);
    assert_eq!(state.candidate_version, None);
    assert_eq!(state.installed_version, "1.2.3");
    assert_eq!(
        state.artifact_paths.rollback_package_path,
        Some("/tmp/good.deb".to_string())
    );
    assert_eq!(state.last_known_good_version, Some("1.2.2".to_string()));
    assert_eq!(state.status, UpdateStatus::Idle);
}

#[test]
fn install_auth_retry_block_is_scoped_to_package_hash() {
    let mut state = PersistedState::new(true);
    state.upstream_package_sha256 = Some("candidate-a".into());

    assert!(!state.install_auth_retry_is_blocked());
    state.block_install_auth_retry();
    assert!(state.install_auth_retry_is_blocked());

    state.upstream_package_sha256 = Some("candidate-b".into());
    assert!(!state.install_auth_retry_is_blocked());
}

#[test]
fn schema_v2_state_defaults_and_round_trips_install_auth_retry_block() {
    let value = load_value(r#"{"schema_version":2}"#, true);
    assert_eq!(value.get("schema_version").and_then(|v| v.as_u64()), Some(2));

    let mut state = PersistedState::default().adopt(true);
    assert_eq!(state.install_auth_blocked_package_sha256, None);
    assert!(!state.install_after_app_exit_requested);

    state.upstream_package_sha256 = Some("candidate".into());
    state.block_install_auth_retry();
    let loaded = state.clone().adopt(true);
    assert!(loaded.install_auth_retry_is_blocked());
    assert_eq!(loaded, state);
}

#[test]
fn legacy_waiting_state_does_not_gain_explicit_install_consent() {
    let value = load_value(
        r#"{"schema_version":2,"status":"waiting_for_app_exit","waiting_for_app_exit_auto_install":false}"#,
        false,
    );
    assert_eq!(
        value.get("status").and_then(|v| v.as_str()),
        Some("waiting_for_app_exit")
    );

    let mut decoded = PersistedState::default();
    decoded.status = UpdateStatus::WaitingForAppExit;
    decoded.waiting_for_app_exit_auto_install = false;
    let state = decoded.adopt(false);
    assert_eq!(state.status, UpdateStatus::WaitingForAppExit);
    assert!(!state.waiting_for_app_exit_auto_install);
    assert!(!state.install_after_app_exit_requested);
    assert!(!state.auto_install_on_app_exit);
}

#[test]
fn new_state_is_idle_and_empty() {
    let state = PersistedState::new(false);
    assert_eq!(state.schema_version, 2);
    assert_eq!(state.installed_version, "unknown");
    assert_eq!(state.status, UpdateStatus::default());
    assert_eq!(state.status, UpdateStatus::Idle);
    assert_eq!(state.artifact_paths, ArtifactPaths::default());
    assert_eq!(state.install_transaction, None);
    assert!(!state.auto_install_on_app_exit);
    assert!(PersistedState::default().auto_install_on_app_exit);
    assert_eq!(PersistedState::default(), PersistedState::new(true));
}

#[test]
fn missing_file_gives_a_new_state() {
    match PersistedState::load_or_default(None, false) {
        Ok(LoadStep::Ready(state)) => assert_eq!(state, PersistedState::new(false)),
        other => panic!("{:?}", other),
    }
}

#[test]
fn text_that_is_not_json_is_refused() {
    assert!(matches!(
        PersistedState::load_or_default(Some("{\"schema_version\":"), true),
        Err(LoadError::Parse(_))
    ));
    assert!(matches!(
        PersistedState::load_or_default(Some(""), true),
        Err(LoadError::Parse(_))
    ));
}

#[test]
fn schema_version_that_is_no_unsigned_integer_counts_as_the_first() {
    for text in [
        r#"{"schema_version":"2","installed_version":"7"}"#,
        r#"{"schema_version":-2,"installed_version":"7"}"#,
        r#"{"schema_version":2.0,"installed_version":"7"}"#,
        r#"{"schema_version":1,"installed_version":"7"}"#,
        r#"{"schema_version":0,"installed_version":"7"}"#,
    ] {
        assert_eq!(load_ready(text, true).installed_version, "7");
    }
    assert_eq!(load_ready("[]", true), PersistedState::new(true));
    assert_eq!(load_ready("null", true), PersistedState::new(true));
    assert_eq!(load_ready("\"text\"", false), PersistedState::new(false));
    load_value(r#"{"schema_version":3}"#, true);
    assert!(is_outdated(None));
    assert!(is_outdated(Some(1)));
    assert!(!is_outdated(Some(2)));
}

#[test]
fn a_value_to_decode_is_handed_on_whole() {
    let text = r#"{"schema_version":2,"status":[],"extra":{"empty":{},"deep":[1,-2,0.5,null]}}"#;
    let expected: serde_json::Value = serde_json::from_str(text).unwrap();
    assert_eq!(load_value(text, true), expected);
}

#[test]
fn legacy_facts_of_the_wrong_type_are_not_kept() {
    let state = load_ready(
        r#"{"installed_version":5,"last_known_good_version":null,"artifact_paths":["rollback_package_path"]}"#,
        true,
    );
    assert_eq!(state, PersistedState::new(true));
    let state = load_ready(
        r#"{"artifact_paths":{"rollback_package_path":{"deeper":"x"}},"rollback_package_path":"/elsewhere"}"#,
        true,
    );
    assert_eq!(state.artifact_paths.rollback_package_path, None);
    let state = load_ready(r#"{"/artifact_paths/rollback_package_path":"/x"}"#, true);
    assert_eq!(state.artifact_paths.rollback_package_path, None);
}

#[test]
fn legacy_facts_are_kept_as_they_are() {
    let state = PersistedState::from_legacy(None, Some("1".into()), Some("/p".into()), true);
    assert_eq!(state.installed_version, "unknown");
    assert_eq!(state.last_known_good_version, Some("1".to_string()));
    assert_eq!(
        state.artifact_paths.rollback_package_path,
        Some("/p".to_string())
    );
}

#[test]
fn adopting_sets_layout_and_setting_only() {
    let mut decoded = PersistedState::new(true);
    decoded.schema_version = 9;
    decoded.candidate_version = Some("c".into());
    let mut expected = decoded.clone();
    expected.schema_version = 2;
    expected.auto_install_on_app_exit = false;
    assert_eq!(decoded.adopt(false), expected);
}

#[test]
fn failure_clears_everything_under_way() {
    let mut state = PersistedState::new(true);
    state.status = UpdateStatus::Installing;
    state.install_transaction = Some(InstallTransaction {
        package_path: "/tmp/codex.deb".into(),
        package_sha256: Some("fixture".into()),
        package_command: None,
        started_at: Timestamp::from_unix(1_700_000_000, 0).unwrap(),
        operation: InstallOperation::Update,
    });
    state.waiting_for_app_exit_auto_install = true;
    state.install_after_app_exit_requested = true;
    state.upstream_package_sha256 = Some("a".into());
    state.block_install_auth_retry();
    state.mark_failed("broken".into());
    assert_eq!(state.status, UpdateStatus::Failed);
    assert_eq!(state.install_transaction, None);
    assert_eq!(state.error_message, Some("broken".to_string()));
    assert!(!state.waiting_for_app_exit_auto_install);
    assert!(!state.install_after_app_exit_requested);
    assert!(!state.install_auth_retry_is_blocked());
    assert_eq!(state.upstream_package_sha256, Some("a".to_string()));
}

#[test]
fn auth_retry_block_needs_a_package_and_can_be_cleared() {
    let mut state = PersistedState::new(true);
    state.block_install_auth_retry();
    assert!(!state.install_auth_retry_is_blocked());
    state.upstream_package_sha256 = Some("a".into());
    state.block_install_auth_retry();
    state.clear_install_auth_retry_block();
    assert!(!state.install_auth_retry_is_blocked());
    assert_eq!(state.install_auth_blocked_package_sha256, None);
}

#[test]
fn saving_replaces_the_state_file_last() {
    let actions = PersistedState::save_updater(true, 4321, "{}").unwrap();
    let name = ".state-4321.tmp".to_string();
    assert_eq!(
        actions,
        vec![
            SaveAction::CreateParent,
            SaveAction::WriteTemporary {
                name: name.clone(),
                contents: "{}\n".to_string()
            },
            SaveAction::RestrictTemporary {
                name: name.clone(),
                mode: 0o600
            },
            SaveAction::ReplaceStateFile { name },
        ]
    );
}

#[test]
fn saving_needs_a_directory() {
    assert_eq!(
        PersistedState::save_updater(false, 1, "{}"),
        Err(SaveError::NoParent)
    );
    assert_eq!(SaveError::NoParent.message(), "state path has no parent");
}
