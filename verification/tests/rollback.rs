use codex_updater::owned_command::{
    advance_owned_command, CommandEvent, CommandOutput, CommandStage, OwnedCommandFailure,
};
use codex_updater::rollback::{
    advance_rollback, exit_failure_message, record_current_package_as_known_good, record_rollback,
    RollbackEvent, RollbackPlan, RollbackStage,
};
use codex_updater::state::{InstallOperation, PersistedState, ProcessIdentity, UpdateStatus};

fn bad_state() -> PersistedState {
    let mut state = PersistedState::new(true);
    state.status = UpdateStatus::Installed;
    state.installed_version = "bad-local".into();
    state.artifact_paths.rollback_package_path = Some("known-good.deb".into());
    state
}

fn step(stage: RollbackStage, event: RollbackEvent, state: &mut PersistedState) -> RollbackStage {
    advance_rollback(stage, event, state)
}

fn until_command(state: &mut PersistedState) -> RollbackStage {
    let stage = step(
        RollbackStage::CheckApp,
        RollbackEvent::AppChecked { running: false },
        state,
    );
    assert_eq!(
        stage,
        RollbackStage::CheckPackage {
            package: "known-good.deb".into()
        }
    );
    let stage = step(stage, RollbackEvent::PackageChecked { is_file: true }, state);
    let stage = step(
        stage,
        RollbackEvent::PackageRead {
            package: b"fixture package".to_vec(),
        },
        state,
    );
    assert!(matches!(stage, RollbackStage::SaveTransaction { .. }));
    assert_eq!(state.status, UpdateStatus::Installing);
    let stage = step(stage, RollbackEvent::Saved, state);
    assert!(matches!(stage, RollbackStage::LocateUpdater { .. }));
    let stage = step(stage, RollbackEvent::UpdaterLocated, state);
    assert!(matches!(stage, RollbackStage::RunCommand { .. }));
    stage
}

fn output(exit_code: Option<i32>, stderr: &[u8]) -> CommandOutput {
    CommandOutput {
        exit_code,
        stdout: vec![],
        stderr: stderr.to_vec(),
    }
}

#[test]
fn current_package_becomes_the_single_rollback_artifact() {
    let package = "codex.deb".to_string();
    let mut state = PersistedState::new(true);
    state.installed_version = "26.1".into();
    state.artifact_paths.package_path = Some(package.clone());
    record_current_package_as_known_good(&mut state, true);
    assert_eq!(state.artifact_paths.rollback_package_path, Some(package));
    assert_eq!(state.last_known_good_version, Some("26.1".to_string()));
}

#[test]
fn nonzero_exit_after_gate_release_preserves_rollback_recovery_evidence() {
    let mut state = bad_state();
    let stage = until_command(&mut state);
    let stage = step(
        stage,
        RollbackEvent::CommandCompleted {
            output: output(Some(42), b" \tboom\r\n"),
        },
        &mut state,
    );
    assert_eq!(
        stage,
        RollbackStage::Failed {
            error: "privileged rollback exited unsuccessfully after package mutation may have started: boom".into()
        },
        "forced post-release rollback failure must surface"
    );
    assert_eq!(state.status, UpdateStatus::Installing);
    assert!(
        state.install_transaction.is_some(),
        "post-release rollback failure must preserve durable recovery evidence"
    );
}

#[test]
fn package_is_known_good_only_if_installed_settled_and_there() {
    let mut state = PersistedState::new(true);
    state.artifact_paths.package_path = Some("p".into());
    let before = state.clone();
    record_current_package_as_known_good(&mut state, true);
    assert_eq!(state, before);

    state.installed_version = "1".into();
    let before = state.clone();
    record_current_package_as_known_good(&mut state, false);
    assert_eq!(state, before);

    state.candidate_version = Some("2".into());
    let before = state.clone();
    record_current_package_as_known_good(&mut state, true);
    assert_eq!(state, before);

    state.candidate_version = None;
    state.artifact_paths.package_path = None;
    let before = state.clone();
    record_current_package_as_known_good(&mut state, true);
    assert_eq!(state, before);
}

#[test]
fn known_good_record_takes_the_upstream_facts_along() {
    let mut state = PersistedState::new(true);
    state.installed_version = "1".into();
    state.installed_upstream_version = Some("u".into());
    state.installed_upstream_sha256 = Some("s".into());
    state.artifact_paths.package_path = Some("p".into());
    record_current_package_as_known_good(&mut state, true);
    assert_eq!(state.last_known_good_upstream_version, Some("u".to_string()));
    assert_eq!(state.last_known_good_upstream_sha256, Some("s".to_string()));
    let once = state.clone();
    record_current_package_as_known_good(&mut state, true);
    assert_eq!(state, once);
}

#[test]
fn rollback_is_declined_while_the_app_runs() {
    let mut state = bad_state();
    let stage = step(
        RollbackStage::CheckApp,
        RollbackEvent::AppChecked { running: true },
        &mut state,
    );
    assert_eq!(
        stage,
        RollbackStage::Declined {
            notice: "ChatGPT Community is running. Close it before rollback.".into()
        }
    );
    assert_eq!(state, bad_state());
}

#[test]
fn rollback_is_declined_without_a_package() {
    let notice = RollbackStage::Declined {
        notice: "No rollback package is available.".into(),
    };
    let mut state = PersistedState::new(true);
    let stage = step(
        RollbackStage::CheckApp,
        RollbackEvent::AppChecked { running: false },
        &mut state,
    );
    assert_eq!(stage, notice);
    let mut state = bad_state();
    let stage = step(
        RollbackStage::CheckPackage {
            package: "known-good.deb".into(),
        },
        RollbackEvent::PackageChecked { is_file: false },
        &mut state,
    );
    assert_eq!(stage, notice);
    assert_eq!(state, bad_state());
}

#[test]
fn complete_rollback_blocks_what_it_replaced() {
    let mut state = bad_state();
    state.upstream_package_sha256 = Some("bad-sha".into());
    state.last_known_good_upstream_version = Some("good-upstream".into());
    state.last_known_good_upstream_sha256 = Some("good-sha".into());
    state.error_message = Some("old".into());
    let start = state.clone();
    let stage = until_command(&mut state);
    let tx = state.install_transaction.clone().unwrap();
    assert_eq!(tx.operation, InstallOperation::Rollback);
    assert_eq!(tx.package_path, "known-good.deb");
    assert_eq!(tx.package_command, None);
    let stage = step(
        stage,
        RollbackEvent::CommandCompleted {
            output: output(Some(0), b""),
        },
        &mut state,
    );
    assert!(matches!(stage, RollbackStage::QueryVersion { .. }));
    let stage = step(
        stage,
        RollbackEvent::VersionFound {
            version: "26.0".into(),
        },
        &mut state,
    );
    let stage = step(stage, RollbackEvent::Saved, &mut state);
    assert_eq!(
        stage,
        RollbackStage::Finished {
            notice: "Rolled back codex-desktop to 26.0.".into()
        }
    );
    let mut expected = start;
    record_rollback(
        &mut expected,
        RollbackPlan {
            package: "known-good.deb".into(),
            blocked_version: Some("bad-local".into()),
            blocked_sha256: Some("bad-sha".into()),
        },
        "26.0",
    );
    assert_eq!(state, expected);
    assert_eq!(state.status, UpdateStatus::Installed);
    assert_eq!(state.install_transaction, None);
    assert_eq!(state.installed_version, "26.0");
    assert_eq!(state.installed_upstream_version, Some("good-upstream".to_string()));
    assert_eq!(state.installed_upstream_sha256, Some("good-sha".to_string()));
    assert_eq!(
        state.rollback_blocked_candidate_version,
        Some("bad-local".to_string())
    );
    assert_eq!(
        state.rollback_blocked_package_sha256,
        Some("bad-sha".to_string())
    );
    assert_eq!(
        state.artifact_paths.package_path,
        Some("known-good.deb".to_string())
    );
    assert_eq!(state.last_known_good_version, Some("26.0".to_string()));
    assert_eq!(state.error_message, None);
}

#[test]
fn pending_candidate_is_what_gets_blocked() {
    let mut state = bad_state();
    state.candidate_version = Some("candidate".into());
    let stage = step(
        RollbackStage::CheckPackage {
            package: "known-good.deb".into(),
        },
        RollbackEvent::PackageChecked { is_file: true },
        &mut state,
    );
    assert_eq!(
        stage,
        RollbackStage::ReadPackage {
            plan: RollbackPlan {
                package: "known-good.deb".into(),
                blocked_version: Some("candidate".into()),
                blocked_sha256: None,
            }
        }
    );
}

#[test]
fn harmless_launch_failure_is_recorded_and_reported() {
    let mut state = bad_state();
    let stage = until_command(&mut state);
    let stage = step(
        stage,
        RollbackEvent::CommandFailed {
            failure: OwnedCommandFailure::before_mutation("no launcher".into()),
        },
        &mut state,
    );
    let message = "Failed to launch privileged rollback: no launcher".to_string();
    assert_eq!(
        stage,
        RollbackStage::SaveFailure {
            message: message.clone()
        }
    );
    assert_eq!(state.status, UpdateStatus::Failed);
    assert_eq!(state.install_transaction, None);
    assert_eq!(state.error_message, Some(message.clone()));
    assert_eq!(
        step(stage.clone(), RollbackEvent::Saved, &mut state),
        RollbackStage::Failed { error: message }
    );
    assert_eq!(
        step(
            stage,
            RollbackEvent::SaveFailed {
                cause: "disk full".into()
            },
            &mut state
        ),
        RollbackStage::Failed {
            error: "disk full".into()
        }
    );
}

#[test]
fn unknown_outcome_keeps_the_transaction() {
    let mut state = bad_state();
    let stage = until_command(&mut state);
    let before = state.clone();
    let stage = step(
        stage,
        RollbackEvent::CommandFailed {
            failure: OwnedCommandFailure::outcome_unknown("pipe".into()),
        },
        &mut state,
    );
    assert_eq!(
        stage,
        RollbackStage::Failed {
            error: "Privileged rollback outcome is unknown: pipe".into()
        }
    );
    assert_eq!(state, before);
}

#[test]
fn failure_after_release_keeps_the_owner() {
    let mut state = bad_state();
    let rollback = until_command(&mut state);
    let command = advance_owned_command(
        CommandStage::Identify { pid: 77 },
        CommandEvent::StatRead {
            stat: "77 (sh) 1 2 3 4 5 6 7 8 9 10 11 12 13 14 15 16 17 18 19 4711".into(),
        },
        &mut state,
    );
    assert_eq!(command, CommandStage::Publish);
    let before = state.clone();
    for event in [
        RollbackEvent::CommandCompleted {
            output: output(Some(1), b""),
        },
        RollbackEvent::CommandFailed {
            failure: OwnedCommandFailure::outcome_unknown("pipe".into()),
        },
    ] {
        let stage = step(rollback.clone(), event, &mut state);
        assert!(matches!(stage, RollbackStage::Failed { .. }));
        assert_eq!(state, before);
        assert_eq!(
            state.install_transaction.as_ref().unwrap().package_command,
            Some(ProcessIdentity {
                pid: 77,
                start_time_ticks: 4711
            })
        );
        assert_eq!(
            state.artifact_paths.rollback_package_path,
            Some("known-good.deb".to_string())
        );
    }
}

#[test]
fn failures_around_the_command_are_reported() {
    let mut state = bad_state();
    assert_eq!(
        step(
            RollbackStage::CheckApp,
            RollbackEvent::AppCheckFailed { cause: "p".into() },
            &mut state
        ),
        RollbackStage::Failed { error: "p".into() }
    );
    let plan = RollbackPlan {
        package: "known-good.deb".into(),
        blocked_version: None,
        blocked_sha256: None,
    };
    assert_eq!(
        step(
            RollbackStage::ReadPackage { plan: plan.clone() },
            RollbackEvent::PackageUnreadable {
                cause: "denied".into()
            },
            &mut state
        ),
        RollbackStage::Failed {
            error: "Failed to hash install package known-good.deb: Failed to read known-good.deb: denied"
                .into()
        }
    );
    assert_eq!(state, bad_state());
    assert_eq!(
        step(
            RollbackStage::SaveTransaction { plan: plan.clone() },
            RollbackEvent::SaveFailed { cause: "s".into() },
            &mut state
        ),
        RollbackStage::Failed { error: "s".into() }
    );
    assert_eq!(
        step(
            RollbackStage::LocateUpdater { plan },
            RollbackEvent::UpdaterMissing { cause: "e".into() },
            &mut state
        ),
        RollbackStage::Failed { error: "e".into() }
    );
    assert_eq!(
        step(
            RollbackStage::SaveOutcome {
                version: "1".into()
            },
            RollbackEvent::SaveFailed { cause: "o".into() },
            &mut state
        ),
        RollbackStage::Failed { error: "o".into() }
    );
}

#[test]
fn unfitting_answers_change_nothing() {
    let mut state = bad_state();
    let stage = step(RollbackStage::CheckApp, RollbackEvent::Saved, &mut state);
    assert_eq!(stage, RollbackStage::CheckApp);
    let ended = RollbackStage::Failed { error: "e".into() };
    assert_eq!(
        step(ended.clone(), RollbackEvent::UpdaterLocated, &mut state),
        ended
    );
    assert_eq!(state, bad_state());
}

#[test]
fn stderr_is_trimmed_and_decoded() {
    assert_eq!(
        exit_failure_message("\u{3000}a b \n"),
        "privileged rollback exited unsuccessfully after package mutation may have started: a b"
    );
    let mut state = bad_state();
    let stage = until_command(&mut state);
    assert_eq!(
        step(
            stage,
            RollbackEvent::CommandCompleted {
                output: output(None, &[0xff, b'x', b'\n'])
            },
            &mut state
        ),
        RollbackStage::Failed {
            error: "privileged rollback exited unsuccessfully after package mutation may have started: \u{fffd}x".into()
        }
    );
}
