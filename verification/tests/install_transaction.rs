use codex_updater::clock::Timestamp;
use codex_updater::install_transaction::{
    begin, begin_at, grace_expired, grace_expired_at, is_active, package_sha256,
    ABANDONED_INSTALL_GRACE,
};
use codex_updater::launch::{gated_command, CommandLine, GATED_EXEC_SCRIPT};
use codex_updater::owned_command::{
    advance_owned_command, Cleanup, CommandEvent, CommandOutput, CommandStage, OwnedCommandFailure,
};
use codex_updater::process::{
    identity_is_alive, process_identity, process_stat_path, StatFault,
};
use codex_updater::state::{
    InstallOperation, InstallTransaction, PersistedState, ProcessIdentity, UpdateStatus,
};

const STAT: &str = "4242 (sh (x) y) S 1 4242 4242 34816 4243 4194304 100 0 0 0 0 0 0 0 20 0 1 0 987654 2000000 100 18446744073709551615 1 1 0 0\n";

fn current() -> ProcessIdentity {
    process_identity(4242, STAT).unwrap()
}

fn stale() -> ProcessIdentity {
    ProcessIdentity {
        pid: current().pid,
        start_time_ticks: current().start_time_ticks.wrapping_add(1),
    }
}

fn seconds_from_now(offset: i64) -> Timestamp {
    Timestamp::from_unix(chrono::Utc::now().timestamp() + offset, 0).unwrap()
}

fn transaction(owner: Option<ProcessIdentity>, started_at: Timestamp) -> InstallTransaction {
    InstallTransaction {
        package_path: "/tmp/codex.deb".into(),
        package_sha256: Some("fixture".into()),
        package_command: owner,
        started_at,
        operation: InstallOperation::Update,
    }
}

#[test]
fn process_identity_is_pid_reuse_safe() {
    let current = current();
    assert!(identity_is_alive(&current, Some(STAT)));

    let stale = ProcessIdentity {
        pid: current.pid,
        start_time_ticks: current.start_time_ticks.wrapping_add(1),
    };
    assert!(!identity_is_alive(&stale, Some(STAT)));
    assert!(!identity_is_alive(&current, None));
    assert!(!identity_is_alive(&current, Some("garbage")));
}

#[test]
fn stale_owner_does_not_keep_install_blocked() {
    let tx = transaction(
        Some(stale()),
        seconds_from_now(-(ABANDONED_INSTALL_GRACE as i64 + 1)),
    );
    assert!(!is_active(&tx, Some(STAT)));
    assert!(grace_expired(&tx));
}

#[test]
fn future_started_at_does_not_extend_abandoned_install_grace() {
    let tx = transaction(None, seconds_from_now(3600));
    assert!(
        grace_expired(&tx),
        "a future wall-clock timestamp must not defer abandoned-install recovery"
    );
}

#[test]
fn failed_gated_spawn_is_classified_before_mutation_and_does_not_publish_daemon_owner() {
    let mut state = PersistedState::new(true);
    begin(
        &mut state,
        "candidate.deb",
        b"fixture",
        InstallOperation::Update,
    );
    assert_eq!(state.status, UpdateStatus::Installing);
    assert_eq!(
        state
            .install_transaction
            .as_ref()
            .and_then(|transaction| transaction.package_command.as_ref()),
        None,
        "pre-launch Installing state must not claim that the daemon is the package owner"
    );

    let stage = advance_owned_command(
        CommandStage::Spawn,
        CommandEvent::SpawnFailed {
            cause: "No such file or directory (os error 2)".into(),
        },
        &mut state,
    );
    let failure = match stage {
        CommandStage::Failed { failure, cleanup } => {
            assert_eq!(cleanup, Cleanup::Nothing);
            failure
        }
        _ => panic!("missing gated launcher must fail"),
    };
    assert_eq!(
        failure.error,
        "Failed to launch gated privileged package command: No such file or directory (os error 2)"
    );
    assert!(!failure.mutation_may_have_started);
    assert_eq!(
        state
            .install_transaction
            .as_ref()
            .and_then(|transaction| transaction.package_command.as_ref()),
        None
    );
}

#[test]
fn live_owner_keeps_a_transaction_active() {
    let now = seconds_from_now(0);
    assert!(is_active(&transaction(Some(current()), now), Some(STAT)));
    assert!(!is_active(&transaction(Some(current()), now), None));
    assert!(!is_active(&transaction(None, now), Some(STAT)));
    assert!(!grace_expired(&transaction(None, now)));
}

#[test]
fn grace_ends_after_exactly_its_length() {
    let start = Timestamp::from_unix(1_000, 500).unwrap();
    let tx = transaction(None, start);
    let at = |secs: i64, nanos: u32| {
        grace_expired_at(&tx, &Timestamp::from_unix(secs, nanos).unwrap())
    };
    assert!(!at(1_000, 500));
    assert!(!at(1_300, 499));
    assert!(at(1_300, 500));
    assert!(at(1_000, 499));
    assert!(at(999, 999_999_999));
    assert!(at(5_000, 0));
}

#[test]
fn grace_that_has_run_out_stays_so() {
    let tx = transaction(None, Timestamp::from_unix(1_000, 0).unwrap());
    for secs in [1_300, 1_301, 2_000, 86_400, 1_000_000_000] {
        assert!(grace_expired_at(&tx, &Timestamp::from_unix(secs, 0).unwrap()));
    }
    // A leap second at 23:54:59 counts until midnight and not after it.
    let start = 86_400 - 301;
    let tx = transaction(None, Timestamp::from_unix(start, 1_500_000_000).unwrap());
    let at = |secs: i64, nanos: u32| {
        grace_expired_at(&tx, &Timestamp::from_unix(secs, nanos).unwrap())
    };
    assert!(at(86_399, 600_000_000));
    assert!(!at(86_400, 100_000_000));
    assert!(at(86_400, 500_000_000));
}

#[test]
fn the_next_second_is_the_future_but_for_leap_seconds() {
    let midnight = transaction(None, Timestamp::from_unix(86_400, 200_000_000).unwrap());
    let at = |secs: i64, nanos: u32| {
        grace_expired_at(&midnight, &Timestamp::from_unix(secs, nanos).unwrap())
    };
    assert!(at(86_399, 999_999_999));
    assert!(at(86_399, 1_100_000_000));
    assert!(!at(86_399, 1_200_000_000));
    assert!(!at(86_400, 200_000_000));
}

#[test]
fn stat_is_counted_from_the_last_parenthesis() {
    assert_eq!(
        process_identity(4242, STAT),
        Ok(ProcessIdentity {
            pid: 4242,
            start_time_ticks: 987654
        })
    );
}

#[test]
fn stat_faults_are_told_apart() {
    assert_eq!(process_identity(1, "1 init S"), Err(StatFault::MissingTerminator));
    assert_eq!(
        process_identity(1, "1 (init) S 0 1 1"),
        Err(StatFault::MissingStartTime)
    );
    let nineteen = "1 (a) 1 2 3 4 5 6 7 8 9 10 11 12 13 14 15 16 17 18 19";
    assert_eq!(process_identity(1, nineteen), Err(StatFault::MissingStartTime));
    for (field, cause) in [
        ("x", "invalid digit found in string"),
        ("+", "invalid digit found in string"),
        ("-1", "invalid digit found in string"),
        (
            "18446744073709551616",
            "number too large to fit in target type",
        ),
    ] {
        let fault = process_identity(1, &format!("{} {}", nineteen, field)).unwrap_err();
        assert_eq!(
            fault,
            StatFault::MalformedStartTime {
                cause: cause.to_string()
            }
        );
        assert_eq!(
            fault.message(),
            format!("Malformed /proc stat process start time: {}", cause)
        );
    }
    for (field, ticks) in [
        ("0", 0),
        ("+7", 7),
        ("007", 7),
        ("18446744073709551615", u64::MAX),
    ] {
        assert_eq!(
            process_identity(1, &format!("{}\t\u{2003}{}\n", nineteen, field)),
            Ok(ProcessIdentity {
                pid: 1,
                start_time_ticks: ticks
            })
        );
    }
    assert_eq!(
        StatFault::MissingTerminator.message(),
        "Malformed /proc stat: missing process-name terminator"
    );
    assert_eq!(
        StatFault::MissingStartTime.message(),
        "Malformed /proc stat: missing process start time"
    );
}

#[test]
fn stat_path_names_the_process() {
    assert_eq!(process_stat_path(0), "/proc/0/stat");
    assert_eq!(process_stat_path(4294967295), "/proc/4294967295/stat");
}

#[test]
fn package_digest_is_sha256_in_lower_case_hex() {
    assert_eq!(
        package_sha256(b""),
        "e3b0c44298fc1c149afbf4c8996fb92427ae41e4649b934ca495991b7852b855"
    );
    assert_eq!(
        package_sha256(b"abc"),
        "ba7816bf8f01cfea414140de5dae2223b00361a396177a9cb410ff61f20015ad"
    );
}

#[test]
fn beginning_records_package_digest_and_operation() {
    let mut state = PersistedState::new(true);
    state.error_message = Some("old".into());
    state.candidate_version = Some("c".into());
    let started_at = Timestamp::from_unix(77, 5).unwrap();
    begin_at(
        &mut state,
        "/p.deb",
        "digest".into(),
        started_at,
        InstallOperation::Rollback,
    );
    let mut expected = PersistedState::new(true);
    expected.candidate_version = Some("c".into());
    expected.status = UpdateStatus::Installing;
    expected.install_transaction = Some(InstallTransaction {
        package_path: "/p.deb".into(),
        package_sha256: Some("digest".into()),
        package_command: None,
        started_at,
        operation: InstallOperation::Rollback,
    });
    assert_eq!(state, expected);

    let before = chrono::Utc::now().timestamp();
    begin(&mut state, "/p.deb", b"abc", InstallOperation::Update);
    let after = chrono::Utc::now().timestamp();
    let tx = state.install_transaction.unwrap();
    assert_eq!(
        tx.package_sha256.as_deref(),
        Some("ba7816bf8f01cfea414140de5dae2223b00361a396177a9cb410ff61f20015ad")
    );
    assert!(before <= tx.started_at.unix_seconds() && tx.started_at.unix_seconds() <= after);
}

#[test]
fn gate_keeps_command_environment_and_directory() {
    let command = CommandLine {
        program: b"/usr/bin/pkexec".to_vec(),
        args: vec![b"a b".to_vec(), vec![0xff, 0xfe]],
        envs: vec![
            (b"KEEP".to_vec(), Some(b"1".to_vec())),
            (b"DROP".to_vec(), None),
        ],
        current_dir: Some(b"/tmp".to_vec()),
    };
    let launcher = gated_command(command.clone(), b"/bin/sh".to_vec());
    assert_eq!(launcher.program, b"/bin/sh".to_vec());
    assert_eq!(
        launcher.args,
        vec![
            b"-c".to_vec(),
            GATED_EXEC_SCRIPT.as_bytes().to_vec(),
            b"codex-update-launcher".to_vec(),
            b"/usr/bin/pkexec".to_vec(),
            b"a b".to_vec(),
            vec![0xff, 0xfe],
        ]
    );
    assert_eq!(launcher.envs, command.envs);
    assert_eq!(launcher.current_dir, command.current_dir);
    assert_eq!(
        GATED_EXEC_SCRIPT,
        r#"
IFS= read -r state || exit 125
[ "$state" = "go" ] || exit 125
exec "$@"
"#
    );
}

fn installing() -> PersistedState {
    let mut state = PersistedState::new(true);
    begin(&mut state, "/p.deb", b"abc", InstallOperation::Update);
    state
}

fn owner_of(state: &PersistedState) -> Option<ProcessIdentity> {
    state
        .install_transaction
        .as_ref()
        .and_then(|tx| tx.package_command.clone())
}

fn failure_of(stage: CommandStage) -> (OwnedCommandFailure, Cleanup) {
    match stage {
        CommandStage::Failed { failure, cleanup } => (failure, cleanup),
        other => panic!("{:?}", other),
    }
}

#[test]
fn command_runs_after_its_owner_is_saved() {
    let mut state = installing();
    let output = CommandOutput {
        exit_code: Some(0),
        stdout: vec![],
        stderr: vec![],
    };
    let stage = advance_owned_command(
        CommandStage::Spawn,
        CommandEvent::Spawned { pid: 4242 },
        &mut state,
    );
    assert_eq!(stage, CommandStage::Identify { pid: 4242 });
    let stage = advance_owned_command(
        stage,
        CommandEvent::StatRead { stat: STAT.into() },
        &mut state,
    );
    assert_eq!(stage, CommandStage::Publish);
    assert_eq!(owner_of(&state), Some(current()));
    let stage = advance_owned_command(stage, CommandEvent::Saved, &mut state);
    assert_eq!(stage, CommandStage::Release);
    let stage = advance_owned_command(stage, CommandEvent::Released, &mut state);
    assert_eq!(stage, CommandStage::Wait);
    let stage = advance_owned_command(
        stage,
        CommandEvent::Finished {
            output: output.clone(),
        },
        &mut state,
    );
    assert_eq!(stage, CommandStage::Completed { output });
    assert_eq!(owner_of(&state), Some(current()));
}

#[test]
fn failures_before_release_are_harmless() {
    let identify = CommandStage::Identify { pid: 4242 };
    let mut state = installing();
    let (failure, cleanup) = failure_of(advance_owned_command(
        identify.clone(),
        CommandEvent::StatUnreadable {
            cause: "gone".into(),
        },
        &mut state,
    ));
    assert_eq!(
        failure,
        OwnedCommandFailure::before_mutation(
            "Failed to identify privileged package-command owner: Failed to read /proc/4242/stat: gone"
                .into()
        )
    );
    assert_eq!(cleanup, Cleanup::KillAndReap);
    assert_eq!(owner_of(&state), None);

    let (failure, cleanup) = failure_of(advance_owned_command(
        identify.clone(),
        CommandEvent::StatRead { stat: "4242".into() },
        &mut state,
    ));
    assert_eq!(
        failure.error,
        "Failed to identify privileged package-command owner: Malformed /proc stat: missing process-name terminator"
    );
    assert!(!failure.mutation_may_have_started);
    assert_eq!(cleanup, Cleanup::KillAndReap);
    assert_eq!(owner_of(&state), None);

    let mut idle = PersistedState::new(true);
    let (failure, cleanup) = failure_of(advance_owned_command(
        identify,
        CommandEvent::StatRead { stat: STAT.into() },
        &mut idle,
    ));
    assert_eq!(
        failure.error,
        "Package command started without a durable install transaction"
    );
    assert!(!failure.mutation_may_have_started);
    assert_eq!(cleanup, Cleanup::KillAndReap);
    assert_eq!(idle, PersistedState::new(true));

    let (failure, cleanup) = failure_of(advance_owned_command(
        CommandStage::Publish,
        CommandEvent::SaveFailed {
            cause: "disk full".into(),
        },
        &mut state,
    ));
    assert_eq!(
        failure.error,
        "Failed to persist package-command ownership: disk full"
    );
    assert!(!failure.mutation_may_have_started);
    assert_eq!(cleanup, Cleanup::KillAndReap);
}

#[test]
fn failures_from_release_on_leave_the_outcome_open() {
    let mut state = installing();
    let before = state.clone();
    let (failure, cleanup) = failure_of(advance_owned_command(
        CommandStage::Release,
        CommandEvent::GateMissing,
        &mut state,
    ));
    assert_eq!(
        failure,
        OwnedCommandFailure::outcome_unknown(
            "Privileged package-command launcher has no stdin gate".into()
        )
    );
    assert_eq!(cleanup, Cleanup::CloseGateAndReap);
    let (failure, cleanup) = failure_of(advance_owned_command(
        CommandStage::Release,
        CommandEvent::ReleaseFailed {
            cause: "Broken pipe".into(),
        },
        &mut state,
    ));
    assert_eq!(
        failure.error,
        "Failed to release privileged package-command launch gate: Broken pipe"
    );
    assert!(failure.mutation_may_have_started);
    assert_eq!(cleanup, Cleanup::CloseGateAndReap);
    let (failure, cleanup) = failure_of(advance_owned_command(
        CommandStage::Wait,
        CommandEvent::WaitFailed { cause: "x".into() },
        &mut state,
    ));
    assert_eq!(
        failure.error,
        "Failed while waiting for privileged package command: x"
    );
    assert!(failure.mutation_may_have_started);
    assert_eq!(cleanup, Cleanup::Nothing);
    assert_eq!(state, before);
}

#[test]
fn unfitting_events_change_nothing() {
    let mut state = installing();
    let before = state.clone();
    let stage = advance_owned_command(CommandStage::Spawn, CommandEvent::Released, &mut state);
    assert_eq!(stage, CommandStage::Spawn);
    let ended = CommandStage::Failed {
        failure: OwnedCommandFailure::before_mutation("e".into()),
        cleanup: Cleanup::Nothing,
    };
    let stage = advance_owned_command(ended.clone(), CommandEvent::Saved, &mut state);
    assert_eq!(stage, ended);
    assert_eq!(state, before);
}

#[test]
fn only_exit_status_zero_is_success() {
    let output = |exit_code: Option<i32>| CommandOutput {
        exit_code,
        stdout: vec![],
        stderr: vec![],
    };
    assert!(output(Some(0)).success());
    assert!(!output(Some(42)).success());
    assert!(!output(None).success());
}
