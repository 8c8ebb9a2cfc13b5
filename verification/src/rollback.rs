//! Manual rollback to the immediately previous retained native package.

use crate::clock::Timestamp;
use crate::install_transaction;
use crate::owned_command;
use crate::owned_command::{CommandOutput, OwnedCommandFailure};
use crate::state;
use crate::state::{InstallOperation, PersistedState, ProcessIdentity, UpdateStatus};
use crate::text;
use vstd::prelude::*;
use vstd::string::*;

verus! {

/// Whether the installed package can serve as a known good one: its version is known, no
/// candidate is pending, and its file is there.
pub open spec fn retainable(state: state::StateView, package_is_file: bool) -> bool {
    &&& state.installed_version != state::UNKNOWN_VERSION@
    &&& state.candidate_version is None
    &&& state.artifact_paths.package_path is Some
    &&& package_is_file
}

/// A state with the installed package on record as the one to roll back to.
pub open spec fn retained(state: state::StateView) -> state::StateView {
    state::StateView {
        last_known_good_version: Some(state.installed_version),
        last_known_good_upstream_version: state.installed_upstream_version,
        last_known_good_upstream_sha256: state.installed_upstream_sha256,
        artifact_paths: state::ArtifactView {
            rollback_package_path: state.artifact_paths.package_path,
            ..state.artifact_paths
        },
        ..state
    }
}

/// Puts the installed package on record as the one to roll back to, where it can serve as that.
/// Whether the current package path leads to a file is for the caller to find out.
pub fn record_current_package_as_known_good(state: &mut PersistedState, package_is_file: bool)
    ensures
        final(state)@ == if retainable(old(state)@, package_is_file) {
            retained(old(state)@)
        } else {
            old(state)@
        },
{
    if state.installed_version == String::from_str(state::UNKNOWN_VERSION)
        || state.candidate_version.is_some() {
        return;
    }
    if package_is_file && state.artifact_paths.package_path.is_some() {
        state.last_known_good_version = Some(state.installed_version.clone());
        state.last_known_good_upstream_version = state.installed_upstream_version.clone();
        state.last_known_good_upstream_sha256 = state.installed_upstream_sha256.clone();
        state.artifact_paths.rollback_package_path = state.artifact_paths.package_path.clone();
    }
}

/// What a rollback needs to remember while it runs.
#[derive(Debug, Clone, PartialEq, Eq)]
pub struct RollbackPlan {
    /// The package to go back to.
    pub package: String,
    /// The version that is not to be offered again.
    pub blocked_version: Option<String>,
    /// The digest of the package that is not to be offered again.
    pub blocked_sha256: Option<String>,
}

/// What a plan holds.
#[verifier::ext_equal]
pub struct PlanView {
    pub package: Seq<char>,
    pub blocked_version: Option<Seq<char>>,
    pub blocked_sha256: Option<Seq<char>>,
}

impl View for RollbackPlan {
    type V = PlanView;

    open spec fn view(&self) -> PlanView {
        PlanView {
            package: self.package@,
            blocked_version: text::text_of(self.blocked_version),
            blocked_sha256: text::text_of(self.blocked_sha256),
        }
    }
}

/// The plan to go back to a package: what is to be blocked is the pending candidate, or else what
/// is installed.
pub open spec fn plan_for(state: state::StateView, package: Seq<char>) -> PlanView {
    PlanView {
        package,
        blocked_version: match state.candidate_version {
            Some(version) => Some(version),
            None => Some(state.installed_version),
        },
        blocked_sha256: state.upstream_package_sha256,
    }
}

fn make_plan(state: &PersistedState, package: String) -> (plan: RollbackPlan)
    ensures
        plan@ == plan_for(state@, package@),
{
    RollbackPlan {
        package,
        blocked_version: match &state.candidate_version {
            Some(version) => Some(version.clone()),
            None => Some(state.installed_version.clone()),
        },
        blocked_sha256: state.upstream_package_sha256.clone(),
    }
}

/// A state after a rollback to a package, which turned out to have the given version.
pub open spec fn rolled_back(
    state: state::StateView,
    plan: PlanView,
    version: Seq<char>,
) -> state::StateView {
    state::StateView {
        status: UpdateStatus::Installed,
        install_transaction: None,
        installed_version: version,
        installed_upstream_version: state.last_known_good_upstream_version,
        installed_upstream_sha256: state.last_known_good_upstream_sha256,
        candidate_version: None,
        rollback_blocked_candidate_version: plan.blocked_version,
        rollback_blocked_package_sha256: plan.blocked_sha256,
        artifact_paths: state::ArtifactView {
            package_path: Some(plan.package),
            rollback_package_path: Some(plan.package),
            ..state.artifact_paths
        },
        last_known_good_version: Some(version),
        error_message: None,
        ..state
    }
}

/// Records a rollback that has succeeded.
pub fn record_rollback(state: &mut PersistedState, plan: RollbackPlan, version: &str)
    ensures
        final(state)@ == rolled_back(old(state)@, plan@, version@),
{
    state.status = UpdateStatus::Installed;
    state.install_transaction = None;
    state.installed_version = String::from_str(version);
    state.installed_upstream_version = state.last_known_good_upstream_version.clone();
    state.installed_upstream_sha256 = state.last_known_good_upstream_sha256.clone();
    state.candidate_version = None;
    state.rollback_blocked_candidate_version = plan.blocked_version;
    state.rollback_blocked_package_sha256 = plan.blocked_sha256;
    state.artifact_paths.package_path = Some(plan.package.clone());
    state.artifact_paths.rollback_package_path = Some(plan.package);
    state.last_known_good_version = Some(String::from_str(version));
    state.error_message = None;
}

/// How far a rollback has come, and with that what is to be done next.
#[derive(Debug, Clone, PartialEq, Eq)]
pub enum RollbackStage {
    /// Find out whether the application is running.
    CheckApp,
    /// Find out whether the package's file is there.
    CheckPackage { package: String },
    /// Read the package.
    ReadPackage { plan: RollbackPlan },
    /// Save the state, in which the transaction has begun.
    SaveTransaction { plan: RollbackPlan },
    /// Find the updater's own executable, which the privileged command runs.
    LocateUpdater { plan: RollbackPlan },
    /// Run the privileged command that installs the package.
    RunCommand { plan: RollbackPlan },
    /// Save the state, in which the failure is on record.
    SaveFailure { message: String },
    /// Find out which version is installed now.
    QueryVersion { plan: RollbackPlan },
    /// Save the state, in which the rollback is on record.
    SaveOutcome { version: String },
    /// There is nothing to be done; say why.
    Declined { notice: String },
    /// The rollback is complete; say so.
    Finished { notice: String },
    /// The rollback has failed.
    Failed { error: String },
}

/// A stage, with the texts that it holds.
pub enum StageView {
    CheckApp,
    CheckPackage { package: Seq<char> },
    ReadPackage { plan: PlanView },
    SaveTransaction { plan: PlanView },
    LocateUpdater { plan: PlanView },
    RunCommand { plan: PlanView },
    SaveFailure { message: Seq<char> },
    QueryVersion { plan: PlanView },
    SaveOutcome { version: Seq<char> },
    Declined { notice: Seq<char> },
    Finished { notice: Seq<char> },
    Failed { error: Seq<char> },
}

impl View for RollbackStage {
    type V = StageView;

    open spec fn view(&self) -> StageView {
        match *self {
            RollbackStage::CheckApp => StageView::CheckApp,
            RollbackStage::CheckPackage { package } => StageView::CheckPackage {
                package: package@,
            },
            RollbackStage::ReadPackage { plan } => StageView::ReadPackage { plan: plan@ },
            RollbackStage::SaveTransaction { plan } => StageView::SaveTransaction { plan: plan@ },
            RollbackStage::LocateUpdater { plan } => StageView::LocateUpdater { plan: plan@ },
            RollbackStage::RunCommand { plan } => StageView::RunCommand { plan: plan@ },
            RollbackStage::SaveFailure { message } => StageView::SaveFailure {
                message: message@,
            },
            RollbackStage::QueryVersion { plan } => StageView::QueryVersion { plan: plan@ },
            RollbackStage::SaveOutcome { version } => StageView::SaveOutcome {
                version: version@,
            },
            RollbackStage::Declined { notice } => StageView::Declined { notice: notice@ },
            RollbackStage::Finished { notice } => StageView::Finished { notice: notice@ },
            RollbackStage::Failed { error } => StageView::Failed { error: error@ },
        }
    }
}

/// What came of the work that a stage asked for.
#[derive(Debug, Clone, PartialEq, Eq)]
pub enum RollbackEvent {
    AppChecked { running: bool },
    AppCheckFailed { cause: String },
    PackageChecked { is_file: bool },
    PackageRead { package: Vec<u8> },
    PackageUnreadable { cause: String },
    Saved,
    SaveFailed { cause: String },
    UpdaterLocated,
    UpdaterMissing { cause: String },
    CommandCompleted { output: CommandOutput },
    CommandFailed { failure: OwnedCommandFailure },
    VersionFound { version: String },
}

/// An event, with the texts that it holds.
pub enum EventView {
    AppChecked { running: bool },
    AppCheckFailed { cause: Seq<char> },
    PackageChecked { is_file: bool },
    PackageRead { package: Seq<u8> },
    PackageUnreadable { cause: Seq<char> },
    Saved,
    SaveFailed { cause: Seq<char> },
    UpdaterLocated,
    UpdaterMissing { cause: Seq<char> },
    CommandCompleted { output: CommandOutput },
    CommandFailed { failure: owned_command::FailureView },
    VersionFound { version: Seq<char> },
}

impl View for RollbackEvent {
    type V = EventView;

    open spec fn view(&self) -> EventView {
        match *self {
            RollbackEvent::AppChecked { running } => EventView::AppChecked { running },
            RollbackEvent::AppCheckFailed { cause } => EventView::AppCheckFailed { cause: cause@ },
            RollbackEvent::PackageChecked { is_file } => EventView::PackageChecked { is_file },
            RollbackEvent::PackageRead { package } => EventView::PackageRead {
                package: package@,
            },
            RollbackEvent::PackageUnreadable { cause } => EventView::PackageUnreadable {
                cause: cause@,
            },
            RollbackEvent::Saved => EventView::Saved,
            RollbackEvent::SaveFailed { cause } => EventView::SaveFailed { cause: cause@ },
            RollbackEvent::UpdaterLocated => EventView::UpdaterLocated,
            RollbackEvent::UpdaterMissing { cause } => EventView::UpdaterMissing { cause: cause@ },
            RollbackEvent::CommandCompleted { output } => EventView::CommandCompleted { output },
            RollbackEvent::CommandFailed { failure } => EventView::CommandFailed {
                failure: failure@,
            },
            RollbackEvent::VersionFound { version } => EventView::VersionFound {
                version: version@,
            },
        }
    }
}

/// Whether an event answers what a stage asked for.
pub open spec fn answers(stage: StageView, event: EventView) -> bool {
    match stage {
        StageView::CheckApp => event is AppChecked || event is AppCheckFailed,
        StageView::CheckPackage { .. } => event is PackageChecked,
        StageView::ReadPackage { .. } => event is PackageRead || event is PackageUnreadable,
        StageView::SaveTransaction { .. } => event is Saved || event is SaveFailed,
        StageView::LocateUpdater { .. } => event is UpdaterLocated || event is UpdaterMissing,
        StageView::RunCommand { .. } => event is CommandCompleted || event is CommandFailed,
        StageView::SaveFailure { .. } => event is Saved || event is SaveFailed,
        StageView::QueryVersion { .. } => event is VersionFound,
        StageView::SaveOutcome { .. } => event is Saved || event is SaveFailed,
        StageView::Declined { .. } => false,
        StageView::Finished { .. } => false,
        StageView::Failed { .. } => false,
    }
}

/// What is said where the application is running.
pub const APP_RUNNING: &'static str = "ChatGPT Community is running. Close it before rollback.";

/// What is said where there is no package to go back to.
pub const NO_PACKAGE: &'static str = "No rollback package is available.";

/// The error for a package that cannot be read.
pub open spec fn unreadable(package: Seq<char>, cause: Seq<char>) -> Seq<char> {
    text::caused(
        "Failed to hash install package "@ + package,
        text::caused("Failed to read "@ + package, cause),
    )
}

/// The error for a privileged command that cannot have run.
pub open spec fn launch_failure(error: Seq<char>) -> Seq<char> {
    text::caused("Failed to launch privileged rollback"@, error)
}

/// The error for a privileged command that may have run and gave no result.
pub open spec fn outcome_unknown(error: Seq<char>) -> Seq<char> {
    text::caused("Privileged rollback outcome is unknown"@, error)
}

/// The error for a privileged command that ended badly, with what it had to say.
pub open spec fn exit_failure(stderr: Seq<char>) -> Seq<char> {
    text::caused(
        "privileged rollback exited unsuccessfully after package mutation may have started"@,
        text::trimmed(stderr),
    )
}

/// What is said of a rollback that is complete.
pub open spec fn completion(version: Seq<char>) -> Seq<char> {
    "Rolled back codex-desktop to "@ + version + "."@
}

/// The stage that an answer to a stage leads to.
pub open spec fn next_stage(
    stage: StageView,
    event: EventView,
    state: state::StateView,
) -> StageView {
    match (stage, event) {
        (_, EventView::AppChecked { running }) => if running {
            StageView::Declined { notice: APP_RUNNING@ }
        } else {
            match state.artifact_paths.rollback_package_path {
                Some(package) => StageView::CheckPackage { package },
                None => StageView::Declined { notice: NO_PACKAGE@ },
            }
        },
        (_, EventView::AppCheckFailed { cause }) => StageView::Failed { error: cause },
        (StageView::CheckPackage { package }, EventView::PackageChecked { is_file }) => if is_file {
            StageView::ReadPackage { plan: plan_for(state, package) }
        } else {
            StageView::Declined { notice: NO_PACKAGE@ }
        },
        (StageView::ReadPackage { plan }, EventView::PackageRead { .. }) =>
            StageView::SaveTransaction { plan },
        (
            StageView::ReadPackage { plan },
            EventView::PackageUnreadable { cause },
        ) => StageView::Failed { error: unreadable(plan.package, cause) },
        (StageView::SaveTransaction { plan }, EventView::Saved) => StageView::LocateUpdater {
            plan,
        },
        (StageView::LocateUpdater { plan }, EventView::UpdaterLocated) => StageView::RunCommand {
            plan,
        },
        (_, EventView::UpdaterMissing { cause }) => StageView::Failed { error: cause },
        (StageView::RunCommand { plan }, EventView::CommandCompleted { output }) =>
            if output.succeeded() {
                StageView::QueryVersion { plan }
            } else {
                StageView::Failed { error: exit_failure(text::lossy(output.stderr@)) }
            },
        (_, EventView::CommandFailed { failure }) => if failure.mutation_may_have_started {
            StageView::Failed { error: outcome_unknown(failure.error) }
        } else {
            StageView::SaveFailure { message: launch_failure(failure.error) }
        },
        (StageView::SaveFailure { message }, EventView::Saved) => StageView::Failed {
            error: message,
        },
        (_, EventView::VersionFound { version }) => StageView::SaveOutcome { version },
        (StageView::SaveOutcome { version }, EventView::Saved) => StageView::Finished {
            notice: completion(version),
        },
        (_, EventView::SaveFailed { cause }) => StageView::Failed { error: cause },
        _ => stage,
    }
}

/// The state after an answer to a stage that came at the given moment.
pub open spec fn next_state(
    stage: StageView,
    event: EventView,
    state: state::StateView,
    now: Timestamp,
) -> state::StateView {
    match (stage, event) {
        (
            StageView::ReadPackage { plan },
            EventView::PackageRead { package },
        ) => install_transaction::begun(
            state,
            plan.package,
            text::hex(install_transaction::sha256(package)),
            now,
            InstallOperation::Rollback,
        ),
        (_, EventView::CommandFailed { failure }) => if failure.mutation_may_have_started {
            state
        } else {
            state::failed(state, launch_failure(failure.error))
        },
        (
            StageView::QueryVersion { plan },
            EventView::VersionFound { version },
        ) => rolled_back(state, plan, version),
        _ => state,
    }
}

/// The error for a privileged command that ended badly, given what it had to say.
pub fn exit_failure_message(stderr: &str) -> (message: String)
    ensures
        message@ == exit_failure(stderr@),
{
    text::with_cause(
        "privileged rollback exited unsuccessfully after package mutation may have started",
        text::trim(stderr).as_str(),
    )
}

fn unreadable_message(package: &str, cause: &str) -> (message: String)
    ensures
        message@ == unreadable(package@, cause@),
{
    let mut hashing = String::from_str("Failed to hash install package ");
    hashing.append(package);
    let mut reading = String::from_str("Failed to read ");
    reading.append(package);
    text::with_cause(
        hashing.as_str(),
        text::with_cause(reading.as_str(), cause).as_str(),
    )
}

fn completion_message(version: &str) -> (message: String)
    ensures
        message@ == completion(version@),
{
    let mut message = String::from_str("Rolled back codex-desktop to ");
    message.append(version);
    message.append(".");
    message
}

/// Takes one step of a rollback: from the stage it is at and what came of the work asked for
/// there to the next stage. An event that does not answer the stage changes nothing. The moment
/// at which a transaction begins is whatever the clock says.
pub fn advance_rollback(
    stage: RollbackStage,
    event: RollbackEvent,
    state: &mut PersistedState,
) -> (next: RollbackStage)
    ensures
        answers(stage@, event@) ==> {
            &&& next@ == next_stage(stage@, event@, old(state)@)
            &&& final(state)@ == next_state(
                stage@,
                event@,
                old(state)@,
                final(state)@.install_transaction->0.started_at,
            )
        },
        stage@ is ReadPackage && event@ is PackageRead ==> install_transaction::clock_reading(
            final(state)@.install_transaction->0.started_at,
        ) && final(state)@.install_transaction->0.started_at.told_by_the_clock(),
        !answers(stage@, event@) ==> next == stage && final(state)@ == old(state)@,
{
    match (stage, event) {
        (RollbackStage::CheckApp, RollbackEvent::AppChecked { running }) => {
            if running {
                RollbackStage::Declined { notice: String::from_str(APP_RUNNING) }
            } else {
                match &state.artifact_paths.rollback_package_path {
                    Some(package) => RollbackStage::CheckPackage { package: package.clone() },
                    None => RollbackStage::Declined { notice: String::from_str(NO_PACKAGE) },
                }
            }
        },
        (RollbackStage::CheckApp, RollbackEvent::AppCheckFailed { cause }) => {
            RollbackStage::Failed { error: cause }
        },
        (RollbackStage::CheckPackage { package }, RollbackEvent::PackageChecked { is_file }) => {
            if is_file {
                RollbackStage::ReadPackage { plan: make_plan(state, package) }
            } else {
                RollbackStage::Declined { notice: String::from_str(NO_PACKAGE) }
            }
        },
        (RollbackStage::ReadPackage { plan }, RollbackEvent::PackageRead { package }) => {
            install_transaction::begin(
                state,
                plan.package.as_str(),
                package.as_slice(),
                InstallOperation::Rollback,
            );
            RollbackStage::SaveTransaction { plan }
        },
        (RollbackStage::ReadPackage { plan }, RollbackEvent::PackageUnreadable { cause }) => {
            RollbackStage::Failed {
                error: unreadable_message(plan.package.as_str(), cause.as_str()),
            }
        },
        (RollbackStage::SaveTransaction { plan }, RollbackEvent::Saved) => {
            RollbackStage::LocateUpdater { plan }
        },
        (RollbackStage::SaveTransaction { .. }, RollbackEvent::SaveFailed { cause }) => {
            RollbackStage::Failed { error: cause }
        },
        (RollbackStage::LocateUpdater { plan }, RollbackEvent::UpdaterLocated) => {
            RollbackStage::RunCommand { plan }
        },
        (RollbackStage::LocateUpdater { .. }, RollbackEvent::UpdaterMissing { cause }) => {
            RollbackStage::Failed { error: cause }
        },
        (RollbackStage::RunCommand { plan }, RollbackEvent::CommandCompleted { output }) => {
            if output.success() {
                RollbackStage::QueryVersion { plan }
            } else {
                // Once the command has been let go, a bad exit is no evidence that nothing was
                // changed. The transaction stays on record for recovery to account for.
                RollbackStage::Failed {
                    error: exit_failure_message(
                        text::decode_lossy(output.stderr.as_slice()).as_str(),
                    ),
                }
            }
        },
        (RollbackStage::RunCommand { .. }, RollbackEvent::CommandFailed { failure }) => {
            if failure.mutation_may_have_started {
                RollbackStage::Failed {
                    error: text::with_cause(
                        "Privileged rollback outcome is unknown",
                        failure.error.as_str(),
                    ),
                }
            } else {
                let message = text::with_cause(
                    "Failed to launch privileged rollback",
                    failure.error.as_str(),
                );
                state.mark_failed(message.clone());
                RollbackStage::SaveFailure { message }
            }
        },
        (RollbackStage::SaveFailure { message }, RollbackEvent::Saved) => {
            RollbackStage::Failed { error: message }
        },
        (RollbackStage::SaveFailure { .. }, RollbackEvent::SaveFailed { cause }) => {
            RollbackStage::Failed { error: cause }
        },
        (RollbackStage::QueryVersion { plan }, RollbackEvent::VersionFound { version }) => {
            record_rollback(state, plan, version.as_str());
            RollbackStage::SaveOutcome { version }
        },
        (RollbackStage::SaveOutcome { version }, RollbackEvent::Saved) => {
            RollbackStage::Finished { notice: completion_message(version.as_str()) }
        },
        (RollbackStage::SaveOutcome { .. }, RollbackEvent::SaveFailed { cause }) => {
            RollbackStage::Failed { error: cause }
        },
        (stage, _) => stage,
    }
}

/// The installed package becomes the one and only package to roll back to.
pub proof fn law_known_good_package_is_the_rollback_package(
    state: state::StateView,
    package_is_file: bool,
)
    requires
        retainable(state, package_is_file),
    ensures
        retained(state).artifact_paths.rollback_package_path == state.artifact_paths.package_path,
        retained(state).last_known_good_version == Some(state.installed_version),
        retainable(retained(state), package_is_file),
        retained(retained(state)) == retained(state),
{
}

/// What a rollback has installed is on record as known good already: recording it changes
/// nothing.
pub proof fn law_rolled_back_package_is_known_good(
    state: state::StateView,
    plan: PlanView,
    version: Seq<char>,
)
    ensures
        retained(rolled_back(state, plan, version)) == rolled_back(state, plan, version),
{
    let after = rolled_back(state, plan, version);
    assert(retained(after).artifact_paths =~= after.artifact_paths);
}

/// Something that happens in the course of a rollback.
pub enum Move {
    /// A stage is answered, at some moment.
    Answer { event: EventView, now: Timestamp },
    /// The privileged command, while it is being run, is put on record as the owner.
    Owned { owner: ProcessIdentity },
}

/// A rollback that is under way.
pub struct RollbackRun {
    pub stage: StageView,
    pub state: state::StateView,
}

/// A rollback after a move.
pub open spec fn run_step(run: RollbackRun, step: Move) -> RollbackRun {
    match step {
        Move::Answer { event, now } => if answers(run.stage, event) {
            RollbackRun {
                stage: next_stage(run.stage, event, run.state),
                state: next_state(run.stage, event, run.state, now),
            }
        } else {
            run
        },
        Move::Owned { owner } => if run.stage is RunCommand && run.state.install_transaction
            is Some {
            RollbackRun {
                state: state::StateView {
                    install_transaction: Some(
                        owned_command::owned(run.state.install_transaction->0, owner),
                    ),
                    ..run.state
                },
                ..run
            }
        } else {
            run
        },
    }
}

/// A rollback that starts from a state, after a sequence of moves.
pub open spec fn run_after(start: state::StateView, moves: Seq<Move>) -> RollbackRun
    decreases moves.len(),
{
    if moves.len() == 0 {
        RollbackRun { stage: StageView::CheckApp, state: start }
    } else {
        run_step(run_after(start, moves.drop_last()), moves.last())
    }
}

/// The owner that a rollback has on record: the last one put there while the privileged command
/// was being run.
pub open spec fn owner_after(start: state::StateView, moves: Seq<Move>) -> Option<ProcessIdentity>
    decreases moves.len(),
{
    if moves.len() == 0 {
        None
    } else {
        match moves.last() {
            Move::Owned { owner } => if run_after(start, moves.drop_last()).stage is RunCommand {
                Some(owner)
            } else {
                owner_after(start, moves.drop_last())
            },
            Move::Answer { .. } => owner_after(start, moves.drop_last()),
        }
    }
}

/// The plan of a rollback that starts from a state with a package to go back to.
pub open spec fn plan_of(start: state::StateView) -> PlanView {
    plan_for(start, start.artifact_paths.rollback_package_path->0)
}

/// Whether a state differs from the one that a rollback started from by the transaction that
/// accounts for it, and by nothing else.
pub open spec fn in_flight(start: state::StateView, state: state::StateView) -> bool {
    &&& start.artifact_paths.rollback_package_path is Some
    &&& state == (state::StateView {
        status: UpdateStatus::Installing,
        error_message: None,
        install_transaction: state.install_transaction,
        ..start
    })
    &&& state.install_transaction matches Some(transaction)
    &&& transaction.operation == InstallOperation::Rollback
    &&& Some(transaction.package_path) == start.artifact_paths.rollback_package_path
    &&& transaction.package_sha256 is Some
}

/// Whether a state is the one that a rollback started from after a complete rollback.
pub open spec fn is_rolled_back(start: state::StateView, state: state::StateView) -> bool {
    &&& start.artifact_paths.rollback_package_path is Some
    &&& state == rolled_back(start, plan_of(start), state.installed_version)
}

/// Whether a state is the one that a rollback started from with a launch failure on record.
pub open spec fn is_failed(start: state::StateView, state: state::StateView) -> bool {
    state.error_message is Some && state == state::failed(start, state.error_message->0)
}

/// Whether a state is in flight, with the given owner on record.
pub open spec fn in_flight_for(
    start: state::StateView,
    state: state::StateView,
    owner: Option<ProcessIdentity>,
) -> bool {
    in_flight(start, state) && state.install_transaction->0.package_command == owner
}

spec fn run_invariant(
    run: RollbackRun,
    start: state::StateView,
    owner: Option<ProcessIdentity>,
) -> bool {
    let state = run.state;
    let package = start.artifact_paths.rollback_package_path;
    match run.stage {
        StageView::CheckApp => state == start && owner is None,
        StageView::CheckPackage { package: p } => state == start && package == Some(p)
            && owner is None,
        StageView::ReadPackage { plan } => state == start && package is Some && plan == plan_of(
            start,
        ) && owner is None,
        StageView::SaveTransaction { plan } => in_flight_for(start, state, owner) && plan
            == plan_of(start) && owner is None,
        StageView::LocateUpdater { plan } => in_flight_for(start, state, owner) && plan == plan_of(
            start,
        ) && owner is None,
        StageView::RunCommand { plan } => in_flight_for(start, state, owner) && plan == plan_of(
            start,
        ),
        StageView::QueryVersion { plan } => in_flight_for(start, state, owner) && plan == plan_of(
            start,
        ),
        StageView::SaveFailure { message } => package is Some && state == state::failed(
            start,
            message,
        ),
        StageView::SaveOutcome { version } => package is Some && state == rolled_back(
            start,
            plan_of(start),
            version,
        ),
        StageView::Declined { .. } => state == start,
        StageView::Finished { notice } => is_rolled_back(start, state) && notice == completion(
            state.installed_version,
        ),
        StageView::Failed { .. } => {
            ||| state == start
            ||| in_flight_for(start, state, owner)
            ||| is_failed(start, state)
            ||| is_rolled_back(start, state)
        },
    }
}

proof fn lemma_run(start: state::StateView, moves: Seq<Move>)
    ensures
        run_invariant(run_after(start, moves), start, owner_after(start, moves)),
    decreases moves.len(),
{
    if moves.len() > 0 {
        lemma_run(start, moves.drop_last());
    }
}

/// Whatever happens, a rollback ends in one of these ways: declined, with the state as it was;
/// finished, with the package installed, retained and its predecessor blocked; or failed, with
/// the state as it was, with the transaction and its owner on record, with a harmless failure on
/// record, or with a complete rollback that could not be saved.
pub proof fn law_rollback_outcomes(start: state::StateView, moves: Seq<Move>)
    ensures
        ({
            let run = run_after(start, moves);
            &&& run.stage is Declined ==> run.state == start
            &&& run.stage is Finished ==> is_rolled_back(start, run.state)
            &&& run.stage is Failed ==> run.state == start || in_flight_for(
                start,
                run.state,
                owner_after(start, moves),
            ) || is_failed(start, run.state) || is_rolled_back(start, run.state)
        }),
{
    lemma_run(start, moves);
}

/// However a rollback goes, the layout version, the setting, the package to go back to and what
/// is known of upstream stay as they were.
pub proof fn law_rollback_keeps_layout_setting_and_package(start: state::StateView, moves: Seq<Move>)
    ensures
        ({
            let after = run_after(start, moves).state;
            &&& after.schema_version == start.schema_version
            &&& after.auto_install_on_app_exit == start.auto_install_on_app_exit
            &&& after.upstream_package_sha256 == start.upstream_package_sha256
            &&& after.artifact_paths.rollback_package_path
                == start.artifact_paths.rollback_package_path
            &&& after.last_known_good_upstream_version == start.last_known_good_upstream_version
            &&& after.last_known_good_upstream_sha256 == start.last_known_good_upstream_sha256
        }),
{
    lemma_run(start, moves);
}

/// Whether an event reports a failure of a command that may have changed something.
pub open spec fn fails_after_release(event: EventView) -> bool {
    match event {
        EventView::CommandCompleted { output } => !output.succeeded(),
        EventView::CommandFailed { failure } => failure.mutation_may_have_started,
        _ => false,
    }
}

/// Once the privileged command may have changed something, a failure keeps the transaction on
/// record: a bad exit and an unknown outcome both leave the state installing, with the
/// transaction that tells recovery what was being done, and with the owner last put there.
pub proof fn law_failure_after_release_keeps_the_evidence(
    start: state::StateView,
    moves: Seq<Move>,
    event: EventView,
    now: Timestamp,
)
    requires
        run_after(start, moves).stage is RunCommand,
        fails_after_release(event),
    ensures
        ({
            let before = run_after(start, moves);
            let after = run_step(before, Move::Answer { event, now });
            &&& after.stage is Failed
            &&& after.state == before.state
            &&& in_flight_for(start, after.state, owner_after(start, moves))
        }),
{
    lemma_run(start, moves);
}

/// Whether an event reports to a rollback how the run of its command ended.
pub open spec fn reports(event: EventView, ended: owned_command::StageView) -> bool {
    match ended {
        owned_command::StageView::Completed { output } => event
            == (EventView::CommandCompleted { output }),
        owned_command::StageView::Failed { failure, .. } => event
            == (EventView::CommandFailed { failure }),
        _ => false,
    }
}

/// A rollback with the transaction as the run of its command made it.
pub open spec fn with_command_run(
    run: RollbackRun,
    command: owned_command::CommandRun,
) -> RollbackRun {
    RollbackRun {
        state: state::StateView { install_transaction: command.transaction, ..run.state },
        ..run
    }
}

/// To a rollback, running its command changes nothing, or puts the launcher on record as the
/// owner by the identity that was found of it.
pub proof fn law_command_run_puts_its_launcher_on_record(
    start: state::StateView,
    moves: Seq<Move>,
    events: Seq<owned_command::EventView>,
)
    requires
        run_after(start, moves).stage is RunCommand,
    ensures
        ({
            let before = run_after(start, moves);
            let command = owned_command::run_after(before.state.install_transaction, events);
            let after = with_command_run(before, command);
            after == before || (command.identity is Some && after == run_step(
                before,
                Move::Owned { owner: command.identity->0 },
            ))
        }),
{
    lemma_run(start, moves);
    let before = run_after(start, moves);
    owned_command::law_only_the_owner_changes(before.state.install_transaction, events);
}

/// Where a rollback's command was let go and then failed, the transaction stays on record as the
/// run of that command last saved it: with its launcher as the owner, by the identity that was
/// found of it.
pub proof fn law_failed_command_stays_on_record_with_its_owner(
    start: state::StateView,
    moves: Seq<Move>,
    events: Seq<owned_command::EventView>,
    event: EventView,
    now: Timestamp,
)
    requires
        run_after(start, moves).stage is RunCommand,
        reports(
            event,
            owned_command::run_after(
                run_after(start, moves).state.install_transaction,
                events,
            ).stage,
        ),
        fails_after_release(event),
    ensures
        ({
            let before = run_after(start, moves);
            let command = owned_command::run_after(before.state.install_transaction, events);
            let after = run_step(with_command_run(before, command), Move::Answer { event, now });
            &&& after.stage is Failed
            &&& command.identity is Some
            &&& after.state.install_transaction == command.saved
            &&& in_flight_for(start, after.state, command.identity)
        }),
{
    lemma_run(start, moves);
    let transaction = run_after(start, moves).state.install_transaction;
    owned_command::law_only_the_owner_changes(transaction, events);
    owned_command::law_failures_are_classified(transaction, events);
    owned_command::law_release_follows_durable_ownership(transaction, events);
}

/// A failure in which the privileged command cannot have run gives the transaction up and puts
/// the failure on record instead.
pub proof fn law_harmless_failure_gives_the_transaction_up(
    start: state::StateView,
    moves: Seq<Move>,
    failure: owned_command::FailureView,
    now: Timestamp,
)
    requires
        run_after(start, moves).stage is RunCommand,
        !failure.mutation_may_have_started,
    ensures
        ({
            let after = run_step(
                run_after(start, moves),
                Move::Answer { event: EventView::CommandFailed { failure }, now },
            );
            &&& after.stage == (StageView::SaveFailure { message: launch_failure(failure.error) })
            &&& after.state == state::failed(start, launch_failure(failure.error))
            &&& after.state.install_transaction is None
        }),
{
    lemma_run(start, moves);
}

/// The privileged command runs only while the transaction that accounts for it is on record, with
/// the owner last put there.
pub proof fn law_command_runs_only_in_a_transaction(start: state::StateView, moves: Seq<Move>)
    ensures
        run_after(start, moves).stage is RunCommand ==> in_flight_for(
            start,
            run_after(start, moves).state,
            owner_after(start, moves),
        ),
{
    lemma_run(start, moves);
}

/// The installed package can be retained exactly where its version is known, no candidate is
/// pending, and it has a path that leads to a file. Retaining it puts its version, what is known
/// of its origin and its path on record as those to go back to, and touches nothing else.
pub proof fn law_retaining_records_the_installed_package(
    state: state::StateView,
    package_is_file: bool,
)
    ensures
        retainable(state, package_is_file) <==> !(state.installed_version == "unknown"@
            || state.candidate_version is Some || state.artifact_paths.package_path is None
            || !package_is_file),
        ({
            let after = retained(state);
            &&& after.last_known_good_version == Some(state.installed_version)
            &&& after.last_known_good_upstream_version == state.installed_upstream_version
            &&& after.last_known_good_upstream_sha256 == state.installed_upstream_sha256
            &&& after.artifact_paths.rollback_package_path == state.artifact_paths.package_path
            &&& after.artifact_paths.package_path == state.artifact_paths.package_path
            &&& after.artifact_paths.workspace_dir == state.artifact_paths.workspace_dir
            &&& after.artifact_paths.upstream_package_path
                == state.artifact_paths.upstream_package_path
            &&& (state::StateView {
                last_known_good_version: state.last_known_good_version,
                last_known_good_upstream_version: state.last_known_good_upstream_version,
                last_known_good_upstream_sha256: state.last_known_good_upstream_sha256,
                artifact_paths: state.artifact_paths,
                ..after
            }) == state
        }),
{
}

/// A plan goes back to the package it is made for, and blocks the pending candidate, or else the
/// installed version, together with the digest of upstream's package.
pub proof fn law_plan_blocks_what_is_replaced(state: state::StateView, package: Seq<char>)
    ensures
        plan_for(state, package).package == package,
        state.candidate_version is Some ==> plan_for(state, package).blocked_version
            == state.candidate_version,
        state.candidate_version is None ==> plan_for(state, package).blocked_version == Some(
            state.installed_version,
        ),
        plan_for(state, package).blocked_sha256 == state.upstream_package_sha256,
{
}

/// Recording a rollback, field by field: the found version is installed and known good, no
/// candidate is pending, what the plan blocks is blocked, the plan's package is the current one
/// and the one to go back to; and with these put back the state is as it was.
pub proof fn law_recorded_rollback_field_by_field(
    state: state::StateView,
    plan: PlanView,
    version: Seq<char>,
)
    ensures
        ({
            let after = rolled_back(state, plan, version);
            &&& after.status == UpdateStatus::Installed
            &&& after.install_transaction is None
            &&& after.installed_version == version
            &&& after.installed_upstream_version == state.last_known_good_upstream_version
            &&& after.installed_upstream_sha256 == state.last_known_good_upstream_sha256
            &&& after.candidate_version is None
            &&& after.rollback_blocked_candidate_version == plan.blocked_version
            &&& after.rollback_blocked_package_sha256 == plan.blocked_sha256
            &&& after.artifact_paths.package_path == Some(plan.package)
            &&& after.artifact_paths.rollback_package_path == Some(plan.package)
            &&& after.artifact_paths.workspace_dir == state.artifact_paths.workspace_dir
            &&& after.artifact_paths.upstream_package_path
                == state.artifact_paths.upstream_package_path
            &&& after.last_known_good_version == Some(version)
            &&& after.error_message is None
            &&& (state::StateView {
                status: state.status,
                install_transaction: state.install_transaction,
                installed_version: state.installed_version,
                installed_upstream_version: state.installed_upstream_version,
                installed_upstream_sha256: state.installed_upstream_sha256,
                candidate_version: state.candidate_version,
                rollback_blocked_candidate_version: state.rollback_blocked_candidate_version,
                rollback_blocked_package_sha256: state.rollback_blocked_package_sha256,
                artifact_paths: state.artifact_paths,
                last_known_good_version: state.last_known_good_version,
                error_message: state.error_message,
                ..after
            }) == state
        }),
{
}

/// Each event answers one stage, but for the outcome of saving, which answers each of the three
/// stages that save; nothing answers a rollback that has ended.
pub proof fn law_each_event_answers_its_stages(stage: StageView, event: EventView)
    ensures
        event is AppChecked || event is AppCheckFailed ==> (answers(stage, event)
            <==> stage is CheckApp),
        event is PackageChecked ==> (answers(stage, event) <==> stage is CheckPackage),
        event is PackageRead || event is PackageUnreadable ==> (answers(stage, event)
            <==> stage is ReadPackage),
        event is Saved || event is SaveFailed ==> (answers(stage, event)
            <==> stage is SaveTransaction || stage is SaveFailure || stage is SaveOutcome),
        event is UpdaterLocated || event is UpdaterMissing ==> (answers(stage, event)
            <==> stage is LocateUpdater),
        event is CommandCompleted || event is CommandFailed ==> (answers(stage, event)
            <==> stage is RunCommand),
        event is VersionFound ==> (answers(stage, event) <==> stage is QueryVersion),
{
}

/// A rollback goes through its stages in order. It is declined exactly where the application is
/// running or there is no package; the transaction begins with the package that was read; the
/// command runs after the transaction was saved and the updater found; the version is asked for
/// after a command that ended with status zero; and only a saved outcome finishes.
pub proof fn law_rollback_goes_through_its_stages_in_order(
    stage: StageView,
    event: EventView,
    state: state::StateView,
)
    requires
        answers(stage, event),
    ensures
        ({
            let next = next_stage(stage, event, state);
            let package = state.artifact_paths.rollback_package_path;
            &&& next !is CheckApp
            &&& next is CheckPackage <==> event is AppChecked && !event->running && package is Some
            &&& next is CheckPackage ==> next->package == package->0
            &&& next is Declined <==> {
                ||| event is AppChecked && (event->running || package is None)
                ||| event is PackageChecked && !event->is_file
            }
            &&& next is ReadPackage <==> event is PackageChecked && event->is_file
            &&& next is ReadPackage ==> next->ReadPackage_plan.package == stage->package
            &&& next is ReadPackage && state.candidate_version is Some
                ==> next->ReadPackage_plan.blocked_version == state.candidate_version
            &&& next is ReadPackage && state.candidate_version is None
                ==> next->ReadPackage_plan.blocked_version == Some(state.installed_version)
            &&& next is ReadPackage ==> next->ReadPackage_plan.blocked_sha256
                == state.upstream_package_sha256
            &&& next is SaveTransaction <==> event is PackageRead
            &&& next is SaveTransaction ==> next->SaveTransaction_plan == stage->ReadPackage_plan
            &&& next is LocateUpdater <==> stage is SaveTransaction && event is Saved
            &&& next is LocateUpdater ==> next->LocateUpdater_plan == stage->SaveTransaction_plan
            &&& next is RunCommand <==> event is UpdaterLocated
            &&& next is RunCommand ==> next->RunCommand_plan == stage->LocateUpdater_plan
            &&& next is QueryVersion <==> event is CommandCompleted && event->output.exit_code
                == Some(0i32)
            &&& next is QueryVersion ==> next->QueryVersion_plan == stage->RunCommand_plan
            &&& next is SaveFailure <==> event is CommandFailed
                && !event->failure.mutation_may_have_started
            &&& next is SaveOutcome <==> event is VersionFound
            &&& next is SaveOutcome ==> next->SaveOutcome_version == event->VersionFound_version
            &&& next is Finished <==> stage is SaveOutcome && event is Saved
        }),
{
}

/// What a rollback says when it ends: why it was declined, which version is installed now, or
/// what failed, ending in its cause.
pub proof fn law_rollback_says_how_it_ended(
    state: state::StateView,
    plan: PlanView,
    cause: Seq<char>,
    version: Seq<char>,
    output: CommandOutput,
)
    ensures
        next_stage(
            StageView::CheckApp,
            EventView::AppChecked { running: true },
            state,
        )->Declined_notice == "ChatGPT Community is running. Close it before rollback."@,
        state.artifact_paths.rollback_package_path is None ==> next_stage(
            StageView::CheckApp,
            EventView::AppChecked { running: false },
            state,
        )->Declined_notice == "No rollback package is available."@,
        next_stage(
            StageView::CheckPackage { package: plan.package },
            EventView::PackageChecked { is_file: false },
            state,
        )->Declined_notice == "No rollback package is available."@,
        next_stage(StageView::SaveOutcome { version }, EventView::Saved, state)->Finished_notice
            == "Rolled back codex-desktop to "@ + version.push('.'),
        next_stage(
            StageView::CheckApp,
            EventView::AppCheckFailed { cause },
            state,
        )->error == cause,
        next_stage(
            StageView::ReadPackage { plan },
            EventView::PackageUnreadable { cause },
            state,
        )->error == "Failed to hash install package "@ + plan.package + ": Failed to read "@
            + plan.package + ": "@ + cause,
        next_stage(
            StageView::SaveTransaction { plan },
            EventView::SaveFailed { cause },
            state,
        )->error == cause,
        next_stage(
            StageView::LocateUpdater { plan },
            EventView::UpdaterMissing { cause },
            state,
        )->error == cause,
        next_stage(
            StageView::RunCommand { plan },
            EventView::CommandFailed {
                failure: owned_command::FailureView {
                    error: cause,
                    mutation_may_have_started: true,
                },
            },
            state,
        )->error == "Privileged rollback outcome is unknown: "@ + cause,
        next_stage(
            StageView::RunCommand { plan },
            EventView::CommandFailed {
                failure: owned_command::FailureView {
                    error: cause,
                    mutation_may_have_started: false,
                },
            },
            state,
        )->message == "Failed to launch privileged rollback: "@ + cause,
        output.exit_code != Some(0i32) ==> next_stage(
            StageView::RunCommand { plan },
            EventView::CommandCompleted { output },
            state,
        )->error
            == "privileged rollback exited unsuccessfully after package mutation may have started: "@
            + text::trimmed(text::lossy(output.stderr@)),
        next_stage(
            StageView::SaveFailure { message: version },
            EventView::Saved,
            state,
        )->error == version,
        next_stage(
            StageView::SaveFailure { message: version },
            EventView::SaveFailed { cause },
            state,
        )->error == cause,
        next_stage(
            StageView::SaveOutcome { version },
            EventView::SaveFailed { cause },
            state,
        )->error == cause,
{
    reveal_strlit(".");
    reveal_strlit(": ");
    reveal_strlit("Failed to read ");
    reveal_strlit(": Failed to read ");
    reveal_strlit("Privileged rollback outcome is unknown");
    reveal_strlit("Privileged rollback outcome is unknown: ");
    reveal_strlit("Failed to launch privileged rollback");
    reveal_strlit("Failed to launch privileged rollback: ");
    reveal_strlit(
        "privileged rollback exited unsuccessfully after package mutation may have started",
    );
    reveal_strlit(
        "privileged rollback exited unsuccessfully after package mutation may have started: ",
    );
    let stderr = text::lossy(output.stderr@);
    assert(completion(version) =~= "Rolled back codex-desktop to "@ + version.push('.'));
    assert(unreadable(plan.package, cause) =~= "Failed to hash install package "@ + plan.package
        + ": Failed to read "@ + plan.package + ": "@ + cause);
    assert(outcome_unknown(cause) =~= "Privileged rollback outcome is unknown: "@ + cause);
    assert(launch_failure(cause) =~= "Failed to launch privileged rollback: "@ + cause);
    assert(exit_failure(stderr)
        =~= "privileged rollback exited unsuccessfully after package mutation may have started: "@
        + text::trimmed(stderr));
}

/// Three answers change the state and no other does: reading the package begins a rollback
/// transaction for it; a command that cannot have run puts its failure on record; and the version
/// found puts the rollback on record.
pub proof fn law_three_answers_change_the_state(
    stage: StageView,
    event: EventView,
    state: state::StateView,
    now: Timestamp,
)
    requires
        answers(stage, event),
    ensures
        ({
            let after = next_state(stage, event, state, now);
            let harmless = event is CommandFailed && !event->failure.mutation_may_have_started;
            &&& !(event is PackageRead || harmless || event is VersionFound) ==> after == state
            &&& event is PackageRead ==> {
                &&& after.status == UpdateStatus::Installing
                &&& after.error_message is None
                &&& after.install_transaction is Some
                &&& after.install_transaction->0.package_path == stage->ReadPackage_plan.package
                &&& after.install_transaction->0.package_sha256 == Some(
                    text::hex(install_transaction::sha256(event->PackageRead_package)),
                )
                &&& after.install_transaction->0.package_command is None
                &&& after.install_transaction->0.started_at == now
                &&& after.install_transaction->0.operation == InstallOperation::Rollback
                &&& (state::StateView {
                    status: state.status,
                    error_message: state.error_message,
                    install_transaction: state.install_transaction,
                    ..after
                }) == state
            }
            &&& harmless ==> {
                &&& after.status == UpdateStatus::Failed
                &&& after.install_transaction is None
                &&& after.error_message == Some(
                    "Failed to launch privileged rollback: "@ + event->failure.error,
                )
                &&& after.installed_version == state.installed_version
                &&& after.candidate_version == state.candidate_version
                &&& after.artifact_paths == state.artifact_paths
            }
            &&& event is VersionFound ==> {
                &&& after.status == UpdateStatus::Installed
                &&& after.install_transaction is None
                &&& after.installed_version == event->VersionFound_version
                &&& after.candidate_version is None
                &&& after.rollback_blocked_candidate_version
                    == stage->QueryVersion_plan.blocked_version
                &&& after.rollback_blocked_package_sha256
                    == stage->QueryVersion_plan.blocked_sha256
                &&& after.artifact_paths.rollback_package_path == Some(
                    stage->QueryVersion_plan.package,
                )
            }
        }),
{
    reveal_strlit(": ");
    reveal_strlit("Failed to launch privileged rollback");
    reveal_strlit("Failed to launch privileged rollback: ");
    if event is CommandFailed {
        assert(launch_failure(event->failure.error) =~= "Failed to launch privileged rollback: "@
            + event->failure.error);
    }
}

/// However it got there, a rollback that is finished has left no candidate pending and no
/// transaction, and what it replaced is blocked: the candidate that was pending at the start, or
/// else the version that was installed then, and upstream's package. The package to go back to is
/// installed and stays the one to go back to; its version is known good and is the one announced.
pub proof fn law_finished_rollback_replaced_and_blocked(start: state::StateView, moves: Seq<Move>)
    requires
        run_after(start, moves).stage is Finished,
    ensures
        ({
            let after = run_after(start, moves).state;
            &&& after.status == UpdateStatus::Installed
            &&& after.candidate_version is None
            &&& after.install_transaction is None
            &&& after.error_message is None
            &&& start.candidate_version is Some ==> after.rollback_blocked_candidate_version
                == start.candidate_version
            &&& start.candidate_version is None ==> after.rollback_blocked_candidate_version
                == Some(start.installed_version)
            &&& after.rollback_blocked_package_sha256 == start.upstream_package_sha256
            &&& start.artifact_paths.rollback_package_path is Some
            &&& after.artifact_paths.package_path == start.artifact_paths.rollback_package_path
            &&& after.artifact_paths.rollback_package_path
                == start.artifact_paths.rollback_package_path
            &&& after.last_known_good_version == Some(after.installed_version)
            &&& after.installed_upstream_version == start.last_known_good_upstream_version
            &&& after.installed_upstream_sha256 == start.last_known_good_upstream_sha256
            &&& run_after(start, moves).stage->Finished_notice == "Rolled back codex-desktop to "@
                + after.installed_version + "."@
        }),
{
    lemma_run(start, moves);
}

/// A finished rollback has left the installed package free to be retained: no candidate stands in
/// the way, and unless its version is not known, recording it is possible and changes nothing.
pub proof fn law_finished_rollback_can_be_retained(start: state::StateView, moves: Seq<Move>)
    requires
        run_after(start, moves).stage is Finished,
        run_after(start, moves).state.installed_version != "unknown"@,
    ensures
        retainable(run_after(start, moves).state, true),
        retained(run_after(start, moves).state) == run_after(start, moves).state,
{
    lemma_run(start, moves);
    law_rolled_back_package_is_known_good(
        start,
        plan_of(start),
        run_after(start, moves).state.installed_version,
    );
}

/// Whether an event was among the moves.
pub open spec fn happened(moves: Seq<Move>, event: EventView) -> bool {
    exists|i: int|
        0 <= i < moves.len() && #[trigger] moves[i] is Answer && moves[i]->event == event
}

/// Whether a command that ended with status zero was among the moves.
pub open spec fn command_succeeded(moves: Seq<Move>) -> bool {
    exists|output: CommandOutput|
        output.exit_code == Some(0i32) && #[trigger] happened(
            moves,
            EventView::CommandCompleted { output },
        )
}

/// Whether a package with the given digest was read among the moves.
pub open spec fn package_was_read(moves: Seq<Move>, digest: Option<Seq<char>>) -> bool {
    exists|package: Seq<u8>|
        digest == Some(text::hex(install_transaction::sha256(package))) && #[trigger] happened(
            moves,
            EventView::PackageRead { package },
        )
}

spec fn history(run: RollbackRun, moves: Seq<Move>) -> bool {
    let stage = run.stage;
    let started = !(stage is CheckApp || stage is Declined || stage is Failed);
    let checked = started && stage !is CheckPackage;
    let begun = checked && stage !is ReadPackage;
    let saved = begun && stage !is SaveTransaction;
    let located = saved && stage !is LocateUpdater;
    let recorded = stage is SaveOutcome || stage is Finished;
    &&& started ==> happened(moves, EventView::AppChecked { running: false })
    &&& checked ==> happened(moves, EventView::PackageChecked { is_file: true })
    &&& begun && !recorded && stage !is SaveFailure ==> run.state.install_transaction is Some
        && package_was_read(moves, run.state.install_transaction->0.package_sha256)
    &&& saved ==> happened(moves, EventView::Saved)
    &&& located ==> happened(moves, EventView::UpdaterLocated)
    &&& stage is QueryVersion || recorded ==> command_succeeded(moves)
    &&& recorded ==> happened(
        moves,
        EventView::VersionFound { version: run.state.installed_version },
    )
    &&& stage is SaveOutcome ==> stage->SaveOutcome_version == run.state.installed_version
}

proof fn lemma_happened_stays(moves: Seq<Move>)
    requires
        moves.len() > 0,
    ensures
        forall|event: EventView|
            happened(moves.drop_last(), event) ==> #[trigger] happened(moves, event),
        moves.last() is Answer ==> happened(moves, moves.last()->event),
{
    assert forall|event: EventView| happened(moves.drop_last(), event) implies #[trigger] happened(
        moves,
        event,
    ) by {
        let rest = moves.drop_last();
        let i = choose|i: int|
            0 <= i < rest.len() && #[trigger] rest[i] is Answer && rest[i]->event == event;
        assert(moves[i] == rest[i]);
    }
    assert(moves.last() == moves[moves.len() - 1]);
}

proof fn lemma_history(start: state::StateView, moves: Seq<Move>)
    ensures
        history(run_after(start, moves), moves),
    decreases moves.len(),
{
    if moves.len() > 0 {
        let rest = moves.drop_last();
        lemma_history(start, rest);
        lemma_happened_stays(moves);
        let before = run_after(start, rest);
        if command_succeeded(rest) {
            let output = choose|output: CommandOutput|
                output.exit_code == Some(0i32) && #[trigger] happened(
                    rest,
                    EventView::CommandCompleted { output },
                );
            assert(happened(moves, EventView::CommandCompleted { output }));
        }
        if before.state.install_transaction is Some {
            let digest = before.state.install_transaction->0.package_sha256;
            if package_was_read(rest, digest) {
                let package = choose|package: Seq<u8>|
                    digest == Some(text::hex(install_transaction::sha256(package)))
                        && #[trigger] happened(rest, EventView::PackageRead { package });
                assert(happened(moves, EventView::PackageRead { package }));
                assert(package_was_read(moves, digest));
            }
        }
    }
}

/// A rollback finishes only after everything it takes has happened: the application was found not
/// to run, the package to be there, the state was saved, the updater found, the command ended
/// with status zero; and the version on record is the one that was found installed.
pub proof fn law_finished_rollback_did_its_work(start: state::StateView, moves: Seq<Move>)
    requires
        run_after(start, moves).stage is Finished,
    ensures
        happened(moves, EventView::AppChecked { running: false }),
        happened(moves, EventView::PackageChecked { is_file: true }),
        happened(moves, EventView::Saved),
        happened(moves, EventView::UpdaterLocated),
        command_succeeded(moves),
        happened(
            moves,
            EventView::VersionFound { version: run_after(start, moves).state.installed_version },
        ),
{
    lemma_history(start, moves);
}

/// The privileged command runs only after the transaction was saved, for a package that was found
/// and read, with that package's digest on record, and while the application does not run.
pub proof fn law_command_runs_for_the_package_that_was_read(
    start: state::StateView,
    moves: Seq<Move>,
)
    requires
        run_after(start, moves).stage is RunCommand,
    ensures
        happened(moves, EventView::AppChecked { running: false }),
        happened(moves, EventView::PackageChecked { is_file: true }),
        happened(moves, EventView::Saved),
        run_after(start, moves).state.install_transaction is Some,
        package_was_read(
            moves,
            run_after(start, moves).state.install_transaction->0.package_sha256,
        ),
        run_after(start, moves).stage->RunCommand_plan.package
            == start.artifact_paths.rollback_package_path->0,
{
    lemma_history(start, moves);
    lemma_run(start, moves);
}

/// Where there is a package to go back to and nothing goes wrong, a rollback finishes.
pub proof fn law_undisturbed_rollback_finishes(
    start: state::StateView,
    package: Seq<u8>,
    output: CommandOutput,
    version: Seq<char>,
    now: Timestamp,
)
    requires
        start.artifact_paths.rollback_package_path is Some,
        output.exit_code == Some(0i32),
    ensures
        ({
            let run = run_after(
                start,
                seq![
                    Move::Answer { event: EventView::AppChecked { running: false }, now },
                    Move::Answer { event: EventView::PackageChecked { is_file: true }, now },
                    Move::Answer { event: EventView::PackageRead { package }, now },
                    Move::Answer { event: EventView::Saved, now },
                    Move::Answer { event: EventView::UpdaterLocated, now },
                    Move::Answer { event: EventView::CommandCompleted { output }, now },
                    Move::Answer { event: EventView::VersionFound { version }, now },
                    Move::Answer { event: EventView::Saved, now },
                ],
            );
            &&& run.stage is Finished
            &&& run.state.installed_version == version
        }),
{
    let m0: Seq<Move> = seq![];
    let m1 = m0.push(Move::Answer { event: EventView::AppChecked { running: false }, now });
    let m2 = m1.push(Move::Answer { event: EventView::PackageChecked { is_file: true }, now });
    let m3 = m2.push(Move::Answer { event: EventView::PackageRead { package }, now });
    let m4 = m3.push(Move::Answer { event: EventView::Saved, now });
    let m5 = m4.push(Move::Answer { event: EventView::UpdaterLocated, now });
    let m6 = m5.push(Move::Answer { event: EventView::CommandCompleted { output }, now });
    let m7 = m6.push(Move::Answer { event: EventView::VersionFound { version }, now });
    let m8 = m7.push(Move::Answer { event: EventView::Saved, now });
    assert(m1.drop_last() =~= m0);
    assert(run_after(start, m0).stage is CheckApp);
    assert(run_after(start, m1).stage is CheckPackage);
    assert(m2.drop_last() =~= m1);
    assert(run_after(start, m2).stage is ReadPackage);
    assert(m3.drop_last() =~= m2);
    assert(run_after(start, m3).stage is SaveTransaction);
    assert(m4.drop_last() =~= m3);
    assert(run_after(start, m4).stage is LocateUpdater);
    assert(m5.drop_last() =~= m4);
    assert(run_after(start, m5).stage is RunCommand);
    assert(m6.drop_last() =~= m5);
    assert(run_after(start, m6).stage is QueryVersion);
    assert(m7.drop_last() =~= m6);
    assert(run_after(start, m7).stage is SaveOutcome);
    assert(m8.drop_last() =~= m7);
    assert(run_after(start, m8).stage is Finished);
    assert(m8 =~= seq![
        Move::Answer { event: EventView::AppChecked { running: false }, now },
        Move::Answer { event: EventView::PackageChecked { is_file: true }, now },
        Move::Answer { event: EventView::PackageRead { package }, now },
        Move::Answer { event: EventView::Saved, now },
        Move::Answer { event: EventView::UpdaterLocated, now },
        Move::Answer { event: EventView::CommandCompleted { output }, now },
        Move::Answer { event: EventView::VersionFound { version }, now },
        Move::Answer { event: EventView::Saved, now },
    ]);
}

/// What is seen of a plan is what it holds.
pub proof fn law_plans_are_seen_as_they_are(plan: RollbackPlan)
    ensures
        plan@.package == plan.package@,
        plan@.blocked_version == text::text_of(plan.blocked_version),
        plan@.blocked_sha256 == text::text_of(plan.blocked_sha256),
{
}

/// What is seen of a stage is the stage itself.
pub proof fn law_stages_are_seen_as_they_are(stage: RollbackStage)
    ensures
        stage is CheckApp ==> stage@ is CheckApp,
        stage matches RollbackStage::CheckPackage { package } ==> stage@
            == (StageView::CheckPackage { package: package@ }),
        stage matches RollbackStage::ReadPackage { plan } ==> stage@ == (StageView::ReadPackage {
            plan: plan@,
        }),
        stage matches RollbackStage::SaveTransaction { plan } ==> stage@
            == (StageView::SaveTransaction { plan: plan@ }),
        stage matches RollbackStage::LocateUpdater { plan } ==> stage@
            == (StageView::LocateUpdater { plan: plan@ }),
        stage matches RollbackStage::RunCommand { plan } ==> stage@ == (StageView::RunCommand {
            plan: plan@,
        }),
        stage matches RollbackStage::SaveFailure { message } ==> stage@
            == (StageView::SaveFailure { message: message@ }),
        stage matches RollbackStage::QueryVersion { plan } ==> stage@
            == (StageView::QueryVersion { plan: plan@ }),
        stage matches RollbackStage::SaveOutcome { version } ==> stage@
            == (StageView::SaveOutcome { version: version@ }),
        stage matches RollbackStage::Declined { notice } ==> stage@ == (StageView::Declined {
            notice: notice@,
        }),
        stage matches RollbackStage::Finished { notice } ==> stage@ == (StageView::Finished {
            notice: notice@,
        }),
        stage matches RollbackStage::Failed { error } ==> stage@ == (StageView::Failed {
            error: error@,
        }),
{
}

/// What is seen of an event is the event itself.
pub proof fn law_events_are_seen_as_they_are(event: RollbackEvent)
    ensures
        event matches RollbackEvent::AppChecked { running } ==> event@ == (EventView::AppChecked {
            running,
        }),
        event matches RollbackEvent::AppCheckFailed { cause } ==> event@
            == (EventView::AppCheckFailed { cause: cause@ }),
        event matches RollbackEvent::PackageChecked { is_file } ==> event@
            == (EventView::PackageChecked { is_file }),
        event matches RollbackEvent::PackageRead { package } ==> event@
            == (EventView::PackageRead { package: package@ }),
        event matches RollbackEvent::PackageUnreadable { cause } ==> event@
            == (EventView::PackageUnreadable { cause: cause@ }),
        event is Saved ==> event@ is Saved,
        event matches RollbackEvent::SaveFailed { cause } ==> event@ == (EventView::SaveFailed {
            cause: cause@,
        }),
        event is UpdaterLocated ==> event@ is UpdaterLocated,
        event matches RollbackEvent::UpdaterMissing { cause } ==> event@
            == (EventView::UpdaterMissing { cause: cause@ }),
        event matches RollbackEvent::CommandCompleted { output } ==> event@
            == (EventView::CommandCompleted { output }),
        event matches RollbackEvent::CommandFailed { failure } ==> {
            &&& event@ is CommandFailed
            &&& event@->failure.error == failure.error@
            &&& event@->failure.mutation_may_have_started == failure.mutation_may_have_started
        },
        event matches RollbackEvent::VersionFound { version } ==> event@
            == (EventView::VersionFound { version: version@ }),
{
}

} // verus!
