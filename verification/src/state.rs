//! Durable updater state for official Linux packages.

use crate::clock::Timestamp;
use crate::text;
use vstd::prelude::*;
use vstd::string::*;

verus! {

/// A process, told apart from later ones that get the same number by when it started.
#[derive(Debug, Clone, PartialEq, Eq, Structural)]
pub struct ProcessIdentity {
    pub pid: u32,
    pub start_time_ticks: u64,
}

/// What a package-replacing transaction is for.
#[derive(Debug, Clone, Copy, PartialEq, Eq, Structural)]
pub enum InstallOperation {
    Update,
    Rollback,
}

/// A package replacement that has been started and not yet accounted for.
#[derive(Debug, Clone, PartialEq, Eq)]
pub struct InstallTransaction {
    pub package_path: String,
    pub package_sha256: Option<String>,
    pub package_command: Option<ProcessIdentity>,
    pub started_at: Timestamp,
    pub operation: InstallOperation,
}

/// What a transaction holds.
#[verifier::ext_equal]
pub struct TransactionView {
    pub package_path: Seq<char>,
    pub package_sha256: Option<Seq<char>>,
    pub package_command: Option<ProcessIdentity>,
    pub started_at: Timestamp,
    pub operation: InstallOperation,
}

impl View for InstallTransaction {
    type V = TransactionView;

    open spec fn view(&self) -> TransactionView {
        TransactionView {
            package_path: self.package_path@,
            package_sha256: text::text_of(self.package_sha256),
            package_command: self.package_command,
            started_at: self.started_at,
            operation: self.operation,
        }
    }
}

/// Where the updater stands.
#[derive(Debug, Clone, PartialEq, Eq, Structural)]
pub enum UpdateStatus {
    Idle,
    CheckingUpstream,
    UpdateDetected,
    DownloadingPackage,
    PreparingWorkspace,
    PatchingApp,
    BuildingPackage,
    ReadyToInstall,
    WaitingForAppExit,
    Installing,
    Installed,
    Failed,
}

impl Default for UpdateStatus {
    fn default() -> (status: Self)
        ensures
            status == UpdateStatus::Idle,
    {
        UpdateStatus::Idle
    }
}

/// Where the files of an update lie.
#[derive(Debug, Clone, PartialEq, Eq)]
pub struct ArtifactPaths {
    pub upstream_package_path: Option<String>,
    pub workspace_dir: Option<String>,
    pub package_path: Option<String>,
    pub rollback_package_path: Option<String>,
}

/// The paths that `ArtifactPaths` holds.
#[verifier::ext_equal]
pub struct ArtifactView {
    pub upstream_package_path: Option<Seq<char>>,
    pub workspace_dir: Option<Seq<char>>,
    pub package_path: Option<Seq<char>>,
    pub rollback_package_path: Option<Seq<char>>,
}

impl View for ArtifactPaths {
    type V = ArtifactView;

    open spec fn view(&self) -> ArtifactView {
        ArtifactView {
            upstream_package_path: text::text_of(self.upstream_package_path),
            workspace_dir: text::text_of(self.workspace_dir),
            package_path: text::text_of(self.package_path),
            rollback_package_path: text::text_of(self.rollback_package_path),
        }
    }
}

/// No path at all.
pub open spec fn no_artifacts() -> ArtifactView {
    ArtifactView {
        upstream_package_path: None,
        workspace_dir: None,
        package_path: None,
        rollback_package_path: None,
    }
}

impl Default for ArtifactPaths {
    fn default() -> (paths: Self)
        ensures
            paths@ == no_artifacts(),
    {
        ArtifactPaths {
            upstream_package_path: None,
            workspace_dir: None,
            package_path: None,
            rollback_package_path: None,
        }
    }
}

/// Everything that the updater remembers from one run to the next.
#[derive(Debug, Clone, PartialEq, Eq)]
pub struct PersistedState {
    pub schema_version: u32,
    pub installed_version: String,
    pub installed_upstream_version: Option<String>,
    pub installed_upstream_sha256: Option<String>,
    pub candidate_version: Option<String>,
    pub candidate_architecture: Option<String>,
    pub candidate_repository_path: Option<String>,
    pub upstream_package_sha256: Option<String>,
    pub status: UpdateStatus,
    pub install_transaction: Option<InstallTransaction>,
    pub last_check_at: Option<Timestamp>,
    pub last_successful_check_at: Option<Timestamp>,
    pub artifact_paths: ArtifactPaths,
    pub error_message: Option<String>,
    pub auto_install_on_app_exit: bool,
    pub waiting_for_app_exit_auto_install: bool,
    pub last_known_good_version: Option<String>,
    pub last_known_good_upstream_version: Option<String>,
    pub last_known_good_upstream_sha256: Option<String>,
    pub rollback_blocked_candidate_version: Option<String>,
    pub rollback_blocked_package_sha256: Option<String>,
    pub install_auth_blocked_package_sha256: Option<String>,
    pub install_after_app_exit_requested: bool,
}

/// What a state holds.
#[verifier::ext_equal]
pub struct StateView {
    pub schema_version: u32,
    pub installed_version: Seq<char>,
    pub installed_upstream_version: Option<Seq<char>>,
    pub installed_upstream_sha256: Option<Seq<char>>,
    pub candidate_version: Option<Seq<char>>,
    pub candidate_architecture: Option<Seq<char>>,
    pub candidate_repository_path: Option<Seq<char>>,
    pub upstream_package_sha256: Option<Seq<char>>,
    pub status: UpdateStatus,
    pub install_transaction: Option<TransactionView>,
    pub last_check_at: Option<Timestamp>,
    pub last_successful_check_at: Option<Timestamp>,
    pub artifact_paths: ArtifactView,
    pub error_message: Option<Seq<char>>,
    pub auto_install_on_app_exit: bool,
    pub waiting_for_app_exit_auto_install: bool,
    pub last_known_good_version: Option<Seq<char>>,
    pub last_known_good_upstream_version: Option<Seq<char>>,
    pub last_known_good_upstream_sha256: Option<Seq<char>>,
    pub rollback_blocked_candidate_version: Option<Seq<char>>,
    pub rollback_blocked_package_sha256: Option<Seq<char>>,
    pub install_auth_blocked_package_sha256: Option<Seq<char>>,
    pub install_after_app_exit_requested: bool,
}

/// What an optional transaction holds.
pub open spec fn transaction_of(transaction: Option<InstallTransaction>) -> Option<
    TransactionView,
> {
    match transaction {
        Some(transaction) => Some(transaction@),
        None => None,
    }
}

impl View for PersistedState {
    type V = StateView;

    open spec fn view(&self) -> StateView {
        StateView {
            schema_version: self.schema_version,
            installed_version: self.installed_version@,
            installed_upstream_version: text::text_of(self.installed_upstream_version),
            installed_upstream_sha256: text::text_of(self.installed_upstream_sha256),
            candidate_version: text::text_of(self.candidate_version),
            candidate_architecture: text::text_of(self.candidate_architecture),
            candidate_repository_path: text::text_of(self.candidate_repository_path),
            upstream_package_sha256: text::text_of(self.upstream_package_sha256),
            status: self.status,
            install_transaction: transaction_of(self.install_transaction),
            last_check_at: self.last_check_at,
            last_successful_check_at: self.last_successful_check_at,
            artifact_paths: self.artifact_paths@,
            error_message: text::text_of(self.error_message),
            auto_install_on_app_exit: self.auto_install_on_app_exit,
            waiting_for_app_exit_auto_install: self.waiting_for_app_exit_auto_install,
            last_known_good_version: text::text_of(self.last_known_good_version),
            last_known_good_upstream_version: text::text_of(self.last_known_good_upstream_version),
            last_known_good_upstream_sha256: text::text_of(self.last_known_good_upstream_sha256),
            rollback_blocked_candidate_version: text::text_of(
                self.rollback_blocked_candidate_version,
            ),
            rollback_blocked_package_sha256: text::text_of(self.rollback_blocked_package_sha256),
            install_auth_blocked_package_sha256: text::text_of(
                self.install_auth_blocked_package_sha256,
            ),
            install_after_app_exit_requested: self.install_after_app_exit_requested,
        }
    }
}

/// The version of the layout in which a state is saved.
pub const SCHEMA_VERSION: u32 = 2;

/// The version recorded while the installed one is not known.
pub const UNKNOWN_VERSION: &'static str = "unknown";

/// The state of an updater that has not done anything yet.
pub open spec fn fresh(auto_install_on_app_exit: bool) -> StateView {
    StateView {
        schema_version: SCHEMA_VERSION,
        installed_version: UNKNOWN_VERSION@,
        installed_upstream_version: None,
        installed_upstream_sha256: None,
        candidate_version: None,
        candidate_architecture: None,
        candidate_repository_path: None,
        upstream_package_sha256: None,
        status: UpdateStatus::Idle,
        install_transaction: None,
        last_check_at: None,
        last_successful_check_at: None,
        artifact_paths: no_artifacts(),
        error_message: None,
        auto_install_on_app_exit,
        waiting_for_app_exit_auto_install: false,
        last_known_good_version: None,
        last_known_good_upstream_version: None,
        last_known_good_upstream_sha256: None,
        rollback_blocked_candidate_version: None,
        rollback_blocked_package_sha256: None,
        install_auth_blocked_package_sha256: None,
        install_after_app_exit_requested: false,
    }
}

impl Default for PersistedState {
    fn default() -> (state: Self)
        ensures
            state@ == fresh(true),
    {
        Self::new(true)
    }
}

/// A state after a failure: nothing is under way, and what failed is on record.
pub open spec fn failed(state: StateView, message: Seq<char>) -> StateView {
    StateView {
        status: UpdateStatus::Failed,
        install_transaction: None,
        error_message: Some(message),
        waiting_for_app_exit_auto_install: false,
        install_auth_blocked_package_sha256: None,
        install_after_app_exit_requested: false,
        ..state
    }
}

/// Whether another attempt to get authorisation for the candidate's package is barred.
pub open spec fn auth_retry_blocked(state: StateView) -> bool {
    &&& state.upstream_package_sha256 is Some
    &&& state.install_auth_blocked_package_sha256 == state.upstream_package_sha256
}

/// A state in which further attempts for the candidate's package are barred.
pub open spec fn auth_barred(state: StateView) -> StateView {
    StateView { install_auth_blocked_package_sha256: state.upstream_package_sha256, ..state }
}

/// A state in which no attempts are barred.
pub open spec fn auth_cleared(state: StateView) -> StateView {
    StateView { install_auth_blocked_package_sha256: None, ..state }
}

impl PersistedState {
    /// The state of an updater that has not done anything yet.
    pub fn new(auto_install_on_app_exit: bool) -> (state: Self)
        ensures
            state@ == fresh(auto_install_on_app_exit),
    {
        Self {
            schema_version: SCHEMA_VERSION,
            installed_version: String::from_str(UNKNOWN_VERSION),
            installed_upstream_version: None,
            installed_upstream_sha256: None,
            candidate_version: None,
            candidate_architecture: None,
            candidate_repository_path: None,
            upstream_package_sha256: None,
            status: UpdateStatus::Idle,
            install_transaction: None,
            last_check_at: None,
            last_successful_check_at: None,
            artifact_paths: ArtifactPaths::default(),
            error_message: None,
            auto_install_on_app_exit,
            waiting_for_app_exit_auto_install: false,
            last_known_good_version: None,
            last_known_good_upstream_version: None,
            last_known_good_upstream_sha256: None,
            rollback_blocked_candidate_version: None,
            rollback_blocked_package_sha256: None,
            install_auth_blocked_package_sha256: None,
            install_after_app_exit_requested: false,
        }
    }

    /// Records a failure: nothing is under way any more, and no consent or block outlives it.
    pub fn mark_failed(&mut self, message: String)
        ensures
            final(self)@ == failed(old(self)@, message@),
    {
        self.status = UpdateStatus::Failed;
        self.install_transaction = None;
        self.error_message = Some(message);
        self.waiting_for_app_exit_auto_install = false;
        self.install_auth_blocked_package_sha256 = None;
        self.install_after_app_exit_requested = false;
    }

    /// Whether another attempt to get authorisation for the candidate's package is barred.
    pub fn install_auth_retry_is_blocked(&self) -> (blocked: bool)
        ensures
            blocked == auth_retry_blocked(self@),
    {
        match (&self.upstream_package_sha256, &self.install_auth_blocked_package_sha256) {
            (Some(package), Some(blocked)) => *package == *blocked,
            _ => false,
        }
    }

    /// Bars further attempts to get authorisation for the candidate's package.
    pub fn block_install_auth_retry(&mut self)
        ensures
            final(self)@ == auth_barred(old(self)@),
    {
        self.install_auth_blocked_package_sha256 = self.upstream_package_sha256.clone();
    }

    /// Lifts the bar on attempts to get authorisation.
    pub fn clear_install_auth_retry_block(&mut self)
        ensures
            final(self)@ == auth_cleared(old(self)@),
    {
        self.install_auth_blocked_package_sha256 = None;
    }
}

/// An authorisation block bars the package it was set for and no other: it holds as long as that
/// package is the candidate, and does not carry over to a different one.
pub proof fn law_auth_block_is_scoped_to_the_package(
    state: StateView,
    other: Option<Seq<char>>,
)
    ensures
        auth_retry_blocked(auth_barred(state)) <==> state.upstream_package_sha256 is Some,
        other != state.upstream_package_sha256 ==> !auth_retry_blocked(
            StateView { upstream_package_sha256: other, ..auth_barred(state) },
        ),
{
}

/// Neither a new updater, nor one whose block was lifted, nor one that has just failed is barred.
pub proof fn law_auth_block_does_not_linger(
    state: StateView,
    auto_install: bool,
    message: Seq<char>,
)
    ensures
        !auth_retry_blocked(fresh(auto_install)),
        !auth_retry_blocked(auth_cleared(state)),
        !auth_retry_blocked(failed(state, message)),
{
}

/// Lifting a block undoes setting it, and setting it twice is setting it once.
pub proof fn law_auth_block_is_undone_by_clearing(state: StateView)
    ensures
        auth_cleared(auth_barred(state)) == auth_cleared(state),
        auth_barred(auth_barred(state)) == auth_barred(state),
        state.install_auth_blocked_package_sha256 is None ==> auth_cleared(auth_barred(state))
            == state,
{
}

/// A failure leaves no transaction, no automatic installation and no consent to one behind, and
/// keeps everything that a rollback needs.
pub proof fn law_failure_keeps_the_rollback_facts(state: StateView, message: Seq<char>)
    ensures
        ({
            let after = failed(state, message);
            &&& after.install_transaction is None
            &&& !after.waiting_for_app_exit_auto_install
            &&& !after.install_after_app_exit_requested
            &&& after.installed_version == state.installed_version
            &&& after.last_known_good_version == state.last_known_good_version
            &&& after.artifact_paths == state.artifact_paths
        }),
{
}

/// A new updater knows nothing but its setting.
pub proof fn law_new_state_holds_the_setting_alone(auto_install: bool)
    ensures
        ({
            let state = fresh(auto_install);
            &&& state.schema_version == 2
            &&& state.installed_version == "unknown"@
            &&& state.auto_install_on_app_exit == auto_install
            &&& state.status == UpdateStatus::Idle
            &&& state.installed_upstream_version is None
            &&& state.installed_upstream_sha256 is None
            &&& state.candidate_version is None
            &&& state.candidate_architecture is None
            &&& state.candidate_repository_path is None
            &&& state.upstream_package_sha256 is None
            &&& state.install_transaction is None
            &&& state.last_check_at is None
            &&& state.last_successful_check_at is None
            &&& state.artifact_paths.upstream_package_path is None
            &&& state.artifact_paths.workspace_dir is None
            &&& state.artifact_paths.package_path is None
            &&& state.artifact_paths.rollback_package_path is None
            &&& state.error_message is None
            &&& !state.waiting_for_app_exit_auto_install
            &&& state.last_known_good_version is None
            &&& state.last_known_good_upstream_version is None
            &&& state.last_known_good_upstream_sha256 is None
            &&& state.rollback_blocked_candidate_version is None
            &&& state.rollback_blocked_package_sha256 is None
            &&& state.install_auth_blocked_package_sha256 is None
            &&& !state.install_after_app_exit_requested
        }),
{
}

/// A failure is on record in its own words, nothing stays under way, and with what a failure
/// touches put back the state is as it was.
pub proof fn law_failure_touches_only_what_is_under_way(state: StateView, message: Seq<char>)
    ensures
        ({
            let after = failed(state, message);
            &&& after.status == UpdateStatus::Failed
            &&& after.error_message == Some(message)
            &&& after.install_transaction is None
            &&& !after.waiting_for_app_exit_auto_install
            &&& !after.install_after_app_exit_requested
            &&& after.install_auth_blocked_package_sha256 is None
            &&& (StateView {
                status: state.status,
                error_message: state.error_message,
                install_transaction: state.install_transaction,
                waiting_for_app_exit_auto_install: state.waiting_for_app_exit_auto_install,
                install_after_app_exit_requested: state.install_after_app_exit_requested,
                install_auth_blocked_package_sha256: state.install_auth_blocked_package_sha256,
                ..after
            }) == state
        }),
{
}

/// Retrying is barred exactly where there is a candidate's package and it is the one that the
/// block names; setting and lifting the block touch nothing else.
pub proof fn law_auth_block_names_its_package(state: StateView)
    ensures
        auth_retry_blocked(state) <==> {
            &&& state.upstream_package_sha256 is Some
            &&& state.install_auth_blocked_package_sha256 is Some
            &&& state.install_auth_blocked_package_sha256->0 == state.upstream_package_sha256->0
        },
        auth_barred(state).install_auth_blocked_package_sha256 == state.upstream_package_sha256,
        auth_cleared(state).install_auth_blocked_package_sha256 is None,
        (StateView {
            install_auth_blocked_package_sha256: state.install_auth_blocked_package_sha256,
            ..auth_barred(state)
        }) == state,
        (StateView {
            install_auth_blocked_package_sha256: state.install_auth_blocked_package_sha256,
            ..auth_cleared(state)
        }) == state,
{
}

/// What is seen of a transaction is what it holds, each field in its place.
pub proof fn law_transactions_are_seen_as_they_are(transaction: InstallTransaction)
    ensures
        transaction@.package_path == transaction.package_path@,
        transaction@.package_sha256 is Some <==> transaction.package_sha256 is Some,
        transaction.package_sha256 is Some ==> transaction@.package_sha256->0
            == transaction.package_sha256->0@,
        transaction@.package_command == transaction.package_command,
        transaction@.started_at == transaction.started_at,
        transaction@.operation == transaction.operation,
{
}

/// What is seen of a state is what it holds, each field in its place.
pub proof fn law_states_are_seen_as_they_are(state: PersistedState)
    ensures
        ({
            let seen = state@;
            &&& seen.schema_version == state.schema_version
            &&& seen.installed_version == state.installed_version@
            &&& seen.installed_upstream_version == text::text_of(state.installed_upstream_version)
            &&& seen.installed_upstream_sha256 == text::text_of(state.installed_upstream_sha256)
            &&& seen.candidate_version == text::text_of(state.candidate_version)
            &&& seen.candidate_architecture == text::text_of(state.candidate_architecture)
            &&& seen.candidate_repository_path == text::text_of(state.candidate_repository_path)
            &&& seen.upstream_package_sha256 == text::text_of(state.upstream_package_sha256)
            &&& seen.status == state.status
            &&& seen.install_transaction is Some <==> state.install_transaction is Some
            &&& state.install_transaction is Some ==> seen.install_transaction->0
                == state.install_transaction->0@
            &&& seen.last_check_at == state.last_check_at
            &&& seen.last_successful_check_at == state.last_successful_check_at
            &&& seen.artifact_paths.upstream_package_path == text::text_of(
                state.artifact_paths.upstream_package_path,
            )
            &&& seen.artifact_paths.workspace_dir == text::text_of(
                state.artifact_paths.workspace_dir,
            )
            &&& seen.artifact_paths.package_path == text::text_of(
                state.artifact_paths.package_path,
            )
            &&& seen.artifact_paths.rollback_package_path == text::text_of(
                state.artifact_paths.rollback_package_path,
            )
            &&& seen.error_message == text::text_of(state.error_message)
            &&& seen.auto_install_on_app_exit == state.auto_install_on_app_exit
            &&& seen.waiting_for_app_exit_auto_install == state.waiting_for_app_exit_auto_install
            &&& seen.last_known_good_version == text::text_of(state.last_known_good_version)
            &&& seen.last_known_good_upstream_version == text::text_of(
                state.last_known_good_upstream_version,
            )
            &&& seen.last_known_good_upstream_sha256 == text::text_of(
                state.last_known_good_upstream_sha256,
            )
            &&& seen.rollback_blocked_candidate_version == text::text_of(
                state.rollback_blocked_candidate_version,
            )
            &&& seen.rollback_blocked_package_sha256 == text::text_of(
                state.rollback_blocked_package_sha256,
            )
            &&& seen.install_auth_blocked_package_sha256 == text::text_of(
                state.install_auth_blocked_package_sha256,
            )
            &&& seen.install_after_app_exit_requested == state.install_after_app_exit_requested
        }),
{
}

} // verus!
