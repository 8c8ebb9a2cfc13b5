//! Running the privileged command that owns a transaction.
//!
//! Only a launcher that changes nothing is spawned at first. Its process becomes the privileged
//! command, so that process can be published durably as the owner before it is let go. The launch
//! token travels over the launcher's input: an updater that dies before it has saved the owner
//! and written the token closes that input, and the launcher ends without having started
//! anything.

use crate::process;
use crate::state;
use crate::state::{PersistedState, ProcessIdentity};
use crate::text;
use vstd::prelude::*;
use vstd::string::*;

verus! {

/// Why a command gave no output.
#[derive(Debug, Clone, PartialEq, Eq)]
pub struct OwnedCommandFailure {
    /// The error in words, each context followed by its cause.
    pub error: String,
    /// Whether the command may have begun to replace the package.
    pub mutation_may_have_started: bool,
}

/// A failure, with the text that it holds.
pub struct FailureView {
    pub error: Seq<char>,
    pub mutation_may_have_started: bool,
}

impl View for OwnedCommandFailure {
    type V = FailureView;

    open spec fn view(&self) -> FailureView {
        FailureView {
            error: self.error@,
            mutation_may_have_started: self.mutation_may_have_started,
        }
    }
}

impl OwnedCommandFailure {
    /// A failure at a point where the command cannot have run.
    pub fn before_mutation(error: String) -> (failure: Self)
        ensures
            failure.error == error,
            !failure.mutation_may_have_started,
    {
        Self { error, mutation_may_have_started: false }
    }

    /// A failure at a point where the command may have run.
    pub fn outcome_unknown(error: String) -> (failure: Self)
        ensures
            failure.error == error,
            failure.mutation_may_have_started,
    {
        Self { error, mutation_may_have_started: true }
    }
}

/// What a command left behind when it ended.
#[derive(Debug, Clone, PartialEq, Eq)]
pub struct CommandOutput {
    /// The exit status; `None` where a signal ended the command.
    pub exit_code: Option<i32>,
    pub stdout: Vec<u8>,
    pub stderr: Vec<u8>,
}

impl CommandOutput {
    /// Whether a command ended well: with exit status zero.
    pub open spec fn succeeded(self) -> bool {
        self.exit_code == Some(0i32)
    }

    /// Whether the command ended well: with exit status zero.
    pub fn success(&self) -> (answer: bool)
        ensures
            answer == self.succeeded(),
    {
        match self.exit_code {
            Some(code) => code == 0,
            None => false,
        }
    }
}

/// What is to be done with the launcher after a failure, whatever comes of it.
#[derive(Debug, Clone, Copy, PartialEq, Eq, Structural)]
pub enum Cleanup {
    /// Nothing.
    Nothing,
    /// Kill it and wait for its end.
    KillAndReap,
    /// Close its input and wait for its end.
    CloseGateAndReap,
}

/// How far a command has come, and with that what is to be done next.
#[derive(Debug, Clone, PartialEq, Eq)]
pub enum CommandStage {
    /// Spawn the launcher.
    Spawn,
    /// Read the stat file of the launcher's process.
    Identify { pid: u32 },
    /// Save the state, which names the launcher as the owner.
    Publish,
    /// Write the launch token to the launcher's input and close it.
    Release,
    /// Wait for the command to end and collect its output.
    Wait,
    /// The command has ended.
    Completed { output: CommandOutput },
    /// There is no output; clean up and report the failure.
    Failed { failure: OwnedCommandFailure, cleanup: Cleanup },
}

/// A stage, with the texts that it holds.
pub enum StageView {
    Spawn,
    Identify { pid: u32 },
    Publish,
    Release,
    Wait,
    Completed { output: CommandOutput },
    Failed { failure: FailureView, cleanup: Cleanup },
}

impl View for CommandStage {
    type V = StageView;

    open spec fn view(&self) -> StageView {
        match *self {
            CommandStage::Spawn => StageView::Spawn,
            CommandStage::Identify { pid } => StageView::Identify { pid },
            CommandStage::Publish => StageView::Publish,
            CommandStage::Release => StageView::Release,
            CommandStage::Wait => StageView::Wait,
            CommandStage::Completed { output } => StageView::Completed { output },
            CommandStage::Failed { failure, cleanup } => StageView::Failed {
                failure: failure@,
                cleanup,
            },
        }
    }
}

/// What came of the work that a stage asked for.
#[derive(Debug, Clone, PartialEq, Eq)]
pub enum CommandEvent {
    Spawned { pid: u32 },
    SpawnFailed { cause: String },
    StatRead { stat: String },
    StatUnreadable { cause: String },
    Saved,
    SaveFailed { cause: String },
    Released,
    /// The launcher has no input to write to.
    GateMissing,
    /// Writing the launch token failed, perhaps after part of it had been written.
    ReleaseFailed { cause: String },
    Finished { output: CommandOutput },
    WaitFailed { cause: String },
}

/// An event, with the texts that it holds.
pub enum EventView {
    Spawned { pid: u32 },
    SpawnFailed { cause: Seq<char> },
    StatRead { stat: Seq<char> },
    StatUnreadable { cause: Seq<char> },
    Saved,
    SaveFailed { cause: Seq<char> },
    Released,
    GateMissing,
    ReleaseFailed { cause: Seq<char> },
    Finished { output: CommandOutput },
    WaitFailed { cause: Seq<char> },
}

impl View for CommandEvent {
    type V = EventView;

    open spec fn view(&self) -> EventView {
        match *self {
            CommandEvent::Spawned { pid } => EventView::Spawned { pid },
            CommandEvent::SpawnFailed { cause } => EventView::SpawnFailed { cause: cause@ },
            CommandEvent::StatRead { stat } => EventView::StatRead { stat: stat@ },
            CommandEvent::StatUnreadable { cause } => EventView::StatUnreadable { cause: cause@ },
            CommandEvent::Saved => EventView::Saved,
            CommandEvent::SaveFailed { cause } => EventView::SaveFailed { cause: cause@ },
            CommandEvent::Released => EventView::Released,
            CommandEvent::GateMissing => EventView::GateMissing,
            CommandEvent::ReleaseFailed { cause } => EventView::ReleaseFailed { cause: cause@ },
            CommandEvent::Finished { output } => EventView::Finished { output },
            CommandEvent::WaitFailed { cause } => EventView::WaitFailed { cause: cause@ },
        }
    }
}

/// The end of a command that cannot have run.
pub open spec fn harmless(error: Seq<char>, cleanup: Cleanup) -> StageView {
    StageView::Failed {
        failure: FailureView { error, mutation_may_have_started: false },
        cleanup,
    }
}

/// The end of a command that may have run.
pub open spec fn unknown(error: Seq<char>, cleanup: Cleanup) -> StageView {
    StageView::Failed {
        failure: FailureView { error, mutation_may_have_started: true },
        cleanup,
    }
}

/// The end of a command whose launcher could not be identified.
pub open spec fn unidentified(cause: Seq<char>) -> StageView {
    harmless(
        text::caused("Failed to identify privileged package-command owner"@, cause),
        Cleanup::KillAndReap,
    )
}

/// A transaction with its owner on record.
pub open spec fn owned(
    transaction: state::TransactionView,
    owner: ProcessIdentity,
) -> state::TransactionView {
    state::TransactionView { package_command: Some(owner), ..transaction }
}

/// Whether an event answers what a stage asked for.
pub open spec fn answers(stage: StageView, event: EventView) -> bool {
    match stage {
        StageView::Spawn => event is Spawned || event is SpawnFailed,
        StageView::Identify { .. } => event is StatRead || event is StatUnreadable,
        StageView::Publish => event is Saved || event is SaveFailed,
        StageView::Release => event is Released || event is GateMissing || event is ReleaseFailed,
        StageView::Wait => event is Finished || event is WaitFailed,
        StageView::Completed { .. } => false,
        StageView::Failed { .. } => false,
    }
}

/// The stage that an answer to a stage leads to, for a state with the given transaction.
pub open spec fn next_stage(
    stage: StageView,
    event: EventView,
    transaction: Option<state::TransactionView>,
) -> StageView {
    match event {
        EventView::Spawned { pid } => StageView::Identify { pid },
        EventView::SpawnFailed { cause } => harmless(
            text::caused("Failed to launch gated privileged package command"@, cause),
            Cleanup::Nothing,
        ),
        EventView::StatRead { stat } => match process::start_time(stat) {
            Err(fault) => unidentified(process::fault_message(fault)),
            Ok(_) => if transaction is Some {
                StageView::Publish
            } else {
                harmless(
                    "Package command started without a durable install transaction"@,
                    Cleanup::KillAndReap,
                )
            },
        },
        EventView::StatUnreadable { cause } => unidentified(
            text::caused("Failed to read "@ + process::stat_path(stage->pid), cause),
        ),
        EventView::Saved => StageView::Release,
        EventView::SaveFailed { cause } => harmless(
            text::caused("Failed to persist package-command ownership"@, cause),
            Cleanup::KillAndReap,
        ),
        EventView::Released => StageView::Wait,
        EventView::GateMissing => unknown(
            "Privileged package-command launcher has no stdin gate"@,
            Cleanup::CloseGateAndReap,
        ),
        EventView::ReleaseFailed { cause } => unknown(
            text::caused("Failed to release privileged package-command launch gate"@, cause),
            Cleanup::CloseGateAndReap,
        ),
        EventView::Finished { output } => StageView::Completed { output },
        EventView::WaitFailed { cause } => unknown(
            text::caused("Failed while waiting for privileged package command"@, cause),
            Cleanup::Nothing,
        ),
    }
}

/// The transaction after an answer to a stage: the launcher becomes its owner once it has been
/// identified.
pub open spec fn next_transaction(
    stage: StageView,
    event: EventView,
    transaction: Option<state::TransactionView>,
) -> Option<state::TransactionView> {
    match (event, transaction) {
        (EventView::StatRead { stat }, Some(transaction)) => match process::start_time(stat) {
            Ok(start_time_ticks) => Some(
                owned(transaction, ProcessIdentity { pid: stage->pid, start_time_ticks }),
            ),
            Err(_) => Some(transaction),
        },
        _ => transaction,
    }
}

fn harmless_failure(error: String, cleanup: Cleanup) -> (stage: CommandStage)
    ensures
        stage@ == harmless(error@, cleanup),
{
    CommandStage::Failed { failure: OwnedCommandFailure::before_mutation(error), cleanup }
}

fn unknown_failure(error: String, cleanup: Cleanup) -> (stage: CommandStage)
    ensures
        stage@ == unknown(error@, cleanup),
{
    CommandStage::Failed { failure: OwnedCommandFailure::outcome_unknown(error), cleanup }
}

fn unidentified_failure(cause: &str) -> (stage: CommandStage)
    ensures
        stage@ == unidentified(cause@),
{
    harmless_failure(
        text::with_cause("Failed to identify privileged package-command owner", cause),
        Cleanup::KillAndReap,
    )
}

/// Makes the launcher the owner of the transaction, given the text of its stat file.
fn publish_owner(pid: u32, stat: &str, state: &mut PersistedState) -> (stage: CommandStage)
    ensures
        stage@ == next_stage(
            StageView::Identify { pid },
            EventView::StatRead { stat: stat@ },
            old(state)@.install_transaction,
        ),
        final(state)@ == (state::StateView {
            install_transaction: next_transaction(
                StageView::Identify { pid },
                EventView::StatRead { stat: stat@ },
                old(state)@.install_transaction,
            ),
            ..old(state)@
        }),
{
    let identity = match process::process_identity(pid, stat) {
        Ok(identity) => identity,
        Err(fault) => {
            return unidentified_failure(fault.message().as_str());
        },
    };
    match state.install_transaction.take() {
        Some(transaction) => {
            let mut transaction = transaction;
            transaction.package_command = Some(identity);
            state.install_transaction = Some(transaction);
            CommandStage::Publish
        },
        None => harmless_failure(
            String::from_str("Package command started without a durable install transaction"),
            Cleanup::KillAndReap,
        ),
    }
}

/// Takes one step in running the command that owns a transaction: from the stage it is at and
/// what came of the work asked for there to the next stage. An event that does not answer the
/// stage changes nothing.
pub fn advance_owned_command(
    stage: CommandStage,
    event: CommandEvent,
    state: &mut PersistedState,
) -> (next: CommandStage)
    ensures
        answers(stage@, event@) ==> {
            &&& next@ == next_stage(stage@, event@, old(state)@.install_transaction)
            &&& final(state)@ == (state::StateView {
                install_transaction: next_transaction(
                    stage@,
                    event@,
                    old(state)@.install_transaction,
                ),
                ..old(state)@
            })
        },
        !answers(stage@, event@) ==> next == stage && final(state)@ == old(state)@,
{
    match (stage, event) {
        (CommandStage::Spawn, CommandEvent::Spawned { pid }) => CommandStage::Identify { pid },
        (CommandStage::Spawn, CommandEvent::SpawnFailed { cause }) => harmless_failure(
            text::with_cause(
                "Failed to launch gated privileged package command",
                cause.as_str(),
            ),
            Cleanup::Nothing,
        ),
        (CommandStage::Identify { pid }, CommandEvent::StatRead { stat }) => publish_owner(
            pid,
            stat.as_str(),
            state,
        ),
        (CommandStage::Identify { pid }, CommandEvent::StatUnreadable { cause }) => {
            let mut context = String::from_str("Failed to read ");
            context.append(process::process_stat_path(pid).as_str());
            unidentified_failure(text::with_cause(context.as_str(), cause.as_str()).as_str())
        },
        (CommandStage::Publish, CommandEvent::Saved) => CommandStage::Release,
        (CommandStage::Publish, CommandEvent::SaveFailed { cause }) => harmless_failure(
            text::with_cause("Failed to persist package-command ownership", cause.as_str()),
            Cleanup::KillAndReap,
        ),
        (CommandStage::Release, CommandEvent::Released) => CommandStage::Wait,
        // Once writing the launch token has been attempted, nothing proves any more that the
        // launcher did not get it. The owner stays on record, and whether it lives decides.
        (CommandStage::Release, CommandEvent::GateMissing) => unknown_failure(
            String::from_str("Privileged package-command launcher has no stdin gate"),
            Cleanup::CloseGateAndReap,
        ),
        (CommandStage::Release, CommandEvent::ReleaseFailed { cause }) => unknown_failure(
            text::with_cause(
                "Failed to release privileged package-command launch gate",
                cause.as_str(),
            ),
            Cleanup::CloseGateAndReap,
        ),
        (CommandStage::Wait, CommandEvent::Finished { output }) => CommandStage::Completed {
            output,
        },
        (CommandStage::Wait, CommandEvent::WaitFailed { cause }) => unknown_failure(
            text::with_cause(
                "Failed while waiting for privileged package command",
                cause.as_str(),
            ),
            Cleanup::Nothing,
        ),
        (stage, _) => stage,
    }
}

/// A command that is being run, together with what has been done so far.
pub struct CommandRun {
    pub stage: StageView,
    pub transaction: Option<state::TransactionView>,
    /// The process number of the launcher, once there is one.
    pub launcher: Option<u32>,
    /// The launcher as its stat file identified it, once it has.
    pub identity: Option<ProcessIdentity>,
    /// The transaction as this run last saved it.
    pub saved: Option<state::TransactionView>,
    /// Whether writing the launch token has been attempted.
    pub release_attempted: bool,
}

/// A command that is about to be run for a state with the given transaction.
pub open spec fn run_start(transaction: Option<state::TransactionView>) -> CommandRun {
    CommandRun {
        stage: StageView::Spawn,
        transaction,
        launcher: None,
        identity: None,
        saved: None,
        release_attempted: false,
    }
}

/// One step of a run.
pub open spec fn run_step(run: CommandRun, event: EventView) -> CommandRun {
    if answers(run.stage, event) {
        CommandRun {
            stage: next_stage(run.stage, event, run.transaction),
            transaction: next_transaction(run.stage, event, run.transaction),
            launcher: match event {
                EventView::Spawned { pid } => Some(pid),
                _ => run.launcher,
            },
            identity: match event {
                EventView::StatRead { stat } => match process::start_time(stat) {
                    Ok(start_time_ticks) => Some(
                        ProcessIdentity { pid: run.stage->pid, start_time_ticks },
                    ),
                    Err(_) => run.identity,
                },
                _ => run.identity,
            },
            saved: if event is Saved {
                run.transaction
            } else {
                run.saved
            },
            release_attempted: run.release_attempted || run.stage is Release,
        }
    } else {
        run
    }
}

/// A run after a sequence of events.
pub open spec fn run_after(
    transaction: Option<state::TransactionView>,
    events: Seq<EventView>,
) -> CommandRun
    decreases events.len(),
{
    if events.len() == 0 {
        run_start(transaction)
    } else {
        run_step(run_after(transaction, events.drop_last()), events.last())
    }
}

/// Whether the launcher of a run, as it was identified, is the owner on record.
pub open spec fn launcher_owns(run: CommandRun, transaction: Option<state::TransactionView>) -> bool {
    &&& run.identity matches Some(identity)
    &&& run.launcher == Some(identity.pid)
    &&& transaction matches Some(transaction)
    &&& transaction.package_command == Some(identity)
}

spec fn run_invariant(run: CommandRun, start: Option<state::TransactionView>) -> bool {
    let published = launcher_owns(run, run.transaction);
    let durable = launcher_owns(run, run.saved) && run.saved == run.transaction;
    let untouched = run.transaction == start;
    &&& run.transaction is Some == start is Some
    &&& start is Some ==> run.transaction->0 == (state::TransactionView {
        package_command: run.transaction->0.package_command,
        ..start->0
    })
    &&& match run.stage {
        StageView::Spawn => untouched && !run.release_attempted,
        StageView::Identify { pid } => untouched && run.launcher == Some(pid)
            && !run.release_attempted,
        StageView::Publish => published && !run.release_attempted,
        StageView::Release => durable && !run.release_attempted,
        StageView::Wait => durable && run.release_attempted,
        StageView::Completed { .. } => durable && run.release_attempted,
        StageView::Failed { failure, .. } => {
            &&& failure.mutation_may_have_started == run.release_attempted
            &&& run.release_attempted ==> durable
            &&& published || untouched
        },
    }
}

proof fn lemma_run(start: Option<state::TransactionView>, events: Seq<EventView>)
    ensures
        run_invariant(run_after(start, events), start),
    decreases events.len(),
{
    if events.len() > 0 {
        lemma_run(start, events.drop_last());
    }
}

/// The launch token is written, and a command runs, only for a launcher that has been saved as
/// the owner of the transaction, by the very identity that was found of it; and that stays so.
pub proof fn law_release_follows_durable_ownership(
    start: Option<state::TransactionView>,
    events: Seq<EventView>,
)
    ensures
        ({
            let run = run_after(start, events);
            run.stage is Release || run.release_attempted ==> launcher_owns(run, run.saved)
                && run.saved == run.transaction
        }),
{
    lemma_run(start, events);
}

/// A failure is said to have changed nothing exactly where writing the launch token was never
/// attempted; and a command that completed was let go.
pub proof fn law_failures_are_classified(
    start: Option<state::TransactionView>,
    events: Seq<EventView>,
)
    ensures
        ({
            let run = run_after(start, events);
            &&& run.stage matches StageView::Failed { failure, .. }
                ==> failure.mutation_may_have_started == run.release_attempted
            &&& run.stage is Completed ==> run.release_attempted
        }),
{
    lemma_run(start, events);
}

/// Running a command changes nothing in a transaction but its owner, and nothing at all before
/// the launcher has been identified.
pub proof fn law_only_the_owner_changes(
    start: Option<state::TransactionView>,
    events: Seq<EventView>,
)
    ensures
        ({
            let run = run_after(start, events);
            &&& run.transaction is Some == start is Some
            &&& start is Some ==> run.transaction->0 == (state::TransactionView {
                package_command: run.transaction->0.package_command,
                ..start->0
            })
            &&& run.transaction != start ==> launcher_owns(run, run.transaction)
        }),
{
    lemma_run(start, events);
}

/// A launcher that cannot be spawned leaves the transaction as it was, without an owner it did
/// not have, and the failure counts as harmless.
pub proof fn law_failed_spawn_publishes_no_owner(
    start: Option<state::TransactionView>,
    cause: Seq<char>,
)
    ensures
        ({
            let run = run_after(start, seq![EventView::SpawnFailed { cause }]);
            &&& run.transaction == start
            &&& run.stage matches StageView::Failed { failure, cleanup }
            &&& !failure.mutation_may_have_started
            &&& cleanup == Cleanup::Nothing
        }),
{
    let events = seq![EventView::SpawnFailed { cause }];
    assert(events.drop_last() =~= seq![]);
    reveal_with_fuel(run_after, 2);
}

/// A run that has ended stays as it is.
pub proof fn law_ended_runs_stay(run: CommandRun, event: EventView)
    requires
        run.stage is Completed || run.stage is Failed,
    ensures
        run_step(run, event) == run,
{
}

/// Each event answers one stage and no other; nothing answers a run that has ended.
pub proof fn law_each_event_answers_one_stage(stage: StageView, event: EventView)
    ensures
        event is Spawned || event is SpawnFailed ==> (answers(stage, event) <==> stage is Spawn),
        event is StatRead || event is StatUnreadable ==> (answers(stage, event)
            <==> stage is Identify),
        event is Saved || event is SaveFailed ==> (answers(stage, event) <==> stage is Publish),
        event is Released || event is GateMissing || event is ReleaseFailed ==> (answers(
            stage,
            event,
        ) <==> stage is Release),
        event is Finished || event is WaitFailed ==> (answers(stage, event) <==> stage is Wait),
{
}

/// A command goes through its stages in order, and leaves each only for the next or for a
/// failure: it is identified once spawned, published once identified for a transaction, let go
/// once saved, waited for once let go, and complete once finished.
pub proof fn law_command_goes_through_its_stages_in_order(
    stage: StageView,
    event: EventView,
    transaction: Option<state::TransactionView>,
)
    requires
        answers(stage, event),
    ensures
        ({
            let next = next_stage(stage, event, transaction);
            &&& next !is Spawn
            &&& next is Identify <==> stage is Spawn && event is Spawned
            &&& next is Identify ==> next->pid == event->pid
            &&& next is Publish <==> stage is Identify && event is StatRead && process::start_time(
                event->stat,
            ) is Ok && transaction is Some
            &&& next is Release <==> stage is Publish && event is Saved
            &&& next is Wait <==> stage is Release && event is Released
            &&& next is Completed <==> stage is Wait && event is Finished
        }),
{
}

/// A command completes with exactly what it left behind: the exit status and both outputs are
/// those that were collected.
pub proof fn law_completion_hands_the_output_back(
    output: CommandOutput,
    transaction: Option<state::TransactionView>,
)
    ensures
        ({
            let event = EventView::Finished { output };
            let next = next_stage(StageView::Wait, event, transaction);
            &&& answers(StageView::Wait, event)
            &&& next is Completed
            &&& next->output.exit_code == output.exit_code
            &&& next->output.stdout@ == output.stdout@
            &&& next->output.stderr@ == output.stderr@
            &&& next->output.succeeded() <==> output.exit_code == Some(0i32)
        }),
{
}

/// A run that is complete ended with an output that was collected in it, unchanged.
pub proof fn law_completed_output_was_collected(
    start: Option<state::TransactionView>,
    events: Seq<EventView>,
)
    requires
        run_after(start, events).stage is Completed,
    ensures
        exists|i: int|
            0 <= i < events.len() && #[trigger] events[i] is Finished
                && events[i]->Finished_output.exit_code == run_after(
                start,
                events,
            ).stage->output.exit_code && events[i]->Finished_output.stdout@ == run_after(
                start,
                events,
            ).stage->output.stdout@ && events[i]->Finished_output.stderr@ == run_after(
                start,
                events,
            ).stage->output.stderr@,
    decreases events.len(),
{
    let rest = events.drop_last();
    if run_after(start, rest).stage is Completed {
        law_completed_output_was_collected(start, rest);
        let i = choose|i: int|
            0 <= i < rest.len() && #[trigger] rest[i] is Finished
                && rest[i]->Finished_output.exit_code == run_after(
                start,
                rest,
            ).stage->output.exit_code && rest[i]->Finished_output.stdout@ == run_after(
                start,
                rest,
            ).stage->output.stdout@ && rest[i]->Finished_output.stderr@ == run_after(
                start,
                rest,
            ).stage->output.stderr@;
        assert(events[i] == rest[i]);
    } else {
        assert(events[events.len() - 1] is Finished);
    }
}

/// A run whose command never finished with status zero never ends in an output that succeeded.
pub proof fn law_bad_exit_is_never_a_success(
    start: Option<state::TransactionView>,
    events: Seq<EventView>,
)
    requires
        forall|i: int|
            0 <= i < events.len() && #[trigger] events[i] is Finished
                ==> events[i]->Finished_output.exit_code != Some(0i32),
    ensures
        run_after(start, events).stage is Completed ==> !run_after(
            start,
            events,
        ).stage->output.succeeded(),
{
    if run_after(start, events).stage is Completed {
        law_completed_output_was_collected(start, events);
    }
}

/// A failure may have changed something exactly where the launcher was to be let go or had been.
/// The launcher is killed where it was spawned and not to be let go yet, left to end by itself
/// where letting it go failed, and needs nothing where there is none or it was waited for.
pub proof fn law_cleanup_fits_the_stage(
    stage: StageView,
    event: EventView,
    transaction: Option<state::TransactionView>,
)
    requires
        answers(stage, event),
        next_stage(stage, event, transaction) is Failed,
    ensures
        ({
            let next = next_stage(stage, event, transaction);
            &&& next->failure.mutation_may_have_started <==> stage is Release || stage is Wait
            &&& next->cleanup == Cleanup::Nothing <==> stage is Spawn || stage is Wait
            &&& next->cleanup == Cleanup::KillAndReap <==> stage is Identify || stage is Publish
            &&& next->cleanup == Cleanup::CloseGateAndReap <==> stage is Release
        }),
{
}

/// Each failure says what was being done, and ends in its cause where it has one.
pub proof fn law_command_failures_say_what_failed(
    pid: u32,
    cause: Seq<char>,
    stat: Seq<char>,
    transaction: Option<state::TransactionView>,
)
    ensures
        next_stage(
            StageView::Spawn,
            EventView::SpawnFailed { cause },
            transaction,
        )->failure.error == "Failed to launch gated privileged package command: "@ + cause,
        next_stage(
            StageView::Identify { pid },
            EventView::StatUnreadable { cause },
            transaction,
        )->failure.error
            == "Failed to identify privileged package-command owner: Failed to read "@
            + process::stat_path(pid) + ": "@ + cause,
        process::start_time(stat) is Err ==> next_stage(
            StageView::Identify { pid },
            EventView::StatRead { stat },
            transaction,
        )->failure.error == "Failed to identify privileged package-command owner: "@
            + process::fault_message(process::start_time(stat)->Err_0),
        process::start_time(stat) is Ok && transaction is None ==> next_stage(
            StageView::Identify { pid },
            EventView::StatRead { stat },
            transaction,
        )->failure.error == "Package command started without a durable install transaction"@,
        next_stage(
            StageView::Publish,
            EventView::SaveFailed { cause },
            transaction,
        )->failure.error == "Failed to persist package-command ownership: "@ + cause,
        next_stage(
            StageView::Release,
            EventView::GateMissing,
            transaction,
        )->failure.error == "Privileged package-command launcher has no stdin gate"@,
        next_stage(
            StageView::Release,
            EventView::ReleaseFailed { cause },
            transaction,
        )->failure.error == "Failed to release privileged package-command launch gate: "@ + cause,
        next_stage(
            StageView::Wait,
            EventView::WaitFailed { cause },
            transaction,
        )->failure.error == "Failed while waiting for privileged package command: "@ + cause,
{
    reveal_strlit(": ");
    reveal_strlit("Failed to read ");
    reveal_strlit("Failed to launch gated privileged package command");
    reveal_strlit("Failed to launch gated privileged package command: ");
    reveal_strlit("Failed to identify privileged package-command owner");
    reveal_strlit("Failed to identify privileged package-command owner: ");
    reveal_strlit("Failed to identify privileged package-command owner: Failed to read ");
    reveal_strlit("Failed to persist package-command ownership");
    reveal_strlit("Failed to persist package-command ownership: ");
    reveal_strlit("Failed to release privileged package-command launch gate");
    reveal_strlit("Failed to release privileged package-command launch gate: ");
    reveal_strlit("Failed while waiting for privileged package command");
    reveal_strlit("Failed while waiting for privileged package command: ");
    let path = process::stat_path(pid);
    assert(text::caused("Failed to launch gated privileged package command"@, cause)
        =~= "Failed to launch gated privileged package command: "@ + cause);
    assert(text::caused(
        "Failed to identify privileged package-command owner"@,
        text::caused("Failed to read "@ + path, cause),
    ) =~= "Failed to identify privileged package-command owner: Failed to read "@ + path + ": "@
        + cause);
    if process::start_time(stat) is Err {
        let message = process::fault_message(process::start_time(stat)->Err_0);
        assert(text::caused("Failed to identify privileged package-command owner"@, message)
            =~= "Failed to identify privileged package-command owner: "@ + message);
    }
    assert(text::caused("Failed to persist package-command ownership"@, cause)
        =~= "Failed to persist package-command ownership: "@ + cause);
    assert(text::caused("Failed to release privileged package-command launch gate"@, cause)
        =~= "Failed to release privileged package-command launch gate: "@ + cause);
    assert(text::caused("Failed while waiting for privileged package command"@, cause)
        =~= "Failed while waiting for privileged package command: "@ + cause);
}

/// Identifying the launcher makes it the owner of the transaction, by its process number and by
/// the start time in its stat file, and changes nothing else of it. No other event touches the
/// transaction, nor does a stat file that gives no start time.
pub proof fn law_identified_launcher_becomes_the_owner(
    stage: StageView,
    event: EventView,
    transaction: Option<state::TransactionView>,
)
    requires
        answers(stage, event),
    ensures
        ({
            let next = next_transaction(stage, event, transaction);
            let identified = event is StatRead && process::start_time(event->stat) is Ok;
            &&& next is Some <==> transaction is Some
            &&& !identified ==> next == transaction
            &&& identified && transaction is Some ==> {
                &&& next->0.package_command is Some
                &&& next->0.package_command->0.pid == stage->pid
                &&& next->0.package_command->0.start_time_ticks == process::start_time(
                    event->stat,
                )->Ok_0
                &&& next->0.package_path == transaction->0.package_path
                &&& next->0.package_sha256 == transaction->0.package_sha256
                &&& next->0.started_at == transaction->0.started_at
                &&& next->0.operation == transaction->0.operation
            }
        }),
{
}

/// What is seen of a stage is the stage itself.
pub proof fn law_stages_are_seen_as_they_are(stage: CommandStage)
    ensures
        stage is Spawn ==> stage@ is Spawn,
        stage matches CommandStage::Identify { pid } ==> stage@ == (StageView::Identify { pid }),
        stage is Publish ==> stage@ is Publish,
        stage is Release ==> stage@ is Release,
        stage is Wait ==> stage@ is Wait,
        stage matches CommandStage::Completed { output } ==> stage@ == (StageView::Completed {
            output,
        }),
        stage matches CommandStage::Failed { failure, cleanup } ==> {
            &&& stage@ is Failed
            &&& stage@->failure.error == failure.error@
            &&& stage@->failure.mutation_may_have_started == failure.mutation_may_have_started
            &&& stage@->cleanup == cleanup
        },
{
}

/// What is seen of an event is the event itself.
pub proof fn law_events_are_seen_as_they_are(event: CommandEvent)
    ensures
        event matches CommandEvent::Spawned { pid } ==> event@ == (EventView::Spawned { pid }),
        event matches CommandEvent::SpawnFailed { cause } ==> event@ == (EventView::SpawnFailed {
            cause: cause@,
        }),
        event matches CommandEvent::StatRead { stat } ==> event@ == (EventView::StatRead {
            stat: stat@,
        }),
        event matches CommandEvent::StatUnreadable { cause } ==> event@
            == (EventView::StatUnreadable { cause: cause@ }),
        event is Saved ==> event@ is Saved,
        event matches CommandEvent::SaveFailed { cause } ==> event@ == (EventView::SaveFailed {
            cause: cause@,
        }),
        event is Released ==> event@ is Released,
        event is GateMissing ==> event@ is GateMissing,
        event matches CommandEvent::ReleaseFailed { cause } ==> event@
            == (EventView::ReleaseFailed { cause: cause@ }),
        event matches CommandEvent::Finished { output } ==> event@ == (EventView::Finished {
            output,
        }),
        event matches CommandEvent::WaitFailed { cause } ==> event@ == (EventView::WaitFailed {
            cause: cause@,
        }),
{
}

} // verus!
