//! Durable ownership for package-replacing updater transactions.

use crate::clock;
use crate::clock::Timestamp;
use crate::process;
use crate::state;
use crate::state::{
    InstallOperation, InstallTransaction, PersistedState, ProcessIdentity, UpdateStatus,
};
use crate::text;
use sha2::Digest;
use vstd::prelude::*;
use vstd::string::*;

verus! {

/// How many seconds a transaction whose owner is gone is left alone.
pub const ABANDONED_INSTALL_GRACE: u64 = 300;

/// The SHA-256 digest of bytes.
pub uninterp spec fn sha256(bytes: Seq<u8>) -> Seq<u8>;

/// Computes a digest with `sha2::Sha256::digest`: 32 bytes, a function of the bytes alone.
#[verifier::external_body]
fn sha256_digest(bytes: &[u8]) -> (digest: Vec<u8>)
    ensures
        digest@ == sha256(bytes@),
        digest@.len() == 32,
{
    sha2::Sha256::digest(bytes).to_vec()
}

/// The digest of a package's bytes, in lower-case hexadecimal.
pub fn package_sha256(bytes: &[u8]) -> (digest: String)
    ensures
        digest@ == text::hex(sha256(bytes@)),
        digest@.len() == 64,
{
    let digest = sha256_digest(bytes);
    text::hex_text(digest.as_slice())
}

/// A state in which a transaction has just begun. No command owns it yet.
pub open spec fn begun(
    state: state::StateView,
    package_path: Seq<char>,
    package_sha256: Seq<char>,
    started_at: Timestamp,
    operation: InstallOperation,
) -> state::StateView {
    state::StateView {
        status: UpdateStatus::Installing,
        error_message: None,
        install_transaction: Some(
            state::TransactionView {
                package_path,
                package_sha256: Some(package_sha256),
                package_command: None,
                started_at,
                operation,
            },
        ),
        ..state
    }
}

/// Begins a transaction for a package with the given digest at the given moment.
pub fn begin_at(
    state: &mut PersistedState,
    package_path: &str,
    package_sha256: String,
    started_at: Timestamp,
    operation: InstallOperation,
)
    ensures
        final(state)@ == begun(
            old(state)@,
            package_path@,
            package_sha256@,
            started_at,
            operation,
        ),
{
    state.status = UpdateStatus::Installing;
    state.error_message = None;
    // No package mutation is active yet: the command that will own the transaction is published
    // before it is let go. Naming the updater here would make a failed launch look alive for as
    // long as the updater runs.
    state.install_transaction = Some(
        InstallTransaction {
            package_path: String::from_str(package_path),
            package_sha256: Some(package_sha256),
            package_command: None,
            started_at,
            operation,
        },
    );
}

/// Whether a moment can be what the clock says: it lies in the calendar's range, not before the
/// Unix epoch, and is no leap second.
pub open spec fn clock_reading(moment: Timestamp) -> bool {
    &&& clock::names_moment(moment.seconds(), moment.subsec() as int)
    &&& moment.seconds() >= 0
    &&& moment.subsec() < clock::NANOS
}

/// Begins a transaction now for the package that lies at a path and consists of the given bytes.
/// The state is to be saved next. The moment recorded is whatever the clock says.
pub fn begin(
    state: &mut PersistedState,
    package_path: &str,
    package: &[u8],
    operation: InstallOperation,
)
    ensures
        final(state)@ == begun(
            old(state)@,
            package_path@,
            text::hex(sha256(package@)),
            final(state)@.install_transaction->0.started_at,
            operation,
        ),
        clock_reading(final(state)@.install_transaction->0.started_at),
        final(state)@.install_transaction->0.started_at.told_by_the_clock(),
{
    let digest = package_sha256(package);
    let now = Timestamp::now();
    begin_at(state, package_path, digest, now, operation);
}

/// Whether the command that owns a transaction is still running, given the text of the stat file
/// of that command's process number; `None` where it could not be read.
pub open spec fn active(
    transaction: state::TransactionView,
    owner_stat: Option<Seq<char>>,
) -> bool {
    transaction.package_command matches Some(owner) && process::alive(owner, owner_stat)
}

/// Whether the command that owns a transaction is still running. The text of the stat file of
/// that command's process number is `None` where it could not be read, or where there is no
/// owner to look for.
pub fn is_active(transaction: &InstallTransaction, owner_stat: Option<&str>) -> (answer: bool)
    ensures
        answer == active(
            transaction@,
            match owner_stat {
                Some(stat) => Some(stat@),
                None => None,
            },
        ),
{
    match &transaction.package_command {
        Some(owner) => process::identity_is_alive(owner, owner_stat),
        None => false,
    }
}

/// Whether a transaction has outlived its grace at a moment. A start that lies in the future
/// does not extend it.
pub open spec fn out_of_grace(started_at: Timestamp, now: Timestamp) -> bool {
    let waited = now.nanos_since(started_at);
    waited < 0 || waited >= ABANDONED_INSTALL_GRACE * clock::NANOS
}

/// Whether a transaction has outlived its grace at a moment.
pub fn grace_expired_at(transaction: &InstallTransaction, now: &Timestamp) -> (expired: bool)
    ensures
        expired == out_of_grace(transaction.started_at, *now),
{
    match now.since(&transaction.started_at) {
        Some((secs, _)) => secs >= ABANDONED_INSTALL_GRACE,
        None => true,
    }
}

/// Whether a transaction has outlived its grace by now.
pub fn grace_expired(transaction: &InstallTransaction) -> (expired: bool)
    ensures
        exists|now: Timestamp| #[trigger]
            now.told_by_the_clock() && clock_reading(now) && expired == out_of_grace(
                transaction.started_at,
                now,
            ),
{
    let now = Timestamp::now();
    assert(now.told_by_the_clock());
    grace_expired_at(transaction, &now)
}

/// A transaction that has just begun has no owner, so it does not count as running.
pub proof fn law_begun_transaction_has_no_owner(
    state: state::StateView,
    package_path: Seq<char>,
    package_sha256: Seq<char>,
    started_at: Timestamp,
    operation: InstallOperation,
    owner_stat: Option<Seq<char>>,
)
    ensures
        ({
            let after = begun(state, package_path, package_sha256, started_at, operation);
            &&& after.status == UpdateStatus::Installing
            &&& after.install_transaction matches Some(transaction)
            &&& transaction.package_command is None
            &&& !active(transaction, owner_stat)
        }),
{
}

/// An owner whose process number has passed to another process does not keep a transaction
/// running: where the stat file gives another start time, or none, the transaction is not active.
pub proof fn law_stale_owner_does_not_keep_a_transaction_active(
    transaction: state::TransactionView,
    owner: ProcessIdentity,
    owner_stat: Option<Seq<char>>,
)
    requires
        transaction.package_command == Some(owner),
        owner_stat matches Some(stat) ==> process::start_time(stat) != Ok::<
            u64,
            process::StatFaultView,
        >(owner.start_time_ticks),
    ensures
        !active(transaction, owner_stat),
{
}

/// Whether one moment comes after another on the clock.
pub open spec fn comes_after(moment: Timestamp, other: Timestamp) -> bool {
    ||| moment.seconds() > other.seconds()
    ||| moment.seconds() == other.seconds() && moment.subsec() > other.subsec()
}

/// Whether a moment lies in the leap second at the end of a day, so far in that the other moment,
/// in the first second of the next day, does not count as later.
pub open spec fn runs_past_midnight(moment: Timestamp, other: Timestamp) -> bool {
    &&& other.seconds() == moment.seconds() + 1
    &&& other.seconds() % (clock::DAY as int) == 0
    &&& moment.subsec() >= clock::NANOS + other.subsec()
}

/// A start that lies in the future does not extend the grace. Only where the present runs past
/// midnight in a leap second, which the clock never gives, does the next second not count as the
/// future.
pub proof fn law_future_start_does_not_extend_grace(started_at: Timestamp, now: Timestamp)
    requires
        clock::names_moment(now.seconds(), now.subsec() as int),
        clock::names_moment(started_at.seconds(), started_at.subsec() as int),
        comes_after(started_at, now),
        !runs_past_midnight(now, started_at),
    ensures
        out_of_grace(started_at, now),
{
}

/// Whether the leap second in which a transaction began counts as having passed at a moment: the
/// time of day is later than that of the start.
pub open spec fn counts_leap_start(started_at: Timestamp, moment: Timestamp) -> bool {
    &&& started_at.subsec() >= clock::NANOS
    &&& moment.seconds() % (clock::DAY as int) > started_at.seconds() % (clock::DAY as int)
}

/// Grace that has run out stays so as time goes on, unless it began in a leap second that counts
/// at the first moment and no longer at the second.
pub proof fn law_expired_grace_stays_expired(
    started_at: Timestamp,
    now: Timestamp,
    later: Timestamp,
)
    requires
        now.subsec() < clock::NANOS,
        later.subsec() < clock::NANOS,
        now.nanos_since(started_at) >= 0,
        !comes_after(now, later),
        counts_leap_start(started_at, now) ==> counts_leap_start(started_at, later),
        out_of_grace(started_at, now),
    ensures
        out_of_grace(started_at, later),
{
}

/// Beginning a transaction puts on record just what it was given: the package, its digest, the
/// start and the operation, whichever it is. The state is installing, the last error is gone, and
/// with these three put back it is the state as it was.
pub proof fn law_beginning_records_what_is_begun(
    state: state::StateView,
    package_path: Seq<char>,
    package_sha256: Seq<char>,
    started_at: Timestamp,
    operation: InstallOperation,
)
    ensures
        ({
            let after = begun(state, package_path, package_sha256, started_at, operation);
            &&& after.install_transaction is Some
            &&& after.install_transaction->0.package_path == package_path
            &&& after.install_transaction->0.package_sha256 == Some(package_sha256)
            &&& after.install_transaction->0.package_command is None
            &&& after.install_transaction->0.started_at == started_at
            &&& after.install_transaction->0.operation == operation
            &&& after.status == UpdateStatus::Installing
            &&& after.error_message is None
            &&& (state::StateView {
                status: state.status,
                error_message: state.error_message,
                install_transaction: state.install_transaction,
                ..after
            }) == state
        }),
{
}

/// Transactions that were begun differently are told apart by what is on record of them.
pub proof fn law_different_beginnings_leave_different_records(
    state: state::StateView,
    a: (Seq<char>, Seq<char>, Timestamp, InstallOperation),
    b: (Seq<char>, Seq<char>, Timestamp, InstallOperation),
)
    requires
        begun(state, a.0, a.1, a.2, a.3) == begun(state, b.0, b.1, b.2, b.3),
    ensures
        a == b,
{
    let before = begun(state, a.0, a.1, a.2, a.3);
    let after = begun(state, b.0, b.1, b.2, b.3);
    assert(before.install_transaction->0 == after.install_transaction->0);
}

/// A transaction is running exactly where it has an owner and the stat file of that owner's
/// process number can be read and gives the owner's start time.
pub proof fn law_running_means_that_the_owner_lives(
    transaction: state::TransactionView,
    owner_stat: Option<Seq<char>>,
)
    ensures
        active(transaction, owner_stat) <==> {
            &&& transaction.package_command is Some
            &&& owner_stat is Some
            &&& process::start_time(owner_stat->0) is Ok
            &&& process::start_time(owner_stat->0)->Ok_0
                == transaction.package_command->0.start_time_ticks
        },
{
}

/// Leap seconds aside, grace lasts from the start on for three hundred seconds, the last of them
/// not included: a transaction is left alone exactly in that time.
pub proof fn law_grace_lasts_three_hundred_seconds(started_at: Timestamp, now: Timestamp)
    requires
        started_at.subsec() < 1_000_000_000,
        now.subsec() < 1_000_000_000,
    ensures
        !out_of_grace(started_at, now) <==> started_at.seconds() * 1_000_000_000
            + started_at.subsec() <= now.seconds() * 1_000_000_000 + now.subsec()
            < (started_at.seconds() + 300) * 1_000_000_000 + started_at.subsec(),
{
}

/// A transaction is out of grace exactly where fewer nanoseconds than none, or three hundred
/// seconds of them, have passed since its start.
pub proof fn law_grace_is_measured_from_the_start(started_at: Timestamp, now: Timestamp)
    ensures
        out_of_grace(started_at, now) <==> !(0 <= now.nanos_since(started_at) < 300_000_000_000),
{
}

} // verus!
