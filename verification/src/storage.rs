//! The cached score and the refresh lock, and how both are written to a store that others write to
//! at the same time.
//!
//! The store is asked from outside this library. Each function below takes what the store replied
//! and says what to ask next.

use crate::config;
use crate::config::REFRESH_LOCK_TTL_SECONDS;
use crate::score::Score;
use vstd::prelude::*;

verus! {

/// How often a write is tried. A conflict says that another writer won, so a few tries are enough.
pub const CAS_MAX_RETRIES: u32 = 3;

/// The cached score of an asset.
#[derive(Debug)]
pub struct CachedScore {
    pub score: Score,
    /// When the score was fetched, in seconds since the epoch.
    pub timestamp: i64,
}

/// The refresh lock of an asset.
#[derive(Clone, Copy, Debug)]
pub struct RefreshLock {
    /// When the holder acquired the lock, in seconds since the epoch.
    pub acquired_at: i64,
}

/// On which condition an entry is stored.
#[derive(Debug)]
pub enum StoreMode {
    /// There is none yet.
    Absent,
    /// The one that is there has this version.
    Cas(String),
}

/// Why the store did not do what it was asked.
#[derive(Debug)]
pub enum StorageError {
    /// The condition of a [`StoreMode`] did not hold.
    CasMismatch,
    /// Anything else, in words.
    Unexpected(String),
}

/// How the writing of a score ended.
#[derive(Debug)]
pub enum WriteOutcome {
    Stored,
    /// The store failed to say what it holds.
    ReadFailed(StorageError),
    /// The store failed to take the entry.
    StoreFailed(StorageError),
    /// Other writers won every time.
    Exhausted,
}

/// What to ask the store next while a score is written. `attempt` counts the conflicts so far.
#[derive(Debug)]
pub enum WriteStep {
    Read { attempt: u32 },
    Store { attempt: u32, mode: StoreMode },
    Done(WriteOutcome),
}

/// What to ask the store next while the refresh lock is acquired.
#[derive(Debug)]
pub enum LockStep {
    /// Store the entry where there is none.
    Claim { entry: RefreshLock },
    /// Read the lock that is there.
    Inspect,
    /// Store the entry in place of the one with this version.
    TakeOver { entry: RefreshLock, version: String },
    /// Store the entry where there is none, once more.
    Reclaim { entry: RefreshLock },
    /// Whether the lock was acquired.
    Done(Result<bool, StorageError>),
}

impl Clone for CachedScore {
    fn clone(&self) -> (r: CachedScore)
        ensures
            r == *self,
    {
        CachedScore { score: self.score.clone(), timestamp: self.timestamp }
    }
}

/// What a reading of the store holds; a store that fails to be read counts as empty.
pub open spec fn entry_read<T>(reply: Result<Option<(T, String)>, StorageError>) -> Option<T> {
    match reply {
        Ok(Some((entry, _))) => Some(entry),
        _ => None,
    }
}

/// The step that follows a reading while a score is written.
pub open spec fn write_read<T>(
    attempt: u32,
    reply: Result<Option<(T, String)>, StorageError>,
) -> WriteStep {
    match reply {
        Ok(Some((_, version))) => WriteStep::Store { attempt, mode: StoreMode::Cas(version) },
        Ok(None) => WriteStep::Store { attempt, mode: StoreMode::Absent },
        Err(error) => WriteStep::Done(WriteOutcome::ReadFailed(error)),
    }
}

/// The step that follows a store while a score is written.
pub open spec fn write_stored(attempt: u32, reply: Result<(), StorageError>) -> WriteStep {
    match reply {
        Ok(_) => WriteStep::Done(WriteOutcome::Stored),
        Err(StorageError::CasMismatch) => if attempt + 1 < CAS_MAX_RETRIES {
            WriteStep::Read { attempt: (attempt + 1) as u32 }
        } else {
            WriteStep::Done(WriteOutcome::Exhausted)
        },
        Err(error) => WriteStep::Done(WriteOutcome::StoreFailed(error)),
    }
}

/// A lock is still held: it is younger than a lock may become.
pub open spec fn lock_fresh(lock: RefreshLock, now: i64) -> bool {
    now - lock.acquired_at < REFRESH_LOCK_TTL_SECONDS
}

/// The step that follows the first claim of the lock.
pub open spec fn lock_claimed(reply: Result<(), StorageError>) -> LockStep {
    match reply {
        Ok(_) => LockStep::Done(Ok(true)),
        Err(StorageError::CasMismatch) => LockStep::Inspect,
        Err(error) => LockStep::Done(Err(error)),
    }
}

/// The step that follows a reading of the lock.
pub open spec fn lock_inspected(
    reply: Result<Option<(RefreshLock, String)>, StorageError>,
    now: i64,
) -> LockStep {
    match reply {
        Ok(Some((lock, version))) => if lock_fresh(lock, now) {
            LockStep::Done(Ok(false))
        } else {
            LockStep::TakeOver { entry: RefreshLock { acquired_at: now }, version }
        },
        Ok(None) => LockStep::Reclaim { entry: RefreshLock { acquired_at: now } },
        Err(error) => LockStep::Done(Err(error)),
    }
}

/// Whether the lock was acquired by a take-over or a second claim.
pub open spec fn lock_settled(reply: Result<(), StorageError>) -> Result<bool, StorageError> {
    match reply {
        Ok(_) => Ok(true),
        Err(StorageError::CasMismatch) => Ok(false),
        Err(error) => Err(error),
    }
}

/// The cached score that a reading of the store holds. A store that fails to be read counts as
/// empty, so that a live score is fetched in its place.
pub fn read_cached_score(reply: Result<Option<(CachedScore, String)>, StorageError>) -> (r: Option<
    CachedScore,
>)
    ensures
        r == entry_read(reply),
{
    match reply {
        Ok(Some((cached, _))) => Some(cached),
        Ok(None) => None,
        Err(_) => None,
    }
}

/// The first step of writing a score.
pub fn write_start() -> (r: WriteStep)
    ensures
        r == (WriteStep::Read { attempt: 0 }),
{
    WriteStep::Read { attempt: 0 }
}

/// The entry is stored only on the condition that nothing has changed since it was read. It is
/// never deleted first: a deletion that spreads late would destroy the new entry.
pub fn write_after_read(
    attempt: u32,
    reply: Result<Option<(CachedScore, String)>, StorageError>,
) -> (r: WriteStep)
    ensures
        r == write_read(attempt, reply),
{
    match reply {
        Ok(Some((_, version))) => WriteStep::Store { attempt, mode: StoreMode::Cas(version) },
        Ok(None) => WriteStep::Store { attempt, mode: StoreMode::Absent },
        Err(error) => WriteStep::Done(WriteOutcome::ReadFailed(error)),
    }
}

/// A conflict is met by reading again, up to [`CAS_MAX_RETRIES`] tries in all; any other failure
/// ends the write.
pub fn write_after_store(attempt: u32, reply: Result<(), StorageError>) -> (r: WriteStep)
    ensures
        r == write_stored(attempt, reply),
{
    match reply {
        Ok(_) => WriteStep::Done(WriteOutcome::Stored),
        Err(StorageError::CasMismatch) => {
            if attempt < CAS_MAX_RETRIES - 1 {
                WriteStep::Read { attempt: attempt + 1 }
            } else {
                WriteStep::Done(WriteOutcome::Exhausted)
            }
        },
        Err(error) => WriteStep::Done(WriteOutcome::StoreFailed(error)),
    }
}

/// The first step of acquiring the refresh lock at a time in seconds since the epoch.
pub fn lock_start(now: i64) -> (r: LockStep)
    ensures
        r == (LockStep::Claim { entry: RefreshLock { acquired_at: now } }),
{
    LockStep::Claim { entry: RefreshLock { acquired_at: now } }
}

/// A claim that meets another lock is followed by a look at that lock.
pub fn lock_after_claim(reply: Result<(), StorageError>) -> (r: LockStep)
    ensures
        r == lock_claimed(reply),
{
    match reply {
        Ok(_) => LockStep::Done(Ok(true)),
        Err(StorageError::CasMismatch) => LockStep::Inspect,
        Err(error) => LockStep::Done(Err(error)),
    }
}

/// A lock that is still fresh is left alone. An old one is taken over, on the condition that
/// nobody else took it over first. One that has gone in the meantime is claimed once more.
pub fn lock_after_inspect(
    reply: Result<Option<(RefreshLock, String)>, StorageError>,
    now: i64,
) -> (r: LockStep)
    requires
        entry_read(reply) matches Some(lock) ==> i64::MIN <= now - lock.acquired_at <= i64::MAX,
    ensures
        r == lock_inspected(reply, now),
{
    match reply {
        Ok(Some((lock, version))) => {
            if now - lock.acquired_at < REFRESH_LOCK_TTL_SECONDS {
                LockStep::Done(Ok(false))
            } else {
                LockStep::TakeOver { entry: RefreshLock { acquired_at: now }, version }
            }
        },
        Ok(None) => LockStep::Reclaim { entry: RefreshLock { acquired_at: now } },
        Err(error) => LockStep::Done(Err(error)),
    }
}

/// Whether the lock was acquired, after a take-over or a second claim. A conflict here says that
/// another request won.
pub fn lock_after_last(reply: Result<(), StorageError>) -> (r: Result<bool, StorageError>)
    ensures
        r == lock_settled(reply),
{
    match reply {
        Ok(_) => Ok(true),
        Err(StorageError::CasMismatch) => Ok(false),
        Err(error) => Err(error),
    }
}

/// One step follows another while a score is written, whatever the store replies.
pub open spec fn write_follows(step: WriteStep, next: WriteStep) -> bool {
    match step {
        WriteStep::Read { attempt } => exists|
            reply: Result<Option<(CachedScore, String)>, StorageError>,
        | #[trigger] write_read(attempt, reply) == next,
        WriteStep::Store { attempt, .. } => exists|reply: Result<(), StorageError>| #[trigger]
            write_stored(attempt, reply) == next,
        WriteStep::Done(_) => false,
    }
}

/// How many steps there are left at most.
pub open spec fn steps_left(step: WriteStep) -> int {
    match step {
        WriteStep::Read { attempt } => 2 * config::larger(CAS_MAX_RETRIES - attempt, 1),
        WriteStep::Store { attempt, .. } => 2 * config::larger(CAS_MAX_RETRIES - attempt, 1) - 1,
        WriteStep::Done(_) => 0,
    }
}

/// The writing of a score ends, whatever the store replies: it reads and stores at most
/// [`CAS_MAX_RETRIES`] times each.
pub proof fn law_write_ends(steps: Seq<WriteStep>)
    requires
        steps.len() > 0,
        steps[0] == (WriteStep::Read { attempt: 0 }),
        forall|i: int|
            0 <= i < steps.len() - 1 ==> #[trigger] write_follows(steps[i], steps[i + 1]),
    ensures
        steps.len() <= 2 * CAS_MAX_RETRIES + 1,
{
    lemma_steps_left(steps, steps.len() - 1);
}

proof fn lemma_steps_left(steps: Seq<WriteStep>, n: int)
    requires
        0 <= n < steps.len(),
        steps[0] == (WriteStep::Read { attempt: 0 }),
        forall|i: int|
            0 <= i < steps.len() - 1 ==> #[trigger] write_follows(steps[i], steps[i + 1]),
    ensures
        0 <= steps_left(steps[n]) <= 2 * CAS_MAX_RETRIES - n,
    decreases n,
{
    if n > 0 {
        lemma_steps_left(steps, n - 1);
        assert(write_follows(steps[n - 1], steps[n - 1 + 1]));
    }
}

/// What a store replies that is asked to put an entry into a slot, and what the slot holds then. A
/// slot is empty or holds an entry with its version; the entry gets the version that is handed in.
pub open spec fn slot_put<T>(
    slot: Option<(T, String)>,
    mode: StoreMode,
    entry: T,
    version: String,
) -> (Result<(), StorageError>, Option<(T, String)>) {
    let holds = match mode {
        StoreMode::Absent => slot is None,
        StoreMode::Cas(expected) => slot matches Some((_, current)) && current == expected,
    };
    if holds {
        (Ok(()), Some((entry, version)))
    } else {
        (Err(StorageError::CasMismatch), slot)
    }
}

/// The version of what a slot holds.
pub open spec fn version_of<T>(slot: Option<(T, String)>) -> Option<String> {
    match slot {
        Some((_, version)) => Some(version),
        None => None,
    }
}

/// A write that reads a slot and then stores to it, on each try, and what the last try leaves. On
/// try `i` the slot is `rounds[i].0` when it is read and `rounds[i].1` when it is stored to.
pub open spec fn write_run(
    attempt: u32,
    rounds: Seq<(Option<(CachedScore, String)>, Option<(CachedScore, String)>)>,
    entry: CachedScore,
    version: String,
) -> (WriteStep, Option<(CachedScore, String)>)
    decreases rounds.len(),
{
    if rounds.len() == 0 {
        (WriteStep::Read { attempt }, None)
    } else {
        match write_read(attempt, Ok(rounds[0].0)) {
            WriteStep::Store { attempt, mode } => {
                let (reply, left) = slot_put(rounds[0].1, mode, entry, version);
                match write_stored(attempt, reply) {
                    WriteStep::Read { attempt } => write_run(
                        attempt,
                        rounds.skip(1),
                        entry,
                        version,
                    ),
                    step => (step, left),
                }
            },
            step => (step, rounds[0].1),
        }
    }
}

/// No other writer came between the reading and the storing.
pub open spec fn undisturbed(
    round: (Option<(CachedScore, String)>, Option<(CachedScore, String)>),
) -> bool {
    version_of(round.0) == version_of(round.1)
}

/// A score is written as soon as one of the tries is not disturbed by another writer, and what is
/// read from the store is then that score. Where every try is disturbed, the write is given up.
pub proof fn law_write_is_read_back(
    rounds: Seq<(Option<(CachedScore, String)>, Option<(CachedScore, String)>)>,
    entry: CachedScore,
    version: String,
)
    requires
        rounds.len() == CAS_MAX_RETRIES,
    ensures
        ({
            let (step, left) = write_run(0, rounds, entry, version);
            if exists|i: int| 0 <= i < rounds.len() && undisturbed(#[trigger] rounds[i]) {
                step == WriteStep::Done(WriteOutcome::Stored) && entry_read(Ok(left)) == Some(entry)
            } else {
                step == WriteStep::Done(WriteOutcome::Exhausted)
            }
        }),
{
    let one = rounds.skip(1);
    let two = one.skip(1);
    assert(one[0] == rounds[1]);
    assert(two[0] == rounds[2]);
    reveal_with_fuel(write_run, 4);
    assert(undisturbed(rounds[0]) || undisturbed(rounds[1]) || undisturbed(rounds[2]) || !(exists|
        i: int,
    | 0 <= i < rounds.len() && undisturbed(#[trigger] rounds[i])));
}

/// A write never destroys what it has not seen: where another writer came between the reading and
/// the storing, the slot keeps what that writer left.
pub proof fn law_write_keeps_what_it_has_not_seen(
    attempt: u32,
    seen: Option<(CachedScore, String)>,
    slot: Option<(CachedScore, String)>,
    entry: CachedScore,
    version: String,
)
    requires
        version_of(seen) != version_of(slot),
    ensures
        write_read(attempt, Ok(seen)) matches WriteStep::Store { mode, .. } && slot_put(
            slot,
            mode,
            entry,
            version,
        ) == (Err::<(), StorageError>(StorageError::CasMismatch), slot),
{
}

/// An attempt to acquire the lock that nobody else disturbs, and what it leaves in the slot.
pub open spec fn lock_run(
    slot: Option<(RefreshLock, String)>,
    now: i64,
    version: String,
) -> (Result<bool, StorageError>, Option<(RefreshLock, String)>) {
    let entry = RefreshLock { acquired_at: now };
    let (claim, claimed) = slot_put(slot, StoreMode::Absent, entry, version);
    match lock_claimed(claim) {
        LockStep::Done(result) => (result, claimed),
        _ => match lock_inspected(Ok(claimed), now) {
            LockStep::Done(result) => (result, claimed),
            LockStep::TakeOver { entry, version: held } => {
                let (reply, left) = slot_put(claimed, StoreMode::Cas(held), entry, version);
                (lock_settled(reply), left)
            },
            _ => {
                let (reply, left) = slot_put(claimed, StoreMode::Absent, entry, version);
                (lock_settled(reply), left)
            },
        },
    }
}

/// The lock is acquired where there is none and where the one that is there is old, and then
/// carries the time of its acquisition; a fresh lock is refused and left as it is.
pub proof fn law_lock_is_exclusive_while_fresh(
    slot: Option<(RefreshLock, String)>,
    now: i64,
    version: String,
)
    ensures
        (slot matches Some((lock, _)) && lock_fresh(lock, now)) ==> lock_run(
            slot,
            now,
            version,
        ) == (Ok::<bool, StorageError>(false), slot),
        !(slot matches Some((lock, _)) && lock_fresh(lock, now)) ==> lock_run(
            slot,
            now,
            version,
        ) == (Ok::<bool, StorageError>(true), Some((RefreshLock { acquired_at: now }, version))),
{
}

/// Whoever acquires the lock keeps a request that comes after it out for the life of the lock, and
/// no longer. Both attempts are undisturbed.
pub proof fn law_acquired_lock_keeps_others_out(
    slot: Option<(RefreshLock, String)>,
    first: i64,
    second: i64,
    version1: String,
    version2: String,
)
    requires
        lock_run(slot, first, version1).0 == Ok::<bool, StorageError>(true),
    ensures
        lock_run(lock_run(slot, first, version1).1, second, version2).0 == Ok::<bool, StorageError>(
            second - first >= REFRESH_LOCK_TTL_SECONDS,
        ),
{
    law_lock_is_exclusive_while_fresh(slot, first, version1);
    law_lock_is_exclusive_while_fresh(lock_run(slot, first, version1).1, second, version2);
}

/// What a slot holds after attempts to acquire the lock at the given times, one after the other.
pub open spec fn slot_after(
    slot: Option<(RefreshLock, String)>,
    times: Seq<i64>,
    versions: Seq<String>,
) -> Option<(RefreshLock, String)>
    decreases times.len(),
{
    if times.len() == 0 {
        slot
    } else {
        lock_run(
            slot_after(slot, times.drop_last(), versions.drop_last()),
            times.last(),
            versions.last(),
        ).1
    }
}

/// The attempt at the time `times[i]`, after all attempts before it, acquires the lock.
pub open spec fn acquires(
    slot: Option<(RefreshLock, String)>,
    times: Seq<i64>,
    versions: Seq<String>,
    i: int,
) -> bool {
    lock_run(slot_after(slot, times.take(i), versions.take(i)), times[i], versions[i]).0 == Ok::<
        bool,
        StorageError,
    >(true)
}

proof fn lemma_holder_is_no_older(
    slot: Option<(RefreshLock, String)>,
    times: Seq<i64>,
    versions: Seq<String>,
    i: int,
    j: int,
)
    requires
        0 <= i < j <= times.len(),
        versions.len() == times.len(),
        acquires(slot, times, versions, i),
    ensures
        slot_after(slot, times.take(j), versions.take(j)) matches Some((lock, _))
            && lock.acquired_at >= times[i],
    decreases j,
{
    assert(times.take(j).drop_last() =~= times.take(j - 1));
    assert(versions.take(j).drop_last() =~= versions.take(j - 1));
    if j > i + 1 {
        lemma_holder_is_no_older(slot, times, versions, i, j - 1);
    }
    law_lock_is_exclusive_while_fresh(
        slot_after(slot, times.take(j - 1), versions.take(j - 1)),
        times[j - 1],
        versions[j - 1],
    );
}

/// However many requests try to acquire the lock one after the other, each of them undisturbed, any
/// two that acquire it are at least the life of a lock apart. What holds of requests whose
/// operations interleave is said in the module `race`.
pub proof fn law_acquisitions_are_a_lock_life_apart(
    slot: Option<(RefreshLock, String)>,
    times: Seq<i64>,
    versions: Seq<String>,
    i: int,
    j: int,
)
    requires
        0 <= i < j < times.len(),
        versions.len() == times.len(),
        acquires(slot, times, versions, i),
        acquires(slot, times, versions, j),
    ensures
        times[j] - times[i] >= REFRESH_LOCK_TTL_SECONDS,
{
    lemma_holder_is_no_older(slot, times, versions, i, j);
    law_lock_is_exclusive_while_fresh(
        slot_after(slot, times.take(j), versions.take(j)),
        times[j],
        versions[j],
    );
}

/// Of two requests that act on the same lock, found by both to be old or found by both to be
/// absent, only the first acquires it.
pub proof fn law_only_one_request_wins(
    slot: Option<(RefreshLock, String)>,
    mode: StoreMode,
    first: RefreshLock,
    second: RefreshLock,
    version1: String,
    version2: String,
)
    requires
        slot_put(slot, mode, first, version1).0 is Ok,
        version_of(slot) != Some(version1),
    ensures
        lock_settled(slot_put(slot, mode, first, version1).0) == Ok::<bool, StorageError>(true),
        lock_settled(
            slot_put(slot_put(slot, mode, first, version1).1, mode, second, version2).0,
        ) == Ok::<bool, StorageError>(false),
        slot_put(slot_put(slot, mode, first, version1).1, mode, second, version2).1 == slot_put(
            slot,
            mode,
            first,
            version1,
        ).1,
{
}

/// What is read is the entry that is there; an empty store and one that fails hold none.
pub proof fn law_a_reading_is_the_entry<T>(entry: T, version: String, error: StorageError)
    ensures
        entry_read(Ok(Some((entry, version)))) == Some(entry),
        entry_read::<T>(Ok(None)) is None,
        entry_read::<T>(Err(error)) is None,
{
}

/// An entry is stored on the condition that the version just read is still there, or that there is
/// still none; a failed reading ends the write with its error.
pub proof fn law_writes_are_conditional_on_what_was_read<T>(
    attempt: u32,
    entry: T,
    version: String,
    error: StorageError,
)
    ensures
        write_read(attempt, Ok(Some((entry, version)))) == (WriteStep::Store {
            attempt,
            mode: StoreMode::Cas(version),
        }),
        write_read::<T>(attempt, Ok(None)) == (WriteStep::Store {
            attempt,
            mode: StoreMode::Absent,
        }),
        write_read::<T>(attempt, Err(error)) == WriteStep::Done(WriteOutcome::ReadFailed(error)),
{
}

/// Only a conflict is tried again, and the third conflict is the last.
pub proof fn law_only_conflicts_are_tried_again(attempt: u32, reason: String)
    ensures
        write_stored(attempt, Ok(())) == WriteStep::Done(WriteOutcome::Stored),
        attempt < 2 ==> write_stored(attempt, Err(StorageError::CasMismatch)) == (WriteStep::Read {
            attempt: (attempt + 1) as u32,
        }),
        attempt >= 2 ==> write_stored(attempt, Err(StorageError::CasMismatch)) == WriteStep::Done(
            WriteOutcome::Exhausted,
        ),
        write_stored(attempt, Err(StorageError::Unexpected(reason))) == WriteStep::Done(
            WriteOutcome::StoreFailed(StorageError::Unexpected(reason)),
        ),
{
}

/// A claim that the store accepts acquires the lock; one that meets another lock looks at it; a
/// store that fails ends the attempt with its error.
pub proof fn law_claims_meet_the_lock(reason: String)
    ensures
        lock_claimed(Ok(())) == LockStep::Done(Ok(true)),
        lock_claimed(Err(StorageError::CasMismatch)) == LockStep::Inspect,
        lock_claimed(Err(StorageError::Unexpected(reason))) == LockStep::Done(
            Err(StorageError::Unexpected(reason)),
        ),
{
}

/// A lock younger than thirty seconds is left alone. An older one is taken over by its version, and
/// one that has gone is claimed, both with an entry of the time of the attempt.
pub proof fn law_locks_are_held_for_thirty_seconds(
    lock: RefreshLock,
    version: String,
    now: i64,
    error: StorageError,
)
    ensures
        now - lock.acquired_at < 30 ==> lock_inspected(Ok(Some((lock, version))), now)
            == LockStep::Done(Ok(false)),
        now - lock.acquired_at >= 30 ==> (lock_inspected(Ok(Some((lock, version))), now) matches
            LockStep::TakeOver { entry, version: held } && entry.acquired_at == now && held
            == version),
        lock_inspected(Ok(None), now) matches LockStep::Reclaim { entry } && entry.acquired_at
            == now,
        lock_inspected(Err(error), now) == LockStep::Done(Err(error)),
{
}

/// The last operation acquires the lock, or another request has; a store that fails is an error.
pub proof fn law_the_last_operation_settles_the_lock(reason: String)
    ensures
        lock_settled(Ok(())) == Ok::<bool, StorageError>(true),
        lock_settled(Err(StorageError::CasMismatch)) == Ok::<bool, StorageError>(false),
        lock_settled(Err(StorageError::Unexpected(reason))) == Err::<bool, StorageError>(
            StorageError::Unexpected(reason),
        ),
{
}

/// A slot takes an entry exactly where the condition holds, and keeps what it has otherwise.
pub proof fn law_slots_honour_the_condition<T>(
    slot: Option<(T, String)>,
    entry: T,
    version: String,
    expected: String,
)
    ensures
        slot is None ==> slot_put(slot, StoreMode::Absent, entry, version) == (
            Ok::<(), StorageError>(()),
            Some((entry, version)),
        ),
        slot is Some ==> slot_put(slot, StoreMode::Absent, entry, version) == (
            Err::<(), StorageError>(StorageError::CasMismatch),
            slot,
        ),
        (slot matches Some((_, current)) && current == expected) ==> slot_put(
            slot,
            StoreMode::Cas(expected),
            entry,
            version,
        ) == (Ok::<(), StorageError>(()), Some((entry, version))),
        !(slot matches Some((_, current)) && current == expected) ==> slot_put(
            slot,
            StoreMode::Cas(expected),
            entry,
            version,
        ) == (Err::<(), StorageError>(StorageError::CasMismatch), slot),
{
}

} // verus!
