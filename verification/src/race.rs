//! What the refresh lock promises to requests that race for it.
//!
//! Any number of attempts to acquire the lock act on one slot of a store. Each operation of an
//! attempt is atomic; between two operations of one attempt the others may act, in any order and
//! any number of times.

use crate::config::REFRESH_LOCK_TTL_SECONDS;
use crate::storage;
use crate::storage::{LockStep, RefreshLock, StorageError, StoreMode};
use vstd::prelude::*;

verus! {

/// What happens next in a race.
pub enum RaceEvent {
    /// The store performs the next operation of this attempt and replies.
    Act(nat),
    /// The store replies to the next operation of this attempt with an error and does nothing.
    Fail(nat, StorageError),
    /// The store drops the entry.
    Vanish,
}

/// A race at one moment: what the slot holds, and what each attempt is about to do.
pub struct Race {
    pub slot: Option<(RefreshLock, String)>,
    pub steps: Seq<LockStep>,
}

/// The attempt has acquired the lock.
pub open spec fn won(step: LockStep) -> bool {
    step == LockStep::Done(Ok(true))
}

/// The step that follows the store's performing the operation of a step, and what the slot holds
/// then. An entry that is written gets the version that is handed in.
pub open spec fn acted(
    slot: Option<(RefreshLock, String)>,
    step: LockStep,
    now: i64,
    version: String,
) -> (LockStep, Option<(RefreshLock, String)>) {
    match step {
        LockStep::Claim { entry } => {
            let (reply, left) = storage::slot_put(slot, StoreMode::Absent, entry, version);
            (storage::lock_claimed(reply), left)
        },
        LockStep::Inspect => (storage::lock_inspected(Ok(slot), now), slot),
        LockStep::TakeOver { entry, version: held } => {
            let (reply, left) = storage::slot_put(slot, StoreMode::Cas(held), entry, version);
            (LockStep::Done(storage::lock_settled(reply)), left)
        },
        LockStep::Reclaim { entry } => {
            let (reply, left) = storage::slot_put(slot, StoreMode::Absent, entry, version);
            (LockStep::Done(storage::lock_settled(reply)), left)
        },
        LockStep::Done(_) => (step, slot),
    }
}

/// The step that follows an error of the store.
pub open spec fn failed(step: LockStep, now: i64, error: StorageError) -> LockStep {
    match step {
        LockStep::Claim { .. } => storage::lock_claimed(Err(error)),
        LockStep::Inspect => storage::lock_inspected(Err(error), now),
        LockStep::TakeOver { .. } => LockStep::Done(storage::lock_settled(Err(error))),
        LockStep::Reclaim { .. } => LockStep::Done(storage::lock_settled(Err(error))),
        LockStep::Done(_) => step,
    }
}

/// The race after one event. An event of an attempt that does not exist changes nothing.
pub open spec fn next(race: Race, times: Seq<i64>, event: RaceEvent, version: String) -> Race {
    match event {
        RaceEvent::Act(attempt) => if attempt < race.steps.len() {
            let (step, slot) = acted(
                race.slot,
                race.steps[attempt as int],
                times[attempt as int],
                version,
            );
            Race { slot, steps: race.steps.update(attempt as int, step) }
        } else {
            race
        },
        RaceEvent::Fail(attempt, error) => if attempt < race.steps.len() {
            let step = failed(race.steps[attempt as int], times[attempt as int], error);
            Race { slot: race.slot, steps: race.steps.update(attempt as int, step) }
        } else {
            race
        },
        RaceEvent::Vanish => Race { slot: None, steps: race.steps },
    }
}

/// The race after the first `n` events. Attempt `i` begins at the time `times[i]`, with the step
/// that `lock_start` gives; an entry that event `k` writes gets the version `versions[k]`.
pub open spec fn race_after(
    slot: Option<(RefreshLock, String)>,
    times: Seq<i64>,
    events: Seq<RaceEvent>,
    versions: Seq<String>,
    n: nat,
) -> Race
    decreases n,
{
    if n == 0 {
        Race {
            slot,
            steps: times.map_values(
                |now: i64| LockStep::Claim { entry: RefreshLock { acquired_at: now } },
            ),
        }
    } else {
        next(
            race_after(slot, times, events, versions, (n - 1) as nat),
            times,
            events[n - 1],
            versions[n - 1],
        )
    }
}

/// The store gives every entry a version of its own.
pub open spec fn versions_are_new(
    slot: Option<(RefreshLock, String)>,
    versions: Seq<String>,
) -> bool {
    &&& forall|i: int, j: int| 0 <= i < j < versions.len() ==> versions[i] != versions[j]
    &&& forall|i: int|
        0 <= i < versions.len() ==> storage::version_of(slot) != Some(#[trigger] versions[i])
}

/// Event `n` is the one by which the attempt acquires the lock.
pub open spec fn wins_at(
    slot: Option<(RefreshLock, String)>,
    times: Seq<i64>,
    events: Seq<RaceEvent>,
    versions: Seq<String>,
    attempt: int,
    n: nat,
) -> bool {
    &&& !won(race_after(slot, times, events, versions, n).steps[attempt])
    &&& won(race_after(slot, times, events, versions, n + 1).steps[attempt])
}

/// The version was in the slot at first, or belongs to one of the first `n` events.
spec fn seen(
    slot: Option<(RefreshLock, String)>,
    versions: Seq<String>,
    n: nat,
    version: String,
) -> bool {
    storage::version_of(slot) == Some(version) || exists|k: int|
        0 <= k < n && #[trigger] versions[k] == version
}

/// What an attempt is about to do fits its time and the slot: it stores its own time, and a
/// take-over that would still succeed meets a lock that is old.
spec fn step_fits(race: Race, now: i64, step: LockStep) -> bool {
    match step {
        LockStep::Claim { entry } => entry.acquired_at == now,
        LockStep::Reclaim { entry } => entry.acquired_at == now,
        LockStep::TakeOver { entry, version } => entry.acquired_at == now && match race.slot {
            Some((lock, current)) => current == version ==> !storage::lock_fresh(lock, now),
            None => true,
        },
        _ => true,
    }
}

/// What holds of every race at every moment.
spec fn consistent(
    slot: Option<(RefreshLock, String)>,
    times: Seq<i64>,
    versions: Seq<String>,
    n: nat,
    race: Race,
) -> bool {
    &&& race.steps.len() == times.len()
    &&& race.slot matches Some((_, version)) ==> seen(slot, versions, n, version)
    &&& forall|i: int|
        0 <= i < times.len() ==> step_fits(race, times[i], #[trigger] race.steps[i])
    &&& forall|i: int|
        0 <= i < times.len() ==> (#[trigger] race.steps[i] matches LockStep::TakeOver {
            version,
            ..
        } ==> seen(slot, versions, n, version))
}

proof fn lemma_consistent(
    slot: Option<(RefreshLock, String)>,
    times: Seq<i64>,
    events: Seq<RaceEvent>,
    versions: Seq<String>,
    n: nat,
)
    requires
        n <= events.len(),
        versions.len() == events.len(),
        versions_are_new(slot, versions),
    ensures
        consistent(slot, times, versions, n, race_after(slot, times, events, versions, n)),
    decreases n,
{
    if n > 0 {
        let m = (n - 1) as nat;
        lemma_consistent(slot, times, events, versions, m);
        let before = race_after(slot, times, events, versions, m);
        let after = race_after(slot, times, events, versions, n);
        let own = versions[n - 1];
        assert forall|version: String| seen(slot, versions, m, version) implies seen(
            slot,
            versions,
            n,
            version,
        ) && version != own by {
            if storage::version_of(slot) != Some(version) {
                let k = choose|k: int| 0 <= k < m && #[trigger] versions[k] == version;
                assert(versions[k] != versions[n - 1]);
            }
        }
        assert(seen(slot, versions, n, own));
        assert forall|i: int| 0 <= i < times.len() implies step_fits(
            after,
            times[i],
            #[trigger] after.steps[i],
        ) && (after.steps[i] matches LockStep::TakeOver { version, .. } ==> seen(
            slot,
            versions,
            n,
            version,
        )) by {
            assert(step_fits(before, times[i], before.steps[i]));
        }
    }
}

/// Once an attempt has acquired the lock, the slot holds its time or a later one for as long as
/// the store keeps the entry.
proof fn lemma_holder_stays(
    slot: Option<(RefreshLock, String)>,
    times: Seq<i64>,
    events: Seq<RaceEvent>,
    versions: Seq<String>,
    attempt: int,
    p: nat,
    n: nat,
)
    requires
        p < n <= events.len(),
        versions.len() == events.len(),
        versions_are_new(slot, versions),
        0 <= attempt < times.len(),
        wins_at(slot, times, events, versions, attempt, p),
        forall|k: int| p < k < n ==> !(#[trigger] events[k] is Vanish),
    ensures
        won(race_after(slot, times, events, versions, n).steps[attempt]),
        race_after(slot, times, events, versions, n).slot matches Some((lock, _))
            && lock.acquired_at >= times[attempt],
    decreases n,
{
    let m = (n - 1) as nat;
    let before = race_after(slot, times, events, versions, m);
    lemma_consistent(slot, times, events, versions, m);
    assert(step_fits(before, times[attempt], before.steps[attempt]));
    if m > p {
        lemma_holder_stays(slot, times, events, versions, attempt, p, m);
        assert(!(events[m as int] is Vanish));
        if let RaceEvent::Act(other) = events[m as int] {
            if other < times.len() {
                assert(step_fits(before, times[other as int], before.steps[other as int]));
            }
        }
    }
}

/// However many attempts to acquire the lock race, and however their operations interleave: where
/// one acquires the lock and another does so after it, the second came at least the life of a lock
/// later. The store may fail as it likes; but it must not drop the entry between the two
/// acquisitions, for then there is no lock to respect.
pub proof fn law_racing_winners_are_a_lock_life_apart(
    slot: Option<(RefreshLock, String)>,
    times: Seq<i64>,
    events: Seq<RaceEvent>,
    versions: Seq<String>,
    first: int,
    second: int,
    p: nat,
    q: nat,
)
    requires
        versions.len() == events.len(),
        versions_are_new(slot, versions),
        0 <= first < times.len(),
        0 <= second < times.len(),
        p < q < events.len(),
        wins_at(slot, times, events, versions, first, p),
        wins_at(slot, times, events, versions, second, q),
        forall|k: int| p < k < q ==> !(#[trigger] events[k] is Vanish),
    ensures
        times[second] - times[first] >= REFRESH_LOCK_TTL_SECONDS,
{
    let before = race_after(slot, times, events, versions, q);
    lemma_holder_stays(slot, times, events, versions, first, p, q);
    lemma_consistent(slot, times, events, versions, q);
    assert(step_fits(before, times[second], before.steps[second]));
}

/// An attempt that has acquired the lock acquired it at some event.
proof fn lemma_winner_won_at_an_event(
    slot: Option<(RefreshLock, String)>,
    times: Seq<i64>,
    events: Seq<RaceEvent>,
    versions: Seq<String>,
    attempt: int,
    n: nat,
) -> (p: nat)
    requires
        n <= events.len(),
        0 <= attempt < times.len(),
        won(race_after(slot, times, events, versions, n).steps[attempt]),
    ensures
        p < n,
        wins_at(slot, times, events, versions, attempt, p),
    decreases n,
{
    let m = (n - 1) as nat;
    if n > 0 && won(race_after(slot, times, events, versions, m).steps[attempt]) {
        lemma_winner_won_at_an_event(slot, times, events, versions, attempt, m)
    } else {
        m
    }
}

/// One event moves one attempt on.
proof fn lemma_one_winner_per_event(
    slot: Option<(RefreshLock, String)>,
    times: Seq<i64>,
    events: Seq<RaceEvent>,
    versions: Seq<String>,
    first: int,
    second: int,
    n: nat,
)
    requires
        n < events.len(),
        versions.len() == events.len(),
        versions_are_new(slot, versions),
        0 <= first < times.len(),
        0 <= second < times.len(),
        wins_at(slot, times, events, versions, first, n),
        wins_at(slot, times, events, versions, second, n),
    ensures
        first == second,
{
    lemma_consistent(slot, times, events, versions, n);
}

/// One initiator: of two attempts less than the life of a lock apart, at most one acquires the
/// lock, however their operations, and those of any other attempts, interleave on a store that
/// keeps the entry.
pub proof fn law_one_of_two_racing_attempts_wins(
    slot: Option<(RefreshLock, String)>,
    times: Seq<i64>,
    events: Seq<RaceEvent>,
    versions: Seq<String>,
    first: int,
    second: int,
)
    requires
        versions.len() == events.len(),
        versions_are_new(slot, versions),
        forall|k: int| 0 <= k < events.len() ==> !(#[trigger] events[k] is Vanish),
        0 <= first < times.len(),
        0 <= second < times.len(),
        first != second,
        -REFRESH_LOCK_TTL_SECONDS < times[first] - times[second] < REFRESH_LOCK_TTL_SECONDS,
    ensures
        ({
            let end = race_after(slot, times, events, versions, events.len());
            !(won(end.steps[first]) && won(end.steps[second]))
        }),
{
    let n = events.len();
    let end = race_after(slot, times, events, versions, n);
    if won(end.steps[first]) && won(end.steps[second]) {
        let p = lemma_winner_won_at_an_event(slot, times, events, versions, first, n);
        let q = lemma_winner_won_at_an_event(slot, times, events, versions, second, n);
        if p < q {
            law_racing_winners_are_a_lock_life_apart(
                slot,
                times,
                events,
                versions,
                first,
                second,
                p,
                q,
            );
        } else if q < p {
            law_racing_winners_are_a_lock_life_apart(
                slot,
                times,
                events,
                versions,
                second,
                first,
                q,
                p,
            );
        } else {
            lemma_one_winner_per_event(slot, times, events, versions, first, second, p);
        }
    }
}

} // verus!
