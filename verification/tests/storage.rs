//! The cached score and the refresh lock on stores that race and fail.

use std::cell::RefCell;
use std::collections::{HashMap, VecDeque};

use dq_gate::config::REFRESH_LOCK_TTL_SECONDS;
use dq_gate::score::Score;
use dq_gate::storage::{
    lock_after_claim, lock_after_inspect, lock_after_last, lock_start, read_cached_score,
    write_after_read, write_after_store, write_start, CachedScore, LockStep, RefreshLock,
    StorageError, StoreMode, WriteOutcome, WriteStep, CAS_MAX_RETRIES,
};

fn score(value: f64) -> Score {
    Score { bits: value.to_bits(), text: format!("{:.2}", value) }
}

fn entry(value: f64, timestamp: i64) -> CachedScore {
    CachedScore { score: score(value), timestamp }
}

trait Storage<T> {
    fn get(&self, key: &str) -> Result<Option<(T, String)>, StorageError>;
    fn store(&self, key: &str, mode: &StoreMode, item: &T) -> Result<(), StorageError>;
}

fn try_acquire_refresh_lock<S: Storage<RefreshLock>>(
    store: &S,
    key: &str,
    now: i64,
) -> Result<bool, StorageError> {
    let mut step = lock_start(now);
    loop {
        step = match step {
            LockStep::Claim { entry } => {
                lock_after_claim(store.store(key, &StoreMode::Absent, &entry))
            }
            LockStep::Inspect => lock_after_inspect(store.get(key), now),
            LockStep::TakeOver { entry, version } => {
                return lock_after_last(store.store(key, &StoreMode::Cas(version), &entry));
            }
            LockStep::Reclaim { entry } => {
                return lock_after_last(store.store(key, &StoreMode::Absent, &entry));
            }
            LockStep::Done(result) => return result,
        };
    }
}

fn write_cached_score<S: Storage<CachedScore>>(
    store: &S,
    key: &str,
    cached: &CachedScore,
) -> WriteOutcome {
    let mut step = write_start();
    loop {
        step = match step {
            WriteStep::Read { attempt } => write_after_read(attempt, store.get(key)),
            WriteStep::Store { attempt, mode } => {
                write_after_store(attempt, store.store(key, &mode, cached))
            }
            WriteStep::Done(outcome) => return outcome,
        };
    }
}

struct MockDataStorage<T: Clone> {
    data: RefCell<HashMap<String, (T, u64)>>,
}

impl<T: Clone> MockDataStorage<T> {
    fn new() -> Self {
        MockDataStorage { data: RefCell::new(HashMap::new()) }
    }
}

impl<T: Clone> Storage<T> for MockDataStorage<T> {
    fn get(&self, key: &str) -> Result<Option<(T, String)>, StorageError> {
        Ok(self.data.borrow().get(key).map(|(item, version)| (item.clone(), version.to_string())))
    }

    fn store(&self, key: &str, mode: &StoreMode, item: &T) -> Result<(), StorageError> {
        let mut map = self.data.borrow_mut();
        match mode {
            StoreMode::Absent => {
                if map.contains_key(key) {
                    return Err(StorageError::CasMismatch);
                }
                map.insert(key.to_string(), (item.clone(), 1));
                Ok(())
            }
            StoreMode::Cas(version) => {
                let expected: u64 = version.parse().map_err(|_| StorageError::CasMismatch)?;
                let current = map.get(key).map(|(_, v)| *v);
                match current {
                    Some(current) if current == expected => {
                        map.insert(key.to_string(), (item.clone(), current + 1));
                        Ok(())
                    }
                    _ => Err(StorageError::CasMismatch),
                }
            }
        }
    }
}

#[test]
fn refresh_lock_is_acquired_once_then_denied_while_fresh() {
    let store = MockDataStorage::new();
    let key = "dq-refresh-lock-asset-1";
    assert_eq!(try_acquire_refresh_lock(&store, key, 1_000).unwrap(), true);
    assert_eq!(try_acquire_refresh_lock(&store, key, 1_005).unwrap(), false);
}

#[test]
fn refresh_lock_stale_holder_is_taken_over_via_cas() {
    let store = MockDataStorage::new();
    let key = "dq-refresh-lock-asset-1";
    assert_eq!(try_acquire_refresh_lock(&store, key, 1_000).unwrap(), true);
    let later = 1_000 + REFRESH_LOCK_TTL_SECONDS + 1;
    assert_eq!(try_acquire_refresh_lock(&store, key, later).unwrap(), true);
}

#[test]
fn refresh_lock_is_stale_from_its_ttl_on() {
    let store = MockDataStorage::new();
    assert_eq!(try_acquire_refresh_lock(&store, "k", 1_000).unwrap(), true);
    let last = 1_000 + REFRESH_LOCK_TTL_SECONDS - 1;
    assert_eq!(try_acquire_refresh_lock(&store, "k", last).unwrap(), false);
    assert_eq!(store.data.borrow()["k"].0.acquired_at, 1_000);
    assert_eq!(try_acquire_refresh_lock(&store, "k", last + 1).unwrap(), true);
    assert_eq!(store.data.borrow()["k"].0.acquired_at, last + 1);
    assert_eq!(try_acquire_refresh_lock(&store, "k", last + 2).unwrap(), false);
}

#[test]
fn refreshes_are_a_lock_life_apart() {
    let store = MockDataStorage::new();
    let mut acquired_at: Vec<i64> = Vec::new();
    for now in (0..300).step_by(7) {
        if try_acquire_refresh_lock(&store, "k", now).unwrap() {
            acquired_at.push(now);
        }
    }
    assert_eq!(acquired_at, [0, 35, 70, 105, 140, 175, 210, 245, 280]);
}

#[test]
fn cached_score_round_trips_and_overwrites_via_cas() {
    let store = MockDataStorage::new();
    let key = "dq-score-asset-1";
    assert!(read_cached_score(store.get(key)).is_none());

    write_cached_score(&store, key, &entry(95.0, 10));
    let first = read_cached_score(store.get(key)).expect("score present");
    assert_eq!(f64::from_bits(first.score.bits), 95.0);
    assert_eq!(first.timestamp, 10);

    write_cached_score(&store, key, &entry(72.5, 20));
    let second = read_cached_score(store.get(key)).expect("score present");
    assert_eq!(f64::from_bits(second.score.bits), 72.5);
    assert_eq!(second.timestamp, 20);
}

#[test]
fn refresh_lock_uses_separate_keys_per_asset() {
    let store = MockDataStorage::new();
    assert_eq!(try_acquire_refresh_lock(&store, "dq-refresh-lock-a", 1).unwrap(), true);
    assert_eq!(try_acquire_refresh_lock(&store, "dq-refresh-lock-b", 1).unwrap(), true);
}

#[derive(Clone, Copy)]
enum FakeGet {
    Fail,
    Miss,
    Hit(u64),
}

#[derive(Clone, Copy)]
enum FakeStore {
    Fail,
    Cas,
    Succeed,
}

struct FailingDataStorage {
    on_get: FakeGet,
    on_store: FakeStore,
    store_calls: RefCell<u32>,
}

impl FailingDataStorage {
    fn new(on_get: FakeGet, on_store: FakeStore) -> Self {
        FailingDataStorage { on_get, on_store, store_calls: RefCell::new(0) }
    }

    fn store_calls(&self) -> u32 {
        *self.store_calls.borrow()
    }
}

impl Storage<CachedScore> for FailingDataStorage {
    fn get(&self, _key: &str) -> Result<Option<(CachedScore, String)>, StorageError> {
        match self.on_get {
            FakeGet::Fail => Err(StorageError::Unexpected("get boom".to_string())),
            FakeGet::Miss => Ok(None),
            FakeGet::Hit(version) => Ok(Some((entry(50.0, 1), version.to_string()))),
        }
    }

    fn store(&self, _key: &str, mode: &StoreMode, _item: &CachedScore) -> Result<(), StorageError> {
        *self.store_calls.borrow_mut() += 1;
        match self.on_get {
            FakeGet::Hit(version) => {
                assert!(matches!(mode, StoreMode::Cas(v) if *v == version.to_string()))
            }
            _ => assert!(matches!(mode, StoreMode::Absent)),
        }
        match self.on_store {
            FakeStore::Fail => Err(StorageError::Unexpected("store boom".to_string())),
            FakeStore::Cas => Err(StorageError::CasMismatch),
            FakeStore::Succeed => Ok(()),
        }
    }
}

#[test]
fn read_cached_score_degrades_get_error_to_cache_miss() {
    let store = FailingDataStorage::new(FakeGet::Fail, FakeStore::Succeed);
    assert!(read_cached_score(store.get("dq-score-asset-err")).is_none());
}

#[test]
fn write_cached_score_swallows_hard_error_on_cas_overwrite() {
    let store = FailingDataStorage::new(FakeGet::Hit(7), FakeStore::Fail);
    let outcome = write_cached_score(&store, "dq-score-asset-cas-hard", &entry(88.0, 100));
    assert_eq!(store.store_calls(), 1, "hard CAS error must not be retried");
    assert!(matches!(outcome, WriteOutcome::StoreFailed(StorageError::Unexpected(_))));
}

#[test]
fn write_cached_score_swallows_hard_error_on_absent_insert() {
    let store = FailingDataStorage::new(FakeGet::Miss, FakeStore::Fail);
    let outcome = write_cached_score(&store, "dq-score-asset-absent-hard", &entry(88.0, 100));
    assert_eq!(store.store_calls(), 1, "hard Absent-insert error must not be retried");
    assert!(matches!(outcome, WriteOutcome::StoreFailed(StorageError::Unexpected(_))));
}

#[test]
fn write_cached_score_swallows_read_before_persist_error() {
    let store = FailingDataStorage::new(FakeGet::Fail, FakeStore::Succeed);
    let outcome = write_cached_score(&store, "dq-score-asset-read-err", &entry(88.0, 100));
    assert_eq!(store.store_calls(), 0, "a read error must abort before persisting");
    assert!(matches!(outcome, WriteOutcome::ReadFailed(StorageError::Unexpected(_))));
}

#[test]
fn write_cached_score_exhausts_cas_retries_on_existing_entry() {
    let store = FailingDataStorage::new(FakeGet::Hit(7), FakeStore::Cas);
    let outcome = write_cached_score(&store, "dq-score-asset-cas-loop", &entry(88.0, 100));
    assert_eq!(store.store_calls(), CAS_MAX_RETRIES, "CAS conflict must retry the full bound");
    assert!(matches!(outcome, WriteOutcome::Exhausted));
}

#[test]
fn write_cached_score_exhausts_cas_retries_on_absent_insert() {
    let store = FailingDataStorage::new(FakeGet::Miss, FakeStore::Cas);
    let outcome = write_cached_score(&store, "dq-score-asset-absent-loop", &entry(88.0, 100));
    assert_eq!(store.store_calls(), CAS_MAX_RETRIES, "Absent conflict must retry the full bound");
    assert!(matches!(outcome, WriteOutcome::Exhausted));
}

#[test]
fn write_cached_score_stores_once_on_success() {
    let store = FailingDataStorage::new(FakeGet::Hit(3), FakeStore::Succeed);
    let outcome = write_cached_score(&store, "k", &entry(88.0, 100));
    assert_eq!(store.store_calls(), 1);
    assert!(matches!(outcome, WriteOutcome::Stored));
}

#[test]
fn write_succeeds_once_other_writers_leave_it_alone() {
    let store = MockDataStorage::new();
    store.store("k", &StoreMode::Absent, &entry(10.0, 1)).unwrap();
    let mut step = write_start();
    let mut conflicts = 0;
    let outcome = loop {
        step = match step {
            WriteStep::Read { attempt } => write_after_read(attempt, store.get("k")),
            WriteStep::Store { attempt, mode } => {
                if conflicts < 2 {
                    conflicts += 1;
                    let (_, version) = store.get("k").unwrap().unwrap();
                    let other = entry(20.0 + conflicts as f64, 2);
                    store.store("k", &StoreMode::Cas(version), &other).unwrap();
                }
                let reply = store.store("k", &mode, &entry(88.0, 3));
                if reply.is_err() {
                    let (kept, _) = store.get("k").unwrap().unwrap();
                    assert_eq!(kept.timestamp, 2, "what the other writer left is kept");
                }
                write_after_store(attempt, reply)
            }
            WriteStep::Done(outcome) => break outcome,
        };
    };
    assert!(matches!(outcome, WriteOutcome::Stored));
    assert_eq!(conflicts, 2);
    let found = read_cached_score(store.get("k")).unwrap();
    assert_eq!(found.timestamp, 3);
    assert_eq!(found.score.text, "88.00");
}

/// One operation of an attempt on a store with a single slot. Versions are never reused.
fn race_step(
    slot: &mut Option<(RefreshLock, String)>,
    written: &mut u32,
    step: &LockStep,
    now: i64,
) -> LockStep {
    let mut put = |entry: &RefreshLock, expected: Option<&String>| {
        if slot.as_ref().map(|(_, version)| version) != expected {
            return Err(StorageError::CasMismatch);
        }
        *written += 1;
        *slot = Some((*entry, written.to_string()));
        Ok(())
    };
    match step {
        LockStep::Claim { entry } => lock_after_claim(put(entry, None)),
        LockStep::Inspect => lock_after_inspect(Ok(slot.clone()), now),
        LockStep::TakeOver { entry, version } => {
            LockStep::Done(lock_after_last(put(entry, Some(version))))
        }
        LockStep::Reclaim { entry } => LockStep::Done(lock_after_last(put(entry, None))),
        LockStep::Done(_) => unreachable!(),
    }
}

/// Runs three attempts through a schedule, each digit of which, in base three, names the attempt
/// that acts next. Attempts that are done are passed over.
fn race(start: Option<i64>, times: [i64; 3], schedule: u32) -> [bool; 3] {
    let mut slot = start.map(|acquired_at| (RefreshLock { acquired_at }, "0".to_string()));
    let mut written = 0;
    let mut steps = times.map(lock_start);
    let mut rest = schedule;
    for _ in 0..9 {
        let turn = (rest % 3) as usize;
        rest /= 3;
        if !matches!(steps[turn], LockStep::Done(_)) {
            steps[turn] = race_step(&mut slot, &mut written, &steps[turn], times[turn]);
        }
    }
    steps.map(|step| matches!(step, LockStep::Done(Ok(true))))
}

#[test]
fn racing_attempts_that_both_win_are_a_lock_life_apart() {
    let mut some_won = 0;
    let mut two_won = 0;
    for start in [None, Some(70), Some(71), Some(100)] {
        for times in [[100, 100, 100], [100, 129, 130], [129, 100, 159], [101, 100, 99]] {
            for schedule in 0..3_u32.pow(9) {
                let won = race(start, times, schedule);
                for i in 0..3 {
                    for j in 0..i {
                        if won[i] && won[j] {
                            two_won += 1;
                            assert!((times[i] - times[j]).abs() >= REFRESH_LOCK_TTL_SECONDS);
                        }
                    }
                }
                some_won += won.contains(&true) as u32;
            }
        }
    }
    assert!(some_won > 0 && two_won > 0);
}

#[test]
fn of_two_takeovers_of_one_lock_only_the_first_wins() {
    let store = MockDataStorage::new();
    store.store("k", &StoreMode::Absent, &RefreshLock { acquired_at: 0 }).unwrap();
    let inspect = |now: i64| match lock_after_inspect(store.get("k"), now) {
        LockStep::TakeOver { entry, version } => (entry, StoreMode::Cas(version)),
        _ => unreachable!(),
    };
    let (first, first_mode) = inspect(100);
    let (second, second_mode) = inspect(101);
    assert!(lock_after_last(store.store("k", &first_mode, &first)).unwrap());
    assert!(!lock_after_last(store.store("k", &second_mode, &second)).unwrap());
    assert_eq!(store.get("k").unwrap().unwrap().0.acquired_at, 100);
}

struct ScriptedStore {
    store_results: RefCell<VecDeque<Result<(), StorageError>>>,
    get_results: RefCell<VecDeque<Result<Option<RefreshLock>, StorageError>>>,
}

impl ScriptedStore {
    fn new(
        store_results: Vec<Result<(), StorageError>>,
        get_results: Vec<Result<Option<RefreshLock>, StorageError>>,
    ) -> Self {
        ScriptedStore {
            store_results: RefCell::new(store_results.into()),
            get_results: RefCell::new(get_results.into()),
        }
    }
}

impl Storage<RefreshLock> for ScriptedStore {
    fn get(&self, _key: &str) -> Result<Option<(RefreshLock, String)>, StorageError> {
        let next = self.get_results.borrow_mut().pop_front();
        match next.expect("ScriptedStore: unexpected get() call -- script exhausted") {
            Ok(Some(lock)) => Ok(Some((lock, "1".to_string()))),
            Ok(None) => Ok(None),
            Err(error) => Err(error),
        }
    }

    fn store(&self, _key: &str, _mode: &StoreMode, _item: &RefreshLock) -> Result<(), StorageError> {
        let next = self.store_results.borrow_mut().pop_front();
        next.expect("ScriptedStore: unexpected store() call -- script exhausted")
    }
}

#[test]
fn refresh_lock_stale_takeover_losing_cas_race_denies() {
    let store = ScriptedStore::new(
        vec![Err(StorageError::CasMismatch), Err(StorageError::CasMismatch)],
        vec![Ok(Some(RefreshLock { acquired_at: 0 }))],
    );
    let now = REFRESH_LOCK_TTL_SECONDS + 100;
    let acquired = try_acquire_refresh_lock(&store, "k", now).unwrap();
    assert!(!acquired, "losing the CAS takeover race must deny the lock, not grant it");
}

#[test]
fn refresh_lock_stale_takeover_hard_error_propagates() {
    let store = ScriptedStore::new(
        vec![
            Err(StorageError::CasMismatch),
            Err(StorageError::Unexpected("cas takeover write blew up".to_string())),
        ],
        vec![Ok(Some(RefreshLock { acquired_at: 0 }))],
    );
    let now = REFRESH_LOCK_TTL_SECONDS + 100;
    let result = try_acquire_refresh_lock(&store, "k", now);
    assert!(
        matches!(result, Err(StorageError::Unexpected(_))),
        "a hard error taking over a stale lock must propagate, got {result:?}"
    );
}

#[test]
fn refresh_lock_vanished_then_reclaimed_on_retry() {
    let store = ScriptedStore::new(vec![Err(StorageError::CasMismatch), Ok(())], vec![Ok(None)]);
    let acquired = try_acquire_refresh_lock(&store, "k", 1_000).unwrap();
    assert!(acquired, "a vanished lock must be re-claimed on the retry");
}

#[test]
fn refresh_lock_vanished_then_lost_to_concurrent_claim() {
    let store = ScriptedStore::new(
        vec![Err(StorageError::CasMismatch), Err(StorageError::CasMismatch)],
        vec![Ok(None)],
    );
    let acquired = try_acquire_refresh_lock(&store, "k", 1_000).unwrap();
    assert!(!acquired, "if another request re-claims the vanished lock first, we must back off");
}

#[test]
fn refresh_lock_vanished_retry_hard_error_propagates() {
    let store = ScriptedStore::new(
        vec![
            Err(StorageError::CasMismatch),
            Err(StorageError::Unexpected("retry claim backend down".to_string())),
        ],
        vec![Ok(None)],
    );
    let result = try_acquire_refresh_lock(&store, "k", 1_000);
    assert!(
        matches!(result, Err(StorageError::Unexpected(_))),
        "a hard error on the vanished-lock retry must propagate, got {result:?}"
    );
}

#[test]
fn refresh_lock_initial_put_if_absent_hard_error_propagates() {
    let store = ScriptedStore::new(
        vec![Err(StorageError::Unexpected("store backend down".to_string()))],
        vec![],
    );
    let result = try_acquire_refresh_lock(&store, "k", 1_000);
    assert!(
        matches!(result, Err(StorageError::Unexpected(_))),
        "a hard error on the initial put-if-absent must propagate to the caller, got {result:?}"
    );
}

#[test]
fn refresh_lock_read_hard_error_propagates() {
    let store = ScriptedStore::new(
        vec![Err(StorageError::CasMismatch)],
        vec![Err(StorageError::Unexpected("read down".to_string()))],
    );
    let result = try_acquire_refresh_lock(&store, "k", 1_000);
    assert!(matches!(result, Err(StorageError::Unexpected(_))));
}
