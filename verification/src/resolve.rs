//! Which score a request is gated on: the cached one while it is fresh, a live one otherwise.
//!
//! Store, clock and catalog are asked from outside this library. Each function below takes what
//! was found and says what to do next.

use crate::cdgc::RefreshError;
use crate::clock;
use crate::clock::ClockReading;
use crate::config;
use crate::config::{Config, REFRESH_LOCK_KEY_PREFIX, SCORE_CACHE_KEY_PREFIX};
use crate::score::Score;
use crate::storage::{CachedScore, StorageError, WriteOutcome};
use vstd::prelude::*;
use vstd::string::*;

verus! {

/// What to do next to find the score of a request.
#[derive(Debug)]
pub enum ResolveStep {
    /// Read the cached score under the key.
    ReadScore { key: String },
    /// Acquire the refresh lock under the key, at the time `now`.
    AcquireLock { key: String, cached: Option<CachedScore>, now: i64 },
    /// Fetch a live score.
    Fetch { cached: Option<CachedScore>, now: i64 },
    /// Write the entry under the key; the score is the one to gate on then.
    Store { key: String, entry: CachedScore, score: Score },
    /// Gate on the score, or on there being none.
    Done(Option<Score>),
}

/// A step, with its key as a text.
pub enum StepText {
    ReadScore { key: Seq<char> },
    AcquireLock { key: Seq<char>, cached: Option<CachedScore>, now: i64 },
    Fetch { cached: Option<CachedScore>, now: i64 },
    Store { key: Seq<char>, entry: CachedScore, score: Score },
    Done(Option<Score>),
}

impl ResolveStep {
    pub open spec fn view(self) -> StepText {
        match self {
            ResolveStep::ReadScore { key } => StepText::ReadScore { key: key@ },
            ResolveStep::AcquireLock { key, cached, now } => StepText::AcquireLock {
                key: key@,
                cached,
                now,
            },
            ResolveStep::Fetch { cached, now } => StepText::Fetch { cached, now },
            ResolveStep::Store { key, entry, score } => StepText::Store { key: key@, entry, score },
            ResolveStep::Done(score) => StepText::Done(score),
        }
    }
}

/// The score of an entry.
pub open spec fn score_in(cached: Option<CachedScore>) -> Option<Score> {
    match cached {
        Some(entry) => Some(entry.score),
        None => None,
    }
}

/// There is no cached score, or it is older than the refresh interval.
pub open spec fn stale(config: Config, cached: Option<CachedScore>, now: i64) -> bool {
    match cached {
        Some(entry) => now - entry.timestamp > config::interval_seconds(config),
        None => true,
    }
}

/// The age of a cached score can be counted.
pub open spec fn age_countable(cached: Option<CachedScore>, now: i64) -> bool {
    cached matches Some(entry) ==> i64::MIN <= now - entry.timestamp <= i64::MAX
}

/// What is left to gate on when a refresh failed: the old score, or nothing.
pub open spec fn fallback(config: Config, cached: Option<CachedScore>) -> Option<Score> {
    if config::or_default(config.fail_open_on_cdgc_error, true) {
        score_in(cached)
    } else {
        None
    }
}

/// The step that everything begins with.
pub open spec fn at_start(config: Config) -> StepText {
    StepText::ReadScore { key: SCORE_CACHE_KEY_PREFIX@ + config.cdgc_asset_id@ }
}

/// The step that follows the reading of the cache.
pub open spec fn after_read(config: Config, cached: Option<CachedScore>, now: i64) -> StepText {
    if stale(config, cached, now) {
        StepText::AcquireLock {
            key: REFRESH_LOCK_KEY_PREFIX@ + config.cdgc_asset_id@,
            cached,
            now,
        }
    } else {
        StepText::Done(score_in(cached))
    }
}

/// The step that follows the lock.
pub open spec fn after_lock(
    acquired: Result<bool, StorageError>,
    cached: Option<CachedScore>,
    now: i64,
) -> StepText {
    if acquired == Ok::<bool, StorageError>(false) {
        StepText::Done(score_in(cached))
    } else {
        StepText::Fetch { cached, now }
    }
}

/// The step that follows the refresh.
pub open spec fn after_fetch(
    config: Config,
    fetched: Result<Score, RefreshError>,
    cached: Option<CachedScore>,
    now: i64,
) -> StepText {
    match fetched {
        Ok(score) => StepText::Store {
            key: SCORE_CACHE_KEY_PREFIX@ + config.cdgc_asset_id@,
            entry: CachedScore { score, timestamp: now },
            score,
        },
        Err(_) => StepText::Done(fallback(config, cached)),
    }
}

/// The step that follows the writing of a live score.
pub open spec fn after_store(score: Score, outcome: WriteOutcome) -> StepText {
    StepText::Done(Some(score))
}

/// The score that the steps, taken one after the other, lead to, given what is cached, whether the
/// lock is acquired where it is asked for, what a refresh gives where there is one, and what
/// becomes of the writing of its score.
pub open spec fn resolved(
    config: Config,
    cached: Option<CachedScore>,
    now: i64,
    lock: Result<bool, StorageError>,
    fetched: Result<Score, RefreshError>,
    written: WriteOutcome,
) -> Option<Score> {
    match after_read(config, cached, now) {
        StepText::AcquireLock { cached, now, .. } => match after_lock(lock, cached, now) {
            StepText::Fetch { cached, now } => match after_fetch(config, fetched, cached, now) {
                StepText::Store { score, .. } => match after_store(score, written) {
                    StepText::Done(score) => score,
                    _ => None,
                },
                StepText::Done(score) => score,
                _ => None,
            },
            StepText::Done(score) => score,
            _ => None,
        },
        StepText::Done(score) => score,
        _ => None,
    }
}

fn score_of_entry(cached: Option<CachedScore>) -> (r: Option<Score>)
    ensures
        r == score_in(cached),
{
    match cached {
        Some(entry) => Some(entry.score),
        None => None,
    }
}

/// The first step: the cache is looked at before anything else.
pub fn resolve_start(config: &Config) -> (r: ResolveStep)
    ensures
        r@ == at_start(*config),
{
    ResolveStep::ReadScore { key: config::score_cache_key(config) }
}

/// After the cache was read: a fresh score is served as it is. Otherwise the refresh lock decides
/// which of several requests refreshes it.
pub fn resolve_after_read(
    config: &Config,
    cached: Option<CachedScore>,
    time: ClockReading,
) -> (r: ResolveStep)
    requires
        age_countable(cached, clock::seconds_since_epoch(time) as i64),
    ensures
        r@ == after_read(*config, cached, clock::seconds_since_epoch(time) as i64),
{
    let now: i64 = clock::unix_seconds(time);
    let is_stale = match &cached {
        Some(entry) => now - entry.timestamp > config::refresh_interval(config),
        None => true,
    };
    if is_stale {
        ResolveStep::AcquireLock { key: config::refresh_lock_key(config), cached, now }
    } else {
        ResolveStep::Done(score_of_entry(cached))
    }
}

/// After the lock: who did not acquire it serves what is cached, without a call of its own. A lock
/// that cannot be acquired because the store fails is no reason not to refresh.
pub fn resolve_after_lock(
    acquired: Result<bool, StorageError>,
    cached: Option<CachedScore>,
    now: i64,
) -> (r: ResolveStep)
    ensures
        r@ == after_lock(acquired, cached, now),
        acquired != Ok::<bool, StorageError>(false) ==> r == (ResolveStep::Fetch { cached, now }),
        acquired == Ok::<bool, StorageError>(false) ==> (r matches ResolveStep::Done(score) && (
        score is Some <==> cached is Some) && (score is Some ==> score == Some(cached->0.score))),
{
    match acquired {
        Ok(false) => ResolveStep::Done(score_of_entry(cached)),
        _ => ResolveStep::Fetch { cached, now },
    }
}

/// After the refresh: a live score is stored under the time at which it was found missing, and
/// gated on. Where there is none, the old score is served, unless the configuration says not to.
pub fn resolve_after_fetch(
    config: &Config,
    fetched: Result<Score, RefreshError>,
    cached: Option<CachedScore>,
    now: i64,
) -> (r: ResolveStep)
    ensures
        r@ == after_fetch(*config, fetched, cached, now),
        fetched matches Ok(live) ==> (r matches ResolveStep::Store { key, entry, score } && key@
            == "dq-score-"@ + config.cdgc_asset_id@ && entry.score == live && entry.timestamp == now
            && score == live),
        fetched is Err ==> (r matches ResolveStep::Done(score) && (
        config.fail_open_on_cdgc_error == Some(false) || cached is None <==> score is None) && (score
            is Some ==> score == Some(cached->0.score))),
{
    match fetched {
        Ok(score) => {
            let entry = CachedScore { score: score.clone(), timestamp: now };
            ResolveStep::Store { key: config::score_cache_key(config), entry, score }
        },
        Err(_) => {
            let fail_open = match config.fail_open_on_cdgc_error {
                Some(fail_open) => fail_open,
                None => true,
            };
            if fail_open {
                ResolveStep::Done(score_of_entry(cached))
            } else {
                ResolveStep::Done(None)
            }
        },
    }
}

/// After the writing: the live score is gated on whatever became of the writing. Where it failed,
/// the next request finds no fresh score and tries again.
pub fn resolve_after_store(score: Score, outcome: &WriteOutcome) -> (r: ResolveStep)
    ensures
        r@ == after_store(score, *outcome),
        r == ResolveStep::Done(Some(score)),
{
    ResolveStep::Done(Some(score))
}

/// There is nothing to gate on exactly where the cache has no fresh score and either another
/// request is refreshing an empty cache, or the refresh failed and there is no old score or none
/// that may be served.
pub proof fn law_no_score_iff(
    config: Config,
    cached: Option<CachedScore>,
    now: i64,
    lock: Result<bool, StorageError>,
    fetched: Result<Score, RefreshError>,
    written: WriteOutcome,
)
    ensures
        resolved(config, cached, now, lock, fetched, written) is None <==> {
            &&& stale(config, cached, now)
            &&& if lock == Ok::<bool, StorageError>(false) {
                cached is None
            } else {
                fetched is Err && (cached is None || !config::or_default(
                    config.fail_open_on_cdgc_error,
                    true,
                ))
            }
        },
{
}

/// A score that was fetched is served from the cache until the refresh interval is over, and not
/// a second longer.
pub proof fn law_fetched_score_is_served_for_the_interval(
    config: Config,
    score: Score,
    fetched_at: i64,
    now: i64,
    lock: Result<bool, StorageError>,
    fetched: Result<Score, RefreshError>,
    written: WriteOutcome,
)
    ensures
        ({
            let cached = Some(CachedScore { score, timestamp: fetched_at });
            &&& now - fetched_at <= config::interval_seconds(config) ==> !stale(config, cached, now)
                && resolved(config, cached, now, lock, fetched, written) == Some(score)
            &&& now - fetched_at > config::interval_seconds(config) ==> stale(config, cached, now)
        }),
{
}

/// While another request holds the lock, and while a refresh fails under the default
/// configuration, the last known score is served however old it is.
pub proof fn law_last_known_score_is_kept(
    config: Config,
    entry: CachedScore,
    now: i64,
    lock: Result<bool, StorageError>,
    fetched: Result<Score, RefreshError>,
    written: WriteOutcome,
)
    requires
        lock == Ok::<bool, StorageError>(false) || (fetched is Err && config::or_default(
            config.fail_open_on_cdgc_error,
            true,
        )),
    ensures
        resolved(config, Some(entry), now, lock, fetched, written) == Some(entry.score),
{
}

/// A cached score is stale once it is older than the configured interval, or than a day where none
/// is configured; a negative interval counts as zero. Nothing cached is stale.
pub proof fn law_staleness_is_age_beyond_the_interval(config: Config, entry: CachedScore, now: i64)
    ensures
        stale(config, None, now),
        config.refresh_interval_seconds is None ==> (stale(config, Some(entry), now) <==> now
            - entry.timestamp > 86_400),
        config.refresh_interval_seconds matches Some(seconds) ==> {
            &&& seconds >= 0 ==> (stale(config, Some(entry), now) <==> now - entry.timestamp
                > seconds)
            &&& seconds < 0 ==> (stale(config, Some(entry), now) <==> now > entry.timestamp)
        },
{
}

/// A fresh score is served as it is: no lock, no refresh and no writing has a say in it.
pub proof fn law_fresh_score_is_served(
    config: Config,
    entry: CachedScore,
    now: i64,
    lock: Result<bool, StorageError>,
    fetched: Result<Score, RefreshError>,
    written: WriteOutcome,
)
    requires
        !stale(config, Some(entry), now),
    ensures
        after_read(config, Some(entry), now) == StepText::Done(Some(entry.score)),
        resolved(config, Some(entry), now, lock, fetched, written) == Some(entry.score),
{
}

/// Without a fresh score the lock of the asset is asked for, with what is cached and the time.
pub proof fn law_stale_score_asks_for_the_lock(
    config: Config,
    cached: Option<CachedScore>,
    now: i64,
)
    requires
        stale(config, cached, now),
    ensures
        after_read(config, cached, now) == (StepText::AcquireLock {
            key: "dq-refresh-lock-"@ + config.cdgc_asset_id@,
            cached,
            now,
        }),
{
}

/// A live score is the one to gate on and the one to store, at the time it was found missing,
/// whatever was cached before and whatever becomes of the writing.
pub proof fn law_live_score_replaces_the_cached_one(
    config: Config,
    cached: Option<CachedScore>,
    now: i64,
    lock: Result<bool, StorageError>,
    live: Score,
    written: WriteOutcome,
)
    ensures
        stale(config, cached, now) && lock != Ok::<bool, StorageError>(false) ==> resolved(
            config,
            cached,
            now,
            lock,
            Ok(live),
            written,
        ) == Some(live),
        after_fetch(config, Ok(live), cached, now) matches StepText::Store { key, entry, score }
            && key == "dq-score-"@ + config.cdgc_asset_id@ && entry.score == live && entry.timestamp
            == now && score == live,
        after_store(live, written) == StepText::Done(Some(live)),
{
}

/// What was written is served next: the entry that a refresh stores is fresh at once, and is the
/// score that the refresh gave.
pub proof fn law_stored_entry_is_fresh_and_live(
    config: Config,
    cached: Option<CachedScore>,
    now: i64,
    live: Score,
)
    ensures
        after_fetch(config, Ok(live), cached, now) matches StepText::Store { entry, .. }
            && after_read(config, Some(entry), now) == StepText::Done(Some(live)),
{
}

/// Who is refused the lock serves what is cached, or nothing; everyone else fetches.
pub proof fn law_only_a_refused_lock_stops_the_refresh(
    acquired: Result<bool, StorageError>,
    cached: Option<CachedScore>,
    now: i64,
)
    ensures
        acquired != Ok::<bool, StorageError>(false) ==> after_lock(acquired, cached, now) == (
        StepText::Fetch { cached, now }),
        after_lock(Ok(false), None, now) == StepText::Done(None),
        cached matches Some(entry) ==> after_lock(Ok(false), cached, now) == StepText::Done(
            Some(entry.score),
        ),
{
}

/// After a failed refresh the cached score is served, unless the configuration forbids it; nothing
/// is stored.
pub proof fn law_failed_refresh_serves_the_cached_score(
    config: Config,
    error: RefreshError,
    entry: CachedScore,
    now: i64,
)
    ensures
        config.fail_open_on_cdgc_error != Some(false) ==> after_fetch(
            config,
            Err(error),
            Some(entry),
            now,
        ) == StepText::Done(Some(entry.score)),
        config.fail_open_on_cdgc_error == Some(false) ==> after_fetch(
            config,
            Err(error),
            Some(entry),
            now,
        ) == StepText::Done(None),
        after_fetch(config, Err(error), None, now) == StepText::Done(None),
{
}

/// The view of a step leaves nothing of it out.
pub proof fn law_step_view_is_complete(step: ResolveStep)
    ensures
        step matches ResolveStep::ReadScore { key } ==> step@ == (StepText::ReadScore { key: key@ }),
        step matches ResolveStep::AcquireLock { key, cached, now } ==> step@ == (
        StepText::AcquireLock { key: key@, cached, now }),
        step matches ResolveStep::Fetch { cached, now } ==> step@ == (StepText::Fetch {
            cached,
            now,
        }),
        step matches ResolveStep::Store { key, entry, score } ==> step@ == (StepText::Store {
            key: key@,
            entry,
            score,
        }),
        step matches ResolveStep::Done(score) ==> step@ == StepText::Done(score),
{
}

/// A score is read under the key under which the refreshes of the same asset store theirs, and
/// under no key of another asset.
pub proof fn law_scores_are_read_where_they_are_stored(
    config: Config,
    other: Config,
    cached: Option<CachedScore>,
    now: i64,
    live: Score,
)
    ensures
        at_start(config) matches StepText::ReadScore { key } && key == "dq-score-"@
            + config.cdgc_asset_id@,
        config.cdgc_asset_id@ == other.cdgc_asset_id@ <==> (after_fetch(
            other,
            Ok(live),
            cached,
            now,
        ) matches StepText::Store { key, .. } && at_start(config) == (StepText::ReadScore { key })),
{
    if config.cdgc_asset_id@ != other.cdgc_asset_id@ {
        config::law_keys_are_separate_per_asset(config.cdgc_asset_id@, other.cdgc_asset_id@);
    }
}

} // verus!
