//! The configuration of the policy, and what follows from it alone.

use crate::score::Score;
use vstd::prelude::*;
use vstd::string::*;

verus! {

/// The configuration of the policy. An option that is absent has the default that the function
/// which reads it names.
#[derive(Clone, Debug)]
pub struct Config {
    /// Block a gated request when no score is available. Default: yes.
    pub block_on_unknown_score: Option<bool>,
    /// Scores below it are blocked.
    pub block_threshold: Score,
    /// The governed asset.
    pub cdgc_asset_id: String,
    pub cdgc_org_password: String,
    pub cdgc_org_username: String,
    /// Show score, threshold and asset id to the client. Default: no.
    pub disclose_score_details: Option<bool>,
    /// Share the cache and the refresh lock across replicas. Default: no.
    pub distributed: Option<bool>,
    /// Serve the last known score when a refresh fails. Default: yes.
    pub fail_open_on_cdgc_error: Option<bool>,
    /// How old a cached score may be. Default: one day.
    pub refresh_interval_seconds: Option<i64>,
    /// `average`, or the worst dimension for anything else. Default: the worst dimension.
    pub score_aggregation: Option<String>,
    /// The timeout of one call, in milliseconds.
    pub timeout: Option<i64>,
    /// Scores below it, and not below the block threshold, pass with a warning.
    pub warn_threshold: Score,
}

pub const SCORE_CACHE_NAMESPACE: &'static str = "dq-gate-score";

pub const REFRESH_LOCK_NAMESPACE: &'static str = "dq-gate-refresh-lock";

pub const SCORE_CACHE_KEY_PREFIX: &'static str = "dq-score-";

pub const REFRESH_LOCK_KEY_PREFIX: &'static str = "dq-refresh-lock-";

/// How long a refresh lock is held before its holder is presumed dead.
pub const REFRESH_LOCK_TTL_SECONDS: i64 = 30;

/// The same in milliseconds, for the namespace of the lock.
pub const REFRESH_LOCK_TTL_MS: u32 = 30_000;

/// The shortest life of a stored score: thirty days. A stored score has to outlive the refresh
/// interval by a wide margin, because it is what is served when a refresh fails.
pub const SCORE_STORE_MIN_TTL_MS: u64 = 2_592_000_000;

pub const DEFAULT_REFRESH_INTERVAL_SECONDS: i64 = 86_400;

/// Where the cache and the lock are kept.
#[derive(Debug)]
pub enum StoragePlan {
    /// In memory, for each replica on its own.
    Local { score_namespace: &'static str, lock_namespace: &'static str },
    /// Shared across replicas, with the lives of entries in milliseconds.
    Remote {
        score_namespace: &'static str,
        score_ttl_ms: u32,
        lock_namespace: &'static str,
        lock_ttl_ms: u32,
    },
}

/// The value of an option, or its default.
pub open spec fn or_default<T>(option: Option<T>, default: T) -> T {
    match option {
        Some(value) => value,
        None => default,
    }
}

/// The larger of two integers.
pub open spec fn larger(a: int, b: int) -> int {
    if a >= b {
        a
    } else {
        b
    }
}

/// The smaller of two integers.
pub open spec fn smaller(a: int, b: int) -> int {
    if a <= b {
        a
    } else {
        b
    }
}

/// The age in seconds up to which a cached score is fresh.
pub open spec fn interval_seconds(config: Config) -> int {
    larger(or_default(config.refresh_interval_seconds, DEFAULT_REFRESH_INTERVAL_SECONDS) as int, 0)
}

/// How long the store keeps a score: twice the refresh interval, but no less than thirty days,
/// and no more than the store can be told.
pub open spec fn score_ttl_ms(config: Config) -> int {
    smaller(
        larger(interval_seconds(config) * 2 * 1000, SCORE_STORE_MIN_TTL_MS as int),
        u32::MAX as int,
    )
}

/// The key of the asset's score.
pub fn score_cache_key(config: &Config) -> (r: String)
    ensures
        r@ == SCORE_CACHE_KEY_PREFIX@ + config.cdgc_asset_id@,
{
    SCORE_CACHE_KEY_PREFIX.to_string().concat(config.cdgc_asset_id.as_str())
}

/// The key of the asset's refresh lock.
pub fn refresh_lock_key(config: &Config) -> (r: String)
    ensures
        r@ == REFRESH_LOCK_KEY_PREFIX@ + config.cdgc_asset_id@,
{
    REFRESH_LOCK_KEY_PREFIX.to_string().concat(config.cdgc_asset_id.as_str())
}

/// The age in seconds up to which a cached score is fresh; a negative interval counts as zero.
pub fn refresh_interval(config: &Config) -> (r: i64)
    ensures
        r == interval_seconds(*config),
{
    let seconds: i64 = match config.refresh_interval_seconds {
        Some(seconds) => seconds,
        None => DEFAULT_REFRESH_INTERVAL_SECONDS,
    };
    if seconds < 0 {
        0
    } else {
        seconds
    }
}

/// How long the remote namespace keeps a score, in milliseconds.
pub fn score_store_ttl_ms(config: &Config) -> (r: u32)
    ensures
        r == score_ttl_ms(*config),
{
    let seconds: u64 = refresh_interval(config) as u64;
    let cap: u64 = 0xffff_ffff;
    if seconds > cap / 2000 {
        return u32::MAX;
    }
    let derived: u64 = seconds * 2 * 1000;
    if derived < SCORE_STORE_MIN_TTL_MS {
        SCORE_STORE_MIN_TTL_MS as u32
    } else {
        derived as u32
    }
}

/// Whether details are shown to the client.
pub fn discloses(config: &Config) -> (r: bool)
    ensures
        r == or_default(config.disclose_score_details, false),
        r == (config.disclose_score_details == Some(true)),
{
    match config.disclose_score_details {
        Some(disclose) => disclose,
        None => false,
    }
}

/// Where the cache and the lock are kept: shared across replicas only where it is asked for.
pub fn storage_plan(config: &Config) -> (r: StoragePlan)
    ensures
        or_default(config.distributed, false) ==> r == (StoragePlan::Remote {
            score_namespace: SCORE_CACHE_NAMESPACE,
            score_ttl_ms: score_ttl_ms(*config) as u32,
            lock_namespace: REFRESH_LOCK_NAMESPACE,
            lock_ttl_ms: REFRESH_LOCK_TTL_MS,
        }),
        !or_default(config.distributed, false) ==> r == (StoragePlan::Local {
            score_namespace: SCORE_CACHE_NAMESPACE,
            lock_namespace: REFRESH_LOCK_NAMESPACE,
        }),
        r is Remote <==> config.distributed == Some(true),
        r matches StoragePlan::Remote { score_ttl_ms: life, lock_ttl_ms, .. } ==> life
            == score_ttl_ms(*config) && lock_ttl_ms == 30_000,
{
    proof {
        law_stored_score_outlives_interval(*config);
    }
    let distributed = match config.distributed {
        Some(distributed) => distributed,
        None => false,
    };
    if distributed {
        StoragePlan::Remote {
            score_namespace: SCORE_CACHE_NAMESPACE,
            score_ttl_ms: score_store_ttl_ms(config),
            lock_namespace: REFRESH_LOCK_NAMESPACE,
            lock_ttl_ms: REFRESH_LOCK_TTL_MS,
        }
    } else {
        StoragePlan::Local {
            score_namespace: SCORE_CACHE_NAMESPACE,
            lock_namespace: REFRESH_LOCK_NAMESPACE,
        }
    }
}

/// A stored score outlives the refresh interval, so that there is one to serve when a refresh
/// fails: by the factor two, or as far as the store can be told.
pub proof fn law_stored_score_outlives_interval(config: Config)
    ensures
        score_ttl_ms(config) >= SCORE_STORE_MIN_TTL_MS,
        score_ttl_ms(config) <= u32::MAX,
        score_ttl_ms(config) < u32::MAX ==> score_ttl_ms(config) >= 2 * interval_seconds(config)
            * 1000,
{
}

/// Two assets never share a key, neither of the cache nor of the lock.
pub proof fn law_keys_are_separate_per_asset(a: Seq<char>, b: Seq<char>)
    requires
        a != b,
    ensures
        SCORE_CACHE_KEY_PREFIX@ + a != SCORE_CACHE_KEY_PREFIX@ + b,
        REFRESH_LOCK_KEY_PREFIX@ + a != REFRESH_LOCK_KEY_PREFIX@ + b,
{
    lemma_prefix_keeps_apart(SCORE_CACHE_KEY_PREFIX@, a, b);
    lemma_prefix_keeps_apart(REFRESH_LOCK_KEY_PREFIX@, a, b);
}

proof fn lemma_prefix_keeps_apart(prefix: Seq<char>, a: Seq<char>, b: Seq<char>)
    requires
        a != b,
    ensures
        prefix + a != prefix + b,
{
    if prefix + a == prefix + b {
        assert((prefix + a).skip(prefix.len() as int) =~= a);
        assert((prefix + b).skip(prefix.len() as int) =~= b);
    }
}

/// The interval that is configured, no less than zero; one day where none is configured.
pub proof fn law_interval_is_the_configured_one(config: Config)
    ensures
        config.refresh_interval_seconds matches Some(seconds) ==> interval_seconds(config) == (
        if seconds >= 0 {
            seconds as int
        } else {
            0
        }),
        config.refresh_interval_seconds is None ==> interval_seconds(config) == 24 * 60 * 60,
{
}

/// Up to an interval of fifteen days a stored score lives for thirty days, beyond that for twice
/// the interval, up to the largest number of milliseconds that thirty-two bits hold.
pub proof fn law_stored_score_lives_twice_the_interval(config: Config)
    ensures
        interval_seconds(config) <= 15 * 24 * 60 * 60 ==> score_ttl_ms(config) == 30 * 24 * 60 * 60
            * 1000,
        15 * 24 * 60 * 60 <= interval_seconds(config) <= 2_147_483 ==> score_ttl_ms(config)
            == interval_seconds(config) * 2000,
        interval_seconds(config) > 2_147_483 ==> score_ttl_ms(config) == 0xffff_ffff,
{
}

/// An option that is there counts; the default counts only where there is none.
pub proof fn law_options_count_before_defaults<T>(value: T, default: T)
    ensures
        or_default(Some(value), default) == value,
        or_default(None, default) == default,
{
}

} // verus!
