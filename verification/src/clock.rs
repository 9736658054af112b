//! Clock readings, and the time that a refresh may take.

use crate::text;
use vstd::prelude::*;

verus! {

/// A reading of the wall clock: how far it lies from the Unix epoch, and on which side.
#[derive(Clone, Copy, PartialEq, Eq, Debug, Structural)]
pub struct ClockReading {
    pub before_epoch: bool,
    /// Whole seconds between the reading and the epoch.
    pub seconds: u64,
    /// Nanoseconds on top of them.
    pub nanos: u32,
}

/// How long one call may take, in milliseconds, where the configuration does not say.
pub const DEFAULT_TIMEOUT_MS: i64 = 5_000;

/// How long all calls of one refresh may take together, in milliseconds. A refresh runs while the
/// request that caused it waits.
pub const CDGC_REFRESH_BUDGET_MS: i64 = 10_000;

pub const NANOS_PER_SECOND: i128 = 1_000_000_000;

pub const NANOS_PER_MILLI: i128 = 1_000_000;

impl ClockReading {
    /// Nanoseconds since the epoch, negative before it.
    pub open spec fn since_epoch(self) -> int {
        let distance = self.seconds * NANOS_PER_SECOND + self.nanos;
        if self.before_epoch {
            -distance
        } else {
            distance
        }
    }

    fn nanos_since_epoch(&self) -> (r: i128)
        ensures
            r == self.since_epoch(),
            -0x1_0000_0000_0000_0000_0000_0000 < r < 0x1_0000_0000_0000_0000_0000_0000,
    {
        let distance: i128 = self.seconds as i128 * NANOS_PER_SECOND + self.nanos as i128;
        if self.before_epoch {
            -distance
        } else {
            distance
        }
    }
}

/// Whole milliseconds from one reading to a later one, zero where the clock went backwards.
pub open spec fn millis_between(start: ClockReading, now: ClockReading) -> int {
    if now.since_epoch() >= start.since_epoch() {
        (now.since_epoch() - start.since_epoch()) / NANOS_PER_MILLI as int
    } else {
        0
    }
}

/// Whole seconds since the epoch, zero before it.
pub open spec fn seconds_since_epoch(time: ClockReading) -> int {
    if time.since_epoch() >= 0 {
        time.since_epoch() / NANOS_PER_SECOND as int
    } else {
        0
    }
}

/// The timeout of the next call: what a call may take, cut to what is left of the budget; none
/// once the budget is used up.
pub open spec fn call_timeout(per_call_ms: int, elapsed_ms: int) -> Option<int> {
    let remaining = CDGC_REFRESH_BUDGET_MS - elapsed_ms;
    if remaining <= 0 {
        None
    } else if per_call_ms < 0 {
        Some(0)
    } else if per_call_ms < remaining {
        Some(per_call_ms)
    } else {
        Some(remaining)
    }
}

/// Milliseconds elapsed between two readings, never negative. A span of more milliseconds than
/// sixty-three bits hold loses its upper bits.
pub fn elapsed_ms(start: ClockReading, now: ClockReading) -> (r: i64)
    ensures
        r == millis_between(start, now) as i64,
        millis_between(start, now) <= i64::MAX ==> r == millis_between(start, now),
{
    let from: i128 = start.nanos_since_epoch();
    let to: i128 = now.nanos_since_epoch();
    if to >= from {
        #[verifier::truncate]
        (((to - from) / NANOS_PER_MILLI) as i64)
    } else {
        0
    }
}

/// What is left of the budget between two readings can be counted. Readings hundreds of millions of
/// years apart are the only ones for which it cannot.
pub open spec fn countable(start: ClockReading, now: ClockReading) -> bool {
    CDGC_REFRESH_BUDGET_MS - (millis_between(start, now) as i64) <= i64::MAX
}

/// Whether what is left of the budget between two readings can be counted.
pub fn is_countable(start: ClockReading, now: ClockReading) -> (r: bool)
    ensures
        r == countable(start, now),
{
    let elapsed: i64 = elapsed_ms(start, now);
    CDGC_REFRESH_BUDGET_MS as i128 - elapsed as i128 <= 0x7fff_ffff_ffff_ffff
}

/// The timeout in milliseconds of the next call on the refresh path, given what was configured
/// for one call and what of the budget is gone. None says that the refresh has to be given up.
pub fn next_call_timeout(per_call_ms: i64, elapsed_ms: i64) -> (r: Option<u64>)
    requires
        CDGC_REFRESH_BUDGET_MS - elapsed_ms <= i64::MAX,
    ensures
        r is Some <==> call_timeout(per_call_ms as int, elapsed_ms as int) is Some,
        r matches Some(timeout) ==> call_timeout(per_call_ms as int, elapsed_ms as int) == Some(
            timeout as int,
        ),
{
    let remaining: i64 = CDGC_REFRESH_BUDGET_MS - elapsed_ms;
    if remaining <= 0 {
        return None;
    }
    let wanted: i64 = if per_call_ms < 0 {
        0
    } else {
        per_call_ms
    };
    if wanted < remaining {
        Some(wanted as u64)
    } else {
        Some(remaining as u64)
    }
}

/// Seconds since the epoch, zero before it. A reading of more seconds than sixty-three bits hold
/// loses its upper bits.
pub fn unix_seconds(time: ClockReading) -> (r: i64)
    ensures
        r == seconds_since_epoch(time) as i64,
        seconds_since_epoch(time) <= i64::MAX ==> r == seconds_since_epoch(time),
{
    let nanos: i128 = time.nanos_since_epoch();
    if nanos >= 0 {
        #[verifier::truncate]
        ((nanos / NANOS_PER_SECOND) as i64)
    } else {
        0
    }
}

/// The nonce that a reading makes.
pub open spec fn nonce(time: ClockReading) -> Seq<char> {
    if time.since_epoch() >= 0 {
        text::decimal(time.since_epoch() as nat)
    } else {
        text::decimal(0)
    }
}

/// A nonce for a token request: the nanoseconds since the epoch in decimal.
pub fn nonce_from_time(now: ClockReading) -> (r: String)
    ensures
        r@ == nonce(now),
{
    let nanos: i128 = now.nanos_since_epoch();
    if nanos >= 0 {
        text::decimal_text(nanos as u128)
    } else {
        text::decimal_text(0)
    }
}

/// Distinct readings give distinct nonces, each a row of decimal digits. Readings before the epoch
/// are left out: they all give the nonce zero.
pub proof fn law_nonces_are_unique(a: ClockReading, b: ClockReading)
    requires
        a.since_epoch() >= 0,
        b.since_epoch() >= 0,
        a.since_epoch() != b.since_epoch(),
    ensures
        nonce(a) != nonce(b),
        forall|i: int| 0 <= i < nonce(a).len() ==> '0' <= #[trigger] nonce(a)[i] <= '9',
{
    text::law_decimal_reads_back(a.since_epoch() as nat);
    text::law_decimal_reads_back(b.since_epoch() as nat);
}

/// A call that gets a timeout ends, at the latest, when the budget does; and it gets no more than
/// was configured for one call.
pub proof fn law_no_call_outlasts_the_budget(per_call_ms: int, elapsed_ms: int)
    ensures
        call_timeout(per_call_ms, elapsed_ms) matches Some(timeout) ==> {
            &&& 0 <= timeout
            &&& elapsed_ms + timeout <= CDGC_REFRESH_BUDGET_MS
            &&& timeout <= per_call_ms || timeout == 0
        },
        call_timeout(per_call_ms, elapsed_ms) is None <==> elapsed_ms >= CDGC_REFRESH_BUDGET_MS,
{
}

/// A reading is so many seconds and nanoseconds after the epoch, or as many before it.
pub proof fn law_readings_count_from_the_epoch(time: ClockReading)
    ensures
        !time.before_epoch ==> time.since_epoch() == time.seconds * 1_000_000_000 + time.nanos,
        time.before_epoch ==> time.since_epoch() == -(time.seconds * 1_000_000_000 + time.nanos),
{
}

/// The milliseconds between two readings are the whole ones that fit between them; there are none
/// where the clock went backwards.
pub proof fn law_elapsed_milliseconds_fit_between(start: ClockReading, now: ClockReading)
    ensures
        now.since_epoch() >= start.since_epoch() ==> {
            let span = now.since_epoch() - start.since_epoch();
            let millis = millis_between(start, now);
            millis * 1_000_000 <= span < millis * 1_000_000 + 1_000_000
        },
        now.since_epoch() < start.since_epoch() ==> millis_between(start, now) == 0,
{
}

/// The seconds of a reading after the epoch are its whole seconds, of one before it zero.
pub proof fn law_seconds_are_whole(time: ClockReading)
    ensures
        time.nanos < 1_000_000_000 && !time.before_epoch ==> seconds_since_epoch(time)
            == time.seconds,
        time.since_epoch() >= 0 ==> seconds_since_epoch(time) * 1_000_000_000 <= time.since_epoch()
            < seconds_since_epoch(time) * 1_000_000_000 + 1_000_000_000,
        time.since_epoch() < 0 ==> seconds_since_epoch(time) == 0,
{
}

/// A call gets what was configured for it where that much of ten seconds is left, else all that is
/// left; nothing once ten seconds are gone. A negative configuration counts as zero.
pub proof fn law_timeout_is_the_lesser_of_configured_and_left(per_call_ms: int, elapsed_ms: int)
    ensures
        elapsed_ms >= 10_000 <==> call_timeout(per_call_ms, elapsed_ms) is None,
        elapsed_ms < 10_000 && 0 <= per_call_ms <= 10_000 - elapsed_ms ==> call_timeout(
            per_call_ms,
            elapsed_ms,
        ) == Some(per_call_ms),
        elapsed_ms < 10_000 && per_call_ms > 10_000 - elapsed_ms ==> call_timeout(
            per_call_ms,
            elapsed_ms,
        ) == Some(10_000 - elapsed_ms),
        elapsed_ms < 10_000 && per_call_ms < 0 ==> call_timeout(per_call_ms, elapsed_ms) == Some(
            0int,
        ),
{
}

/// The nonce of a reading after the epoch denotes its nanoseconds; of one before it, zero.
pub proof fn law_nonce_denotes_the_nanoseconds(time: ClockReading)
    ensures
        time.since_epoch() >= 0 ==> text::decimal_value(nonce(time)) == time.since_epoch(),
        time.since_epoch() < 0 ==> nonce(time) == seq!['0'],
        nonce(time).len() > 1 ==> nonce(time)[0] != '0',
{
    if time.since_epoch() >= 0 {
        text::law_decimal_reads_back(time.since_epoch() as nat);
        text::law_decimal_has_no_leading_zero(time.since_epoch() as nat);
    }
}

} // verus!
