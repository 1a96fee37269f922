//! Polling cadence: exponential backoff after rate limiting, the next
//! wake-up instant from the fixed interval and the hourly alignment, and how
//! long to wait for it.

use vstd::prelude::*;
use crate::clock::now_millis;

verus! {

/// How one poll attempt ended, as far as the backoff is concerned.
#[derive(Debug, Clone, Copy, PartialEq, Eq, Structural)]
pub enum FetchResult {
    Success,
    RateLimited,
    OtherError,
    NoCredentials,
}

/// First backoff after a rate limit, in seconds.
pub const INITIAL_BACKOFF_SECS: u64 = 30;

/// Largest backoff, in seconds.
pub const MAX_BACKOFF_SECS: u64 = 300;

/// Factor by which an active backoff grows on each further rate limit.
pub const BACKOFF_MULTIPLIER: u64 = 2;

/// How long after the full hour the hourly poll starts at the earliest, in
/// seconds.
pub const HOURLY_REFRESH_INITIAL_GAP_SECS: u64 = 5;

/// Largest random delay added to the hourly poll, in seconds.
pub const HOURLY_REFRESH_JITTER_MAX_SECS: u64 = 55;

/// Seconds in an hour.
pub const SECS_PER_HOUR: u64 = 3600;

/// The backoff that follows `current` after a poll that ended in `result`.
pub open spec fn next_backoff(current: nat, result: FetchResult) -> nat {
    match result {
        FetchResult::Success => 0,
        FetchResult::RateLimited => if current == 0 {
            INITIAL_BACKOFF_SECS as nat
        } else if current * BACKOFF_MULTIPLIER < MAX_BACKOFF_SECS {
            current * BACKOFF_MULTIPLIER as nat
        } else {
            MAX_BACKOFF_SECS as nat
        },
        FetchResult::OtherError | FetchResult::NoCredentials => current,
    }
}

/// Computes the next backoff in seconds; 0 means that no backoff is active.
///
/// Success clears the backoff, a rate limit starts it at
/// [`INITIAL_BACKOFF_SECS`] or doubles it up to [`MAX_BACKOFF_SECS`], and any
/// other failure leaves it as it is.
pub fn calculate_next_backoff(current_backoff: u64, result: FetchResult) -> (next: u64)
    ensures
        next == next_backoff(current_backoff as nat, result),
        result == FetchResult::Success ==> next == 0,
        result == FetchResult::RateLimited && current_backoff == 0 ==> next == 30,
        result == FetchResult::RateLimited && current_backoff != 0 ==> next == if current_backoff
            * 2 < 300 {
            current_backoff * 2
        } else {
            300
        },
        result == FetchResult::OtherError || result == FetchResult::NoCredentials ==> next
            == current_backoff,
        current_backoff <= MAX_BACKOFF_SECS ==> next <= MAX_BACKOFF_SECS,
{
    match result {
        FetchResult::Success => 0,
        FetchResult::RateLimited => {
            if current_backoff == 0 {
                INITIAL_BACKOFF_SECS
            } else if current_backoff >= MAX_BACKOFF_SECS / BACKOFF_MULTIPLIER {
                MAX_BACKOFF_SECS
            } else {
                current_backoff * BACKOFF_MULTIPLIER
            }
        },
        FetchResult::OtherError | FetchResult::NoCredentials => current_backoff,
    }
}

/// Whether the polling loop runs at all.
pub open spec fn spec_should_refresh(enabled: bool, has_credentials: bool) -> bool {
    enabled && has_credentials
}

/// Whether the polling loop runs at all: it must be switched on and have
/// credentials.
#[verifier::when_used_as_spec(spec_should_refresh)]
pub fn should_refresh(enabled: bool, has_credentials: bool) -> (active: bool)
    ensures
        active == spec_should_refresh(enabled, has_credentials),
{
    enabled && has_credentials
}

/// The delay until the hourly poll: what is left of the hour, the gap, and the
/// jitter.
pub open spec fn hourly_refresh_delay(
    hourly_refresh_enabled: bool,
    seconds_into_hour: nat,
    jitter: nat,
) -> Option<int> {
    if hourly_refresh_enabled {
        Some(SECS_PER_HOUR - seconds_into_hour + HOURLY_REFRESH_INITIAL_GAP_SECS + jitter)
    } else {
        None
    }
}

/// Seconds from now until the hourly poll, or `None` if it is switched off.
///
/// `seconds_into_hour` is what has passed of the current hour and `jitter`
/// the random delay to add.
pub fn calculate_hourly_refresh_delay_with_params(
    hourly_refresh_enabled: bool,
    seconds_into_hour: u64,
    jitter: u64,
) -> (delay: Option<u64>)
    requires
        hourly_refresh_enabled ==> seconds_into_hour <= SECS_PER_HOUR,
        hourly_refresh_enabled ==> SECS_PER_HOUR - seconds_into_hour
            + HOURLY_REFRESH_INITIAL_GAP_SECS + jitter <= u64::MAX,
    ensures
        delay is Some <==> hourly_refresh_enabled,
        delay matches Some(d) ==> hourly_refresh_delay(
            hourly_refresh_enabled,
            seconds_into_hour as nat,
            jitter as nat,
        ) == Some(d as int),
{
    if !hourly_refresh_enabled {
        return None;
    }
    let seconds_until_next_hour: u64 = SECS_PER_HOUR - seconds_into_hour;
    let total_delay: u64 = seconds_until_next_hour + HOURLY_REFRESH_INITIAL_GAP_SECS + jitter;
    Some(total_delay)
}

/// With the inputs in their ranges the hourly poll falls after the full
/// hour, by at least the gap and by no more than gap and largest jitter.
pub proof fn lemma_hourly_delay_lands_after_the_hour(seconds_into_hour: nat, jitter: nat)
    requires
        seconds_into_hour < SECS_PER_HOUR,
        jitter <= HOURLY_REFRESH_JITTER_MAX_SECS,
    ensures
        hourly_refresh_delay(true, seconds_into_hour, jitter) is Some,
        hourly_refresh_delay(true, seconds_into_hour, jitter)->0 >= SECS_PER_HOUR
            - seconds_into_hour + HOURLY_REFRESH_INITIAL_GAP_SECS,
        hourly_refresh_delay(true, seconds_into_hour, jitter)->0 <= SECS_PER_HOUR
            - seconds_into_hour + HOURLY_REFRESH_INITIAL_GAP_SECS
            + HOURLY_REFRESH_JITTER_MAX_SECS,
        seconds_into_hour + hourly_refresh_delay(true, seconds_into_hour, jitter)->0
            > SECS_PER_HOUR,
{
}

/// What has passed of the current hour at `now_ms`, in whole seconds.
pub open spec fn spec_seconds_into_hour(now_ms: i64) -> u64 {
    ((now_ms as int / 1000) % 3600) as u64
}

/// What has passed of the current UTC hour at `now_ms`, in whole seconds.
#[verifier::when_used_as_spec(spec_seconds_into_hour)]
pub fn seconds_into_hour(now_ms: i64) -> (seconds: u64)
    ensures
        seconds == spec_seconds_into_hour(now_ms),
        seconds < SECS_PER_HOUR,
{
    if now_ms >= 0 {
        let now: u64 = now_ms as u64;
        (now / 1000) % SECS_PER_HOUR
    } else {
        // Whole seconds round towards the past, also before the epoch.
        let before: u64 = (-(now_ms + 1)) as u64;
        let whole: u64 = before / 1000;
        assert(now_ms as int / 1000 == -(whole as int) - 1) by (nonlinear_arith)
            requires
                now_ms < 0,
                before == -(now_ms + 1),
                whole == before / 1000,
        ;
        assert((-(whole as int) - 1) % 3600 == 3599 - (whole as int % 3600)) by (nonlinear_arith)
            requires
                whole >= 0,
        ;
        SECS_PER_HOUR - 1 - whole % SECS_PER_HOUR
    }
}

/// Draws the jitter of the hourly poll from `rand`'s thread-local generator:
/// one call of `random_range` on the inclusive range from 0 to `max`.
///
/// The claim is that the result lies in that range, as `random_range`
/// documents.
#[verifier::external_body]
fn random_jitter(max: u64) -> (jitter: u64)
    ensures
        jitter <= max,
{
    rand::Rng::random_range(&mut rand::rng(), 0..=max)
}

/// Seconds from now until the hourly poll, or `None` if it is switched off.
///
/// Reads the clock and draws the jitter, so two calls may differ; whatever
/// comes back is the delay for some second of the hour and some jitter up to
/// [`HOURLY_REFRESH_JITTER_MAX_SECS`].
pub fn calculate_hourly_refresh_delay(hourly_refresh_enabled: bool) -> (delay: Option<u64>)
    ensures
        delay is Some <==> hourly_refresh_enabled,
        delay matches Some(d) ==> exists|seconds: nat, jitter: nat|
            seconds < SECS_PER_HOUR && jitter <= HOURLY_REFRESH_JITTER_MAX_SECS
                && #[trigger] hourly_refresh_delay(true, seconds, jitter) == Some(d as int),
        delay matches Some(d) ==> HOURLY_REFRESH_INITIAL_GAP_SECS < d <= SECS_PER_HOUR
            + HOURLY_REFRESH_INITIAL_GAP_SECS + HOURLY_REFRESH_JITTER_MAX_SECS,
{
    if !hourly_refresh_enabled {
        return None;
    }
    let now_ms = now_millis();
    let seconds = seconds_into_hour(now_ms);
    let jitter = random_jitter(HOURLY_REFRESH_JITTER_MAX_SECS);
    let delay = calculate_hourly_refresh_delay_with_params(true, seconds, jitter);
    proof {
        assert(hourly_refresh_delay(true, seconds as nat, jitter as nat) == Some(
            delay->0 as int,
        ));
    }
    delay
}

/// The instant of the next poll: the interval from now, or the hourly poll
/// if that comes sooner.
pub open spec fn next_refresh_at(
    enabled: bool,
    interval_minutes: u32,
    now_ms: i64,
    hourly_delay_secs: Option<u64>,
) -> Option<int> {
    if !enabled {
        None
    } else {
        let regular_next = now_ms + interval_minutes * 60 * 1000;
        match hourly_delay_secs {
            Some(delay_secs) => {
                let hourly_next = now_ms + delay_secs * 1000;
                if hourly_next < regular_next {
                    Some(hourly_next)
                } else {
                    Some(regular_next)
                }
            },
            None => Some(regular_next),
        }
    }
}

/// Whether both candidate instants of [`next_refresh_at`] can be written as
/// `i64`.
pub open spec fn next_refresh_fits(
    interval_minutes: u32,
    now_ms: i64,
    hourly_delay_secs: Option<u64>,
) -> bool {
    &&& now_ms + interval_minutes * 60 * 1000 <= i64::MAX
    &&& hourly_delay_secs matches Some(delay_secs) ==> now_ms + delay_secs * 1000 <= i64::MAX
}

/// When the next poll is due, in milliseconds since the Unix epoch, or `None`
/// if polling is switched off.
///
/// `now_ms` is the current time and `hourly_delay_secs` the delay until the
/// hourly poll, if there is one. The sooner of the two wins.
pub fn calculate_next_refresh_at(
    enabled: bool,
    interval_minutes: u32,
    now_ms: i64,
    hourly_delay_secs: Option<u64>,
) -> (next: Option<i64>)
    requires
        enabled ==> next_refresh_fits(interval_minutes, now_ms, hourly_delay_secs),
    ensures
        !enabled ==> next is None,
        enabled ==> next is Some,
        next matches Some(at) ==> next_refresh_at(enabled, interval_minutes, now_ms, hourly_delay_secs)
            == Some(at as int),
{
    if !enabled {
        return None;
    }
    let regular_next: i64 = now_ms + (interval_minutes as i64 * 60 * 1000);
    match hourly_delay_secs {
        Some(delay_secs) => {
            // The product alone may exceed `i64` where `now_ms` is negative.
            let hourly_next: i128 = now_ms as i128 + delay_secs as i128 * 1000;
            if hourly_next < regular_next as i128 {
                Some(hourly_next as i64)
            } else {
                Some(regular_next)
            }
        },
        None => Some(regular_next),
    }
}

/// A longer interval never brings the next poll forward, and without an
/// hourly poll it moves the next poll strictly back.
pub proof fn lemma_longer_interval_wakes_later(
    shorter: u32,
    longer: u32,
    now_ms: i64,
    hourly_delay_secs: Option<u64>,
)
    requires
        shorter < longer,
    ensures
        next_refresh_at(true, shorter, now_ms, hourly_delay_secs)->0 <= next_refresh_at(
            true,
            longer,
            now_ms,
            hourly_delay_secs,
        )->0,
        next_refresh_at(true, shorter, now_ms, None)->0 < next_refresh_at(
            true,
            longer,
            now_ms,
            None,
        )->0,
{
}

/// The next poll is never later than either of its two candidates.
pub proof fn lemma_next_refresh_is_the_sooner(
    interval_minutes: u32,
    now_ms: i64,
    hourly_delay_secs: Option<u64>,
)
    ensures
        next_refresh_at(true, interval_minutes, now_ms, hourly_delay_secs) is Some,
        next_refresh_at(true, interval_minutes, now_ms, hourly_delay_secs)->0 <= now_ms
            + interval_minutes * 60 * 1000,
        hourly_delay_secs is Some ==> next_refresh_at(
            true,
            interval_minutes,
            now_ms,
            hourly_delay_secs,
        )->0 <= now_ms + hourly_delay_secs->0 * 1000,
        next_refresh_at(true, interval_minutes, now_ms, hourly_delay_secs)->0 == now_ms
            + interval_minutes * 60 * 1000 || (hourly_delay_secs is Some && next_refresh_at(
            true,
            interval_minutes,
            now_ms,
            hourly_delay_secs,
        )->0 == now_ms + hourly_delay_secs->0 * 1000),
{
}

/// What a poll came to: how it ended and when the next one is due.
#[derive(Debug, Clone, Copy, PartialEq, Eq)]
pub struct FetchOutput {
    pub result: FetchResult,
    /// When the next poll is due, in milliseconds since the Unix epoch.
    pub next_refresh_at: Option<i64>,
}

/// How long to wait before the next poll, in milliseconds.
///
/// An active backoff decides alone. Without one the wait runs to the
/// instant that was announced, or is over at once if that instant has
/// passed; and with no instant announced it is the interval.
pub open spec fn wait_millis(
    backoff_secs: u64,
    next_refresh_at: Option<i64>,
    now_ms: i64,
    interval_minutes: u32,
) -> int {
    if backoff_secs > 0 {
        backoff_secs * 1000
    } else {
        match next_refresh_at {
            Some(at) => if at > now_ms {
                at - now_ms
            } else {
                0
            },
            None => interval_minutes * 60 * 1000,
        }
    }
}

/// How long to wait before the next poll, in milliseconds; `u64::MAX` where
/// the wait is longer than that.
///
/// `next_refresh_at` is the instant that the poll announced to listeners, so
/// that their countdown and this wait end together.
pub fn calculate_wait_millis(
    backoff_secs: u64,
    next_refresh_at: Option<i64>,
    now_ms: i64,
    interval_minutes: u32,
) -> (wait: u64)
    ensures
        wait == if wait_millis(backoff_secs, next_refresh_at, now_ms, interval_minutes)
            <= u64::MAX {
            wait_millis(backoff_secs, next_refresh_at, now_ms, interval_minutes)
        } else {
            u64::MAX as int
        },
        0 < backoff_secs <= MAX_BACKOFF_SECS ==> wait == backoff_secs * 1000,
{
    if backoff_secs > 0 {
        if backoff_secs > u64::MAX / 1000 {
            u64::MAX
        } else {
            backoff_secs * 1000
        }
    } else {
        match next_refresh_at {
            Some(at) => {
                if at > now_ms {
                    let left: i128 = at as i128 - now_ms as i128;
                    left as u64
                } else {
                    0
                }
            },
            None => interval_minutes as u64 * 60 * 1000,
        }
    }
}

} // verus!
