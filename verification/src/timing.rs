//! Time as the connection uses it: the heartbeat and the reconnect schedule.

use vstd::prelude::*;

verus! {

/// A span of time, in nanoseconds.
#[derive(Debug, Clone, Copy, PartialEq, Eq, Structural)]
pub struct Duration {
    pub nanos: u128,
}

impl Duration {
    pub fn from_millis(millis: u64) -> (d: Self)
        ensures
            d.nanos == millis * 1_000_000,
    {
        Duration { nanos: millis as u128 * 1_000_000 }
    }

    pub fn from_secs(secs: u64) -> (d: Self)
        ensures
            d.nanos == secs * 1_000_000_000,
    {
        Duration { nanos: secs as u128 * 1_000_000_000 }
    }
}

/// The shortest heartbeat this client will keep, in seconds.
pub const MIN_HEARTBEAT_SECS: u64 = 5;

/// The interval this client pings at, from the one a server advertised.
///
/// Half of what was advertised, so that a timer that fires late still beats the server's
/// two-interval deadline, and never less than [`MIN_HEARTBEAT_SECS`].
pub fn heartbeat_interval(advertised_ms: u32) -> (d: Duration)
    ensures
        d.nanos == heartbeat_nanos(advertised_ms),
{
    let half: Duration = Duration::from_millis(advertised_ms as u64 / 2);
    let floor: Duration = Duration::from_secs(MIN_HEARTBEAT_SECS);
    if half.nanos < floor.nanos {
        floor
    } else {
        half
    }
}

pub open spec fn heartbeat_nanos(advertised_ms: u32) -> int {
    let half = (advertised_ms / 2) * 1_000_000;
    if half < 5_000_000_000 {
        5_000_000_000
    } else {
        half
    }
}

/// Wherever the floor is not what decides, one beat fits twice into the advertised interval, and
/// so four times into the deadline of two intervals; a beat is never a spin.
pub proof fn law_heartbeat_meets_its_deadline(advertised_ms: u32)
    ensures
        heartbeat_nanos(advertised_ms) > 0,
        advertised_ms >= 10_000 ==> 2 * heartbeat_nanos(advertised_ms) <= advertised_ms * 1_000_000,
{
}

/// Attempts before the client gives up and says so.
pub const RETRY_LIMIT: u32 = 8;

/// The first pause, in milliseconds.
pub const RETRY_BASE_MS: u64 = 500;

/// The longest un-jittered pause, in milliseconds.
pub const RETRY_CAP_MS: u64 = 30_000;

/// The spread added to every pause, in milliseconds: strictly less than this.
pub const RETRY_JITTER_MS: u64 = 500;

/// The reconnect schedule after a lost connection: exponential backoff with jitter and a cap.
#[derive(Debug, Clone, Copy, PartialEq, Eq, Structural)]
pub struct Retry {
    /// Attempts already made since the connection was lost.
    pub attempts: u32,
    /// The un-jittered delay in milliseconds, doubled after each failure and capped.
    pub backoff_ms: u64,
    /// What to actually wait: the backoff plus this round's jitter.
    pub wait_ms: u64,
}

/// The un-jittered delay before attempt `n`, counted from zero: the base doubled `n` times, held
/// to the cap.
pub open spec fn backoff_at(n: nat) -> int
    decreases n,
{
    if n == 0 {
        500
    } else if 2 * backoff_at((n - 1) as nat) < 30_000 {
        2 * backoff_at((n - 1) as nat)
    } else {
        30_000
    }
}

impl Retry {
    /// A schedule that [`Retry::first`] and [`Retry::after_failure`] can have made.
    pub open spec fn wf(self) -> bool {
        &&& self.attempts < RETRY_LIMIT
        &&& self.backoff_ms == backoff_at(self.attempts as nat)
        &&& self.backoff_ms <= self.wait_ms < self.backoff_ms + RETRY_JITTER_MS
    }

    /// The jitter two random bytes stand for: the little-endian number they spell, modulo half a
    /// second.
    pub fn jitter(random: [u8; 2]) -> (ms: u64)
        ensures
            ms == (random[0] + 256 * random[1]) % 500,
            ms < RETRY_JITTER_MS,
    {
        (random[0] as u64 + 256 * random[1] as u64) % 500
    }

    /// The schedule for the first attempt after a connection is lost.
    pub fn first(random: [u8; 2]) -> (plan: Self)
        ensures
            plan.wf(),
            plan.attempts == 0,
            plan.wait_ms == RETRY_BASE_MS + (random[0] + 256 * random[1]) % 500,
    {
        let jitter: u64 = Self::jitter(random);
        Retry { attempts: 0, backoff_ms: RETRY_BASE_MS, wait_ms: RETRY_BASE_MS + jitter }
    }

    /// The schedule after an attempt failed, or `None` once the limit is reached.
    pub fn after_failure(self, random: [u8; 2]) -> (next: Option<Self>)
        requires
            self.wf(),
        ensures
            next is None <==> self.attempts + 1 >= RETRY_LIMIT,
            next matches Some(plan) ==> {
                &&& plan.wf()
                &&& plan.attempts == self.attempts + 1
                &&& plan.wait_ms == plan.backoff_ms + (random[0] + 256 * random[1]) % 500
            },
    {
        let attempts: u32 = self.attempts + 1;
        if attempts >= RETRY_LIMIT {
            return None;
        }
        proof {
            law_backoff_is_bounded(self.attempts as nat);
        }
        let doubled: u64 = self.backoff_ms * 2;
        let backoff_ms: u64 = if doubled < RETRY_CAP_MS {
            doubled
        } else {
            RETRY_CAP_MS
        };
        let jitter: u64 = Self::jitter(random);
        Some(Retry { attempts, backoff_ms, wait_ms: backoff_ms + jitter })
    }
}

/// No pause falls below the base or, jitter aside, rises above the cap.
pub proof fn law_backoff_is_bounded(n: nat)
    ensures
        RETRY_BASE_MS <= backoff_at(n) <= RETRY_CAP_MS,
    decreases n,
{
    if n > 0 {
        law_backoff_is_bounded((n - 1) as nat);
    }
}

/// A later attempt never waits less, jitter aside, than an earlier one.
pub proof fn law_backoff_never_shrinks(earlier: nat, later: nat)
    requires
        earlier <= later,
    ensures
        backoff_at(earlier) <= backoff_at(later),
    decreases later,
{
    if earlier < later {
        law_backoff_never_shrinks(earlier, (later - 1) as nat);
        law_backoff_is_bounded((later - 1) as nat);
    }
}

/// A schedule waits half a second at least and under thirty and a half seconds at most, and is
/// renewed fewer than [`RETRY_LIMIT`] times: reconnecting is never unbounded.
pub proof fn law_every_wait_is_bounded(plan: Retry)
    requires
        plan.wf(),
    ensures
        500 <= plan.wait_ms < 30_500,
        plan.attempts < RETRY_LIMIT,
{
    law_backoff_is_bounded(plan.attempts as nat);
}

/// A beat comes at half of what the server advertised, and never sooner than every five seconds.
pub proof fn law_a_beat_is_half_the_interval(advertised_ms: u32)
    ensures
        advertised_ms >= 10_000 ==> heartbeat_nanos(advertised_ms) == (advertised_ms / 2) as int
            * 1_000_000,
        advertised_ms < 10_000 ==> heartbeat_nanos(advertised_ms) == 5_000_000_000,
        heartbeat_nanos(advertised_ms) >= 5_000_000_000,
{
}

/// The pauses double from half a second to half a minute, and eight attempts are made.
pub proof fn law_the_pauses_double(n: nat)
    ensures
        backoff_at(0) == 500,
        backoff_at(n + 1) == (if 2 * backoff_at(n) < 30_000 { 2 * backoff_at(n) } else { 30_000 }),
        RETRY_LIMIT == 8,
        RETRY_BASE_MS == 500,
        RETRY_CAP_MS == 30_000,
        RETRY_JITTER_MS == 500,
{
}

} // verus!
