//! Which of the candidate nodes answers first.

use vstd::prelude::*;

use crate::timing::Duration;

verus! {

/// How long one candidate gets to answer, in seconds.
pub const PROBE_TIMEOUT_SECS: u64 = 3;

/// The realtime transports an endpoint can name.
#[derive(Debug, Clone, Copy, PartialEq, Eq, Structural)]
pub enum Transport {
    Tcp,
    Quic,
    WebSocket,
}

/// One server, as the sign-in form names it.
#[derive(Clone)]
pub struct ServerEndpoint {
    pub host: String,
    pub port: u16,
    pub gateway_port: u16,
    pub transport: Transport,
    /// Whether the realtime transport is secured.
    pub secure: bool,
    /// Whether the REST half is secured.
    pub rest_secure: bool,
}

/// Whether `i` is the index of the fastest responder, the earliest of the equally fast.
pub open spec fn fastest_at(latencies: Seq<Option<Duration>>, i: int) -> bool {
    &&& 0 <= i < latencies.len()
    &&& latencies[i] matches Some(best) && (forall|j: int|
        0 <= j < latencies.len() ==> (#[trigger] latencies[j] matches Some(other) ==> best.nanos
            <= other.nanos && (j < i ==> best.nanos < other.nanos)))
}

/// Whether nobody answered.
pub open spec fn nobody(latencies: Seq<Option<Duration>>) -> bool {
    forall|j: int| 0 <= j < latencies.len() ==> #[trigger] latencies[j] is None
}

/// The index of the fastest responder, or `None` when nobody answered. Ties go to the earlier
/// candidate.
pub fn pick_fastest(latencies: &[Option<Duration>]) -> (picked: Option<usize>)
    ensures
        picked is None <==> nobody(latencies@),
        picked matches Some(i) ==> fastest_at(latencies@, i as int),
{
    let mut picked: Option<usize> = None;
    let mut best: Duration = Duration { nanos: 0 };
    let mut i: usize = 0;
    while i < latencies.len()
        invariant
            i <= latencies.len(),
            picked is None ==> forall|j: int| 0 <= j < i ==> #[trigger] latencies@[j] is None,
            picked matches Some(p) ==> {
                &&& p < i
                &&& latencies@[p as int] == Some(best)
                &&& forall|j: int|
                    0 <= j < i ==> (#[trigger] latencies@[j] matches Some(other) ==> best.nanos
                        <= other.nanos && (j < p ==> best.nanos < other.nanos))
            },
        decreases latencies.len() - i,
    {
        if let Some(latency) = latencies[i] {
            if picked.is_none() || latency.nanos < best.nanos {
                picked = Some(i);
                best = latency;
            }
        }
        i = i + 1;
    }
    assert(picked matches Some(p) ==> latencies@[p as int] is Some);
    picked
}

/// The candidate that answered fastest, or `None` when none did. `latencies` holds the answer of
/// each candidate, in the candidates' order.
pub fn resolve<'a>(
    candidates: &'a Vec<ServerEndpoint>,
    latencies: &Vec<Option<Duration>>,
) -> (picked: Option<&'a ServerEndpoint>)
    requires
        candidates@.len() == latencies@.len(),
    ensures
        picked is None <==> nobody(latencies@),
        picked matches Some(endpoint) ==> exists|i: int|
            #[trigger] fastest_at(latencies@, i) && candidates@[i] == *endpoint,
{
    match pick_fastest(latencies.as_slice()) {
        Some(i) => {
            assert(fastest_at(latencies@, i as int));
            Some(&candidates[i])
        },
        None => None,
    }
}

/// One candidate's answer: how long a success took, and nothing for any other status or for none.
pub fn health_latency(status: Option<u16>, elapsed: Duration) -> (latency: Option<Duration>)
    ensures
        latency == (match status {
            Some(code) if crate::rest::success(code) => Some(elapsed),
            _ => None,
        }),
{
    match status {
        Some(code) => {
            if 200 <= code && code < 300 {
                Some(elapsed)
            } else {
                None
            }
        },
        None => None,
    }
}

/// At most one candidate is the fastest: the pick does not depend on how it is looked for.
pub proof fn law_the_fastest_is_one(latencies: Seq<Option<Duration>>, i: int, j: int)
    requires
        fastest_at(latencies, i),
        fastest_at(latencies, j),
    ensures
        i == j,
{
    assert(latencies[i] is Some && latencies[j] is Some);
}

/// Nobody that answered is faster than the fastest, and one as fast does not stand before it.
/// Nobody is picked exactly where nobody answered.
pub proof fn law_nobody_beats_the_fastest(latencies: Seq<Option<Duration>>, i: int, j: int)
    requires
        0 <= j < latencies.len(),
        latencies[j] is Some,
    ensures
        !nobody(latencies),
        fastest_at(latencies, i) ==> 0 <= i < latencies.len() && latencies[i] is Some
            && latencies[i]->0.nanos <= latencies[j]->0.nanos,
        fastest_at(latencies, i) && latencies[i]->0.nanos == latencies[j]->0.nanos ==> i <= j,
{
}

} // verus!
