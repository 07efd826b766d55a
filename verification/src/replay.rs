use vstd::prelude::*;

use crate::stage_run::WaveEvent;

verus! {

/// Version of the combat replay protocol.
pub const PROTOCOL_VERSION: u8 = 1;

/// Seconds between two heartbeats sent to a replay client.
pub const HEARTBEAT_SECONDS: u64 = 15;

/// Seconds without a heartbeat after which a replay client is dropped.
pub const CLIENT_TIMEOUT_SECONDS: u64 = 45;

/// Where a client resumes a replay: after the given sequence number.
#[derive(Clone, Copy, Debug, PartialEq, Eq, Structural)]
pub struct ResumeQuery {
    pub after_sequence: u32,
}

/// Events among the first `n` whose sequence number is past `after`, in order.
pub open spec fn pending_upto(events: Seq<WaveEvent>, after: u32, n: int) -> Seq<WaveEvent>
    decreases n,
{
    if n <= 0 {
        seq![]
    } else if events[n - 1].sequence > after {
        pending_upto(events, after, n - 1).push(events[n - 1])
    } else {
        pending_upto(events, after, n - 1)
    }
}

/// Events a resuming client has not seen yet: those with a sequence number past
/// `after`, in order.
pub fn pending_events(events: &Vec<WaveEvent>, after: u32) -> (r: Vec<WaveEvent>)
    ensures
        r@ == pending_upto(events@, after, events@.len() as int),
{
    let mut out: Vec<WaveEvent> = Vec::new();
    let mut i: usize = 0;
    while i < events.len()
        invariant
            i <= events.len(),
            out@ == pending_upto(events@, after, i as int),
        decreases events.len() - i,
    {
        if events[i].sequence > after {
            out.push(events[i].duplicate());
        }
        i = i + 1;
    }
    out
}

/// Whether a client has been silent too long: more than 45 seconds (given in
/// milliseconds) since its last heartbeat.
pub fn client_timed_out(millis_since_heartbeat: u64) -> (r: bool)
    ensures
        r == (millis_since_heartbeat > 45_000),
{
    millis_since_heartbeat > CLIENT_TIMEOUT_SECONDS * 1000
}

/// Resuming twice is resuming once: the events owed after `b` out of those owed after
/// `a` are the events owed after the later of the two points, and every event owed has
/// a sequence number past the resume point.
pub proof fn lemma_resume_composes(events: Seq<WaveEvent>, a: u32, b: u32, n: int)
    requires
        0 <= n <= events.len(),
    ensures
        pending_upto(pending_upto(events, a, n), b, pending_upto(events, a, n).len() as int)
            == pending_upto(events, if a >= b { a } else { b }, n),
        forall|k: int|
            0 <= k < pending_upto(events, a, n).len() ==> (#[trigger] pending_upto(
                events,
                a,
                n,
            )[k]).sequence > a,
    decreases n,
{
    if n > 0 {
        lemma_resume_composes(events, a, b, n - 1);
        let prev = pending_upto(events, a, n - 1);
        let cur = pending_upto(events, a, n);
        lemma_pending_prefix(prev, b);
        if events[n - 1].sequence > a {
            assert(cur == prev.push(events[n - 1]));
            assert(cur.drop_last() =~= prev);
        } else {
            assert(cur == prev);
        }
    }
}

/// Filtering a sequence with one more element at the end filters the rest and keeps or
/// drops that element.
proof fn lemma_pending_prefix(events: Seq<WaveEvent>, after: u32)
    ensures
        forall|e: WaveEvent|
            #[trigger] pending_upto(events.push(e), after, (events.len() + 1) as int) == if e.sequence
                > after {
                pending_upto(events, after, events.len() as int).push(e)
            } else {
                pending_upto(events, after, events.len() as int)
            },
{
    assert forall|e: WaveEvent| #[trigger] pending_upto(events.push(e), after, (events.len() + 1) as int)
        == if e.sequence > after {
        pending_upto(events, after, events.len() as int).push(e)
    } else {
        pending_upto(events, after, events.len() as int)
    } by {
        lemma_pending_same(events.push(e), events, after, events.len() as int);
    }
}

/// Filtering depends only on the elements filtered.
proof fn lemma_pending_same(a: Seq<WaveEvent>, b: Seq<WaveEvent>, after: u32, n: int)
    requires
        0 <= n <= a.len(),
        n <= b.len(),
        forall|i: int| 0 <= i < n ==> a[i] == b[i],
    ensures
        pending_upto(a, after, n) == pending_upto(b, after, n),
    decreases n,
{
    if n > 0 {
        lemma_pending_same(a, b, after, n - 1);
    }
}

} // verus!
