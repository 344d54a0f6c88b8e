//! How one stream run unfolds against its consumer: how many elements the
//! producer attempts and the consumer receives for a given pattern of
//! channel acceptances, and why concurrent streams stay independent under
//! arbitrary interleaving.

use vstd::prelude::*;

use crate::record::RecordModel;
use crate::record::ResultRecord;
use crate::stream::stream_seq;
use crate::stream::StreamSession;

verus! {

/// How many elements the producer hands to the channel when the channel
/// answers each attempt as `outcomes` says (`false`: the consumer had
/// disconnected): production stops at the first rejection or after `n`
/// elements, whichever comes first.
pub open spec fn attempted_count(outcomes: Seq<bool>, n: nat) -> nat
    decreases n,
{
    if n == 0 || outcomes.len() == 0 {
        0
    } else if !outcomes[0] {
        1
    } else {
        (1 + attempted_count(outcomes.drop_first(), (n - 1) as nat)) as nat
    }
}

/// How many elements the consumer actually receives under the same
/// channel answers.
pub open spec fn delivered_count(outcomes: Seq<bool>, n: nat) -> nat
    decreases n,
{
    if n == 0 || outcomes.len() == 0 {
        0
    } else if !outcomes[0] {
        0
    } else {
        (1 + delivered_count(outcomes.drop_first(), (n - 1) as nat)) as nat
    }
}

/// A run never attempts more sends than the stream holds elements, and
/// never delivers more than it attempts: the received sequence length
/// stays within the stream's length under every consumer behaviour.
pub proof fn lemma_counts_bounded(outcomes: Seq<bool>, n: nat)
    ensures
        attempted_count(outcomes, n) <= n,
        delivered_count(outcomes, n) <= attempted_count(outcomes, n),
    decreases n,
{
    if n > 0 && outcomes.len() > 0 && outcomes[0] {
        lemma_counts_bounded(outcomes.drop_first(), (n - 1) as nat);
    }
}

/// If the consumer accepts the first `k` elements of a stream of `n` and
/// disconnects before the next, the producer attempts exactly `k + 1`
/// sends and the consumer receives exactly `k` elements: nothing past the
/// failed send is ever produced.
pub proof fn lemma_disconnect_bounds_production(outcomes: Seq<bool>, n: nat, k: nat)
    requires
        k < n,
        k < outcomes.len(),
        forall|i: int| 0 <= i < k ==> outcomes[i],
        !outcomes[k as int],
    ensures
        attempted_count(outcomes, n) == k + 1,
        delivered_count(outcomes, n) == k,
    decreases k,
{
    if k > 0 {
        lemma_disconnect_bounds_production(outcomes.drop_first(), (n - 1) as nat, (k - 1) as nat);
    }
}

/// If the consumer never disconnects, the producer attempts and delivers
/// the full sequence of `n` elements.
pub proof fn lemma_full_consumption(outcomes: Seq<bool>, n: nat)
    requires
        outcomes.len() >= n,
        forall|i: int| 0 <= i < n ==> outcomes[i],
    ensures
        attempted_count(outcomes, n) == n,
        delivered_count(outcomes, n) == n,
    decreases n,
{
    if n > 0 {
        lemma_full_consumption(outcomes.drop_first(), (n - 1) as nat);
    }
}

/// Replays one producer task against a fixed consumer behaviour:
/// `outcomes[i]` says whether the delivery channel accepted the `i`-th
/// element. Returns the records the consumer received, in order: always a
/// prefix of the stream's full sequence. Production stops at the first
/// failed send (recorded in the session, no error raised) or when the
/// sequence is exhausted.
pub fn run_delivery(session: &mut StreamSession, outcomes: &Vec<bool>) -> (r: Vec<ResultRecord>)
    requires
        old(session).inv(),
        old(session)@.sent == 0,
        !old(session)@.done,
        outcomes@.len() >= old(session)@.total,
    ensures
        final(session).inv(),
        final(session)@.key == old(session)@.key,
        final(session)@.total == old(session)@.total,
        final(session)@.sent == attempted_count(outcomes@, old(session)@.total),
        final(session)@.done || final(session)@.sent == final(session)@.total,
        r@.len() == delivered_count(outcomes@, old(session)@.total),
        forall|i: int|
            0 <= i < r@.len() ==> r@[i]@ == stream_seq(old(session)@.key, old(session)@.total)[i],
{
    let ghost key = old(session)@.key;
    let ghost n = old(session)@.total;
    let mut out: Vec<ResultRecord> = Vec::new();
    loop
        invariant
            key == old(session)@.key,
            n == old(session)@.total,
            session.inv(),
            session@.key == key,
            session@.total == n,
            !session@.done,
            session@.sent == out@.len(),
            out@.len() <= n,
            outcomes@.len() >= n,
            forall|i: int| 0 <= i < out@.len() ==> outcomes@[i],
            forall|i: int| 0 <= i < out@.len() ==> out@[i]@ == stream_seq(key, n)[i],
        decreases n - session@.sent,
    {
        match session.next_element() {
            None => {
                proof {
                    lemma_full_consumption(outcomes@, n);
                }
                return out;
            },
            Some(rec) => {
                let idx = out.len();
                if outcomes[idx] {
                    out.push(rec);
                } else {
                    session.record_send_failure();
                    proof {
                        lemma_disconnect_bounds_production(outcomes@, n, idx as nat);
                    }
                    return out;
                }
            },
        }
    }
}

/// The elements one stream contributed to an interleaved delivery trace,
/// in trace order. Trace elements are tagged with the stream they belong
/// to.
pub open spec fn lane(trace: Seq<(bool, RecordModel)>, id: bool) -> Seq<RecordModel>
    decreases trace.len(),
{
    if trace.len() == 0 {
        Seq::empty()
    } else if trace.first().0 == id {
        seq![trace.first().1] + lane(trace.drop_first(), id)
    } else {
        lane(trace.drop_first(), id)
    }
}

/// `trace` is some interleaving of the delivery sequences `a` (tag
/// `true`) and `b` (tag `false`): every trace element takes the next
/// undelivered element of its own stream, and both streams are drained.
pub open spec fn is_interleaving(
    trace: Seq<(bool, RecordModel)>,
    a: Seq<RecordModel>,
    b: Seq<RecordModel>,
) -> bool
    decreases trace.len(),
{
    if trace.len() == 0 {
        a.len() == 0 && b.len() == 0
    } else {
        ||| (trace.first().0 && a.len() > 0 && trace.first().1 == a.first() && is_interleaving(
            trace.drop_first(),
            a.drop_first(),
            b,
        ))
        ||| (!trace.first().0 && b.len() > 0 && trace.first().1 == b.first() && is_interleaving(
            trace.drop_first(),
            a,
            b.drop_first(),
        ))
    }
}

/// However two deliveries interleave on the wire, each consumer still
/// sees exactly its own sequence, whole and in order.
pub proof fn lemma_interleaving_keeps_lanes(
    trace: Seq<(bool, RecordModel)>,
    a: Seq<RecordModel>,
    b: Seq<RecordModel>,
)
    requires
        is_interleaving(trace, a, b),
    ensures
        lane(trace, true) == a,
        lane(trace, false) == b,
    decreases trace.len(),
{
    if trace.len() == 0 {
        assert(lane(trace, true) =~= a);
        assert(lane(trace, false) =~= b);
    } else if trace.first().0 {
        lemma_interleaving_keeps_lanes(trace.drop_first(), a.drop_first(), b);
        assert(lane(trace, true) =~= a);
    } else {
        lemma_interleaving_keeps_lanes(trace.drop_first(), a, b.drop_first());
        assert(lane(trace, false) =~= b);
    }
}

/// Two concurrent streaming calls are fully independent: whatever
/// interleaving of their two full sequences the transport produces, each
/// stream's own elements arrive whole and in their producer-defined
/// order.
pub proof fn lemma_concurrent_streams_independent(
    trace: Seq<(bool, RecordModel)>,
    key1: Seq<char>,
    key2: Seq<char>,
    n1: nat,
    n2: nat,
)
    requires
        is_interleaving(trace, stream_seq(key1, n1), stream_seq(key2, n2)),
    ensures
        lane(trace, true) == stream_seq(key1, n1),
        lane(trace, false) == stream_seq(key2, n2),
{
    lemma_interleaving_keeps_lanes(trace, stream_seq(key1, n1), stream_seq(key2, n2));
}

} // verus!
