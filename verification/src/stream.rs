//! The stream producer: a per-call state machine that generates a finite,
//! ordered, non-restartable sequence of progress records, stops on
//! consumer disconnect, and never shares mutable state with another call.
//! The surrounding transport (channel, task, pacing sleep) drives it one
//! step at a time.

use vstd::prelude::*;
use vstd::string::*;

use crate::dispatch::combined_key;
use crate::numbers::dec_rep;
use crate::numbers::decimal_string;
use crate::numbers::lemma_dec_rep_injective;
use crate::record::RecordModel;
use crate::record::ResultRecord;

verus! {

/// Number of elements a stream produces unless configured otherwise.
pub const DEFAULT_STREAM_LEN: usize = 3;

/// Default pacing interval between elements, in whatever time unit the
/// transport layer chooses (the paced server uses seconds).
pub const DEFAULT_PACING_UNITS: u64 = 1;

/// The free-text prefix of the progress label for element `k` of `n`.
pub open spec fn label_prefix(k: nat, n: nat) -> Seq<char> {
    if k == n {
        "Completed result for "@
    } else if k == 1 {
        "Processing result for "@
    } else {
        "Still working on "@
    }
}

/// The ordinal marker a progress label ends with: ` (k/n)`.
pub open spec fn ordinal_marker(k: nat, n: nat) -> Seq<char> {
    " ("@ + dec_rep(k) + "/"@ + dec_rep(n) + ")"@
}

/// The full progress label of element `k` of `n` for a given diagnostic key.
pub open spec fn stream_label(key: Seq<char>, k: nat, n: nat) -> Seq<char> {
    label_prefix(k, n) + key + ordinal_marker(k, n)
}

/// The `k`-th (1-based) record a stream for `key` delivers.
pub open spec fn stream_element(key: Seq<char>, k: nat, n: nat) -> RecordModel {
    RecordModel {
        student_name: "Streamed"@,
        subject: "Simulation"@,
        marks_obtained: 90,
        total_marks: 100,
        grade: stream_label(key, k, n),
    }
}

/// The complete sequence a stream for `key` delivers when the consumer
/// never disconnects.
pub open spec fn stream_seq(key: Seq<char>, n: nat) -> Seq<RecordModel> {
    Seq::new(n, |i: int| stream_element(key, (i + 1) as nat, n))
}

/// Mathematical state of a [`StreamSession`].
pub ghost struct SessionModel {
    /// The diagnostic key the labels speak of.
    pub key: Seq<char>,
    /// How many elements the stream produces in full.
    pub total: nat,
    /// How many elements were generated so far.
    pub sent: nat,
    /// Whether production has terminated (sequence exhausted or consumer
    /// disconnected).
    pub done: bool,
    /// The pacing interval between elements.
    pub pacing: nat,
}

/// Per-call producer state: the resolved key, the position in the
/// sequence, and the termination flag. One session exists per streaming
/// call and shares nothing mutable with any other call.
#[derive(Debug, Clone)]
pub struct StreamSession {
    key: String,
    total: usize,
    sent: usize,
    done: bool,
    pacing_units: u64,
}

impl View for StreamSession {
    type V = SessionModel;

    closed spec fn view(&self) -> SessionModel {
        SessionModel {
            key: self.key@,
            total: self.total as nat,
            sent: self.sent as nat,
            done: self.done,
            pacing: self.pacing_units as nat,
        }
    }
}

impl StreamSession {
    /// A session never counts more generated elements than the sequence
    /// holds.
    pub open spec fn inv(&self) -> bool {
        self@.sent <= self@.total
    }

    /// Opens a fresh session for one streaming call: nothing generated
    /// yet, key combined from the request identifiers.
    pub fn new(student_id: &str, exam_id: &str, total: usize, pacing_units: u64) -> (r:
        StreamSession)
        ensures
            r.inv(),
            r@.key == combined_key(student_id@, exam_id@),
            r@.total == total,
            r@.sent == 0,
            !r@.done,
            r@.pacing == pacing_units,
    {
        StreamSession {
            key: crate::dispatch::combine_key(student_id, exam_id),
            total,
            sent: 0,
            done: false,
            pacing_units,
        }
    }

    /// How many elements were generated so far.
    pub fn sent_count(&self) -> (r: usize)
        ensures
            r == self@.sent,
    {
        self.sent
    }

    /// The full length of the sequence this session produces.
    pub fn total_len(&self) -> (r: usize)
        ensures
            r == self@.total,
    {
        self.total
    }

    /// The pacing interval the transport layer must wait between elements.
    pub fn pacing(&self) -> (r: u64)
        ensures
            r == self@.pacing,
    {
        self.pacing_units
    }

    /// Whether production has terminated: the sequence is exhausted or
    /// the consumer is gone.
    pub fn is_finished(&self) -> (r: bool)
        ensures
            r == (self@.done || self@.sent == self@.total),
    {
        self.done || self.sent == self.total
    }

    /// Generates the next element of the sequence, or `None` when
    /// production has terminated. Elements come out in ordinal order:
    /// the `k`-th call yields exactly the `k`-th element of
    /// [`stream_seq`], and nothing is ever generated past termination.
    pub fn next_element(&mut self) -> (r: Option<ResultRecord>)
        requires
            old(self).inv(),
        ensures
            final(self).inv(),
            final(self)@.key == old(self)@.key,
            final(self)@.total == old(self)@.total,
            final(self)@.pacing == old(self)@.pacing,
            (match r {
                Some(rec) => !old(self)@.done && old(self)@.sent < old(self)@.total && rec@
                    == stream_element(
                    old(self)@.key,
                    old(self)@.sent + 1,
                    old(self)@.total,
                ) && final(self)@.sent == old(self)@.sent + 1 && final(self)@.done == old(
                    self,
                )@.done,
                None => (old(self)@.done || old(self)@.sent == old(self)@.total) && final(self)@
                    == old(self)@,
            }),
    {
        if self.done || self.sent == self.total {
            return None;
        }
        let k = self.sent + 1;
        let grade = label_string(&self.key, k, self.total);
        self.sent = k;
        let rec = ResultRecord {
            student_name: String::from_str("Streamed"),
            subject: String::from_str("Simulation"),
            marks_obtained: 90,
            total_marks: 100,
            grade,
        };
        assert(rec@ == stream_element(self@.key, self@.sent, self@.total));
        Some(rec)
    }

    /// Records that handing an element to the delivery channel failed:
    /// the consumer disconnected. Production terminates; nothing else
    /// changes, no error is raised.
    pub fn record_send_failure(&mut self)
        requires
            old(self).inv(),
        ensures
            final(self).inv(),
            final(self)@ == (SessionModel { done: true, ..old(self)@ }),
    {
        self.done = true;
    }
}

/// Ordinal markers of distinct ordinals differ, for any one stream length.
pub proof fn lemma_ordinal_marker_injective(i: nat, j: nat, n: nat)
    requires
        ordinal_marker(i, n) == ordinal_marker(j, n),
    ensures
        i == j,
{
    reveal_strlit(" (");
    reveal_strlit("/");
    reveal_strlit(")");
    let a = dec_rep(i);
    let b = dec_rep(j);
    let c = dec_rep(n);
    assert(ordinal_marker(i, n).len() == 2 + a.len() + 1 + c.len() + 1);
    assert(ordinal_marker(j, n).len() == 2 + b.len() + 1 + c.len() + 1);
    assert(a.len() == b.len());
    assert(a =~= ordinal_marker(i, n).subrange(2, 2 + a.len() as int));
    assert(b =~= ordinal_marker(j, n).subrange(2, 2 + b.len() as int));
    lemma_dec_rep_injective(i, j);
}

/// Progress labels of distinct ordinals differ: a received label names
/// its position in the stream unambiguously.
pub proof fn lemma_stream_label_injective(key: Seq<char>, i: nat, j: nat, n: nat)
    requires
        1 <= i <= n,
        1 <= j <= n,
        stream_label(key, i, n) == stream_label(key, j, n),
    ensures
        i == j,
{
    reveal_strlit("Completed result for ");
    reveal_strlit("Processing result for ");
    reveal_strlit("Still working on ");
    let pi = label_prefix(i, n);
    let pj = label_prefix(j, n);
    if pi == pj {
        let li = stream_label(key, i, n);
        let lj = stream_label(key, j, n);
        assert(li.len() == pi.len() + key.len() + ordinal_marker(i, n).len());
        assert(lj.len() == pj.len() + key.len() + ordinal_marker(j, n).len());
        let start = pi.len() + key.len() as int;
        assert(ordinal_marker(i, n) =~= li.subrange(start, li.len() as int));
        assert(ordinal_marker(j, n) =~= lj.subrange(start, lj.len() as int));
        lemma_ordinal_marker_injective(i, j, n);
    } else {
        assert(pi[0] != pj[0]);
        assert(stream_label(key, i, n)[0] == pi[0]);
        assert(stream_label(key, j, n)[0] == pj[0]);
    }
}

/// The delivered sequence of any one stream is ordered by its ordinal
/// markers: element `i` carries ordinal `i + 1`, so markers strictly
/// increase with position and no two elements share a label; the
/// sequence holds exactly `n` elements when fully consumed.
pub proof fn lemma_stream_ordinals_increase(key: Seq<char>, n: nat)
    ensures
        stream_seq(key, n).len() == n,
        forall|i: int|
            0 <= i < n ==> (#[trigger] stream_seq(key, n)[i]).grade == stream_label(
                key,
                (i + 1) as nat,
                n,
            ),
        forall|i: int, j: int|
            0 <= i < j < n ==> stream_seq(key, n)[i].grade != stream_seq(key, n)[j].grade,
{
    assert forall|i: int, j: int| 0 <= i < j < n implies stream_seq(key, n)[i].grade != stream_seq(
        key,
        n,
    )[j].grade by {
        if stream_seq(key, n)[i].grade == stream_seq(key, n)[j].grade {
            lemma_stream_label_injective(key, (i + 1) as nat, (j + 1) as nat, n);
        }
    }
}

/// Builds the progress label of element `k` of `n`.
fn label_string(key: &String, k: usize, n: usize) -> (r: String)
    requires
        1 <= k <= n,
    ensures
        r@ == stream_label(key@, k as nat, n as nat),
{
    let mut s: String;
    if k == n {
        s = String::from_str("Completed result for ");
    } else if k == 1 {
        s = String::from_str("Processing result for ");
    } else {
        s = String::from_str("Still working on ");
    }
    s.append(key.as_str());
    s.append(" (");
    let kd = decimal_string(k);
    s.append(kd.as_str());
    s.append("/");
    let nd = decimal_string(n);
    s.append(nd.as_str());
    s.append(")");
    assert(s@ =~= stream_label(key@, k as nat, n as nat));
    s
}

} // verus!
