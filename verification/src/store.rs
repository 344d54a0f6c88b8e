//! The record store: a read-only mapping from lookup keys to result
//! records, modelled as a mathematical map. Keys are kept structured
//! (student and exam identifier side by side), so two distinct identifier
//! pairs can never collide the way an ambiguous string concatenation could.

use vstd::prelude::*;

use crate::record::RecordModel;
use crate::record::ResultRecord;

verus! {

/// The composite key a record is stored under.
#[derive(Debug, Clone)]
pub struct LookupKey {
    pub student_id: String,
    pub exam_id: String,
}

impl View for LookupKey {
    type V = (Seq<char>, Seq<char>);

    open spec fn view(&self) -> (Seq<char>, Seq<char>) {
        (self.student_id@, self.exam_id@)
    }
}

impl LookupKey {
    /// Decides equality of two keys; two keys are equal exactly when both
    /// identifier components are.
    pub fn key_eq(&self, other: &LookupKey) -> (r: bool)
        ensures
            r <==> self@ == other@,
    {
        self.student_id == other.student_id && self.exam_id == other.exam_id
    }
}

/// The mathematical content of a sequence of store entries: later entries
/// shadow earlier ones, though a well-formed store never has two entries
/// under one key.
pub open spec fn map_of(s: Seq<(LookupKey, ResultRecord)>) -> Map<
    (Seq<char>, Seq<char>),
    RecordModel,
>
    decreases s.len(),
{
    if s.len() == 0 {
        Map::empty()
    } else {
        map_of(s.drop_last()).insert(s.last().0@, s.last().1@)
    }
}

pub open spec fn keys_unique(s: Seq<(LookupKey, ResultRecord)>) -> bool {
    forall|i: int, j: int| 0 <= i < j < s.len() ==> s[i].0@ != s[j].0@
}

proof fn lemma_map_of_contains(s: Seq<(LookupKey, ResultRecord)>, k: (Seq<char>, Seq<char>))
    ensures
        map_of(s).contains_key(k) <==> exists|i: int| 0 <= i < s.len() && s[i].0@ == k,
    decreases s.len(),
{
    if s.len() > 0 {
        lemma_map_of_contains(s.drop_last(), k);
        if map_of(s).contains_key(k) && s.last().0@ != k {
            let i = choose|i: int| 0 <= i < s.drop_last().len() && s.drop_last()[i].0@ == k;
            assert(s[i].0@ == k);
        }
        if exists|i: int| 0 <= i < s.len() && s[i].0@ == k {
            let i = choose|i: int| 0 <= i < s.len() && s[i].0@ == k;
            if i < s.len() - 1 {
                assert(s.drop_last()[i].0@ == k);
            }
        }
    }
}

proof fn lemma_map_of_value(s: Seq<(LookupKey, ResultRecord)>, i: int)
    requires
        keys_unique(s),
        0 <= i < s.len(),
    ensures
        map_of(s).contains_key(s[i].0@),
        map_of(s)[s[i].0@] == s[i].1@,
    decreases s.len(),
{
    if i == s.len() - 1 {
    } else {
        lemma_map_of_value(s.drop_last(), i);
        assert(s.drop_last()[i] == s[i]);
        assert(s.last().0@ != s[i].0@);
    }
}

/// The shared read-only container of pre-populated result records.
#[derive(Debug, Clone)]
pub struct RecordStore {
    entries: Vec<(LookupKey, ResultRecord)>,
}

impl View for RecordStore {
    type V = Map<(Seq<char>, Seq<char>), RecordModel>;

    closed spec fn view(&self) -> Map<(Seq<char>, Seq<char>), RecordModel> {
        map_of(self.entries@)
    }
}

impl RecordStore {
    /// Every key names exactly one record, and every stored record is
    /// well formed.
    pub closed spec fn inv(&self) -> bool {
        &&& keys_unique(self.entries@)
        &&& forall|i: int| 0 <= i < self.entries@.len() ==> (#[trigger] self.entries@[i]).1.wf()
    }

    /// An empty store.
    pub fn new() -> (r: RecordStore)
        ensures
            r.inv(),
            r@ == Map::<(Seq<char>, Seq<char>), RecordModel>::empty(),
    {
        RecordStore { entries: Vec::new() }
    }

    /// Adds one record during initialization. The key must be fresh: the
    /// store never holds two records under one key.
    pub fn insert(&mut self, key: LookupKey, record: ResultRecord)
        requires
            old(self).inv(),
            record.wf(),
            !old(self)@.contains_key(key@),
        ensures
            final(self).inv(),
            final(self)@ == old(self)@.insert(key@, record@),
    {
        proof {
            lemma_map_of_contains(self.entries@, key@);
        }
        let ghost before = self.entries@;
        self.entries.push((key, record));
        proof {
            assert(self.entries@.drop_last() =~= before);
        }
    }

    /// Looks a key up: `Some` with the stored record exactly when the key
    /// is present, `None` otherwise. Read-only and free of side effects,
    /// so any number of concurrent readers may share the store.
    pub fn lookup(&self, key: &LookupKey) -> (r: Option<&ResultRecord>)
        requires
            self.inv(),
        ensures
            match r {
                Some(rec) => self@.contains_key(key@) && rec@ == self@[key@] && rec.wf(),
                None => !self@.contains_key(key@),
            },
    {
        let n = self.entries.len();
        let mut i: usize = 0;
        while i < n
            invariant
                n == self.entries.len(),
                i <= n,
                self.inv(),
                forall|j: int| 0 <= j < i ==> (#[trigger] self.entries@[j]).0@ != key@,
            decreases n - i,
        {
            if self.entries[i].0.key_eq(key) {
                proof {
                    lemma_map_of_value(self.entries@, i as int);
                }
                return Some(&self.entries[i].1);
            }
            i += 1;
        }
        proof {
            lemma_map_of_contains(self.entries@, key@);
        }
        None
    }
}

} // verus!
