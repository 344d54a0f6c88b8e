//! The call dispatcher's unary path: combine the request identifiers into
//! a lookup key, consult the record store, and return either a defensive
//! copy of the stored record or a not-found failure naming the key.

use vstd::prelude::*;
use vstd::string::*;

use crate::record::RecordModel;
use crate::record::ResultRecord;
use crate::store::LookupKey;
use crate::store::RecordStore;

verus! {

/// The diagnostic form of a lookup key: both identifiers joined by an
/// underscore. Used only in messages; the store itself is indexed by the
/// structured pair, which cannot collide.
pub open spec fn combined_key(student_id: Seq<char>, exam_id: Seq<char>) -> Seq<char> {
    student_id + "_"@ + exam_id
}

/// Builds the diagnostic key string.
pub fn combine_key(student_id: &str, exam_id: &str) -> (r: String)
    ensures
        r@ == combined_key(student_id@, exam_id@),
{
    let mut s = student_id.to_owned();
    s.append("_");
    s.append(exam_id);
    assert(s@ =~= combined_key(student_id@, exam_id@));
    s
}

/// The text of a not-found failure for a given diagnostic key.
pub open spec fn not_found_text(key: Seq<char>) -> Seq<char> {
    "No result found for key: "@ + key
}

/// A not-found message always carries the unresolved key verbatim, right
/// after its fixed prefix.
pub proof fn lemma_message_mentions_key(key: Seq<char>)
    ensures
        not_found_text(key).len() == "No result found for key: "@.len() + key.len(),
        not_found_text(key).subrange(
            "No result found for key: "@.len() as int,
            "No result found for key: "@.len() + key.len() as int,
        ) =~= key,
{
}

/// How a unary lookup fails: the key was absent from the store. Never a
/// server fault; the transport layer translates it into a protocol-level
/// not-found status.
#[derive(Debug)]
pub enum LookupError {
    NotFound { key: String },
}

impl LookupError {
    /// The user-visible message, echoing the unresolved key.
    pub fn message(&self) -> (r: String)
        ensures
            (match self {
                LookupError::NotFound { key } => r@ == not_found_text(key@),
            }),
    {
        match self {
            LookupError::NotFound { key } => {
                let mut s = String::from_str("No result found for key: ");
                s.append(key.as_str());
                assert(s@ =~= not_found_text(key@));
                s
            },
        }
    }
}

/// The service-facing dispatcher: owns the record store for the lifetime
/// of the process and answers lookups against it.
#[derive(Debug, Clone)]
pub struct ExamServiceImpl {
    exam_data: RecordStore,
}

impl View for ExamServiceImpl {
    type V = Map<(Seq<char>, Seq<char>), RecordModel>;

    closed spec fn view(&self) -> Map<(Seq<char>, Seq<char>), RecordModel> {
        self.exam_data@
    }
}

/// The fixed data the service is seeded with at startup.
pub open spec fn seeded_map() -> Map<(Seq<char>, Seq<char>), RecordModel> {
    Map::empty().insert(
        ("123"@, "math101"@),
        RecordModel {
            student_name: "John Doe"@,
            subject: "Math 101"@,
            marks_obtained: 95,
            total_marks: 100,
            grade: "A+"@,
        },
    ).insert(
        ("456"@, "phy101"@),
        RecordModel {
            student_name: "Jane Smith"@,
            subject: "Physics 101"@,
            marks_obtained: 88,
            total_marks: 100,
            grade: "A"@,
        },
    )
}

impl ExamServiceImpl {
    /// The store behind the dispatcher is well formed: keys unique,
    /// records well formed.
    pub closed spec fn inv(&self) -> bool {
        self.exam_data.inv()
    }

    /// Wraps an already populated store.
    pub fn with_store(store: RecordStore) -> (r: ExamServiceImpl)
        requires
            store.inv(),
        ensures
            r.inv(),
            r@ == store@,
    {
        ExamServiceImpl { exam_data: store }
    }

    /// Constructs the service with the pre-populated exam data.
    pub fn new() -> (r: ExamServiceImpl)
        ensures
            r.inv(),
            r@ == seeded_map(),
    {
        proof {
            reveal_strlit("123");
            reveal_strlit("456");
        }
        let mut store = RecordStore::new();
        store.insert(
            LookupKey { student_id: String::from_str("123"), exam_id: String::from_str("math101") },
            ResultRecord {
                student_name: String::from_str("John Doe"),
                subject: String::from_str("Math 101"),
                marks_obtained: 95,
                total_marks: 100,
                grade: String::from_str("A+"),
            },
        );
        proof {
            assert("123"@[0] == '1' && "456"@[0] == '4');
            assert("123"@ != "456"@);
        }
        store.insert(
            LookupKey { student_id: String::from_str("456"), exam_id: String::from_str("phy101") },
            ResultRecord {
                student_name: String::from_str("Jane Smith"),
                subject: String::from_str("Physics 101"),
                marks_obtained: 88,
                total_marks: 100,
                grade: String::from_str("A"),
            },
        );
        let r = ExamServiceImpl { exam_data: store };
        proof {
            assert(r@ =~= seeded_map());
        }
        r
    }

    /// The unary call: returns the stored record for the identifier pair
    /// exactly when one exists, and otherwise a not-found failure whose
    /// key is the diagnostic combination of the two identifiers.
    pub fn get_exam_result(&self, student_id: &str, exam_id: &str) -> (r: Result<
        ResultRecord,
        LookupError,
    >)
        requires
            self.inv(),
        ensures
            ({
                let k = (student_id@, exam_id@);
                match r {
                    Ok(rec) => self@.contains_key(k) && rec@ == self@[k] && rec.wf(),
                    Err(LookupError::NotFound { key }) => !self@.contains_key(k) && key@
                        == combined_key(student_id@, exam_id@),
                }
            }),
    {
        let key = LookupKey {
            student_id: student_id.to_owned(),
            exam_id: exam_id.to_owned(),
        };
        match self.exam_data.lookup(&key) {
            Some(rec) => Ok(rec.duplicate()),
            None => Err(LookupError::NotFound { key: combine_key(student_id, exam_id) }),
        }
    }
}

} // verus!
