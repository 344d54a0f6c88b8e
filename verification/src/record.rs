//! The result record: the immutable value a lookup returns and a stream
//! delivers, together with its mathematical model.

use vstd::prelude::*;

verus! {

/// Mathematical model of a [`ResultRecord`]: every field as a plain
/// mathematical value.
pub ghost struct RecordModel {
    pub student_name: Seq<char>,
    pub subject: Seq<char>,
    pub marks_obtained: int,
    pub total_marks: int,
    pub grade: Seq<char>,
}

/// One exam result. Immutable once created; the store hands out defensive
/// copies so no caller can observe or cause mutation through a response.
#[derive(Debug, Clone)]
pub struct ResultRecord {
    pub student_name: String,
    pub subject: String,
    pub marks_obtained: u32,
    pub total_marks: u32,
    pub grade: String,
}

impl View for ResultRecord {
    type V = RecordModel;

    open spec fn view(&self) -> RecordModel {
        RecordModel {
            student_name: self.student_name@,
            subject: self.subject@,
            marks_obtained: self.marks_obtained as int,
            total_marks: self.total_marks as int,
            grade: self.grade@,
        }
    }
}

impl RecordModel {
    /// A record never reports more marks than the total.
    pub open spec fn wf(self) -> bool {
        0 <= self.marks_obtained <= self.total_marks
    }
}

impl ResultRecord {
    /// Well-formedness carried by every record the library hands out.
    pub open spec fn wf(&self) -> bool {
        self@.wf()
    }

    /// The defensive copy returned to callers: equal to the original in
    /// every field.
    pub fn duplicate(&self) -> (r: ResultRecord)
        ensures
            r@ == self@,
    {
        ResultRecord {
            student_name: self.student_name.clone(),
            subject: self.subject.clone(),
            marks_obtained: self.marks_obtained,
            total_marks: self.total_marks,
            grade: self.grade.clone(),
        }
    }
}

} // verus!
