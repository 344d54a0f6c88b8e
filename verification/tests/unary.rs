use exam_service::ExamServiceImpl;
use exam_service::LookupError;
use exam_service::LookupKey;
use exam_service::RecordStore;
use exam_service::ResultRecord;

#[test]
fn seeded_key_returns_exact_record() {
    let svc = ExamServiceImpl::new();
    let rec = svc.get_exam_result("123", "math101").expect("seeded key must resolve");
    assert_eq!(rec.student_name, "John Doe");
    assert_eq!(rec.subject, "Math 101");
    assert_eq!(rec.marks_obtained, 95);
    assert_eq!(rec.total_marks, 100);
    assert_eq!(rec.grade, "A+");
}

#[test]
fn second_seeded_key_returns_exact_record() {
    let svc = ExamServiceImpl::new();
    let rec = svc.get_exam_result("456", "phy101").expect("seeded key must resolve");
    assert_eq!(rec.student_name, "Jane Smith");
    assert_eq!(rec.subject, "Physics 101");
    assert_eq!(rec.marks_obtained, 88);
    assert_eq!(rec.total_marks, 100);
    assert_eq!(rec.grade, "A");
}

#[test]
fn missing_key_yields_not_found_with_key() {
    let svc = ExamServiceImpl::new();
    let err = svc.get_exam_result("999", "math101").expect_err("unseeded key must miss");
    let LookupError::NotFound { key } = &err;
    assert_eq!(key, "999_math101");
    let message = err.message();
    assert_eq!(message, "No result found for key: 999_math101");
    assert!(message.contains("999_math101"));
}

#[test]
fn empty_identifiers_are_ordinary_missing_values() {
    let svc = ExamServiceImpl::new();
    let err = svc.get_exam_result("", "").expect_err("empty identifiers match nothing");
    let LookupError::NotFound { key } = err;
    assert_eq!(key, "_");
}

#[test]
fn seeded_pair_is_not_confused_with_its_concatenation() {
    // The store is indexed by the structured pair, so an identifier pair
    // whose underscore-joined form collides with a seeded one still misses.
    let svc = ExamServiceImpl::new();
    assert!(svc.get_exam_result("123_math101", "").is_err());
    assert!(svc.get_exam_result("", "123_math101").is_err());
    assert!(svc.get_exam_result("123", "math10").is_err());
}

#[test]
fn custom_store_lookup_hits_and_misses() {
    let mut store = RecordStore::new();
    store.insert(
        LookupKey { student_id: String::from("7"), exam_id: String::from("bio1") },
        ResultRecord {
            student_name: String::from("Ada"),
            subject: String::from("Biology"),
            marks_obtained: 50,
            total_marks: 60,
            grade: String::from("B"),
        },
    );
    let svc = ExamServiceImpl::with_store(store);
    let rec = svc.get_exam_result("7", "bio1").expect("inserted key must resolve");
    assert_eq!(rec.student_name, "Ada");
    assert_eq!(rec.marks_obtained, 50);
    assert!(svc.get_exam_result("7", "bio2").is_err());
}

#[test]
fn combine_key_joins_with_underscore() {
    assert_eq!(exam_service::combine_key("123", "math101"), "123_math101");
    assert_eq!(exam_service::combine_key("", ""), "_");
}

#[test]
fn decimal_string_renders_exactly() {
    assert_eq!(exam_service::decimal_string(0), "0");
    assert_eq!(exam_service::decimal_string(7), "7");
    assert_eq!(exam_service::decimal_string(10), "10");
    assert_eq!(exam_service::decimal_string(12345), "12345");
}
