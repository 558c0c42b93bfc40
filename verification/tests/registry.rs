use exam_registry::ExamResultContract;
use exam_registry::RegistryError;
use exam_registry::ResultStats;

const LEASE: u64 = 5000;

#[test]
fn statistics_start_at_zero() {
    let r = ExamResultContract::new(LEASE);
    let stats = r.get_statistics();
    assert_eq!(
        stats,
        ResultStats {
            verified: 0,
            pending: 0,
            total: 0
        }
    );
}

#[test]
fn identifiers_count_up_from_one() {
    let mut r = ExamResultContract::new(LEASE);
    for expected in 1u64..=5 {
        let id = r.submit_result(format!("s{}", expected), "Math".to_string(), 10, 100);
        assert_eq!(id, expected);
    }
}

#[test]
fn submitted_record_is_returned_unchanged() {
    let mut r = ExamResultContract::new(LEASE);
    let id = r.submit_result("alice".to_string(), "History".to_string(), 88, 1234);
    let rec = r.get_result(id).unwrap();
    assert_eq!(rec.result_id, id);
    assert_eq!(rec.student_id, "alice");
    assert_eq!(rec.exam_name, "History");
    assert_eq!(rec.score, 88);
    assert_eq!(rec.timestamp, 1234);
    assert!(!rec.is_verified);
}

#[test]
fn empty_strings_and_any_score_are_accepted() {
    let mut r = ExamResultContract::new(LEASE);
    let id = r.submit_result(String::new(), String::new(), u64::MAX, 0);
    let rec = r.get_result(id).unwrap();
    assert_eq!(rec.student_id, "");
    assert_eq!(rec.exam_name, "");
    assert_eq!(rec.score, u64::MAX);
}

#[test]
fn get_unknown_identifier_fails_not_found() {
    let mut r = ExamResultContract::new(LEASE);
    assert_eq!(r.get_result(1), Err(RegistryError::NotFound));
    r.submit_result("s".to_string(), "Math".to_string(), 1, 1);
    assert_eq!(r.get_result(0), Err(RegistryError::NotFound));
    assert_eq!(r.get_result(2), Err(RegistryError::NotFound));
}

#[test]
fn verify_unknown_identifier_fails_not_found() {
    let mut r = ExamResultContract::new(LEASE);
    assert_eq!(r.verify_result(1, 10), Err(RegistryError::NotFound));
    r.submit_result("s".to_string(), "Math".to_string(), 1, 1);
    assert_eq!(r.verify_result(0, 10), Err(RegistryError::NotFound));
    assert_eq!(r.verify_result(99, 10), Err(RegistryError::NotFound));
}

#[test]
fn verify_twice_fails_and_keeps_the_flag() {
    let mut r = ExamResultContract::new(LEASE);
    let id = r.submit_result("s".to_string(), "Math".to_string(), 1, 1);
    assert_eq!(r.verify_result(id, 2), Ok(()));
    assert!(r.get_result(id).unwrap().is_verified);
    assert_eq!(r.verify_result(id, 3), Err(RegistryError::AlreadyVerified));
    assert!(r.get_result(id).unwrap().is_verified);
    let stats = r.get_statistics();
    assert_eq!(stats.verified, 1);
    assert_eq!(stats.pending, 0);
    assert_eq!(stats.total, 1);
}

#[test]
fn counters_partition_the_record_set() {
    let mut r = ExamResultContract::new(LEASE);
    for i in 0u64..6 {
        r.submit_result(format!("s{}", i), "Physics".to_string(), i, i);
    }
    assert_eq!(r.verify_result(2, 10), Ok(()));
    assert_eq!(r.verify_result(5, 11), Ok(()));
    assert_eq!(r.verify_result(5, 12), Err(RegistryError::AlreadyVerified));
    let stats = r.get_statistics();
    assert_eq!(stats.verified + stats.pending, stats.total);
    assert_eq!(stats.verified, 2);
    assert_eq!(stats.pending, 4);
    assert_eq!(stats.total, 6);
}

#[test]
fn submit_then_verify_scenario() {
    let mut r = ExamResultContract::new(LEASE);
    assert_eq!(r.submit_result("s1".to_string(), "Math".to_string(), 90, 100), 1);
    assert_eq!(r.submit_result("s2".to_string(), "Math".to_string(), 75, 110), 2);
    let stats = r.get_statistics();
    assert_eq!(stats.verified, 0);
    assert_eq!(stats.pending, 2);
    assert_eq!(stats.total, 2);
    assert_eq!(r.verify_result(1, 120), Ok(()));
    let stats = r.get_statistics();
    assert_eq!(stats.verified, 1);
    assert_eq!(stats.pending, 1);
    assert_eq!(stats.total, 2);
    assert_eq!(r.verify_result(1, 130), Err(RegistryError::AlreadyVerified));
    assert_eq!(r.get_result(2).unwrap().score, 75);
    assert_eq!(r.get_result(99), Err(RegistryError::NotFound));
}
