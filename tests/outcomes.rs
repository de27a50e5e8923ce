use d1_repository::outcome::{finish_change, finish_create, finish_get};
use d1_repository::repository::{Options, RepoError, TestData};

fn row(id: i32) -> TestData {
    TestData {
        id,
        post_id: 1,
        short_text: String::from("s"),
        created_at: String::new(),
        updated_at: String::new(),
        sample_id: 2,
    }
}

#[test]
fn create_outcome_success() {
    let r = finish_create(Ok(Some(1))).unwrap();
    assert_eq!(r.result(), "success");
    let r = finish_create(Ok(None)).unwrap();
    assert_eq!(r.result(), "success");
}

#[test]
fn create_outcome_failure_keeps_message() {
    let r = finish_create(Err(String::from("UNIQUE constraint failed")));
    assert_eq!(r.err(), Some(RepoError::QueryFailed(String::from("UNIQUE constraint failed"))));
}

#[test]
fn change_outcome_zero_rows_is_not_found() {
    assert_eq!(finish_change(Ok(Some(0))).err(), Some(RepoError::NotFound));
    assert_eq!(finish_change(Ok(Some(2))).unwrap().result(), "success");
    assert_eq!(finish_change(Ok(None)).unwrap().result(), "success");
    assert_eq!(
        finish_change(Err(String::from("boom"))).err(),
        Some(RepoError::QueryFailed(String::from("boom")))
    );
}

#[test]
fn get_outcome_caps_rows_at_limit() {
    let rows: Vec<TestData> = (1..=8).map(row).collect();
    let out = finish_get(Ok(rows), &Options::new(5)).unwrap();
    assert_eq!(out.len(), 5);
    assert_eq!(out[4].id, 5);
}

#[test]
fn get_outcome_keeps_rows_under_limit() {
    let rows: Vec<TestData> = (1..=3).map(row).collect();
    let out = finish_get(Ok(rows), &Options { limit: None }).unwrap();
    assert_eq!(out.len(), 3);
}

#[test]
fn get_outcome_zero_and_negative_limits() {
    let rows: Vec<TestData> = (1..=3).map(row).collect();
    assert_eq!(finish_get(Ok(rows), &Options::new(0)).unwrap().len(), 0);
    let rows: Vec<TestData> = (1..=3).map(row).collect();
    assert_eq!(finish_get(Ok(rows), &Options::new(-1)).unwrap().len(), 3);
}

#[test]
fn get_outcome_failure() {
    let r = finish_get(Err(String::from("no such table")), &Options::new(5));
    assert!(matches!(r, Err(RepoError::QueryFailed(m)) if m == "no such table"));
}
