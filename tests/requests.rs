use d1_repository::repository::{CreateParams, Field, RepoError, UpdateParams};
use d1_repository::request::{
    parse_i32, BulkInsertParams, BulkInsertRequest, CreateRequest, UpdateRequest,
};

#[test]
fn parse_accepts_decimal_forms() {
    assert_eq!(parse_i32("7"), Some(7));
    assert_eq!(parse_i32("+12"), Some(12));
    assert_eq!(parse_i32("-42"), Some(-42));
    assert_eq!(parse_i32("007"), Some(7));
    assert_eq!(parse_i32("2147483647"), Some(i32::MAX));
    assert_eq!(parse_i32("-2147483648"), Some(i32::MIN));
}

#[test]
fn parse_rejects_other_text() {
    for s in ["", "-", "+", "1a", " 1", "1 ", "1_000", "2147483648", "-2147483649", "99999999999999999999", "٣"] {
        assert_eq!(parse_i32(s), None, "{s}");
    }
}

#[test]
fn parse_agrees_with_std() {
    for s in ["0", "-0", "+0", "123", "-123", "12x", "--1", "+-1", "4294967296", "-2147483648"] {
        assert_eq!(parse_i32(s), s.parse::<i32>().ok(), "{s}");
    }
}

#[test]
fn create_request_with_every_field() {
    let req = CreateRequest { post_id: Some(1), short_text: Some(String::from("a")), sample_id: Some(2) };
    let p = CreateParams::try_from(req).unwrap();
    assert_eq!(p.post_id, 1);
    assert_eq!(p.short_text, "a");
    assert_eq!(p.sample_id, 2);
}

#[test]
fn create_request_missing_fields() {
    let req = CreateRequest { post_id: None, short_text: None, sample_id: Some(2) };
    assert_eq!(CreateParams::try_from(req).err(), Some(RepoError::ValidationError(Field::PostId)));
    let req = CreateRequest { post_id: Some(1), short_text: None, sample_id: None };
    assert_eq!(CreateParams::try_from(req).err(), Some(RepoError::ValidationError(Field::ShortText)));
    let req = CreateRequest { post_id: Some(1), short_text: Some(String::new()), sample_id: None };
    assert_eq!(CreateParams::try_from(req).err(), Some(RepoError::ValidationError(Field::SampleId)));
}

#[test]
fn update_request_with_identifier() {
    let id = String::from("7");
    let req = UpdateRequest { post_id: Some(3), short_text: None, sample_id: None };
    let p = UpdateParams::try_new(Some(&id), req).unwrap();
    assert_eq!(p.id, 7);
    assert_eq!(p.post_id, Some(3));
    assert_eq!(p.short_text, None);
    assert_eq!(p.sample_id, None);
}

#[test]
fn update_request_bad_identifier() {
    let req = UpdateRequest { post_id: Some(3), short_text: None, sample_id: None };
    assert_eq!(UpdateParams::try_new(None, req).err(), Some(RepoError::ValidationError(Field::Id)));
    let id = String::from("seven");
    let req = UpdateRequest { post_id: Some(3), short_text: None, sample_id: None };
    assert_eq!(UpdateParams::try_new(Some(&id), req).err(), Some(RepoError::ValidationError(Field::Id)));
}

#[test]
fn bulk_insert_request() {
    let p = BulkInsertParams::try_from(BulkInsertRequest { row_count: Some(10) }).unwrap();
    assert_eq!(p.row_count, 10);
    assert_eq!(BulkInsertParams::new(3).row_count, 3);
    let r = BulkInsertParams::try_from(BulkInsertRequest { row_count: None });
    assert_eq!(r.err(), Some(RepoError::ValidationError(Field::RowCount)));
}
