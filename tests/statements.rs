use d1_repository::repository::{CreateParams, Field, Options, RepoError, UpdateParams, DEFAULT_LIMIT};
use d1_repository::statement::{
    create_statement, delete_statement, get_statement, update_statement, BindValue,
};

#[test]
fn options_default_limit_is_one_hundred() {
    let options = Options { limit: None };
    assert_eq!(options.limit(), 100);
    assert_eq!(DEFAULT_LIMIT, 100);
}

#[test]
fn options_keep_given_limit() {
    assert_eq!(Options::new(5).limit(), 5);
    assert_eq!(Options::new(0).limit(), 0);
    assert_eq!(Options::new(-3).limit(), -3);
}

#[test]
fn get_binds_effective_limit() {
    let s = get_statement(&Options { limit: None });
    assert_eq!(s.sql, "SELECT * FROM test_table LIMIT ?;");
    assert_eq!(s.fields, vec![Field::Limit]);
    assert_eq!(s.values, vec![BindValue::Int(100)]);
    let s = get_statement(&Options::new(5));
    assert_eq!(s.values, vec![BindValue::Int(5)]);
}

#[test]
fn create_binds_every_field_in_order() {
    let p = CreateParams::new(3, String::from("hello"), 9);
    let s = create_statement(&p);
    assert_eq!(
        s.sql,
        "INSERT INTO test_table (post_id, short_text, sample_id) VALUES (?, ?, ?);"
    );
    assert_eq!(s.fields, vec![Field::PostId, Field::ShortText, Field::SampleId]);
    assert_eq!(
        s.values,
        vec![BindValue::Int(3), BindValue::Text(String::from("hello")), BindValue::Int(9)]
    );
    assert_eq!(p.bind_values().len(), 3);
}

#[test]
fn update_post_id_only() {
    let p = UpdateParams::new(7, Some(3), None, None);
    let s = update_statement(&p).unwrap();
    assert_eq!(s.sql, "UPDATE test_table SET post_id = ? WHERE id = ?;");
    assert_eq!(s.fields, vec![Field::PostId, Field::Id]);
    assert_eq!(s.values, vec![BindValue::Int(3), BindValue::Int(7)]);
}

#[test]
fn update_without_fields_is_refused() {
    let p = UpdateParams::new(7, None, None, None);
    assert!(matches!(update_statement(&p), Err(RepoError::StatementBuildError)));
    assert_eq!(p.bind_values(), vec![BindValue::Int(7)]);
}

#[test]
fn update_later_fields_have_no_leading_comma() {
    let p = UpdateParams::new(2, None, Some(String::from("x")), Some(4));
    let s = update_statement(&p).unwrap();
    assert_eq!(s.sql, "UPDATE test_table SET short_text = ?, sample_id = ? WHERE id = ?;");
    assert_eq!(s.fields, vec![Field::ShortText, Field::SampleId, Field::Id]);
    assert_eq!(
        s.values,
        vec![BindValue::Text(String::from("x")), BindValue::Int(4), BindValue::Int(2)]
    );
}

#[test]
fn update_binds_present_count_plus_identifier() {
    let cases: Vec<(Option<i32>, Option<String>, Option<i32>, usize)> = vec![
        (None, None, None, 0),
        (Some(1), None, None, 1),
        (None, Some(String::from("a")), None, 1),
        (None, None, Some(2), 1),
        (Some(1), Some(String::from("a")), None, 2),
        (Some(1), None, Some(2), 2),
        (None, Some(String::from("a")), Some(2), 2),
        (Some(1), Some(String::from("a")), Some(2), 3),
    ];
    for (post_id, short_text, sample_id, k) in cases {
        let p = UpdateParams::new(11, post_id, short_text, sample_id);
        let values = p.bind_values();
        assert_eq!(values.len(), k + 1);
        assert_eq!(values[k], BindValue::Int(11));
    }
}

#[test]
fn update_all_fields() {
    let p = UpdateParams::new(5, Some(1), Some(String::from("t")), Some(2));
    let s = update_statement(&p).unwrap();
    assert_eq!(
        s.sql,
        "UPDATE test_table SET post_id = ?, short_text = ?, sample_id = ? WHERE id = ?;"
    );
    assert_eq!(s.values.len(), 4);
}

#[test]
fn delete_binds_identifier() {
    let s = delete_statement(42);
    assert_eq!(s.sql, "DELETE FROM test_table WHERE id = ?");
    assert_eq!(s.fields, vec![Field::Id]);
    assert_eq!(s.values, vec![BindValue::Int(42)]);
}
