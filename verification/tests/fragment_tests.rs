use backend::fragment::QueryFragment;
use sqlx::types::BigDecimal;
use sqlx::Arguments;
use sqlx::Execute;
use std::str::FromStr;

#[test]
fn a_new_fragment_holds_its_initial_text() {
    let fragment = QueryFragment::new("SELECT 1");
    assert_eq!(fragment.sql(), "SELECT 1");
    let empty = QueryFragment::new("");
    assert_eq!(empty.sql(), "");
}

#[test]
fn push_appends_text_and_binds_nothing() {
    let mut fragment = QueryFragment::new("SELECT *");
    fragment.push(" FROM t");
    fragment.push("");
    fragment.push(" WHERE x = 1");
    assert_eq!(fragment.sql(), "SELECT * FROM t WHERE x = 1");
    let mut query = fragment.builder.build();
    assert_eq!(query.take_arguments().unwrap().unwrap().len(), 0);
}

#[test]
fn every_bind_appends_the_next_placeholder() {
    let mut fragment = QueryFragment::new("");
    fragment.push_bind_text("a".to_string());
    fragment.push(",");
    fragment.push_bind_i32(-5);
    fragment.push(",");
    fragment.push_bind_i64(1 << 40);
    fragment.push(",");
    fragment.push_bind_bool(false);
    fragment.push(",");
    fragment.push_bind_decimal(&BigDecimal::from_str("1.5").unwrap());
    assert_eq!(fragment.sql(), "$1,$2,$3,$4,$5");
    let mut query = fragment.builder.build();
    assert_eq!(query.take_arguments().unwrap().unwrap().len(), 5);
}

#[test]
fn placeholders_have_several_digits_from_ten_on() {
    let mut fragment = QueryFragment::new("");
    let mut expected = String::new();
    for n in 1..=12 {
        fragment.push_bind_i32(n);
        expected.push_str(&format!("${}", n));
    }
    assert_eq!(fragment.sql(), expected);
    assert!(fragment.sql().ends_with("$10$11$12"));
}

#[test]
fn bound_values_keep_their_order() {
    let mut fragment = QueryFragment::new("");
    fragment.push_bind_i64(7);
    fragment.push_bind_text("zz".to_string());
    let mut query = fragment.builder.build();
    let shown = format!("{:?}", query.take_arguments().unwrap().unwrap());
    // an eight-byte 7, then the two bytes of zz
    assert!(shown.contains("0, 0, 0, 8, 0, 0, 0, 0, 0, 0, 0, 7, 0, 0, 0, 2, 122, 122"));
}
