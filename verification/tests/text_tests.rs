use backend::text::assignment_strings;
use backend::text::contains_name;
use backend::text::copy_names;
use backend::text::decimal_string;
use backend::text::join_with_commas;
use backend::text::placeholder_string;
use backend::text::placeholder_strings;

fn names(items: &[&str]) -> Vec<String> {
    items.iter().map(|item| item.to_string()).collect()
}

#[test]
fn decimal_string_writes_numerals() {
    assert_eq!(decimal_string(0), "0");
    assert_eq!(decimal_string(7), "7");
    assert_eq!(decimal_string(10), "10");
    assert_eq!(decimal_string(65535), "65535");
    assert_eq!(decimal_string(1234567890), "1234567890");
    assert_eq!(decimal_string(usize::MAX), usize::MAX.to_string());
}

#[test]
fn placeholder_string_puts_a_dollar_before_the_numeral() {
    assert_eq!(placeholder_string(1), "$1");
    assert_eq!(placeholder_string(42), "$42");
}

#[test]
fn join_with_commas_separates_neighbours() {
    assert_eq!(join_with_commas(&names(&[])), "");
    assert_eq!(join_with_commas(&names(&["a"])), "a");
    assert_eq!(join_with_commas(&names(&["a", "b", "c"])), "a, b, c");
}

#[test]
fn placeholder_strings_count_from_the_first() {
    assert_eq!(placeholder_strings(1, 0), names(&[]));
    assert_eq!(placeholder_strings(1, 3), names(&["$1", "$2", "$3"]));
    assert_eq!(placeholder_strings(9, 3), names(&["$9", "$10", "$11"]));
}

#[test]
fn assignment_strings_pair_columns_with_placeholders() {
    assert_eq!(
        assignment_strings(&names(&["code", "title"]), 2),
        names(&["code = $2", "title = $3"])
    );
    assert_eq!(assignment_strings(&names(&[]), 2), names(&[]));
}

#[test]
fn contains_name_compares_whole_names() {
    let list = names(&["code", "title"]);
    assert!(contains_name(&list, &"title".to_string()));
    assert!(!contains_name(&list, &"titl".to_string()));
    assert!(!contains_name(&list, &"Title".to_string()));
    assert!(!contains_name(&names(&[]), &"title".to_string()));
}

#[test]
fn copy_names_copies_in_order() {
    let list = names(&["b", "a", "b"]);
    assert_eq!(copy_names(&list), list);
}
