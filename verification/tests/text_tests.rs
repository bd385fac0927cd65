use petemc::text::join_with;
use petemc::text::u32_to_string;

#[test]
fn decimal_of_small_numbers() {
    assert_eq!(u32_to_string(0), "0");
    assert_eq!(u32_to_string(7), "7");
    assert_eq!(u32_to_string(10), "10");
}

#[test]
fn decimal_of_large_numbers() {
    assert_eq!(u32_to_string(65535), "65535");
    assert_eq!(u32_to_string(4294967295), "4294967295");
}

#[test]
fn join_of_nothing_is_empty() {
    let parts: Vec<String> = vec![];
    assert_eq!(join_with(&parts, ", "), "");
}

#[test]
fn join_of_one_has_no_separator() {
    let parts = vec![String::from("alice")];
    assert_eq!(join_with(&parts, ", "), "alice");
}

#[test]
fn join_of_several_separates_each_pair() {
    let parts = vec![String::from("alice"), String::from("bob"), String::from("carol")];
    assert_eq!(join_with(&parts, ", "), "alice, bob, carol");
}
