use validation::text::{same_text, starts_with, with_prefix, without_spaces};

#[test]
fn same_text_compares_every_character() {
    assert!(same_text("rename", "rename"));
    assert!(same_text("", ""));
    assert!(!same_text("rename", "renamed"));
    assert!(!same_text("rename", "Rename"));
    assert!(!same_text("a", ""));
}

#[test]
fn starts_with_a_prefix() {
    assert!(starts_with("Option<i32>", "Option<"));
    assert!(starts_with("Option<", "Option<"));
    assert!(starts_with("anything", ""));
    assert!(!starts_with("Option", "Option<"));
    assert!(!starts_with("Vec<Option<i32>>", "Option<"));
}

#[test]
fn spaces_are_taken_out() {
    assert_eq!("Option<DumbObject>", without_spaces("Option < DumbObject >"));
    assert_eq!("", without_spaces("   "));
    assert_eq!("a\tb", without_spaces(" a\tb "));
    assert_eq!("héé", without_spaces("h é é"));
}

#[test]
fn prefix_is_put_in_front() {
    assert_eq!("&str", with_prefix('&', "str"));
    assert_eq!("&", with_prefix('&', ""));
}
