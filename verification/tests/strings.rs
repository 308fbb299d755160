use sc4_rust_poc::base_types::query_interface_result;
use sc4_rust_poc::string_types;
use sc4_rust_poc::string_types_v2::{
    accepts_text, compare_means_equal, set_str_result, text_equals, GZString,
};

#[test]
fn placeholder_strings_have_no_object() {
    assert_eq!(string_types::IGZString::from_str("hello"), 0);
    assert!(string_types::GZString::new("hello").is_none());
    string_types::IGZString::release(0);
}

#[test]
fn borrowed_and_owned_handles() {
    assert!(GZString::from_ptr(0).is_none());
    assert!(GZString::from_owned_ptr(0).is_none());
    let borrowed = GZString::from_ptr(0x40).unwrap();
    assert_eq!(borrowed.as_ptr(), 0x40);
    assert!(!borrowed.releases_on_drop());
    let mut owned = GZString::from_owned_ptr(0x80).unwrap();
    assert_eq!(owned.as_mut_ptr(), 0x80);
    assert!(owned.releases_on_drop());
}

#[test]
fn new_string_is_not_available() {
    assert!(GZString::new("abc").is_none());
}

#[test]
fn equality_decisions() {
    assert!(compare_means_equal(0));
    assert!(!compare_means_equal(-1));
    assert!(!compare_means_equal(1));
    assert!(text_equals(&Some("Sim".to_string()), "Sim"));
    assert!(!text_equals(&Some("Sim".to_string()), "sim"));
    assert!(!text_equals(&None, ""));
}

#[test]
fn query_interface_needs_success_and_object() {
    assert_eq!(query_interface_result(true, 0x10), Some(0x10));
    assert_eq!(query_interface_result(true, 0), None);
    assert_eq!(query_interface_result(false, 0x10), None);
}

#[test]
fn c_string_text_rules() {
    assert!(accepts_text(""));
    assert!(accepts_text("Maxis"));
    assert!(!accepts_text("Max\0is"));
    assert!(!accepts_text("\0"));
}

#[test]
fn set_str_outcome_follows_from_char() {
    assert_eq!(set_str_result(1), Ok(()));
    assert_eq!(set_str_result(7), Ok(()));
    assert_eq!(set_str_result(0), Err(()));
}
