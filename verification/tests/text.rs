use thingblock_link::text::{decimal_string, eq_ignore_ascii_case};

#[test]
fn decimal_formatting_matches_to_string() {
    for n in [0u64, 7, 10, 99, 100, 3030, 115200, 921600, u64::MAX] {
        assert_eq!(decimal_string(n), n.to_string());
    }
}

#[test]
fn ascii_case_is_ignored_and_nothing_else() {
    assert!(eq_ignore_ascii_case("USB\\VID_2341", "usb\\vid_2341"));
    assert!(!eq_ignore_ascii_case("abc", "abcd"));
    assert!(!eq_ignore_ascii_case("é", "É"));
    assert!(eq_ignore_ascii_case("", ""));
    for (a, b) in [("Ab", "aB"), ("x1", "X2"), ("ß", "ss")] {
        assert_eq!(eq_ignore_ascii_case(a, b), a.eq_ignore_ascii_case(b));
    }
}
