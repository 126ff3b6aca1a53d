use transcriber::text::{is_whitespace, trim, trim_end};

#[test]
fn whitespace_is_the_unicode_white_space_property() {
    for c in (0u32..=0x10ffff).filter_map(char::from_u32) {
        assert_eq!(is_whitespace(c), c.is_whitespace(), "{:#x}", c as u32);
    }
}

#[test]
fn trimming_removes_unicode_spaces_only() {
    assert_eq!(trim("\u{3000} a b\u{85}\t"), "a b");
    assert_eq!(trim("a"), "a");
    assert_eq!(trim("\u{1c}a"), "\u{1c}a");
    assert_eq!(trim_end("x\u{2029}\u{a0}"), "x");
}
