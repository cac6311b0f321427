//! Tests for the quoted-context escaping helper.

use keystore::filter_add_slashes;

#[test]
fn add_slashes_escapes_each_special_character() {
    assert_eq!(filter_add_slashes(r#"a"b'c\d"#), r#"a\"b\'c\\d"#);
}

#[test]
fn add_slashes_leaves_plain_text_alone() {
    assert_eq!(filter_add_slashes(""), "");
    assert_eq!(filter_add_slashes("hello, world"), "hello, world");
    assert_eq!(filter_add_slashes("héllo 世界"), "héllo 世界");
}

#[test]
fn add_slashes_doubles_backslashes() {
    assert_eq!(filter_add_slashes(r"\\"), r"\\\\");
    assert_eq!(filter_add_slashes(r"\"), r"\\");
}

#[test]
fn add_slashes_handles_quotes_only() {
    assert_eq!(filter_add_slashes("'"), r"\'");
    assert_eq!(filter_add_slashes("\""), "\\\"");
    assert_eq!(filter_add_slashes("''\"\""), r#"\'\'\"\""#);
}
