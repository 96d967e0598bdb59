use axum_blueprint::text::str_trim;

#[test]
fn trim_removes_unicode_white_space() {
    assert_eq!(str_trim("\u{3000}\u{A0} a b\u{2028}\u{85}\t"), "a b");
    assert_eq!(str_trim("\u{200B}x"), "\u{200B}x");
    assert_eq!(str_trim(" \u{2009} "), "");
}
