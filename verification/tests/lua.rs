use pal_vm::lua::{json_escape, lua_escape, push_decimal, push_hex};

#[test]
fn test_lua_escape() {
    assert_eq!(lua_escape("hello"), "hello");
    assert_eq!(lua_escape("say \"hi\""), r#"say \"hi\""#);
    assert_eq!(lua_escape("back\\slash"), r"back\\slash");
    assert_eq!(lua_escape("line\nfeed"), r"line\nfeed");
    assert_eq!(lua_escape("tab\there"), r"tab\there");
    // non-printable byte
    let s = lua_escape("\x01");
    assert_eq!(s, "\\1");
}

#[test]
fn lua_escape_keeps_non_ascii_text() {
    assert_eq!(lua_escape("\u{3042}\x1f"), "\u{3042}\\31");
    assert_eq!(lua_escape(""), "");
}

#[test]
fn json_escape_covers_controls() {
    assert_eq!(json_escape("a\"b\\c"), "a\\\"b\\\\c");
    assert_eq!(json_escape("\r\n\t"), "\\r\\n\\t");
    assert_eq!(json_escape("\x01\x7f\u{85}"), "\\u0001\\u007F\\u0085");
    assert_eq!(json_escape("\u{3042}"), "\u{3042}");
}

#[test]
fn numerals_are_written_in_decimal_and_padded_hex() {
    let mut out = Vec::new();
    push_decimal(&mut out, 0);
    out.push(' ');
    push_decimal(&mut out, 7931200);
    out.push(' ');
    push_hex(&mut out, 0x10000001, 8);
    out.push(' ');
    push_hex(&mut out, 0xAB, 4);
    out.push(' ');
    push_hex(&mut out, 0x12345, 4);
    let text: String = out.into_iter().collect();
    assert_eq!(text, "0 7931200 10000001 00AB 12345");
}
