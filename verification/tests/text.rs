use codex_mcp_client::text::{joined, split_once, trim, whitespace};

#[test]
fn whitespace_is_the_unicode_property() {
    for code in 0..=0x10ffff_u32 {
        if let Some(c) = char::from_u32(code) {
            assert_eq!(whitespace(c), c.is_whitespace(), "U+{code:04X}");
        }
    }
}

#[test]
fn text_is_cut_at_the_first_delimiter() {
    assert_eq!(split_once("a=b=c", '='), Some(("a", "b=c")));
    assert_eq!(split_once("=b", '='), Some(("", "b")));
    assert_eq!(split_once("a=", '='), Some(("a", "")));
    assert_eq!(split_once("=", '='), Some(("", "")));
    assert_eq!(split_once("", '='), None);
    assert_eq!(split_once("ab", '='), None);
    assert_eq!(split_once("gr\u{fc}n=\u{1f331}=x", '='), Some(("gr\u{fc}n", "\u{1f331}=x")));
}

#[test]
fn cutting_agrees_with_the_standard_library() {
    for text in ["", ":", "a:b", "a:b:c", "\u{e9}:\u{e9}", "no colon", "::"] {
        assert_eq!(split_once(text, ':'), text.split_once(':'));
    }
}

#[test]
fn whitespace_is_taken_off_both_ends() {
    assert_eq!(trim("  a b\t"), "a b");
    assert_eq!(trim("a"), "a");
    assert_eq!(trim(""), "");
    assert_eq!(trim(" \n\u{a0}\u{3000}"), "");
    assert_eq!(trim("\u{2003}\u{e9}\u{2003}"), "\u{e9}");
}

#[test]
fn trimming_agrees_with_the_standard_library() {
    for text in ["", " ", "x", " x", "x ", " x y ", "\u{85}x\u{1680}", "\u{200b}x\u{200b}"] {
        assert_eq!(trim(text), text.trim());
    }
}

#[test]
fn texts_are_joined() {
    assert_eq!(joined("ab", "c\u{e9}"), "abc\u{e9}");
}
