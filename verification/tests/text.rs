use server_supervisor::text::{decimal, is_space, trim};

#[test]
fn trim_takes_white_space_from_both_ends() {
    assert_eq!(trim("  /usr/local/bin/npm\n"), "/usr/local/bin/npm");
    assert_eq!(trim("\t a b \r\n"), "a b");
}

#[test]
fn trim_of_white_space_is_empty() {
    assert_eq!(trim(" \n\t "), "");
    assert_eq!(trim(""), "");
}

#[test]
fn trim_leaves_clean_text_alone() {
    assert_eq!(trim("npm"), "npm");
}

#[test]
fn trim_knows_the_white_space_beyond_ascii() {
    assert_eq!(trim("\u{3000}\u{a0}x\u{2003}\u{85}"), "x");
}

#[test]
fn trim_agrees_with_the_standard_library_on_these() {
    let cases = ["", " ", "a", " a ", "\n/x/y\n", "\u{2028}a\u{205f}", "a\u{200b}", "\u{1680}b c\u{202f}"];
    for text in cases {
        assert_eq!(trim(text), text.trim(), "trim of {:?}", text);
    }
}

#[test]
fn is_space_agrees_with_the_standard_library_on_every_character() {
    let mut code: u32 = 0;
    while code <= 0x10FFFF {
        if let Some(c) = char::from_u32(code) {
            assert_eq!(is_space(c), c.is_whitespace(), "character {:#x}", code);
        }
        code += 1;
    }
}

#[test]
fn decimal_writes_single_digits() {
    assert_eq!(decimal(0), "0");
    assert_eq!(decimal(7), "7");
}

#[test]
fn decimal_writes_the_port() {
    assert_eq!(decimal(4847), "4847");
}

#[test]
fn decimal_writes_the_largest_number() {
    assert_eq!(decimal(65535), "65535");
    assert_eq!(decimal(10), "10");
    assert_eq!(decimal(1000), "1000");
}
