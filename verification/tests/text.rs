use btspecs::text::{begins_with, chars_of, same_text, trimmed, white_space};

#[test]
fn chars_are_handed_out_in_order() {
    assert_eq!(chars_of(""), Vec::<char>::new());
    assert_eq!(chars_of("a\u{e9}\u{1F4C4}"), vec!['a', '\u{e9}', '\u{1F4C4}']);
}

#[test]
fn prefix_is_recognised() {
    assert!(begins_with("text/html; charset=utf-8", "text/html"));
    assert!(begins_with("text/html", "text/html"));
    assert!(begins_with("anything", ""));
    assert!(!begins_with("text/htm", "text/html"));
    assert!(!begins_with("Text/html", "text/html"));
    assert!(!begins_with("", "a"));
}

#[test]
fn equal_text_is_recognised() {
    assert!(same_text("", ""));
    assert!(same_text("Download Now", "Download Now"));
    assert!(!same_text("Download Now", "Download Now "));
    assert!(!same_text("Download Now ", "Download Now"));
    assert!(!same_text("download now", "Download Now"));
    assert!(!same_text("\u{e9}", "e"));
}

#[test]
fn white_space_is_what_std_calls_white_space() {
    for code in 0u32..=0x10FFFF {
        if let Some(c) = char::from_u32(code) {
            assert_eq!(white_space(c), c.is_whitespace(), "U+{:04X}", code);
        }
    }
}

#[test]
fn trimming_cuts_both_ends_only() {
    assert_eq!(trimmed("  Adopted \n"), "Adopted");
    assert_eq!(trimmed("Adopted"), "Adopted");
    assert_eq!(trimmed("\tIn  Progress\u{a0}"), "In  Progress");
    assert_eq!(trimmed(""), "");
    assert_eq!(trimmed(" \t\r\n\u{3000}"), "");
    assert_eq!(trimmed("\u{2003}\u{e9}t\u{e9}\u{2028}"), "\u{e9}t\u{e9}");
}

#[test]
fn trimming_agrees_with_std() {
    let parts = ["", " ", "\n", "\u{a0}", "\u{85}", "\u{200b}", "a", "\u{1F4C4}", "a b", "\t\t"];
    for left in parts {
        for middle in parts {
            for right in parts {
                let s = format!("{}{}{}", left, middle, right);
                assert_eq!(trimmed(&s), s.trim(), "{:?}", s);
            }
        }
    }
}
