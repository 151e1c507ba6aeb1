use kyefa::text::decimal_text;
use kyefa::text::is_blank_text;
use kyefa::text::join;
use kyefa::text::same_text;
use kyefa::text::text_less;
use kyefa::text::trim_text;

#[test]
fn trim_removes_white_space_at_both_ends() {
    assert_eq!(trim_text("  Doe \n"), "Doe");
    assert_eq!(trim_text("\tAma  Serwaa\r\n"), "Ama  Serwaa");
    assert_eq!(trim_text("Doe"), "Doe");
}

#[test]
fn trim_of_blank_text_is_empty() {
    assert_eq!(trim_text(""), "");
    assert_eq!(trim_text("   "), "");
    assert_eq!(trim_text(" \t\r\n"), "");
}

#[test]
fn trim_knows_white_space_beyond_ascii() {
    assert_eq!(trim_text("\u{a0}Doe\u{3000}"), "Doe");
    assert_eq!(trim_text("\u{2003}\u{e9}t\u{e9}\u{2028}"), "\u{e9}t\u{e9}");
}

#[test]
fn trim_agrees_with_the_standard_library() {
    let samples = [
        "", " ", "a", " a", "a ", " a b ", "\n\nx\ty\n", "\u{a0}", "\u{a0}z", "z\u{a0}",
        "  \u{4e2d}\u{6587} ", "\u{200b}x", "x\u{85}",
    ];
    for sample in samples {
        assert_eq!(trim_text(sample), sample.trim(), "trimming {:?}", sample);
    }
}

#[test]
fn blank_means_nothing_but_white_space() {
    assert!(is_blank_text(""));
    assert!(is_blank_text(" "));
    assert!(is_blank_text(" \t\n\u{a0}"));
    assert!(!is_blank_text("a"));
    assert!(!is_blank_text("  a  "));
    assert!(!is_blank_text("\u{200b}"));
}

#[test]
fn text_order_is_lexicographic() {
    assert!(text_less("Amy", "Zed"));
    assert!(!text_less("Zed", "Amy"));
    assert!(text_less("Doe", "Doer"));
    assert!(!text_less("Doer", "Doe"));
    assert!(!text_less("Doe", "Doe"));
    assert!(text_less("", "a"));
    assert!(!text_less("a", ""));
    assert!(!text_less("", ""));
}

#[test]
fn text_order_puts_capitals_before_small_letters() {
    assert!(text_less("Zed", "amy"));
    assert!(!text_less("amy", "Zed"));
}

#[test]
fn text_order_agrees_with_the_standard_library() {
    let samples = [
        "", "A", "a", "Amy", "Amyx", "Zed", "zed", "\u{e9}", "e", "\u{4e2d}", "\u{1f600}",
        "\u{ffff}", "Doe", "doe", "D", "Do\u{e9}",
    ];
    for a in samples {
        for b in samples {
            assert_eq!(text_less(a, b), a < b, "{:?} before {:?}", a, b);
        }
    }
}

#[test]
fn same_text_compares_characters() {
    assert!(same_text("IGCSE1", "IGCSE1"));
    assert!(!same_text("IGCSE1", "IGCSE2"));
    assert!(!same_text("IGCSE1", "IGCSE"));
    assert!(same_text("", ""));
}

#[test]
fn decimal_text_writes_numbers_without_leading_zeros() {
    assert_eq!(decimal_text(0), "0");
    assert_eq!(decimal_text(2), "2");
    assert_eq!(decimal_text(9), "9");
    assert_eq!(decimal_text(10), "10");
    assert_eq!(decimal_text(1000), "1000");
    assert_eq!(decimal_text(1048576), "1048576");
}

#[test]
fn join_puts_one_text_behind_the_other() {
    assert_eq!(join("Failed: ", "why"), "Failed: why");
    assert_eq!(join("", "x"), "x");
    assert_eq!(join("x", ""), "x");
}

fn has_white_space_property(c: char) -> bool {
    matches!(
        c,
        '\u{9}'..='\u{d}'
            | ' '
            | '\u{85}'
            | '\u{a0}'
            | '\u{1680}'
            | '\u{2000}'..='\u{200a}'
            | '\u{2028}'
            | '\u{2029}'
            | '\u{202f}'
            | '\u{205f}'
            | '\u{3000}'
    )
}

#[test]
fn blank_goes_by_the_white_space_property_for_every_character() {
    let mut white = 0;
    for code in 0..=0x10ffffu32 {
        if let Some(c) = char::from_u32(code) {
            let listed = has_white_space_property(c);
            assert_eq!(c.is_whitespace(), listed, "U+{:04X}", code);
            if listed || code < 0x3100 {
                let mut text = String::new();
                text.push(c);
                assert_eq!(is_blank_text(&text), listed, "U+{:04X}", code);
            }
            if listed {
                white += 1;
            }
        }
    }
    assert_eq!(white, 25);
}

#[test]
fn names_of_letters_are_not_blank() {
    for name in ["Doe", "Ama", "Ann", "Lee", "J", "\u{e9}", "x y", " x", "x "] {
        assert!(!is_blank_text(name), "{:?}", name);
        assert!(!trim_text(name).is_empty(), "{:?}", name);
    }
}
