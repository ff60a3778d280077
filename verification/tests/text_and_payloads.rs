use kitt_protocol::multillm;
use kitt_protocol::text::{decimal_text, is_blank, is_whitespace_char};
use kitt_protocol::{default_memory_limit, default_true, ModelRoute, Sensitivity};

#[test]
fn blank_texts_are_all_whitespace() {
    assert!(is_blank(""));
    assert!(is_blank(" \t\r\n"));
    assert!(is_blank("\u{a0}\u{1680}\u{200a}\u{3000}"));
    assert!(!is_blank(" a "));
    assert!(!is_blank("\u{200b}"));
}

#[test]
fn decimal_text_writes_digits() {
    assert_eq!(decimal_text(0), "0");
    assert_eq!(decimal_text(7), "7");
    assert_eq!(decimal_text(10), "10");
    assert_eq!(decimal_text(65535), "65535");
}

#[test]
fn defaults() {
    assert!(default_true());
    assert!(multillm::default_true());
    assert_eq!(default_memory_limit(), 6);
    assert_eq!(ModelRoute::default(), ModelRoute::Auto);
}

#[test]
fn sensitivity_is_ordered_by_restriction() {
    assert!(Sensitivity::Public < Sensitivity::Personal);
    assert!(Sensitivity::Private < Sensitivity::Secret);
    assert!(Sensitivity::Secret < Sensitivity::Ephemeral);
}

#[test]
fn whitespace_characters() {
    for c in ['\t', '\n', '\u{b}', '\u{c}', '\r', ' ', '\u{85}', '\u{a0}', '\u{1680}', '\u{2000}', '\u{200a}', '\u{2028}', '\u{2029}', '\u{202f}', '\u{205f}', '\u{3000}'] {
        assert!(is_whitespace_char(c));
        assert_eq!(is_whitespace_char(c), c.is_whitespace());
    }
    for c in ['a', '\u{0}', '\u{8}', '\u{e}', '\u{200b}', '\u{feff}', '\u{1fff}', '\u{3001}'] {
        assert!(!is_whitespace_char(c));
        assert_eq!(is_whitespace_char(c), c.is_whitespace());
    }
}
