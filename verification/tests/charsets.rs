use mrs_matrix::raindrop::charsets::{Alphanumeric, AsciiAndSymbols, Charset, PrintableAscii};

#[test]
fn alphanumeric_has_62_chars_in_order() {
    let chars = Alphanumeric().get_charset();
    assert_eq!(chars.len(), 62);
    assert_eq!(chars[0], '0');
    assert_eq!(chars[9], '9');
    assert_eq!(chars[10], 'A');
    assert_eq!(chars[35], 'Z');
    assert_eq!(chars[36], 'a');
    assert_eq!(chars[61], 'z');
}

#[test]
fn printable_ascii_has_94_chars_without_space() {
    let chars = PrintableAscii().get_charset();
    assert_eq!(chars.len(), 94);
    assert_eq!(chars[0], '!');
    assert_eq!(chars[93], '~');
    assert!(!chars.contains(&' '));
}

#[test]
fn ascii_and_symbols_extends_printable_ascii() {
    let chars = AsciiAndSymbols().get_charset();
    assert_eq!(chars.len(), 94 + 57 + 22 + 256);
    let printable = PrintableAscii().get_charset();
    assert_eq!(&chars[..94], &printable[..]);
    assert_eq!(chars[94], '\u{2100}');
    assert_eq!(chars[94 + 56], '\u{2138}');
    assert_eq!(chars[94 + 57], '\u{213A}');
    assert_eq!(chars[94 + 78], '\u{214F}');
    assert_eq!(chars[94 + 79], '\u{2A00}');
    assert_eq!(chars[428], '\u{2AFF}');
}

#[test]
fn ascii_and_symbols_excludes_inconsistent_code_point() {
    let chars = AsciiAndSymbols().get_charset();
    assert!(!chars.contains(&'\u{2139}'));
}
