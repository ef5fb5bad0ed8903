//! The `Charset` trait and a variety of pre-made character sets.

use vstd::prelude::*;

verus! {

/// Relies on char::from_u32 of the standard library: it returns `Some`
/// exactly for the code points that are valid `char`s (everything up to
/// `0x10FFFF` except the surrogate range), and the returned character has
/// the given code point.
pub assume_specification[ char::from_u32 ](code: u32) -> (converted: Option<char>)
    ensures
        converted matches Some(c) ==> c as u32 == code,
        converted is Some <==> (code < 0xD800 || (0xE000 <= code && code <= 0x10FFFF)),
;

/// An ordered, non-empty collection of displayable characters for raindrops
/// to draw from.
pub trait Charset {
    /// The code points of the set's characters, in order.
    spec fn charset_codes(&self) -> Seq<u32>;

    /// Return the character set as a vector of chars; it is never empty and
    /// holds exactly the characters of `charset_codes`, in order.
    fn get_charset(&self) -> (chars: Vec<char>)
        ensures
            chars@.len() == self.charset_codes().len(),
            chars@.len() >= 1,
            forall|i: int| 0 <= i < chars@.len() ==> chars@[i] as u32 == self.charset_codes()[i],
    ;
}

/// ASCII letter and number characters: the 62 characters `0`-`9`, `A`-`Z`
/// and `a`-`z`.
pub struct Alphanumeric();

/// The code point of the alphanumeric character at position `i`: digits
/// first, then capitals, then lowercase letters.
pub open spec fn alphanumeric_code(i: int) -> u32 {
    if i < 10 {
        (0x30 + i) as u32
    } else if i < 36 {
        (0x41 + (i - 10)) as u32
    } else {
        (0x61 + (i - 36)) as u32
    }
}

impl Charset for Alphanumeric {
    open spec fn charset_codes(&self) -> Seq<u32> {
        Seq::new(62, |i: int| alphanumeric_code(i))
    }

    fn get_charset(&self) -> (chars: Vec<char>) {
        // alphanumerics occupy the code ranges 0x30..=0x39 (digits),
        // 0x41..=0x5A (capitals) and 0x61..=0x7A (lowercase)
        let mut outvec: Vec<char> = Vec::with_capacity(62);
        let mut code: u8 = 0x30;
        while code <= 0x39
            invariant
                0x30 <= code <= 0x3a,
                outvec@.len() == code - 0x30,
                forall|i: int| 0 <= i < outvec@.len() ==> outvec@[i] as u32 == alphanumeric_code(i),
            decreases 0x3a - code,
        {
            outvec.push(code as char);
            code = code + 1;
        }
        let mut code: u8 = 0x41;
        while code <= 0x5a
            invariant
                0x41 <= code <= 0x5b,
                outvec@.len() == 10 + (code - 0x41),
                forall|i: int| 0 <= i < outvec@.len() ==> outvec@[i] as u32 == alphanumeric_code(i),
            decreases 0x5b - code,
        {
            outvec.push(code as char);
            code = code + 1;
        }
        let mut code: u8 = 0x61;
        while code <= 0x7a
            invariant
                0x61 <= code <= 0x7b,
                outvec@.len() == 36 + (code - 0x61),
                forall|i: int| 0 <= i < outvec@.len() ==> outvec@[i] as u32 == alphanumeric_code(i),
            decreases 0x7b - code,
        {
            outvec.push(code as char);
            code = code + 1;
        }
        outvec
    }
}

/// All printable ASCII characters except the space: the 94 characters with
/// codes 0x21 through 0x7E.
pub struct PrintableAscii();

impl Charset for PrintableAscii {
    open spec fn charset_codes(&self) -> Seq<u32> {
        Seq::new(94, |i: int| (0x21 + i) as u32)
    }

    fn get_charset(&self) -> (chars: Vec<char>) {
        let mut outvec: Vec<char> = Vec::with_capacity(94);
        let mut code: u8 = 0x21;
        while code <= 0x7e
            invariant
                0x21 <= code <= 0x7f,
                outvec@.len() == code - 0x21,
                forall|i: int| 0 <= i < outvec@.len() ==> outvec@[i] as u32 == 0x21 + i,
            decreases 0x7f - code,
        {
            outvec.push(code as char);
            code = code + 1;
        }
        outvec
    }
}

/// All printable ASCII characters plus a fixed block of Unicode symbols:
/// the letterlike and supplemental mathematical symbol ranges, leaving out
/// U+2139, which does not always style properly on Windows.
pub struct AsciiAndSymbols();

/// The code points of the symbol block appended after the printable ASCII
/// characters: 0x2100..=0x2138, then 0x213A..=0x214F, then 0x2A00..=0x2AFF.
pub open spec fn symbol_code(i: int) -> u32 {
    if i < 57 {
        (0x2100 + i) as u32
    } else if i < 79 {
        (0x213a + (i - 57)) as u32
    } else {
        (0x2a00 + (i - 79)) as u32
    }
}

impl Charset for AsciiAndSymbols {
    open spec fn charset_codes(&self) -> Seq<u32> {
        Seq::new(94, |i: int| (0x21 + i) as u32) + Seq::new(335, |i: int| symbol_code(i))
    }

    fn get_charset(&self) -> (chars: Vec<char>) {
        let mut outvec = PrintableAscii().get_charset();
        let mut code: u32 = 0x2100;
        while code <= 0x2138
            invariant
                0x2100 <= code <= 0x2139,
                outvec@.len() == 94 + (code - 0x2100),
                forall|i: int| 0 <= i < outvec@.len() ==> outvec@[i] as u32 == self.charset_codes()[i],
            decreases 0x2139 - code,
        {
            if let Some(symbol) = char::from_u32(code) {
                outvec.push(symbol);
            }
            code = code + 1;
        }
        let mut code: u32 = 0x213a;
        while code <= 0x214f
            invariant
                0x213a <= code <= 0x2150,
                outvec@.len() == 151 + (code - 0x213a),
                forall|i: int| 0 <= i < outvec@.len() ==> outvec@[i] as u32 == self.charset_codes()[i],
            decreases 0x2150 - code,
        {
            if let Some(symbol) = char::from_u32(code) {
                outvec.push(symbol);
            }
            code = code + 1;
        }
        let mut code: u32 = 0x2a00;
        while code <= 0x2aff
            invariant
                0x2a00 <= code <= 0x2b00,
                outvec@.len() == 173 + (code - 0x2a00),
                forall|i: int| 0 <= i < outvec@.len() ==> outvec@[i] as u32 == self.charset_codes()[i],
            decreases 0x2b00 - code,
        {
            if let Some(symbol) = char::from_u32(code) {
                outvec.push(symbol);
            }
            code = code + 1;
        }
        outvec
    }
}

} // verus!
