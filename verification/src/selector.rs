//! Function selectors: the first four bytes of call data.

use vstd::prelude::*;
use crate::hex::{digit_value, hex_digit, hex_text, hex_text_index, hex_value};

verus! {

/// Number of leading call-data bytes that select the invoked function.
pub const SELECTOR_LEN: usize = 4;

/// The four bytes that identify the function a call invokes.
#[derive(Clone, Copy, Debug, PartialEq, Eq)]
pub struct Selector {
    pub bytes: [u8; 4],
}

/// The selector as one number, its first byte the most significant.
pub open spec fn selector_key(bytes: Seq<u8>) -> u32 {
    (((bytes[0] as int * 256 + bytes[1] as int) * 256 + bytes[2] as int) * 256
        + bytes[3] as int) as u32
}

/// The selector that call data carries: its first four bytes, where it has them.
pub open spec fn selector_of(data: Seq<u8>) -> Option<Seq<u8>> {
    if data.len() >= SELECTOR_LEN {
        Some(data.subrange(0, SELECTOR_LEN as int))
    } else {
        None
    }
}

/// Whether `text` is a selector in writing: eight lower-case hexadecimal digits.
pub open spec fn is_selector_text(text: Seq<char>) -> bool {
    &&& text.len() == 8
    &&& forall|i: int| 0 <= i < 8 ==> (#[trigger] hex_value(text[i])) is Some
}

/// The byte that two hexadecimal digits spell.
pub open spec fn byte_of_digits(high: char, low: char) -> u8 {
    (hex_value(high).unwrap() * 16 + hex_value(low).unwrap()) as u8
}

/// The four bytes that a selector in writing spells.
pub open spec fn selector_bytes(text: Seq<char>) -> Seq<u8> {
    seq![
        byte_of_digits(text[0], text[1]),
        byte_of_digits(text[2], text[3]),
        byte_of_digits(text[4], text[5]),
        byte_of_digits(text[6], text[7]),
    ]
}

/// What `text` reads as: its four bytes where it is a selector in writing.
pub open spec fn parse_selector(text: Seq<char>) -> Option<Seq<u8>> {
    if is_selector_text(text) {
        Some(selector_bytes(text))
    } else {
        None
    }
}

impl Selector {
    /// The selector's bytes.
    pub open spec fn view(&self) -> Seq<u8> {
        self.bytes@
    }

    /// The selector at the head of `data`, or `None` where `data` has fewer than four bytes.
    pub fn from_call_data(data: &Vec<u8>) -> (r: Option<Selector>)
        ensures
            r.is_some() == (data@.len() >= SELECTOR_LEN),
            match r {
                Some(s) => Some(s@) == selector_of(data@),
                None => selector_of(data@) is None,
            },
    {
        if data.len() < SELECTOR_LEN {
            return None;
        }
        let s = Selector { bytes: [data[0], data[1], data[2], data[3]] };
        assert(s@ =~= data@.subrange(0, SELECTOR_LEN as int));
        Some(s)
    }

    /// Reads a selector written as eight lower-case hexadecimal digits.
    pub fn from_hex(text: &str) -> (r: Option<Selector>)
        ensures
            match r {
                Some(s) => parse_selector(text@) == Some(s@),
                None => parse_selector(text@) is None,
            },
    {
        if text.unicode_len() != 8 {
            return None;
        }
        let mut bytes: [u8; 4] = [0u8; 4];
        let mut i: usize = 0;
        while i < 4
            invariant
                0 <= i <= 4,
                text@.len() == 8,
                forall|j: int| 0 <= j < 2 * i ==> (#[trigger] hex_value(text@[j])) is Some,
                forall|j: int|
                    0 <= j < i ==> #[trigger] bytes@[j] == byte_of_digits(
                        text@[2 * j],
                        text@[2 * j + 1],
                    ),
            decreases 4 - i,
        {
            let high = digit_value(text.get_char(2 * i));
            let low = digit_value(text.get_char(2 * i + 1));
            match (high, low) {
                (Some(h), Some(l)) => {
                    bytes[i] = h * 16 + l;
                },
                _ => {
                    assert(hex_value(text@[2 * i as int]) is None || hex_value(
                        text@[2 * i + 1],
                    ) is None);
                    return None;
                },
            }
            i += 1;
        }
        let s = Selector { bytes };
        assert(s@ =~= selector_bytes(text@));
        Some(s)
    }

    /// The selector as the number that a table is keyed by.
    pub fn key(&self) -> (k: u32)
        ensures
            k == selector_key(self@),
    {
        let b0: u32 = self.bytes[0] as u32;
        let b1: u32 = self.bytes[1] as u32;
        let b2: u32 = self.bytes[2] as u32;
        let b3: u32 = self.bytes[3] as u32;
        ((b0 * 256 + b1) * 256 + b2) * 256 + b3
    }
}

/// Two selectors with the same key are the same four bytes.
pub proof fn selector_key_injective(a: Seq<u8>, b: Seq<u8>)
    requires
        a.len() == 4,
        b.len() == 4,
        selector_key(a) == selector_key(b),
    ensures
        a == b,
{
    assert(a =~= b);
}

/// Two digits that a byte is written with spell that byte.
proof fn byte_of_its_digits(byte: u8)
    ensures
        hex_value(hex_digit(byte as int / 16)) == Some(byte as int / 16),
        hex_value(hex_digit(byte as int % 16)) == Some(byte as int % 16),
        byte_of_digits(hex_digit(byte as int / 16), hex_digit(byte as int % 16)) == byte,
{
    let h = byte as int / 16;
    let l = byte as int % 16;
    assert(0 <= h < 16 && 0 <= l < 16);
    assert(h * 16 + l == byte as int);
}

/// Writing a selector out and reading it back gives the selector.
pub proof fn parse_of_hex_text(bytes: Seq<u8>)
    requires
        bytes.len() == 4,
    ensures
        parse_selector(hex_text(bytes)) == Some(bytes),
{
    let text = hex_text(bytes);
    hex_text_index(bytes, 0);
    hex_text_index(bytes, 1);
    hex_text_index(bytes, 2);
    hex_text_index(bytes, 3);
    byte_of_its_digits(bytes[0]);
    byte_of_its_digits(bytes[1]);
    byte_of_its_digits(bytes[2]);
    byte_of_its_digits(bytes[3]);
    assert(hex_value(text[0]) is Some && hex_value(text[1]) is Some);
    assert(hex_value(text[2]) is Some && hex_value(text[3]) is Some);
    assert(hex_value(text[4]) is Some && hex_value(text[5]) is Some);
    assert(hex_value(text[6]) is Some && hex_value(text[7]) is Some);
    assert forall|i: int| 0 <= i < 8 implies (#[trigger] hex_value(text[i])) is Some by {
        if i == 0 {
        } else if i == 1 {
        } else if i == 2 {
        } else if i == 3 {
        } else if i == 4 {
        } else if i == 5 {
        } else if i == 6 {
        } else {
        }
    }
    assert(selector_bytes(text) =~= bytes);
}

/// The byte that two digits spell is written with those two digits.
proof fn digits_of_byte(high: char, low: char)
    requires
        hex_value(high) is Some,
        hex_value(low) is Some,
    ensures
        hex_digit(byte_of_digits(high, low) as int / 16) == high,
        hex_digit(byte_of_digits(high, low) as int % 16) == low,
{
    let h = hex_value(high).unwrap();
    let l = hex_value(low).unwrap();
    assert(0 <= h < 16 && 0 <= l < 16);
    assert(byte_of_digits(high, low) as int == h * 16 + l);
    assert((h * 16 + l) / 16 == h && (h * 16 + l) % 16 == l);
}

/// Reading a selector and writing it out again gives the text that was read.
pub proof fn hex_text_of_parse(text: Seq<char>)
    requires
        is_selector_text(text),
    ensures
        hex_text(selector_bytes(text)) == text,
{
    let bytes = selector_bytes(text);
    let written = hex_text(bytes);
    assert(hex_value(text[0]) is Some && hex_value(text[1]) is Some);
    assert(hex_value(text[2]) is Some && hex_value(text[3]) is Some);
    assert(hex_value(text[4]) is Some && hex_value(text[5]) is Some);
    assert(hex_value(text[6]) is Some && hex_value(text[7]) is Some);
    digits_of_byte(text[0], text[1]);
    digits_of_byte(text[2], text[3]);
    digits_of_byte(text[4], text[5]);
    digits_of_byte(text[6], text[7]);
    hex_text_index(bytes, 0);
    hex_text_index(bytes, 1);
    hex_text_index(bytes, 2);
    hex_text_index(bytes, 3);
    assert(written.len() == 8);
    assert(written[0] == text[0] && written[1] == text[1]);
    assert(written[2] == text[2] && written[3] == text[3]);
    assert(written[4] == text[4] && written[5] == text[5]);
    assert(written[6] == text[6] && written[7] == text[7]);
    assert(written =~= text);
}

} // verus!
