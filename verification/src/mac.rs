//! Hardware (MAC) addresses: the 6-byte value, its canonical text form,
//! and a parser for that form.
//!
//! The accepted text form is six hexadecimal octets joined by `:` or `-`,
//! case-insensitive, with no surrounding whitespace. `format` emits the
//! canonical upper-case, colon-separated form, and formatting round-trips
//! through parsing.

use vstd::prelude::*;
use vstd::string::StrSliceExecFns;
use vstd::string::StringExecFns;

verus! {

/// True when `c` is an ASCII hexadecimal digit.
pub open spec fn is_hex_digit(c: char) -> bool {
    ('0' as u32 <= c as u32 && c as u32 <= '9' as u32) || ('a' as u32 <= c as u32 && c as u32
        <= 'f' as u32) || ('A' as u32 <= c as u32 && c as u32 <= 'F' as u32)
}

/// The numeric value of a hexadecimal digit.
pub open spec fn hex_val(c: char) -> u8 {
    if '0' as u32 <= c as u32 && c as u32 <= '9' as u32 {
        (c as u32 - '0' as u32) as u8
    } else if 'a' as u32 <= c as u32 && c as u32 <= 'f' as u32 {
        (c as u32 - 'a' as u32 + 10) as u8
    } else {
        (c as u32 - 'A' as u32 + 10) as u8
    }
}

/// The hexadecimal digit (upper case) for a value below sixteen.
pub open spec fn hex_char(v: u8) -> char {
    if v < 10 {
        (v + '0' as u32) as char
    } else {
        (v - 10 + 'A' as u32) as char
    }
}

/// True when position `i` of `s` holds a separator, `:` or `-`.
pub open spec fn is_sep(s: Seq<char>, i: int) -> bool {
    s[i] == ':' || s[i] == '-'
}

/// The octet starting at position `i` of `s`: two hexadecimal digits.
pub open spec fn octet_ok(s: Seq<char>, i: int) -> bool {
    is_hex_digit(s[i]) && is_hex_digit(s[i + 1])
}

/// The value of the octet starting at position `i` of `s`.
pub open spec fn octet_of(s: Seq<char>, i: int) -> u8 {
    (hex_val(s[i]) * 16 + hex_val(s[i + 1])) as u8
}

/// The text forms this module accepts: exactly six hexadecimal octets,
/// joined by a single `:` or `-` each, 17 characters in all.
pub open spec fn valid_mac_text(s: Seq<char>) -> bool {
    &&& s.len() == 17
    &&& octet_ok(s, 0) && octet_ok(s, 3) && octet_ok(s, 6)
    &&& octet_ok(s, 9) && octet_ok(s, 12) && octet_ok(s, 15)
    &&& is_sep(s, 2) && is_sep(s, 5) && is_sep(s, 8) && is_sep(s, 11) && is_sep(s, 14)
}

/// The six bytes denoted by a valid text form.
pub open spec fn spec_mac_bytes(s: Seq<char>) -> Seq<u8> {
    seq![
        octet_of(s, 0),
        octet_of(s, 3),
        octet_of(s, 6),
        octet_of(s, 9),
        octet_of(s, 12),
        octet_of(s, 15),
    ]
}

/// The two digits (upper case) of one byte.
pub open spec fn octet_chars(v: u8) -> Seq<char> {
    seq![hex_char(v / 16), hex_char(v % 16)]
}

/// The canonical text of six bytes: upper-case hexadecimal, colon-separated.
pub open spec fn format_mac(b: Seq<u8>) -> Seq<char> {
    octet_chars(b[0]) + seq![':'] + octet_chars(b[1]) + seq![':'] + octet_chars(b[2]) + seq![':']
        + octet_chars(b[3]) + seq![':'] + octet_chars(b[4]) + seq![':'] + octet_chars(b[5])
}

/// Why a string was rejected by [`MacAddr::parse`]: it is not a valid
/// hardware-address text.
#[derive(Clone, Copy, Debug, PartialEq, Eq)]
pub enum MacError {
    InvalidAddress,
}

/// A 6-byte hardware address. Its view is the sequence of its bytes.
#[derive(Clone, Copy, Debug, PartialEq, Eq)]
pub struct MacAddr {
    bytes: [u8; 6],
}

impl View for MacAddr {
    type V = Seq<u8>;

    closed spec fn view(&self) -> Seq<u8> {
        self.bytes@
    }
}

/// The value of `c` as a hexadecimal digit, or `None` when it is none.
fn hex_digit_value(c: char) -> (r: Option<u8>)
    ensures
        r matches Some(v) ==> is_hex_digit(c) && v == hex_val(c) && v < 16,
        r is None ==> !is_hex_digit(c),
{
    let u = c as u32;
    if u >= '0' as u32 && u <= '9' as u32 {
        Some((u - '0' as u32) as u8)
    } else if u >= 'a' as u32 && u <= 'f' as u32 {
        Some((u - 'a' as u32 + 10) as u8)
    } else if u >= 'A' as u32 && u <= 'F' as u32 {
        Some((u - 'A' as u32 + 10) as u8)
    } else {
        None
    }
}

/// The upper-case hexadecimal digit of a value below sixteen, as text.
fn hex_digit_str(v: u8) -> (r: &'static str)
    requires
        v < 16,
    ensures
        r@ =~= seq![hex_char(v)],
{
    proof {
        reveal_strlit("0");
        reveal_strlit("1");
        reveal_strlit("2");
        reveal_strlit("3");
        reveal_strlit("4");
        reveal_strlit("5");
        reveal_strlit("6");
        reveal_strlit("7");
        reveal_strlit("8");
        reveal_strlit("9");
        reveal_strlit("A");
        reveal_strlit("B");
        reveal_strlit("C");
        reveal_strlit("D");
        reveal_strlit("E");
        reveal_strlit("F");
    }
    match v {
        0 => "0",
        1 => "1",
        2 => "2",
        3 => "3",
        4 => "4",
        5 => "5",
        6 => "6",
        7 => "7",
        8 => "8",
        9 => "9",
        10 => "A",
        11 => "B",
        12 => "C",
        13 => "D",
        14 => "E",
        _ => "F",
    }
}

/// The octet at positions `pos` and `pos + 1` of `s`, when both are
/// hexadecimal digits.
fn octet_at(s: &str, pos: usize) -> (r: Option<u8>)
    requires
        pos + 2 <= s@.len() <= usize::MAX,
    ensures
        r matches Some(v) ==> octet_ok(s@, pos as int) && v == octet_of(s@, pos as int),
        r is None ==> !octet_ok(s@, pos as int),
{
    let hi = hex_digit_value(s.get_char(pos));
    let lo = hex_digit_value(s.get_char(pos + 1));
    match (hi, lo) {
        (Some(h), Some(l)) => Some(h * 16 + l),
        _ => None,
    }
}

/// True when position `pos` of `s` holds `:` or `-`.
fn separator_at(s: &str, pos: usize) -> (r: bool)
    requires
        pos < s@.len(),
    ensures
        r == is_sep(s@, pos as int),
{
    let c = s.get_char(pos);
    c == ':' || c == '-'
}

impl MacAddr {
    /// The address made of the six given bytes, in order.
    pub fn from_bytes(b0: u8, b1: u8, b2: u8, b3: u8, b4: u8, b5: u8) -> (r: MacAddr)
        ensures
            r@ =~= seq![b0, b1, b2, b3, b4, b5],
    {
        MacAddr { bytes: [b0, b1, b2, b3, b4, b5] }
    }

    /// The byte at position `i`.
    pub fn byte(&self, i: usize) -> (r: u8)
        requires
            i < 6,
        ensures
            r == self@[i as int],
    {
        self.bytes[i]
    }

    /// Parses the canonical text form: six hexadecimal octets joined by
    /// `:` or `-`, case-insensitive. Any other string is rejected.
    pub fn parse(s: &str) -> (r: Result<MacAddr, MacError>)
        ensures
            r matches Ok(m) ==> valid_mac_text(s@) && m@ == spec_mac_bytes(s@),
            r is Err ==> !valid_mac_text(s@),
    {
        if s.unicode_len() != 17 {
            return Err(MacError::InvalidAddress);
        }
        if !(separator_at(s, 2) && separator_at(s, 5) && separator_at(s, 8) && separator_at(s, 11)
            && separator_at(s, 14)) {
            return Err(MacError::InvalidAddress);
        }
        let o0 = octet_at(s, 0);
        let o1 = octet_at(s, 3);
        let o2 = octet_at(s, 6);
        let o3 = octet_at(s, 9);
        let o4 = octet_at(s, 12);
        let o5 = octet_at(s, 15);
        match (o0, o1, o2, o3, o4, o5) {
            (Some(b0), Some(b1), Some(b2), Some(b3), Some(b4), Some(b5)) => {
                let m = MacAddr { bytes: [b0, b1, b2, b3, b4, b5] };
                proof {
                    assert(m@ =~= spec_mac_bytes(s@));
                }
                Ok(m)
            },
            _ => Err(MacError::InvalidAddress),
        }
    }

    /// The canonical text of this address: upper-case hexadecimal octets
    /// joined by colons.
    pub fn format(&self) -> (r: String)
        ensures
            r@ == format_mac(self@),
    {
        let mut out = String::new();
        out.append(hex_digit_str(self.bytes[0] / 16));
        out.append(hex_digit_str(self.bytes[0] % 16));
        out.append(":");
        out.append(hex_digit_str(self.bytes[1] / 16));
        out.append(hex_digit_str(self.bytes[1] % 16));
        out.append(":");
        out.append(hex_digit_str(self.bytes[2] / 16));
        out.append(hex_digit_str(self.bytes[2] % 16));
        out.append(":");
        out.append(hex_digit_str(self.bytes[3] / 16));
        out.append(hex_digit_str(self.bytes[3] % 16));
        out.append(":");
        out.append(hex_digit_str(self.bytes[4] / 16));
        out.append(hex_digit_str(self.bytes[4] % 16));
        out.append(":");
        out.append(hex_digit_str(self.bytes[5] / 16));
        out.append(hex_digit_str(self.bytes[5] % 16));
        proof {
            reveal_strlit(":");
            assert(out@ =~= format_mac(self@));
        }
        out
    }
}

/// Hexadecimal digits round-trip: reading back the digit written for a
/// value below sixteen gives that value.
proof fn lemma_hex_char_val(v: u8)
    requires
        v < 16,
    ensures
        is_hex_digit(hex_char(v)),
        hex_val(hex_char(v)) == v,
{
}

/// An octet's two digits round-trip: the digits written for a byte read
/// back as that byte.
proof fn lemma_octet_round_trip(s: Seq<char>, i: int, v: u8)
    requires
        0 <= i,
        i + 1 < s.len(),
        s[i] == hex_char(v / 16),
        s[i + 1] == hex_char(v % 16),
    ensures
        octet_ok(s, i),
        octet_of(s, i) == v,
{
    lemma_hex_char_val(v / 16);
    lemma_hex_char_val(v % 16);
}

/// The round trip law: the canonical text of any six bytes is a valid
/// hardware-address text, and parsing it yields those bytes again.
pub proof fn lemma_mac_round_trip(b: Seq<u8>)
    requires
        b.len() == 6,
    ensures
        valid_mac_text(format_mac(b)),
        spec_mac_bytes(format_mac(b)) == b,
{
    let s = format_mac(b);
    lemma_octet_round_trip(s, 0, b[0]);
    lemma_octet_round_trip(s, 3, b[1]);
    lemma_octet_round_trip(s, 6, b[2]);
    lemma_octet_round_trip(s, 9, b[3]);
    lemma_octet_round_trip(s, 12, b[4]);
    lemma_octet_round_trip(s, 15, b[5]);
    assert(spec_mac_bytes(s) =~= b);
}

} // verus!
