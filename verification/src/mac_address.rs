//! MAC addresses as six owned octets, with textual parsing.

use vstd::prelude::*;

use crate::text::{chars_of, spec_trim, trim_chars};

verus! {

/// An ASCII hexadecimal digit.
pub open spec fn is_hex_digit(c: char) -> bool {
    (48 <= c as u32 <= 57) || (97 <= c as u32 <= 102) || (65 <= c as u32 <= 70)
}

/// Numeric value of an ASCII hexadecimal digit.
pub open spec fn hex_val(c: char) -> int {
    if 48 <= c as u32 <= 57 {
        c as u32 - 48
    } else if 97 <= c as u32 <= 102 {
        c as u32 - 87
    } else {
        c as u32 - 55
    }
}

/// Whether every character of `s` is an ASCII hexadecimal digit.
pub open spec fn seq_all_hex(s: Seq<char>) -> bool {
    forall|i: int| 0 <= i < s.len() ==> is_hex_digit(s[i])
}

/// The bytes denoted by a run of hexadecimal digits, two digits a byte,
/// most significant digit first; a trailing odd digit denotes nothing.
pub open spec fn spec_hex_bytes(s: Seq<char>) -> Seq<u8>
    decreases s.len(),
{
    if s.len() < 2 {
        Seq::empty()
    } else {
        seq![(hex_val(s[0]) * 16 + hex_val(s[1])) as u8] + spec_hex_bytes(s.skip(2))
    }
}

pub proof fn lemma_hex_bytes_len(s: Seq<char>)
    ensures
        spec_hex_bytes(s).len() == s.len() / 2,
    decreases s.len(),
{
    if s.len() >= 2 {
        lemma_hex_bytes_len(s.skip(2));
    }
}

/// A group separator accepted in MAC address notation.
pub open spec fn is_mac_sep(c: char) -> bool {
    c == '.' || c == ':' || c == '-'
}

/// The characters of `s` with the group separators removed.
pub open spec fn spec_strip_seps(s: Seq<char>) -> Seq<char>
    decreases s.len(),
{
    if s.len() == 0 {
        Seq::empty()
    } else if is_mac_sep(s.last()) {
        spec_strip_seps(s.drop_last())
    } else {
        spec_strip_seps(s.drop_last()).push(s.last())
    }
}

/// The number of group separators in `s`.
pub open spec fn spec_sep_count(s: Seq<char>) -> int
    decreases s.len(),
{
    if s.len() == 0 {
        0
    } else if is_mac_sep(s.last()) {
        spec_sep_count(s.drop_last()) + 1
    } else {
        spec_sep_count(s.drop_last())
    }
}

/// What parsing a MAC address accepts and returns: after trimming white
/// space, the string must fall into six groups separated by '.', ':' or
/// '-', and the group contents must concatenate to an even run of at
/// least twelve hexadecimal digits; the first six denoted bytes are the
/// address, any further digit pairs are ignored.
pub open spec fn spec_mac_from_str(s: Seq<char>) -> Result<MacAddr, MacAddressError> {
    let t = spec_trim(s);
    if spec_sep_count(t) != 5 {
        Err(MacAddressError::InvalidAddress)
    } else {
        let h = spec_strip_seps(t);
        if h.len() % 2 == 0 && seq_all_hex(h) && h.len() >= 12 {
            let b = spec_hex_bytes(h);
            Ok(MacAddr(b[0], b[1], b[2], b[3], b[4], b[5]))
        } else {
            Err(MacAddressError::InvalidAddress)
        }
    }
}

/// Relies on hex::decode: an even run of ASCII hexadecimal digits, upper
/// or lower case, decodes to its denoted bytes, two digits a byte; any
/// other input is rejected.
#[verifier::external_body]
fn hex_decode_chars(chars: &Vec<char>) -> (r: Option<Vec<u8>>)
    ensures
        r is Some <==> (chars@.len() % 2 == 0 && seq_all_hex(chars@)),
        r matches Some(b) ==> b@ == spec_hex_bytes(chars@),
{
    match hex::decode(chars.iter().collect::<String>()) {
        Ok(bytes) => Some(bytes),
        Err(_) => None,
    }
}

/// Error raised when a string does not denote a MAC address.
#[derive(Debug, Clone, Copy, PartialEq, Eq, Structural)]
pub enum MacAddressError {
    InvalidAddress,
}

/// A 48-bit MAC address, stored as six octets in transmission order.
#[derive(Debug, Clone, Copy, PartialEq, Eq, Structural, Hash)]
pub struct MacAddr(pub u8, pub u8, pub u8, pub u8, pub u8, pub u8);

impl MacAddr {
    /// Constructs a MAC address from 6 values.
    pub fn new(a: u8, b: u8, c: u8, d: u8, e: u8, f: u8) -> (r: Self)
        ensures
            r == (MacAddr(a, b, c, d, e, f)),
    {
        MacAddr(a, b, c, d, e, f)
    }

    /// Attempts to construct a MAC address from a string.
    pub fn from_str(string: &str) -> (r: Result<Self, MacAddressError>)
        ensures
            r == spec_mac_from_str(string@),
    {
        let chars = chars_of(string);
        let trimmed = trim_chars(&chars);
        let mut digits: Vec<char> = Vec::new();
        let mut seps: usize = 0;
        let mut i: usize = 0;
        while i < trimmed.len()
            invariant
                i <= trimmed@.len(),
                seps <= i,
                digits@ == spec_strip_seps(trimmed@.take(i as int)),
                seps == spec_sep_count(trimmed@.take(i as int)),
            decreases trimmed.len() - i,
        {
            let c = trimmed[i];
            proof {
                assert(trimmed@.take(i as int + 1).drop_last() =~= trimmed@.take(i as int));
                assert(trimmed@.take(i as int + 1).last() == trimmed@[i as int]);
            }
            if c == '.' || c == ':' || c == '-' {
                seps = seps + 1;
            } else {
                digits.push(c);
            }
            i = i + 1;
        }
        proof {
            assert(trimmed@.take(trimmed@.len() as int) =~= trimmed@);
        }
        if seps != 5 {
            return Err(MacAddressError::InvalidAddress);
        }
        match hex_decode_chars(&digits) {
            Some(bytes) => {
                proof {
                    lemma_hex_bytes_len(digits@);
                }
                if bytes.len() >= 6 {
                    Ok(MacAddr(bytes[0], bytes[1], bytes[2], bytes[3], bytes[4], bytes[5]))
                } else {
                    Err(MacAddressError::InvalidAddress)
                }
            },
            None => Err(MacAddressError::InvalidAddress),
        }
    }

    /// Constructs a broadcast MAC address.
    pub fn broadcast() -> (r: Self)
        ensures
            r == (MacAddr(0xff, 0xff, 0xff, 0xff, 0xff, 0xff)),
    {
        MacAddr(0xff, 0xff, 0xff, 0xff, 0xff, 0xff)
    }
}

impl Default for MacAddr {
    /// The default MAC address is all-zero.
    fn default() -> (r: Self)
        ensures
            r == (MacAddr(0, 0, 0, 0, 0, 0)),
    {
        MacAddr(0, 0, 0, 0, 0, 0)
    }
}

} // verus!
