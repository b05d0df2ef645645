//! IPv4 addresses as four owned octets, with textual parsing.

use vstd::prelude::*;

use crate::text::{chars_of, parse_uint, spec_parse_uint, spec_split, split_chars};

pub mod ipv6;

verus! {

/// Error raised when a string does not denote an IP address.
#[derive(Debug, Clone, PartialEq, Eq, Structural)]
pub enum IpAddressError {
    InvalidAddress,
    InvalidLength,
}

/// An IPv4 address, stored as four octets, most significant first.
#[derive(Debug, Clone, Copy, PartialEq, Eq, Structural, Hash)]
pub struct Ipv4Addr(pub u8, pub u8, pub u8, pub u8);

/// What parsing an IPv4 address accepts and returns: exactly four
/// dot-separated runs, each reading as a decimal number of at most 255.
pub open spec fn spec_ipv4_from_str(s: Seq<char>) -> Result<Ipv4Addr, IpAddressError> {
    let parts = spec_split(s, seq!['.']);
    if parts.len() != 4 {
        Err(IpAddressError::InvalidLength)
    } else {
        match (
            spec_parse_uint(parts[0], 255),
            spec_parse_uint(parts[1], 255),
            spec_parse_uint(parts[2], 255),
            spec_parse_uint(parts[3], 255),
        ) {
            (Some(a), Some(b), Some(c), Some(d)) => Ok(
                Ipv4Addr(a as u8, b as u8, c as u8, d as u8),
            ),
            _ => Err(IpAddressError::InvalidAddress),
        }
    }
}

impl Ipv4Addr {
    /// Constructs an IPv4 address from four octet values.
    pub fn new(a: u8, b: u8, c: u8, d: u8) -> (r: Self)
        ensures
            r == (Ipv4Addr(a, b, c, d)),
    {
        Ipv4Addr(a, b, c, d)
    }

    /// Attempts to construct an IPv4 address from a string.
    pub fn from_str(string: &str) -> (r: Result<Self, IpAddressError>)
        ensures
            r == spec_ipv4_from_str(string@),
    {
        let chars = chars_of(string);
        let seps: Vec<char> = vec!['.'];
        proof {
            assert(seps@ =~= seq!['.']);
        }
        let parts = split_chars(&chars, &seps);
        if parts.len() != 4 {
            return Err(IpAddressError::InvalidLength);
        }
        let a = parse_uint(&parts[0], 255);
        let b = parse_uint(&parts[1], 255);
        let c = parse_uint(&parts[2], 255);
        let d = parse_uint(&parts[3], 255);
        match (a, b, c, d) {
            (Some(a), Some(b), Some(c), Some(d)) => Ok(
                Ipv4Addr(a as u8, b as u8, c as u8, d as u8),
            ),
            _ => Err(IpAddressError::InvalidAddress),
        }
    }

    /// Constructs a loopback address.
    pub fn loopback() -> (r: Self)
        ensures
            r == (Ipv4Addr(127, 0, 0, 1)),
    {
        Ipv4Addr(127, 0, 0, 1)
    }

    /// Checks if an IP address is a loopback address.
    pub fn is_loopback(&self) -> (r: bool)
        ensures
            r == (*self == Ipv4Addr(127, 0, 0, 1)),
    {
        *self == Self::loopback()
    }
}

impl Default for Ipv4Addr {
    /// The default IPv4 address is all-zero.
    fn default() -> (r: Self)
        ensures
            r == (Ipv4Addr(0, 0, 0, 0)),
    {
        Ipv4Addr(0, 0, 0, 0)
    }
}

} // verus!
