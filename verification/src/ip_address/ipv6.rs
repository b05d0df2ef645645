//! IPv6 addresses as six owned hextets, with textual parsing.

use vstd::prelude::*;

use crate::ip_address::IpAddressError;
use crate::text::{chars_of, parse_uint, spec_parse_uint, spec_split, split_chars};

verus! {

/// An IPv6 address, stored as six hextets, most significant first.
#[derive(Debug, Clone, Copy, PartialEq, Eq, Structural, Hash)]
pub struct Ipv6Addr(pub u16, pub u16, pub u16, pub u16, pub u16, pub u16);

/// What parsing an IPv6 address accepts and returns: exactly six
/// colon-separated runs, each reading as a decimal number of at most
/// 65535.
pub open spec fn spec_ipv6_from_str(s: Seq<char>) -> Result<Ipv6Addr, IpAddressError> {
    let parts = spec_split(s, seq![':']);
    if parts.len() != 6 {
        Err(IpAddressError::InvalidLength)
    } else {
        match (
            spec_parse_uint(parts[0], 65535),
            spec_parse_uint(parts[1], 65535),
            spec_parse_uint(parts[2], 65535),
            spec_parse_uint(parts[3], 65535),
            spec_parse_uint(parts[4], 65535),
            spec_parse_uint(parts[5], 65535),
        ) {
            (Some(a), Some(b), Some(c), Some(d), Some(e), Some(f)) => Ok(
                Ipv6Addr(a as u16, b as u16, c as u16, d as u16, e as u16, f as u16),
            ),
            _ => Err(IpAddressError::InvalidAddress),
        }
    }
}

impl Ipv6Addr {
    /// Constructs an IPv6 address from six hextets.
    pub fn new(a: u16, b: u16, c: u16, d: u16, e: u16, f: u16) -> (r: Self)
        ensures
            r == (Ipv6Addr(a, b, c, d, e, f)),
    {
        Ipv6Addr(a, b, c, d, e, f)
    }

    /// Attempts to construct an IPv6 address from a string.
    pub fn from_str(string: &str) -> (r: Result<Self, IpAddressError>)
        ensures
            r == spec_ipv6_from_str(string@),
    {
        let chars = chars_of(string);
        let seps: Vec<char> = vec![':'];
        proof {
            assert(seps@ =~= seq![':']);
        }
        let parts = split_chars(&chars, &seps);
        if parts.len() != 6 {
            return Err(IpAddressError::InvalidLength);
        }
        let a = parse_uint(&parts[0], 65535);
        let b = parse_uint(&parts[1], 65535);
        let c = parse_uint(&parts[2], 65535);
        let d = parse_uint(&parts[3], 65535);
        let e = parse_uint(&parts[4], 65535);
        let f = parse_uint(&parts[5], 65535);
        match (a, b, c, d, e, f) {
            (Some(a), Some(b), Some(c), Some(d), Some(e), Some(f)) => Ok(
                Ipv6Addr(a as u16, b as u16, c as u16, d as u16, e as u16, f as u16),
            ),
            _ => Err(IpAddressError::InvalidAddress),
        }
    }

    /// Constructs a loopback address.
    pub fn loopback() -> (r: Self)
        ensures
            r == (Ipv6Addr(0, 0, 0, 0, 0, 0)),
    {
        Ipv6Addr(0, 0, 0, 0, 0, 0)
    }

    /// Checks if an IP address is a loopback address.
    pub fn is_loopback(&self) -> (r: bool)
        ensures
            r == (*self == Ipv6Addr(0, 0, 0, 0, 0, 0)),
    {
        *self == Self::loopback()
    }
}

impl Default for Ipv6Addr {
    /// The default IPv6 address is all-zero.
    fn default() -> (r: Self)
        ensures
            r == (Ipv6Addr(0, 0, 0, 0, 0, 0)),
    {
        Ipv6Addr(0, 0, 0, 0, 0, 0)
    }
}

} // verus!
