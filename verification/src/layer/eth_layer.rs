//! The Ethernet header layer: 802.1Q tag codec, EtherType classification,
//! and the header representation itself.

use vstd::prelude::*;

use crate::layer::{Layer, LayerType, OsiLevel};
use crate::mac_address::MacAddr;
use crate::primitives::BitPrimitiveError;

verus! {

/// Priority Code Point: the 3 most-significant bits of the TCI word.
pub open spec fn spec_pcp(tic: u16) -> u8 {
    ((tic >> 13) & 0x7) as u8
}

/// Drop Eligible Indicator: bit 12 of the TCI word.
pub open spec fn spec_dei(tic: u16) -> bool {
    ((tic >> 12) & 1) == 1
}

/// VLAN Identifier: the low 12 bits of the TCI word.
pub open spec fn spec_vid(tic: u16) -> u16 {
    tic & 0x0FFF
}

/// The TCI word after the PCP bits are cleared and rewritten to `pcp`.
pub open spec fn spec_with_pcp(tic: u16, pcp: u8) -> u16 {
    (tic & !0xE000) | ((pcp as u16) << 13)
}

/// The TCI word after the DEI bit is cleared and rewritten to `dei`.
pub open spec fn spec_with_dei(tic: u16, dei: bool) -> u16 {
    (tic & !0x1000) | ((if dei {
        1u16
    } else {
        0u16
    }) << 12)
}

/// The TCI word after the VID bits are cleared and rewritten to `vid`.
pub open spec fn spec_with_vid(tic: u16, vid: u16) -> u16 {
    (tic & !0x0FFF) | vid
}

/// Holds when the three sub-fields of `tic` read back as the given triple.
pub open spec fn tci_reads_back(tic: u16, pcp: u8, dei: bool, vid: u16) -> bool {
    spec_pcp(tic) == pcp && spec_dei(tic) == dei && spec_vid(tic) == vid
}

proof fn lemma_pcp_read(t: u16)
    by (bit_vector)
    ensures
        ((t & 0b1110_0000_0000_0000) >> 13) as u8 == spec_pcp(t),
        spec_pcp(t) <= 7,
{
}

proof fn lemma_dei_read(t: u16)
    by (bit_vector)
    ensures
        (((t & 0b0001_0000_0000_0000) >> 12) == 1) == spec_dei(t),
{
}

proof fn lemma_vid_read(t: u16)
    by (bit_vector)
    ensures
        spec_vid(t) <= 0x0FFF,
{
}

proof fn lemma_with_pcp(t: u16, p: u8)
    by (bit_vector)
    requires
        p <= 7,
    ensures
        (t & !(0b111u16 << 13)) | ((p as u16) << 13) == spec_with_pcp(t, p),
        spec_pcp(spec_with_pcp(t, p)) == p,
        spec_dei(spec_with_pcp(t, p)) == spec_dei(t),
        spec_vid(spec_with_pcp(t, p)) == spec_vid(t),
{
}

proof fn lemma_with_dei(t: u16, d: bool)
    by (bit_vector)
    ensures
        (t & !(1u16 << 12)) | ((if d {
            1u16
        } else {
            0u16
        }) << 12) == spec_with_dei(t, d),
        spec_dei(spec_with_dei(t, d)) == d,
        spec_pcp(spec_with_dei(t, d)) == spec_pcp(t),
        spec_vid(spec_with_dei(t, d)) == spec_vid(t),
{
}

proof fn lemma_with_vid(t: u16, v: u16)
    by (bit_vector)
    requires
        v <= 0x0FFF,
    ensures
        spec_vid(spec_with_vid(t, v)) == v,
        spec_pcp(spec_with_vid(t, v)) == spec_pcp(t),
        spec_dei(spec_with_vid(t, v)) == spec_dei(t),
{
}

/// Law: writing valid PCP, DEI and VID values once each, in any of the six
/// possible orders, yields a TCI word whose three readbacks are exactly the
/// written triple, whatever the word held before.
pub proof fn lemma_tci_write_order_independent(t: u16, p: u8, d: bool, v: u16)
    requires
        p <= 7,
        v <= 0x0FFF,
    ensures
        tci_reads_back(spec_with_vid(spec_with_dei(spec_with_pcp(t, p), d), v), p, d, v),
        tci_reads_back(spec_with_dei(spec_with_vid(spec_with_pcp(t, p), v), d), p, d, v),
        tci_reads_back(spec_with_vid(spec_with_pcp(spec_with_dei(t, d), p), v), p, d, v),
        tci_reads_back(spec_with_pcp(spec_with_vid(spec_with_dei(t, d), v), p), p, d, v),
        tci_reads_back(spec_with_dei(spec_with_pcp(spec_with_vid(t, v), p), d), p, d, v),
        tci_reads_back(spec_with_pcp(spec_with_dei(spec_with_vid(t, v), d), p), p, d, v),
{
    lemma_with_pcp(t, p);
    lemma_with_pcp(spec_with_dei(t, d), p);
    lemma_with_pcp(spec_with_vid(t, v), p);
    lemma_with_pcp(spec_with_vid(spec_with_dei(t, d), v), p);
    lemma_with_pcp(spec_with_dei(spec_with_vid(t, v), d), p);
    lemma_with_dei(t, d);
    lemma_with_dei(spec_with_pcp(t, p), d);
    lemma_with_dei(spec_with_vid(t, v), d);
    lemma_with_dei(spec_with_vid(spec_with_pcp(t, p), v), d);
    lemma_with_dei(spec_with_pcp(spec_with_vid(t, v), p), d);
    lemma_with_vid(t, v);
    lemma_with_vid(spec_with_pcp(t, p), v);
    lemma_with_vid(spec_with_dei(t, d), v);
    lemma_with_vid(spec_with_dei(spec_with_pcp(t, p), d), v);
    lemma_with_vid(spec_with_pcp(spec_with_dei(t, d), p), v);
}

/// An 802.1Q VLAN tag: a fixed Tag Protocol Identifier and one 16-bit Tag
/// Control Information word packing PCP, DEI and VID.
#[derive(Debug, Clone, Copy, PartialEq, Eq, Structural)]
pub struct Q802_1Tag {
    tpid: u16,
    tic: u16,
}

impl Q802_1Tag {
    /// Tag Protocol Identifier (TPID) constant as specified by the 802.1Q
    /// encapsulation standard.
    pub const TPID: u16 = 0x8100;

    /// The stored Tag Protocol Identifier.
    pub closed spec fn spec_tpid(self) -> u16 {
        self.tpid
    }

    /// The stored Tag Control Information word.
    pub closed spec fn spec_tic(self) -> u16 {
        self.tic
    }

    /// Constructs a new 802.1Q tag with the specified Tag Control
    /// Information (TIC).
    pub fn new(tic: u16) -> (r: Self)
        ensures
            r.spec_tpid() == Q802_1Tag::TPID,
            r.spec_tic() == tic,
    {
        Self { tpid: Self::TPID, tic }
    }

    /// Constructs a tag from both raw words, TPID included. A non-standard
    /// TPID is accepted, standing for a malformed or foreign tag observed
    /// on the wire; `is_valid` tells the two apart.
    pub fn from_raw(tpid: u16, tic: u16) -> (r: Self)
        ensures
            r.spec_tpid() == tpid,
            r.spec_tic() == tic,
    {
        Self { tpid, tic }
    }

    /// Returns the stored Tag Protocol Identifier.
    pub fn tpid(self) -> (r: u16)
        ensures
            r == self.spec_tpid(),
    {
        self.tpid
    }

    /// Returns the stored Tag Control Information word.
    pub fn tic(self) -> (r: u16)
        ensures
            r == self.spec_tic(),
    {
        self.tic
    }

    /// Checks if the tag is valid by comparing its tag protocol identifier
    /// (TPID).
    pub fn is_valid(self) -> (r: bool)
        ensures
            r == (self.spec_tpid() == Q802_1Tag::TPID),
    {
        self.tpid == Self::TPID
    }

    /// Checks the Drop Eligible Indicator (DEI) bit.
    pub fn is_drop_eligible(self) -> (r: bool)
        ensures
            r == spec_dei(self.spec_tic()),
    {
        proof {
            lemma_dei_read(self.tic);
        }
        ((self.tic & 0b0001_0000_0000_0000) >> 12) == 1
    }

    /// Sets the Drop Eligible Indicator to the specified value, leaving
    /// PCP and VID untouched.
    pub fn set_drop_eligible(&mut self, value: bool)
        ensures
            final(self).spec_tpid() == old(self).spec_tpid(),
            final(self).spec_tic() == spec_with_dei(old(self).spec_tic(), value),
            spec_dei(final(self).spec_tic()) == value,
            spec_pcp(final(self).spec_tic()) == spec_pcp(old(self).spec_tic()),
            spec_vid(final(self).spec_tic()) == spec_vid(old(self).spec_tic()),
    {
        proof {
            lemma_with_dei(self.tic, value);
        }
        self.tic = (self.tic & !(1u16 << 12)) | ((if value {
            1u16
        } else {
            0u16
        }) << 12);
    }

    /// Returns the value of the 3-bit Priority Code Point (PCP) field of
    /// the TIC.
    pub fn pcp(self) -> (r: u8)
        ensures
            r == spec_pcp(self.spec_tic()),
            r <= 7,
    {
        proof {
            lemma_pcp_read(self.tic);
        }
        ((self.tic & 0b1110_0000_0000_0000) >> 13) as u8
    }

    /// Sets the Priority Code Point field by clearing and rewriting only
    /// its 3 bits. If the provided PCP cannot fit into a 3-bit value,
    /// returns an error and leaves the tag unchanged.
    pub fn set_pcp(&mut self, pcp: u8) -> (r: Result<(), BitPrimitiveError>)
        ensures
            pcp <= 7 ==> r == Ok::<(), BitPrimitiveError>(()) && final(self).spec_tic()
                == spec_with_pcp(old(self).spec_tic(), pcp) && spec_pcp(final(self).spec_tic())
                == pcp && spec_dei(final(self).spec_tic()) == spec_dei(old(self).spec_tic())
                && spec_vid(final(self).spec_tic()) == spec_vid(old(self).spec_tic()),
            pcp > 7 ==> r == Err::<(), BitPrimitiveError>(BitPrimitiveError::ValueOutOfRange)
                && *final(self) == *old(self),
            final(self).spec_tpid() == old(self).spec_tpid(),
    {
        if pcp <= 0b0000_0111 {
            proof {
                lemma_with_pcp(self.tic, pcp);
            }
            self.tic = (self.tic & !(0b111u16 << 13)) | ((pcp as u16) << 13);
            Ok(())
        } else {
            Err(BitPrimitiveError::ValueOutOfRange)
        }
    }

    /// Returns the value of the VLAN Identifier (VID).
    pub fn vid(self) -> (r: u16)
        ensures
            r == spec_vid(self.spec_tic()),
            r <= 0x0FFF,
    {
        proof {
            lemma_vid_read(self.tic);
        }
        self.tic & 0b0000_1111_1111_1111
    }

    /// Sets the VLAN identifier. If the provided VID cannot fit into a
    /// 12-bit value, returns an error and leaves the tag unchanged.
    ///
    /// The VID bits are cleared before the new value is written, so that,
    /// like the other two setters, a later write never mixes with an
    /// earlier one: each sub-field reads back as the value most recently
    /// written to it.
    pub fn set_vid(&mut self, vid: u16) -> (r: Result<(), BitPrimitiveError>)
        ensures
            vid <= 0x0FFF ==> r == Ok::<(), BitPrimitiveError>(()) && final(self).spec_tic()
                == spec_with_vid(old(self).spec_tic(), vid) && spec_vid(final(self).spec_tic())
                == vid && spec_pcp(final(self).spec_tic()) == spec_pcp(old(self).spec_tic())
                && spec_dei(final(self).spec_tic()) == spec_dei(old(self).spec_tic()),
            vid > 0x0FFF ==> r == Err::<(), BitPrimitiveError>(BitPrimitiveError::ValueOutOfRange)
                && *final(self) == *old(self),
            final(self).spec_tpid() == old(self).spec_tpid(),
    {
        if vid <= 0b0000_1111_1111_1111 {
            proof {
                lemma_with_vid(self.tic, vid);
            }
            self.tic = (self.tic & !0x0FFFu16) | vid;
            Ok(())
        } else {
            Err(BitPrimitiveError::ValueOutOfRange)
        }
    }
}

impl Default for Q802_1Tag {
    /// The default tag carries the standard TPID and an all-zero TCI word.
    fn default() -> (r: Self)
        ensures
            r.spec_tpid() == Q802_1Tag::TPID,
            r.spec_tic() == 0,
    {
        Self { tpid: Self::TPID, tic: 0 }
    }
}

/// Error raised by EtherType classification. Both variants are
/// informational outcomes that callers are expected to branch on.
#[derive(Debug, Clone, PartialEq, Eq, Structural)]
pub enum EthError {
    EtherTypeIsLength,
    UnknownEtherType,
}

/// Closed set of recognized protocol identifiers carried by an Ethernet
/// header, together with an unset sentinel used as a default.
#[derive(Debug, Clone, Copy, PartialEq, Eq, Structural)]
pub enum EtherType {
    IPv4,
    Empty,
}

/// The three-way EtherType classification rule: values up to and
/// including 1500 are frame lengths, 0x0800 is IPv4, everything else is
/// unknown.
pub open spec fn spec_ether_type(value: u16) -> Result<EtherType, EthError> {
    if value <= 1500 {
        Err(EthError::EtherTypeIsLength)
    } else if value == 0x0800 {
        Ok(EtherType::IPv4)
    } else {
        Err(EthError::UnknownEtherType)
    }
}

impl EtherType {
    /// Classifies a raw 16-bit value as a recognized EtherType, a frame
    /// length, or an unknown type.
    pub fn try_from(value: u16) -> (r: Result<EtherType, EthError>)
        ensures
            r == spec_ether_type(value),
    {
        if value <= 1500 {
            Err(EthError::EtherTypeIsLength)
        } else if value == 0x0800 {
            Ok(EtherType::IPv4)
        } else {
            Err(EthError::UnknownEtherType)
        }
    }
}

/// An Ethernet frame header: source and destination addresses, an
/// optional 802.1Q tag whose presence signals a VLAN-tagged frame, and an
/// EtherType.
#[derive(Debug, Clone, PartialEq, Eq, Structural)]
pub struct EthLayer {
    pub src_mac: MacAddr,
    pub dst_mac: MacAddr,
    pub _802_1q_tag: Option<Q802_1Tag>,
    pub ether_type: EtherType,
}

impl Layer for EthLayer {
    const NAME: &'static str = "Ethernet";

    const TYPE: LayerType = LayerType::EthLayer;

    const OSI_LEVEL: OsiLevel = OsiLevel::DataLink;
}

impl EthLayer {
    /// Plain aggregate constructor with no cross-field validation.
    pub fn new(
        src_mac: MacAddr,
        dst_mac: MacAddr,
        ether_type: EtherType,
        _802_1q_tag: Option<Q802_1Tag>,
    ) -> (r: Self)
        ensures
            r.src_mac == src_mac,
            r.dst_mac == dst_mac,
            r._802_1q_tag == _802_1q_tag,
            r.ether_type == ether_type,
    {
        EthLayer { src_mac, dst_mac, _802_1q_tag, ether_type }
    }
}

impl Default for EthLayer {
    /// Constructs a default Ethernet layer: zero addresses, no tag, and
    /// the unset EtherType.
    fn default() -> (r: Self)
        ensures
            r.src_mac == (MacAddr(0, 0, 0, 0, 0, 0)),
            r.dst_mac == (MacAddr(0, 0, 0, 0, 0, 0)),
            r._802_1q_tag is None,
            r.ether_type == EtherType::Empty,
    {
        EthLayer {
            src_mac: MacAddr::default(),
            dst_mac: MacAddr::default(),
            _802_1q_tag: None,
            ether_type: EtherType::Empty,
        }
    }
}

/// Law: equality of Ethernet headers is structural, field by field, and
/// changing any one field breaks it.
pub proof fn lemma_eth_layer_eq(a: EthLayer, b: EthLayer)
    ensures
        (a == b) <==> (a.src_mac == b.src_mac && a.dst_mac == b.dst_mac && a._802_1q_tag
            == b._802_1q_tag && a.ether_type == b.ether_type),
{
}

} // verus!
