//! Static metadata that identifies a protocol header type: a name, a
//! discriminant from a closed set of header kinds, and an OSI level.

use vstd::prelude::*;

pub mod eth_layer;

verus! {

/// Closed set of header kinds known to the library.
#[derive(Debug, Clone, Copy, PartialEq, Eq, Structural)]
pub enum LayerType {
    EthLayer,
    Ipv4Layer,
}

/// The seven layers of the OSI model.
#[derive(Debug, Clone, Copy, PartialEq, Eq, Structural)]
pub enum OsiLevel {
    Physical,
    DataLink,
    Network,
    Transport,
    Session,
    Presentation,
    Application,
}

/// Compile-time capability of a header type: pure metadata, no state and
/// no behaviour, meant for a future dispatcher to route header types
/// without dynamic type inspection.
pub trait Layer {
    const NAME: &'static str;

    const TYPE: LayerType;

    const OSI_LEVEL: OsiLevel;
}

} // verus!
