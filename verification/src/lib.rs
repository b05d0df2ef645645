//! Strongly typed, bit-exact building blocks for network protocol headers:
//! range-checked fixed-width integer primitives, the 802.1Q tag control
//! word, and an Ethernet header representation with its EtherType rule.

pub mod interface;
pub mod ip_address;
pub mod layer;
pub mod mac_address;
pub mod primitives;
pub mod text;

pub use interface::NetworkInterfaceData;
pub use ip_address::IpAddressError;
pub use ip_address::Ipv4Addr;
pub use ip_address::ipv6::Ipv6Addr;
pub use layer::Layer;
pub use layer::LayerType;
pub use layer::OsiLevel;
pub use layer::eth_layer::EthError;
pub use layer::eth_layer::EthLayer;
pub use layer::eth_layer::EtherType;
pub use layer::eth_layer::Q802_1Tag;
pub use mac_address::MacAddr;
pub use mac_address::MacAddressError;
pub use primitives::Bit;
pub use primitives::BitPrimitive;
pub use primitives::BitPrimitiveError;
pub use primitives::Crumb;
pub use primitives::Nibble;
pub use primitives::U12;
pub use primitives::U3;
