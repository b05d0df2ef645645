//! Plain description of a host network interface, as a capture layer
//! would report it.

use vstd::prelude::*;

use crate::ip_address::Ipv4Addr;
use crate::mac_address::MacAddr;

verus! {

/// Identifying data of a host network interface.
pub struct NetworkInterfaceData {
    pub name: String,
    pub description: String,
    pub mac_addr: MacAddr,
    pub ip_addr: Ipv4Addr,
}

} // verus!
