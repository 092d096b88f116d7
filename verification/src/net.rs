//! Network interface facts and the exclusion rules applied to them.

use vstd::prelude::*;

use crate::host::str_eq;

verus! {

/// One enumerated interface, as plain values: its name, its assigned
/// addresses already rendered as text, and its hardware address if any.
#[derive(Debug, Clone)]
pub struct NetIface {
    pub name: String,
    pub ipv4: Vec<String>,
    pub ipv6: Vec<String>,
    pub mac_addr: Option<String>,
}

/// Whether an interface name occurs in the virtual-network listing.
pub open spec fn is_virtual(name: Seq<char>, veths: Seq<Seq<char>>) -> bool {
    exists|i: int| 0 <= i < veths.len() && veths[i] == name
}

/// Keeps only interfaces that do not appear in the virtual-network listing.
pub fn veth_interface_filter(name: &String, veths: &Vec<String>) -> (r: bool)
    ensures
        r == !is_virtual(name@, veths@.map_values(|v: String| v@)),
{
    let ghost vs = veths@.map_values(|v: String| v@);
    let mut i: usize = 0;
    while i < veths.len()
        invariant
            i <= veths@.len(),
            vs == veths@.map_values(|v: String| v@),
            forall|j: int| 0 <= j < i ==> vs[j] != name@,
        decreases veths@.len() - i,
    {
        if str_eq(veths[i].as_str(), name.as_str()) {
            proof {
                assert(vs[i as int] == name@);
            }
            return false;
        }
        i = i + 1;
    }
    true
}

/// Keeps only interfaces with at least one assigned address.
pub fn has_ip_iface_filter(iface: &NetIface) -> (r: bool)
    ensures
        r == (iface.ipv4@.len() > 0 || iface.ipv6@.len() > 0),
{
    iface.ipv4.len() > 0 || iface.ipv6.len() > 0
}

} // verus!
