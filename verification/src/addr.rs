use vstd::prelude::*;

verus! {

/// A netlink destination address: a (port, multicast-group-mask) pair.
///
/// The dispatch layer never takes a user-supplied destination: every message
/// it sends is addressed to the fixed kernel unicast endpoint `(0, 0)`.
#[derive(Clone, Copy, Debug, PartialEq, Eq, Structural)]
pub struct Destination {
    pub port: u32,
    pub groups: u32,
}

impl Destination {
    /// Whether this is the fixed kernel unicast endpoint: port 0, no
    /// multicast groups.
    pub open spec fn is_kernel_unicast(self) -> bool {
        self.port == 0 && self.groups == 0
    }

    /// Build the fixed kernel unicast endpoint `(0, 0)`.
    pub fn kernel_unicast() -> (d: Destination)
        ensures
            d.port == 0,
            d.groups == 0,
            d.is_kernel_unicast(),
    {
        Destination { port: 0, groups: 0 }
    }
}

} // verus!
