//! A verified dispatch core for the Linux rtnetlink protocol.
//!
//! One shared connection handle serves many independent subsystem command
//! families (link, address, route, rule, neighbour, and traffic control)
//! over a single multiplexed netlink connection. The socket transport
//! itself — connection setup, sequence-number allocation, frame parsing and
//! the demultiplexing loop — is `netlink_proto`'s job; this crate is the
//! layer above it: the cloneable dispatch handle, its `request`/`notify`
//! primitives, and the family of subsystem handles built from it.

pub mod addr;
pub mod error;
pub mod handle;
pub mod subsystems;
pub mod transport;

pub use addr::Destination;
pub use error::Error;
pub use handle::Handle;
pub use subsystems::AddressHandle;
pub use subsystems::LinkHandle;
pub use subsystems::NeighbourHandle;
pub use subsystems::QDiscHandle;
pub use subsystems::RouteHandle;
pub use subsystems::RuleHandle;
pub use subsystems::TrafficChainHandle;
pub use subsystems::TrafficClassHandle;
pub use subsystems::TrafficFilterHandle;
pub use transport::ReplyStream;
