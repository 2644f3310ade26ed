use vstd::prelude::*;

use crate::addr::Destination;
use crate::error::Error;
use crate::subsystems::AddressHandle;
use crate::subsystems::LinkHandle;
use crate::subsystems::NeighbourHandle;
use crate::subsystems::QDiscHandle;
use crate::subsystems::RouteHandle;
use crate::subsystems::RuleHandle;
use crate::subsystems::TrafficChainHandle;
use crate::subsystems::TrafficClassHandle;
use crate::subsystems::TrafficFilterHandle;
use crate::transport::conn_clone;
use crate::transport::conn_notify;
use crate::transport::conn_request;
use crate::transport::ReplyStream;
use netlink_packet_core::NetlinkMessage;
use netlink_packet_route::RouteNetlinkMessage;
use netlink_proto::ConnectionHandle;

verus! {

/// The dispatch handle: a cheaply cloneable wrapper around the shared
/// transport connection.
///
/// All clones of one handle refer to the same underlying connection; the
/// connection's outstanding-request table is the transport's to keep
/// consistent. The ghost tag names that shared connection, so that the
/// contracts can say which handles dispatch through the same one: it is
/// carried unchanged by `clone` and by every subsystem factory, and no
/// operation of this layer ever rebinds a handle to another connection.
pub struct Handle {
    conn: ConnectionHandle<RouteNetlinkMessage>,
    tag: Ghost<int>,
}

impl Handle {
    /// The identity of the underlying shared connection: two handles with
    /// equal `conn_id` dispatch through the same connection.
    pub closed spec fn conn_id(&self) -> int {
        self.tag@
    }

    /// Wrap a freshly established transport connection.
    pub fn new(conn: ConnectionHandle<RouteNetlinkMessage>) -> Handle {
        Handle { conn, tag: Ghost(arbitrary()) }
    }

    /// Send one fully formed request message, addressed to the kernel
    /// unicast endpoint, and hand back the lazy stream of correlated
    /// replies.
    ///
    /// The message is treated as an opaque, already validated envelope: no
    /// validation and no retry happens here. Exactly one outbound
    /// transmission is queued on success; when the transport rejects the
    /// send, the one uniform error comes back and the handle is left as it
    /// was.
    pub fn request(&mut self, message: NetlinkMessage<RouteNetlinkMessage>) -> (r: Result<
        ReplyStream,
        Error,
    >)
        ensures
            final(self).conn_id() == old(self).conn_id(),
            r is Err ==> r->Err_0 == Error::RequestFailed,
    {
        let dest = Destination::kernel_unicast();
        match conn_request(&self.conn, message, dest) {
            Ok(stream) => Ok(stream),
            Err(_) => Err(Error::RequestFailed),
        }
    }

    /// Send one message, addressed to the kernel unicast endpoint, with no
    /// correlated reply: the call returns once the message is queued for
    /// transmission, not once it is delivered.
    ///
    /// Failure behaves exactly as in `request`: the one uniform error, and
    /// the handle left as it was.
    pub fn notify(&mut self, msg: NetlinkMessage<RouteNetlinkMessage>) -> (r: Result<(), Error>)
        ensures
            final(self).conn_id() == old(self).conn_id(),
            r is Err ==> r->Err_0 == Error::RequestFailed,
    {
        let dest = Destination::kernel_unicast();
        match conn_notify(&self.conn, msg, dest) {
            Ok(u) => Ok(u),
            Err(_) => Err(Error::RequestFailed),
        }
    }

    /// Create a new handle, specifically for link requests (equivalent to
    /// `ip link` commands)
    pub fn link(&self) -> (r: LinkHandle)
        ensures
            r.conn_id() == self.conn_id(),
    {
        LinkHandle::new(self.clone())
    }

    /// Create a new handle, specifically for address requests (equivalent
    /// to `ip addr` commands)
    pub fn address(&self) -> (r: AddressHandle)
        ensures
            r.conn_id() == self.conn_id(),
    {
        AddressHandle::new(self.clone())
    }

    /// Create a new handle, specifically for routing table requests
    /// (equivalent to `ip route` commands)
    pub fn route(&self) -> (r: RouteHandle)
        ensures
            r.conn_id() == self.conn_id(),
    {
        RouteHandle::new(self.clone())
    }

    /// Create a new handle, specifically for routing rule requests
    /// (equivalent to `ip rule` commands)
    pub fn rule(&self) -> (r: RuleHandle)
        ensures
            r.conn_id() == self.conn_id(),
    {
        RuleHandle::new(self.clone())
    }

    /// Create a new handle, specifically for routing neighbours requests
    /// (equivalent to `ip neighbour` commands)
    pub fn neighbours(&self) -> (r: NeighbourHandle)
        ensures
            r.conn_id() == self.conn_id(),
    {
        NeighbourHandle::new(self.clone())
    }

    /// Create a new handle, specifically for traffic control qdisc requests
    /// (equivalent to `tc qdisc show` commands)
    pub fn qdisc(&self) -> (r: QDiscHandle)
        ensures
            r.conn_id() == self.conn_id(),
    {
        QDiscHandle::new(self.clone())
    }

    /// Create a new handle, specifically for traffic control class requests
    /// (equivalent to `tc class show dev <interface_name>` commands)
    pub fn traffic_class(&self, ifindex: i32) -> (r: TrafficClassHandle)
        ensures
            r.conn_id() == self.conn_id(),
            r.interface_index() == ifindex,
    {
        TrafficClassHandle::new(self.clone(), ifindex)
    }

    /// Create a new handle, specifically for traffic control filter
    /// requests (equivalent to `tc filter show dev <interface_name>`
    /// commands)
    pub fn traffic_filter(&self, ifindex: i32) -> (r: TrafficFilterHandle)
        ensures
            r.conn_id() == self.conn_id(),
            r.interface_index() == ifindex,
    {
        TrafficFilterHandle::new(self.clone(), ifindex)
    }

    /// Create a new handle, specifically for traffic control chain requests
    /// (equivalent to `tc chain show dev <interface_name>` commands)
    pub fn traffic_chain(&self, ifindex: i32) -> (r: TrafficChainHandle)
        ensures
            r.conn_id() == self.conn_id(),
            r.interface_index() == ifindex,
    {
        TrafficChainHandle::new(self.clone(), ifindex)
    }
}

impl Clone for Handle {
    /// Cloning yields a new handle to the very same underlying connection:
    /// the socket is never duplicated, and all clones observe the one
    /// outstanding-request table the transport keeps.
    fn clone(&self) -> (r: Self)
        ensures
            r.conn_id() == self.conn_id(),
    {
        Handle { conn: conn_clone(&self.conn), tag: self.tag }
    }
}

} // verus!
