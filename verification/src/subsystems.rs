//! The subsystem handle family.
//!
//! Nine structurally identical wrappers, one per recognized subsystem. Each
//! owns one clone of the dispatch handle and transmits exclusively through
//! it — never through a transport of its own — so every subsystem shares
//! the single multiplexed connection. The three traffic-control variants
//! additionally carry an interface index, fixed at construction and
//! immutable for the handle's lifetime. Domain message building sits above
//! this layer: a subsystem operation forms one outbound message and hands
//! it to `request` or `notify` here.

use vstd::prelude::*;

use crate::error::Error;
use crate::handle::Handle;
use crate::transport::ReplyStream;
use netlink_packet_core::NetlinkMessage;
use netlink_packet_route::RouteNetlinkMessage;

verus! {

/// Handle for link requests (`ip link`).
pub struct LinkHandle {
    handle: Handle,
}

impl LinkHandle {
    /// The identity of the connection this handle dispatches through.
    pub closed spec fn conn_id(&self) -> int {
        self.handle.conn_id()
    }

    /// Wrap one clone of the dispatch handle. Pure construction: no
    /// network activity, no registration.
    pub fn new(handle: Handle) -> (r: LinkHandle)
        ensures
            r.conn_id() == handle.conn_id(),
    {
        LinkHandle { handle }
    }

    /// Send one request through the owned dispatch handle and relay the
    /// reply stream.
    pub fn request(&mut self, message: NetlinkMessage<RouteNetlinkMessage>) -> (r: Result<
        ReplyStream,
        Error,
    >)
        ensures
            final(self).conn_id() == old(self).conn_id(),
            r is Err ==> r->Err_0 == Error::RequestFailed,
    {
        self.handle.request(message)
    }

    /// Send one reply-less message through the owned dispatch handle.
    pub fn notify(&mut self, message: NetlinkMessage<RouteNetlinkMessage>) -> (r: Result<
        (),
        Error,
    >)
        ensures
            final(self).conn_id() == old(self).conn_id(),
            r is Err ==> r->Err_0 == Error::RequestFailed,
    {
        self.handle.notify(message)
    }
}

/// Handle for address requests (`ip addr`).
pub struct AddressHandle {
    handle: Handle,
}

impl AddressHandle {
    /// The identity of the connection this handle dispatches through.
    pub closed spec fn conn_id(&self) -> int {
        self.handle.conn_id()
    }

    /// Wrap one clone of the dispatch handle. Pure construction: no
    /// network activity, no registration.
    pub fn new(handle: Handle) -> (r: AddressHandle)
        ensures
            r.conn_id() == handle.conn_id(),
    {
        AddressHandle { handle }
    }

    /// Send one request through the owned dispatch handle and relay the
    /// reply stream.
    pub fn request(&mut self, message: NetlinkMessage<RouteNetlinkMessage>) -> (r: Result<
        ReplyStream,
        Error,
    >)
        ensures
            final(self).conn_id() == old(self).conn_id(),
            r is Err ==> r->Err_0 == Error::RequestFailed,
    {
        self.handle.request(message)
    }

    /// Send one reply-less message through the owned dispatch handle.
    pub fn notify(&mut self, message: NetlinkMessage<RouteNetlinkMessage>) -> (r: Result<
        (),
        Error,
    >)
        ensures
            final(self).conn_id() == old(self).conn_id(),
            r is Err ==> r->Err_0 == Error::RequestFailed,
    {
        self.handle.notify(message)
    }
}

/// Handle for routing table requests (`ip route`).
pub struct RouteHandle {
    handle: Handle,
}

impl RouteHandle {
    /// The identity of the connection this handle dispatches through.
    pub closed spec fn conn_id(&self) -> int {
        self.handle.conn_id()
    }

    /// Wrap one clone of the dispatch handle. Pure construction: no
    /// network activity, no registration.
    pub fn new(handle: Handle) -> (r: RouteHandle)
        ensures
            r.conn_id() == handle.conn_id(),
    {
        RouteHandle { handle }
    }

    /// Send one request through the owned dispatch handle and relay the
    /// reply stream.
    pub fn request(&mut self, message: NetlinkMessage<RouteNetlinkMessage>) -> (r: Result<
        ReplyStream,
        Error,
    >)
        ensures
            final(self).conn_id() == old(self).conn_id(),
            r is Err ==> r->Err_0 == Error::RequestFailed,
    {
        self.handle.request(message)
    }

    /// Send one reply-less message through the owned dispatch handle.
    pub fn notify(&mut self, message: NetlinkMessage<RouteNetlinkMessage>) -> (r: Result<
        (),
        Error,
    >)
        ensures
            final(self).conn_id() == old(self).conn_id(),
            r is Err ==> r->Err_0 == Error::RequestFailed,
    {
        self.handle.notify(message)
    }
}

/// Handle for routing rule requests (`ip rule`).
pub struct RuleHandle {
    handle: Handle,
}

impl RuleHandle {
    /// The identity of the connection this handle dispatches through.
    pub closed spec fn conn_id(&self) -> int {
        self.handle.conn_id()
    }

    /// Wrap one clone of the dispatch handle. Pure construction: no
    /// network activity, no registration.
    pub fn new(handle: Handle) -> (r: RuleHandle)
        ensures
            r.conn_id() == handle.conn_id(),
    {
        RuleHandle { handle }
    }

    /// Send one request through the owned dispatch handle and relay the
    /// reply stream.
    pub fn request(&mut self, message: NetlinkMessage<RouteNetlinkMessage>) -> (r: Result<
        ReplyStream,
        Error,
    >)
        ensures
            final(self).conn_id() == old(self).conn_id(),
            r is Err ==> r->Err_0 == Error::RequestFailed,
    {
        self.handle.request(message)
    }

    /// Send one reply-less message through the owned dispatch handle.
    pub fn notify(&mut self, message: NetlinkMessage<RouteNetlinkMessage>) -> (r: Result<
        (),
        Error,
    >)
        ensures
            final(self).conn_id() == old(self).conn_id(),
            r is Err ==> r->Err_0 == Error::RequestFailed,
    {
        self.handle.notify(message)
    }
}

/// Handle for neighbour requests (`ip neighbour`).
pub struct NeighbourHandle {
    handle: Handle,
}

impl NeighbourHandle {
    /// The identity of the connection this handle dispatches through.
    pub closed spec fn conn_id(&self) -> int {
        self.handle.conn_id()
    }

    /// Wrap one clone of the dispatch handle. Pure construction: no
    /// network activity, no registration.
    pub fn new(handle: Handle) -> (r: NeighbourHandle)
        ensures
            r.conn_id() == handle.conn_id(),
    {
        NeighbourHandle { handle }
    }

    /// Send one request through the owned dispatch handle and relay the
    /// reply stream.
    pub fn request(&mut self, message: NetlinkMessage<RouteNetlinkMessage>) -> (r: Result<
        ReplyStream,
        Error,
    >)
        ensures
            final(self).conn_id() == old(self).conn_id(),
            r is Err ==> r->Err_0 == Error::RequestFailed,
    {
        self.handle.request(message)
    }

    /// Send one reply-less message through the owned dispatch handle.
    pub fn notify(&mut self, message: NetlinkMessage<RouteNetlinkMessage>) -> (r: Result<
        (),
        Error,
    >)
        ensures
            final(self).conn_id() == old(self).conn_id(),
            r is Err ==> r->Err_0 == Error::RequestFailed,
    {
        self.handle.notify(message)
    }
}

/// Handle for traffic control qdisc requests (`tc qdisc`).
pub struct QDiscHandle {
    handle: Handle,
}

impl QDiscHandle {
    /// The identity of the connection this handle dispatches through.
    pub closed spec fn conn_id(&self) -> int {
        self.handle.conn_id()
    }

    /// Wrap one clone of the dispatch handle. Pure construction: no
    /// network activity, no registration.
    pub fn new(handle: Handle) -> (r: QDiscHandle)
        ensures
            r.conn_id() == handle.conn_id(),
    {
        QDiscHandle { handle }
    }

    /// Send one request through the owned dispatch handle and relay the
    /// reply stream.
    pub fn request(&mut self, message: NetlinkMessage<RouteNetlinkMessage>) -> (r: Result<
        ReplyStream,
        Error,
    >)
        ensures
            final(self).conn_id() == old(self).conn_id(),
            r is Err ==> r->Err_0 == Error::RequestFailed,
    {
        self.handle.request(message)
    }

    /// Send one reply-less message through the owned dispatch handle.
    pub fn notify(&mut self, message: NetlinkMessage<RouteNetlinkMessage>) -> (r: Result<
        (),
        Error,
    >)
        ensures
            final(self).conn_id() == old(self).conn_id(),
            r is Err ==> r->Err_0 == Error::RequestFailed,
    {
        self.handle.notify(message)
    }
}

/// Handle for traffic control class requests (`tc class`), scoped to one
/// interface.
pub struct TrafficClassHandle {
    handle: Handle,
    ifindex: i32,
}

impl TrafficClassHandle {
    /// The identity of the connection this handle dispatches through.
    pub closed spec fn conn_id(&self) -> int {
        self.handle.conn_id()
    }

    /// The interface index this handle is scoped to, fixed at
    /// construction.
    pub closed spec fn interface_index(&self) -> i32 {
        self.ifindex
    }

    /// Wrap one clone of the dispatch handle, scoped to the interface with
    /// index `ifindex`. Pure construction: no network activity, no
    /// registration, and the scope never propagates back to the dispatch
    /// handle or to sibling handles.
    pub fn new(handle: Handle, ifindex: i32) -> (r: TrafficClassHandle)
        ensures
            r.conn_id() == handle.conn_id(),
            r.interface_index() == ifindex,
    {
        TrafficClassHandle { handle, ifindex }
    }

    /// The interface index this handle was constructed with.
    pub fn ifindex(&self) -> (r: i32)
        ensures
            r == self.interface_index(),
    {
        self.ifindex
    }

    /// Send one request through the owned dispatch handle and relay the
    /// reply stream. The interface scope is left untouched.
    pub fn request(&mut self, message: NetlinkMessage<RouteNetlinkMessage>) -> (r: Result<
        ReplyStream,
        Error,
    >)
        ensures
            final(self).conn_id() == old(self).conn_id(),
            final(self).interface_index() == old(self).interface_index(),
            r is Err ==> r->Err_0 == Error::RequestFailed,
    {
        self.handle.request(message)
    }

    /// Send one reply-less message through the owned dispatch handle. The
    /// interface scope is left untouched.
    pub fn notify(&mut self, message: NetlinkMessage<RouteNetlinkMessage>) -> (r: Result<
        (),
        Error,
    >)
        ensures
            final(self).conn_id() == old(self).conn_id(),
            final(self).interface_index() == old(self).interface_index(),
            r is Err ==> r->Err_0 == Error::RequestFailed,
    {
        self.handle.notify(message)
    }
}

/// Handle for traffic control filter requests (`tc filter`), scoped to one
/// interface.
pub struct TrafficFilterHandle {
    handle: Handle,
    ifindex: i32,
}

impl TrafficFilterHandle {
    /// The identity of the connection this handle dispatches through.
    pub closed spec fn conn_id(&self) -> int {
        self.handle.conn_id()
    }

    /// The interface index this handle is scoped to, fixed at
    /// construction.
    pub closed spec fn interface_index(&self) -> i32 {
        self.ifindex
    }

    /// Wrap one clone of the dispatch handle, scoped to the interface with
    /// index `ifindex`. Pure construction: no network activity, no
    /// registration, and the scope never propagates back to the dispatch
    /// handle or to sibling handles.
    pub fn new(handle: Handle, ifindex: i32) -> (r: TrafficFilterHandle)
        ensures
            r.conn_id() == handle.conn_id(),
            r.interface_index() == ifindex,
    {
        TrafficFilterHandle { handle, ifindex }
    }

    /// The interface index this handle was constructed with.
    pub fn ifindex(&self) -> (r: i32)
        ensures
            r == self.interface_index(),
    {
        self.ifindex
    }

    /// Send one request through the owned dispatch handle and relay the
    /// reply stream. The interface scope is left untouched.
    pub fn request(&mut self, message: NetlinkMessage<RouteNetlinkMessage>) -> (r: Result<
        ReplyStream,
        Error,
    >)
        ensures
            final(self).conn_id() == old(self).conn_id(),
            final(self).interface_index() == old(self).interface_index(),
            r is Err ==> r->Err_0 == Error::RequestFailed,
    {
        self.handle.request(message)
    }

    /// Send one reply-less message through the owned dispatch handle. The
    /// interface scope is left untouched.
    pub fn notify(&mut self, message: NetlinkMessage<RouteNetlinkMessage>) -> (r: Result<
        (),
        Error,
    >)
        ensures
            final(self).conn_id() == old(self).conn_id(),
            final(self).interface_index() == old(self).interface_index(),
            r is Err ==> r->Err_0 == Error::RequestFailed,
    {
        self.handle.notify(message)
    }
}

/// Handle for traffic control chain requests (`tc chain`), scoped to one
/// interface.
pub struct TrafficChainHandle {
    handle: Handle,
    ifindex: i32,
}

impl TrafficChainHandle {
    /// The identity of the connection this handle dispatches through.
    pub closed spec fn conn_id(&self) -> int {
        self.handle.conn_id()
    }

    /// The interface index this handle is scoped to, fixed at
    /// construction.
    pub closed spec fn interface_index(&self) -> i32 {
        self.ifindex
    }

    /// Wrap one clone of the dispatch handle, scoped to the interface with
    /// index `ifindex`. Pure construction: no network activity, no
    /// registration, and the scope never propagates back to the dispatch
    /// handle or to sibling handles.
    pub fn new(handle: Handle, ifindex: i32) -> (r: TrafficChainHandle)
        ensures
            r.conn_id() == handle.conn_id(),
            r.interface_index() == ifindex,
    {
        TrafficChainHandle { handle, ifindex }
    }

    /// The interface index this handle was constructed with.
    pub fn ifindex(&self) -> (r: i32)
        ensures
            r == self.interface_index(),
    {
        self.ifindex
    }

    /// Send one request through the owned dispatch handle and relay the
    /// reply stream. The interface scope is left untouched.
    pub fn request(&mut self, message: NetlinkMessage<RouteNetlinkMessage>) -> (r: Result<
        ReplyStream,
        Error,
    >)
        ensures
            final(self).conn_id() == old(self).conn_id(),
            final(self).interface_index() == old(self).interface_index(),
            r is Err ==> r->Err_0 == Error::RequestFailed,
    {
        self.handle.request(message)
    }

    /// Send one reply-less message through the owned dispatch handle. The
    /// interface scope is left untouched.
    pub fn notify(&mut self, message: NetlinkMessage<RouteNetlinkMessage>) -> (r: Result<
        (),
        Error,
    >)
        ensures
            final(self).conn_id() == old(self).conn_id(),
            final(self).interface_index() == old(self).interface_index(),
            r is Err ==> r->Err_0 == Error::RequestFailed,
    {
        self.handle.notify(message)
    }
}

} // verus!
