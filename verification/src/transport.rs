//! The trusted boundary to the transport collaborator.
//!
//! Everything this crate assumes about `netlink_proto` is collected here:
//! the declarations of its types and the wrappers around the calls that the
//! dispatch layer makes. Each wrapper's doc comment names the function it
//! relies on.

use vstd::prelude::*;

use futures::StreamExt;

use crate::addr::Destination;
use netlink_packet_core::NetlinkMessage;
use netlink_packet_route::RouteNetlinkMessage;
use netlink_proto::sys::SocketAddr;
use netlink_proto::ConnectionHandle;
use netlink_proto::Error as ProtoError;

verus! {

/// The transport's own handle to the connection task; opaque here.
#[verifier::external_type_specification]
#[verifier::external_body]
#[verifier::reject_recursive_types(T)]
pub struct ExConnectionHandle<T: std::fmt::Debug>(ConnectionHandle<T>);

/// A netlink message envelope; this layer never looks inside one.
#[verifier::external_type_specification]
#[verifier::external_body]
#[verifier::reject_recursive_types(I)]
pub struct ExNetlinkMessage<I>(NetlinkMessage<I>);

/// The routing-protocol message family carried in the envelopes; opaque here.
#[verifier::external_type_specification]
#[verifier::external_body]
pub struct ExRouteNetlinkMessage(RouteNetlinkMessage);

/// The transport's error type; the dispatch layer collapses every value of
/// it into its one uniform error.
#[verifier::external_type_specification]
#[verifier::external_body]
#[verifier::reject_recursive_types(T)]
pub struct ExProtoError<T>(ProtoError<T>);

/// The lazy, finite stream of replies correlated with one request.
///
/// The transport hands the replies back behind an `impl Stream` whose
/// concrete type cannot be named, so the stream is held here behind an
/// opaque wrapper. It terminates when the transport observes a single
/// non-multipart reply or the terminal marker of a multipart one, and it is
/// not restartable. Dropping it merely abandons interest in the remaining
/// replies; the request itself was already sent.
#[verifier::external_body]
pub struct ReplyStream {
    inner: std::pin::Pin<
        Box<dyn futures::Stream<Item = NetlinkMessage<RouteNetlinkMessage>>>,
    >,
}

impl ReplyStream {
    /// Relies on `futures::StreamExt::next`, driven by
    /// `futures::executor::block_on`: waits for the next correlated reply,
    /// and returns `None` once the transport has terminated the stream.
    /// Which replies arrive, and when, is the kernel's and the transport's
    /// affair, so nothing is stated of the result.
    #[verifier::external_body]
    pub fn next_reply(&mut self) -> (r: Option<NetlinkMessage<RouteNetlinkMessage>>) {
        futures::executor::block_on(self.inner.next())
    }
}

/// Relies on `netlink_proto::ConnectionHandle::request`: it queues `message`
/// on the shared connection, addressed to `dest`, and returns the stream of
/// replies carrying the request's correlation id, or an error when the
/// connection task has shut down. Whether the send is accepted is the
/// transport's decision, so nothing is promised of the outcome. The
/// `requires` clause pins this layer's addressing rule: only the kernel
/// unicast endpoint is ever handed down.
#[verifier::external_body]
pub(crate) fn conn_request(
    conn: &ConnectionHandle<RouteNetlinkMessage>,
    message: NetlinkMessage<RouteNetlinkMessage>,
    dest: Destination,
) -> (r: Result<ReplyStream, ProtoError<RouteNetlinkMessage>>)
    requires
        dest.is_kernel_unicast(),
{
    match conn.request(message, SocketAddr::new(dest.port, dest.groups)) {
        Ok(stream) => Ok(ReplyStream { inner: Box::pin(stream) }),
        Err(e) => Err(e),
    }
}

/// Relies on `netlink_proto::ConnectionHandle::notify`: it queues `message`
/// on the shared connection, addressed to `dest`, without correlating a
/// reply, and returns an error when the connection task has shut down. As
/// with `conn_request`, the `requires` clause pins the kernel-unicast
/// addressing rule.
#[verifier::external_body]
pub(crate) fn conn_notify(
    conn: &ConnectionHandle<RouteNetlinkMessage>,
    message: NetlinkMessage<RouteNetlinkMessage>,
    dest: Destination,
) -> (r: Result<(), ProtoError<RouteNetlinkMessage>>)
    requires
        dest.is_kernel_unicast(),
{
    conn.notify(message, SocketAddr::new(dest.port, dest.groups))
}

/// Relies on `netlink_proto::ConnectionHandle::clone`: the clone refers to
/// the same underlying connection, socket and outstanding-request table as
/// the original. Nothing is stated of the returned value; the dispatch
/// layer tracks connection identity itself.
#[verifier::external_body]
pub(crate) fn conn_clone(
    conn: &ConnectionHandle<RouteNetlinkMessage>,
) -> (r: ConnectionHandle<RouteNetlinkMessage>) {
    conn.clone()
}

} // verus!
