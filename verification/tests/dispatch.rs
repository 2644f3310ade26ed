//! End-to-end tests of the dispatch layer against the real transport: a
//! netlink route connection driven on a background executor, with the
//! kernel itself answering the dump requests.

use futures::executor::ThreadPool;
use netlink_packet_core::NetlinkHeader;
use netlink_packet_core::NetlinkMessage;
use netlink_packet_core::NetlinkPayload;
use netlink_packet_core::NLM_F_DUMP;
use netlink_packet_core::NLM_F_REQUEST;
use netlink_packet_route::link::LinkMessage;
use netlink_packet_route::route::RouteMessage;
use netlink_packet_route::RouteNetlinkMessage;
use netlink_proto::sys::protocols::NETLINK_ROUTE;
use netlink_proto::sys::SmolSocket;

use rtnetlink::Destination;
use rtnetlink::Error;
use rtnetlink::Handle;
use rtnetlink::ReplyStream;

fn dump_message(inner: RouteNetlinkMessage) -> NetlinkMessage<RouteNetlinkMessage> {
    let mut header = NetlinkHeader::default();
    header.flags = NLM_F_REQUEST | NLM_F_DUMP;
    let mut message = NetlinkMessage::new(header, NetlinkPayload::from(inner));
    message.finalize();
    message
}

fn dump_links() -> NetlinkMessage<RouteNetlinkMessage> {
    dump_message(RouteNetlinkMessage::GetLink(LinkMessage::default()))
}

fn dump_routes() -> NetlinkMessage<RouteNetlinkMessage> {
    dump_message(RouteNetlinkMessage::GetRoute(RouteMessage::default()))
}

/// Open a real netlink route connection and drive it on a background
/// executor. The pool must stay alive for as long as the handle is used.
fn start_connection() -> (ThreadPool, Handle) {
    let (conn, proto_handle, _unsolicited) = netlink_proto::new_connection_with_socket::<
        RouteNetlinkMessage,
        SmolSocket,
    >(NETLINK_ROUTE)
    .expect("failed to open a netlink route socket");
    let pool = ThreadPool::new().expect("failed to start the connection driver");
    pool.spawn_ok(conn);
    (pool, Handle::new(proto_handle))
}

/// A handle whose connection was dropped before it could serve anything:
/// every send through it is rejected by the transport.
fn dead_handle() -> Handle {
    let (conn, proto_handle, _unsolicited) = netlink_proto::new_connection_with_socket::<
        RouteNetlinkMessage,
        SmolSocket,
    >(NETLINK_ROUTE)
    .expect("failed to open a netlink route socket");
    drop(conn);
    Handle::new(proto_handle)
}

fn drain(stream: &mut ReplyStream) -> usize {
    let mut count: usize = 0;
    while let Some(_reply) = stream.next_reply() {
        count += 1;
    }
    count
}

#[test]
fn kernel_unicast_destination_is_zero_zero() {
    let d = Destination::kernel_unicast();
    assert_eq!(d.port, 0);
    assert_eq!(d.groups, 0);
}

#[test]
fn request_yields_replies_and_terminates() {
    let (_pool, mut handle) = start_connection();
    let mut replies = handle.request(dump_links()).expect("send should be accepted");
    // Every machine has at least the loopback link, and the dump ends with
    // the terminal marker, so the stream is finite.
    assert!(drain(&mut replies) >= 1);
}

#[test]
fn notify_returns_once_queued() {
    let (_pool, mut handle) = start_connection();
    handle.notify(dump_links()).expect("send should be accepted");
}

#[test]
fn every_factory_dispatches_through_the_shared_connection() {
    let (_pool, handle) = start_connection();
    // One subsystem handle per factory, all cloned from the same dispatch
    // handle; a request through any of them reaches the one shared
    // transport and is answered.
    let mut counts: Vec<usize> = Vec::new();
    let mut s = handle.link().request(dump_links()).expect("link");
    counts.push(drain(&mut s));
    let mut s = handle.address().request(dump_links()).expect("address");
    counts.push(drain(&mut s));
    let mut s = handle.route().request(dump_links()).expect("route");
    counts.push(drain(&mut s));
    let mut s = handle.rule().request(dump_links()).expect("rule");
    counts.push(drain(&mut s));
    let mut s = handle.neighbours().request(dump_links()).expect("neighbours");
    counts.push(drain(&mut s));
    let mut s = handle.qdisc().request(dump_links()).expect("qdisc");
    counts.push(drain(&mut s));
    let mut s = handle.traffic_class(1).request(dump_links()).expect("traffic_class");
    counts.push(drain(&mut s));
    let mut s = handle.traffic_filter(1).request(dump_links()).expect("traffic_filter");
    counts.push(drain(&mut s));
    let mut s = handle.traffic_chain(1).request(dump_links()).expect("traffic_chain");
    counts.push(drain(&mut s));
    for count in counts {
        assert!(count >= 1);
    }
}

#[test]
fn link_then_route_on_one_dispatch_handle() {
    let (_pool, handle) = start_connection();
    let mut link = handle.link();
    let mut route = handle.route();
    let mut link_replies = link.request(dump_links()).expect("link send");
    assert!(drain(&mut link_replies) >= 1);
    let mut route_replies = route.request(dump_routes()).expect("route send");
    // The route table may be empty here; what matters is that the stream
    // terminates instead of hanging.
    drain(&mut route_replies);
}

#[test]
fn cloned_handles_reach_the_same_connection() {
    let (_pool, handle) = start_connection();
    let mut first = handle.clone();
    let mut second = handle.clone();
    let mut s1 = first.request(dump_links()).expect("first clone send");
    assert!(drain(&mut s1) >= 1);
    let mut s2 = second.request(dump_links()).expect("second clone send");
    assert!(drain(&mut s2) >= 1);
}

#[test]
fn interleaved_requests_get_independent_reply_streams() {
    let (_pool, handle) = start_connection();
    let mut first = handle.clone();
    let mut second = handle.clone();
    // Issue both requests before consuming either reply stream.
    let mut s1 = first.request(dump_links()).expect("first send");
    let mut s2 = second.request(dump_links()).expect("second send");
    // Interleave the consumption: one reply from the first stream, then
    // the whole second stream, then the rest of the first.
    let first_reply = s1.next_reply();
    assert!(first_reply.is_some());
    assert!(drain(&mut s2) >= 1);
    drain(&mut s1);
}

#[test]
fn dropped_reply_stream_leaves_others_untouched() {
    let (_pool, handle) = start_connection();
    let mut first = handle.clone();
    let mut second = handle.clone();
    let abandoned = first.request(dump_links()).expect("first send");
    let mut kept = second.request(dump_links()).expect("second send");
    // Abandoning one reply stream before exhaustion must not block, and
    // must not disturb the other stream or later requests.
    drop(abandoned);
    assert!(drain(&mut kept) >= 1);
    let mut later = first.request(dump_links()).expect("later send");
    assert!(drain(&mut later) >= 1);
}

#[test]
fn rejected_send_returns_the_uniform_error() {
    let mut handle = dead_handle();
    match handle.request(dump_links()) {
        Err(Error::RequestFailed) => {}
        Ok(_) => panic!("request should be rejected on a closed connection"),
    }
    match handle.notify(dump_links()) {
        Err(Error::RequestFailed) => {}
        Ok(_) => panic!("notify should be rejected on a closed connection"),
    }
    // No partial state is left behind: the handle is still usable and
    // fails the same way again, and its subsystem handles fail alike.
    match handle.request(dump_links()) {
        Err(Error::RequestFailed) => {}
        Ok(_) => panic!("request should still be rejected"),
    }
    let mut link = handle.link();
    match link.request(dump_links()) {
        Err(Error::RequestFailed) => {}
        Ok(_) => panic!("subsystem request should be rejected too"),
    }
    match link.notify(dump_links()) {
        Err(Error::RequestFailed) => {}
        Ok(_) => panic!("subsystem notify should be rejected too"),
    }
}
