//! Tests of the interface-scoped traffic-control handles: the interface
//! index is fixed at construction, survives every operation, and never
//! leaks between siblings or back to the dispatch handle.

use netlink_packet_core::NetlinkHeader;
use netlink_packet_core::NetlinkMessage;
use netlink_packet_core::NetlinkPayload;
use netlink_packet_core::NLM_F_DUMP;
use netlink_packet_core::NLM_F_REQUEST;
use netlink_packet_route::link::LinkMessage;
use netlink_packet_route::RouteNetlinkMessage;
use netlink_proto::sys::protocols::NETLINK_ROUTE;
use netlink_proto::sys::SmolSocket;

use rtnetlink::Error;
use rtnetlink::Handle;

fn dump_links() -> NetlinkMessage<RouteNetlinkMessage> {
    let mut header = NetlinkHeader::default();
    header.flags = NLM_F_REQUEST | NLM_F_DUMP;
    let mut message = NetlinkMessage::new(
        header,
        NetlinkPayload::from(RouteNetlinkMessage::GetLink(LinkMessage::default())),
    );
    message.finalize();
    message
}

fn dead_handle() -> Handle {
    let (conn, proto_handle, _unsolicited) = netlink_proto::new_connection_with_socket::<
        RouteNetlinkMessage,
        SmolSocket,
    >(NETLINK_ROUTE)
    .expect("failed to open a netlink route socket");
    drop(conn);
    Handle::new(proto_handle)
}

#[test]
fn traffic_handles_keep_their_interface_index() {
    let handle = dead_handle();
    let class = handle.traffic_class(7);
    let filter = handle.traffic_filter(9);
    let chain = handle.traffic_chain(11);
    assert_eq!(class.ifindex(), 7);
    assert_eq!(filter.ifindex(), 9);
    assert_eq!(chain.ifindex(), 11);
}

#[test]
fn interface_index_survives_requests_and_failures() {
    let handle = dead_handle();
    let mut class = handle.traffic_class(7);
    // The transport rejects the sends, and the scope is untouched by the
    // failed request and notify alike.
    match class.request(dump_links()) {
        Err(Error::RequestFailed) => {}
        Ok(_) => panic!("request should be rejected on a closed connection"),
    }
    assert_eq!(class.ifindex(), 7);
    match class.notify(dump_links()) {
        Err(Error::RequestFailed) => {}
        Ok(_) => panic!("notify should be rejected on a closed connection"),
    }
    assert_eq!(class.ifindex(), 7);
}

#[test]
fn siblings_do_not_share_their_scope() {
    let handle = dead_handle();
    let class = handle.traffic_class(3);
    let sibling = handle.traffic_class(5);
    let filter = handle.traffic_filter(8);
    assert_eq!(class.ifindex(), 3);
    assert_eq!(sibling.ifindex(), 5);
    assert_eq!(filter.ifindex(), 8);
    // A later handle from the same parent starts from its own scope, and
    // the earlier ones are unmoved.
    let late = handle.traffic_chain(2);
    assert_eq!(late.ifindex(), 2);
    assert_eq!(class.ifindex(), 3);
    assert_eq!(sibling.ifindex(), 5);
}
