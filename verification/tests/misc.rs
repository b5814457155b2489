use plumcast::clock::Clock;
use plumcast::hyparview_misc::{
    DisconnectMessage, HyparviewMessage, HyparviewNodeOptions, JoinMessage,
};
use plumcast::metrics::{
    node_counters, service_counters, NodeCounter, NodeMetrics, ServiceCounter, ServiceMetrics,
    NAMESPACE,
};
use plumcast::node::{GenerateLocalNodeId, UnixtimeLocalNodeIdGenerator};
use plumcast::plumtree_misc::PlumtreeNodeOptions;
use plumcast::rpc::hyparview::NeighborCast;
use plumcast::rpc::{ProcedureId, RpcMessage};
use plumcast::service::{Command, Dispatch, Service, ServiceEvent};
use plumcast::time::Duration;
use plumcast::{Error, ErrorKind, LocalNodeId, NodeId, RpcErrorKind, SocketAddr};

#[test]
fn metric_names() {
    assert_eq!(NAMESPACE, "plumcast");
    assert_eq!(ServiceCounter::subsystem(), "service");
    assert_eq!(ServiceCounter::RegisteredNodes.name(), "registered_nodes_total");
    assert_eq!(ServiceCounter::DeregisteredNodes.name(), "deregistered_nodes_total");
    assert_eq!(
        ServiceCounter::DestinationUnknownMessages.name(),
        "destination_unknown_messages_total"
    );
    assert_eq!(NodeCounter::subsystem(), "node");
    assert_eq!(service_counters().len(), 3);
    assert_eq!(ServiceCounter::RegisteredNodes.help(), "Number of nodes registered so far");
    assert_eq!(NodeCounter::ForgotMessages.help(), "Number of messages forgot so far");
    assert_eq!(NodeCounter::UnknownPlumtreeNodeErrors.help(), "Number of errors happened so far");
    let names: Vec<(&str, Option<&str>)> =
        node_counters().iter().map(|c| (c.name(), c.kind())).collect();
    assert_eq!(
        names,
        vec![
            ("broadcasted_messages_total", None),
            ("forgot_messages_total", None),
            ("delivered_messages_total", None),
            ("connected_neighbors_total", None),
            ("disconnected_neighbors_total", None),
            ("isolated_times_total", None),
            ("deisolated_times_total", None),
            ("errors_total", Some("forget_unknown_message")),
            ("errors_total", Some("cannot_send_hyparview_message")),
            ("errors_total", Some("cannot_send_plumtree_message")),
            ("errors_total", Some("unknown_plumtree_node")),
        ]
    );
}

#[test]
fn new_counters_are_zero() {
    let m = NodeMetrics::new();
    assert_eq!(m.broadcasted_messages(), 0);
    assert_eq!(m.forgot_messages(), 0);
    assert_eq!(m.delivered_messages(), 0);
    assert_eq!(m.connected_neighbors(), 0);
    assert_eq!(m.disconnected_neighbors(), 0);
    assert_eq!(m.isolated_times(), 0);
    assert_eq!(m.deisolated_times(), 0);
    assert_eq!(m.forget_unknown_message_errors(), 0);
    assert_eq!(m.cannot_send_hyparview_message_errors(), 0);
    assert_eq!(m.cannot_send_plumtree_message_errors(), 0);
    assert_eq!(m.unknown_plumtree_node_errors(), 0);
    let s = ServiceMetrics::new();
    assert_eq!(s.registered_nodes(), 0);
    assert_eq!(s.deregistered_nodes(), 0);
    assert_eq!(s.destination_unknown_messages(), 0);
    assert_eq!(s.value(ServiceCounter::RegisteredNodes), 0);
}

#[test]
fn durations() {
    assert_eq!(Duration::from_millis(1500), Duration::from_parts(1, 500_000_000).unwrap());
    assert_eq!(Duration::from_parts(1, 1_000_000_000), None);
    assert_eq!(Duration::from_secs(2).as_secs(), 2);
    let d = Duration::from_millis(2750);
    assert_eq!(d.as_secs(), 2);
    assert_eq!(d.subsec_millis(), 750);
    assert_eq!(d.subsec_nanos(), 750_000_000);
    assert_eq!(d.whole_millis(), 2750);
    assert_eq!(Duration::from_secs(u64::MAX).whole_millis(), u64::MAX);
    assert_eq!(Duration::zero(), Duration::from_secs(0));
    assert_eq!(
        Duration::from_millis(700).saturating_add(Duration::from_millis(800)),
        Duration::from_millis(1500)
    );
    let top = Duration::from_parts(u64::MAX, 999_999_999).unwrap();
    assert_eq!(Duration::from_secs(u64::MAX).saturating_add(Duration::from_secs(1)), top);
    assert_eq!(top.saturating_add(top), top);
    assert!(Duration::from_millis(1001).ge(&Duration::from_secs(1)));
    assert!(Duration::from_secs(1).ge(&Duration::from_secs(1)));
    assert!(!Duration::from_millis(999).ge(&Duration::from_secs(1)));
}

#[test]
fn clock_ticks() {
    let mut clock = Clock::new(Duration::from_millis(200));
    assert_eq!(clock.ticks(), 0);
    assert_eq!(clock.now(), Duration::zero());
    clock.tick();
    clock.tick();
    assert_eq!(clock.ticks(), 2);
    assert_eq!(clock.tick_interval(), Duration::from_millis(200));
    assert_eq!(clock.now(), Duration::from_millis(400));
}

#[test]
fn transport_failures_map_to_error_kinds() {
    assert_eq!(Error::from_rpc(RpcErrorKind::InvalidInput).kind(), ErrorKind::InvalidInput);
    assert_eq!(Error::from_rpc(RpcErrorKind::Timeout).kind(), ErrorKind::Other);
    assert_eq!(Error::from_rpc(RpcErrorKind::Unavailable).kind(), ErrorKind::Other);
    assert_eq!(Error::from_rpc(RpcErrorKind::Other).kind(), ErrorKind::Other);
    assert_eq!(Error::new(ErrorKind::InconsistentState).kind(), ErrorKind::InconsistentState);
}

#[test]
fn default_options() {
    let h = HyparviewNodeOptions::default();
    assert_eq!(
        (
            h.max_active_view_size,
            h.max_passive_view_size,
            h.shuffle_active_view_size,
            h.shuffle_passive_view_size,
            h.active_random_walk_len,
            h.passive_random_walk_len
        ),
        (4, 24, 2, 2, 5, 2)
    );
    let p = PlumtreeNodeOptions::default();
    assert_eq!(p.ihave_timeout, Duration::from_millis(500));
    assert_eq!(p.optimization_threshold, 2);
}

#[test]
fn unixtime_ids_are_made_of_time_and_count() {
    let mut generator = UnixtimeLocalNodeIdGenerator::new();
    assert_eq!(generator.generate_at(1, 2).value(), 1_000_002_000);
    assert_eq!(generator.generate_at(1, 2).value(), 1_000_002_001);
    assert_eq!(generator.generate_at(1_700_000_000, 999_999).value(), 1_700_000_000_999_999_002);
    // Beyond 64 bits the identifier is cut.
    assert_eq!(generator.generate_at(18_446_744_074, 0).value(), 290_448_387);
    let now = generator.generate_local_node_id().value();
    assert!(now > 1_600_000_000_000_000_000);
    assert_eq!(now % 1000, 4);
}

#[test]
fn sender_of_messages() {
    let a = NodeId::new(SocketAddr::v4(1, 2, 3, 4, 5), LocalNodeId::new(6));
    let m = RpcMessage::Hyparview(HyparviewMessage::Join(JoinMessage { sender: a }));
    assert_eq!(m.sender(), a);
    assert_eq!(a.address().port(), 5);
    assert!(a.address().is_ipv4());
}

#[test]
fn service_ends_with_its_transport() {
    let mut service: Service<(), plumcast::node::SerialLocalNodeIdGenerator> =
        Service::new(SocketAddr::v4(0, 0, 0, 0, 1), plumcast::node::SerialLocalNodeIdGenerator::new());
    assert_eq!(service.handle_event(ServiceEvent::ClientTerminated).unwrap_err().kind(), ErrorKind::Other);
    assert_eq!(service.handle_event(ServiceEvent::ServerTerminated).unwrap_err().kind(), ErrorKind::Other);
    assert_eq!(
        service
            .handle_event(ServiceEvent::Command(Command::Deregister(LocalNodeId::new(0))))
            .unwrap_err()
            .kind(),
        ErrorKind::InconsistentState
    );
}

#[test]
fn broken_frames_are_dropped_without_counting() {
    let mut service: Service<(), plumcast::node::SerialLocalNodeIdGenerator> =
        Service::new(SocketAddr::v4(0, 0, 0, 0, 1), plumcast::node::SerialLocalNodeIdGenerator::new());
    let sender = NodeId::new(SocketAddr::v4(1, 2, 3, 4, 5), LocalNodeId::new(6));
    let cast = service
        .handle()
        .send_message(
            NodeId::new(SocketAddr::v4(0, 0, 0, 0, 1), LocalNodeId::new(9)),
            &RpcMessage::Hyparview(HyparviewMessage::Join(JoinMessage { sender })),
        )
        .unwrap();
    assert_eq!(
        service.handle_mut().handle_frame(ProcedureId(NeighborCast::ID), &cast.frame),
        Dispatch::Discard
    );
    assert_eq!(service.handle().metrics().destination_unknown_messages(), 0);
    assert_eq!(
        service.handle_mut().handle_frame(cast.procedure, &cast.frame),
        Dispatch::Reply {
            peer: sender,
            message: RpcMessage::Hyparview(HyparviewMessage::Disconnect(DisconnectMessage {
                sender: NodeId::new(SocketAddr::v4(0, 0, 0, 0, 1), LocalNodeId::new(9)),
                alive: false,
            })),
        }
    );
    assert_eq!(service.handle().metrics().destination_unknown_messages(), 1);
}
