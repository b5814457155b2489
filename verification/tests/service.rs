use plumcast::hyparview_misc::{
    DisconnectMessage, ForwardJoinMessage, HyparviewMessage, JoinMessage, NeighborMessage,
    ShuffleMessage, ShuffleReplyMessage, TimeToLive,
};
use plumcast::message::{Message, MessageId};
use plumcast::metrics::{NodeMetrics, ServiceCounter};
use plumcast::node::{Node, NodeBuilder, SerialLocalNodeIdGenerator};
use plumcast::plumtree_misc::{
    GossipMessage, GraftMessage, IhaveMessage, PlumtreeAction, PlumtreeMessage, PruneMessage,
};
use plumcast::rpc::hyparview::{
    DisconnectCast, ForwardJoinCast, JoinCast, NeighborCast, ShuffleCast, ShuffleReplyCast,
};
use plumcast::rpc::plumtree::{GossipCast, GraftCast, GraftOptimizeCast, IhaveCast, PruneCast};
use plumcast::rpc::{
    decode_cast, encode_frame, exact_frame_len, Options, ProcedureId, RpcMessage,
};
use plumcast::service::{Command, Dispatch, Lookup, NodeHandle, Service, ServiceBuilder};
use plumcast::{ErrorKind, LocalNodeId, NodeId, SocketAddr};

type TestService = Service<u32, SerialLocalNodeIdGenerator>;

fn addr() -> SocketAddr {
    SocketAddr::v4(127, 0, 0, 1, 12121)
}

fn peer(local: u64) -> NodeId {
    NodeId::new(SocketAddr::v4(127, 0, 0, 1, 9001), LocalNodeId::new(local))
}

fn service() -> TestService {
    Service::new(addr(), SerialLocalNodeIdGenerator::new())
}

fn handle(local: u64) -> NodeHandle<u32> {
    NodeHandle::new(LocalNodeId::new(local), local as u32, NodeMetrics::new())
}

fn all_messages() -> Vec<RpcMessage> {
    let s = peer(1);
    let id = MessageId::new(peer(2), 3);
    vec![
        RpcMessage::Hyparview(HyparviewMessage::Join(JoinMessage { sender: s })),
        RpcMessage::Hyparview(HyparviewMessage::ForwardJoin(ForwardJoinMessage {
            sender: s,
            new_node: peer(4),
            ttl: TimeToLive::new(3),
        })),
        RpcMessage::Hyparview(HyparviewMessage::Neighbor(NeighborMessage {
            sender: s,
            high_priority: true,
        })),
        RpcMessage::Hyparview(HyparviewMessage::Neighbor(NeighborMessage {
            sender: s,
            high_priority: false,
        })),
        RpcMessage::Hyparview(HyparviewMessage::Shuffle(ShuffleMessage {
            sender: s,
            origin: peer(5),
            nodes: vec![peer(6), peer(7)],
            ttl: TimeToLive::new(1),
        })),
        RpcMessage::Hyparview(HyparviewMessage::ShuffleReply(ShuffleReplyMessage {
            sender: s,
            nodes: vec![peer(8)],
        })),
        RpcMessage::Hyparview(HyparviewMessage::Disconnect(DisconnectMessage {
            sender: s,
            alive: true,
        })),
        RpcMessage::Plumtree(PlumtreeMessage::Gossip(GossipMessage {
            sender: s,
            message: Message::new(id, b"hello".to_vec()),
            round: 2,
        })),
        RpcMessage::Plumtree(PlumtreeMessage::Ihave(IhaveMessage {
            sender: s,
            message_id: id,
            round: 1,
            realtime: true,
        })),
        RpcMessage::Plumtree(PlumtreeMessage::Graft(GraftMessage {
            sender: s,
            message_id: Some(id),
            round: 1,
        })),
        RpcMessage::Plumtree(PlumtreeMessage::Graft(GraftMessage {
            sender: s,
            message_id: None,
            round: 1,
        })),
        RpcMessage::Plumtree(PlumtreeMessage::Prune(PruneMessage { sender: s, round: 9 })),
    ]
}

#[test]
fn procedure_ids_are_pinned() {
    assert_eq!(JoinCast::ID, 0x17CC_0000);
    assert_eq!(ForwardJoinCast::ID, 0x17CC_0001);
    assert_eq!(NeighborCast::ID, 0x17CC_0002);
    assert_eq!(ShuffleCast::ID, 0x17CC_0003);
    assert_eq!(ShuffleReplyCast::ID, 0x17CC_0004);
    assert_eq!(DisconnectCast::ID, 0x17CC_0005);
    assert_eq!(GossipCast::ID, 0x17CD_0000);
    assert_eq!(IhaveCast::ID, 0x17CD_0001);
    assert_eq!(GraftCast::ID, 0x17CD_0002);
    assert_eq!(GraftOptimizeCast::ID, 0x17CD_0003);
    assert_eq!(PruneCast::ID, 0x17CD_0004);
    assert_eq!(JoinCast::NAME, "hyparview.join");
    assert_eq!(GraftOptimizeCast::NAME, "plumtree.graft.optimize");
}

#[test]
fn every_cast_decodes_to_its_message() {
    let service = service();
    let to = NodeId::new(SocketAddr::v4(10, 0, 0, 9, 4000), LocalNodeId::new(77));
    for message in all_messages() {
        let cast = service.handle().send_message(to, &message).unwrap();
        assert_eq!(cast.server, SocketAddr::v4(10, 0, 0, 9, 4000));
        assert_eq!(&cast.frame[..8], &[0, 0, 0, 0, 0, 0, 0, 77]);
        assert_eq!(exact_frame_len(&message), Some(cast.frame.len() as u64));
        assert_eq!(encode_frame(LocalNodeId::new(77), &message), Ok(cast.frame.clone()));
        assert_eq!(decode_cast(cast.procedure, &cast.frame), Ok((LocalNodeId::new(77), message)));
    }
}

#[test]
fn casts_go_to_the_procedure_of_their_kind() {
    let service = service();
    let ids: Vec<u32> = all_messages()
        .iter()
        .map(|m| service.handle().send_message(peer(9), m).unwrap().procedure.0)
        .collect();
    assert_eq!(
        ids,
        vec![
            0x17CC_0000, 0x17CC_0001, 0x17CC_0002, 0x17CC_0002, 0x17CC_0003, 0x17CC_0004,
            0x17CC_0005, 0x17CD_0000, 0x17CD_0001, 0x17CD_0002, 0x17CD_0003, 0x17CD_0004
        ]
    );
}

#[test]
fn casts_have_the_options_of_their_kind() {
    let service = service();
    let urgent = Options { max_queue_len: None, priority: 100, force_wakeup: true };
    let lazy = Options { max_queue_len: None, priority: 200, force_wakeup: false };
    let default = Options { max_queue_len: None, priority: 128, force_wakeup: false };
    let gossip = Options { max_queue_len: Some(4096), priority: 128, force_wakeup: false };
    let ihave = Options { max_queue_len: Some(4096), priority: 200, force_wakeup: false };
    assert_eq!(Options::default(), default);
    let options: Vec<Options> = all_messages()
        .iter()
        .map(|m| service.handle().send_message(peer(9), m).unwrap().options)
        .collect();
    assert_eq!(
        options,
        vec![
            urgent, urgent, urgent, default, lazy, lazy, default, gossip, ihave, default, default,
            default
        ]
    );
}

#[test]
fn unknown_procedure_is_invalid() {
    let service = service();
    let cast = service.handle().send_message(peer(9), &all_messages()[0]).unwrap();
    assert_eq!(
        decode_cast(ProcedureId(0x17CC_0006), &cast.frame).unwrap_err().kind(),
        ErrorKind::InvalidInput
    );
    // A frame of one kind is no frame of another kind.
    assert_eq!(
        decode_cast(ProcedureId(NeighborCast::ID), &cast.frame).unwrap_err().kind(),
        ErrorKind::InvalidInput
    );
}

#[test]
fn register_twice_is_inconsistent() {
    let mut service = service();
    assert_eq!(service.handle_command(Command::Register(handle(3))), Ok(()));
    assert_eq!(service.handle().metrics().registered_nodes(), 1);
    assert_eq!(
        service.handle_command(Command::Register(handle(3))).unwrap_err().kind(),
        ErrorKind::InconsistentState
    );
    assert_eq!(service.handle().metrics().registered_nodes(), 1);
    assert_eq!(service.handle().local_nodes(), vec![LocalNodeId::new(3)]);
}

#[test]
fn deregister_twice_is_inconsistent() {
    let mut service = service();
    assert_eq!(
        service.handle_command(Command::Deregister(LocalNodeId::new(3))).unwrap_err().kind(),
        ErrorKind::InconsistentState
    );
    service.handle_command(Command::Register(handle(3))).unwrap();
    assert_eq!(service.handle_command(Command::Deregister(LocalNodeId::new(3))), Ok(()));
    assert_eq!(service.handle().metrics().deregistered_nodes(), 1);
    assert_eq!(
        service.handle_command(Command::Deregister(LocalNodeId::new(3))).unwrap_err().kind(),
        ErrorKind::InconsistentState
    );
    assert_eq!(service.handle().metrics().deregistered_nodes(), 1);
    assert!(service.handle().local_nodes().is_empty());
    assert_eq!(service.handle().len(), 0);
}

#[test]
fn nodes_get_serial_identifiers_at_the_address_of_the_service() {
    let mut service = service();
    let (a, command) = Node::new(service.handle_mut(), 10u32);
    assert_eq!(a.id(), NodeId::new(addr(), LocalNodeId::new(0)));
    service.handle_command(command).unwrap();
    let (b, command) = NodeBuilder::new().finish(service.handle_mut(), 11u32);
    assert_eq!(b.id(), NodeId::new(addr(), LocalNodeId::new(1)));
    service.handle_command(command).unwrap();
    assert_eq!(service.handle().rpc_server_addr(), addr());

    let mut ids = service.handle().local_nodes();
    ids.sort();
    assert_eq!(ids, vec![LocalNodeId::new(0), LocalNodeId::new(1)]);
    let entry = service.handle().get_local_node(LocalNodeId::new(1)).unwrap();
    assert_eq!(entry.local_id(), LocalNodeId::new(1));
    assert_eq!(*entry.message_tx(), 11);
    assert!(service.handle().get_local_node(LocalNodeId::new(2)).is_none());
    assert_eq!(
        service.handle().register_local_node(handle(5)).local_id_of(),
        LocalNodeId::new(5)
    );
}

#[test]
fn stale_destination_is_answered_with_disconnect() {
    let mut service = service();
    service.handle_command(Command::Register(handle(3))).unwrap();
    service.handle_command(Command::Deregister(LocalNodeId::new(3))).unwrap();

    let join = RpcMessage::Hyparview(HyparviewMessage::Join(JoinMessage { sender: peer(1) }));
    let gone = RpcMessage::Hyparview(HyparviewMessage::Disconnect(DisconnectMessage {
        sender: NodeId::new(addr(), LocalNodeId::new(3)),
        alive: false,
    }));
    assert_eq!(
        service.handle_mut().handle_cast(LocalNodeId::new(3), join.clone()),
        Dispatch::Reply { peer: peer(1), message: gone.clone() }
    );
    assert_eq!(service.handle().metrics().destination_unknown_messages(), 1);
    assert_eq!(
        service.handle_mut().get_local_node_or_disconnect(LocalNodeId::new(3), &peer(1)),
        Lookup::Missing { reply: gone }
    );
    assert_eq!(service.handle().metrics().value(ServiceCounter::DestinationUnknownMessages), 2);

    service.handle_command(Command::Register(handle(4))).unwrap();
    assert_eq!(
        service.handle_mut().handle_cast(LocalNodeId::new(4), join.clone()),
        Dispatch::Deliver { local_id: LocalNodeId::new(4), message: join }
    );
    assert_eq!(
        service.handle_mut().get_local_node_or_disconnect(LocalNodeId::new(4), &peer(1)),
        Lookup::Found
    );
    assert_eq!(service.handle().metrics().destination_unknown_messages(), 2);
}

#[test]
fn disconnect_for_a_missing_node_is_dropped() {
    let mut service = service();
    let bye = RpcMessage::Hyparview(HyparviewMessage::Disconnect(DisconnectMessage {
        sender: peer(1),
        alive: false,
    }));
    assert_eq!(service.handle_mut().handle_cast(LocalNodeId::new(3), bye.clone()), Dispatch::Discard);
    assert_eq!(service.handle().metrics().destination_unknown_messages(), 0);
    service.handle_command(Command::Register(handle(3))).unwrap();
    assert_eq!(
        service.handle_mut().handle_cast(LocalNodeId::new(3), bye.clone()),
        Dispatch::Deliver { local_id: LocalNodeId::new(3), message: bye }
    );
}

#[test]
fn counters_of_removed_nodes_are_kept() {
    let mut service = service();
    let (mut node, command) = Node::new(service.handle_mut(), 0u32);
    service.handle_command(command).unwrap();
    node.broadcast(vec![1]);
    let message = Message::new(MessageId::new(node.id(), 0), vec![1]);
    node.handle_plumtree_action(PlumtreeAction::Deliver { message });
    let shutdown = node.shutdown(&Vec::new());
    assert!(service.handle_mut().record_node_metrics(shutdown.local_id, &shutdown.metrics));
    assert!(!service.handle_mut().record_node_metrics(LocalNodeId::new(99), &shutdown.metrics));
    service.handle_command(Command::Deregister(shutdown.local_id)).unwrap();
    assert_eq!(service.removed_nodes_metrics().broadcasted_messages(), 1);
    assert_eq!(service.removed_nodes_metrics().delivered_messages(), 1);
    assert_eq!(service.removed_nodes_metrics().forgot_messages(), 1);

    // A second node adds to the sums.
    let (mut node, command) = Node::new(service.handle_mut(), 0u32);
    service.handle_command(command).unwrap();
    node.broadcast(vec![2]);
    node.broadcast(vec![3]);
    assert!(service.handle_mut().record_node_metrics(node.id().local_id(), node.metrics()));
    // A report never takes a counter back.
    assert!(service.handle_mut().record_node_metrics(node.id().local_id(), &NodeMetrics::new()));
    service.shutdown();
    assert_eq!(service.removed_nodes_metrics().broadcasted_messages(), 3);
    assert_eq!(service.removed_nodes_metrics().delivered_messages(), 1);
    assert_eq!(service.handle().metrics().deregistered_nodes(), 2);
    assert_eq!(service.handle().metrics().registered_nodes(), 2);
    assert!(service.handle().local_nodes().is_empty());
}

#[test]
fn builder_makes_an_empty_service() {
    let service: TestService = ServiceBuilder::new(addr()).finish(SerialLocalNodeIdGenerator::with_offset(7));
    assert_eq!(service.handle().rpc_server_addr(), addr());
    assert_eq!(service.handle().len(), 0);
    assert_eq!(service.handle().metrics().registered_nodes(), 0);
    assert_eq!(*service.removed_nodes_metrics(), NodeMetrics::new());
    assert_eq!(
        service.handle().deregister_local_node(LocalNodeId::new(5)).local_id_of(),
        LocalNodeId::new(5)
    );
}
