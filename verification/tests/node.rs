use plumcast::hyparview_misc::{
    DisconnectMessage, HyparviewAction, HyparviewEvent, HyparviewMessage, HyparviewNodeOptions,
    JoinMessage,
};
use plumcast::message::{Message, MessageId};
use plumcast::metrics::NodeCounter;
use plumcast::node::{
    gen_interval, jittered_interval, HyparviewCall, Instruction, MailboxEvent, Node, NodeBuilder,
    Outcome, PlumtreeCall, Poll, PollSource,
};
use plumcast::plumtree_misc::{
    IhaveMessage, PlumtreeAction, PlumtreeMessage, PlumtreeNodeOptions,
};
use plumcast::rpc::RpcMessage;
use plumcast::time::Duration;
use plumcast::{ErrorKind, LocalNodeId, NodeId, SocketAddr};

fn id(port: u16, local: u64) -> NodeId {
    NodeId::new(SocketAddr::v4(127, 0, 0, 1, port), LocalNodeId::new(local))
}

fn new_node() -> Node {
    NodeBuilder::new().finish_with(id(9000, 1), 0, 0, 0)
}

fn ihave(sender: NodeId) -> PlumtreeMessage {
    PlumtreeMessage::Ihave(IhaveMessage {
        sender,
        message_id: MessageId::new(sender, 0),
        round: 0,
        realtime: false,
    })
}

#[test]
fn single_node_broadcast_is_delivered_with_seqno_zero() {
    let mut node = new_node();
    let instruction = node.broadcast(b"hello".to_vec());
    let message = match instruction {
        Instruction::Plumtree(PlumtreeCall::BroadcastMessage(m)) => m,
        other => panic!("{:?}", other),
    };
    assert_eq!(message.id().seqno(), 0);
    assert_eq!(*message.id().node(), id(9000, 1));
    assert_eq!(message.payload(), &b"hello".to_vec());
    assert_eq!(node.metrics().broadcasted_messages(), 1);

    // The tree hands the message back to the node that sent it.
    let step = node.poll_plumtree(Some(PlumtreeAction::Deliver { message: message.clone() }));
    assert!(step.instructions.is_empty());
    assert_eq!(step.poll, Poll::Ready(message));
    assert_eq!(node.metrics().delivered_messages(), 1);
}

#[test]
fn sequence_numbers_increase() {
    let mut node = new_node();
    let mut last = None;
    for expected in 0..5u64 {
        match node.broadcast(vec![0xde, 0xad]) {
            Instruction::Plumtree(PlumtreeCall::BroadcastMessage(m)) => {
                assert_eq!(m.id().seqno(), expected);
                assert_eq!(m.into_payload(), vec![0xde, 0xad]);
                if let Some(l) = last {
                    assert!(l < expected);
                }
                last = Some(expected);
            }
            other => panic!("{:?}", other),
        }
    }
    assert_eq!(node.message_seqno(), 5);
    assert_eq!(node.metrics().broadcasted_messages(), 5);
}

#[test]
fn join_asks_the_membership_protocol() {
    let node = new_node();
    assert_eq!(
        node.join(id(9001, 7)),
        Instruction::Hyparview(HyparviewCall::Join { contact_node: id(9001, 7) })
    );
}

#[test]
fn forget_unknown_message_is_counted_as_an_error() {
    let mut node = new_node();
    let message_id = MessageId::new(id(9000, 1), 3);
    assert_eq!(
        node.forget_message(&message_id),
        Instruction::Plumtree(PlumtreeCall::ForgetMessage(message_id))
    );
    node.handle_forget_result(false);
    assert_eq!(node.metrics().forget_unknown_message_errors(), 1);
    assert_eq!(node.metrics().forgot_messages(), 0);
    node.handle_forget_result(true);
    assert_eq!(node.metrics().forget_unknown_message_errors(), 1);
    assert_eq!(node.metrics().forgot_messages(), 1);
}

#[test]
fn isolation_is_counted() {
    let mut node = new_node();
    let peer = id(9001, 2);
    let up = HyparviewAction::Notify { event: HyparviewEvent::NeighborUp { node: peer } };
    let down = HyparviewAction::Notify { event: HyparviewEvent::NeighborDown { node: peer } };

    let i = node.handle_hyparview_action(up.clone(), 1);
    assert_eq!(i, Some(Instruction::Plumtree(PlumtreeCall::HandleNeighborUp { node: peer })));
    assert_eq!(node.metrics().connected_neighbors(), 1);
    assert_eq!(node.metrics().deisolated_times(), 1);
    assert_eq!(node.metrics().isolated_times(), 0);

    let i = node.handle_hyparview_action(down, 0);
    assert_eq!(i, Some(Instruction::Plumtree(PlumtreeCall::HandleNeighborDown { node: peer })));
    assert_eq!(node.metrics().disconnected_neighbors(), 1);
    assert_eq!(node.metrics().isolated_times(), 1);

    node.handle_hyparview_action(up, 1);
    assert_eq!(node.metrics().deisolated_times(), 2);
    assert_eq!(node.metrics().connected_neighbors(), 2);
}

#[test]
fn a_second_neighbor_ends_no_isolation() {
    let mut node = new_node();
    let up = HyparviewAction::Notify { event: HyparviewEvent::NeighborUp { node: id(9001, 2) } };
    node.handle_hyparview_action(up, 2);
    assert_eq!(node.metrics().connected_neighbors(), 1);
    assert_eq!(node.metrics().deisolated_times(), 0);
    let down = HyparviewAction::Notify { event: HyparviewEvent::NeighborDown { node: id(9001, 2) } };
    node.handle_hyparview_action(down, 1);
    assert_eq!(node.metrics().disconnected_neighbors(), 1);
    assert_eq!(node.metrics().isolated_times(), 0);
}

#[test]
fn membership_messages_are_sent_and_failures_disconnect() {
    let mut node = new_node();
    let peer = id(9001, 2);
    let message = HyparviewMessage::Join(JoinMessage { sender: id(9000, 1) });
    let action = HyparviewAction::Send { destination: peer, message: message.clone() };
    let sent = RpcMessage::Hyparview(message);
    assert_eq!(
        node.handle_hyparview_action(action, 0),
        Some(Instruction::Send { destination: peer, message: sent.clone() })
    );
    assert_eq!(
        node.handle_send_failure(peer, &sent),
        Instruction::Hyparview(HyparviewCall::Disconnect { node: peer, alive: false })
    );
    assert_eq!(node.metrics().cannot_send_hyparview_message_errors(), 1);
    assert_eq!(node.metrics().cannot_send_plumtree_message_errors(), 0);
    assert_eq!(node.handle_hyparview_action(HyparviewAction::Disconnect { node: peer }, 0), None);
}

#[test]
fn tree_messages_are_sent_and_failures_disconnect() {
    let mut node = new_node();
    let peer = id(9001, 2);
    let message = ihave(id(9000, 1));
    let outcome =
        node.handle_plumtree_action(PlumtreeAction::Send { destination: peer, message: message.clone() });
    let sent = RpcMessage::Plumtree(message);
    assert_eq!(outcome, Outcome::Do(Instruction::Send { destination: peer, message: sent.clone() }));
    assert_eq!(node.metrics().delivered_messages(), 0);
    assert_eq!(
        node.handle_send_failure(peer, &sent),
        Instruction::Hyparview(HyparviewCall::Disconnect { node: peer, alive: false })
    );
    assert_eq!(node.metrics().cannot_send_plumtree_message_errors(), 1);
    assert_eq!(node.metrics().cannot_send_hyparview_message_errors(), 0);
}

#[test]
fn messages_from_other_nodes_go_to_their_protocol() {
    let mut node = new_node();
    let join = HyparviewMessage::Join(JoinMessage { sender: id(9001, 2) });
    assert_eq!(
        node.handle_rpc_message(RpcMessage::Hyparview(join.clone())),
        Instruction::Hyparview(HyparviewCall::HandleProtocolMessage(join))
    );
    let m = ihave(id(9001, 2));
    assert_eq!(
        node.handle_rpc_message(RpcMessage::Plumtree(m.clone())),
        Instruction::Plumtree(PlumtreeCall::HandleProtocolMessage(m))
    );
    node.handle_protocol_message_result(true);
    assert_eq!(node.metrics().unknown_plumtree_node_errors(), 0);
    node.handle_protocol_message_result(false);
    assert_eq!(node.metrics().unknown_plumtree_node_errors(), 1);
}

#[test]
fn jitter_is_under_a_tenth_of_the_interval() {
    let base = Duration::from_secs(30);
    assert_eq!(jittered_interval(base, 0), Duration::from_secs(30));
    assert_eq!(jittered_interval(base, 2999), Duration::from_millis(32_999));
    assert_eq!(jittered_interval(base, 3000), Duration::from_secs(30));
    assert_eq!(jittered_interval(base, 3001), Duration::from_millis(30_001));
    // Under ten milliseconds there is no room for jitter.
    assert_eq!(jittered_interval(Duration::from_millis(9), 12345), Duration::from_millis(9));
    for _ in 0..100 {
        let d = gen_interval(base);
        assert!(d.ge(&base));
        assert!(!d.ge(&Duration::from_secs(33)));
    }
}

#[test]
fn ticks_run_the_periodic_tasks_when_due() {
    let mut node = NodeBuilder::new()
        .tick_interval(Duration::from_secs(10))
        .hyparview_shuffle_interval(Duration::from_secs(25))
        .hyparview_sync_active_view_interval(Duration::from_secs(20))
        .hyparview_fill_active_view_interval(Duration::from_secs(10))
        .finish_with(id(9000, 1), 0, 0, 0);
    let tick = Instruction::Plumtree(PlumtreeCall::Tick(Duration::from_secs(10)));
    let shuffle = Instruction::Hyparview(HyparviewCall::ShufflePassiveView);
    let sync = Instruction::Hyparview(HyparviewCall::SyncActiveView);
    let fill = Instruction::Hyparview(HyparviewCall::FillActiveView);

    // At 10 s the fill is due; with a jitter of 500 ms it comes again at 20.5 s.
    assert_eq!(node.handle_tick_with(0, 0, 500), vec![tick.clone(), fill.clone()]);
    assert_eq!(node.clock().ticks(), 1);
    assert_eq!(node.clock().now(), Duration::from_secs(10));
    // At 20 s the check of the active view is due, the fill not yet.
    assert_eq!(node.handle_tick_with(0, 0, 0), vec![tick.clone(), sync.clone()]);
    // At 30 s the shuffle and the fill are due.
    assert_eq!(node.handle_tick_with(0, 0, 0), vec![tick.clone(), shuffle, fill.clone()]);
    // At 40 s the check (again at 20 + 20) and the fill (again at 30 + 10).
    assert_eq!(node.handle_tick_with(0, 0, 0), vec![tick, sync, fill]);
    assert_eq!(node.clock().ticks(), 4);
    assert_eq!(node.clock().now(), Duration::from_secs(40));
}

#[test]
fn random_ticks_proceed_the_clock() {
    let mut node = new_node();
    let instructions = node.handle_tick();
    assert_eq!(instructions, vec![Instruction::Plumtree(PlumtreeCall::Tick(Duration::from_millis(200)))]);
    assert_eq!(node.clock().now(), Duration::from_millis(200));
    assert_eq!(node.clock().tick_interval(), Duration::from_millis(200));
}

#[test]
fn leave_says_farewell_to_every_neighbor() {
    let node = new_node();
    let view = vec![id(9001, 2), id(9002, 3)];
    let farewell = |peer: NodeId| Instruction::Send {
        destination: peer,
        message: RpcMessage::Hyparview(HyparviewMessage::Disconnect(DisconnectMessage {
            sender: id(9000, 1),
            alive: false,
        })),
    };
    assert_eq!(node.leave(&view), vec![farewell(view[0]), farewell(view[1])]);
    assert_eq!(node.leave(&Vec::new()), Vec::new());
}

#[test]
fn shutdown_counts_delivered_messages_as_forgotten() {
    let mut node = new_node();
    for seqno in 0..3 {
        let message = Message::new(MessageId::new(id(9001, 2), seqno), vec![1]);
        assert_eq!(
            node.handle_plumtree_action(PlumtreeAction::Deliver { message: message.clone() }),
            Outcome::Deliver(message)
        );
    }
    node.handle_forget_result(true);
    assert_eq!(node.metrics().delivered_messages(), 3);
    assert_eq!(node.metrics().forgot_messages(), 1);
    let shutdown = node.shutdown(&vec![id(9001, 2)]);
    assert_eq!(shutdown.local_id, LocalNodeId::new(1));
    assert_eq!(shutdown.farewells.len(), 1);
    assert_eq!(shutdown.metrics.forgot_messages(), 3);
    assert_eq!(node.metrics().forgot_messages(), 3);
    assert_eq!(node.metrics().delivered_messages(), 3);
    assert_eq!(node.metrics().value(NodeCounter::ForgotMessages), 3);
}

#[test]
fn shutdown_takes_nothing_back() {
    let mut node = new_node();
    node.handle_forget_result(true);
    node.handle_forget_result(true);
    let shutdown = node.shutdown(&Vec::new());
    assert_eq!(shutdown.metrics.forgot_messages(), 2);
    assert_eq!(shutdown.metrics.delivered_messages(), 0);
}

#[test]
fn poll_goes_round_until_nothing_happens() {
    let mut node = new_node();
    assert_eq!(node.poll_start(), Poll::Next(PollSource::Timer));
    let step = node.poll_timer(true);
    assert_eq!(step.poll, Poll::Next(PollSource::Timer));
    assert_eq!(step.instructions.len(), 1);
    let step = node.poll_timer(false);
    assert!(step.instructions.is_empty());
    assert_eq!(step.poll, Poll::Next(PollSource::Hyparview));

    let up = HyparviewAction::Notify { event: HyparviewEvent::NeighborUp { node: id(9001, 2) } };
    let step = node.poll_hyparview(Some(up), 1);
    assert_eq!(
        step.instructions,
        vec![Instruction::Plumtree(PlumtreeCall::HandleNeighborUp { node: id(9001, 2) })]
    );
    assert_eq!(step.poll, Poll::Next(PollSource::Hyparview));
    assert_eq!(node.poll_hyparview(None, 1).poll, Poll::Next(PollSource::Plumtree));
    assert_eq!(node.poll_plumtree(None).poll, Poll::Next(PollSource::Mailbox));
    // Something happened in this round: another one follows.
    assert_eq!(node.poll_mailbox(MailboxEvent::Empty).poll, Poll::Next(PollSource::Hyparview));
    assert_eq!(node.poll_hyparview(None, 1).poll, Poll::Next(PollSource::Plumtree));
    assert_eq!(node.poll_plumtree(None).poll, Poll::Next(PollSource::Mailbox));
    assert_eq!(node.poll_mailbox(MailboxEvent::Empty).poll, Poll::NotReady);
}

#[test]
fn poll_hands_messages_from_the_mailbox_on() {
    let mut node = new_node();
    node.poll_timer(false);
    let m = ihave(id(9001, 2));
    let step = node.poll_mailbox(MailboxEvent::Message(RpcMessage::Plumtree(m.clone())));
    assert_eq!(
        step.instructions,
        vec![Instruction::Plumtree(PlumtreeCall::HandleProtocolMessage(m.clone()))]
    );
    assert_eq!(step.poll, Poll::Next(PollSource::Mailbox));
    assert_eq!(node.poll_mailbox(MailboxEvent::Empty).poll, Poll::Next(PollSource::Hyparview));

    let step = node.poll_plumtree(Some(PlumtreeAction::Send { destination: id(9001, 2), message: m.clone() }));
    assert_eq!(
        step.instructions,
        vec![Instruction::Send { destination: id(9001, 2), message: RpcMessage::Plumtree(m) }]
    );
    assert_eq!(step.poll, Poll::Next(PollSource::Plumtree));
}

#[test]
fn poll_fails_when_the_service_is_down() {
    let mut node = new_node();
    match node.poll_mailbox(MailboxEvent::Closed).poll {
        Poll::Failed(e) => assert_eq!(e.kind(), ErrorKind::Other),
        other => panic!("{:?}", other),
    }
}

#[test]
fn builder_takes_options() {
    let mut options = HyparviewNodeOptions::default();
    options.max_active_view_size = 7;
    let mut tree = PlumtreeNodeOptions::default();
    tree.optimization_threshold = 5;
    let mut builder = NodeBuilder::new();
    builder.hyparview_options(options).plumtree_options(tree);
    assert_eq!(builder.get_hyparview_options().max_active_view_size, 7);
    assert_eq!(builder.get_hyparview_options().max_passive_view_size, 24);
    assert_eq!(builder.get_plumtree_options().optimization_threshold, 5);
    assert_eq!(builder.params().tick_interval, Duration::from_millis(200));
}

#[test]
fn builder_has_the_default_settings() {
    let builder = NodeBuilder::default();
    let params = builder.params();
    assert_eq!(params.tick_interval, Duration::from_millis(200));
    assert_eq!(params.hyparview_shuffle_interval, Duration::from_secs(300));
    assert_eq!(params.hyparview_sync_active_view_interval, Duration::from_secs(60));
    assert_eq!(params.hyparview_fill_active_view_interval, Duration::from_secs(30));
    assert_eq!(builder.get_hyparview_options().max_active_view_size, 4);
    assert_eq!(builder.get_hyparview_options().max_passive_view_size, 24);
    assert_eq!(builder.get_plumtree_options().ihave_timeout, Duration::from_millis(500));
    assert_eq!(builder.get_plumtree_options().optimization_threshold, 2);
    let node = builder.finish_with(id(1, 2), 1, 2, 3);
    assert_eq!(node.id(), id(1, 2));
    assert_eq!(node.message_seqno(), 0);
    assert_eq!(node.clock().ticks(), 0);
    assert_eq!(node.params().tick_interval, Duration::from_millis(200));
}
