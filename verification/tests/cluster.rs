use hyparview::message as hv;
use plumcast::hyparview_misc as lib_hv;
use plumcast::message::{Message, MessageId};
use plumcast::node::{
    HyparviewCall, Instruction, MailboxEvent, Node, PlumtreeCall, Poll, PollSource,
    SerialLocalNodeIdGenerator,
};
use plumcast::plumtree_misc as lib_pt;
use plumcast::rpc::RpcMessage;
use plumcast::service::{Command, Dispatch, Service};
use plumcast::time::Duration;
use plumcast::{LocalNodeId, NodeId, SocketAddr};
use plumtree::message as pt;
use rand::rngs::StdRng;
use rand::SeedableRng;
use std::collections::VecDeque;

struct System;
impl plumtree::System for System {
    type NodeId = NodeId;
    type MessageId = MessageId;
    type MessagePayload = Vec<u8>;
}

fn from_hv_message(m: hv::ProtocolMessage<NodeId>) -> lib_hv::HyparviewMessage {
    match m {
        hv::ProtocolMessage::Join(m) => {
            lib_hv::HyparviewMessage::Join(lib_hv::JoinMessage { sender: m.sender })
        }
        hv::ProtocolMessage::ForwardJoin(m) => {
            lib_hv::HyparviewMessage::ForwardJoin(lib_hv::ForwardJoinMessage {
                sender: m.sender,
                new_node: m.new_node,
                ttl: lib_hv::TimeToLive::new(m.ttl.as_u8()),
            })
        }
        hv::ProtocolMessage::Neighbor(m) => {
            lib_hv::HyparviewMessage::Neighbor(lib_hv::NeighborMessage {
                sender: m.sender,
                high_priority: m.high_priority,
            })
        }
        hv::ProtocolMessage::Shuffle(m) => {
            lib_hv::HyparviewMessage::Shuffle(lib_hv::ShuffleMessage {
                sender: m.sender,
                origin: m.origin,
                nodes: m.nodes,
                ttl: lib_hv::TimeToLive::new(m.ttl.as_u8()),
            })
        }
        hv::ProtocolMessage::ShuffleReply(m) => {
            lib_hv::HyparviewMessage::ShuffleReply(lib_hv::ShuffleReplyMessage {
                sender: m.sender,
                nodes: m.nodes,
            })
        }
        hv::ProtocolMessage::Disconnect(m) => {
            lib_hv::HyparviewMessage::Disconnect(lib_hv::DisconnectMessage {
                sender: m.sender,
                alive: m.alive,
            })
        }
    }
}

fn to_hv_message(m: lib_hv::HyparviewMessage) -> hv::ProtocolMessage<NodeId> {
    match m {
        lib_hv::HyparviewMessage::Join(m) => {
            hv::ProtocolMessage::Join(hv::JoinMessage { sender: m.sender })
        }
        lib_hv::HyparviewMessage::ForwardJoin(m) => {
            hv::ProtocolMessage::ForwardJoin(hv::ForwardJoinMessage {
                sender: m.sender,
                new_node: m.new_node,
                ttl: hyparview::TimeToLive::new(m.ttl.as_u8()),
            })
        }
        lib_hv::HyparviewMessage::Neighbor(m) => {
            hv::ProtocolMessage::Neighbor(hv::NeighborMessage {
                sender: m.sender,
                high_priority: m.high_priority,
            })
        }
        lib_hv::HyparviewMessage::Shuffle(m) => hv::ProtocolMessage::Shuffle(hv::ShuffleMessage {
            sender: m.sender,
            origin: m.origin,
            nodes: m.nodes,
            ttl: hyparview::TimeToLive::new(m.ttl.as_u8()),
        }),
        lib_hv::HyparviewMessage::ShuffleReply(m) => {
            hv::ProtocolMessage::ShuffleReply(hv::ShuffleReplyMessage {
                sender: m.sender,
                nodes: m.nodes,
            })
        }
        lib_hv::HyparviewMessage::Disconnect(m) => {
            hv::ProtocolMessage::Disconnect(hv::DisconnectMessage {
                sender: m.sender,
                alive: m.alive,
            })
        }
    }
}

fn from_hv_action(a: hyparview::Action<NodeId>) -> lib_hv::HyparviewAction {
    match a {
        hyparview::Action::Send { destination, message } => lib_hv::HyparviewAction::Send {
            destination,
            message: from_hv_message(message),
        },
        hyparview::Action::Disconnect { node } => lib_hv::HyparviewAction::Disconnect { node },
        hyparview::Action::Notify { event } => lib_hv::HyparviewAction::Notify {
            event: match event {
                hyparview::Event::NeighborUp { node } => lib_hv::HyparviewEvent::NeighborUp { node },
                hyparview::Event::NeighborDown { node } => {
                    lib_hv::HyparviewEvent::NeighborDown { node }
                }
            },
        },
    }
}

fn from_pt_message(m: pt::ProtocolMessage<System>) -> lib_pt::PlumtreeMessage {
    match m {
        pt::ProtocolMessage::Gossip(m) => lib_pt::PlumtreeMessage::Gossip(lib_pt::GossipMessage {
            sender: m.sender,
            message: Message::new(m.message.id, m.message.payload),
            round: m.round,
        }),
        pt::ProtocolMessage::Ihave(m) => lib_pt::PlumtreeMessage::Ihave(lib_pt::IhaveMessage {
            sender: m.sender,
            message_id: m.message_id,
            round: m.round,
            realtime: m.realtime,
        }),
        pt::ProtocolMessage::Graft(m) => lib_pt::PlumtreeMessage::Graft(lib_pt::GraftMessage {
            sender: m.sender,
            message_id: m.message_id,
            round: m.round,
        }),
        pt::ProtocolMessage::Prune(m) => {
            lib_pt::PlumtreeMessage::Prune(lib_pt::PruneMessage { sender: m.sender, round: 0 })
        }
    }
}

fn to_pt_message(m: lib_pt::PlumtreeMessage) -> pt::ProtocolMessage<System> {
    match m {
        lib_pt::PlumtreeMessage::Gossip(m) => pt::ProtocolMessage::Gossip(pt::GossipMessage {
            sender: m.sender,
            message: pt::Message { id: *m.message.id(), payload: m.message.into_payload() },
            round: m.round,
        }),
        lib_pt::PlumtreeMessage::Ihave(m) => pt::ProtocolMessage::Ihave(pt::IhaveMessage {
            sender: m.sender,
            message_id: m.message_id,
            round: m.round,
            realtime: m.realtime,
        }),
        lib_pt::PlumtreeMessage::Graft(m) => pt::ProtocolMessage::Graft(pt::GraftMessage {
            sender: m.sender,
            message_id: m.message_id,
            round: m.round,
        }),
        lib_pt::PlumtreeMessage::Prune(m) => {
            pt::ProtocolMessage::Prune(pt::PruneMessage { sender: m.sender })
        }
    }
}

fn from_pt_action(a: plumtree::Action<System>) -> lib_pt::PlumtreeAction {
    match a {
        plumtree::Action::Send { destination, message } => lib_pt::PlumtreeAction::Send {
            destination,
            message: from_pt_message(message),
        },
        plumtree::Action::Deliver { message } => lib_pt::PlumtreeAction::Deliver {
            message: Message::new(message.id, message.payload),
        },
    }
}

fn std_duration(d: Duration) -> std::time::Duration {
    std::time::Duration::new(d.as_secs(), d.subsec_nanos())
}

/// A node with its two protocol state machines, driven by hand.
struct Peer {
    engine: Node,
    hyparview: hyparview::Node<NodeId, StdRng>,
    plumtree: plumtree::Node<System>,
    mailbox: VecDeque<RpcMessage>,
    delivered: Vec<Message>,
    alive: bool,
}

/// The nodes of some services, with a network that hands every frame over
/// at once.
struct Cluster {
    services: Vec<Service<usize, SerialLocalNodeIdGenerator>>,
    peers: Vec<Peer>,
}

impl Cluster {
    fn new(ports: &[u16]) -> Self {
        let services = ports
            .iter()
            .map(|port| Service::new(SocketAddr::v4(127, 0, 0, 1, *port), SerialLocalNodeIdGenerator::new()))
            .collect();
        Cluster { services, peers: Vec::new() }
    }

    fn service_of(&self, address: SocketAddr) -> usize {
        self.services
            .iter()
            .position(|s| s.handle().rpc_server_addr() == address)
            .expect("a frame for a server that is not there")
    }

    fn add_node(&mut self, service: usize) -> usize {
        let index = self.peers.len();
        let (engine, command) = Node::new(self.services[service].handle_mut(), index);
        self.services[service].handle_command(command).unwrap();
        let id = engine.id();
        let mut seed = [0u8; 32];
        seed[..8].copy_from_slice(&(index as u64 + 1).to_le_bytes());
        self.peers.push(Peer {
            engine,
            hyparview: hyparview::Node::new(id, StdRng::from_seed(seed)),
            plumtree: plumtree::Node::new(id),
            mailbox: VecDeque::new(),
            delivered: Vec::new(),
            alive: true,
        });
        index
    }

    fn id(&self, index: usize) -> NodeId {
        self.peers[index].engine.id()
    }

    /// Sends a message over the wire: it is encoded, handed to the server
    /// of the destination, decoded there, and dispatched.
    fn send(&mut self, destination: NodeId, message: &RpcMessage) -> bool {
        let from = self.service_of(message.sender().address());
        let request = match self.services[from].handle().send_message(destination, message) {
            Ok(request) => request,
            Err(_) => return false,
        };
        let to = self.service_of(request.server);
        match self.services[to].handle_mut().handle_frame(request.procedure, &request.frame) {
            Dispatch::Deliver { local_id, message } => {
                let index = *self.services[to].handle().get_local_node(local_id).unwrap().message_tx();
                self.peers[index].mailbox.push_back(message);
            }
            Dispatch::Reply { peer, message } => {
                self.send(peer, &message);
            }
            Dispatch::Discard => {}
        }
        true
    }

    fn execute(&mut self, index: usize, instruction: Instruction) {
        match instruction {
            Instruction::Send { destination, message } => {
                if !self.send(destination, &message) {
                    let next = self.peers[index].engine.handle_send_failure(destination, &message);
                    self.execute(index, next);
                }
            }
            Instruction::Hyparview(call) => {
                let node = &mut self.peers[index].hyparview;
                match call {
                    HyparviewCall::Join { contact_node } => node.join(contact_node),
                    HyparviewCall::Disconnect { node: peer, alive } => node.disconnect(&peer, alive),
                    HyparviewCall::HandleProtocolMessage(m) => {
                        node.handle_protocol_message(to_hv_message(m))
                    }
                    HyparviewCall::ShufflePassiveView => node.shuffle_passive_view(),
                    HyparviewCall::SyncActiveView => node.sync_active_view(),
                    HyparviewCall::FillActiveView => node.fill_active_view(),
                }
            }
            Instruction::Plumtree(call) => {
                let peer = &mut self.peers[index];
                match call {
                    PlumtreeCall::BroadcastMessage(m) => {
                        let id = *m.id();
                        peer.plumtree.broadcast_message(pt::Message { id, payload: m.into_payload() })
                    }
                    PlumtreeCall::ForgetMessage(id) => {
                        let known = peer.plumtree.forget_message(&id);
                        peer.engine.handle_forget_result(known);
                    }
                    PlumtreeCall::HandleProtocolMessage(m) => {
                        let known = peer.plumtree.handle_protocol_message(to_pt_message(m));
                        peer.engine.handle_protocol_message_result(known);
                    }
                    PlumtreeCall::HandleNeighborUp { node } => peer.plumtree.handle_neighbor_up(&node),
                    PlumtreeCall::HandleNeighborDown { node } => {
                        peer.plumtree.handle_neighbor_down(&node)
                    }
                    PlumtreeCall::Tick(interval) => {
                        peer.plumtree.clock_mut().tick(std_duration(interval))
                    }
                }
            }
        }
    }

    /// Polls a node until the poll ends. Returns whether anything was done.
    fn poll(&mut self, index: usize, ticks: usize) -> bool {
        let mut did_something = false;
        let mut ticks = ticks;
        let mut next = self.peers[index].engine.poll_start();
        loop {
            let step = match next {
                Poll::Next(PollSource::Timer) => {
                    let fired = ticks > 0;
                    if fired {
                        ticks -= 1;
                    }
                    self.peers[index].engine.poll_timer(fired)
                }
                Poll::Next(PollSource::Hyparview) => {
                    let peer = &mut self.peers[index];
                    let action = peer.hyparview.poll_action().map(from_hv_action);
                    let active_view_len = peer.hyparview.active_view().len();
                    peer.engine.poll_hyparview(action, active_view_len)
                }
                Poll::Next(PollSource::Plumtree) => {
                    let peer = &mut self.peers[index];
                    let action = peer.plumtree.poll_action().map(from_pt_action);
                    peer.engine.poll_plumtree(action)
                }
                Poll::Next(PollSource::Mailbox) => {
                    let peer = &mut self.peers[index];
                    let event = match peer.mailbox.pop_front() {
                        Some(message) => MailboxEvent::Message(message),
                        None => MailboxEvent::Empty,
                    };
                    peer.engine.poll_mailbox(event)
                }
                Poll::Ready(message) => {
                    self.peers[index].delivered.push(message);
                    return true;
                }
                Poll::NotReady => {
                    self.check_tree_peers(index);
                    return did_something;
                }
                Poll::Failed(e) => panic!("{:?}", e),
            };
            did_something = did_something || !step.instructions.is_empty();
            for instruction in step.instructions {
                self.execute(index, instruction);
            }
            next = step.poll;
        }
    }

    /// When a node has nothing left to do, its tree knows no node that is
    /// not its neighbor.
    fn check_tree_peers(&self, index: usize) {
        let peer = &self.peers[index];
        let view = peer.hyparview.active_view();
        let tree = peer.plumtree.eager_push_peers().iter().chain(peer.plumtree.lazy_push_peers());
        for tree_peer in tree {
            assert!(view.contains(tree_peer), "{:?} is no neighbor of {:?}", tree_peer, peer.engine.id());
        }
    }

    /// Polls every node once, with so many ticks of its timer before.
    /// Returns whether anything was done.
    fn round(&mut self, ticks: usize) -> bool {
        let mut did_something = false;
        for index in 0..self.peers.len() {
            if self.peers[index].alive {
                did_something = self.poll(index, ticks) || did_something;
            }
        }
        did_something
    }

    /// Polls all nodes until nothing happens anywhere.
    fn settle(&mut self) {
        let mut rounds = 0;
        while self.round(0) {
            rounds += 1;
            assert!(rounds < 1000, "the cluster finds no rest");
        }
    }

    fn join(&mut self, index: usize, contact: usize) {
        let contact = self.id(contact);
        let instruction = self.peers[index].engine.join(contact);
        self.execute(index, instruction);
    }

    fn broadcast(&mut self, index: usize, payload: &[u8]) {
        let instruction = self.peers[index].engine.broadcast(payload.to_vec());
        self.execute(index, instruction);
    }

    /// Shuts a node down as a drop of the node does.
    fn kill(&mut self, index: usize) {
        let view = self.peers[index].hyparview.active_view().to_vec();
        let shutdown = self.peers[index].engine.shutdown(&view);
        let service = self.service_of(self.id(index).address());
        assert!(self.services[service].handle_mut().record_node_metrics(shutdown.local_id, &shutdown.metrics));
        self.services[service].handle_command(Command::Deregister(shutdown.local_id)).unwrap();
        self.peers[index].alive = false;
        for farewell in shutdown.farewells {
            if let Instruction::Send { destination, message } = farewell {
                self.send(destination, &message);
            }
        }
    }
}

#[test]
fn it_works() {
    let mut cluster = Cluster::new(&[12121]);
    let mut first_node = None;
    for i in 0..100 {
        let node = cluster.add_node(0);
        if let Some(first) = first_node {
            cluster.join(node, first);
        } else {
            first_node = Some(node);
        }
        if i == 99 {
            cluster.broadcast(node, b"hello");
        }
    }
    // In a cluster of this size the membership protocol never rests: the
    // nodes are polled, with a tick each time, until each has the message,
    // and then for a while more.
    let mut rounds = 0;
    while cluster.peers.iter().any(|p| p.delivered.is_empty()) {
        cluster.round(1);
        rounds += 1;
        assert!(rounds < 2000, "the message does not reach every node");
    }
    for _ in 0..100 {
        cluster.round(1);
    }

    for peer in &cluster.peers {
        let payloads: Vec<&[u8]> = peer.delivered.iter().map(|m| m.payload().as_slice()).collect();
        assert_eq!(payloads, vec![&b"hello"[..]]);
        assert_eq!(peer.delivered[0].id().seqno(), 0);
        assert_eq!(*peer.delivered[0].id().node(), cluster.id(99));
        assert_eq!(peer.engine.metrics().delivered_messages(), 1);
    }
    assert_eq!(cluster.peers[99].engine.metrics().broadcasted_messages(), 1);
    assert_eq!(cluster.services[0].handle().metrics().registered_nodes(), 100);
    assert_eq!(cluster.services[0].handle().local_nodes().len(), 100);
}

#[test]
fn single_node_broadcast() {
    let mut cluster = Cluster::new(&[9000]);
    let node = cluster.add_node(0);
    cluster.broadcast(node, b"hello");
    cluster.settle();
    let peer = &cluster.peers[node];
    assert_eq!(peer.delivered.len(), 1);
    assert_eq!(peer.delivered[0].payload(), &b"hello".to_vec());
    assert_eq!(peer.delivered[0].id().seqno(), 0);
    assert_eq!(peer.engine.metrics().delivered_messages(), 1);
}

#[test]
fn two_nodes_join_and_broadcast() {
    let mut cluster = Cluster::new(&[9001, 9002]);
    let a = cluster.add_node(0);
    let b = cluster.add_node(1);
    cluster.join(b, a);
    cluster.settle();
    assert!(cluster.peers[a].hyparview.active_view().len() >= 1);
    assert!(cluster.peers[b].hyparview.active_view().len() >= 1);

    cluster.broadcast(a, &[0xde, 0xad]);
    cluster.settle();
    assert_eq!(cluster.peers[b].delivered.len(), 1);
    assert_eq!(cluster.peers[b].delivered[0].payload(), &vec![0xde, 0xad]);
    assert_eq!(*cluster.peers[b].delivered[0].id(), MessageId::new(cluster.id(a), 0));
    assert!(cluster.peers[a].engine.metrics().connected_neighbors() >= 1);
    assert!(cluster.peers[b].engine.metrics().connected_neighbors() >= 1);
}

#[test]
fn stale_destination_gets_disconnect() {
    let mut cluster = Cluster::new(&[9001, 9002]);
    let a = cluster.add_node(0);
    let b = cluster.add_node(1);
    cluster.join(b, a);
    cluster.settle();
    assert_eq!(cluster.peers[b].hyparview.active_view(), &[cluster.id(a)]);

    // A is taken out of its registry without a farewell.
    let a_id = cluster.id(a);
    cluster.services[0].handle_command(Command::Deregister(a_id.local_id())).unwrap();
    cluster.peers[a].alive = false;

    // B joins again: the server of A answers that A is gone.
    cluster.join(b, a);
    cluster.settle();
    assert_eq!(cluster.services[0].handle().metrics().destination_unknown_messages(), 1);
    assert!(cluster.peers[b].hyparview.active_view().is_empty());
    assert_eq!(cluster.peers[b].engine.metrics().disconnected_neighbors(), 1);
}

#[test]
fn isolation_is_counted_when_the_peer_dies() {
    let mut cluster = Cluster::new(&[9001, 9002]);
    let a = cluster.add_node(0);
    let b = cluster.add_node(1);
    cluster.join(b, a);
    cluster.settle();
    assert_eq!(cluster.peers[a].engine.metrics().isolated_times(), 0);
    let deisolated = cluster.peers[a].engine.metrics().deisolated_times();

    cluster.kill(b);
    cluster.settle();
    assert!(cluster.peers[a].hyparview.active_view().is_empty());
    assert_eq!(cluster.peers[a].engine.metrics().isolated_times(), 1);
    assert_eq!(cluster.peers[a].engine.metrics().deisolated_times(), deisolated);
    assert_eq!(cluster.services[1].removed_nodes_metrics().connected_neighbors(), 1);

    let c = cluster.add_node(1);
    cluster.join(c, a);
    cluster.settle();
    assert_eq!(cluster.peers[a].engine.metrics().deisolated_times(), deisolated + 1);
    assert_eq!(cluster.peers[a].engine.metrics().isolated_times(), 1);
}

#[test]
fn forgot_messages_catch_up_on_shutdown() {
    let mut cluster = Cluster::new(&[9001]);
    let a = cluster.add_node(0);
    let b = cluster.add_node(0);
    cluster.join(b, a);
    cluster.settle();
    for i in 0..5u8 {
        cluster.broadcast(a, &[i]);
        cluster.settle();
    }
    assert_eq!(cluster.peers[b].delivered.len(), 5);
    let id = *cluster.peers[b].delivered[0].id();
    let forget = cluster.peers[b].engine.forget_message(&id);
    cluster.execute(b, forget.clone());
    cluster.execute(b, forget);
    assert_eq!(cluster.peers[b].engine.metrics().forgot_messages(), 1);
    assert_eq!(cluster.peers[b].engine.metrics().forget_unknown_message_errors(), 1);

    cluster.kill(b);
    let metrics = cluster.peers[b].engine.metrics();
    assert_eq!(metrics.delivered_messages(), 5);
    assert!(metrics.forgot_messages() >= metrics.delivered_messages());
    assert_eq!(cluster.services[0].removed_nodes_metrics().forgot_messages(), 5);
    assert_eq!(cluster.services[0].handle().local_nodes(), vec![LocalNodeId::new(0)]);
}
