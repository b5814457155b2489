//! The messages that nodes send to each other, and the calls that carry them.
//!
//! A message travels as a cast: a call of a procedure of the server of the
//! node that it is for, without an answer. Each kind of message has a
//! procedure of its own, and the numbers of the procedures never change.
use crate::codec::hyparview::{
    decode_disconnect, decode_forward_join, decode_join, decode_neighbor, decode_shuffle,
    decode_shuffle_reply, disconnect_bytes, disconnect_of, encode_disconnect, encode_forward_join,
    encode_join, encode_neighbor, encode_shuffle, encode_shuffle_reply, forward_join_bytes,
    forward_join_of,
    join_bytes, join_of, lemma_disconnect_round_trip, lemma_forward_join_round_trip,
    lemma_join_round_trip, lemma_neighbor_round_trip, lemma_shuffle_reply_round_trip,
    lemma_shuffle_round_trip, neighbor_bytes, neighbor_of, shuffle_bytes, shuffle_of,
    shuffle_reply_bytes, shuffle_reply_of,
};
use crate::codec::hyparview::{
    header_bytes, header_len, lemma_node_ids_len, lemma_node_ids_len_push, node_ids_len,
};
use crate::codec::plumtree::message_id_len;
use crate::codec::node::{
    get_local_node_id, lemma_local_node_id_round_trip, lemma_node_id_len, local_node_id_at,
    local_node_id_bytes, node_id_len,
};
use crate::codec::{
    invalid_input, lemma_be_u16_len, lemma_be_u32_len, lemma_be_u64_len, lemma_holds_at_concat,
    lemma_holds_at_self,
};
use crate::codec::plumtree::{
    decode_gossip, decode_graft, decode_graft_optimize, decode_ihave, decode_prune, encode_gossip,
    encode_graft, encode_ihave, encode_prune, encode_short_graft, gossip_bytes,
    gossip_of, graft_bytes, graft_of, graft_optimize_bytes, graft_optimize_of, ihave_bytes,
    ihave_of, lemma_gossip_round_trip, lemma_graft_optimize_round_trip, lemma_graft_round_trip,
    lemma_ihave_round_trip, lemma_prune_round_trip, prune_bytes, prune_of, MAX_PAYLOAD_LEN,
};
use crate::error::{Error, ErrorKind};
use crate::hyparview_misc::{HyparviewMessage, HyparviewMessageView};
use crate::node_id::{LocalNodeId, NodeId, SocketAddr};
use crate::plumtree_misc::{PlumtreeMessage, PlumtreeMessageView};
use crate::rpc::hyparview::{
    lazy_options, neighbor_options, DisconnectCast, ForwardJoinCast, JoinCast, NeighborCast,
    ShuffleCast, ShuffleReplyCast,
};
use crate::rpc::plumtree::{
    gossip_options, ihave_options, GossipCast, GraftCast, GraftOptimizeCast, IhaveCast, PruneCast,
};
use vstd::prelude::*;

pub mod hyparview;
pub mod plumtree;

verus! {

/// A message from one node to another.
#[derive(Debug, Clone, PartialEq, Eq)]
pub enum RpcMessage {
    /// A message of the membership protocol.
    Hyparview(HyparviewMessage),
    /// A message of the broadcast tree protocol.
    Plumtree(PlumtreeMessage),
}

/// What an [`RpcMessage`] holds.
pub enum RpcMessageView {
    /// A message of the membership protocol.
    Hyparview(HyparviewMessageView),
    /// A message of the broadcast tree protocol.
    Plumtree(PlumtreeMessageView),
}

impl RpcMessageView {
    /// The node that sent the message.
    pub open spec fn sender(self) -> NodeId {
        match self {
            RpcMessageView::Hyparview(m) => m.sender(),
            RpcMessageView::Plumtree(m) => m.sender(),
        }
    }
}

impl View for RpcMessage {
    type V = RpcMessageView;

    open spec fn view(&self) -> RpcMessageView {
        match *self {
            RpcMessage::Hyparview(m) => RpcMessageView::Hyparview(m@),
            RpcMessage::Plumtree(m) => RpcMessageView::Plumtree(m@),
        }
    }
}

impl RpcMessage {
    /// The node that sent the message.
    pub open spec fn spec_sender(self) -> NodeId {
        match self {
            RpcMessage::Hyparview(m) => m.spec_sender(),
            RpcMessage::Plumtree(m) => m.spec_sender(),
        }
    }

    /// Returns the node that sent the message.
    pub fn sender(&self) -> (r: NodeId)
        ensures
            r == self.spec_sender(),
    {
        match self {
            RpcMessage::Hyparview(m) => m.sender(),
            RpcMessage::Plumtree(m) => m.sender(),
        }
    }
}

/// The number of a procedure.
#[derive(Debug, Clone, Copy, PartialEq, Eq, Hash)]
pub struct ProcedureId(pub u32);

/// The priority of a cast for which nothing else is said.
pub const DEFAULT_PRIORITY: u8 = 128;

/// The priority of the casts that let a node into a cluster.
pub const JOIN_PRIORITY: u8 = 100;

/// The priority of the casts that can wait.
pub const LAZY_PRIORITY: u8 = 200;

/// The number of messages that may wait for a peer at most, where that
/// number is bounded.
pub const MAX_QUEUE_LEN: u64 = 4096;

/// How a cast is treated on the way out.
#[derive(Debug, Clone, Copy, PartialEq, Eq)]
pub struct Options {
    /// The number of messages that may wait for the peer. A cast that finds
    /// more fails. `None` means that there is no bound.
    pub max_queue_len: Option<u64>,
    /// The priority of the cast. The lower the value, the higher the priority.
    pub priority: u8,
    /// Whether a channel that waits to reconnect is woken up at once.
    pub force_wakeup: bool,
}

impl Options {
    /// The options of a cast for which nothing else is said: no bound on the
    /// queue, the default priority, no wake-up.
    pub open spec fn spec_default() -> Options {
        Options { max_queue_len: None, priority: DEFAULT_PRIORITY, force_wakeup: false }
    }

    /// The options of the casts that let a node into a cluster: a high
    /// priority, and a wake-up.
    pub open spec fn spec_urgent() -> Options {
        Options { max_queue_len: None, priority: JOIN_PRIORITY, force_wakeup: true }
    }
}

impl Default for Options {
    fn default() -> (r: Self)
        ensures
            r == Self::spec_default(),
    {
        Options { max_queue_len: None, priority: DEFAULT_PRIORITY, force_wakeup: false }
    }
}

/// A cast that is ready to be made.
#[derive(Debug, Clone, PartialEq, Eq)]
pub struct CastRequest {
    /// The procedure to call.
    pub procedure: ProcedureId,
    /// The address of the server to call.
    pub server: SocketAddr,
    /// How the cast is treated on the way out.
    pub options: Options,
    /// The frame to send.
    pub frame: Vec<u8>,
}

/// The procedure that carries a message.
pub open spec fn procedure_of(m: RpcMessageView) -> ProcedureId {
    match m {
        RpcMessageView::Hyparview(HyparviewMessageView::Join(_)) => ProcedureId(JoinCast::ID),
        RpcMessageView::Hyparview(HyparviewMessageView::ForwardJoin(_)) => ProcedureId(
            ForwardJoinCast::ID,
        ),
        RpcMessageView::Hyparview(HyparviewMessageView::Neighbor(_)) => ProcedureId(
            NeighborCast::ID,
        ),
        RpcMessageView::Hyparview(HyparviewMessageView::Shuffle(_)) => ProcedureId(ShuffleCast::ID),
        RpcMessageView::Hyparview(HyparviewMessageView::ShuffleReply(_)) => ProcedureId(
            ShuffleReplyCast::ID,
        ),
        RpcMessageView::Hyparview(HyparviewMessageView::Disconnect(_)) => ProcedureId(
            DisconnectCast::ID,
        ),
        RpcMessageView::Plumtree(PlumtreeMessageView::Gossip(_)) => ProcedureId(GossipCast::ID),
        RpcMessageView::Plumtree(PlumtreeMessageView::Ihave(_)) => ProcedureId(IhaveCast::ID),
        RpcMessageView::Plumtree(PlumtreeMessageView::Graft(m)) => if m.message_id is Some {
            ProcedureId(GraftCast::ID)
        } else {
            ProcedureId(GraftOptimizeCast::ID)
        },
        RpcMessageView::Plumtree(PlumtreeMessageView::Prune(_)) => ProcedureId(PruneCast::ID),
    }
}

/// How the cast of a message is treated on the way out. What lets a node
/// into a cluster is urgent: a join, a forwarded join, a request of high
/// priority to become a neighbor. A shuffle, its reply and the announcement
/// of a message can wait. The queue of a peer is bounded for the messages
/// that the tree pushes and announces.
pub open spec fn options_of(m: RpcMessageView) -> Options {
    match m {
        RpcMessageView::Hyparview(HyparviewMessageView::Join(_)) => Options::spec_urgent(),
        RpcMessageView::Hyparview(HyparviewMessageView::ForwardJoin(_)) => Options::spec_urgent(),
        RpcMessageView::Hyparview(HyparviewMessageView::Neighbor(m)) => neighbor_options(m),
        RpcMessageView::Hyparview(HyparviewMessageView::Shuffle(_)) => lazy_options(),
        RpcMessageView::Hyparview(HyparviewMessageView::ShuffleReply(_)) => lazy_options(),
        RpcMessageView::Hyparview(HyparviewMessageView::Disconnect(_)) => Options::spec_default(),
        RpcMessageView::Plumtree(PlumtreeMessageView::Gossip(_)) => gossip_options(),
        RpcMessageView::Plumtree(PlumtreeMessageView::Ihave(_)) => ihave_options(),
        RpcMessageView::Plumtree(PlumtreeMessageView::Graft(_)) => Options::spec_default(),
        RpcMessageView::Plumtree(PlumtreeMessageView::Prune(_)) => Options::spec_default(),
    }
}

/// The frame that carries a message to the node `destination` of a server.
pub open spec fn frame_bytes(destination: LocalNodeId, m: RpcMessageView) -> Seq<u8> {
    match m {
        RpcMessageView::Hyparview(HyparviewMessageView::Join(m)) => join_bytes(destination, m),
        RpcMessageView::Hyparview(HyparviewMessageView::ForwardJoin(m)) => forward_join_bytes(
            destination,
            m,
        ),
        RpcMessageView::Hyparview(HyparviewMessageView::Neighbor(m)) => neighbor_bytes(
            destination,
            m,
        ),
        RpcMessageView::Hyparview(HyparviewMessageView::Shuffle(m)) => shuffle_bytes(
            destination,
            m,
        ),
        RpcMessageView::Hyparview(HyparviewMessageView::ShuffleReply(m)) => shuffle_reply_bytes(
            destination,
            m,
        ),
        RpcMessageView::Hyparview(HyparviewMessageView::Disconnect(m)) => disconnect_bytes(
            destination,
            m,
        ),
        RpcMessageView::Plumtree(PlumtreeMessageView::Gossip(m)) => gossip_bytes(destination, m),
        RpcMessageView::Plumtree(PlumtreeMessageView::Ihave(m)) => ihave_bytes(destination, m),
        RpcMessageView::Plumtree(PlumtreeMessageView::Graft(m)) => if m.message_id is Some {
            graft_bytes(destination, m)
        } else {
            graft_optimize_bytes(destination, m)
        },
        RpcMessageView::Plumtree(PlumtreeMessageView::Prune(m)) => prune_bytes(destination, m),
    }
}

/// Whether a message has a frame: all have but a pushed message whose
/// payload is too long to be written.
pub open spec fn has_frame(m: RpcMessageView) -> bool {
    match m {
        RpcMessageView::Plumtree(PlumtreeMessageView::Gossip(m)) => m.message.payload.len()
            <= MAX_PAYLOAD_LEN,
        _ => true,
    }
}

/// The destination and the message that the frame `b` of a procedure holds.
/// A procedure that is not known has no frames.
pub open spec fn frame_of(procedure: ProcedureId, b: Seq<u8>) -> Option<
    (LocalNodeId, RpcMessageView),
> {
    let id = procedure.0;
    if id == JoinCast::ID {
        match join_of(b) {
            Some((d, m)) => Some((d, RpcMessageView::Hyparview(HyparviewMessageView::Join(m)))),
            None => None,
        }
    } else if id == ForwardJoinCast::ID {
        match forward_join_of(b) {
            Some((d, m)) => Some(
                (d, RpcMessageView::Hyparview(HyparviewMessageView::ForwardJoin(m))),
            ),
            None => None,
        }
    } else if id == NeighborCast::ID {
        match neighbor_of(b) {
            Some((d, m)) => Some((d, RpcMessageView::Hyparview(HyparviewMessageView::Neighbor(m)))),
            None => None,
        }
    } else if id == ShuffleCast::ID {
        match shuffle_of(b) {
            Some((d, m)) => Some((d, RpcMessageView::Hyparview(HyparviewMessageView::Shuffle(m)))),
            None => None,
        }
    } else if id == ShuffleReplyCast::ID {
        match shuffle_reply_of(b) {
            Some((d, m)) => Some(
                (d, RpcMessageView::Hyparview(HyparviewMessageView::ShuffleReply(m))),
            ),
            None => None,
        }
    } else if id == DisconnectCast::ID {
        match disconnect_of(b) {
            Some((d, m)) => Some(
                (d, RpcMessageView::Hyparview(HyparviewMessageView::Disconnect(m))),
            ),
            None => None,
        }
    } else if id == GossipCast::ID {
        match gossip_of(b) {
            Some((d, m)) => Some((d, RpcMessageView::Plumtree(PlumtreeMessageView::Gossip(m)))),
            None => None,
        }
    } else if id == IhaveCast::ID {
        match ihave_of(b) {
            Some((d, m)) => Some((d, RpcMessageView::Plumtree(PlumtreeMessageView::Ihave(m)))),
            None => None,
        }
    } else if id == GraftCast::ID {
        match graft_of(b) {
            Some((d, m)) => Some((d, RpcMessageView::Plumtree(PlumtreeMessageView::Graft(m)))),
            None => None,
        }
    } else if id == GraftOptimizeCast::ID {
        match graft_optimize_of(b) {
            Some((d, m)) => Some((d, RpcMessageView::Plumtree(PlumtreeMessageView::Graft(m)))),
            None => None,
        }
    } else if id == PruneCast::ID {
        match prune_of(b) {
            Some((d, m)) => Some((d, RpcMessageView::Plumtree(PlumtreeMessageView::Prune(m)))),
            None => None,
        }
    } else {
        None
    }
}

/// Every frame is decoded as it was encoded: the frame of a message, read
/// as a frame of the procedure that carries the message, gives the
/// destination and the message back.
pub proof fn lemma_frame_round_trip(destination: LocalNodeId, m: RpcMessageView)
    requires
        has_frame(m),
    ensures
        frame_of(procedure_of(m), frame_bytes(destination, m)) == Some((destination, m)),
{
    match m {
        RpcMessageView::Hyparview(HyparviewMessageView::Join(m)) => {
            lemma_join_round_trip(destination, m);
        },
        RpcMessageView::Hyparview(HyparviewMessageView::ForwardJoin(m)) => {
            lemma_forward_join_round_trip(destination, m);
        },
        RpcMessageView::Hyparview(HyparviewMessageView::Neighbor(m)) => {
            lemma_neighbor_round_trip(destination, m);
        },
        RpcMessageView::Hyparview(HyparviewMessageView::Shuffle(m)) => {
            lemma_shuffle_round_trip(destination, m);
        },
        RpcMessageView::Hyparview(HyparviewMessageView::ShuffleReply(m)) => {
            lemma_shuffle_reply_round_trip(destination, m);
        },
        RpcMessageView::Hyparview(HyparviewMessageView::Disconnect(m)) => {
            lemma_disconnect_round_trip(destination, m);
        },
        RpcMessageView::Plumtree(PlumtreeMessageView::Gossip(m)) => {
            lemma_gossip_round_trip(destination, m);
        },
        RpcMessageView::Plumtree(PlumtreeMessageView::Ihave(m)) => {
            lemma_ihave_round_trip(destination, m);
        },
        RpcMessageView::Plumtree(PlumtreeMessageView::Graft(m)) => {
            if m.message_id is Some {
                lemma_graft_round_trip(destination, m);
            } else {
                lemma_graft_optimize_round_trip(destination, m);
            }
        },
        RpcMessageView::Plumtree(PlumtreeMessageView::Prune(m)) => {
            lemma_prune_round_trip(destination, m);
        },
    }
}

/// The destination with which the bytes `b` start, whatever follows.
pub open spec fn destination_of(b: Seq<u8>) -> Option<LocalNodeId> {
    match local_node_id_at(b, 0) {
        Some((destination, _)) => Some(destination),
        None => None,
    }
}

/// Every frame starts with its destination: the node that a frame is for
/// can be read from its first bytes, without a look at the rest and
/// whatever the procedure.
pub proof fn lemma_destination_first(destination: LocalNodeId, m: RpcMessageView)
    ensures
        destination_of(frame_bytes(destination, m)) == Some(destination),
{
    let b = frame_bytes(destination, m);
    let head = local_node_id_bytes(destination);
    let h = header_bytes(destination, m.sender());
    lemma_be_u64_len(destination.0);
    // Every frame is its header with something behind it.
    assert(b.len() >= h.len() && b.subrange(0, h.len() as int) =~= h);
    assert(h.subrange(0, 8) =~= head);
    let rest = b.subrange(8, b.len() as int);
    assert(b =~= head + rest);
    lemma_holds_at_self(b);
    lemma_holds_at_concat(b, 0, head, rest);
    lemma_local_node_id_round_trip(b, 0, destination);
}

/// Reads the destination of a frame from its first bytes, whatever the
/// procedure of the frame.
pub fn peek_destination(frame: &[u8]) -> (r: Result<LocalNodeId, Error>)
    ensures
        match r {
            Ok(destination) => destination_of(frame@) == Some(destination),
            Err(e) => destination_of(frame@) is None && e.kind == ErrorKind::InvalidInput,
        },
{
    let (destination, _) = get_local_node_id(frame, 0)?;
    Ok(destination)
}

/// The number of bytes of the frame that carries a message: every frame is
/// sized before it is written.
pub open spec fn frame_len(m: RpcMessageView) -> int {
    header_len(m.sender()) + match m {
        RpcMessageView::Hyparview(HyparviewMessageView::Join(_)) => 0,
        RpcMessageView::Hyparview(HyparviewMessageView::ForwardJoin(m)) => node_id_len(m.new_node)
            + 1,
        RpcMessageView::Hyparview(HyparviewMessageView::Neighbor(_)) => 1,
        RpcMessageView::Hyparview(HyparviewMessageView::Shuffle(m)) => node_id_len(m.origin) + 1
            + node_ids_len(m.nodes),
        RpcMessageView::Hyparview(HyparviewMessageView::ShuffleReply(m)) => node_ids_len(m.nodes),
        RpcMessageView::Hyparview(HyparviewMessageView::Disconnect(_)) => 1,
        RpcMessageView::Plumtree(PlumtreeMessageView::Gossip(m)) => 2 + message_id_len(
            m.message.id,
        ) + 4 + m.message.payload.len(),
        RpcMessageView::Plumtree(PlumtreeMessageView::Ihave(m)) => message_id_len(m.message_id) + 3,
        RpcMessageView::Plumtree(PlumtreeMessageView::Graft(m)) => match m.message_id {
            Some(id) => 1 + message_id_len(id) + 2,
            None => 2,
        },
        RpcMessageView::Plumtree(PlumtreeMessageView::Prune(_)) => 2,
    }
}

/// The frame of a message has the number of bytes that the message is sized at.
pub proof fn lemma_frame_len(destination: LocalNodeId, m: RpcMessageView)
    ensures
        frame_bytes(destination, m).len() == frame_len(m),
{
    lemma_be_u64_len(destination.0);
    lemma_node_id_len(m.sender());
    match m {
        RpcMessageView::Hyparview(HyparviewMessageView::Join(_)) => {},
        RpcMessageView::Hyparview(HyparviewMessageView::ForwardJoin(m)) => {
            lemma_node_id_len(m.new_node);
        },
        RpcMessageView::Hyparview(HyparviewMessageView::Neighbor(_)) => {},
        RpcMessageView::Hyparview(HyparviewMessageView::Shuffle(m)) => {
            lemma_node_id_len(m.origin);
            lemma_node_ids_len(m.nodes);
        },
        RpcMessageView::Hyparview(HyparviewMessageView::ShuffleReply(m)) => {
            lemma_node_ids_len(m.nodes);
        },
        RpcMessageView::Hyparview(HyparviewMessageView::Disconnect(_)) => {},
        RpcMessageView::Plumtree(PlumtreeMessageView::Gossip(m)) => {
            lemma_node_id_len(m.message.id.node);
            lemma_be_u64_len(m.message.id.seqno);
            lemma_be_u16_len(m.round);
            lemma_be_u32_len(m.message.payload.len() as u32);
        },
        RpcMessageView::Plumtree(PlumtreeMessageView::Ihave(m)) => {
            lemma_node_id_len(m.message_id.node);
            lemma_be_u64_len(m.message_id.seqno);
            lemma_be_u16_len(m.round);
        },
        RpcMessageView::Plumtree(PlumtreeMessageView::Graft(m)) => {
            lemma_be_u16_len(m.round);
            match m.message_id {
                Some(id) => {
                    lemma_node_id_len(id.node);
                    lemma_be_u64_len(id.seqno);
                },
                None => {},
            }
        },
        RpcMessageView::Plumtree(PlumtreeMessageView::Prune(m)) => {
            lemma_be_u16_len(m.round);
        },
    }
}

/// Returns the number of bytes of a node identifier.
fn node_id_size(id: &NodeId) -> (r: u64)
    ensures
        r == node_id_len(*id),
        15 <= r <= 35,
{
    if id.address.is_ipv4() {
        15
    } else {
        35
    }
}

/// Returns the number of bytes of a list of nodes.
fn node_ids_size(nodes: &Vec<NodeId>) -> (r: u128)
    ensures
        r == node_ids_len(nodes@),
        r <= 35 * nodes.len(),
{
    let mut size: u128 = 0;
    let mut i: usize = 0;
    proof {
        assert(nodes@.take(0) =~= Seq::<NodeId>::empty());
    }
    while i < nodes.len()
        invariant
            i <= nodes@.len(),
            size == node_ids_len(nodes@.take(i as int)),
            size <= 35 * i,
        decreases nodes@.len() - i,
    {
        proof {
            lemma_node_ids_len_push(nodes@.take(i as int), nodes@[i as int]);
            assert(nodes@.take(i as int).push(nodes@[i as int]) =~= nodes@.take(i + 1));
        }
        size = size + node_id_size(&nodes[i]) as u128;
        i = i + 1;
    }
    proof {
        assert(nodes@.take(nodes@.len() as int) =~= nodes@);
    }
    size
}

/// Returns the number of bytes of the frame that carries a message, or
/// `None` where that number is beyond 64 bits.
pub fn exact_frame_len(message: &RpcMessage) -> (r: Option<u64>)
    ensures
        match r {
            Some(n) => n == frame_len(message@),
            None => frame_len(message@) > u64::MAX,
        },
{
    let sender = message.sender();
    let header: u128 = 8 + node_id_size(&sender) as u128;
    let rest: u128 = match message {
        RpcMessage::Hyparview(m) => match m {
            HyparviewMessage::Join(_) => 0,
            HyparviewMessage::ForwardJoin(m) => node_id_size(&m.new_node) as u128 + 1,
            HyparviewMessage::Neighbor(_) => 1,
            HyparviewMessage::Shuffle(m) => node_id_size(&m.origin) as u128 + 1 + node_ids_size(
                &m.nodes,
            ),
            HyparviewMessage::ShuffleReply(m) => node_ids_size(&m.nodes),
            HyparviewMessage::Disconnect(_) => 1,
        },
        RpcMessage::Plumtree(m) => match m {
            PlumtreeMessage::Gossip(m) => 2 + (node_id_size(&m.message.id.node) as u128 + 8) + 4
                + m.message.payload.len() as u128,
            PlumtreeMessage::Ihave(m) => (node_id_size(&m.message_id.node) as u128 + 8) + 3,
            PlumtreeMessage::Graft(m) => match &m.message_id {
                Some(id) => 1 + (node_id_size(&id.node) as u128 + 8) + 2,
                None => 2,
            },
            PlumtreeMessage::Prune(_) => 2,
        },
    };
    let total: u128 = header + rest;
    if total <= u64::MAX as u128 {
        Some(total as u64)
    } else {
        None
    }
}

/// Encodes the frame that carries a message to the node `destination` of a
/// server. There is none for a pushed message whose payload is too long to
/// be written.
pub fn encode_frame(destination: LocalNodeId, message: &RpcMessage) -> (r: Result<Vec<u8>, Error>)
    ensures
        match r {
            Ok(bytes) => has_frame(message@) && bytes@ == frame_bytes(destination, message@),
            Err(e) => !has_frame(message@) && e.kind == ErrorKind::InvalidInput,
        },
{
    match message {
        RpcMessage::Hyparview(m) => match m {
            HyparviewMessage::Join(m) => Ok(encode_join(destination, m)),
            HyparviewMessage::ForwardJoin(m) => Ok(encode_forward_join(destination, m)),
            HyparviewMessage::Neighbor(m) => Ok(encode_neighbor(destination, m)),
            HyparviewMessage::Shuffle(m) => Ok(encode_shuffle(destination, m)),
            HyparviewMessage::ShuffleReply(m) => Ok(encode_shuffle_reply(destination, m)),
            HyparviewMessage::Disconnect(m) => Ok(encode_disconnect(destination, m)),
        },
        RpcMessage::Plumtree(m) => match m {
            PlumtreeMessage::Gossip(m) => encode_gossip(destination, m),
            PlumtreeMessage::Ihave(m) => Ok(encode_ihave(destination, m)),
            PlumtreeMessage::Graft(m) => if m.message_id.is_some() {
                Ok(encode_graft(destination, m))
            } else {
                Ok(encode_short_graft(destination, &m.sender, m.round))
            },
            PlumtreeMessage::Prune(m) => Ok(encode_prune(destination, m)),
        },
    }
}

/// Decodes the frame of a cast of the given procedure.
pub fn decode_cast(procedure: ProcedureId, frame: &[u8]) -> (r: Result<
    (LocalNodeId, RpcMessage),
    Error,
>)
    ensures
        match r {
            Ok((destination, m)) => frame_of(procedure, frame@) == Some((destination, m@)),
            Err(e) => frame_of(procedure, frame@) is None && e.kind == ErrorKind::InvalidInput,
        },
{
    let id: u32 = procedure.0;
    if id == JoinCast::ID {
        let (d, m) = decode_join(frame)?;
        Ok((d, RpcMessage::Hyparview(HyparviewMessage::Join(m))))
    } else if id == ForwardJoinCast::ID {
        let (d, m) = decode_forward_join(frame)?;
        Ok((d, RpcMessage::Hyparview(HyparviewMessage::ForwardJoin(m))))
    } else if id == NeighborCast::ID {
        let (d, m) = decode_neighbor(frame)?;
        Ok((d, RpcMessage::Hyparview(HyparviewMessage::Neighbor(m))))
    } else if id == ShuffleCast::ID {
        let (d, m) = decode_shuffle(frame)?;
        Ok((d, RpcMessage::Hyparview(HyparviewMessage::Shuffle(m))))
    } else if id == ShuffleReplyCast::ID {
        let (d, m) = decode_shuffle_reply(frame)?;
        Ok((d, RpcMessage::Hyparview(HyparviewMessage::ShuffleReply(m))))
    } else if id == DisconnectCast::ID {
        let (d, m) = decode_disconnect(frame)?;
        Ok((d, RpcMessage::Hyparview(HyparviewMessage::Disconnect(m))))
    } else if id == GossipCast::ID {
        let (d, m) = decode_gossip(frame)?;
        Ok((d, RpcMessage::Plumtree(PlumtreeMessage::Gossip(m))))
    } else if id == IhaveCast::ID {
        let (d, m) = decode_ihave(frame)?;
        Ok((d, RpcMessage::Plumtree(PlumtreeMessage::Ihave(m))))
    } else if id == GraftCast::ID {
        let (d, m) = decode_graft(frame)?;
        Ok((d, RpcMessage::Plumtree(PlumtreeMessage::Graft(m))))
    } else if id == GraftOptimizeCast::ID {
        let (d, m) = decode_graft_optimize(frame)?;
        Ok((d, RpcMessage::Plumtree(PlumtreeMessage::Graft(m))))
    } else if id == PruneCast::ID {
        let (d, m) = decode_prune(frame)?;
        Ok((d, RpcMessage::Plumtree(PlumtreeMessage::Prune(m))))
    } else {
        Err(invalid_input())
    }
}

} // verus!
