//! The wire format of the frames of the membership protocol.
//!
//! Every frame starts with the local identifier of the node that it is for,
//! then the identifier of the node that sent it. A list of nodes stands last
//! in its frame and ends where the frame ends.
use crate::codec::node::{
    get_local_node_id, get_node_id, lemma_local_node_id_round_trip, lemma_node_id_len,
    lemma_node_id_round_trip,
    local_node_id_at, local_node_id_bytes, node_id_at, node_id_bytes, node_id_len,
    put_local_node_id, put_node_id,
};
use crate::codec::{
    be_bool, get_u8, holds_at, invalid_input, lemma_concat_assoc, lemma_holds_at_concat,
    lemma_holds_at_self, put_bool, put_u8,
};
use crate::error::{Error, ErrorKind};
use crate::hyparview_misc::{
    DisconnectMessage, ForwardJoinMessage, JoinMessage, NeighborMessage, ShuffleMessage,
    ShuffleMessageView, ShuffleReplyMessage, ShuffleReplyMessageView, TimeToLive,
};
use crate::node_id::{LocalNodeId, NodeId};
use vstd::prelude::*;

verus! {

/// The bytes with which every frame starts.
pub open spec fn header_bytes(destination: LocalNodeId, sender: NodeId) -> Seq<u8> {
    local_node_id_bytes(destination) + node_id_bytes(sender)
}

/// The destination and the sender with which `b` starts, and the position
/// behind them.
pub open spec fn header_of(b: Seq<u8>) -> Option<(LocalNodeId, NodeId, int)> {
    match local_node_id_at(b, 0) {
        Some((destination, mid)) => match node_id_at(b, mid) {
            Some((sender, end)) => Some((destination, sender, end)),
            None => None,
        },
        None => None,
    }
}

/// The number of bytes of the start of a frame.
pub open spec fn header_len(sender: NodeId) -> int {
    8 + node_id_len(sender)
}

/// The start of a frame is read as it was written.
pub proof fn lemma_header_round_trip(b: Seq<u8>, destination: LocalNodeId, sender: NodeId)
    requires
        holds_at(b, 0, header_bytes(destination, sender)),
    ensures
        header_of(b) == Some((destination, sender, header_len(sender))),
        header_bytes(destination, sender).len() == header_len(sender),
{
    lemma_holds_at_concat(b, 0, local_node_id_bytes(destination), node_id_bytes(sender));
    lemma_local_node_id_round_trip(b, 0, destination);
    lemma_node_id_round_trip(b, 8, sender);
}

/// Writes the start of a frame.
pub(crate) fn put_header(out: &mut Vec<u8>, destination: LocalNodeId, sender: &NodeId)
    requires
        old(out)@.len() == 0,
    ensures
        final(out)@ == header_bytes(destination, *sender),
{
    put_local_node_id(out, destination);
    put_node_id(out, sender);
    proof {
        assert(out@ =~= header_bytes(destination, *sender));
    }
}

/// Reads the start of a frame, and returns the destination, the sender and
/// the position behind them.
pub fn get_header(buf: &[u8]) -> (r: Result<(LocalNodeId, NodeId, usize), Error>)
    ensures
        match r {
            Ok((destination, sender, end)) => header_of(buf@) == Some(
                (destination, sender, end as int),
            ) && end <= buf.len(),
            Err(e) => header_of(buf@) is None && e.kind == ErrorKind::InvalidInput,
        },
{
    let (destination, mid) = get_local_node_id(buf, 0)?;
    let (sender, end) = get_node_id(buf, mid)?;
    Ok((destination, sender, end))
}

/// The truth value that stands in `b` at `at`, where the frame ends behind
/// it: any byte but zero is true.
pub open spec fn last_bool_at(b: Seq<u8>, at: int) -> Option<bool> {
    if 0 <= at && at + 1 == b.len() {
        Some(b[at] != 0)
    } else {
        None
    }
}

/// Reads the truth value at `at`, where the frame has to end behind it.
pub fn get_last_bool(buf: &[u8], at: usize) -> (r: Result<bool, Error>)
    ensures
        match r {
            Ok(v) => last_bool_at(buf@, at as int) == Some(v),
            Err(e) => last_bool_at(buf@, at as int) is None && e.kind == ErrorKind::InvalidInput,
        },
{
    if at > buf.len() {
        return Err(invalid_input());
    }
    if buf.len() - at != 1 {
        return Err(invalid_input());
    }
    Ok(get_u8(buf, at) != 0)
}

/// The bytes of a list of nodes: those of each node, one after another.
pub open spec fn node_ids_bytes(nodes: Seq<NodeId>) -> Seq<u8>
    decreases nodes.len(),
{
    if nodes.len() == 0 {
        Seq::<u8>::empty()
    } else {
        node_id_bytes(nodes[0]) + node_ids_bytes(nodes.skip(1))
    }
}

/// The number of bytes of a list of nodes.
pub open spec fn node_ids_len(nodes: Seq<NodeId>) -> int
    decreases nodes.len(),
{
    if nodes.len() == 0 {
        0
    } else {
        node_id_len(nodes[0]) + node_ids_len(nodes.skip(1))
    }
}

/// A list of nodes has as many bytes as its nodes have together.
pub proof fn lemma_node_ids_len(nodes: Seq<NodeId>)
    ensures
        node_ids_bytes(nodes).len() == node_ids_len(nodes),
        node_ids_len(nodes) >= 0,
    decreases nodes.len(),
{
    if nodes.len() > 0 {
        lemma_node_ids_len(nodes.skip(1));
        lemma_node_id_len(nodes[0]);
    }
}

/// The number of bytes of a list with one more node at its end.
pub proof fn lemma_node_ids_len_push(nodes: Seq<NodeId>, node: NodeId)
    ensures
        node_ids_len(nodes.push(node)) == node_ids_len(nodes) + node_id_len(node),
{
    lemma_node_ids_bytes_push(nodes, node);
    lemma_node_ids_len(nodes.push(node));
    lemma_node_ids_len(nodes);
    lemma_node_id_len(node);
}

/// The list of nodes that stands in `b` from `at` to the end of `b`.
pub open spec fn node_ids_at(b: Seq<u8>, at: int) -> Option<Seq<NodeId>>
    decreases b.len() - at,
{
    if at >= b.len() {
        if at == b.len() {
            Some(Seq::<NodeId>::empty())
        } else {
            None
        }
    } else {
        match node_id_at(b, at) {
            Some((node, next)) => if next <= at {
                None
            } else {
                match node_ids_at(b, next) {
                    Some(rest) => Some(seq![node] + rest),
                    None => None,
                }
            },
            None => None,
        }
    }
}

/// The bytes of a list with one more node at its end.
pub proof fn lemma_node_ids_bytes_push(nodes: Seq<NodeId>, node: NodeId)
    ensures
        node_ids_bytes(nodes.push(node)) == node_ids_bytes(nodes) + node_id_bytes(node),
    decreases nodes.len(),
{
    let longer = nodes.push(node);
    let tail = node_id_bytes(node);
    if nodes.len() == 0 {
        assert(longer.skip(1) =~= Seq::<NodeId>::empty());
        assert(longer[0] == node);
        assert(node_ids_bytes(longer.skip(1)) == Seq::<u8>::empty());
        assert(node_ids_bytes(nodes) == Seq::<u8>::empty());
        assert(node_ids_bytes(longer) == tail + Seq::<u8>::empty());
        lemma_concat_assoc(Seq::<u8>::empty(), tail, Seq::<u8>::empty());
        assert(tail + Seq::<u8>::empty() =~= tail);
        assert(Seq::<u8>::empty() + tail =~= tail);
    } else {
        lemma_node_ids_bytes_push(nodes.skip(1), node);
        assert(longer.skip(1) =~= nodes.skip(1).push(node));
        assert(longer[0] == nodes[0]);
        let first = node_id_bytes(nodes[0]);
        let middle = node_ids_bytes(nodes.skip(1));
        assert(node_ids_bytes(longer) == first + (middle + tail));
        assert(node_ids_bytes(nodes) == first + middle);
        lemma_concat_assoc(first, middle, tail);
    }
}

/// A list of nodes at the end of a frame is read as it was written.
pub proof fn lemma_node_ids_round_trip(b: Seq<u8>, at: int, nodes: Seq<NodeId>)
    requires
        holds_at(b, at, node_ids_bytes(nodes)),
        at + node_ids_bytes(nodes).len() == b.len(),
    ensures
        node_ids_at(b, at) == Some(nodes),
    decreases nodes.len(),
{
    if nodes.len() == 0 {
        assert(nodes =~= Seq::<NodeId>::empty());
    } else {
        let rest = nodes.skip(1);
        lemma_holds_at_concat(b, at, node_id_bytes(nodes[0]), node_ids_bytes(rest));
        lemma_node_id_round_trip(b, at, nodes[0]);
        lemma_node_ids_round_trip(b, at + node_id_len(nodes[0]), rest);
        assert(seq![nodes[0]] + rest =~= nodes);
    }
}

/// Writes a list of nodes.
pub fn put_node_ids(out: &mut Vec<u8>, nodes: &Vec<NodeId>)
    ensures
        final(out)@ == old(out)@ + node_ids_bytes(nodes@),
{
    let mut i: usize = 0;
    proof {
        assert(nodes@.take(0) =~= Seq::<NodeId>::empty());
        assert(out@ =~= old(out)@ + node_ids_bytes(nodes@.take(0)));
    }
    while i < nodes.len()
        invariant
            i <= nodes@.len(),
            out@ == old(out)@ + node_ids_bytes(nodes@.take(i as int)),
        decreases nodes@.len() - i,
    {
        put_node_id(out, &nodes[i]);
        proof {
            lemma_node_ids_bytes_push(nodes@.take(i as int), nodes@[i as int]);
            assert(nodes@.take(i as int).push(nodes@[i as int]) =~= nodes@.take(i + 1));
            assert(out@ =~= old(out)@ + node_ids_bytes(nodes@.take(i + 1)));
        }
        i = i + 1;
    }
    proof {
        assert(nodes@.take(nodes@.len() as int) =~= nodes@);
    }
}

/// Reads the list of nodes that stands from `at` to the end of the frame.
pub fn get_node_ids(buf: &[u8], at: usize) -> (r: Result<Vec<NodeId>, Error>)
    ensures
        match r {
            Ok(nodes) => node_ids_at(buf@, at as int) == Some(nodes@),
            Err(e) => node_ids_at(buf@, at as int) is None && e.kind == ErrorKind::InvalidInput,
        },
{
    if at > buf.len() {
        return Err(invalid_input());
    }
    let mut nodes: Vec<NodeId> = Vec::new();
    let mut pos: usize = at;
    proof {
        assert(forall|rest: Seq<NodeId>| nodes@ + rest =~= rest);
    }
    while pos < buf.len()
        invariant
            at <= pos <= buf.len(),
            node_ids_at(buf@, at as int) == match node_ids_at(buf@, pos as int) {
                Some(rest) => Some(nodes@ + rest),
                None => None,
            },
        decreases buf.len() - pos,
    {
        match get_node_id(buf, pos) {
            Ok((node, next)) => {
                proof {
                    let rest_opt = node_ids_at(buf@, next as int);
                    if rest_opt is Some {
                        assert((nodes@ + (seq![node] + rest_opt.unwrap())) =~= (nodes@.push(node)
                            + rest_opt.unwrap()));
                    }
                }
                nodes.push(node);
                pos = next;
            },
            Err(e) => {
                return Err(e);
            },
        }
    }
    proof {
        assert(nodes@ + Seq::<NodeId>::empty() =~= nodes@);
    }
    Ok(nodes)
}

/// The bytes of a `JOIN` frame.
pub open spec fn join_bytes(destination: LocalNodeId, m: JoinMessage) -> Seq<u8> {
    header_bytes(destination, m.sender)
}

/// The `JOIN` frame that `b` holds.
pub open spec fn join_of(b: Seq<u8>) -> Option<(LocalNodeId, JoinMessage)> {
    match header_of(b) {
        Some((destination, sender, end)) => if end == b.len() {
            Some((destination, JoinMessage { sender }))
        } else {
            None
        },
        None => None,
    }
}

/// A `JOIN` frame is decoded as it was encoded.
pub proof fn lemma_join_round_trip(destination: LocalNodeId, m: JoinMessage)
    ensures
        join_of(join_bytes(destination, m)) == Some((destination, m)),
{
    let b = join_bytes(destination, m);
    lemma_holds_at_self(b);
    lemma_header_round_trip(b, destination, m.sender);
}

/// Encodes a `JOIN` frame.
pub fn encode_join(destination: LocalNodeId, m: &JoinMessage) -> (r: Vec<u8>)
    ensures
        r@ == join_bytes(destination, *m),
{
    let mut out: Vec<u8> = Vec::new();
    put_header(&mut out, destination, &m.sender);
    out
}

/// Decodes a `JOIN` frame.
pub fn decode_join(buf: &[u8]) -> (r: Result<(LocalNodeId, JoinMessage), Error>)
    ensures
        match r {
            Ok(frame) => join_of(buf@) == Some(frame),
            Err(e) => join_of(buf@) is None && e.kind == ErrorKind::InvalidInput,
        },
{
    let (destination, sender, end) = get_header(buf)?;
    if end != buf.len() {
        return Err(invalid_input());
    }
    Ok((destination, JoinMessage { sender }))
}

/// The bytes of a `FORWARD_JOIN` frame.
pub open spec fn forward_join_bytes(destination: LocalNodeId, m: ForwardJoinMessage) -> Seq<u8> {
    header_bytes(destination, m.sender) + node_id_bytes(m.new_node) + seq![m.ttl.0]
}

/// The `FORWARD_JOIN` frame that `b` holds.
pub open spec fn forward_join_of(b: Seq<u8>) -> Option<(LocalNodeId, ForwardJoinMessage)> {
    match header_of(b) {
        Some((destination, sender, mid)) => match node_id_at(b, mid) {
            Some((new_node, end)) => if end + 1 == b.len() {
                Some((destination, ForwardJoinMessage { sender, new_node, ttl: TimeToLive(b[end]) }))
            } else {
                None
            },
            None => None,
        },
        None => None,
    }
}

/// A `FORWARD_JOIN` frame is decoded as it was encoded.
pub proof fn lemma_forward_join_round_trip(destination: LocalNodeId, m: ForwardJoinMessage)
    ensures
        forward_join_of(forward_join_bytes(destination, m)) == Some((destination, m)),
{
    let b = forward_join_bytes(destination, m);
    let h = header_bytes(destination, m.sender);
    lemma_holds_at_self(b);
    lemma_holds_at_concat(b, 0, h + node_id_bytes(m.new_node), seq![m.ttl.0]);
    lemma_holds_at_concat(b, 0, h, node_id_bytes(m.new_node));
    lemma_header_round_trip(b, destination, m.sender);
    lemma_node_id_round_trip(b, header_len(m.sender), m.new_node);
    let end = header_len(m.sender) + node_id_len(m.new_node);
    assert(b[end + 0] == seq![m.ttl.0][0]);
}

/// Encodes a `FORWARD_JOIN` frame.
pub fn encode_forward_join(destination: LocalNodeId, m: &ForwardJoinMessage) -> (r: Vec<u8>)
    ensures
        r@ == forward_join_bytes(destination, *m),
{
    let mut out: Vec<u8> = Vec::new();
    put_header(&mut out, destination, &m.sender);
    put_node_id(&mut out, &m.new_node);
    put_u8(&mut out, m.ttl.as_u8());
    out
}

/// Decodes a `FORWARD_JOIN` frame.
pub fn decode_forward_join(buf: &[u8]) -> (r: Result<(LocalNodeId, ForwardJoinMessage), Error>)
    ensures
        match r {
            Ok(frame) => forward_join_of(buf@) == Some(frame),
            Err(e) => forward_join_of(buf@) is None && e.kind == ErrorKind::InvalidInput,
        },
{
    let (destination, sender, mid) = get_header(buf)?;
    let (new_node, end) = get_node_id(buf, mid)?;
    if buf.len() - end != 1 {
        return Err(invalid_input());
    }
    let ttl = TimeToLive::new(get_u8(buf, end));
    Ok((destination, ForwardJoinMessage { sender, new_node, ttl }))
}

/// The bytes of a `NEIGHBOR` frame.
pub open spec fn neighbor_bytes(destination: LocalNodeId, m: NeighborMessage) -> Seq<u8> {
    header_bytes(destination, m.sender) + be_bool(m.high_priority)
}

/// The `NEIGHBOR` frame that `b` holds.
pub open spec fn neighbor_of(b: Seq<u8>) -> Option<(LocalNodeId, NeighborMessage)> {
    match header_of(b) {
        Some((destination, sender, end)) => match last_bool_at(b, end) {
            Some(high_priority) => Some((destination, NeighborMessage { sender, high_priority })),
            None => None,
        },
        None => None,
    }
}

/// A `NEIGHBOR` frame is decoded as it was encoded.
pub proof fn lemma_neighbor_round_trip(destination: LocalNodeId, m: NeighborMessage)
    ensures
        neighbor_of(neighbor_bytes(destination, m)) == Some((destination, m)),
{
    let b = neighbor_bytes(destination, m);
    lemma_holds_at_self(b);
    lemma_holds_at_concat(b, 0, header_bytes(destination, m.sender), be_bool(m.high_priority));
    lemma_header_round_trip(b, destination, m.sender);
    assert(b[header_len(m.sender) + 0] == be_bool(m.high_priority)[0]);
}

/// Encodes a `NEIGHBOR` frame.
pub fn encode_neighbor(destination: LocalNodeId, m: &NeighborMessage) -> (r: Vec<u8>)
    ensures
        r@ == neighbor_bytes(destination, *m),
{
    let mut out: Vec<u8> = Vec::new();
    put_header(&mut out, destination, &m.sender);
    put_bool(&mut out, m.high_priority);
    out
}

/// Decodes a `NEIGHBOR` frame.
pub fn decode_neighbor(buf: &[u8]) -> (r: Result<(LocalNodeId, NeighborMessage), Error>)
    ensures
        match r {
            Ok(frame) => neighbor_of(buf@) == Some(frame),
            Err(e) => neighbor_of(buf@) is None && e.kind == ErrorKind::InvalidInput,
        },
{
    let (destination, sender, end) = get_header(buf)?;
    let high_priority = get_last_bool(buf, end)?;
    Ok((destination, NeighborMessage { sender, high_priority }))
}

/// The bytes of a `SHUFFLE` frame.
pub open spec fn shuffle_bytes(destination: LocalNodeId, m: ShuffleMessageView) -> Seq<u8> {
    header_bytes(destination, m.sender) + node_id_bytes(m.origin) + seq![m.ttl.0] + node_ids_bytes(
        m.nodes,
    )
}

/// The `SHUFFLE` frame that `b` holds.
pub open spec fn shuffle_of(b: Seq<u8>) -> Option<(LocalNodeId, ShuffleMessageView)> {
    match header_of(b) {
        Some((destination, sender, mid)) => match node_id_at(b, mid) {
            Some((origin, end)) => if end + 1 <= b.len() {
                match node_ids_at(b, end + 1) {
                    Some(nodes) => Some(
                        (
                            destination,
                            ShuffleMessageView { sender, origin, nodes, ttl: TimeToLive(b[end]) },
                        ),
                    ),
                    None => None,
                }
            } else {
                None
            },
            None => None,
        },
        None => None,
    }
}

/// A `SHUFFLE` frame is decoded as it was encoded.
pub proof fn lemma_shuffle_round_trip(destination: LocalNodeId, m: ShuffleMessageView)
    ensures
        shuffle_of(shuffle_bytes(destination, m)) == Some((destination, m)),
{
    let b = shuffle_bytes(destination, m);
    let h = header_bytes(destination, m.sender);
    let e2 = h + node_id_bytes(m.origin);
    let e3 = e2 + seq![m.ttl.0];
    lemma_holds_at_self(b);
    lemma_holds_at_concat(b, 0, e3, node_ids_bytes(m.nodes));
    lemma_holds_at_concat(b, 0, e2, seq![m.ttl.0]);
    lemma_holds_at_concat(b, 0, h, node_id_bytes(m.origin));
    lemma_header_round_trip(b, destination, m.sender);
    lemma_node_id_round_trip(b, header_len(m.sender), m.origin);
    let end = header_len(m.sender) + node_id_len(m.origin);
    assert(b[end + 0] == seq![m.ttl.0][0]);
    lemma_node_ids_round_trip(b, end + 1, m.nodes);
}

/// Encodes a `SHUFFLE` frame.
pub fn encode_shuffle(destination: LocalNodeId, m: &ShuffleMessage) -> (r: Vec<u8>)
    ensures
        r@ == shuffle_bytes(destination, m@),
{
    let mut out: Vec<u8> = Vec::new();
    put_header(&mut out, destination, &m.sender);
    put_node_id(&mut out, &m.origin);
    put_u8(&mut out, m.ttl.as_u8());
    put_node_ids(&mut out, &m.nodes);
    out
}

/// Decodes a `SHUFFLE` frame.
pub fn decode_shuffle(buf: &[u8]) -> (r: Result<(LocalNodeId, ShuffleMessage), Error>)
    ensures
        match r {
            Ok((destination, m)) => shuffle_of(buf@) == Some((destination, m@)),
            Err(e) => shuffle_of(buf@) is None && e.kind == ErrorKind::InvalidInput,
        },
{
    let (destination, sender, mid) = get_header(buf)?;
    let (origin, end) = get_node_id(buf, mid)?;
    if buf.len() - end < 1 {
        return Err(invalid_input());
    }
    let ttl = TimeToLive::new(get_u8(buf, end));
    let nodes = get_node_ids(buf, end + 1)?;
    Ok((destination, ShuffleMessage { sender, origin, nodes, ttl }))
}

/// The bytes of a `SHUFFLE_REPLY` frame.
pub open spec fn shuffle_reply_bytes(destination: LocalNodeId, m: ShuffleReplyMessageView) -> Seq<
    u8,
> {
    header_bytes(destination, m.sender) + node_ids_bytes(m.nodes)
}

/// The `SHUFFLE_REPLY` frame that `b` holds.
pub open spec fn shuffle_reply_of(b: Seq<u8>) -> Option<(LocalNodeId, ShuffleReplyMessageView)> {
    match header_of(b) {
        Some((destination, sender, end)) => match node_ids_at(b, end) {
            Some(nodes) => Some((destination, ShuffleReplyMessageView { sender, nodes })),
            None => None,
        },
        None => None,
    }
}

/// A `SHUFFLE_REPLY` frame is decoded as it was encoded.
pub proof fn lemma_shuffle_reply_round_trip(destination: LocalNodeId, m: ShuffleReplyMessageView)
    ensures
        shuffle_reply_of(shuffle_reply_bytes(destination, m)) == Some((destination, m)),
{
    let b = shuffle_reply_bytes(destination, m);
    lemma_holds_at_self(b);
    lemma_holds_at_concat(b, 0, header_bytes(destination, m.sender), node_ids_bytes(m.nodes));
    lemma_header_round_trip(b, destination, m.sender);
    lemma_node_ids_round_trip(b, header_len(m.sender), m.nodes);
}

/// Encodes a `SHUFFLE_REPLY` frame.
pub fn encode_shuffle_reply(destination: LocalNodeId, m: &ShuffleReplyMessage) -> (r: Vec<u8>)
    ensures
        r@ == shuffle_reply_bytes(destination, m@),
{
    let mut out: Vec<u8> = Vec::new();
    put_header(&mut out, destination, &m.sender);
    put_node_ids(&mut out, &m.nodes);
    out
}

/// Decodes a `SHUFFLE_REPLY` frame.
pub fn decode_shuffle_reply(buf: &[u8]) -> (r: Result<(LocalNodeId, ShuffleReplyMessage), Error>)
    ensures
        match r {
            Ok((destination, m)) => shuffle_reply_of(buf@) == Some((destination, m@)),
            Err(e) => shuffle_reply_of(buf@) is None && e.kind == ErrorKind::InvalidInput,
        },
{
    let (destination, sender, end) = get_header(buf)?;
    let nodes = get_node_ids(buf, end)?;
    Ok((destination, ShuffleReplyMessage { sender, nodes }))
}

/// The bytes of a `DISCONNECT` frame.
pub open spec fn disconnect_bytes(destination: LocalNodeId, m: DisconnectMessage) -> Seq<u8> {
    header_bytes(destination, m.sender) + be_bool(m.alive)
}

/// The `DISCONNECT` frame that `b` holds.
pub open spec fn disconnect_of(b: Seq<u8>) -> Option<(LocalNodeId, DisconnectMessage)> {
    match header_of(b) {
        Some((destination, sender, end)) => match last_bool_at(b, end) {
            Some(alive) => Some((destination, DisconnectMessage { sender, alive })),
            None => None,
        },
        None => None,
    }
}

/// A `DISCONNECT` frame is decoded as it was encoded.
pub proof fn lemma_disconnect_round_trip(destination: LocalNodeId, m: DisconnectMessage)
    ensures
        disconnect_of(disconnect_bytes(destination, m)) == Some((destination, m)),
{
    let b = disconnect_bytes(destination, m);
    lemma_holds_at_self(b);
    lemma_holds_at_concat(b, 0, header_bytes(destination, m.sender), be_bool(m.alive));
    lemma_header_round_trip(b, destination, m.sender);
    assert(b[header_len(m.sender) + 0] == be_bool(m.alive)[0]);
}

/// Encodes a `DISCONNECT` frame.
pub fn encode_disconnect(destination: LocalNodeId, m: &DisconnectMessage) -> (r: Vec<u8>)
    ensures
        r@ == disconnect_bytes(destination, *m),
{
    let mut out: Vec<u8> = Vec::new();
    put_header(&mut out, destination, &m.sender);
    put_bool(&mut out, m.alive);
    out
}

/// Decodes a `DISCONNECT` frame.
pub fn decode_disconnect(buf: &[u8]) -> (r: Result<(LocalNodeId, DisconnectMessage), Error>)
    ensures
        match r {
            Ok(frame) => disconnect_of(buf@) == Some(frame),
            Err(e) => disconnect_of(buf@) is None && e.kind == ErrorKind::InvalidInput,
        },
{
    let (destination, sender, end) = get_header(buf)?;
    let alive = get_last_bool(buf, end)?;
    Ok((destination, DisconnectMessage { sender, alive }))
}

} // verus!
