//! The wire format of the frames of the broadcast tree protocol.
//!
//! Every frame starts with the local identifier of the node that it is for,
//! then the identifier of the node that sent it. The payload of a message is
//! written as its length in four bytes, then its bytes.
use crate::codec::hyparview::{
    get_header, get_last_bool, header_bytes, header_len, header_of, last_bool_at,
    lemma_header_round_trip, put_header,
};
use crate::codec::node::{
    get_node_id, lemma_node_id_round_trip, node_id_at, node_id_bytes, node_id_len, put_node_id,
};
use crate::codec::{
    be_bool, be_u16, be_u32, be_u64, get_u16, get_u32, get_u64, get_u8, holds_at, invalid_input,
    lemma_concat_assoc, lemma_holds_at_concat, lemma_holds_at_self, lemma_u16_round_trip, lemma_u32_round_trip,
    lemma_u64_round_trip, put_bool, put_u16, put_u32, put_u64, put_u8, u16_at, u32_at, u64_at,
};
use crate::error::{Error, ErrorKind};
use crate::message::{Message, MessageId, MessageView};
use crate::node_id::{LocalNodeId, NodeId};
use crate::plumtree_misc::{
    GossipMessage, GossipMessageView, GraftMessage, IhaveMessage, PruneMessage,
};
use vstd::prelude::*;
use vstd::slice::{slice_subrange, slice_to_vec};

verus! {

/// The bytes of a message identifier: its node, then the eight bytes of its
/// sequence number.
pub open spec fn message_id_bytes(id: MessageId) -> Seq<u8> {
    node_id_bytes(id.node) + be_u64(id.seqno)
}

/// The number of bytes of a message identifier.
pub open spec fn message_id_len(id: MessageId) -> int {
    node_id_len(id.node) + 8
}

/// The message identifier that stands in `b` at `at`, with the position
/// behind it.
pub open spec fn message_id_at(b: Seq<u8>, at: int) -> Option<(MessageId, int)> {
    match node_id_at(b, at) {
        Some((node, mid)) => if mid + 8 <= b.len() {
            Some((MessageId { node, seqno: u64_at(b, mid) }, mid + 8))
        } else {
            None
        },
        None => None,
    }
}

/// A message identifier is read as it was written, wherever its bytes stand.
pub proof fn lemma_message_id_round_trip(b: Seq<u8>, at: int, id: MessageId)
    requires
        holds_at(b, at, message_id_bytes(id)),
    ensures
        message_id_at(b, at) == Some((id, at + message_id_len(id))),
        message_id_bytes(id).len() == message_id_len(id),
{
    lemma_holds_at_concat(b, at, node_id_bytes(id.node), be_u64(id.seqno));
    lemma_node_id_round_trip(b, at, id.node);
    lemma_u64_round_trip(b, at + node_id_len(id.node), id.seqno);
}

/// Writes a message identifier.
pub fn put_message_id(out: &mut Vec<u8>, id: &MessageId)
    ensures
        final(out)@ == old(out)@ + message_id_bytes(*id),
{
    put_node_id(out, &id.node);
    put_u64(out, id.seqno);
    proof {
        assert(out@ =~= old(out)@ + message_id_bytes(*id));
    }
}

/// Reads the message identifier at `at`, and returns it with the position behind it.
pub fn get_message_id(buf: &[u8], at: usize) -> (r: Result<(MessageId, usize), Error>)
    ensures
        match r {
            Ok((id, end)) => message_id_at(buf@, at as int) == Some((id, end as int)) && end
                <= buf.len(),
            Err(e) => message_id_at(buf@, at as int) is None && e.kind == ErrorKind::InvalidInput,
        },
{
    if at > buf.len() {
        return Err(invalid_input());
    }
    let (node, mid) = get_node_id(buf, at)?;
    if buf.len() - mid < 8 {
        return Err(invalid_input());
    }
    let seqno: u64 = get_u64(buf, mid);
    Ok((MessageId::new(node, seqno), mid + 8))
}

/// The longest payload that can be written.
pub const MAX_PAYLOAD_LEN: usize = 0xffff_ffff;

/// The bytes of a payload of at most [`MAX_PAYLOAD_LEN`] bytes.
pub open spec fn payload_bytes(payload: Seq<u8>) -> Seq<u8> {
    be_u32(payload.len() as u32) + payload
}

/// The payload that stands in `b` at `at`, where the frame ends behind it.
pub open spec fn last_payload_at(b: Seq<u8>, at: int) -> Option<Seq<u8>> {
    if 0 <= at && at + 4 <= b.len() && at + 4 + u32_at(b, at) == b.len() {
        Some(b.subrange(at + 4, b.len() as int))
    } else {
        None
    }
}

/// A payload at the end of a frame is read as it was written.
pub proof fn lemma_payload_round_trip(b: Seq<u8>, at: int, payload: Seq<u8>)
    requires
        payload.len() <= MAX_PAYLOAD_LEN,
        holds_at(b, at, payload_bytes(payload)),
        at + payload_bytes(payload).len() == b.len(),
    ensures
        last_payload_at(b, at) == Some(payload),
{
    let n = payload.len() as u32;
    lemma_holds_at_concat(b, at, be_u32(n), payload);
    lemma_u32_round_trip(b, at, n);
    assert(b.subrange(at + 4, b.len() as int) =~= payload) by {
        assert forall|i: int| 0 <= i < payload.len() implies b[at + 4 + i] == payload[i] by {
            assert(b[at + 4 + i] == payload[i]);
        }
    }
}

/// Writes a payload.
pub(crate) fn put_payload(out: &mut Vec<u8>, payload: &[u8])
    requires
        payload@.len() <= MAX_PAYLOAD_LEN,
    ensures
        final(out)@ == old(out)@ + payload_bytes(payload@),
{
    put_u32(out, payload.len() as u32);
    let ghost before = out@;
    out.extend_from_slice(payload);
    proof {
        assert(out@ =~= before + payload@);
        lemma_concat_assoc(
            old(out)@,
            be_u32(payload@.len() as u32),
            payload@,
        );
    }
}

/// The bytes of a `GOSSIP` frame.
pub open spec fn gossip_bytes(destination: LocalNodeId, m: GossipMessageView) -> Seq<u8> {
    header_bytes(destination, m.sender) + be_u16(m.round) + message_id_bytes(m.message.id)
        + payload_bytes(m.message.payload)
}

/// The `GOSSIP` frame that `b` holds.
pub open spec fn gossip_of(b: Seq<u8>) -> Option<(LocalNodeId, GossipMessageView)> {
    match header_of(b) {
        Some((destination, sender, p)) => if p + 2 <= b.len() {
            match message_id_at(b, p + 2) {
                Some((id, q)) => match last_payload_at(b, q) {
                    Some(payload) => Some(
                        (
                            destination,
                            GossipMessageView {
                                sender,
                                message: MessageView { id, payload },
                                round: u16_at(b, p),
                            },
                        ),
                    ),
                    None => None,
                },
                None => None,
            }
        } else {
            None
        },
        None => None,
    }
}

/// A `GOSSIP` frame is decoded as it was encoded.
pub proof fn lemma_gossip_round_trip(destination: LocalNodeId, m: GossipMessageView)
    requires
        m.message.payload.len() <= MAX_PAYLOAD_LEN,
    ensures
        gossip_of(gossip_bytes(destination, m)) == Some((destination, m)),
{
    let b = gossip_bytes(destination, m);
    let h = header_bytes(destination, m.sender);
    let e2 = h + be_u16(m.round);
    let e3 = e2 + message_id_bytes(m.message.id);
    lemma_holds_at_self(b);
    lemma_holds_at_concat(b, 0, e3, payload_bytes(m.message.payload));
    lemma_holds_at_concat(b, 0, e2, message_id_bytes(m.message.id));
    lemma_holds_at_concat(b, 0, h, be_u16(m.round));
    lemma_header_round_trip(b, destination, m.sender);
    let p = header_len(m.sender);
    lemma_u16_round_trip(b, p, m.round);
    lemma_message_id_round_trip(b, p + 2, m.message.id);
    lemma_payload_round_trip(b, p + 2 + message_id_len(m.message.id), m.message.payload);
}

/// The message that a `GOSSIP` frame carries is the message that it was
/// made for: the same identifier, the same payload.
pub proof fn lemma_gossip_carries_message(destination: LocalNodeId, m: GossipMessageView)
    requires
        m.message.payload.len() <= MAX_PAYLOAD_LEN,
    ensures
        gossip_of(gossip_bytes(destination, m)) is Some,
        gossip_of(gossip_bytes(destination, m)).unwrap().1.message == m.message,
{
    lemma_gossip_round_trip(destination, m);
}

/// A `GRAFT` message has one form for the state machine, whichever frame
/// carried it: the frame with the byte that tells whether the identifier of
/// a message follows, or the short frame of a request that names no message.
pub proof fn lemma_graft_one_form(destination: LocalNodeId, m: GraftMessage)
    ensures
        graft_of(graft_bytes(destination, m)) == Some((destination, m)),
        m.message_id is None ==> graft_optimize_of(graft_optimize_bytes(destination, m)) == Some(
            (destination, m),
        ),
{
    lemma_graft_round_trip(destination, m);
    if m.message_id is None {
        lemma_graft_optimize_round_trip(destination, m);
    }
}

/// Encodes a `GOSSIP` frame. A payload of more than [`MAX_PAYLOAD_LEN`]
/// bytes cannot be written.
pub fn encode_gossip(destination: LocalNodeId, m: &GossipMessage) -> (r: Result<Vec<u8>, Error>)
    ensures
        match r {
            Ok(bytes) => m.message.payload@.len() <= MAX_PAYLOAD_LEN && bytes@ == gossip_bytes(
                destination,
                m@,
            ),
            Err(e) => m.message.payload@.len() > MAX_PAYLOAD_LEN && e.kind
                == ErrorKind::InvalidInput,
        },
{
    let len: usize = m.message.payload.len();
    if len > MAX_PAYLOAD_LEN {
        return Err(invalid_input());
    }
    let mut out: Vec<u8> = Vec::new();
    put_header(&mut out, destination, &m.sender);
    put_u16(&mut out, m.round);
    put_message_id(&mut out, &m.message.id);
    put_payload(&mut out, m.message.payload.as_slice());
    Ok(out)
}

/// Decodes a `GOSSIP` frame.
pub fn decode_gossip(buf: &[u8]) -> (r: Result<(LocalNodeId, GossipMessage), Error>)
    ensures
        match r {
            Ok((destination, m)) => gossip_of(buf@) == Some((destination, m@)),
            Err(e) => gossip_of(buf@) is None && e.kind == ErrorKind::InvalidInput,
        },
{
    let (destination, sender, p) = get_header(buf)?;
    if buf.len() - p < 2 {
        return Err(invalid_input());
    }
    let round: u16 = get_u16(buf, p);
    let (id, q) = get_message_id(buf, p + 2)?;
    if buf.len() - q < 4 {
        return Err(invalid_input());
    }
    let n: u32 = get_u32(buf, q);
    if buf.len() - q - 4 != n as usize {
        return Err(invalid_input());
    }
    let payload: Vec<u8> = slice_to_vec(slice_subrange(buf, q + 4, buf.len()));
    Ok((destination, GossipMessage { sender, message: Message::new(id, payload), round }))
}

/// The bytes of an `IHAVE` frame.
pub open spec fn ihave_bytes(destination: LocalNodeId, m: IhaveMessage) -> Seq<u8> {
    header_bytes(destination, m.sender) + message_id_bytes(m.message_id) + be_u16(m.round)
        + be_bool(m.realtime)
}

/// The `IHAVE` frame that `b` holds.
pub open spec fn ihave_of(b: Seq<u8>) -> Option<(LocalNodeId, IhaveMessage)> {
    match header_of(b) {
        Some((destination, sender, p)) => match message_id_at(b, p) {
            Some((message_id, q)) => match last_bool_at(b, q + 2) {
                Some(realtime) => Some(
                    (
                        destination,
                        IhaveMessage { sender, message_id, round: u16_at(b, q), realtime },
                    ),
                ),
                None => None,
            },
            None => None,
        },
        None => None,
    }
}

/// An `IHAVE` frame is decoded as it was encoded.
pub proof fn lemma_ihave_round_trip(destination: LocalNodeId, m: IhaveMessage)
    ensures
        ihave_of(ihave_bytes(destination, m)) == Some((destination, m)),
{
    let b = ihave_bytes(destination, m);
    let h = header_bytes(destination, m.sender);
    let e2 = h + message_id_bytes(m.message_id);
    let e3 = e2 + be_u16(m.round);
    lemma_holds_at_self(b);
    lemma_holds_at_concat(b, 0, e3, be_bool(m.realtime));
    lemma_holds_at_concat(b, 0, e2, be_u16(m.round));
    lemma_holds_at_concat(b, 0, h, message_id_bytes(m.message_id));
    lemma_header_round_trip(b, destination, m.sender);
    let p = header_len(m.sender);
    lemma_message_id_round_trip(b, p, m.message_id);
    let q = p + message_id_len(m.message_id);
    lemma_u16_round_trip(b, q, m.round);
    assert(b[q + 2 + 0] == be_bool(m.realtime)[0]);
}

/// Encodes an `IHAVE` frame.
pub fn encode_ihave(destination: LocalNodeId, m: &IhaveMessage) -> (r: Vec<u8>)
    ensures
        r@ == ihave_bytes(destination, *m),
{
    let mut out: Vec<u8> = Vec::new();
    put_header(&mut out, destination, &m.sender);
    put_message_id(&mut out, &m.message_id);
    put_u16(&mut out, m.round);
    put_bool(&mut out, m.realtime);
    out
}

/// Decodes an `IHAVE` frame.
pub fn decode_ihave(buf: &[u8]) -> (r: Result<(LocalNodeId, IhaveMessage), Error>)
    ensures
        match r {
            Ok(frame) => ihave_of(buf@) == Some(frame),
            Err(e) => ihave_of(buf@) is None && e.kind == ErrorKind::InvalidInput,
        },
{
    let (destination, sender, p) = get_header(buf)?;
    let (message_id, q) = get_message_id(buf, p)?;
    if buf.len() - q < 2 {
        return Err(invalid_input());
    }
    let round: u16 = get_u16(buf, q);
    let realtime = get_last_bool(buf, q + 2)?;
    Ok((destination, IhaveMessage { sender, message_id, round, realtime }))
}

/// The round that stands in `b` at `at`, where the frame ends behind it.
pub open spec fn last_round_at(b: Seq<u8>, at: int) -> Option<u16> {
    if 0 <= at && at + 2 == b.len() {
        Some(u16_at(b, at))
    } else {
        None
    }
}

/// Reads the round at `at`, where the frame has to end behind it.
pub fn get_last_round(buf: &[u8], at: usize) -> (r: Result<u16, Error>)
    ensures
        match r {
            Ok(v) => last_round_at(buf@, at as int) == Some(v),
            Err(e) => last_round_at(buf@, at as int) is None && e.kind == ErrorKind::InvalidInput,
        },
{
    if at > buf.len() {
        return Err(invalid_input());
    }
    if buf.len() - at != 2 {
        return Err(invalid_input());
    }
    Ok(get_u16(buf, at))
}

/// The bytes of a `GRAFT` frame: behind the start a byte that tells whether
/// the identifier of a message follows, one if it does and zero if not, then
/// that identifier if there is one, then the round.
pub open spec fn graft_bytes(destination: LocalNodeId, m: GraftMessage) -> Seq<u8> {
    match m.message_id {
        Some(id) => header_bytes(destination, m.sender) + seq![1u8] + message_id_bytes(id)
            + be_u16(m.round),
        None => header_bytes(destination, m.sender) + seq![0u8] + be_u16(m.round),
    }
}

/// The `GRAFT` frame that `b` holds. A byte other than zero and one where
/// the frame tells whether the identifier of a message follows makes no frame.
pub open spec fn graft_of(b: Seq<u8>) -> Option<(LocalNodeId, GraftMessage)> {
    match header_of(b) {
        Some((destination, sender, p)) => if p + 1 <= b.len() {
            if b[p] == 0 {
                match last_round_at(b, p + 1) {
                    Some(round) => Some(
                        (destination, GraftMessage { sender, message_id: None, round }),
                    ),
                    None => None,
                }
            } else if b[p] == 1 {
                match message_id_at(b, p + 1) {
                    Some((id, q)) => match last_round_at(b, q) {
                        Some(round) => Some(
                            (destination, GraftMessage { sender, message_id: Some(id), round }),
                        ),
                        None => None,
                    },
                    None => None,
                }
            } else {
                None
            }
        } else {
            None
        },
        None => None,
    }
}

/// A `GRAFT` frame is decoded as it was encoded, with the identifier of a
/// message and without.
pub proof fn lemma_graft_round_trip(destination: LocalNodeId, m: GraftMessage)
    ensures
        graft_of(graft_bytes(destination, m)) == Some((destination, m)),
{
    let b = graft_bytes(destination, m);
    let h = header_bytes(destination, m.sender);
    let p = header_len(m.sender);
    lemma_holds_at_self(b);
    match m.message_id {
        Some(id) => {
            let e2 = h + seq![1u8];
            let e3 = e2 + message_id_bytes(id);
            lemma_holds_at_concat(b, 0, e3, be_u16(m.round));
            lemma_holds_at_concat(b, 0, e2, message_id_bytes(id));
            lemma_holds_at_concat(b, 0, h, seq![1u8]);
            lemma_header_round_trip(b, destination, m.sender);
            assert(b[p + 0] == seq![1u8][0]);
            lemma_message_id_round_trip(b, p + 1, id);
            lemma_u16_round_trip(b, p + 1 + message_id_len(id), m.round);
        },
        None => {
            let e2 = h + seq![0u8];
            lemma_holds_at_concat(b, 0, e2, be_u16(m.round));
            lemma_holds_at_concat(b, 0, h, seq![0u8]);
            lemma_header_round_trip(b, destination, m.sender);
            assert(b[p + 0] == seq![0u8][0]);
            lemma_u16_round_trip(b, p + 1, m.round);
        },
    }
}

/// Encodes a `GRAFT` frame.
pub fn encode_graft(destination: LocalNodeId, m: &GraftMessage) -> (r: Vec<u8>)
    ensures
        r@ == graft_bytes(destination, *m),
{
    let mut out: Vec<u8> = Vec::new();
    put_header(&mut out, destination, &m.sender);
    match &m.message_id {
        Some(id) => {
            put_u8(&mut out, 1);
            put_message_id(&mut out, id);
        },
        None => {
            put_u8(&mut out, 0);
        },
    }
    put_u16(&mut out, m.round);
    out
}

/// Decodes a `GRAFT` frame.
pub fn decode_graft(buf: &[u8]) -> (r: Result<(LocalNodeId, GraftMessage), Error>)
    ensures
        match r {
            Ok(frame) => graft_of(buf@) == Some(frame),
            Err(e) => graft_of(buf@) is None && e.kind == ErrorKind::InvalidInput,
        },
{
    let (destination, sender, p) = get_header(buf)?;
    if buf.len() - p < 1 {
        return Err(invalid_input());
    }
    let flag: u8 = get_u8(buf, p);
    if flag == 0 {
        let round = get_last_round(buf, p + 1)?;
        Ok((destination, GraftMessage { sender, message_id: None, round }))
    } else if flag == 1 {
        let (id, q) = get_message_id(buf, p + 1)?;
        let round = get_last_round(buf, q)?;
        Ok((destination, GraftMessage { sender, message_id: Some(id), round }))
    } else {
        Err(invalid_input())
    }
}

/// The bytes of a `GRAFT` frame in its short form, for a request that names
/// no message: the start, then the round.
pub open spec fn graft_optimize_bytes(destination: LocalNodeId, m: GraftMessage) -> Seq<u8> {
    header_bytes(destination, m.sender) + be_u16(m.round)
}

/// The `GRAFT` frame that `b` holds in its short form.
pub open spec fn graft_optimize_of(b: Seq<u8>) -> Option<(LocalNodeId, GraftMessage)> {
    match header_of(b) {
        Some((destination, sender, p)) => match last_round_at(b, p) {
            Some(round) => Some((destination, GraftMessage { sender, message_id: None, round })),
            None => None,
        },
        None => None,
    }
}

/// A `GRAFT` frame that names no message is decoded from its short form as
/// it was encoded.
pub proof fn lemma_graft_optimize_round_trip(destination: LocalNodeId, m: GraftMessage)
    requires
        m.message_id is None,
    ensures
        graft_optimize_of(graft_optimize_bytes(destination, m)) == Some((destination, m)),
{
    let b = graft_optimize_bytes(destination, m);
    lemma_holds_at_self(b);
    lemma_holds_at_concat(b, 0, header_bytes(destination, m.sender), be_u16(m.round));
    lemma_header_round_trip(b, destination, m.sender);
    lemma_u16_round_trip(b, header_len(m.sender), m.round);
}

/// Encodes a `GRAFT` frame in its short form. A request that names a message
/// has no short form.
pub fn encode_graft_optimize(destination: LocalNodeId, m: &GraftMessage) -> (r: Result<
    Vec<u8>,
    Error,
>)
    ensures
        match r {
            Ok(bytes) => m.message_id is None && bytes@ == graft_optimize_bytes(destination, *m),
            Err(e) => m.message_id is Some && e.kind == ErrorKind::InconsistentState,
        },
{
    if m.message_id.is_some() {
        return Err(Error::new(ErrorKind::InconsistentState));
    }
    Ok(encode_short_graft(destination, &m.sender, m.round))
}

/// Encodes the `GRAFT` frame of a request of `sender` that names no message,
/// in its short form.
pub fn encode_short_graft(destination: LocalNodeId, sender: &NodeId, round: u16) -> (r: Vec<u8>)
    ensures
        r@ == graft_optimize_bytes(
            destination,
            GraftMessage { sender: *sender, message_id: None, round },
        ),
{
    let mut out: Vec<u8> = Vec::new();
    put_header(&mut out, destination, sender);
    put_u16(&mut out, round);
    out
}

/// Decodes a `GRAFT` frame in its short form.
pub fn decode_graft_optimize(buf: &[u8]) -> (r: Result<(LocalNodeId, GraftMessage), Error>)
    ensures
        match r {
            Ok(frame) => graft_optimize_of(buf@) == Some(frame),
            Err(e) => graft_optimize_of(buf@) is None && e.kind == ErrorKind::InvalidInput,
        },
{
    let (destination, sender, p) = get_header(buf)?;
    let round = get_last_round(buf, p)?;
    Ok((destination, GraftMessage { sender, message_id: None, round }))
}

/// The bytes of a `PRUNE` frame.
pub open spec fn prune_bytes(destination: LocalNodeId, m: PruneMessage) -> Seq<u8> {
    header_bytes(destination, m.sender) + be_u16(m.round)
}

/// The `PRUNE` frame that `b` holds.
pub open spec fn prune_of(b: Seq<u8>) -> Option<(LocalNodeId, PruneMessage)> {
    match header_of(b) {
        Some((destination, sender, p)) => match last_round_at(b, p) {
            Some(round) => Some((destination, PruneMessage { sender, round })),
            None => None,
        },
        None => None,
    }
}

/// A `PRUNE` frame is decoded as it was encoded.
pub proof fn lemma_prune_round_trip(destination: LocalNodeId, m: PruneMessage)
    ensures
        prune_of(prune_bytes(destination, m)) == Some((destination, m)),
{
    let b = prune_bytes(destination, m);
    lemma_holds_at_self(b);
    lemma_holds_at_concat(b, 0, header_bytes(destination, m.sender), be_u16(m.round));
    lemma_header_round_trip(b, destination, m.sender);
    lemma_u16_round_trip(b, header_len(m.sender), m.round);
}

/// Encodes a `PRUNE` frame.
pub fn encode_prune(destination: LocalNodeId, m: &PruneMessage) -> (r: Vec<u8>)
    ensures
        r@ == prune_bytes(destination, *m),
{
    let mut out: Vec<u8> = Vec::new();
    put_header(&mut out, destination, &m.sender);
    put_u16(&mut out, m.round);
    out
}

/// Decodes a `PRUNE` frame.
pub fn decode_prune(buf: &[u8]) -> (r: Result<(LocalNodeId, PruneMessage), Error>)
    ensures
        match r {
            Ok(frame) => prune_of(buf@) == Some(frame),
            Err(e) => prune_of(buf@) is None && e.kind == ErrorKind::InvalidInput,
        },
{
    let (destination, sender, p) = get_header(buf)?;
    let round = get_last_round(buf, p)?;
    Ok((destination, PruneMessage { sender, round }))
}

} // verus!
