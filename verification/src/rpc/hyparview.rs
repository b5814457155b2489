//! The casts of the membership protocol.
use crate::codec::hyparview::{
    disconnect_bytes, encode_disconnect, encode_forward_join, encode_join, encode_neighbor,
    encode_shuffle, encode_shuffle_reply, forward_join_bytes, join_bytes, neighbor_bytes,
    shuffle_bytes, shuffle_reply_bytes,
};
use crate::hyparview_misc::{
    DisconnectMessage, ForwardJoinMessage, JoinMessage, NeighborMessage, ShuffleMessage,
    ShuffleReplyMessage,
};
use crate::node_id::NodeId;
use crate::rpc::{CastRequest, Options, ProcedureId, JOIN_PRIORITY, LAZY_PRIORITY};
use vstd::prelude::*;

verus! {

/// The cast that carries a `JOIN` message.
#[derive(Debug)]
pub struct JoinCast;

impl JoinCast {
    /// The number of the procedure.
    pub const ID: u32 = 0x17CC_0000;

    /// The name of the procedure.
    pub const NAME: &'static str = "hyparview.join";
}

/// The cast that carries a `FORWARD_JOIN` message.
#[derive(Debug)]
pub struct ForwardJoinCast;

impl ForwardJoinCast {
    /// The number of the procedure.
    pub const ID: u32 = 0x17CC_0001;

    /// The name of the procedure.
    pub const NAME: &'static str = "hyparview.forward_join";
}

/// The cast that carries a `NEIGHBOR` message.
#[derive(Debug)]
pub struct NeighborCast;

impl NeighborCast {
    /// The number of the procedure.
    pub const ID: u32 = 0x17CC_0002;

    /// The name of the procedure.
    pub const NAME: &'static str = "hyparview.neighbor";
}

/// The cast that carries a `SHUFFLE` message.
#[derive(Debug)]
pub struct ShuffleCast;

impl ShuffleCast {
    /// The number of the procedure.
    pub const ID: u32 = 0x17CC_0003;

    /// The name of the procedure.
    pub const NAME: &'static str = "hyparview.shuffle";
}

/// The cast that carries a `SHUFFLE_REPLY` message.
#[derive(Debug)]
pub struct ShuffleReplyCast;

impl ShuffleReplyCast {
    /// The number of the procedure.
    pub const ID: u32 = 0x17CC_0004;

    /// The name of the procedure.
    pub const NAME: &'static str = "hyparview.shuffle_reply";
}

/// The cast that carries a `DISCONNECT` message.
#[derive(Debug)]
pub struct DisconnectCast;

impl DisconnectCast {
    /// The number of the procedure.
    pub const ID: u32 = 0x17CC_0005;

    /// The name of the procedure.
    pub const NAME: &'static str = "hyparview.disconnect";
}

/// Makes the cast of a `JOIN` message to `peer`: urgent.
pub fn join_cast(peer: NodeId, m: JoinMessage) -> (r: CastRequest)
    ensures
        r.procedure == ProcedureId(JoinCast::ID),
        r.server == peer.address,
        r.options == Options::spec_urgent(),
        r.frame@ == join_bytes(peer.local_id, m),
{
    CastRequest {
        procedure: ProcedureId(JoinCast::ID),
        server: peer.address,
        options: Options { max_queue_len: None, priority: JOIN_PRIORITY, force_wakeup: true },
        frame: encode_join(peer.local_id, &m),
    }
}

/// Makes the cast of a `FORWARD_JOIN` message to `peer`: urgent.
pub fn forward_join_cast(peer: NodeId, m: ForwardJoinMessage) -> (r: CastRequest)
    ensures
        r.procedure == ProcedureId(ForwardJoinCast::ID),
        r.server == peer.address,
        r.options == Options::spec_urgent(),
        r.frame@ == forward_join_bytes(peer.local_id, m),
{
    CastRequest {
        procedure: ProcedureId(ForwardJoinCast::ID),
        server: peer.address,
        options: Options { max_queue_len: None, priority: JOIN_PRIORITY, force_wakeup: true },
        frame: encode_forward_join(peer.local_id, &m),
    }
}

/// The options of the cast of a `NEIGHBOR` message: urgent where the sender
/// asks with high priority, and the default where it does not.
pub open spec fn neighbor_options(m: NeighborMessage) -> Options {
    if m.high_priority {
        Options::spec_urgent()
    } else {
        Options::spec_default()
    }
}

/// Makes the cast of a `NEIGHBOR` message to `peer`.
pub fn neighbor_cast(peer: NodeId, m: NeighborMessage) -> (r: CastRequest)
    ensures
        r.procedure == ProcedureId(NeighborCast::ID),
        r.server == peer.address,
        r.options == neighbor_options(m),
        r.frame@ == neighbor_bytes(peer.local_id, m),
{
    let options = if m.high_priority {
        Options { max_queue_len: None, priority: JOIN_PRIORITY, force_wakeup: true }
    } else {
        Options::default()
    };
    CastRequest {
        procedure: ProcedureId(NeighborCast::ID),
        server: peer.address,
        options,
        frame: encode_neighbor(peer.local_id, &m),
    }
}

/// The options of the casts that can wait: a low priority.
pub open spec fn lazy_options() -> Options {
    Options { max_queue_len: None, priority: LAZY_PRIORITY, force_wakeup: false }
}

/// Makes the cast of a `SHUFFLE` message to `peer`: with a low priority.
pub fn shuffle_cast(peer: NodeId, m: &ShuffleMessage) -> (r: CastRequest)
    ensures
        r.procedure == ProcedureId(ShuffleCast::ID),
        r.server == peer.address,
        r.options == lazy_options(),
        r.frame@ == shuffle_bytes(peer.local_id, m@),
{
    CastRequest {
        procedure: ProcedureId(ShuffleCast::ID),
        server: peer.address,
        options: Options { max_queue_len: None, priority: LAZY_PRIORITY, force_wakeup: false },
        frame: encode_shuffle(peer.local_id, m),
    }
}

/// Makes the cast of a `SHUFFLE_REPLY` message to `peer`: with a low priority.
pub fn shuffle_reply_cast(peer: NodeId, m: &ShuffleReplyMessage) -> (r: CastRequest)
    ensures
        r.procedure == ProcedureId(ShuffleReplyCast::ID),
        r.server == peer.address,
        r.options == lazy_options(),
        r.frame@ == shuffle_reply_bytes(peer.local_id, m@),
{
    CastRequest {
        procedure: ProcedureId(ShuffleReplyCast::ID),
        server: peer.address,
        options: Options { max_queue_len: None, priority: LAZY_PRIORITY, force_wakeup: false },
        frame: encode_shuffle_reply(peer.local_id, m),
    }
}

/// Makes the cast of a `DISCONNECT` message to `peer`: with the default options.
pub fn disconnect_cast(peer: NodeId, m: DisconnectMessage) -> (r: CastRequest)
    ensures
        r.procedure == ProcedureId(DisconnectCast::ID),
        r.server == peer.address,
        r.options == Options::spec_default(),
        r.frame@ == disconnect_bytes(peer.local_id, m),
{
    CastRequest {
        procedure: ProcedureId(DisconnectCast::ID),
        server: peer.address,
        options: Options::default(),
        frame: encode_disconnect(peer.local_id, &m),
    }
}

} // verus!
