//! The casts of the broadcast tree protocol.
use crate::codec::plumtree::{
    encode_gossip, encode_graft, encode_ihave, encode_prune, encode_short_graft, gossip_bytes,
    graft_bytes, graft_optimize_bytes, ihave_bytes, prune_bytes, MAX_PAYLOAD_LEN,
};
use crate::error::{Error, ErrorKind};
use crate::node_id::NodeId;
use crate::plumtree_misc::{GossipMessage, GraftMessage, IhaveMessage, PruneMessage};
use crate::rpc::{CastRequest, Options, ProcedureId, DEFAULT_PRIORITY, LAZY_PRIORITY, MAX_QUEUE_LEN};
use vstd::prelude::*;

verus! {

/// The cast that carries a `GOSSIP` message.
#[derive(Debug)]
pub struct GossipCast;

impl GossipCast {
    /// The number of the procedure.
    pub const ID: u32 = 0x17CD_0000;

    /// The name of the procedure.
    pub const NAME: &'static str = "plumtree.gossip";
}

/// The cast that carries an `IHAVE` message.
#[derive(Debug)]
pub struct IhaveCast;

impl IhaveCast {
    /// The number of the procedure.
    pub const ID: u32 = 0x17CD_0001;

    /// The name of the procedure.
    pub const NAME: &'static str = "plumtree.ihave";
}

/// The cast that carries a `GRAFT` message, with the identifier of a message
/// or without.
#[derive(Debug)]
pub struct GraftCast;

impl GraftCast {
    /// The number of the procedure.
    pub const ID: u32 = 0x17CD_0002;

    /// The name of the procedure.
    pub const NAME: &'static str = "plumtree.graft";
}

/// The cast that carries a `GRAFT` message that names no message, in its
/// short form.
#[derive(Debug)]
pub struct GraftOptimizeCast;

impl GraftOptimizeCast {
    /// The number of the procedure.
    pub const ID: u32 = 0x17CD_0003;

    /// The name of the procedure.
    pub const NAME: &'static str = "plumtree.graft.optimize";
}

/// The cast that carries a `PRUNE` message.
#[derive(Debug)]
pub struct PruneCast;

impl PruneCast {
    /// The number of the procedure.
    pub const ID: u32 = 0x17CD_0004;

    /// The name of the procedure.
    pub const NAME: &'static str = "plumtree.prune";
}

/// The options of the cast of a `GOSSIP` message: the default priority, and
/// a bound on the number of messages that wait for the peer.
pub open spec fn gossip_options() -> Options {
    Options { max_queue_len: Some(MAX_QUEUE_LEN), priority: DEFAULT_PRIORITY, force_wakeup: false }
}

/// The options of the cast of an `IHAVE` message: a low priority, and a
/// bound on the number of messages that wait for the peer.
pub open spec fn ihave_options() -> Options {
    Options { max_queue_len: Some(MAX_QUEUE_LEN), priority: LAZY_PRIORITY, force_wakeup: false }
}

/// Makes the cast of a `GOSSIP` message to `peer`. There is none for a
/// message whose payload is too long to be written.
pub fn gossip_cast(peer: NodeId, m: &GossipMessage) -> (r: Result<CastRequest, Error>)
    ensures
        match r {
            Ok(c) => {
                &&& m.message.payload@.len() <= MAX_PAYLOAD_LEN
                &&& c.procedure == ProcedureId(GossipCast::ID)
                &&& c.server == peer.address
                &&& c.options == gossip_options()
                &&& c.frame@ == gossip_bytes(peer.local_id, m@)
            },
            Err(e) => m.message.payload@.len() > MAX_PAYLOAD_LEN && e.kind
                == ErrorKind::InvalidInput,
        },
{
    let frame = encode_gossip(peer.local_id, m)?;
    Ok(
        CastRequest {
            procedure: ProcedureId(GossipCast::ID),
            server: peer.address,
            options: Options {
                max_queue_len: Some(MAX_QUEUE_LEN),
                priority: DEFAULT_PRIORITY,
                force_wakeup: false,
            },
            frame,
        },
    )
}

/// Makes the cast of an `IHAVE` message to `peer`.
pub fn ihave_cast(peer: NodeId, m: IhaveMessage) -> (r: CastRequest)
    ensures
        r.procedure == ProcedureId(IhaveCast::ID),
        r.server == peer.address,
        r.options == ihave_options(),
        r.frame@ == ihave_bytes(peer.local_id, m),
{
    CastRequest {
        procedure: ProcedureId(IhaveCast::ID),
        server: peer.address,
        options: Options {
            max_queue_len: Some(MAX_QUEUE_LEN),
            priority: LAZY_PRIORITY,
            force_wakeup: false,
        },
        frame: encode_ihave(peer.local_id, &m),
    }
}

/// The procedure that carries a `GRAFT` message: the one of the short form
/// for a request that names no message.
pub open spec fn graft_procedure(m: GraftMessage) -> ProcedureId {
    if m.message_id is Some {
        ProcedureId(GraftCast::ID)
    } else {
        ProcedureId(GraftOptimizeCast::ID)
    }
}

/// The frame that carries a `GRAFT` message to the node `destination`.
pub open spec fn graft_frame(peer: NodeId, m: GraftMessage) -> Seq<u8> {
    if m.message_id is Some {
        graft_bytes(peer.local_id, m)
    } else {
        graft_optimize_bytes(peer.local_id, m)
    }
}

/// Makes the cast of a `GRAFT` message to `peer`: with the default options.
pub fn graft_cast(peer: NodeId, m: GraftMessage) -> (r: CastRequest)
    ensures
        r.procedure == graft_procedure(m),
        r.server == peer.address,
        r.options == Options::spec_default(),
        r.frame@ == graft_frame(peer, m),
{
    if m.message_id.is_some() {
        CastRequest {
            procedure: ProcedureId(GraftCast::ID),
            server: peer.address,
            options: Options::default(),
            frame: encode_graft(peer.local_id, &m),
        }
    } else {
        CastRequest {
            procedure: ProcedureId(GraftOptimizeCast::ID),
            server: peer.address,
            options: Options::default(),
            frame: encode_short_graft(peer.local_id, &m.sender, m.round),
        }
    }
}

/// Makes the cast of a `PRUNE` message to `peer`: with the default options.
pub fn prune_cast(peer: NodeId, m: PruneMessage) -> (r: CastRequest)
    ensures
        r.procedure == ProcedureId(PruneCast::ID),
        r.server == peer.address,
        r.options == Options::spec_default(),
        r.frame@ == prune_bytes(peer.local_id, m),
{
    CastRequest {
        procedure: ProcedureId(PruneCast::ID),
        server: peer.address,
        options: Options::default(),
        frame: encode_prune(peer.local_id, &m),
    }
}

} // verus!
