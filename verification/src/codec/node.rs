//! The wire format of node identifiers.
//!
//! A local node identifier is written as its eight bytes; a node identifier
//! as its socket address, then its local node identifier.
use crate::codec::net::{
    get_socket_addr, lemma_socket_addr_len, lemma_socket_addr_round_trip, put_socket_addr, socket_addr_at,
    socket_addr_bytes, socket_addr_len,
};
use crate::codec::{
    be_u64, get_u64, holds_at, invalid_input, lemma_be_u64_len, lemma_holds_at_concat,
    lemma_u64_round_trip, put_u64,
    u64_at,
};
use crate::error::{Error, ErrorKind};
use crate::node_id::{LocalNodeId, NodeId};
use vstd::prelude::*;

verus! {

/// The bytes of a local node identifier.
pub open spec fn local_node_id_bytes(id: LocalNodeId) -> Seq<u8> {
    be_u64(id.0)
}

/// The local node identifier that stands in `b` at `at`, with the position
/// behind it; `None` where the bytes end too early.
pub open spec fn local_node_id_at(b: Seq<u8>, at: int) -> Option<(LocalNodeId, int)> {
    if 0 <= at && at + 8 <= b.len() {
        Some((LocalNodeId(u64_at(b, at)), at + 8))
    } else {
        None
    }
}

/// A local node identifier is read as it was written, wherever its bytes stand.
pub proof fn lemma_local_node_id_round_trip(b: Seq<u8>, at: int, id: LocalNodeId)
    requires
        holds_at(b, at, local_node_id_bytes(id)),
    ensures
        local_node_id_at(b, at) == Some((id, at + 8)),
        local_node_id_bytes(id).len() == 8,
{
    lemma_u64_round_trip(b, at, id.0);
}

/// The bytes of a node identifier.
pub open spec fn node_id_bytes(id: NodeId) -> Seq<u8> {
    socket_addr_bytes(id.address) + local_node_id_bytes(id.local_id)
}

/// The number of bytes of a node identifier.
pub open spec fn node_id_len(id: NodeId) -> int {
    socket_addr_len(id.address) + 8
}

/// The node identifier that stands in `b` at `at`, with the position behind
/// it; `None` where no socket address stands there or the bytes end too early.
pub open spec fn node_id_at(b: Seq<u8>, at: int) -> Option<(NodeId, int)> {
    match socket_addr_at(b, at) {
        Some((address, mid)) => match local_node_id_at(b, mid) {
            Some((local_id, end)) => Some((NodeId { address, local_id }, end)),
            None => None,
        },
        None => None,
    }
}

/// A node identifier has as many bytes as its address, and eight more.
pub proof fn lemma_node_id_len(id: NodeId)
    ensures
        node_id_bytes(id).len() == node_id_len(id),
        15 <= node_id_len(id) <= 35,
{
    lemma_socket_addr_len(id.address);
    lemma_be_u64_len(id.local_id.0);
}

/// A node identifier is read as it was written, wherever its bytes stand.
pub proof fn lemma_node_id_round_trip(b: Seq<u8>, at: int, id: NodeId)
    requires
        holds_at(b, at, node_id_bytes(id)),
    ensures
        node_id_at(b, at) == Some((id, at + node_id_len(id))),
        node_id_bytes(id).len() == node_id_len(id),
        node_id_len(id) >= 15,
{
    lemma_holds_at_concat(b, at, socket_addr_bytes(id.address), local_node_id_bytes(id.local_id));
    lemma_socket_addr_round_trip(b, at, id.address);
    lemma_local_node_id_round_trip(b, at + socket_addr_len(id.address), id.local_id);
}

/// Writes a local node identifier.
pub fn put_local_node_id(out: &mut Vec<u8>, id: LocalNodeId)
    ensures
        final(out)@ == old(out)@ + local_node_id_bytes(id),
{
    put_u64(out, id.value());
}

/// Reads the local node identifier at `at`, and returns it with the position behind it.
pub fn get_local_node_id(buf: &[u8], at: usize) -> (r: Result<(LocalNodeId, usize), Error>)
    ensures
        match r {
            Ok((id, end)) => local_node_id_at(buf@, at as int) == Some((id, end as int)) && end
                <= buf.len(),
            Err(e) => local_node_id_at(buf@, at as int) is None && e.kind
                == ErrorKind::InvalidInput,
        },
{
    if at > buf.len() {
        return Err(invalid_input());
    }
    if buf.len() - at < 8 {
        return Err(invalid_input());
    }
    let v: u64 = get_u64(buf, at);
    Ok((LocalNodeId::new(v), at + 8))
}

/// Writes a node identifier.
pub fn put_node_id(out: &mut Vec<u8>, id: &NodeId)
    ensures
        final(out)@ == old(out)@ + node_id_bytes(*id),
{
    put_socket_addr(out, &id.address);
    put_local_node_id(out, id.local_id);
    proof {
        assert(out@ =~= old(out)@ + node_id_bytes(*id));
    }
}

/// Reads the node identifier at `at`, and returns it with the position behind it.
pub fn get_node_id(buf: &[u8], at: usize) -> (r: Result<(NodeId, usize), Error>)
    ensures
        match r {
            Ok((id, end)) => node_id_at(buf@, at as int) == Some((id, end as int)) && end
                <= buf.len(),
            Err(e) => node_id_at(buf@, at as int) is None && e.kind == ErrorKind::InvalidInput,
        },
{
    if at > buf.len() {
        return Err(invalid_input());
    }
    let (address, mid) = match get_socket_addr(buf, at) {
        Ok(x) => x,
        Err(e) => {
            return Err(e);
        },
    };
    let (local_id, end) = match get_local_node_id(buf, mid) {
        Ok(x) => x,
        Err(e) => {
            return Err(e);
        },
    };
    Ok((NodeId::new(address, local_id), end))
}

} // verus!
