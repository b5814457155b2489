//! The wire format of socket addresses.
//!
//! A socket address starts with a byte that tells the version of its IP
//! address, 4 or 6. For version 4 the four bytes of the address and the two
//! of the port follow; for version 6 the sixteen bytes of the address, the
//! two of the port, the four of the flow information and the four of the
//! scope identifier.
use crate::codec::{
    be_u128, be_u16, be_u32, get_u128, lemma_be_u128_len, lemma_be_u16_len, lemma_be_u32_len, get_u16, get_u32, get_u8, holds_at, invalid_input,
    lemma_holds_at_concat, lemma_holds_at_self, lemma_u128_round_trip, lemma_u16_round_trip,
    lemma_u32_round_trip, put_u128, put_u16, put_u32, put_u8, u128_at, u16_at, u32_at,
};
use crate::error::{Error, ErrorKind};
use crate::node_id::SocketAddr;
use vstd::prelude::*;

verus! {

/// The bytes of a socket address.
pub open spec fn socket_addr_bytes(a: SocketAddr) -> Seq<u8> {
    match a {
        SocketAddr::V4 { ip, port } => seq![4u8] + be_u32(ip) + be_u16(port),
        SocketAddr::V6 { ip, port, flowinfo, scope_id } => seq![6u8] + be_u128(ip) + be_u16(port)
            + be_u32(flowinfo) + be_u32(scope_id),
    }
}

/// The number of bytes of a socket address.
pub open spec fn socket_addr_len(a: SocketAddr) -> int {
    match a {
        SocketAddr::V4 { .. } => 7,
        SocketAddr::V6 { .. } => 27,
    }
}

/// The socket address that stands in `b` at `at`, with the position behind
/// it; `None` where the bytes end too early or the version is neither 4 nor 6.
pub open spec fn socket_addr_at(b: Seq<u8>, at: int) -> Option<(SocketAddr, int)> {
    if at < 0 || at + 1 > b.len() {
        None
    } else if b[at] == 4 {
        if at + 7 <= b.len() {
            Some((SocketAddr::V4 { ip: u32_at(b, at + 1), port: u16_at(b, at + 5) }, at + 7))
        } else {
            None
        }
    } else if b[at] == 6 {
        if at + 27 <= b.len() {
            Some(
                (
                    SocketAddr::V6 {
                        ip: u128_at(b, at + 1),
                        port: u16_at(b, at + 17),
                        flowinfo: u32_at(b, at + 19),
                        scope_id: u32_at(b, at + 23),
                    },
                    at + 27,
                ),
            )
        } else {
            None
        }
    } else {
        None
    }
}

/// A socket address has as many bytes as its version says.
pub proof fn lemma_socket_addr_len(a: SocketAddr)
    ensures
        socket_addr_bytes(a).len() == socket_addr_len(a),
{
    match a {
        SocketAddr::V4 { ip, port } => {
            lemma_be_u32_len(ip);
            lemma_be_u16_len(port);
        },
        SocketAddr::V6 { ip, port, flowinfo, scope_id } => {
            lemma_be_u128_len(ip);
            lemma_be_u16_len(port);
            lemma_be_u32_len(flowinfo);
            lemma_be_u32_len(scope_id);
        },
    }
}

/// A socket address is read as it was written, wherever its bytes stand.
pub proof fn lemma_socket_addr_round_trip(b: Seq<u8>, at: int, a: SocketAddr)
    requires
        holds_at(b, at, socket_addr_bytes(a)),
    ensures
        socket_addr_at(b, at) == Some((a, at + socket_addr_len(a))),
        socket_addr_bytes(a).len() == socket_addr_len(a),
{
    lemma_socket_addr_len(a);
    match a {
        SocketAddr::V4 { ip, port } => {
            lemma_holds_at_concat(b, at, seq![4u8] + be_u32(ip), be_u16(port));
            lemma_holds_at_concat(b, at, seq![4u8], be_u32(ip));
            assert(b[at + 0] == seq![4u8][0]);
            lemma_u32_round_trip(b, at + 1, ip);
            lemma_u16_round_trip(b, at + 5, port);
        },
        SocketAddr::V6 { ip, port, flowinfo, scope_id } => {
            let e1 = seq![6u8] + be_u128(ip);
            let e2 = e1 + be_u16(port);
            let e3 = e2 + be_u32(flowinfo);
            lemma_holds_at_concat(b, at, e3, be_u32(scope_id));
            lemma_holds_at_concat(b, at, e2, be_u32(flowinfo));
            lemma_holds_at_concat(b, at, e1, be_u16(port));
            lemma_holds_at_concat(b, at, seq![6u8], be_u128(ip));
            assert(b[at + 0] == seq![6u8][0]);
            lemma_u128_round_trip(b, at + 1, ip);
            lemma_u16_round_trip(b, at + 17, port);
            lemma_u32_round_trip(b, at + 19, flowinfo);
            lemma_u32_round_trip(b, at + 23, scope_id);
        },
    }
}

/// The socket address that a whole buffer holds: `None` where the buffer
/// holds no socket address, or more than one.
pub open spec fn socket_addr_of(b: Seq<u8>) -> Option<SocketAddr> {
    match socket_addr_at(b, 0) {
        Some((a, end)) => if end == b.len() {
            Some(a)
        } else {
            None
        },
        None => None,
    }
}

/// Decoding the bytes of a socket address gives the address back.
pub proof fn lemma_socket_addr_decode_encode(a: SocketAddr)
    ensures
        socket_addr_of(socket_addr_bytes(a)) == Some(a),
{
    lemma_holds_at_self(socket_addr_bytes(a));
    lemma_socket_addr_round_trip(socket_addr_bytes(a), 0, a);
}

/// No socket address starts with a version byte other than 4 and 6.
pub proof fn lemma_socket_addr_unknown_version(b: Seq<u8>, at: int)
    requires
        0 <= at < b.len(),
        b[at] != 4,
        b[at] != 6,
    ensures
        socket_addr_at(b, at) is None,
{
}

/// Writes a socket address.
pub fn put_socket_addr(out: &mut Vec<u8>, a: &SocketAddr)
    ensures
        final(out)@ == old(out)@ + socket_addr_bytes(*a),
{
    match *a {
        SocketAddr::V4 { ip, port } => {
            put_u8(out, 4);
            put_u32(out, ip);
            put_u16(out, port);
        },
        SocketAddr::V6 { ip, port, flowinfo, scope_id } => {
            put_u8(out, 6);
            put_u128(out, ip);
            put_u16(out, port);
            put_u32(out, flowinfo);
            put_u32(out, scope_id);
        },
    }
    proof {
        assert(out@ =~= old(out)@ + socket_addr_bytes(*a));
    }
}

/// Reads the socket address at `at`, and returns it with the position behind it.
pub fn get_socket_addr(buf: &[u8], at: usize) -> (r: Result<(SocketAddr, usize), Error>)
    ensures
        match r {
            Ok((a, end)) => socket_addr_at(buf@, at as int) == Some((a, end as int)) && end
                <= buf.len(),
            Err(e) => socket_addr_at(buf@, at as int) is None && e.kind == ErrorKind::InvalidInput,
        },
{
    if at > buf.len() {
        return Err(invalid_input());
    }
    let left: usize = buf.len() - at;
    if left < 1 {
        return Err(invalid_input());
    }
    let version: u8 = get_u8(buf, at);
    if version == 4 {
        if left < 7 {
            return Err(invalid_input());
        }
        let ip: u32 = get_u32(buf, at + 1);
        let port: u16 = get_u16(buf, at + 5);
        Ok((SocketAddr::V4 { ip, port }, at + 7))
    } else if version == 6 {
        if left < 27 {
            return Err(invalid_input());
        }
        let ip: u128 = get_u128(buf, at + 1);
        let port: u16 = get_u16(buf, at + 17);
        let flowinfo: u32 = get_u32(buf, at + 19);
        let scope_id: u32 = get_u32(buf, at + 23);
        Ok((SocketAddr::V6 { ip, port, flowinfo, scope_id }, at + 27))
    } else {
        Err(invalid_input())
    }
}

/// Encodes a socket address.
pub fn encode_socket_addr(a: &SocketAddr) -> (r: Vec<u8>)
    ensures
        r@ == socket_addr_bytes(*a),
{
    let mut out: Vec<u8> = Vec::new();
    put_socket_addr(&mut out, a);
    proof {
        assert(out@ =~= socket_addr_bytes(*a));
    }
    out
}

/// Decodes a buffer that holds one socket address and nothing else.
pub fn decode_socket_addr(buf: &[u8]) -> (r: Result<SocketAddr, Error>)
    ensures
        match r {
            Ok(a) => socket_addr_of(buf@) == Some(a),
            Err(e) => socket_addr_of(buf@) is None && e.kind == ErrorKind::InvalidInput,
        },
{
    match get_socket_addr(buf, 0) {
        Ok((a, end)) => {
            if end == buf.len() {
                Ok(a)
            } else {
                Err(invalid_input())
            }
        },
        Err(e) => Err(e),
    }
}

} // verus!
