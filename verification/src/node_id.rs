//! Node identifiers.
use vstd::prelude::*;

verus! {

/// Identifier used for distinguish local nodes in a process.
///
/// An identifier is assigned automatically to a new node when it is created.
#[derive(Debug, Clone, Copy, PartialEq, Eq, Hash, PartialOrd, Ord)]
pub struct LocalNodeId(pub u64);

impl LocalNodeId {
    /// Makes a new `LocalNodeId` instance.
    pub fn new(id: u64) -> (r: Self)
        ensures
            r == LocalNodeId(id),
    {
        LocalNodeId(id)
    }

    /// Returns the value of the identifier.
    pub fn value(self) -> (v: u64)
        ensures
            v == self.0,
    {
        self.0
    }
}

/// A transport address: an IP address of either version with a port.
///
/// An IPv4 address is held as the 32-bit number whose big-endian bytes are
/// its four octets; an IPv6 address as the 128-bit number whose big-endian
/// bytes are its sixteen octets.
#[derive(Debug, Clone, Copy, PartialEq, Eq, Hash)]
pub enum SocketAddr {
    /// An IPv4 socket address.
    V4 {
        /// The address.
        ip: u32,
        /// The port.
        port: u16,
    },
    /// An IPv6 socket address.
    V6 {
        /// The address.
        ip: u128,
        /// The port.
        port: u16,
        /// The flow information.
        flowinfo: u32,
        /// The scope identifier.
        scope_id: u32,
    },
}

impl SocketAddr {
    /// The number that stands for the IPv4 address `a.b.c.d`.
    pub open spec fn ipv4_bits(a: u8, b: u8, c: u8, d: u8) -> int {
        a as int * 0x100_0000 + b as int * 0x1_0000 + c as int * 0x100 + d as int
    }

    /// Makes the IPv4 socket address `a.b.c.d:port`.
    pub fn v4(a: u8, b: u8, c: u8, d: u8, port: u16) -> (r: Self)
        ensures
            r == (SocketAddr::V4 { ip: Self::ipv4_bits(a, b, c, d) as u32, port }),
            Self::ipv4_bits(a, b, c, d) <= u32::MAX,
    {
        let a32: u32 = a as u32;
        let b32: u32 = b as u32;
        let c32: u32 = c as u32;
        let d32: u32 = d as u32;
        let ip: u32 = a32 * 0x100_0000 + b32 * 0x1_0000 + c32 * 0x100 + d32;
        SocketAddr::V4 { ip, port }
    }

    /// Returns the port of this address.
    pub fn port(&self) -> (p: u16)
        ensures
            p == match *self {
                SocketAddr::V4 { port, .. } => port,
                SocketAddr::V6 { port, .. } => port,
            },
    {
        match *self {
            SocketAddr::V4 { port, .. } => port,
            SocketAddr::V6 { port, .. } => port,
        }
    }

    /// Returns `true` if this is an IPv4 address.
    pub fn is_ipv4(&self) -> (b: bool)
        ensures
            b == (*self is V4),
    {
        match *self {
            SocketAddr::V4 { .. } => true,
            SocketAddr::V6 { .. } => false,
        }
    }
}

/// Identifier used for distinguish nodes in a cluster.
///
/// The identifier of a node consists of the [`LocalNodeId`] of the node and
/// the socket address of the RPC server used for communicating with the node.
#[derive(Debug, Clone, Copy, PartialEq, Eq, Hash)]
pub struct NodeId {
    /// The address of the RPC server.
    pub address: SocketAddr,
    /// The identifier of the node among the nodes of that server.
    pub local_id: LocalNodeId,
}

impl NodeId {
    /// Makes a new `NodeId` instance.
    pub fn new(address: SocketAddr, local_id: LocalNodeId) -> (r: Self)
        ensures
            r == (NodeId { address, local_id }),
    {
        NodeId { address, local_id }
    }

    /// Returns the RPC server address part of the identifier.
    pub fn address(&self) -> (a: SocketAddr)
        ensures
            a == self.address,
    {
        self.address
    }

    /// Returns the local node identifier part of the identifier.
    pub fn local_id(&self) -> (l: LocalNodeId)
        ensures
            l == self.local_id,
    {
        self.local_id
    }
}

} // verus!
