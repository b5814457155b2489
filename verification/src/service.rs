//! [`Service`] and related components.
//!
//! A service is the registry of the nodes that run in one process behind one
//! server address. It gives each new node its identifier, finds the node
//! that a message is for, and keeps the counters of the nodes that are gone.
use crate::error::{Error, ErrorKind};
use crate::hyparview_misc::{DisconnectMessage, HyparviewMessage};
use crate::metrics::{NodeCounter, NodeMetrics, ServiceCounter, ServiceMetrics};
use crate::node_id::{LocalNodeId, NodeId, SocketAddr};
use crate::node_id_generator::GenerateLocalNodeId;
use crate::plumtree_misc::PlumtreeMessage;
use crate::rpc::hyparview::{
    disconnect_cast, forward_join_cast, join_cast, neighbor_cast, shuffle_cast, shuffle_reply_cast,
};
use crate::rpc::plumtree::{gossip_cast, graft_cast, ihave_cast, prune_cast};
use crate::rpc::{
    decode_cast, frame_bytes, frame_of, has_frame, options_of, procedure_of, CastRequest,
    ProcedureId, RpcMessage,
};
use std::collections::HashMap;
use vstd::prelude::*;
use vstd::std_specs::hash::group_hash_axioms;
use vstd::std_specs::iter::IteratorSpec;

verus! {

broadcast use group_hash_axioms;

/// The entry of a node in the registry of its service: the identifier of the
/// node, the sending side of its mailbox, and its counters as they were
/// reported last.
#[derive(Debug, Clone)]
pub struct NodeHandle<T> {
    /// The identifier of the node among the nodes of the service.
    pub local_id: LocalNodeId,
    /// The sending side of the mailbox of the node.
    pub message_tx: T,
    /// The counters of the node.
    pub metrics: NodeMetrics,
}

impl<T> NodeHandle<T> {
    /// Makes the entry of a node.
    pub fn new(local_id: LocalNodeId, message_tx: T, metrics: NodeMetrics) -> (r: Self)
        ensures
            r == (NodeHandle { local_id, message_tx, metrics }),
    {
        NodeHandle { local_id, message_tx, metrics }
    }

    /// Returns the identifier of the node.
    pub fn local_id(&self) -> (r: LocalNodeId)
        ensures
            r == self.local_id,
    {
        self.local_id
    }

    /// Returns the sending side of the mailbox of the node.
    pub fn message_tx(&self) -> (r: &T)
        ensures
            *r == self.message_tx,
    {
        &self.message_tx
    }

    /// Returns the counters of the node.
    pub fn metrics(&self) -> (r: &NodeMetrics)
        ensures
            *r == self.metrics,
    {
        &self.metrics
    }
}

/// A change of the registry of a service.
#[derive(Debug)]
pub enum Command<T> {
    /// Enter a node.
    Register(NodeHandle<T>),
    /// Take a node out.
    Deregister(LocalNodeId),
}

impl<T> Command<T> {
    /// The node that the command is about.
    pub open spec fn spec_local_id(self) -> LocalNodeId {
        match self {
            Command::Register(node) => node.local_id,
            Command::Deregister(local_id) => local_id,
        }
    }

    /// Returns the identifier of the node that the command is about.
    pub fn local_id_of(&self) -> (r: LocalNodeId)
        ensures
            r == self.spec_local_id(),
    {
        match self {
            Command::Register(node) => node.local_id,
            Command::Deregister(local_id) => *local_id,
        }
    }
}

/// What happens to a service while it runs.
#[derive(Debug)]
pub enum ServiceEvent<T> {
    /// The client side of the transport has ended.
    ClientTerminated,
    /// The server side of the transport has ended.
    ServerTerminated,
    /// A change of the registry is asked for.
    Command(Command<T>),
}

/// What is done with a message that arrived at the server.
#[derive(Debug, Clone, PartialEq, Eq)]
pub enum Dispatch {
    /// The message goes into the mailbox of a node of this service.
    Deliver {
        /// The node.
        local_id: LocalNodeId,
        /// The message.
        message: RpcMessage,
    },
    /// The node that the message is for is not here: the sender is told so.
    Reply {
        /// The node that sent the message.
        peer: NodeId,
        /// What the sender is told.
        message: RpcMessage,
    },
    /// The message is dropped.
    Discard,
}

/// What the registry says of the node that a message is for.
#[derive(Debug, Clone, PartialEq, Eq)]
pub enum Lookup {
    /// The node is registered.
    Found,
    /// The node is not registered, and the sender of the message is told so.
    Missing {
        /// What the sender is told.
        reply: RpcMessage,
    },
}

/// Every entry of `registry` stands under the number of the identifier of
/// its node.
pub open spec fn entries_match<T>(registry: Map<u64, NodeHandle<T>>) -> bool {
    forall|k: u64|
        registry.contains_key(k) ==> (#[trigger] registry[k]).local_id == LocalNodeId(k)
}

/// A handle of a [`Service`] instance: the part of a service that its nodes
/// and its server work with.
#[derive(Debug)]
pub struct ServiceHandle<T, G> {
    server_addr: SocketAddr,
    local_nodes: HashMap<u64, NodeHandle<T>>,
    local_id_gen: G,
    metrics: ServiceMetrics,
}

impl<T, G> ServiceHandle<T, G> {
    /// Every entry of the registry stands under the identifier of its node.
    pub closed spec fn wf(self) -> bool {
        entries_match(self.local_nodes@)
    }

    /// The registry: the entries of the nodes, by the number of their identifier.
    pub closed spec fn registry(self) -> Map<u64, NodeHandle<T>> {
        self.local_nodes@
    }

    /// The address of the server of the service.
    pub closed spec fn spec_server_addr(self) -> SocketAddr {
        self.server_addr
    }

    /// The counters of the service.
    pub closed spec fn spec_metrics(self) -> ServiceMetrics {
        self.metrics
    }

    /// The generator of the identifiers of the nodes.
    pub closed spec fn spec_generator(self) -> G {
        self.local_id_gen
    }

    /// Whether a node is registered.
    pub open spec fn is_registered(self, local_id: LocalNodeId) -> bool {
        self.registry().contains_key(local_id.0)
    }

    /// `later` differs from `self` in its counters at most.
    pub open spec fn same_but_metrics(self, later: Self) -> bool {
        &&& later.registry() == self.registry()
        &&& later.spec_server_addr() == self.spec_server_addr()
        &&& later.spec_generator() == self.spec_generator()
        &&& later.wf() == self.wf()
    }

    /// Makes the handle of a service without nodes.
    pub(crate) fn new(server_addr: SocketAddr, local_id_gen: G) -> (r: Self)
        ensures
            r.wf(),
            r.registry() == Map::<u64, NodeHandle<T>>::empty(),
            r.spec_server_addr() == server_addr,
            r.spec_generator() == local_id_gen,
            forall|c: ServiceCounter| #[trigger] r.spec_metrics().count(c) == 0,
    {
        ServiceHandle {
            server_addr,
            local_nodes: HashMap::new(),
            local_id_gen,
            metrics: ServiceMetrics::new(),
        }
    }

    /// Returns the address of the RPC server used for inter node communications.
    pub fn rpc_server_addr(&self) -> (r: SocketAddr)
        ensures
            r == self.spec_server_addr(),
    {
        self.server_addr
    }

    /// Returns the metrics of the service.
    pub fn metrics(&self) -> (r: &ServiceMetrics)
        ensures
            *r == self.spec_metrics(),
    {
        &self.metrics
    }

    /// Returns the number of the nodes registered in the service.
    pub fn len(&self) -> (r: usize)
        ensures
            r == self.registry().len(),
    {
        self.local_nodes.len()
    }

    /// Returns the entry of a node, if the node is registered.
    pub fn get_local_node(&self, local_id: LocalNodeId) -> (r: Option<&NodeHandle<T>>)
        ensures
            r.is_some() == self.is_registered(local_id),
            r.is_some() ==> *r.unwrap() == self.registry()[local_id.0],
            r.is_some() && self.wf() ==> r.unwrap().local_id == local_id,
    {
        self.local_nodes.get(&local_id.0)
    }

    /// Makes the command that enters a node into the registry.
    pub fn register_local_node(&self, node: NodeHandle<T>) -> (r: Command<T>)
        ensures
            r == Command::Register(node),
    {
        Command::Register(node)
    }

    /// Makes the command that takes a node out of the registry.
    pub fn deregister_local_node(&self, node: LocalNodeId) -> (r: Command<T>)
        ensures
            r == Command::<T>::Deregister(node),
    {
        Command::Deregister(node)
    }

    /// What the sender of a message for a node that is not registered is told:
    /// that the node is no longer its neighbor, and not alive.
    pub open spec fn missing_reply(self, local_id: LocalNodeId) -> RpcMessage {
        RpcMessage::Hyparview(
            HyparviewMessage::Disconnect(
                DisconnectMessage {
                    sender: NodeId { address: self.spec_server_addr(), local_id },
                    alive: false,
                },
            ),
        )
    }

    /// Looks for the node that a message from `sender` is for. If the node
    /// is not registered, the message is counted as one with an unknown
    /// destination, and the sender is told that the node is gone.
    pub fn get_local_node_or_disconnect(&mut self, local_id: LocalNodeId, sender: &NodeId) -> (r:
        Lookup)
        ensures
            old(self).same_but_metrics(*final(self)),
            old(self).spec_metrics().le(final(self).spec_metrics()),
            old(self).is_registered(local_id) ==> r == Lookup::Found && final(self).spec_metrics()
                == old(self).spec_metrics(),
            !old(self).is_registered(local_id) ==> r == (Lookup::Missing {
                reply: old(self).missing_reply(local_id),
            }) && old(self).spec_metrics().bumped(
                ServiceCounter::DestinationUnknownMessages,
                1,
                final(self).spec_metrics(),
            ),
    {
        if self.local_nodes.contains_key(&local_id.0) {
            Lookup::Found
        } else {
            self.metrics.increment(ServiceCounter::DestinationUnknownMessages);
            let missing = NodeId::new(self.server_addr, local_id);
            let message = DisconnectMessage { sender: missing, alive: false };
            let message = HyparviewMessage::Disconnect(message);
            Lookup::Missing { reply: RpcMessage::Hyparview(message) }
        }
    }

    /// What is done with a message that arrived for the node `local_id`. It
    /// goes to the node if the node is registered. If it is not, the sender
    /// is told so, unless the message itself says that the sender is gone:
    /// such a message is dropped.
    pub open spec fn dispatch_of(self, local_id: LocalNodeId, message: RpcMessage) -> Dispatch {
        if self.is_registered(local_id) {
            Dispatch::Deliver { local_id, message }
        } else if message matches RpcMessage::Hyparview(HyparviewMessage::Disconnect(_)) {
            Dispatch::Discard
        } else {
            Dispatch::Reply { peer: message.spec_sender(), message: self.missing_reply(local_id) }
        }
    }

    /// Handles a message that arrived at the server for the node `local_id`.
    /// A message for a node that is not registered is counted, unless it is
    /// dropped.
    pub fn handle_cast(&mut self, local_id: LocalNodeId, message: RpcMessage) -> (r: Dispatch)
        ensures
            r == old(self).dispatch_of(local_id, message),
            old(self).same_but_metrics(*final(self)),
            old(self).spec_metrics().le(final(self).spec_metrics()),
            old(self).spec_metrics().bumped(
                ServiceCounter::DestinationUnknownMessages,
                if r is Reply {
                    1
                } else {
                    0
                },
                final(self).spec_metrics(),
            ),
    {
        let is_disconnect = match &message {
            RpcMessage::Hyparview(HyparviewMessage::Disconnect(_)) => true,
            _ => false,
        };
        if is_disconnect {
            if self.local_nodes.contains_key(&local_id.0) {
                Dispatch::Deliver { local_id, message }
            } else {
                Dispatch::Discard
            }
        } else {
            let peer = message.sender();
            match self.get_local_node_or_disconnect(local_id, &peer) {
                Lookup::Found => Dispatch::Deliver { local_id, message },
                Lookup::Missing { reply } => Dispatch::Reply { peer, message: reply },
            }
        }
    }

    /// What is done with the bytes `frame` that arrived as a cast of
    /// `procedure`: what is no frame of the procedure is dropped; a frame is
    /// decoded, and its message is dispatched.
    pub open spec fn dispatched(self, procedure: ProcedureId, frame: Seq<u8>, r: Dispatch) -> bool {
        match frame_of(procedure, frame) {
            Some((destination, view)) => exists|message: RpcMessage|
                message@ == view && r == #[trigger] self.dispatch_of(destination, message),
            None => r == Dispatch::Discard,
        }
    }

    /// Handles a frame that arrived at the server as a cast of `procedure`.
    /// What is no frame of the procedure is dropped, and not counted;
    /// the message of a frame is handled as [`Self::handle_cast`] says.
    pub fn handle_frame(&mut self, procedure: ProcedureId, frame: &[u8]) -> (r: Dispatch)
        ensures
            old(self).same_but_metrics(*final(self)),
            old(self).spec_metrics().le(final(self).spec_metrics()),
            old(self).spec_metrics().bumped(
                ServiceCounter::DestinationUnknownMessages,
                if r is Reply {
                    1
                } else {
                    0
                },
                final(self).spec_metrics(),
            ),
            old(self).dispatched(procedure, frame@, r),
    {
        match decode_cast(procedure, frame) {
            Ok((destination, message)) => {
                let ghost taken = message;
                let r = self.handle_cast(destination, message);
                proof {
                    assert(r == old(self).dispatch_of(destination, taken));
                }
                r
            },
            Err(_) => Dispatch::Discard,
        }
    }

    /// Makes the cast that carries a message to a peer: the procedure of the
    /// kind of the message, at the server of the peer, with the options of
    /// the kind, and the frame that names the peer as the destination.
    ///
    /// There is no cast for a pushed message whose payload is too long to be
    /// written.
    pub fn send_message(&self, peer: NodeId, message: &RpcMessage) -> (r: Result<
        CastRequest,
        Error,
    >)
        ensures
            match r {
                Ok(c) => {
                    &&& has_frame(message@)
                    &&& c.procedure == procedure_of(message@)
                    &&& c.server == peer.address
                    &&& c.options == options_of(message@)
                    &&& c.frame@ == frame_bytes(peer.local_id, message@)
                },
                Err(e) => !has_frame(message@) && e.kind == ErrorKind::InvalidInput,
            },
    {
        match message {
            RpcMessage::Hyparview(m) => {
                match m {
                    HyparviewMessage::Join(m) => Ok(join_cast(peer, *m)),
                    HyparviewMessage::ForwardJoin(m) => Ok(forward_join_cast(peer, *m)),
                    HyparviewMessage::Neighbor(m) => Ok(neighbor_cast(peer, *m)),
                    HyparviewMessage::Shuffle(m) => Ok(shuffle_cast(peer, m)),
                    HyparviewMessage::ShuffleReply(m) => Ok(shuffle_reply_cast(peer, m)),
                    HyparviewMessage::Disconnect(m) => Ok(disconnect_cast(peer, *m)),
                }
            },
            RpcMessage::Plumtree(m) => {
                match m {
                    PlumtreeMessage::Gossip(m) => gossip_cast(peer, m),
                    PlumtreeMessage::Ihave(m) => Ok(ihave_cast(peer, *m)),
                    PlumtreeMessage::Graft(m) => Ok(graft_cast(peer, *m)),
                    PlumtreeMessage::Prune(m) => Ok(prune_cast(peer, *m)),
                }
            },
        }
    }
}

impl<T, G> ServiceHandle<T, G> {
    /// Takes the counters that a node reports. No counter of the entry of
    /// the node goes back: each is raised to what is reported, if that is
    /// more. Returns whether the node is registered.
    pub fn record_node_metrics(&mut self, local_id: LocalNodeId, metrics: &NodeMetrics) -> (r: bool)
        ensures
            old(self).wf() ==> final(self).wf(),
            r == old(self).is_registered(local_id),
            final(self).spec_server_addr() == old(self).spec_server_addr(),
            final(self).spec_generator() == old(self).spec_generator(),
            final(self).spec_metrics() == old(self).spec_metrics(),
            !r ==> final(self).registry() == old(self).registry(),
            r ==> {
                let before = old(self).registry()[local_id.0];
                let after = final(self).registry()[local_id.0];
                &&& final(self).registry() == old(self).registry().insert(local_id.0, after)
                &&& after.local_id == before.local_id
                &&& after.message_tx == before.message_tx
                &&& before.metrics.raised(*metrics, after.metrics)
            },
    {
        match self.local_nodes.remove(&local_id.0) {
            Some(node) => {
                let mut node = node;
                node.metrics.raise_to(metrics);
                self.local_nodes.insert(local_id.0, node);
                proof {
                    assert(self.local_nodes@ =~= old(self).local_nodes@.insert(local_id.0, node));
                }
                true
            },
            None => {
                proof {
                    assert(self.local_nodes@ =~= old(self).local_nodes@);
                }
                false
            },
        }
    }

    /// Returns the identifiers of the nodes registered in the service, each
    /// once, in no particular order.
    pub fn local_nodes(&self) -> (r: Vec<LocalNodeId>)
        ensures
            r@.len() == self.registry().len(),
            r@.no_duplicates(),
            forall|id: LocalNodeId| r@.contains(id) <==> self.is_registered(id),
    {
        let mut out: Vec<LocalNodeId> = Vec::new();
        let ghost keys = self.local_nodes.keys().remaining();
        for key in it: self.local_nodes.keys()
            invariant
                it.seq() == keys,
                out@.len() == it.index(),
                forall|i: int| 0 <= i < out@.len() ==> out@[i] == LocalNodeId(*keys[i]),
        {
            out.push(LocalNodeId::new(*key));
        }
        proof {
            let plain = keys.unref();
            assert(plain.len() == keys.len());
            assert forall|id: LocalNodeId| out@.contains(id) <==> self.is_registered(id) by {
                if out@.contains(id) {
                    let i = choose|i: int| 0 <= i < out@.len() && out@[i] == id;
                    assert(plain[i] == id.0);
                    assert(plain.to_set().contains(id.0));
                }
                if self.is_registered(id) {
                    assert(plain.to_set().contains(id.0));
                    let i = choose|i: int| 0 <= i < plain.len() && plain[i] == id.0;
                    assert(out@[i] == id);
                }
            }
            assert forall|i: int, j: int|
                0 <= i < out@.len() && 0 <= j < out@.len() && i != j implies out@[i] != out@[j] by {
                assert(keys[i] != keys[j]);
            }
        }
        out
    }

    /// Enters a node into the registry, over an entry of the same identifier
    /// if there is one.
    pub(crate) fn insert(&mut self, node: NodeHandle<T>)
        ensures
            old(self).wf() ==> final(self).wf(),
            final(self).registry() == old(self).registry().insert(node.local_id.0, node),
            final(self).spec_server_addr() == old(self).spec_server_addr(),
            final(self).spec_generator() == old(self).spec_generator(),
            final(self).spec_metrics() == old(self).spec_metrics(),
    {
        self.local_nodes.insert(node.local_id.0, node);
    }

    /// Takes a node out of the registry, and returns its entry.
    pub(crate) fn remove(&mut self, local_id: LocalNodeId) -> (r: Option<NodeHandle<T>>)
        ensures
            old(self).wf() ==> final(self).wf(),
            final(self).registry() == old(self).registry().remove(local_id.0),
            final(self).spec_server_addr() == old(self).spec_server_addr(),
            final(self).spec_generator() == old(self).spec_generator(),
            final(self).spec_metrics() == old(self).spec_metrics(),
            r.is_some() == old(self).is_registered(local_id),
            r.is_some() ==> r.unwrap() == old(self).registry()[local_id.0],
    {
        self.local_nodes.remove(&local_id.0)
    }

    /// Adds to a counter of the service.
    pub(crate) fn count(&mut self, counter: ServiceCounter, n: u64)
        ensures
            old(self).same_but_metrics(*final(self)),
            old(self).spec_metrics().bumped(counter, n as nat, final(self).spec_metrics()),
            old(self).spec_metrics().le(final(self).spec_metrics()),
    {
        self.metrics.add_u64(counter, n);
    }
}

impl<T, G: GenerateLocalNodeId> ServiceHandle<T, G> {
    /// Makes the identifier of a new node: the address of the server, with
    /// the local identifier that the generator of the service hands out next.
    pub fn generate_node_id(&mut self) -> (r: NodeId)
        ensures
            r.address == old(self).spec_server_addr(),
            old(self).spec_generator().generates(r.local_id, &final(self).spec_generator()),
            final(self).registry() == old(self).registry(),
            final(self).spec_server_addr() == old(self).spec_server_addr(),
            final(self).spec_metrics() == old(self).spec_metrics(),
            final(self).wf() == old(self).wf(),
    {
        let local_id = self.local_id_gen.generate_local_node_id();
        NodeId::new(self.server_addr, local_id)
    }
}

/// The builder of [`Service`].
#[derive(Debug, Clone, Copy)]
pub struct ServiceBuilder {
    server_addr: SocketAddr,
}

impl ServiceBuilder {
    /// The address of the server of the service that is built.
    pub closed spec fn spec_server_addr(self) -> SocketAddr {
        self.server_addr
    }

    /// Makes a new `ServiceBuilder` instance for a service whose server is
    /// bound to the given address.
    pub fn new(rpc_server_bind_addr: SocketAddr) -> (r: Self)
        ensures
            r.spec_server_addr() == rpc_server_bind_addr,
    {
        ServiceBuilder { server_addr: rpc_server_bind_addr }
    }

    /// Builds a [`Service`] with the given settings. It has no nodes, all its
    /// counters are zero, and `local_id_gen` makes the identifiers of its nodes.
    pub fn finish<T, G: GenerateLocalNodeId>(self, local_id_gen: G) -> (r: Service<T, G>)
        ensures
            r.is_new(self.spec_server_addr(), local_id_gen),
    {
        Service {
            handle: ServiceHandle::new(self.server_addr, local_id_gen),
            removed_nodes_metrics: NodeMetrics::new(),
        }
    }
}

/// The registry of the nodes of a process, with the counters of the nodes
/// that are gone.
#[derive(Debug)]
pub struct Service<T, G> {
    handle: ServiceHandle<T, G>,
    removed_nodes_metrics: NodeMetrics,
}

impl<T, G> Service<T, G> {
    /// The part of the service that its nodes and its server work with.
    pub closed spec fn spec_handle(self) -> ServiceHandle<T, G> {
        self.handle
    }

    /// The sum of the counters of the nodes that are gone.
    pub closed spec fn spec_removed_nodes_metrics(self) -> NodeMetrics {
        self.removed_nodes_metrics
    }

    /// The service is as it is made: no node, no counter above zero.
    pub open spec fn is_new(self, server_addr: SocketAddr, local_id_gen: G) -> bool {
        &&& self.spec_handle().wf()
        &&& self.spec_handle().registry() == Map::<u64, NodeHandle<T>>::empty()
        &&& self.spec_handle().spec_server_addr() == server_addr
        &&& self.spec_handle().spec_generator() == local_id_gen
        &&& forall|c: ServiceCounter| #[trigger] self.spec_handle().spec_metrics().count(c) == 0
        &&& forall|c: NodeCounter| #[trigger] self.spec_removed_nodes_metrics().count(c) == 0
    }

    /// What holds of a service and the same service at any later time: it
    /// keeps its address, and none of its counters goes back, nor any of the
    /// sums of the counters of the nodes that are gone.
    pub open spec fn precedes(self, later: Self) -> bool {
        &&& later.spec_handle().spec_server_addr() == self.spec_handle().spec_server_addr()
        &&& self.spec_handle().spec_metrics().le(later.spec_handle().spec_metrics())
        &&& self.spec_removed_nodes_metrics().le(later.spec_removed_nodes_metrics())
    }

    /// Returns the handle of the service.
    pub fn handle(&self) -> (r: &ServiceHandle<T, G>)
        ensures
            *r == self.spec_handle(),
    {
        &self.handle
    }

    /// Returns the handle of the service, to work with it.
    pub fn handle_mut(&mut self) -> (r: &mut ServiceHandle<T, G>)
        ensures
            *r == old(self).spec_handle(),
            final(self).spec_handle() == *final(r),
            final(self).spec_removed_nodes_metrics() == old(self).spec_removed_nodes_metrics(),
    {
        &mut self.handle
    }

    /// Returns the sum of the counters of the nodes that are gone.
    pub fn removed_nodes_metrics(&self) -> (r: &NodeMetrics)
        ensures
            *r == self.spec_removed_nodes_metrics(),
    {
        &self.removed_nodes_metrics
    }

    /// `later` is `self` after the command: a node that is not registered is
    /// entered and counted as registered; a node that is registered is taken
    /// out and counted as deregistered, and its counters are added to the
    /// sums of the nodes that are gone.
    pub open spec fn applied(self, command: Command<T>, later: Self) -> bool {
        &&& later.spec_handle().spec_server_addr() == self.spec_handle().spec_server_addr()
        &&& later.spec_handle().spec_generator() == self.spec_handle().spec_generator()
        &&& match command {
            Command::Register(node) => {
                &&& later.spec_handle().registry() == self.spec_handle().registry().insert(
                    node.local_id.0,
                    node,
                )
                &&& self.spec_handle().spec_metrics().bumped(
                    ServiceCounter::RegisteredNodes,
                    1,
                    later.spec_handle().spec_metrics(),
                )
                &&& later.spec_removed_nodes_metrics() == self.spec_removed_nodes_metrics()
            },
            Command::Deregister(local_id) => {
                &&& later.spec_handle().registry() == self.spec_handle().registry().remove(local_id.0)
                &&& self.spec_handle().spec_metrics().bumped(
                    ServiceCounter::DeregisteredNodes,
                    1,
                    later.spec_handle().spec_metrics(),
                )
                &&& self.spec_removed_nodes_metrics().merged(
                    self.spec_handle().registry()[local_id.0].metrics,
                    later.spec_removed_nodes_metrics(),
                )
            },
        }
    }

    /// Whether a command fits the registry: a node is entered once, and only
    /// a node that is registered is taken out.
    pub open spec fn accepts(self, command: Command<T>) -> bool {
        match command {
            Command::Register(node) => !self.spec_handle().is_registered(node.local_id),
            Command::Deregister(local_id) => self.spec_handle().is_registered(local_id),
        }
    }

    /// A command that has been carried out does not fit the registry a
    /// second time: the node that was entered is registered, the node that
    /// was taken out is not.
    pub proof fn lemma_not_twice(self, command: Command<T>, later: Self, again: Command<T>)
        requires
            self.accepts(command),
            self.applied(command, later),
            match (command, again) {
                (Command::Register(a), Command::Register(b)) => a.local_id == b.local_id,
                (Command::Deregister(a), Command::Deregister(b)) => a == b,
                _ => false,
            },
        ensures
            !later.accepts(again),
    {
    }

    /// When a node is taken out of the registry, none of its counters is
    /// lost: the sums of the nodes that are gone are at least what they
    /// were, and at least the counters of the node.
    pub proof fn lemma_deregister_keeps_counts(self, local_id: LocalNodeId, later: Self)
        requires
            self.applied(Command::Deregister(local_id), later),
        ensures
            self.spec_removed_nodes_metrics().le(later.spec_removed_nodes_metrics()),
            self.spec_handle().registry()[local_id.0].metrics.le(
                later.spec_removed_nodes_metrics(),
            ),
    {
    }

    /// Carries out a command. A command that does not fit the registry
    /// changes nothing and fails: the state is inconsistent.
    pub fn handle_command(&mut self, command: Command<T>) -> (r: Result<(), Error>)
        ensures
            old(self).spec_handle().wf() ==> final(self).spec_handle().wf(),
            old(self).precedes(*final(self)),
            match r {
                Ok(()) => old(self).accepts(command) && old(self).applied(command, *final(self)),
                Err(e) => !old(self).accepts(command) && e.kind == ErrorKind::InconsistentState
                    && *final(self) == *old(self),
            },
    {
        match command {
            Command::Register(node) => {
                if self.handle.local_nodes.contains_key(&node.local_id.0) {
                    return Err(Error::new(ErrorKind::InconsistentState));
                }
                self.handle.count(ServiceCounter::RegisteredNodes, 1);
                self.handle.insert(node);
            },
            Command::Deregister(node) => {
                if !self.handle.local_nodes.contains_key(&node.0) {
                    return Err(Error::new(ErrorKind::InconsistentState));
                }
                self.handle.count(ServiceCounter::DeregisteredNodes, 1);
                match self.handle.remove(node) {
                    Some(n) => {
                        self.removed_nodes_metrics.add(n.metrics());
                    },
                    None => {},
                }
            },
        }
        Ok(())
    }

    /// Takes what happened to the service. The end of either half of the
    /// transport is the end of the service: it fails with an error of the
    /// kind `Other`. A command is carried out, and a command that does not
    /// fit the registry is the end of the service as well.
    pub fn handle_event(&mut self, event: ServiceEvent<T>) -> (r: Result<(), Error>)
        ensures
            old(self).spec_handle().wf() ==> final(self).spec_handle().wf(),
            old(self).precedes(*final(self)),
            match event {
                ServiceEvent::ClientTerminated | ServiceEvent::ServerTerminated => r == Err::<
                    (),
                    Error,
                >(Error { kind: ErrorKind::Other }) && *final(self) == *old(self),
                ServiceEvent::Command(command) => match r {
                    Ok(()) => old(self).accepts(command) && old(self).applied(
                        command,
                        *final(self),
                    ),
                    Err(e) => !old(self).accepts(command) && e.kind
                        == ErrorKind::InconsistentState && *final(self) == *old(self),
                },
            },
    {
        match event {
            ServiceEvent::ClientTerminated => Err(Error::new(ErrorKind::Other)),
            ServiceEvent::ServerTerminated => Err(Error::new(ErrorKind::Other)),
            ServiceEvent::Command(command) => self.handle_command(command),
        }
    }

    /// Shuts the service down: every node is taken out of the registry and
    /// counted as deregistered, and its counters are added to the sums of
    /// the nodes that are gone.
    pub fn shutdown(&mut self)
        ensures
            old(self).spec_handle().wf() ==> final(self).spec_handle().wf(),
            old(self).precedes(*final(self)),
            final(self).spec_handle().registry() == Map::<u64, NodeHandle<T>>::empty(),
            final(self).spec_handle().spec_generator() == old(self).spec_handle().spec_generator(),
            old(self).spec_handle().spec_metrics().bumped(
                ServiceCounter::DeregisteredNodes,
                old(self).spec_handle().registry().len(),
                final(self).spec_handle().spec_metrics(),
            ),
            forall|k: u64| #[trigger]
                old(self).spec_handle().registry().contains_key(k) ==> old(
                    self,
                ).spec_handle().registry()[k].metrics.le(final(self).spec_removed_nodes_metrics()),
    {
        let n: usize = self.handle.local_nodes.len();
        self.handle.count(ServiceCounter::DeregisteredNodes, n as u64);
        let mut total: NodeMetrics = self.removed_nodes_metrics;
        let ghost nodes = self.handle.local_nodes.values().remaining();
        for node in it: self.handle.local_nodes.values()
            invariant
                it.seq() == nodes,
                old(self).removed_nodes_metrics.le(total),
                forall|i: int| 0 <= i < it.index() ==> (#[trigger] nodes[i]).metrics.le(total),
        {
            let ghost before = total;
            total.add(node.metrics());
            proof {
                assert forall|i: int| 0 <= i < it.index() implies (#[trigger] nodes[i]).metrics.le(
                    total,
                ) by {
                    assert(nodes[i].metrics.le(before));
                }
            }
        }
        proof {
            let plain = nodes.unref();
            assert forall|k: u64| #[trigger]
                old(self).handle.local_nodes@.contains_key(
                    k,
                ) implies old(self).handle.local_nodes@[k].metrics.le(total) by {
                let v = old(self).handle.local_nodes@[k];
                assert(old(self).handle.local_nodes@.values().contains(v));
                assert(plain.to_set().contains(v));
                let i = choose|i: int| 0 <= i < plain.len() && plain[i] == v;
                assert(nodes[i].metrics.le(total));
            }
        }
        self.removed_nodes_metrics = total;
        self.handle.local_nodes.clear();
    }
}

impl<T, G: GenerateLocalNodeId> Service<T, G> {
    /// Makes a new `Service` instance whose server is bound to the given
    /// address, with the default settings.
    pub fn new(rpc_server_bind_addr: SocketAddr, local_id_gen: G) -> (r: Self)
        ensures
            r.is_new(rpc_server_bind_addr, local_id_gen),
    {
        ServiceBuilder::new(rpc_server_bind_addr).finish(local_id_gen)
    }
}

} // verus!
