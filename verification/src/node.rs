//! [`Node`] and related components.
//!
//! A [`Node`] is the part of a broadcast node that decides. It owns the
//! sequence numbers of the messages that the node broadcasts, the counters,
//! the clock and the schedule of the periodic work. The two protocol state
//! machines, the transport and the timer are run by a driver: each method
//! here takes what happened and returns what the driver has to do next, as
//! [`Instruction`]s.
use crate::clock::Clock;
use crate::error::{Error, ErrorKind};
use crate::hyparview_misc::{
    DisconnectMessage, HyparviewAction, HyparviewEvent, HyparviewMessage, HyparviewNodeOptions,
};
use crate::message::{Message, MessageId};
use crate::metrics::{saturating_sum, NodeCounter, NodeMetrics};
use crate::plumtree_misc::{PlumtreeAction, PlumtreeMessage, PlumtreeNodeOptions};
use crate::rpc::RpcMessage;
use crate::service::{Command, NodeHandle, ServiceHandle};
use crate::time::{Duration, NodeTime};
use vstd::prelude::*;

pub use crate::node_id::{LocalNodeId, NodeId};
pub use crate::node_id_generator::{
    GenerateLocalNodeId, SerialLocalNodeIdGenerator, UnixtimeLocalNodeIdGenerator,
};

verus! {

/// A call of the membership protocol state machine.
#[derive(Debug, Clone, PartialEq, Eq)]
pub enum HyparviewCall {
    /// Join the cluster to which `contact_node` belongs.
    Join {
        /// The node to contact.
        contact_node: NodeId,
    },
    /// Remove `node` from the active view.
    Disconnect {
        /// The node to remove.
        node: NodeId,
        /// Whether the node is known to be alive.
        alive: bool,
    },
    /// Handle a message that arrived.
    HandleProtocolMessage(HyparviewMessage),
    /// Exchange a sample of the passive view with another node.
    ShufflePassiveView,
    /// Ask each node of the active view whether it is still a neighbor.
    SyncActiveView,
    /// Promote nodes of the passive view until the active view is full.
    FillActiveView,
}

/// A call of the broadcast tree state machine.
#[derive(Debug, Clone, PartialEq, Eq)]
pub enum PlumtreeCall {
    /// Broadcast a message.
    BroadcastMessage(Message),
    /// Drop the payload that is kept for a message. The answer, whether the
    /// message was known, goes to [`Node::handle_forget_result`].
    ForgetMessage(MessageId),
    /// Handle a message that arrived. The answer, whether the sender was
    /// known, goes to [`Node::handle_protocol_message_result`].
    HandleProtocolMessage(PlumtreeMessage),
    /// A node has become a neighbor.
    HandleNeighborUp {
        /// The new neighbor.
        node: NodeId,
    },
    /// A node is no longer a neighbor.
    HandleNeighborDown {
        /// The neighbor that left.
        node: NodeId,
    },
    /// Proceed the clock of the state machine.
    Tick(Duration),
}

/// What the driver of a node has to do.
#[derive(Debug, Clone, PartialEq, Eq)]
pub enum Instruction {
    /// Cast a message to a node. If the message cannot be sent, the driver
    /// calls [`Node::handle_send_failure`].
    Send {
        /// The node to send to.
        destination: NodeId,
        /// The message.
        message: RpcMessage,
    },
    /// Call the membership protocol state machine.
    Hyparview(HyparviewCall),
    /// Call the broadcast tree state machine.
    Plumtree(PlumtreeCall),
}

/// The intervals of the periodic work of a node.
#[derive(Debug, Clone, Copy, PartialEq, Eq)]
pub struct Parameters {
    /// The unit of the node local clock.
    pub tick_interval: Duration,
    /// The interval between two shuffles of the passive view.
    pub hyparview_shuffle_interval: Duration,
    /// The interval between two checks of the active view.
    pub hyparview_sync_active_view_interval: Duration,
    /// The interval between two attempts to fill the active view.
    pub hyparview_fill_active_view_interval: Duration,
}

/// The longest that `random` makes a task wait beyond its interval, in
/// milliseconds: under a tenth of the interval.
pub open spec fn jitter_millis(base: Duration, random: u64) -> nat {
    let millis: nat = if base.as_millis() <= u64::MAX {
        base.as_millis()
    } else {
        u64::MAX as nat
    };
    if millis / 10 == 0 {
        0
    } else {
        random as nat % (millis / 10)
    }
}

/// The length in nanoseconds of the interval `base` with the jitter that
/// `random` gives.
pub open spec fn jittered_nanos(base: Duration, random: u64) -> nat {
    let sum = base.as_nanos() + jitter_millis(base, random) * 1_000_000;
    if sum <= Duration::max_nanos() {
        sum
    } else {
        Duration::max_nanos()
    }
}

/// The time in nanoseconds that lies `span` after `now` on a node's clock.
pub open spec fn later_nanos(now: NodeTime, span: nat) -> nat {
    if now.as_nanos() + span <= Duration::max_nanos() {
        now.as_nanos() + span
    } else {
        Duration::max_nanos()
    }
}

/// The jitter is at most a tenth of the interval, whatever the random number.
pub proof fn lemma_jitter_at_most_a_tenth(base: Duration, random: u64)
    ensures
        jitter_millis(base, random) * 10 <= base.as_millis(),
{
    let millis: nat = if base.as_millis() <= u64::MAX {
        base.as_millis()
    } else {
        u64::MAX as nat
    };
    let bound = millis / 10;
    if bound != 0 {
        assert(random as nat % bound < bound) by (nonlinear_arith)
            requires
                bound > 0,
        ;
        assert(bound * 10 <= millis) by (nonlinear_arith)
            requires
                bound == millis / 10,
        ;
    }
}

/// Draws a number with `rand::random::<u64>()`, the thread's generator of
/// the `rand` crate. Nothing is known of the number.
#[verifier::external_body]
fn random_u64() -> u64 {
    rand::random::<u64>()
}

/// Returns `base` made longer by the jitter that `random` gives: a whole
/// number of milliseconds under a tenth of `base`.
pub fn jittered_interval(base: Duration, random: u64) -> (r: Duration)
    ensures
        r.as_nanos() == jittered_nanos(base, random),
        r.as_nanos() >= base.as_nanos(),
        r.is_valid(),
{
    let millis: u64 = base.whole_millis();
    let bound: u64 = millis / 10;
    let jitter: u64 = if bound == 0 {
        0
    } else {
        random % bound
    };
    base.saturating_add(Duration::from_millis(jitter))
}

/// Returns `base` made longer by a random jitter: a whole number of
/// milliseconds under a tenth of `base`.
pub fn gen_interval(base: Duration) -> (r: Duration)
    ensures
        exists|random: u64| r.as_nanos() == #[trigger] jittered_nanos(base, random),
        r.as_nanos() >= base.as_nanos(),
        r.is_valid(),
{
    let random: u64 = random_u64();
    jittered_interval(base, random)
}

/// The builder of [`Node`].
#[derive(Debug, Clone, Copy, PartialEq, Eq)]
pub struct NodeBuilder {
    hyparview_options: HyparviewNodeOptions,
    plumtree_options: PlumtreeNodeOptions,
    params: Parameters,
}

impl NodeBuilder {
    /// The options for the membership protocol.
    pub closed spec fn spec_hyparview_options(self) -> HyparviewNodeOptions {
        self.hyparview_options
    }

    /// The options for the broadcast tree protocol.
    pub closed spec fn spec_plumtree_options(self) -> PlumtreeNodeOptions {
        self.plumtree_options
    }

    /// The intervals of the periodic work.
    pub closed spec fn spec_params(self) -> Parameters {
        self.params
    }

    /// The default settings: a tick every 200 milliseconds, a shuffle every
    /// 300 seconds, a check of the active view every 60 seconds, an attempt
    /// to fill it every 30 seconds, and the default options of the two
    /// protocols.
    pub open spec fn has_default_settings(self) -> bool {
        &&& self.spec_params().tick_interval.as_nanos() == 200_000_000
        &&& self.spec_params().hyparview_shuffle_interval.as_nanos() == 300_000_000_000
        &&& self.spec_params().hyparview_sync_active_view_interval.as_nanos() == 60_000_000_000
        &&& self.spec_params().hyparview_fill_active_view_interval.as_nanos() == 30_000_000_000
        &&& self.spec_hyparview_options() == HyparviewNodeOptions::spec_default()
        &&& self.spec_plumtree_options().ihave_timeout.as_nanos() == 500_000_000
        &&& self.spec_plumtree_options().optimization_threshold == 2
    }

    /// Makes a new `NodeBuilder` instance with the default settings:
    /// a tick every 200 milliseconds, a shuffle every 300 seconds, a check of
    /// the active view every 60 seconds, an attempt to fill it every 30 seconds.
    pub fn new() -> (r: Self)
        ensures
            r.has_default_settings(),
    {
        let params = Parameters {
            tick_interval: Duration::from_millis(200),
            hyparview_shuffle_interval: Duration::from_secs(300),
            hyparview_sync_active_view_interval: Duration::from_secs(60),
            hyparview_fill_active_view_interval: Duration::from_secs(30),
        };
        NodeBuilder {
            hyparview_options: HyparviewNodeOptions::default(),
            plumtree_options: PlumtreeNodeOptions::default(),
            params,
        }
    }

    /// Sets the unit of the node local clock.
    ///
    /// The default value is `Duration::from_millis(200)`.
    pub fn tick_interval(&mut self, interval: Duration) -> (r: &mut Self)
        ensures
            r.spec_params() == (Parameters {
                tick_interval: interval,
                ..old(self).spec_params()
            }),
            r.spec_hyparview_options() == old(self).spec_hyparview_options(),
            r.spec_plumtree_options() == old(self).spec_plumtree_options(),
            *final(self) == *final(r),
    {
        self.params.tick_interval = interval;
        self
    }

    /// Sets the execution interval of the shuffle of the passive view.
    ///
    /// The default value is `Duration::from_secs(300)`.
    pub fn hyparview_shuffle_interval(&mut self, interval: Duration) -> (r: &mut Self)
        ensures
            r.spec_params() == (Parameters {
                hyparview_shuffle_interval: interval,
                ..old(self).spec_params()
            }),
            r.spec_hyparview_options() == old(self).spec_hyparview_options(),
            r.spec_plumtree_options() == old(self).spec_plumtree_options(),
            *final(self) == *final(r),
    {
        self.params.hyparview_shuffle_interval = interval;
        self
    }

    /// Sets the execution interval of the check of the active view.
    ///
    /// The default value is `Duration::from_secs(60)`.
    pub fn hyparview_sync_active_view_interval(&mut self, interval: Duration) -> (r: &mut Self)
        ensures
            r.spec_params() == (Parameters {
                hyparview_sync_active_view_interval: interval,
                ..old(self).spec_params()
            }),
            r.spec_hyparview_options() == old(self).spec_hyparview_options(),
            r.spec_plumtree_options() == old(self).spec_plumtree_options(),
            *final(self) == *final(r),
    {
        self.params.hyparview_sync_active_view_interval = interval;
        self
    }

    /// Sets the execution interval of the attempt to fill the active view.
    ///
    /// The default value is `Duration::from_secs(30)`.
    pub fn hyparview_fill_active_view_interval(&mut self, interval: Duration) -> (r: &mut Self)
        ensures
            r.spec_params() == (Parameters {
                hyparview_fill_active_view_interval: interval,
                ..old(self).spec_params()
            }),
            r.spec_hyparview_options() == old(self).spec_hyparview_options(),
            r.spec_plumtree_options() == old(self).spec_plumtree_options(),
            *final(self) == *final(r),
    {
        self.params.hyparview_fill_active_view_interval = interval;
        self
    }

    /// Sets the options for the underlying HyParView node.
    ///
    /// The default value is `HyparviewNodeOptions::default()`.
    pub fn hyparview_options(&mut self, options: HyparviewNodeOptions) -> (r: &mut Self)
        ensures
            r.spec_hyparview_options() == options,
            r.spec_params() == old(self).spec_params(),
            r.spec_plumtree_options() == old(self).spec_plumtree_options(),
            *final(self) == *final(r),
    {
        self.hyparview_options = options;
        self
    }

    /// Sets the options for the underlying Plumtree node.
    ///
    /// The default value is `PlumtreeNodeOptions::default()`.
    pub fn plumtree_options(&mut self, options: PlumtreeNodeOptions) -> (r: &mut Self)
        ensures
            r.spec_plumtree_options() == options,
            r.spec_params() == old(self).spec_params(),
            r.spec_hyparview_options() == old(self).spec_hyparview_options(),
            *final(self) == *final(r),
    {
        self.plumtree_options = options;
        self
    }

    /// Returns the options for the underlying HyParView node.
    pub fn get_hyparview_options(&self) -> (r: HyparviewNodeOptions)
        ensures
            r == self.spec_hyparview_options(),
    {
        self.hyparview_options
    }

    /// Returns the options for the underlying Plumtree node.
    pub fn get_plumtree_options(&self) -> (r: PlumtreeNodeOptions)
        ensures
            r == self.spec_plumtree_options(),
    {
        self.plumtree_options
    }

    /// Returns the intervals of the periodic work.
    pub fn params(&self) -> (r: Parameters)
        ensures
            r == self.spec_params(),
    {
        self.params
    }

    /// Builds the node `id` with the specified settings. Each periodic task
    /// is first due after its interval, made longer by the jitter that the
    /// random number of the task gives.
    pub fn finish_with(
        &self,
        id: NodeId,
        shuffle_random: u64,
        sync_random: u64,
        fill_random: u64,
    ) -> (node: Node)
        ensures
            node.is_new(id, self.spec_params()),
            node.first_scheduled(shuffle_random, sync_random, fill_random),
    {
        let clock = Clock::new(self.params.tick_interval);
        let now = clock.now();
        Node {
            id,
            message_seqno: 0,
            clock,
            hyparview_shuffle_time: now.saturating_add(
                jittered_interval(self.params.hyparview_shuffle_interval, shuffle_random),
            ),
            hyparview_sync_active_view_time: now.saturating_add(
                jittered_interval(self.params.hyparview_sync_active_view_interval, sync_random),
            ),
            hyparview_fill_active_view_time: now.saturating_add(
                jittered_interval(self.params.hyparview_fill_active_view_interval, fill_random),
            ),
            params: self.params,
            metrics: NodeMetrics::new(),
            did_something: false,
        }
    }
}

impl NodeBuilder {
    /// Builds a node of the given service with the specified settings.
    ///
    /// The node gets its identifier from the service. The result holds the
    /// node and the command that enters it into the registry of the service,
    /// with `message_tx` as the sending side of its mailbox.
    pub fn finish<T, G: GenerateLocalNodeId>(
        &self,
        service: &mut ServiceHandle<T, G>,
        message_tx: T,
    ) -> (r: (Node, Command<T>))
        ensures
            r.0.spec_id().address == old(service).spec_server_addr(),
            old(service).spec_generator().generates(
                r.0.spec_id().local_id,
                &final(service).spec_generator(),
            ),
            r.0.is_new(r.0.spec_id(), self.spec_params()),
            exists|shuffle_random: u64, sync_random: u64, fill_random: u64| #[trigger]
                r.0.first_scheduled(shuffle_random, sync_random, fill_random),
            r.1 == Command::Register(
                NodeHandle {
                    local_id: r.0.spec_id().local_id,
                    message_tx,
                    metrics: r.0.spec_metrics(),
                },
            ),
            final(service).registry() == old(service).registry(),
            final(service).spec_server_addr() == old(service).spec_server_addr(),
            final(service).spec_metrics() == old(service).spec_metrics(),
            final(service).wf() == old(service).wf(),
    {
        let id = service.generate_node_id();
        let shuffle_random: u64 = random_u64();
        let sync_random: u64 = random_u64();
        let fill_random: u64 = random_u64();
        let node = self.finish_with(id, shuffle_random, sync_random, fill_random);
        let handle = NodeHandle::new(id.local_id(), message_tx, node.metrics);
        let command = service.register_local_node(handle);
        (node, command)
    }
}

impl Default for NodeBuilder {
    fn default() -> (r: Self)
        ensures
            r.has_default_settings(),
    {
        Self::new()
    }
}

/// Node that broadcasts and receives messages.
#[derive(Debug)]
pub struct Node {
    id: NodeId,
    message_seqno: u64,
    clock: Clock,
    hyparview_shuffle_time: NodeTime,
    hyparview_sync_active_view_time: NodeTime,
    hyparview_fill_active_view_time: NodeTime,
    params: Parameters,
    metrics: NodeMetrics,
    did_something: bool,
}

impl Node {
    /// Makes a new `Node` instance with the default settings.
    ///
    /// If you want to customize settings, please use [`NodeBuilder`] instead.
    pub fn new<T, G: GenerateLocalNodeId>(service: &mut ServiceHandle<T, G>, message_tx: T) -> (r: (
        Node,
        Command<T>,
    ))
        ensures
            r.0.spec_id().address == old(service).spec_server_addr(),
            old(service).spec_generator().generates(
                r.0.spec_id().local_id,
                &final(service).spec_generator(),
            ),
            r.0.spec_message_seqno() == 0,
            forall|c: NodeCounter| #[trigger] r.0.spec_metrics().count(c) == 0,
            r.0.spec_params().tick_interval.as_nanos() == 200_000_000,
            r.0.spec_params().hyparview_shuffle_interval.as_nanos() == 300_000_000_000,
            r.0.spec_params().hyparview_sync_active_view_interval.as_nanos() == 60_000_000_000,
            r.0.spec_params().hyparview_fill_active_view_interval.as_nanos() == 30_000_000_000,
            r.1 == Command::Register(
                NodeHandle {
                    local_id: r.0.spec_id().local_id,
                    message_tx,
                    metrics: r.0.spec_metrics(),
                },
            ),
            final(service).registry() == old(service).registry(),
            final(service).spec_server_addr() == old(service).spec_server_addr(),
            final(service).spec_metrics() == old(service).spec_metrics(),
            final(service).wf() == old(service).wf(),
    {
        NodeBuilder::new().finish(service, message_tx)
    }

    /// The identifier of the node.
    pub closed spec fn spec_id(self) -> NodeId {
        self.id
    }

    /// The sequence number of the next message that the node broadcasts.
    pub closed spec fn spec_message_seqno(self) -> u64 {
        self.message_seqno
    }

    /// The clock of the node.
    pub closed spec fn spec_clock(self) -> Clock {
        self.clock
    }

    /// The time at which the passive view is shuffled next.
    pub closed spec fn spec_shuffle_time(self) -> NodeTime {
        self.hyparview_shuffle_time
    }

    /// The time at which the active view is checked next.
    pub closed spec fn spec_sync_active_view_time(self) -> NodeTime {
        self.hyparview_sync_active_view_time
    }

    /// The time at which the active view is filled next.
    pub closed spec fn spec_fill_active_view_time(self) -> NodeTime {
        self.hyparview_fill_active_view_time
    }

    /// The intervals of the periodic work of the node.
    pub closed spec fn spec_params(self) -> Parameters {
        self.params
    }

    /// The counters of the node.
    pub closed spec fn spec_metrics(self) -> NodeMetrics {
        self.metrics
    }

    /// Whether anything has happened in the current round of the run loop.
    pub closed spec fn spec_did_something(self) -> bool {
        self.did_something
    }

    /// The node is as it is made: no message broadcasted, no counter above
    /// zero, the clock at zero.
    pub open spec fn is_new(self, id: NodeId, params: Parameters) -> bool {
        &&& self.spec_id() == id
        &&& self.spec_params() == params
        &&& self.spec_message_seqno() == 0
        &&& self.spec_clock().spec_ticks() == 0
        &&& self.spec_clock().spec_now().as_nanos() == 0
        &&& self.spec_clock().spec_tick_interval() == params.tick_interval
        &&& !self.spec_did_something()
        &&& forall|c: NodeCounter| #[trigger] self.spec_metrics().count(c) == 0
    }

    /// Each periodic task is due for the first time after its interval, made
    /// longer by the jitter that the random number of the task gives.
    pub open spec fn first_scheduled(
        self,
        shuffle_random: u64,
        sync_random: u64,
        fill_random: u64,
    ) -> bool {
        &&& self.spec_shuffle_time().as_nanos() == jittered_nanos(
            self.spec_params().hyparview_shuffle_interval,
            shuffle_random,
        )
        &&& self.spec_sync_active_view_time().as_nanos() == jittered_nanos(
            self.spec_params().hyparview_sync_active_view_interval,
            sync_random,
        )
        &&& self.spec_fill_active_view_time().as_nanos() == jittered_nanos(
            self.spec_params().hyparview_fill_active_view_interval,
            fill_random,
        )
    }

    /// What holds of a node and the same node at any later time: it keeps its
    /// identifier and its settings, and neither its sequence number, nor its
    /// clock, nor any of its counters goes back.
    pub open spec fn precedes(self, later: Node) -> bool {
        &&& later.spec_id() == self.spec_id()
        &&& later.spec_params() == self.spec_params()
        &&& later.spec_clock().spec_tick_interval() == self.spec_clock().spec_tick_interval()
        &&& self.spec_message_seqno() <= later.spec_message_seqno()
        &&& self.spec_clock().spec_ticks() <= later.spec_clock().spec_ticks()
        &&& self.spec_clock().spec_now().as_nanos() <= later.spec_clock().spec_now().as_nanos()
        &&& self.spec_metrics().le(later.spec_metrics())
    }

    /// `later` differs from `self` in its counters at most.
    pub open spec fn same_but_metrics(self, later: Node) -> bool {
        &&& later.spec_id() == self.spec_id()
        &&& later.spec_params() == self.spec_params()
        &&& later.spec_message_seqno() == self.spec_message_seqno()
        &&& later.spec_clock() == self.spec_clock()
        &&& later.spec_shuffle_time() == self.spec_shuffle_time()
        &&& later.spec_sync_active_view_time() == self.spec_sync_active_view_time()
        &&& later.spec_fill_active_view_time() == self.spec_fill_active_view_time()
        &&& later.spec_did_something() == self.spec_did_something()
    }

    /// Each counter of `later` is the counter of `self` with what `added`
    /// gives for it.
    pub open spec fn counted(self, later: Node, added: spec_fn(NodeCounter) -> nat) -> bool {
        forall|c: NodeCounter| #[trigger]
            later.spec_metrics().count(c) == saturating_sum(self.spec_metrics().count(c) as nat, added(c))
    }

    /// Returns the identifier of the node.
    pub fn id(&self) -> (r: NodeId)
        ensures
            r == self.spec_id(),
    {
        self.id
    }

    /// Returns the sequence number of the next message that the node broadcasts.
    pub fn message_seqno(&self) -> (r: u64)
        ensures
            r == self.spec_message_seqno(),
    {
        self.message_seqno
    }

    /// Returns the clock of the node.
    pub fn clock(&self) -> (r: &Clock)
        ensures
            *r == self.spec_clock(),
    {
        &self.clock
    }

    /// Returns the metrics of the node.
    pub fn metrics(&self) -> (r: &NodeMetrics)
        ensures
            *r == self.spec_metrics(),
    {
        &self.metrics
    }

    /// Returns the intervals of the periodic work of the node.
    pub fn params(&self) -> (r: &Parameters)
        ensures
            *r == self.spec_params(),
    {
        &self.params
    }

    /// Joins the cluster to which the given contact node belongs.
    pub fn join(&self, contact_node: NodeId) -> (r: Instruction)
        ensures
            r == Instruction::Hyparview(HyparviewCall::Join { contact_node }),
    {
        Instruction::Hyparview(HyparviewCall::Join { contact_node })
    }

    /// The identifier of the message that the node broadcasts next.
    pub open spec fn next_message_id(self) -> MessageId {
        MessageId { node: self.spec_id(), seqno: self.spec_message_seqno() }
    }

    /// Broadcasts a message.
    ///
    /// The message gets the next sequence number of the node. Note that the
    /// message will also be delivered to the sender node.
    pub fn broadcast(&mut self, message_payload: Vec<u8>) -> (r: Instruction)
        requires
            old(self).spec_message_seqno() < u64::MAX,
        ensures
            r == Instruction::Plumtree(
                PlumtreeCall::BroadcastMessage(
                    Message { id: old(self).next_message_id(), payload: message_payload },
                ),
            ),
            final(self).spec_message_seqno() == old(self).spec_message_seqno() + 1,
            old(self).broadcasted(*final(self), old(self).next_message_id()),
            old(self).counted(
                *final(self),
                |c: NodeCounter|
                    if c == NodeCounter::BroadcastedMessages {
                        1nat
                    } else {
                        0nat
                    },
            ),
            final(self).spec_clock() == old(self).spec_clock(),
            final(self).spec_shuffle_time() == old(self).spec_shuffle_time(),
            final(self).spec_sync_active_view_time() == old(self).spec_sync_active_view_time(),
            final(self).spec_fill_active_view_time() == old(self).spec_fill_active_view_time(),
            final(self).spec_did_something() == old(self).spec_did_something(),
            old(self).precedes(*final(self)),
    {
        let id = MessageId::new(self.id, self.message_seqno);
        self.message_seqno = self.message_seqno + 1;
        let m = Message::new(id, message_payload);
        self.metrics.increment(NodeCounter::BroadcastedMessages);
        Instruction::Plumtree(PlumtreeCall::BroadcastMessage(m))
    }

    /// Forgets the specified message.
    ///
    /// For preventing memory shortage, this method needs to be called appropriately.
    pub fn forget_message(&self, message_id: &MessageId) -> (r: Instruction)
        ensures
            r == Instruction::Plumtree(PlumtreeCall::ForgetMessage(*message_id)),
    {
        Instruction::Plumtree(PlumtreeCall::ForgetMessage(*message_id))
    }

    /// Takes the answer to [`PlumtreeCall::ForgetMessage`]: a message that
    /// was known counts as forgotten, one that was not as an error.
    pub fn handle_forget_result(&mut self, known: bool)
        ensures
            old(self).same_but_metrics(*final(self)),
            old(self).counted(
                *final(self),
                |c: NodeCounter|
                    if known && c == NodeCounter::ForgotMessages {
                        1nat
                    } else if !known && c == NodeCounter::ForgetUnknownMessageErrors {
                        1nat
                    } else {
                        0nat
                    },
            ),
            old(self).precedes(*final(self)),
    {
        if known {
            self.metrics.increment(NodeCounter::ForgotMessages);
        } else {
            self.metrics.increment(NodeCounter::ForgetUnknownMessageErrors);
        }
    }

    /// What the driver has to do for an action of the membership protocol:
    /// a message is sent, a change of the active view is told to the
    /// broadcast tree, and a closed connection asks for nothing.
    pub open spec fn hyparview_instruction(action: HyparviewAction) -> Option<Instruction> {
        match action {
            HyparviewAction::Send { destination, message } => Some(
                Instruction::Send { destination, message: RpcMessage::Hyparview(message) },
            ),
            HyparviewAction::Notify { event: HyparviewEvent::NeighborUp { node } } => Some(
                Instruction::Plumtree(PlumtreeCall::HandleNeighborUp { node }),
            ),
            HyparviewAction::Notify { event: HyparviewEvent::NeighborDown { node } } => Some(
                Instruction::Plumtree(PlumtreeCall::HandleNeighborDown { node }),
            ),
            HyparviewAction::Disconnect { node } => None,
        }
    }

    /// What an action of the membership protocol adds to a counter, where
    /// `active_view_len` is the size of the active view when the action is
    /// handled: a neighbor that comes counts as connected, and ends an
    /// isolation if it is the only one; a neighbor that goes counts as
    /// disconnected, and starts an isolation if none is left.
    pub open spec fn hyparview_counts(
        action: HyparviewAction,
        active_view_len: nat,
        c: NodeCounter,
    ) -> nat {
        match action {
            HyparviewAction::Notify { event: HyparviewEvent::NeighborUp { node } } => {
                if c == NodeCounter::ConnectedNeighbors {
                    1
                } else if c == NodeCounter::DeisolatedTimes && active_view_len == 1 {
                    1
                } else {
                    0
                }
            },
            HyparviewAction::Notify { event: HyparviewEvent::NeighborDown { node } } => {
                if c == NodeCounter::DisconnectedNeighbors {
                    1
                } else if c == NodeCounter::IsolatedTimes && active_view_len == 0 {
                    1
                } else {
                    0
                }
            },
            _ => 0,
        }
    }

    /// Handles an action of the membership protocol. `active_view_len` is the
    /// size of the active view of the membership protocol at this moment.
    pub fn handle_hyparview_action(&mut self, action: HyparviewAction, active_view_len: usize) -> (r:
        Option<Instruction>)
        ensures
            r == Self::hyparview_instruction(action),
            old(self).same_but_metrics(*final(self)),
            old(self).counted(
                *final(self),
                |c: NodeCounter| Self::hyparview_counts(action, active_view_len as nat, c),
            ),
            old(self).precedes(*final(self)),
    {
        match action {
            HyparviewAction::Send { destination, message } => {
                let message = RpcMessage::Hyparview(message);
                Some(Instruction::Send { destination, message })
            },
            HyparviewAction::Notify { event } => match event {
                HyparviewEvent::NeighborUp { node } => {
                    self.metrics.increment(NodeCounter::ConnectedNeighbors);
                    if active_view_len == 1 {
                        self.metrics.increment(NodeCounter::DeisolatedTimes);
                    }
                    Some(Instruction::Plumtree(PlumtreeCall::HandleNeighborUp { node }))
                },
                HyparviewEvent::NeighborDown { node } => {
                    self.metrics.increment(NodeCounter::DisconnectedNeighbors);
                    if active_view_len == 0 {
                        self.metrics.increment(NodeCounter::IsolatedTimes);
                    }
                    Some(Instruction::Plumtree(PlumtreeCall::HandleNeighborDown { node }))
                },
            },
            HyparviewAction::Disconnect { node } => None,
        }
    }

    /// The counter of the messages of the protocol of `message` that could
    /// not be sent.
    pub open spec fn cannot_send_counter(message: RpcMessage) -> NodeCounter {
        match message {
            RpcMessage::Hyparview(_) => NodeCounter::CannotSendHyparviewMessageErrors,
            RpcMessage::Plumtree(_) => NodeCounter::CannotSendPlumtreeMessageErrors,
        }
    }

    /// Takes the failure of an [`Instruction::Send`]: the failure is counted,
    /// and the node that could not be reached is removed from the active
    /// view, as one that is not alive.
    pub fn handle_send_failure(&mut self, destination: NodeId, message: &RpcMessage) -> (r:
        Instruction)
        ensures
            r == Instruction::Hyparview(HyparviewCall::Disconnect { node: destination, alive: false }),
            old(self).same_but_metrics(*final(self)),
            old(self).counted(
                *final(self),
                |c: NodeCounter|
                    if c == Self::cannot_send_counter(*message) {
                        1nat
                    } else {
                        0nat
                    },
            ),
            old(self).precedes(*final(self)),
    {
        match message {
            RpcMessage::Hyparview(_) => {
                self.metrics.increment(NodeCounter::CannotSendHyparviewMessageErrors);
            },
            RpcMessage::Plumtree(_) => {
                self.metrics.increment(NodeCounter::CannotSendPlumtreeMessageErrors);
            },
        }
        Instruction::Hyparview(HyparviewCall::Disconnect { node: destination, alive: false })
    }

    /// What becomes of an action of the broadcast tree protocol: a message
    /// for another node is sent, a message for the application is delivered.
    pub open spec fn plumtree_outcome(action: PlumtreeAction) -> Outcome {
        match action {
            PlumtreeAction::Send { destination, message } => Outcome::Do(
                Instruction::Send { destination, message: RpcMessage::Plumtree(message) },
            ),
            PlumtreeAction::Deliver { message } => Outcome::Deliver(message),
        }
    }

    /// Handles an action of the broadcast tree protocol. A delivered message
    /// is counted.
    pub fn handle_plumtree_action(&mut self, action: PlumtreeAction) -> (r: Outcome)
        ensures
            r == Self::plumtree_outcome(action),
            old(self).same_but_metrics(*final(self)),
            old(self).counted(
                *final(self),
                |c: NodeCounter|
                    if action is Deliver && c == NodeCounter::DeliveredMessages {
                        1nat
                    } else {
                        0nat
                    },
            ),
            old(self).precedes(*final(self)),
    {
        match action {
            PlumtreeAction::Send { destination, message } => {
                let message = RpcMessage::Plumtree(message);
                Outcome::Do(Instruction::Send { destination, message })
            },
            PlumtreeAction::Deliver { message } => {
                self.metrics.increment(NodeCounter::DeliveredMessages);
                Outcome::Deliver(message)
            },
        }
    }

    /// The state machine that a message from another node is for.
    pub open spec fn rpc_instruction(message: RpcMessage) -> Instruction {
        match message {
            RpcMessage::Hyparview(m) => Instruction::Hyparview(
                HyparviewCall::HandleProtocolMessage(m),
            ),
            RpcMessage::Plumtree(m) => Instruction::Plumtree(PlumtreeCall::HandleProtocolMessage(m)),
        }
    }

    /// Handles a message from another node: it is handed to the state machine
    /// of its protocol. Every message is accepted.
    pub fn handle_rpc_message(&self, message: RpcMessage) -> (r: Instruction)
        ensures
            r == Self::rpc_instruction(message),
    {
        match message {
            RpcMessage::Hyparview(m) => Instruction::Hyparview(
                HyparviewCall::HandleProtocolMessage(m),
            ),
            RpcMessage::Plumtree(m) => Instruction::Plumtree(PlumtreeCall::HandleProtocolMessage(m)),
        }
    }

    /// Takes the answer to [`PlumtreeCall::HandleProtocolMessage`]: a message
    /// from a node that the broadcast tree did not know is counted, and
    /// nothing else comes of it.
    pub fn handle_protocol_message_result(&mut self, known: bool)
        ensures
            old(self).same_but_metrics(*final(self)),
            old(self).counted(
                *final(self),
                |c: NodeCounter|
                    if !known && c == NodeCounter::UnknownPlumtreeNodeErrors {
                        1nat
                    } else {
                        0nat
                    },
            ),
            old(self).precedes(*final(self)),
    {
        if !known {
            self.metrics.increment(NodeCounter::UnknownPlumtreeNodeErrors);
        }
    }

    /// Whether a task that is scheduled for `time` is due at `now`.
    pub open spec fn is_due(now: NodeTime, time: NodeTime) -> bool {
        now.as_nanos() >= time.as_nanos()
    }

    /// What the driver has to do for a tick: proceed the clock of the
    /// broadcast tree by the tick interval, then run the periodic tasks of
    /// the membership protocol that are due, in this order.
    pub open spec fn tick_instructions(
        tick_interval: Duration,
        shuffle_due: bool,
        sync_due: bool,
        fill_due: bool,
    ) -> Seq<Instruction> {
        seq![Instruction::Plumtree(PlumtreeCall::Tick(tick_interval))] + (if shuffle_due {
            seq![Instruction::Hyparview(HyparviewCall::ShufflePassiveView)]
        } else {
            seq![]
        }) + (if sync_due {
            seq![Instruction::Hyparview(HyparviewCall::SyncActiveView)]
        } else {
            seq![]
        }) + (if fill_due {
            seq![Instruction::Hyparview(HyparviewCall::FillActiveView)]
        } else {
            seq![]
        })
    }

    /// The time for which a task is scheduled after a tick that ended at
    /// `now`: a task that was due comes again after its interval, made
    /// longer by the jitter that `random` gives; another one stays.
    pub open spec fn rescheduled(
        now: NodeTime,
        time: NodeTime,
        interval: Duration,
        random: u64,
        next: NodeTime,
    ) -> bool {
        if Self::is_due(now, time) {
            next.as_nanos() == later_nanos(now, jittered_nanos(interval, random)) && next.is_valid()
        } else {
            next == time
        }
    }

    /// `later` is `self` after one tick of the clock, with the random numbers
    /// given for the jitter of the three periodic tasks.
    pub open spec fn ticked(
        self,
        later: Node,
        shuffle_random: u64,
        sync_random: u64,
        fill_random: u64,
    ) -> bool {
        let now = later.spec_clock().spec_now();
        &&& later.spec_id() == self.spec_id()
        &&& later.spec_params() == self.spec_params()
        &&& later.spec_message_seqno() == self.spec_message_seqno()
        &&& later.spec_metrics() == self.spec_metrics()
        &&& later.spec_did_something() == self.spec_did_something()
        &&& later.spec_clock().spec_tick_interval() == self.spec_clock().spec_tick_interval()
        &&& later.spec_clock().spec_ticks() == if self.spec_clock().spec_ticks() < u64::MAX {
            self.spec_clock().spec_ticks() + 1
        } else {
            self.spec_clock().spec_ticks()
        }
        &&& now.as_nanos() == later_nanos(
            self.spec_clock().spec_now(),
            self.spec_clock().spec_tick_interval().as_nanos(),
        )
        &&& Self::rescheduled(
            now,
            self.spec_shuffle_time(),
            self.spec_params().hyparview_shuffle_interval,
            shuffle_random,
            later.spec_shuffle_time(),
        )
        &&& Self::rescheduled(
            now,
            self.spec_sync_active_view_time(),
            self.spec_params().hyparview_sync_active_view_interval,
            sync_random,
            later.spec_sync_active_view_time(),
        )
        &&& Self::rescheduled(
            now,
            self.spec_fill_active_view_time(),
            self.spec_params().hyparview_fill_active_view_interval,
            fill_random,
            later.spec_fill_active_view_time(),
        )
    }

    /// What the driver has to do for the tick that leads from `self` to `later`.
    pub open spec fn instructions_of_tick(self, later: Node) -> Seq<Instruction> {
        let now = later.spec_clock().spec_now();
        Self::tick_instructions(
            self.spec_clock().spec_tick_interval(),
            Self::is_due(now, self.spec_shuffle_time()),
            Self::is_due(now, self.spec_sync_active_view_time()),
            Self::is_due(now, self.spec_fill_active_view_time()),
        )
    }

    /// Handles a tick of the timer, with the random numbers for the jitter
    /// of the three periodic tasks.
    pub fn handle_tick_with(&mut self, shuffle_random: u64, sync_random: u64, fill_random: u64) -> (r:
        Vec<Instruction>)
        ensures
            old(self).ticked(*final(self), shuffle_random, sync_random, fill_random),
            r@ == old(self).instructions_of_tick(*final(self)),
            old(self).precedes(*final(self)),
    {
        let mut out: Vec<Instruction> = Vec::new();
        out.push(Instruction::Plumtree(PlumtreeCall::Tick(self.clock.tick_interval())));
        self.clock.tick();
        let now: NodeTime = self.clock.now();
        if now.ge(&self.hyparview_shuffle_time) {
            out.push(Instruction::Hyparview(HyparviewCall::ShufflePassiveView));
            self.hyparview_shuffle_time = now.saturating_add(
                jittered_interval(self.params.hyparview_shuffle_interval, shuffle_random),
            );
        }
        if now.ge(&self.hyparview_sync_active_view_time) {
            out.push(Instruction::Hyparview(HyparviewCall::SyncActiveView));
            self.hyparview_sync_active_view_time = now.saturating_add(
                jittered_interval(self.params.hyparview_sync_active_view_interval, sync_random),
            );
        }
        if now.ge(&self.hyparview_fill_active_view_time) {
            out.push(Instruction::Hyparview(HyparviewCall::FillActiveView));
            self.hyparview_fill_active_view_time = now.saturating_add(
                jittered_interval(self.params.hyparview_fill_active_view_interval, fill_random),
            );
        }
        proof {
            assert(out@ =~= old(self).instructions_of_tick(*self));
        }
        out
    }

    /// Handles a tick of the timer. The jitter of the periodic tasks is random.
    pub fn handle_tick(&mut self) -> (r: Vec<Instruction>)
        ensures
            exists|shuffle_random: u64, sync_random: u64, fill_random: u64| #[trigger]
                old(self).ticked(*final(self), shuffle_random, sync_random, fill_random),
            r@ == old(self).instructions_of_tick(*final(self)),
            old(self).precedes(*final(self)),
    {
        let shuffle_random: u64 = random_u64();
        let sync_random: u64 = random_u64();
        let fill_random: u64 = random_u64();
        self.handle_tick_with(shuffle_random, sync_random, fill_random)
    }

    /// The farewell of the node `id` to `peer`: the message that the node is
    /// no longer a neighbor, and not alive.
    pub open spec fn farewell(id: NodeId, peer: NodeId) -> Instruction {
        Instruction::Send {
            destination: peer,
            message: RpcMessage::Hyparview(
                HyparviewMessage::Disconnect(DisconnectMessage { sender: id, alive: false }),
            ),
        }
    }

    /// Leaves the cluster: a farewell goes to every node of the active view,
    /// in the order of the view. A farewell that cannot be sent is not
    /// reported.
    pub fn leave(&self, active_view: &Vec<NodeId>) -> (r: Vec<Instruction>)
        ensures
            r@.len() == active_view@.len(),
            forall|i: int|
                0 <= i < active_view@.len() ==> #[trigger] r@[i] == Self::farewell(
                    self.spec_id(),
                    active_view@[i],
                ),
    {
        let mut out: Vec<Instruction> = Vec::new();
        let mut i: usize = 0;
        while i < active_view.len()
            invariant
                i <= active_view@.len(),
                out@.len() == i,
                forall|j: int|
                    0 <= j < i ==> #[trigger] out@[j] == Self::farewell(
                        self.spec_id(),
                        active_view@[j],
                    ),
            decreases active_view@.len() - i,
        {
            let peer: NodeId = active_view[i];
            let message = DisconnectMessage { sender: self.id, alive: false };
            let message = HyparviewMessage::Disconnect(message);
            let message = RpcMessage::Hyparview(message);
            out.push(Instruction::Send { destination: peer, message });
            i = i + 1;
        }
        out
    }

    /// What a shutdown adds to a counter: the messages that were delivered
    /// and not forgotten count as forgotten.
    pub open spec fn shutdown_counts(self, c: NodeCounter) -> nat {
        let delivered = self.spec_metrics().count(NodeCounter::DeliveredMessages);
        let forgot = self.spec_metrics().count(NodeCounter::ForgotMessages);
        if c == NodeCounter::ForgotMessages && delivered > forgot {
            (delivered - forgot) as nat
        } else {
            0
        }
    }

    /// Shuts the node down: the messages that were delivered and not
    /// forgotten are counted as forgotten, and the node leaves the cluster.
    ///
    /// The result names the node to take out of the registry of the
    /// service, with its counters as they end, and holds the farewells.
    pub fn shutdown(&mut self, active_view: &Vec<NodeId>) -> (r: Shutdown)
        ensures
            old(self).same_but_metrics(*final(self)),
            old(self).counted(*final(self), |c: NodeCounter| old(self).shutdown_counts(c)),
            final(self).spec_metrics().count(NodeCounter::DeliveredMessages) <= final(self).spec_metrics().count(
                NodeCounter::ForgotMessages,
            ),
            old(self).precedes(*final(self)),
            r.local_id == old(self).spec_id().local_id,
            r.metrics == final(self).spec_metrics(),
            r.farewells@.len() == active_view@.len(),
            forall|i: int|
                0 <= i < active_view@.len() ==> #[trigger] r.farewells@[i] == Self::farewell(
                    old(self).spec_id(),
                    active_view@[i],
                ),
    {
        let delivered: u64 = self.metrics.delivered_messages();
        let forgot: u64 = self.metrics.forgot_messages();
        if delivered > forgot {
            self.metrics.add_u64(NodeCounter::ForgotMessages, delivered - forgot);
        }
        let farewells = self.leave(active_view);
        Shutdown { local_id: self.id.local_id, metrics: self.metrics, farewells }
    }

    /// Starts a poll of the node: the timer is asked first.
    pub fn poll_start(&self) -> (r: Poll)
        ensures
            r == Poll::Next(PollSource::Timer),
    {
        Poll::Next(PollSource::Timer)
    }

    /// Takes what the timer said. While the tick interval has passed, the
    /// tick is handled, the driver sets the timer again and asks it again.
    /// After that a round over the three sources of work starts with the
    /// membership protocol.
    pub fn poll_timer(&mut self, fired: bool) -> (r: Step)
        ensures
            fired ==> {
                &&& exists|shuffle_random: u64, sync_random: u64, fill_random: u64| #[trigger]
                    old(self).ticked(*final(self), shuffle_random, sync_random, fill_random)
                &&& r.instructions@ == old(self).instructions_of_tick(*final(self))
                &&& r.poll == Poll::Next(PollSource::Timer)
            },
            !fired ==> {
                &&& final(self).spec_did_something() == false
                &&& final(self).spec_metrics() == old(self).spec_metrics()
                &&& old(self).same_but_round(*final(self))
                &&& r.instructions@ == Seq::<Instruction>::empty()
                &&& r.poll == Poll::Next(PollSource::Hyparview)
            },
            old(self).precedes(*final(self)),
    {
        if fired {
            let instructions = self.handle_tick();
            Step { instructions, poll: Poll::Next(PollSource::Timer) }
        } else {
            self.did_something = false;
            Step { instructions: Vec::new(), poll: Poll::Next(PollSource::Hyparview) }
        }
    }

    /// `later` differs from `self` at most in its counters and in whether
    /// anything has happened in the current round of the run loop.
    pub open spec fn same_but_round(self, later: Node) -> bool {
        &&& later.spec_id() == self.spec_id()
        &&& later.spec_params() == self.spec_params()
        &&& later.spec_message_seqno() == self.spec_message_seqno()
        &&& later.spec_clock() == self.spec_clock()
        &&& later.spec_shuffle_time() == self.spec_shuffle_time()
        &&& later.spec_sync_active_view_time() == self.spec_sync_active_view_time()
        &&& later.spec_fill_active_view_time() == self.spec_fill_active_view_time()
    }

    /// The instructions of a step that has at most one.
    pub open spec fn at_most_one(instruction: Option<Instruction>) -> Seq<Instruction> {
        match instruction {
            Some(i) => seq![i],
            None => seq![],
        }
    }

    /// Takes what the membership protocol had to do, if anything, with the
    /// size of its active view at this moment. An action is handled and the
    /// protocol is asked again; when it has no more, the broadcast tree is
    /// asked.
    pub fn poll_hyparview(&mut self, action: Option<HyparviewAction>, active_view_len: usize) -> (r:
        Step)
        ensures
            old(self).same_but_round(*final(self)),
            old(self).precedes(*final(self)),
            match action {
                Some(a) => {
                    &&& r.instructions@ == Self::at_most_one(Self::hyparview_instruction(a))
                    &&& old(self).counted(
                        *final(self),
                        |c: NodeCounter| Self::hyparview_counts(a, active_view_len as nat, c),
                    )
                    &&& final(self).spec_did_something()
                    &&& r.poll == Poll::Next(PollSource::Hyparview)
                },
                None => {
                    &&& r.instructions@ == Seq::<Instruction>::empty()
                    &&& final(self).spec_metrics() == old(self).spec_metrics()
                    &&& final(self).spec_did_something() == old(self).spec_did_something()
                    &&& r.poll == Poll::Next(PollSource::Plumtree)
                },
            },
    {
        match action {
            Some(a) => {
                let mut instructions: Vec<Instruction> = Vec::new();
                match self.handle_hyparview_action(a, active_view_len) {
                    Some(i) => {
                        instructions.push(i);
                    },
                    None => {},
                }
                self.did_something = true;
                proof {
                    assert(instructions@ =~= Self::at_most_one(Self::hyparview_instruction(a)));
                }
                Step { instructions, poll: Poll::Next(PollSource::Hyparview) }
            },
            None => Step { instructions: Vec::new(), poll: Poll::Next(PollSource::Plumtree) },
        }
    }

    /// Takes what the broadcast tree had to do, if anything. A message for
    /// another node is sent and the tree is asked again. A message for the
    /// application ends the poll at once: the message is counted and handed
    /// out. When the tree has no more, the mailbox is asked.
    pub fn poll_plumtree(&mut self, action: Option<PlumtreeAction>) -> (r: Step)
        ensures
            old(self).same_but_round(*final(self)),
            old(self).precedes(*final(self)),
            match action {
                Some(PlumtreeAction::Send { destination, message }) => {
                    &&& r.instructions@ == seq![
                        Instruction::Send { destination, message: RpcMessage::Plumtree(message) },
                    ]
                    &&& final(self).spec_metrics() == old(self).spec_metrics()
                    &&& final(self).spec_did_something()
                    &&& r.poll == Poll::Next(PollSource::Plumtree)
                },
                Some(PlumtreeAction::Deliver { message }) => {
                    &&& r.instructions@ == Seq::<Instruction>::empty()
                    &&& old(self).counted(
                        *final(self),
                        |c: NodeCounter|
                            if c == NodeCounter::DeliveredMessages {
                                1nat
                            } else {
                                0nat
                            },
                    )
                    &&& final(self).spec_did_something() == old(self).spec_did_something()
                    &&& r.poll == Poll::Ready(message)
                },
                None => {
                    &&& r.instructions@ == Seq::<Instruction>::empty()
                    &&& final(self).spec_metrics() == old(self).spec_metrics()
                    &&& final(self).spec_did_something() == old(self).spec_did_something()
                    &&& r.poll == Poll::Next(PollSource::Mailbox)
                },
            },
    {
        match action {
            Some(a) => {
                let ghost before = self.metrics;
                match self.handle_plumtree_action(a) {
                    Outcome::Do(i) => {
                        proof {
                            NodeMetrics::lemma_same_counts(before, self.metrics);
                        }
                        let mut instructions: Vec<Instruction> = Vec::new();
                        instructions.push(i);
                        self.did_something = true;
                        proof {
                            assert(instructions@ =~= seq![i]);
                        }
                        Step { instructions, poll: Poll::Next(PollSource::Plumtree) }
                    },
                    Outcome::Deliver(message) => Step {
                        instructions: Vec::new(),
                        poll: Poll::Ready(message),
                    },
                }
            },
            None => Step { instructions: Vec::new(), poll: Poll::Next(PollSource::Mailbox) },
        }
    }

    /// Takes what the mailbox held. A message is handed to the state machine
    /// of its protocol and the mailbox is asked again. A mailbox that is
    /// closed means that the service is down: the poll fails. When the
    /// mailbox is empty, the round is over: if anything happened in it,
    /// another round starts with the membership protocol, else the poll ends
    /// with nothing ready.
    pub fn poll_mailbox(&mut self, event: MailboxEvent) -> (r: Step)
        ensures
            old(self).same_but_round(*final(self)),
            final(self).spec_metrics() == old(self).spec_metrics(),
            old(self).precedes(*final(self)),
            match event {
                MailboxEvent::Message(message) => {
                    &&& r.instructions@ == seq![Self::rpc_instruction(message)]
                    &&& final(self).spec_did_something()
                    &&& r.poll == Poll::Next(PollSource::Mailbox)
                },
                MailboxEvent::Closed => {
                    &&& r.instructions@ == Seq::<Instruction>::empty()
                    &&& final(self).spec_did_something() == old(self).spec_did_something()
                    &&& r.poll == Poll::Failed(Error { kind: ErrorKind::Other })
                },
                MailboxEvent::Empty => {
                    &&& r.instructions@ == Seq::<Instruction>::empty()
                    &&& !final(self).spec_did_something()
                    &&& r.poll == if old(self).spec_did_something() {
                        Poll::Next(PollSource::Hyparview)
                    } else {
                        Poll::NotReady
                    }
                },
            },
    {
        match event {
            MailboxEvent::Message(message) => {
                let i = self.handle_rpc_message(message);
                let mut instructions: Vec<Instruction> = Vec::new();
                instructions.push(i);
                self.did_something = true;
                proof {
                    assert(instructions@ =~= seq![i]);
                }
                Step { instructions, poll: Poll::Next(PollSource::Mailbox) }
            },
            MailboxEvent::Closed => Step {
                instructions: Vec::new(),
                poll: Poll::Failed(Error::new(ErrorKind::Other)),
            },
            MailboxEvent::Empty => {
                if self.did_something {
                    self.did_something = false;
                    Step { instructions: Vec::new(), poll: Poll::Next(PollSource::Hyparview) }
                } else {
                    Step { instructions: Vec::new(), poll: Poll::NotReady }
                }
            },
        }
    }
}

/// What a node leaves behind when it is shut down.
#[derive(Debug, Clone, PartialEq, Eq)]
pub struct Shutdown {
    /// The node to take out of the registry of the service.
    pub local_id: LocalNodeId,
    /// The counters of the node as they end.
    pub metrics: NodeMetrics,
    /// The farewells to the nodes of the active view.
    pub farewells: Vec<Instruction>,
}

/// Where the work of a node comes from.
#[derive(Debug, Clone, Copy, PartialEq, Eq)]
pub enum PollSource {
    /// The timer of the tick interval; the answer goes to [`Node::poll_timer`].
    Timer,
    /// The next action of the membership protocol; the answer goes to
    /// [`Node::poll_hyparview`].
    Hyparview,
    /// The next action of the broadcast tree protocol; the answer goes to
    /// [`Node::poll_plumtree`].
    Plumtree,
    /// The mailbox of the messages from other nodes; the answer goes to
    /// [`Node::poll_mailbox`].
    Mailbox,
}

/// What the mailbox of a node holds.
#[derive(Debug, Clone, PartialEq, Eq)]
pub enum MailboxEvent {
    /// A message from another node.
    Message(RpcMessage),
    /// Nothing at this moment.
    Empty,
    /// Nothing, and nothing will come: the service is gone.
    Closed,
}

/// How a poll of a node goes on.
#[derive(Debug, Clone, PartialEq, Eq)]
pub enum Poll {
    /// The driver asks the source and hands on the answer.
    Next(PollSource),
    /// The poll ends with a message for the application.
    Ready(Message),
    /// The poll ends with nothing for the application at this moment.
    NotReady,
    /// The poll ends with an error: the node cannot go on.
    Failed(Error),
}

/// One step of a poll of a node.
#[derive(Debug, Clone, PartialEq, Eq)]
pub struct Step {
    /// What the driver has to do, in this order.
    pub instructions: Vec<Instruction>,
    /// How the poll goes on after that.
    pub poll: Poll,
}

/// What becomes of an action of the broadcast tree protocol.
#[derive(Debug, Clone, PartialEq, Eq)]
pub enum Outcome {
    /// The driver has something to do.
    Do(Instruction),
    /// A message is handed to the application.
    Deliver(Message),
}

/// The active view of the membership protocol after it has reported
/// `actions`, in this order, where it was `view` before: a neighbor that
/// comes is in it, a neighbor that goes is not.
pub open spec fn active_view_after(view: Set<NodeId>, actions: Seq<HyparviewAction>) -> Set<NodeId>
    decreases actions.len(),
{
    if actions.len() == 0 {
        view
    } else {
        let before = active_view_after(view, actions.drop_last());
        match actions.last() {
            HyparviewAction::Notify { event: HyparviewEvent::NeighborUp { node } } => before.insert(
                node,
            ),
            HyparviewAction::Notify { event: HyparviewEvent::NeighborDown { node } } => {
                before.remove(node)
            },
            _ => before,
        }
    }
}

/// The peers of the broadcast tree after `instructions` have been carried
/// out, in this order, where they were `peers` before.
pub open spec fn tree_peers_after(peers: Set<NodeId>, instructions: Seq<Instruction>) -> Set<NodeId>
    decreases instructions.len(),
{
    if instructions.len() == 0 {
        peers
    } else {
        let before = tree_peers_after(peers, instructions.drop_last());
        match instructions.last() {
            Instruction::Plumtree(PlumtreeCall::HandleNeighborUp { node }) => before.insert(node),
            Instruction::Plumtree(PlumtreeCall::HandleNeighborDown { node }) => before.remove(node),
            _ => before,
        }
    }
}

/// What a node asks of its driver while it handles `actions` of the
/// membership protocol, in this order.
pub open spec fn instructions_for(actions: Seq<HyparviewAction>) -> Seq<Instruction>
    decreases actions.len(),
{
    if actions.len() == 0 {
        Seq::<Instruction>::empty()
    } else {
        instructions_for(actions.drop_last()) + Node::at_most_one(
            Node::hyparview_instruction(actions.last()),
        )
    }
}

/// The broadcast tree never knows a peer that is not in the active view:
/// if every peer of the tree is in the active view, then this still holds
/// after the membership protocol has reported any actions and the node has
/// handled them all.
pub proof fn lemma_tree_peers_in_active_view(
    view: Set<NodeId>,
    peers: Set<NodeId>,
    actions: Seq<HyparviewAction>,
)
    requires
        peers.subset_of(view),
    ensures
        tree_peers_after(peers, instructions_for(actions)).subset_of(
            active_view_after(view, actions),
        ),
    decreases actions.len(),
{
    if actions.len() > 0 {
        let earlier = actions.drop_last();
        lemma_tree_peers_in_active_view(view, peers, earlier);
        let done = instructions_for(earlier);
        match Node::hyparview_instruction(actions.last()) {
            Some(i) => {
                assert(Node::at_most_one(Some(i)) == seq![i]);
                assert((done + seq![i]).drop_last() =~= done);
                assert((done + seq![i]).last() == i);
            },
            None => {
                assert(done + Seq::<Instruction>::empty() =~= done);
            },
        }
    }
}

impl Node {
    /// The node has broadcasted the message `id` on its way from `self` to `later`.
    pub open spec fn broadcasted(self, later: Node, id: MessageId) -> bool {
        &&& id == self.next_message_id()
        &&& later.spec_id() == self.spec_id()
        &&& later.spec_message_seqno() == self.spec_message_seqno() + 1
    }

    /// A node that is before another, which is before a third, is before the third.
    pub proof fn lemma_precedes_transitive(a: Node, b: Node, c: Node)
        requires
            a.precedes(b),
            b.precedes(c),
        ensures
            a.precedes(c),
    {
        assert forall|k: NodeCounter| #[trigger]
            a.spec_metrics().count(k) <= c.spec_metrics().count(k) by {
            assert(a.spec_metrics().count(k) <= b.spec_metrics().count(k));
            assert(b.spec_metrics().count(k) <= c.spec_metrics().count(k));
        }
    }

    /// Of two messages that a node broadcasts, the later one has the larger
    /// sequence number, and both name the node as their origin.
    pub proof fn lemma_seqno_increases(
        before_first: Node,
        after_first: Node,
        before_second: Node,
        after_second: Node,
        first: MessageId,
        second: MessageId,
    )
        requires
            before_first.broadcasted(after_first, first),
            after_first.precedes(before_second),
            before_second.broadcasted(after_second, second),
        ensures
            first.seqno < second.seqno,
            first.node == second.node,
    {
    }
}

} // verus!
