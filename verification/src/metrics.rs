//! Counters of a service and of its nodes.
//!
//! Every counter only grows: it counts up to `u64::MAX` and stays there.
//! The names are those under which the counters are exposed:
//! `plumcast_<subsystem>_<name>`, with the label `kind` on the error counters.
use vstd::prelude::*;

verus! {

/// The namespace of every metric of this crate.
pub const NAMESPACE: &'static str = "plumcast";

/// The sum of two counts, which stops at `u64::MAX`.
pub open spec fn saturating_sum(a: nat, b: nat) -> nat {
    if a + b <= u64::MAX {
        a + b
    } else {
        u64::MAX as nat
    }
}

/// Returns the larger of two counts.
fn larger(a: u64, b: u64) -> (r: u64)
    ensures
        r == if a >= b {
            a
        } else {
            b
        },
{
    if a >= b {
        a
    } else {
        b
    }
}

/// The counters of a service.
#[derive(Debug, Clone, Copy, PartialEq, Eq, Hash)]
pub enum ServiceCounter {
    /// Number of nodes registered so far.
    RegisteredNodes,
    /// Number of nodes deregistered so far.
    DeregisteredNodes,
    /// Number of RPC messages received but the destination node is missing.
    DestinationUnknownMessages,
}

impl ServiceCounter {
    /// The subsystem of the service counters.
    pub open spec fn spec_subsystem() -> Seq<char> {
        "service"@
    }

    /// The name of the counter.
    pub open spec fn spec_name(self) -> Seq<char> {
        match self {
            ServiceCounter::RegisteredNodes => "registered_nodes_total"@,
            ServiceCounter::DeregisteredNodes => "deregistered_nodes_total"@,
            ServiceCounter::DestinationUnknownMessages => "destination_unknown_messages_total"@,
        }
    }

    /// What the counter counts, in words.
    pub open spec fn spec_help(self) -> Seq<char> {
        match self {
            ServiceCounter::RegisteredNodes => "Number of nodes registered so far"@,
            ServiceCounter::DeregisteredNodes => "Number of nodes deregistered so far"@,
            ServiceCounter::DestinationUnknownMessages => {
                "Number of RPC messages received but the destination node is missing"@
            },
        }
    }

    /// Returns the subsystem of the service counters.
    pub fn subsystem() -> (r: &'static str)
        ensures
            r@ == Self::spec_subsystem(),
    {
        "service"
    }

    /// Returns what the counter counts, in words.
    pub fn help(self) -> (r: &'static str)
        ensures
            r@ == self.spec_help(),
    {
        match self {
            ServiceCounter::RegisteredNodes => "Number of nodes registered so far",
            ServiceCounter::DeregisteredNodes => "Number of nodes deregistered so far",
            ServiceCounter::DestinationUnknownMessages => {
                "Number of RPC messages received but the destination node is missing"
            },
        }
    }

    /// Returns the name of the counter.
    pub fn name(self) -> (r: &'static str)
        ensures
            r@ == self.spec_name(),
    {
        match self {
            ServiceCounter::RegisteredNodes => "registered_nodes_total",
            ServiceCounter::DeregisteredNodes => "deregistered_nodes_total",
            ServiceCounter::DestinationUnknownMessages => "destination_unknown_messages_total",
        }
    }
}

/// Returns the counters of a service, in the order in which they are exposed.
pub fn service_counters() -> (r: Vec<ServiceCounter>)
    ensures
        r@ == seq![
            ServiceCounter::RegisteredNodes,
            ServiceCounter::DeregisteredNodes,
            ServiceCounter::DestinationUnknownMessages,
        ],
{
    let mut all: Vec<ServiceCounter> = Vec::new();
    all.push(ServiceCounter::RegisteredNodes);
    all.push(ServiceCounter::DeregisteredNodes);
    all.push(ServiceCounter::DestinationUnknownMessages);
    proof {
        assert(all@ =~= seq![
            ServiceCounter::RegisteredNodes,
            ServiceCounter::DeregisteredNodes,
            ServiceCounter::DestinationUnknownMessages,
        ]);
    }
    all
}

/// Metrics of a service.
#[derive(Debug, Clone, Copy, PartialEq, Eq)]
pub struct ServiceMetrics {
    registered_nodes: u64,
    deregistered_nodes: u64,
    destination_unknown_messages: u64,
}

impl ServiceMetrics {
    /// The value of a counter.
    pub closed spec fn count(self, counter: ServiceCounter) -> u64 {
        match counter {
            ServiceCounter::RegisteredNodes => self.registered_nodes,
            ServiceCounter::DeregisteredNodes => self.deregistered_nodes,
            ServiceCounter::DestinationUnknownMessages => self.destination_unknown_messages,
        }
    }

    /// No counter of `self` is above the same counter of `later`.
    pub open spec fn le(self, later: ServiceMetrics) -> bool {
        forall|c: ServiceCounter| #[trigger] self.count(c) <= later.count(c)
    }

    /// `later` is `self` with `n` more on `counter`, and nothing else changed.
    pub open spec fn bumped(self, counter: ServiceCounter, n: nat, later: ServiceMetrics) -> bool {
        forall|c: ServiceCounter| #[trigger]
            later.count(c) == if c == counter {
                saturating_sum(self.count(c) as nat, n)
            } else {
                self.count(c) as nat
            }
    }

    /// Makes the counters of a new service: all zero.
    pub fn new() -> (r: Self)
        ensures
            forall|c: ServiceCounter| #[trigger] r.count(c) == 0,
    {
        ServiceMetrics { registered_nodes: 0, deregistered_nodes: 0, destination_unknown_messages: 0 }
    }

    /// Returns the value of a counter.
    pub fn value(&self, counter: ServiceCounter) -> (v: u64)
        ensures
            v == self.count(counter),
    {
        match counter {
            ServiceCounter::RegisteredNodes => self.registered_nodes,
            ServiceCounter::DeregisteredNodes => self.deregistered_nodes,
            ServiceCounter::DestinationUnknownMessages => self.destination_unknown_messages,
        }
    }

    /// Metric: `plumcast_service_registered_nodes_total <COUNTER>`
    pub fn registered_nodes(&self) -> (v: u64)
        ensures
            v == self.count(ServiceCounter::RegisteredNodes),
    {
        self.registered_nodes
    }

    /// Metric: `plumcast_service_deregistered_nodes_total <COUNTER>`
    pub fn deregistered_nodes(&self) -> (v: u64)
        ensures
            v == self.count(ServiceCounter::DeregisteredNodes),
    {
        self.deregistered_nodes
    }

    /// Metric: `plumcast_service_destination_unknown_messages_total <COUNTER>`
    pub fn destination_unknown_messages(&self) -> (v: u64)
        ensures
            v == self.count(ServiceCounter::DestinationUnknownMessages),
    {
        self.destination_unknown_messages
    }

    /// Adds `n` to a counter.
    pub(crate) fn add_u64(&mut self, counter: ServiceCounter, n: u64)
        ensures
            old(self).bumped(counter, n as nat, *final(self)),
            old(self).le(*final(self)),
    {
        match counter {
            ServiceCounter::RegisteredNodes => {
                self.registered_nodes = self.registered_nodes.saturating_add(n);
            },
            ServiceCounter::DeregisteredNodes => {
                self.deregistered_nodes = self.deregistered_nodes.saturating_add(n);
            },
            ServiceCounter::DestinationUnknownMessages => {
                self.destination_unknown_messages = self.destination_unknown_messages.saturating_add(
                    n,
                );
            },
        }
    }

    /// Adds one to a counter.
    pub(crate) fn increment(&mut self, counter: ServiceCounter)
        ensures
            old(self).bumped(counter, 1, *final(self)),
            old(self).le(*final(self)),
    {
        self.add_u64(counter, 1)
    }
}

/// The counters of a node.
#[derive(Debug, Clone, Copy, PartialEq, Eq, Hash)]
pub enum NodeCounter {
    /// Number of messages broadcasted so far.
    BroadcastedMessages,
    /// Number of messages forgot so far.
    ForgotMessages,
    /// Number of messages delivered so far.
    DeliveredMessages,
    /// Number of neighbors connected so far.
    ConnectedNeighbors,
    /// Number of neighbors disconnected so far.
    DisconnectedNeighbors,
    /// Number of times the node was isolated so far.
    IsolatedTimes,
    /// Number of times the node was de-isolated so far.
    DeisolatedTimes,
    /// Number of requests to forget a message that the node did not hold.
    ForgetUnknownMessageErrors,
    /// Number of membership messages that could not be sent.
    CannotSendHyparviewMessageErrors,
    /// Number of tree messages that could not be sent.
    CannotSendPlumtreeMessageErrors,
    /// Number of tree messages received from a node that the tree did not know.
    UnknownPlumtreeNodeErrors,
}

impl NodeCounter {
    /// The subsystem of the node counters.
    pub open spec fn spec_subsystem() -> Seq<char> {
        "node"@
    }

    /// The name of the counter. The four error counters share one name and
    /// differ in their label.
    pub open spec fn spec_name(self) -> Seq<char> {
        match self {
            NodeCounter::BroadcastedMessages => "broadcasted_messages_total"@,
            NodeCounter::ForgotMessages => "forgot_messages_total"@,
            NodeCounter::DeliveredMessages => "delivered_messages_total"@,
            NodeCounter::ConnectedNeighbors => "connected_neighbors_total"@,
            NodeCounter::DisconnectedNeighbors => "disconnected_neighbors_total"@,
            NodeCounter::IsolatedTimes => "isolated_times_total"@,
            NodeCounter::DeisolatedTimes => "deisolated_times_total"@,
            NodeCounter::ForgetUnknownMessageErrors => "errors_total"@,
            NodeCounter::CannotSendHyparviewMessageErrors => "errors_total"@,
            NodeCounter::CannotSendPlumtreeMessageErrors => "errors_total"@,
            NodeCounter::UnknownPlumtreeNodeErrors => "errors_total"@,
        }
    }

    /// The value of the label `kind` of the counter, if it has that label.
    pub open spec fn spec_kind(self) -> Option<Seq<char>> {
        match self {
            NodeCounter::ForgetUnknownMessageErrors => Some("forget_unknown_message"@),
            NodeCounter::CannotSendHyparviewMessageErrors => Some(
                "cannot_send_hyparview_message"@,
            ),
            NodeCounter::CannotSendPlumtreeMessageErrors => Some("cannot_send_plumtree_message"@),
            NodeCounter::UnknownPlumtreeNodeErrors => Some("unknown_plumtree_node"@),
            _ => None,
        }
    }

    /// What the counter counts, in words. The four error counters share
    /// one description.
    pub open spec fn spec_help(self) -> Seq<char> {
        match self {
            NodeCounter::BroadcastedMessages => "Number of messages broadcasted so far"@,
            NodeCounter::ForgotMessages => "Number of messages forgot so far"@,
            NodeCounter::DeliveredMessages => "Number of messages delivered so far"@,
            NodeCounter::ConnectedNeighbors => "Number of neighbors connected so far"@,
            NodeCounter::DisconnectedNeighbors => "Number of neighbors disconnected so far"@,
            NodeCounter::IsolatedTimes => "Number of times the node was isolated so far"@,
            NodeCounter::DeisolatedTimes => "Number of times the node was de-isolated so far"@,
            _ => "Number of errors happened so far"@,
        }
    }

    /// Returns the subsystem of the node counters.
    pub fn subsystem() -> (r: &'static str)
        ensures
            r@ == Self::spec_subsystem(),
    {
        "node"
    }

    /// Returns what the counter counts, in words.
    pub fn help(self) -> (r: &'static str)
        ensures
            r@ == self.spec_help(),
    {
        match self {
            NodeCounter::BroadcastedMessages => "Number of messages broadcasted so far",
            NodeCounter::ForgotMessages => "Number of messages forgot so far",
            NodeCounter::DeliveredMessages => "Number of messages delivered so far",
            NodeCounter::ConnectedNeighbors => "Number of neighbors connected so far",
            NodeCounter::DisconnectedNeighbors => "Number of neighbors disconnected so far",
            NodeCounter::IsolatedTimes => "Number of times the node was isolated so far",
            NodeCounter::DeisolatedTimes => "Number of times the node was de-isolated so far",
            _ => "Number of errors happened so far",
        }
    }

    /// Returns the name of the counter.
    pub fn name(self) -> (r: &'static str)
        ensures
            r@ == self.spec_name(),
    {
        match self {
            NodeCounter::BroadcastedMessages => "broadcasted_messages_total",
            NodeCounter::ForgotMessages => "forgot_messages_total",
            NodeCounter::DeliveredMessages => "delivered_messages_total",
            NodeCounter::ConnectedNeighbors => "connected_neighbors_total",
            NodeCounter::DisconnectedNeighbors => "disconnected_neighbors_total",
            NodeCounter::IsolatedTimes => "isolated_times_total",
            NodeCounter::DeisolatedTimes => "deisolated_times_total",
            NodeCounter::ForgetUnknownMessageErrors => "errors_total",
            NodeCounter::CannotSendHyparviewMessageErrors => "errors_total",
            NodeCounter::CannotSendPlumtreeMessageErrors => "errors_total",
            NodeCounter::UnknownPlumtreeNodeErrors => "errors_total",
        }
    }

    /// Returns the value of the label `kind` of the counter, if it has that label.
    pub fn kind(self) -> (r: Option<&'static str>)
        ensures
            r.is_some() == self.spec_kind().is_some(),
            r.is_some() ==> r.unwrap()@ == self.spec_kind().unwrap(),
    {
        match self {
            NodeCounter::ForgetUnknownMessageErrors => Some("forget_unknown_message"),
            NodeCounter::CannotSendHyparviewMessageErrors => Some("cannot_send_hyparview_message"),
            NodeCounter::CannotSendPlumtreeMessageErrors => Some("cannot_send_plumtree_message"),
            NodeCounter::UnknownPlumtreeNodeErrors => Some("unknown_plumtree_node"),
            _ => None,
        }
    }
}

/// The counters of a node, in the order in which they are exposed.
pub open spec fn spec_node_counters() -> Seq<NodeCounter> {
    seq![
        NodeCounter::BroadcastedMessages,
        NodeCounter::ForgotMessages,
        NodeCounter::DeliveredMessages,
        NodeCounter::ConnectedNeighbors,
        NodeCounter::DisconnectedNeighbors,
        NodeCounter::IsolatedTimes,
        NodeCounter::DeisolatedTimes,
        NodeCounter::ForgetUnknownMessageErrors,
        NodeCounter::CannotSendHyparviewMessageErrors,
        NodeCounter::CannotSendPlumtreeMessageErrors,
        NodeCounter::UnknownPlumtreeNodeErrors,
    ]
}

/// Returns the counters of a node, in the order in which they are exposed.
pub fn node_counters() -> (r: Vec<NodeCounter>)
    ensures
        r@ == spec_node_counters(),
{
    let mut all: Vec<NodeCounter> = Vec::new();
    all.push(NodeCounter::BroadcastedMessages);
    all.push(NodeCounter::ForgotMessages);
    all.push(NodeCounter::DeliveredMessages);
    all.push(NodeCounter::ConnectedNeighbors);
    all.push(NodeCounter::DisconnectedNeighbors);
    all.push(NodeCounter::IsolatedTimes);
    all.push(NodeCounter::DeisolatedTimes);
    all.push(NodeCounter::ForgetUnknownMessageErrors);
    all.push(NodeCounter::CannotSendHyparviewMessageErrors);
    all.push(NodeCounter::CannotSendPlumtreeMessageErrors);
    all.push(NodeCounter::UnknownPlumtreeNodeErrors);
    proof {
        assert(all@ =~= spec_node_counters());
    }
    all
}

/// Metrics of a node.
#[derive(Debug, Clone, Copy, PartialEq, Eq)]
pub struct NodeMetrics {
    broadcasted_messages: u64,
    forgot_messages: u64,
    delivered_messages: u64,
    connected_neighbors: u64,
    disconnected_neighbors: u64,
    isolated_times: u64,
    deisolated_times: u64,
    forget_unknown_message_errors: u64,
    cannot_send_hyparview_message_errors: u64,
    cannot_send_plumtree_message_errors: u64,
    unknown_plumtree_node_errors: u64,
}

impl NodeMetrics {
    /// The value of a counter.
    pub closed spec fn count(self, counter: NodeCounter) -> u64 {
        match counter {
            NodeCounter::BroadcastedMessages => self.broadcasted_messages,
            NodeCounter::ForgotMessages => self.forgot_messages,
            NodeCounter::DeliveredMessages => self.delivered_messages,
            NodeCounter::ConnectedNeighbors => self.connected_neighbors,
            NodeCounter::DisconnectedNeighbors => self.disconnected_neighbors,
            NodeCounter::IsolatedTimes => self.isolated_times,
            NodeCounter::DeisolatedTimes => self.deisolated_times,
            NodeCounter::ForgetUnknownMessageErrors => self.forget_unknown_message_errors,
            NodeCounter::CannotSendHyparviewMessageErrors => {
                self.cannot_send_hyparview_message_errors
            },
            NodeCounter::CannotSendPlumtreeMessageErrors => {
                self.cannot_send_plumtree_message_errors
            },
            NodeCounter::UnknownPlumtreeNodeErrors => self.unknown_plumtree_node_errors,
        }
    }

    /// No counter of `self` is above the same counter of `later`.
    pub open spec fn le(self, later: NodeMetrics) -> bool {
        forall|c: NodeCounter| #[trigger] self.count(c) <= later.count(c)
    }

    /// `later` is `self` with `n` more on `counter`, and nothing else changed.
    pub open spec fn bumped(self, counter: NodeCounter, n: nat, later: NodeMetrics) -> bool {
        forall|c: NodeCounter| #[trigger]
            later.count(c) == if c == counter {
                saturating_sum(self.count(c) as nat, n)
            } else {
                self.count(c) as nat
            }
    }

    /// `sum` holds, counter by counter, the sum of `self` and `other`.
    pub open spec fn merged(self, other: NodeMetrics, sum: NodeMetrics) -> bool {
        forall|c: NodeCounter| #[trigger]
            sum.count(c) == saturating_sum(self.count(c) as nat, other.count(c) as nat)
    }

    /// `top` holds, counter by counter, the larger of `self` and `other`.
    pub open spec fn raised(self, other: NodeMetrics, top: NodeMetrics) -> bool {
        forall|c: NodeCounter| #[trigger]
            top.count(c) == if self.count(c) >= other.count(c) {
                self.count(c)
            } else {
                other.count(c)
            }
    }

    /// Two sets of counters with the same values are the same.
    pub proof fn lemma_same_counts(a: NodeMetrics, b: NodeMetrics)
        requires
            forall|c: NodeCounter| #[trigger] a.count(c) == b.count(c),
        ensures
            a == b,
    {
        assert(a.count(NodeCounter::BroadcastedMessages) == b.count(
            NodeCounter::BroadcastedMessages,
        ));
        assert(a.count(NodeCounter::ForgotMessages) == b.count(NodeCounter::ForgotMessages));
        assert(a.count(NodeCounter::DeliveredMessages) == b.count(NodeCounter::DeliveredMessages));
        assert(a.count(NodeCounter::ConnectedNeighbors) == b.count(
            NodeCounter::ConnectedNeighbors,
        ));
        assert(a.count(NodeCounter::DisconnectedNeighbors) == b.count(
            NodeCounter::DisconnectedNeighbors,
        ));
        assert(a.count(NodeCounter::IsolatedTimes) == b.count(NodeCounter::IsolatedTimes));
        assert(a.count(NodeCounter::DeisolatedTimes) == b.count(NodeCounter::DeisolatedTimes));
        assert(a.count(NodeCounter::ForgetUnknownMessageErrors) == b.count(
            NodeCounter::ForgetUnknownMessageErrors,
        ));
        assert(a.count(NodeCounter::CannotSendHyparviewMessageErrors) == b.count(
            NodeCounter::CannotSendHyparviewMessageErrors,
        ));
        assert(a.count(NodeCounter::CannotSendPlumtreeMessageErrors) == b.count(
            NodeCounter::CannotSendPlumtreeMessageErrors,
        ));
        assert(a.count(NodeCounter::UnknownPlumtreeNodeErrors) == b.count(
            NodeCounter::UnknownPlumtreeNodeErrors,
        ));
    }

    /// Makes the counters of a new node: all zero.
    pub fn new() -> (r: Self)
        ensures
            forall|c: NodeCounter| #[trigger] r.count(c) == 0,
    {
        NodeMetrics {
            broadcasted_messages: 0,
            forgot_messages: 0,
            delivered_messages: 0,
            connected_neighbors: 0,
            disconnected_neighbors: 0,
            isolated_times: 0,
            deisolated_times: 0,
            forget_unknown_message_errors: 0,
            cannot_send_hyparview_message_errors: 0,
            cannot_send_plumtree_message_errors: 0,
            unknown_plumtree_node_errors: 0,
        }
    }

    /// Returns the value of a counter.
    pub fn value(&self, counter: NodeCounter) -> (v: u64)
        ensures
            v == self.count(counter),
    {
        match counter {
            NodeCounter::BroadcastedMessages => self.broadcasted_messages,
            NodeCounter::ForgotMessages => self.forgot_messages,
            NodeCounter::DeliveredMessages => self.delivered_messages,
            NodeCounter::ConnectedNeighbors => self.connected_neighbors,
            NodeCounter::DisconnectedNeighbors => self.disconnected_neighbors,
            NodeCounter::IsolatedTimes => self.isolated_times,
            NodeCounter::DeisolatedTimes => self.deisolated_times,
            NodeCounter::ForgetUnknownMessageErrors => self.forget_unknown_message_errors,
            NodeCounter::CannotSendHyparviewMessageErrors => {
                self.cannot_send_hyparview_message_errors
            },
            NodeCounter::CannotSendPlumtreeMessageErrors => {
                self.cannot_send_plumtree_message_errors
            },
            NodeCounter::UnknownPlumtreeNodeErrors => self.unknown_plumtree_node_errors,
        }
    }

    /// Metric: `plumcast_node_broadcasted_messages_total <COUNTER>`
    pub fn broadcasted_messages(&self) -> (v: u64)
        ensures
            v == self.count(NodeCounter::BroadcastedMessages),
    {
        self.broadcasted_messages
    }

    /// Metric: `plumcast_node_forgot_messages_total <COUNTER>`
    pub fn forgot_messages(&self) -> (v: u64)
        ensures
            v == self.count(NodeCounter::ForgotMessages),
    {
        self.forgot_messages
    }

    /// Metric: `plumcast_node_delivered_messages_total <COUNTER>`
    pub fn delivered_messages(&self) -> (v: u64)
        ensures
            v == self.count(NodeCounter::DeliveredMessages),
    {
        self.delivered_messages
    }

    /// Metric: `plumcast_node_connected_neighbors_total <COUNTER>`
    pub fn connected_neighbors(&self) -> (v: u64)
        ensures
            v == self.count(NodeCounter::ConnectedNeighbors),
    {
        self.connected_neighbors
    }

    /// Metric: `plumcast_node_disconnected_neighbors_total <COUNTER>`
    pub fn disconnected_neighbors(&self) -> (v: u64)
        ensures
            v == self.count(NodeCounter::DisconnectedNeighbors),
    {
        self.disconnected_neighbors
    }

    /// Metric: `plumcast_node_isolated_times_total <COUNTER>`
    pub fn isolated_times(&self) -> (v: u64)
        ensures
            v == self.count(NodeCounter::IsolatedTimes),
    {
        self.isolated_times
    }

    /// Metric: `plumcast_node_deisolated_times_total <COUNTER>`
    pub fn deisolated_times(&self) -> (v: u64)
        ensures
            v == self.count(NodeCounter::DeisolatedTimes),
    {
        self.deisolated_times
    }

    /// Metric: `plumcast_node_errors_total { kind="forget_unknown_message" } <COUNTER>`
    pub fn forget_unknown_message_errors(&self) -> (v: u64)
        ensures
            v == self.count(NodeCounter::ForgetUnknownMessageErrors),
    {
        self.forget_unknown_message_errors
    }

    /// Metric: `plumcast_node_errors_total { kind="cannot_send_hyparview_message" } <COUNTER>`
    pub fn cannot_send_hyparview_message_errors(&self) -> (v: u64)
        ensures
            v == self.count(NodeCounter::CannotSendHyparviewMessageErrors),
    {
        self.cannot_send_hyparview_message_errors
    }

    /// Metric: `plumcast_node_errors_total { kind="cannot_send_plumtree_message" } <COUNTER>`
    pub fn cannot_send_plumtree_message_errors(&self) -> (v: u64)
        ensures
            v == self.count(NodeCounter::CannotSendPlumtreeMessageErrors),
    {
        self.cannot_send_plumtree_message_errors
    }

    /// Metric: `plumcast_node_errors_total { kind="unknown_plumtree_node" } <COUNTER>`
    pub fn unknown_plumtree_node_errors(&self) -> (v: u64)
        ensures
            v == self.count(NodeCounter::UnknownPlumtreeNodeErrors),
    {
        self.unknown_plumtree_node_errors
    }

    /// Adds `n` to a counter.
    pub(crate) fn add_u64(&mut self, counter: NodeCounter, n: u64)
        ensures
            old(self).bumped(counter, n as nat, *final(self)),
            old(self).le(*final(self)),
    {
        match counter {
            NodeCounter::BroadcastedMessages => {
                self.broadcasted_messages = self.broadcasted_messages.saturating_add(n);
            },
            NodeCounter::ForgotMessages => {
                self.forgot_messages = self.forgot_messages.saturating_add(n);
            },
            NodeCounter::DeliveredMessages => {
                self.delivered_messages = self.delivered_messages.saturating_add(n);
            },
            NodeCounter::ConnectedNeighbors => {
                self.connected_neighbors = self.connected_neighbors.saturating_add(n);
            },
            NodeCounter::DisconnectedNeighbors => {
                self.disconnected_neighbors = self.disconnected_neighbors.saturating_add(n);
            },
            NodeCounter::IsolatedTimes => {
                self.isolated_times = self.isolated_times.saturating_add(n);
            },
            NodeCounter::DeisolatedTimes => {
                self.deisolated_times = self.deisolated_times.saturating_add(n);
            },
            NodeCounter::ForgetUnknownMessageErrors => {
                self.forget_unknown_message_errors =
                self.forget_unknown_message_errors.saturating_add(n);
            },
            NodeCounter::CannotSendHyparviewMessageErrors => {
                self.cannot_send_hyparview_message_errors =
                self.cannot_send_hyparview_message_errors.saturating_add(n);
            },
            NodeCounter::CannotSendPlumtreeMessageErrors => {
                self.cannot_send_plumtree_message_errors =
                self.cannot_send_plumtree_message_errors.saturating_add(n);
            },
            NodeCounter::UnknownPlumtreeNodeErrors => {
                self.unknown_plumtree_node_errors = self.unknown_plumtree_node_errors.saturating_add(
                    n,
                );
            },
        }
    }

    /// Adds one to a counter.
    pub(crate) fn increment(&mut self, counter: NodeCounter)
        ensures
            old(self).bumped(counter, 1, *final(self)),
            old(self).le(*final(self)),
    {
        self.add_u64(counter, 1)
    }

    /// Raises every counter of `self` that is below the same counter of
    /// `other` to that counter.
    pub(crate) fn raise_to(&mut self, other: &NodeMetrics)
        ensures
            old(self).raised(*other, *final(self)),
            old(self).le(*final(self)),
            other.le(*final(self)),
    {
        self.broadcasted_messages = larger(self.broadcasted_messages, other.broadcasted_messages);
        self.forgot_messages = larger(self.forgot_messages, other.forgot_messages);
        self.delivered_messages = larger(self.delivered_messages, other.delivered_messages);
        self.connected_neighbors = larger(self.connected_neighbors, other.connected_neighbors);
        self.disconnected_neighbors = larger(self.disconnected_neighbors, other.disconnected_neighbors);
        self.isolated_times = larger(self.isolated_times, other.isolated_times);
        self.deisolated_times = larger(self.deisolated_times, other.deisolated_times);
        self.forget_unknown_message_errors = larger(self.forget_unknown_message_errors, other.forget_unknown_message_errors);
        self.cannot_send_hyparview_message_errors = larger(self.cannot_send_hyparview_message_errors, other.cannot_send_hyparview_message_errors);
        self.cannot_send_plumtree_message_errors = larger(self.cannot_send_plumtree_message_errors, other.cannot_send_plumtree_message_errors);
        self.unknown_plumtree_node_errors = larger(self.unknown_plumtree_node_errors, other.unknown_plumtree_node_errors);
    }

    /// Adds every counter of `other` to the same counter of `self`.
    pub(crate) fn add(&mut self, other: &NodeMetrics)
        ensures
            old(self).merged(*other, *final(self)),
            old(self).le(*final(self)),
            other.le(*final(self)),
    {
        self.add_u64(NodeCounter::BroadcastedMessages, other.broadcasted_messages());
        self.add_u64(NodeCounter::ForgotMessages, other.forgot_messages());
        self.add_u64(NodeCounter::DeliveredMessages, other.delivered_messages());
        self.add_u64(NodeCounter::ConnectedNeighbors, other.connected_neighbors());
        self.add_u64(NodeCounter::DisconnectedNeighbors, other.disconnected_neighbors());
        self.add_u64(NodeCounter::IsolatedTimes, other.isolated_times());
        self.add_u64(NodeCounter::DeisolatedTimes, other.deisolated_times());
        self.add_u64(NodeCounter::ForgetUnknownMessageErrors, other.forget_unknown_message_errors());
        self.add_u64(
            NodeCounter::CannotSendHyparviewMessageErrors,
            other.cannot_send_hyparview_message_errors(),
        );
        self.add_u64(
            NodeCounter::CannotSendPlumtreeMessageErrors,
            other.cannot_send_plumtree_message_errors(),
        );
        self.add_u64(NodeCounter::UnknownPlumtreeNodeErrors, other.unknown_plumtree_node_errors());
    }
}

} // verus!
