//! The messages, events and actions of the membership protocol.
use crate::node_id::NodeId;
use vstd::prelude::*;

verus! {

/// The number of hops that a request may still take.
#[derive(Debug, Clone, Copy, PartialEq, Eq, Hash)]
pub struct TimeToLive(pub u8);

impl TimeToLive {
    /// Makes a new `TimeToLive` instance.
    pub fn new(ttl: u8) -> (r: Self)
        ensures
            r == TimeToLive(ttl),
    {
        TimeToLive(ttl)
    }

    /// Returns the number of hops left.
    pub fn as_u8(self) -> (v: u8)
        ensures
            v == self.0,
    {
        self.0
    }
}

/// A node asks to join the cluster of the receiver.
#[derive(Debug, Clone, Copy, PartialEq, Eq)]
pub struct JoinMessage {
    /// The node that sent the message.
    pub sender: NodeId,
}

/// A join request that is handed on through the cluster.
#[derive(Debug, Clone, Copy, PartialEq, Eq)]
pub struct ForwardJoinMessage {
    /// The node that sent the message.
    pub sender: NodeId,
    /// The node that asked to join.
    pub new_node: NodeId,
    /// The number of hops that the request may still take.
    pub ttl: TimeToLive,
}

/// A node asks the receiver to become its neighbor.
#[derive(Debug, Clone, Copy, PartialEq, Eq)]
pub struct NeighborMessage {
    /// The node that sent the message.
    pub sender: NodeId,
    /// Whether the sender has no neighbor at all.
    pub high_priority: bool,
}

/// A node offers a sample of the nodes it knows.
#[derive(Debug, Clone, PartialEq, Eq)]
pub struct ShuffleMessage {
    /// The node that sent the message.
    pub sender: NodeId,
    /// The node that started the shuffle.
    pub origin: NodeId,
    /// The sample.
    pub nodes: Vec<NodeId>,
    /// The number of hops that the request may still take.
    pub ttl: TimeToLive,
}

/// What a [`ShuffleMessage`] holds.
pub struct ShuffleMessageView {
    /// The node that sent the message.
    pub sender: NodeId,
    /// The node that started the shuffle.
    pub origin: NodeId,
    /// The sample.
    pub nodes: Seq<NodeId>,
    /// The number of hops that the request may still take.
    pub ttl: TimeToLive,
}

impl View for ShuffleMessage {
    type V = ShuffleMessageView;

    open spec fn view(&self) -> ShuffleMessageView {
        ShuffleMessageView {
            sender: self.sender,
            origin: self.origin,
            nodes: self.nodes@,
            ttl: self.ttl,
        }
    }
}

/// The answer to a [`ShuffleMessage`].
#[derive(Debug, Clone, PartialEq, Eq)]
pub struct ShuffleReplyMessage {
    /// The node that sent the message.
    pub sender: NodeId,
    /// A sample of the nodes that the sender knows.
    pub nodes: Vec<NodeId>,
}

/// What a [`ShuffleReplyMessage`] holds.
pub struct ShuffleReplyMessageView {
    /// The node that sent the message.
    pub sender: NodeId,
    /// A sample of the nodes that the sender knows.
    pub nodes: Seq<NodeId>,
}

impl View for ShuffleReplyMessage {
    type V = ShuffleReplyMessageView;

    open spec fn view(&self) -> ShuffleReplyMessageView {
        ShuffleReplyMessageView { sender: self.sender, nodes: self.nodes@ }
    }
}

/// A node tells the receiver that it is no longer its neighbor.
#[derive(Debug, Clone, Copy, PartialEq, Eq)]
pub struct DisconnectMessage {
    /// The node that sent the message.
    pub sender: NodeId,
    /// Whether the sender is still alive.
    pub alive: bool,
}

/// A message of the membership protocol.
#[derive(Debug, Clone, PartialEq, Eq)]
pub enum HyparviewMessage {
    /// `JOIN`
    Join(JoinMessage),
    /// `FORWARD_JOIN`
    ForwardJoin(ForwardJoinMessage),
    /// `NEIGHBOR`
    Neighbor(NeighborMessage),
    /// `SHUFFLE`
    Shuffle(ShuffleMessage),
    /// `SHUFFLE_REPLY`
    ShuffleReply(ShuffleReplyMessage),
    /// `DISCONNECT`
    Disconnect(DisconnectMessage),
}

/// What a [`HyparviewMessage`] holds.
pub enum HyparviewMessageView {
    /// `JOIN`
    Join(JoinMessage),
    /// `FORWARD_JOIN`
    ForwardJoin(ForwardJoinMessage),
    /// `NEIGHBOR`
    Neighbor(NeighborMessage),
    /// `SHUFFLE`
    Shuffle(ShuffleMessageView),
    /// `SHUFFLE_REPLY`
    ShuffleReply(ShuffleReplyMessageView),
    /// `DISCONNECT`
    Disconnect(DisconnectMessage),
}

impl HyparviewMessageView {
    /// The node that sent the message.
    pub open spec fn sender(self) -> NodeId {
        match self {
            HyparviewMessageView::Join(m) => m.sender,
            HyparviewMessageView::ForwardJoin(m) => m.sender,
            HyparviewMessageView::Neighbor(m) => m.sender,
            HyparviewMessageView::Shuffle(m) => m.sender,
            HyparviewMessageView::ShuffleReply(m) => m.sender,
            HyparviewMessageView::Disconnect(m) => m.sender,
        }
    }
}

impl View for HyparviewMessage {
    type V = HyparviewMessageView;

    open spec fn view(&self) -> HyparviewMessageView {
        match *self {
            HyparviewMessage::Join(m) => HyparviewMessageView::Join(m),
            HyparviewMessage::ForwardJoin(m) => HyparviewMessageView::ForwardJoin(m),
            HyparviewMessage::Neighbor(m) => HyparviewMessageView::Neighbor(m),
            HyparviewMessage::Shuffle(m) => HyparviewMessageView::Shuffle(m@),
            HyparviewMessage::ShuffleReply(m) => HyparviewMessageView::ShuffleReply(m@),
            HyparviewMessage::Disconnect(m) => HyparviewMessageView::Disconnect(m),
        }
    }
}

impl HyparviewMessage {
    /// The node that sent the message.
    pub open spec fn spec_sender(self) -> NodeId {
        match self {
            HyparviewMessage::Join(m) => m.sender,
            HyparviewMessage::ForwardJoin(m) => m.sender,
            HyparviewMessage::Neighbor(m) => m.sender,
            HyparviewMessage::Shuffle(m) => m.sender,
            HyparviewMessage::ShuffleReply(m) => m.sender,
            HyparviewMessage::Disconnect(m) => m.sender,
        }
    }

    /// Returns the node that sent the message.
    pub fn sender(&self) -> (r: NodeId)
        ensures
            r == self.spec_sender(),
    {
        match self {
            HyparviewMessage::Join(m) => m.sender,
            HyparviewMessage::ForwardJoin(m) => m.sender,
            HyparviewMessage::Neighbor(m) => m.sender,
            HyparviewMessage::Shuffle(m) => m.sender,
            HyparviewMessage::ShuffleReply(m) => m.sender,
            HyparviewMessage::Disconnect(m) => m.sender,
        }
    }
}

/// What the membership protocol reports of the active view.
#[derive(Debug, Clone, Copy, PartialEq, Eq)]
pub enum HyparviewEvent {
    /// A node was added to the active view.
    NeighborUp {
        /// The new neighbor.
        node: NodeId,
    },
    /// A node was removed from the active view.
    NeighborDown {
        /// The neighbor that left.
        node: NodeId,
    },
}

/// What the membership protocol asks of the node that runs it.
#[derive(Debug, Clone, PartialEq, Eq)]
pub enum HyparviewAction {
    /// Send a message.
    Send {
        /// The node to send to.
        destination: NodeId,
        /// The message.
        message: HyparviewMessage,
    },
    /// Close the connection to a node.
    Disconnect {
        /// The node.
        node: NodeId,
    },
    /// Notify an event.
    Notify {
        /// The event.
        event: HyparviewEvent,
    },
}


/// Options for the membership protocol of a node.
#[derive(Debug, Clone, Copy, PartialEq, Eq)]
pub struct HyparviewNodeOptions {
    /// Maximum number of nodes in the active view.
    pub max_active_view_size: u8,
    /// Maximum number of nodes in the passive view.
    pub max_passive_view_size: u8,
    /// Number of nodes of the active view that a shuffle offers.
    pub shuffle_active_view_size: u8,
    /// Number of nodes of the passive view that a shuffle offers.
    pub shuffle_passive_view_size: u8,
    /// The number of hops that a forwarded join or a shuffle may take.
    pub active_random_walk_len: u8,
    /// The number of hops left at which a forwarded join is noted in the passive view.
    pub passive_random_walk_len: u8,
}

impl HyparviewNodeOptions {
    /// The default options.
    pub open spec fn spec_default() -> Self {
        HyparviewNodeOptions {
            max_active_view_size: 4,
            max_passive_view_size: 24,
            shuffle_active_view_size: 2,
            shuffle_passive_view_size: 2,
            active_random_walk_len: 5,
            passive_random_walk_len: 2,
        }
    }
}

impl Default for HyparviewNodeOptions {
    fn default() -> (r: Self)
        ensures
            r == Self::spec_default(),
    {
        HyparviewNodeOptions {
            max_active_view_size: 4,
            max_passive_view_size: 24,
            shuffle_active_view_size: 2,
            shuffle_passive_view_size: 2,
            active_random_walk_len: 5,
            passive_random_walk_len: 2,
        }
    }
}

} // verus!
