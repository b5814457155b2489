//! The messages and actions of the broadcast tree protocol.
use crate::message::{Message, MessageId, MessageView};
use crate::node_id::NodeId;
use crate::time::Duration;
use vstd::prelude::*;

verus! {

/// An application message pushed along the tree.
#[derive(Debug, Clone, PartialEq, Eq)]
pub struct GossipMessage {
    /// The node that sent the message.
    pub sender: NodeId,
    /// The application message.
    pub message: Message,
    /// The number of hops that the message has taken.
    pub round: u16,
}

/// What a [`GossipMessage`] holds.
pub struct GossipMessageView {
    /// The node that sent the message.
    pub sender: NodeId,
    /// The application message.
    pub message: MessageView,
    /// The number of hops that the message has taken.
    pub round: u16,
}

impl View for GossipMessage {
    type V = GossipMessageView;

    open spec fn view(&self) -> GossipMessageView {
        GossipMessageView { sender: self.sender, message: self.message@, round: self.round }
    }
}

/// The announcement that the sender holds a message.
#[derive(Debug, Clone, Copy, PartialEq, Eq)]
pub struct IhaveMessage {
    /// The node that sent the message.
    pub sender: NodeId,
    /// The identifier of the message that the sender holds.
    pub message_id: MessageId,
    /// The number of hops that the message has taken.
    pub round: u16,
    /// Whether the announcement was sent as soon as the message arrived.
    pub realtime: bool,
}

/// The request to push messages eagerly to the sender from now on.
#[derive(Debug, Clone, Copy, PartialEq, Eq)]
pub struct GraftMessage {
    /// The node that sent the message.
    pub sender: NodeId,
    /// The message that the sender misses, if it asks for one.
    pub message_id: Option<MessageId>,
    /// The number of hops that the message has taken.
    pub round: u16,
}

/// The request to push messages to the sender lazily from now on.
#[derive(Debug, Clone, Copy, PartialEq, Eq)]
pub struct PruneMessage {
    /// The node that sent the message.
    pub sender: NodeId,
    /// The number of hops that the message that caused the request had taken.
    pub round: u16,
}

/// A message of the broadcast tree protocol.
#[derive(Debug, Clone, PartialEq, Eq)]
pub enum PlumtreeMessage {
    /// `GOSSIP`
    Gossip(GossipMessage),
    /// `IHAVE`
    Ihave(IhaveMessage),
    /// `GRAFT`
    Graft(GraftMessage),
    /// `PRUNE`
    Prune(PruneMessage),
}

/// What a [`PlumtreeMessage`] holds.
pub enum PlumtreeMessageView {
    /// `GOSSIP`
    Gossip(GossipMessageView),
    /// `IHAVE`
    Ihave(IhaveMessage),
    /// `GRAFT`
    Graft(GraftMessage),
    /// `PRUNE`
    Prune(PruneMessage),
}

impl PlumtreeMessageView {
    /// The node that sent the message.
    pub open spec fn sender(self) -> NodeId {
        match self {
            PlumtreeMessageView::Gossip(m) => m.sender,
            PlumtreeMessageView::Ihave(m) => m.sender,
            PlumtreeMessageView::Graft(m) => m.sender,
            PlumtreeMessageView::Prune(m) => m.sender,
        }
    }
}

impl View for PlumtreeMessage {
    type V = PlumtreeMessageView;

    open spec fn view(&self) -> PlumtreeMessageView {
        match *self {
            PlumtreeMessage::Gossip(m) => PlumtreeMessageView::Gossip(m@),
            PlumtreeMessage::Ihave(m) => PlumtreeMessageView::Ihave(m),
            PlumtreeMessage::Graft(m) => PlumtreeMessageView::Graft(m),
            PlumtreeMessage::Prune(m) => PlumtreeMessageView::Prune(m),
        }
    }
}

impl PlumtreeMessage {
    /// The node that sent the message.
    pub open spec fn spec_sender(self) -> NodeId {
        match self {
            PlumtreeMessage::Gossip(m) => m.sender,
            PlumtreeMessage::Ihave(m) => m.sender,
            PlumtreeMessage::Graft(m) => m.sender,
            PlumtreeMessage::Prune(m) => m.sender,
        }
    }

    /// Returns the node that sent the message.
    pub fn sender(&self) -> (r: NodeId)
        ensures
            r == self.spec_sender(),
    {
        match self {
            PlumtreeMessage::Gossip(m) => m.sender,
            PlumtreeMessage::Ihave(m) => m.sender,
            PlumtreeMessage::Graft(m) => m.sender,
            PlumtreeMessage::Prune(m) => m.sender,
        }
    }
}

/// What the broadcast tree protocol asks of the node that runs it.
#[derive(Debug, Clone, PartialEq, Eq)]
pub enum PlumtreeAction {
    /// Send a message.
    Send {
        /// The node to send to.
        destination: NodeId,
        /// The message.
        message: PlumtreeMessage,
    },
    /// Hand a message to the application.
    Deliver {
        /// The message.
        message: Message,
    },
}


/// Options for the broadcast tree protocol of a node.
#[derive(Debug, Clone, Copy, PartialEq, Eq)]
pub struct PlumtreeNodeOptions {
    /// How long a node waits for a message that was announced to it before
    /// it asks for the message.
    pub ihave_timeout: Duration,
    /// By how many hops a lazy path has to be shorter than the eager one for
    /// the tree to be rearranged.
    pub optimization_threshold: u16,
}

impl Default for PlumtreeNodeOptions {
    fn default() -> (r: Self)
        ensures
            r.ihave_timeout.as_nanos() == 500_000_000,
            r.optimization_threshold == 2,
    {
        PlumtreeNodeOptions { ihave_timeout: Duration::from_millis(500), optimization_threshold: 2 }
    }
}

} // verus!
