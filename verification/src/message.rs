//! [`Message`] and related components.
use crate::node_id::NodeId;
use vstd::prelude::*;

verus! {

/// Message identifier.
///
/// An identifier consists of the node identifier part and the sequence number part.
/// The node identifier part indicates the sender (origin) of the message.
/// The sequence number part indicates the number of messages broadcasted by the sender so far.
///
/// Identifiers are assigned automatically when broadcasting messages.
#[derive(Debug, Clone, Copy, PartialEq, Eq, Hash)]
pub struct MessageId {
    /// The node that broadcasted the message.
    pub node: NodeId,
    /// The number of messages that the node had broadcasted before this one.
    pub seqno: u64,
}

impl MessageId {
    /// Makes the identifier of the message number `seqno` of `node`.
    pub fn new(node: NodeId, seqno: u64) -> (r: Self)
        ensures
            r == (MessageId { node, seqno }),
    {
        MessageId { node, seqno }
    }

    /// Returns the node identifier part of the message identifier.
    pub fn node(&self) -> (n: &NodeId)
        ensures
            *n == self.node,
    {
        &self.node
    }

    /// Returns the sequence number part of the message identifier.
    pub fn seqno(&self) -> (s: u64)
        ensures
            s == self.seqno,
    {
        self.seqno
    }
}

/// Broadcasted application message.
///
/// The payload is a blob of bytes: what it means is up to the application.
#[derive(Debug, Clone, PartialEq, Eq)]
pub struct Message {
    /// The identifier of the message.
    pub id: MessageId,
    /// The payload of the message.
    pub payload: Vec<u8>,
}

/// What a [`Message`] holds.
pub struct MessageView {
    /// The identifier of the message.
    pub id: MessageId,
    /// The bytes of the payload.
    pub payload: Seq<u8>,
}

impl View for Message {
    type V = MessageView;

    open spec fn view(&self) -> MessageView {
        MessageView { id: self.id, payload: self.payload@ }
    }
}

impl Message {
    /// Makes a message.
    pub fn new(id: MessageId, payload: Vec<u8>) -> (r: Self)
        ensures
            r == (Message { id, payload }),
    {
        Message { id, payload }
    }

    /// Returns a reference to the identifier of the message.
    pub fn id(&self) -> (r: &MessageId)
        ensures
            *r == self.id,
    {
        &self.id
    }

    /// Returns a reference to the payload of the message.
    pub fn payload(&self) -> (r: &Vec<u8>)
        ensures
            *r == self.payload,
    {
        &self.payload
    }

    /// Returns a mutable reference to the payload of the message.
    pub fn payload_mut(&mut self) -> (r: &mut Vec<u8>)
        ensures
            *r == old(self).payload,
            final(self).payload == *final(r),
            final(self).id == old(self).id,
    {
        &mut self.payload
    }

    /// Takes the ownership of the message, and returns its payload.
    pub fn into_payload(self) -> (r: Vec<u8>)
        ensures
            r == self.payload,
    {
        self.payload
    }
}

} // verus!
