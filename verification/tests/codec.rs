use plumcast::codec::hyparview::{
    decode_disconnect, decode_forward_join, decode_join, decode_neighbor, decode_shuffle,
    decode_shuffle_reply, encode_disconnect, encode_forward_join, encode_join, encode_neighbor,
    encode_shuffle, encode_shuffle_reply,
};
use plumcast::codec::net::{decode_socket_addr, encode_socket_addr};
use plumcast::codec::plumtree::{
    decode_gossip, decode_graft, decode_graft_optimize, decode_ihave, decode_prune, encode_gossip,
    encode_graft, encode_graft_optimize, encode_ihave, encode_prune,
};
use plumcast::hyparview_misc::{
    DisconnectMessage, ForwardJoinMessage, JoinMessage, NeighborMessage, ShuffleMessage,
    ShuffleReplyMessage, TimeToLive,
};
use plumcast::message::{Message, MessageId};
use plumcast::plumtree_misc::{GossipMessage, GraftMessage, IhaveMessage, PruneMessage};
use plumcast::{ErrorKind, LocalNodeId, NodeId, SocketAddr};

fn node(port: u16, local: u64) -> NodeId {
    NodeId::new(SocketAddr::v4(127, 0, 0, 1, port), LocalNodeId::new(local))
}

fn node6(local: u64) -> NodeId {
    NodeId::new(
        SocketAddr::V6 {
            ip: 0x2001_0db8_0000_0000_0000_0000_0000_0001,
            port: 4000,
            flowinfo: 0x0102_0304,
            scope_id: 0x0a0b_0c0d,
        },
        LocalNodeId::new(local),
    )
}

#[test]
fn socket_addr_v4_bytes() {
    let bytes = encode_socket_addr(&SocketAddr::v4(127, 0, 0, 1, 9000));
    assert_eq!(bytes, vec![4, 127, 0, 0, 1, 0x23, 0x28]);
    assert_eq!(decode_socket_addr(&bytes), Ok(SocketAddr::v4(127, 0, 0, 1, 9000)));
    assert_eq!(SocketAddr::v4(127, 0, 0, 1, 9000), SocketAddr::V4 { ip: 0x7f00_0001, port: 9000 });
}

#[test]
fn socket_addr_v6_bytes() {
    let addr = node6(0).address();
    let bytes = encode_socket_addr(&addr);
    assert_eq!(
        bytes,
        vec![
            6, 0x20, 0x01, 0x0d, 0xb8, 0, 0, 0, 0, 0, 0, 0, 0, 0, 0, 0, 1, 0x0f, 0xa0, 1, 2, 3, 4,
            0x0a, 0x0b, 0x0c, 0x0d
        ]
    );
    assert_eq!(decode_socket_addr(&bytes), Ok(addr));
}

#[test]
fn socket_addr_unknown_version_is_invalid() {
    let mut bytes = encode_socket_addr(&SocketAddr::v4(10, 0, 0, 2, 80));
    bytes[0] = 5;
    assert_eq!(decode_socket_addr(&bytes).unwrap_err().kind(), ErrorKind::InvalidInput);
    assert_eq!(decode_socket_addr(&[]).unwrap_err().kind(), ErrorKind::InvalidInput);
}

#[test]
fn socket_addr_truncated_or_too_long_is_invalid() {
    let bytes = encode_socket_addr(&SocketAddr::v4(10, 0, 0, 2, 80));
    assert_eq!(decode_socket_addr(&bytes[..6]).unwrap_err().kind(), ErrorKind::InvalidInput);
    let mut longer = bytes.clone();
    longer.push(0);
    assert_eq!(decode_socket_addr(&longer).unwrap_err().kind(), ErrorKind::InvalidInput);
}

#[test]
fn gossip_wire_format_is_fixed() {
    let sender = node(9000, 0x0a);
    let gossip = GossipMessage {
        sender,
        message: Message::new(MessageId::new(sender, 42), b"hi".to_vec()),
        round: 3,
    };
    let bytes = encode_gossip(LocalNodeId::new(1), &gossip).unwrap();
    let expected: Vec<u8> = vec![
        0, 0, 0, 0, 0, 0, 0, 1, // destination
        4, 127, 0, 0, 1, 0x23, 0x28, 0, 0, 0, 0, 0, 0, 0, 0x0a, // sender
        0, 3, // round
        4, 127, 0, 0, 1, 0x23, 0x28, 0, 0, 0, 0, 0, 0, 0, 0x0a, // origin of the message
        0, 0, 0, 0, 0, 0, 0, 42, // sequence number
        0, 0, 0, 2, b'h', b'i', // payload
    ];
    assert_eq!(bytes, expected);
    assert_eq!(decode_gossip(&bytes), Ok((LocalNodeId::new(1), gossip)));
}

#[test]
fn gossip_with_empty_payload_round_trips() {
    let gossip = GossipMessage {
        sender: node6(7),
        message: Message::new(MessageId::new(node(1, 2), u64::MAX), Vec::new()),
        round: u16::MAX,
    };
    let bytes = encode_gossip(LocalNodeId::new(u64::MAX), &gossip).unwrap();
    assert_eq!(decode_gossip(&bytes), Ok((LocalNodeId::new(u64::MAX), gossip)));
}

#[test]
fn gossip_payload_length_must_match() {
    let sender = node(9000, 1);
    let gossip = GossipMessage {
        sender,
        message: Message::new(MessageId::new(sender, 0), vec![0xde, 0xad]),
        round: 0,
    };
    let bytes = encode_gossip(LocalNodeId::new(1), &gossip).unwrap();
    assert_eq!(decode_gossip(&bytes[..bytes.len() - 1]).unwrap_err().kind(), ErrorKind::InvalidInput);
    let mut longer = bytes.clone();
    longer.push(0);
    assert_eq!(decode_gossip(&longer).unwrap_err().kind(), ErrorKind::InvalidInput);
    assert_eq!(decode_gossip(&bytes[..20]).unwrap_err().kind(), ErrorKind::InvalidInput);
}

#[test]
fn join_round_trips() {
    let m = JoinMessage { sender: node(3000, 9) };
    let bytes = encode_join(LocalNodeId::new(5), &m);
    assert_eq!(bytes.len(), 8 + 15);
    assert_eq!(&bytes[..8], &[0, 0, 0, 0, 0, 0, 0, 5]);
    assert_eq!(decode_join(&bytes), Ok((LocalNodeId::new(5), m)));
    assert_eq!(decode_join(&bytes[..22]).unwrap_err().kind(), ErrorKind::InvalidInput);
}

#[test]
fn forward_join_round_trips() {
    let m = ForwardJoinMessage { sender: node(3000, 9), new_node: node6(4), ttl: TimeToLive::new(5) };
    let bytes = encode_forward_join(LocalNodeId::new(5), &m);
    assert_eq!(bytes.len(), 8 + 15 + 35 + 1);
    assert_eq!(bytes[bytes.len() - 1], 5);
    assert_eq!(decode_forward_join(&bytes), Ok((LocalNodeId::new(5), m)));
}

#[test]
fn neighbor_round_trips() {
    for high_priority in [false, true] {
        let m = NeighborMessage { sender: node(3000, 9), high_priority };
        let bytes = encode_neighbor(LocalNodeId::new(5), &m);
        assert_eq!(bytes[bytes.len() - 1], high_priority as u8);
        assert_eq!(decode_neighbor(&bytes), Ok((LocalNodeId::new(5), m)));
    }
}

#[test]
fn any_byte_but_zero_is_true() {
    let m = NeighborMessage { sender: node(3000, 9), high_priority: true };
    let mut bytes = encode_neighbor(LocalNodeId::new(5), &m);
    let last = bytes.len() - 1;
    bytes[last] = 7;
    assert_eq!(decode_neighbor(&bytes), Ok((LocalNodeId::new(5), m)));
}

#[test]
fn shuffle_round_trips() {
    let m = ShuffleMessage {
        sender: node(3000, 9),
        origin: node(3001, 10),
        nodes: vec![node(1, 1), node6(2), node(3, 3)],
        ttl: TimeToLive::new(2),
    };
    let bytes = encode_shuffle(LocalNodeId::new(5), &m);
    assert_eq!(bytes.len(), 8 + 15 + 15 + 1 + 15 + 35 + 15);
    assert_eq!(decode_shuffle(&bytes), Ok((LocalNodeId::new(5), m.clone())));
    assert_eq!(decode_shuffle(&bytes[..bytes.len() - 1]).unwrap_err().kind(), ErrorKind::InvalidInput);

    let empty = ShuffleMessage { nodes: Vec::new(), ..m };
    let bytes = encode_shuffle(LocalNodeId::new(5), &empty);
    assert_eq!(decode_shuffle(&bytes), Ok((LocalNodeId::new(5), empty)));
}

#[test]
fn shuffle_reply_round_trips() {
    let m = ShuffleReplyMessage { sender: node(3000, 9), nodes: vec![node6(2), node(3, 3)] };
    let bytes = encode_shuffle_reply(LocalNodeId::new(5), &m);
    assert_eq!(decode_shuffle_reply(&bytes), Ok((LocalNodeId::new(5), m)));
}

#[test]
fn disconnect_round_trips() {
    for alive in [false, true] {
        let m = DisconnectMessage { sender: node(3000, 9), alive };
        let bytes = encode_disconnect(LocalNodeId::new(5), &m);
        assert_eq!(bytes[bytes.len() - 1], alive as u8);
        assert_eq!(decode_disconnect(&bytes), Ok((LocalNodeId::new(5), m)));
    }
}

#[test]
fn ihave_round_trips() {
    let m = IhaveMessage {
        sender: node(3000, 9),
        message_id: MessageId::new(node(1, 2), 3),
        round: 0x0102,
        realtime: true,
    };
    let bytes = encode_ihave(LocalNodeId::new(5), &m);
    assert_eq!(bytes.len(), 8 + 15 + 23 + 2 + 1);
    assert_eq!(&bytes[bytes.len() - 3..], &[1, 2, 1]);
    assert_eq!(decode_ihave(&bytes), Ok((LocalNodeId::new(5), m)));
}

#[test]
fn graft_with_and_without_message_id_decode_to_one_form() {
    let with = GraftMessage {
        sender: node(3000, 9),
        message_id: Some(MessageId::new(node(1, 2), 3)),
        round: 4,
    };
    let bytes = encode_graft(LocalNodeId::new(5), &with);
    assert_eq!(bytes[23], 1);
    assert_eq!(decode_graft(&bytes), Ok((LocalNodeId::new(5), with)));

    let without = GraftMessage { sender: node(3000, 9), message_id: None, round: 4 };
    let bytes = encode_graft(LocalNodeId::new(5), &without);
    assert_eq!(&bytes[23..], &[0, 0, 4]);
    assert_eq!(decode_graft(&bytes), Ok((LocalNodeId::new(5), without)));

    let short = encode_graft_optimize(LocalNodeId::new(5), &without).unwrap();
    assert_eq!(&short[23..], &[0, 4]);
    assert_eq!(decode_graft_optimize(&short), Ok((LocalNodeId::new(5), without)));
}

#[test]
fn graft_flag_must_be_zero_or_one() {
    let without = GraftMessage { sender: node(3000, 9), message_id: None, round: 4 };
    let mut bytes = encode_graft(LocalNodeId::new(5), &without);
    bytes[23] = 2;
    assert_eq!(decode_graft(&bytes).unwrap_err().kind(), ErrorKind::InvalidInput);
}

#[test]
fn graft_with_message_id_has_no_short_form() {
    let with = GraftMessage {
        sender: node(3000, 9),
        message_id: Some(MessageId::new(node(1, 2), 3)),
        round: 4,
    };
    assert_eq!(
        encode_graft_optimize(LocalNodeId::new(5), &with).unwrap_err().kind(),
        ErrorKind::InconsistentState
    );
}

#[test]
fn prune_round_trips() {
    let m = PruneMessage { sender: node6(9), round: 0xfffe };
    let bytes = encode_prune(LocalNodeId::new(5), &m);
    assert_eq!(&bytes[bytes.len() - 2..], &[0xff, 0xfe]);
    assert_eq!(decode_prune(&bytes), Ok((LocalNodeId::new(5), m)));
}

#[test]
fn destination_is_read_from_the_first_bytes() {
    let m = PruneMessage { sender: node6(9), round: 1 };
    let bytes = encode_prune(LocalNodeId::new(0x0102_0304_0506_0708), &m);
    assert_eq!(&bytes[..8], &[1, 2, 3, 4, 5, 6, 7, 8]);
    assert_eq!(plumcast::rpc::peek_destination(&bytes), Ok(LocalNodeId::new(0x0102_0304_0506_0708)));
    assert_eq!(plumcast::rpc::peek_destination(&bytes[..8]), Ok(LocalNodeId::new(0x0102_0304_0506_0708)));
    assert_eq!(
        plumcast::rpc::peek_destination(&bytes[..7]).unwrap_err().kind(),
        ErrorKind::InvalidInput
    );
}
