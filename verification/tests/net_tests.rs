use godcoin_native::error::NativeError;
use godcoin_native::net::{BufRpcCodec, EventKind, MsgType, PeerType, RpcMsgType, NO_MSG_TYPE};

const KINDS: [RpcMsgType; 8] = [
    RpcMsgType::Error,
    RpcMsgType::Event,
    RpcMsgType::Handshake,
    RpcMsgType::Broadcast,
    RpcMsgType::Properties,
    RpcMsgType::Block,
    RpcMsgType::Balance,
    RpcMsgType::TotalFee,
];

#[test]
fn msg_type_ids() {
    assert_eq!(MsgType::NONE.id(), 0);
    assert_eq!(MsgType::HANDSHAKE.id(), 1);
    assert_eq!(MsgType::PROPERTIES.id(), 2);
    assert_eq!(MsgType::EVENT.id(), 3);
    assert_eq!(MsgType::from_id(4), None);
    for t in [MsgType::NONE, MsgType::HANDSHAKE, MsgType::PROPERTIES, MsgType::EVENT] {
        assert_eq!(MsgType::from_id(t.id()), Some(t));
    }
}

#[test]
fn rpc_msg_type_numbers() {
    for (i, k) in KINDS.iter().enumerate() {
        assert_eq!(k.number(), i as i8);
    }
}

#[test]
fn encoder_reads_back_decoder_numbers() {
    for k in KINDS {
        let n = RpcMsgType::payload_number(Some(k));
        if k == RpcMsgType::Broadcast {
            assert_eq!(RpcMsgType::for_encoding(n), Err(NativeError::InvalidMsgType));
        } else {
            assert_eq!(RpcMsgType::for_encoding(n), Ok(Some(k)));
        }
    }
    assert_eq!(RpcMsgType::payload_number(None), -1);
    assert_eq!(RpcMsgType::for_encoding(NO_MSG_TYPE), Ok(None));
}

#[test]
fn encoder_rejects_unknown_numbers() {
    for n in [-2i8, 8, 100, i8::MIN, i8::MAX, 3] {
        assert_eq!(RpcMsgType::for_encoding(n), Err(NativeError::InvalidMsgType));
    }
}

#[test]
fn peer_types() {
    assert_eq!(PeerType::from_id(0), Ok(PeerType::NODE));
    assert_eq!(PeerType::from_id(1), Ok(PeerType::WALLET));
    assert_eq!(PeerType::from_id(2), Err(NativeError::InvalidPeerType));
    for p in [PeerType::NODE, PeerType::WALLET] {
        assert_eq!(PeerType::from_id(p.id()), Ok(p));
    }
}

#[test]
fn event_names() {
    assert_eq!(EventKind::Tx.name(), "tx");
    assert_eq!(EventKind::Block.name(), "block");
    assert_eq!(EventKind::from_name("tx"), Ok(EventKind::Tx));
    assert_eq!(EventKind::from_name("block"), Ok(EventKind::Block));
    assert_eq!(EventKind::from_name("blocks"), Err(NativeError::InvalidEventType));
    assert_eq!(EventKind::from_name("TX"), Err(NativeError::InvalidEventType));
    assert_eq!(EventKind::from_name(""), Err(NativeError::InvalidEventType));
    for k in [EventKind::Tx, EventKind::Block] {
        assert_eq!(EventKind::from_name(k.name()), Ok(k));
    }
}

#[test]
fn codec_buffer_update_and_consume() {
    let mut c = BufRpcCodec::new();
    assert!(c.pending().is_empty());
    c.update(&[1, 2, 3]);
    c.update(&[]);
    c.update(&[4, 5]);
    assert_eq!(c.pending(), &[1, 2, 3, 4, 5][..]);
    c.consume(3);
    assert_eq!(c.pending(), &[4, 5][..]);
    c.update(&[6]);
    c.consume(0);
    assert_eq!(c.pending(), &[4, 5, 6][..]);
    c.consume(3);
    assert!(c.pending().is_empty());
}
