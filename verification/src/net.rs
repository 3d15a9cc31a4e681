use vstd::prelude::*;

use crate::error::NativeError;
use vstd::string::StringSliceAdditionalSpecFns;

verus! {

/// The message kinds of the peer protocol.
#[derive(Clone, Copy, Debug, PartialEq, Eq, Structural)]
pub enum MsgType {
    NONE,
    HANDSHAKE,
    PROPERTIES,
    EVENT,
}

impl MsgType {
    /// The byte that stands for the message kind.
    pub open spec fn spec_id(self) -> u8 {
        match self {
            MsgType::NONE => 0,
            MsgType::HANDSHAKE => 1,
            MsgType::PROPERTIES => 2,
            MsgType::EVENT => 3,
        }
    }

    /// The message kind that a byte stands for, if any.
    pub open spec fn spec_from_id(id: u8) -> Option<MsgType> {
        if id == 0 {
            Some(MsgType::NONE)
        } else if id == 1 {
            Some(MsgType::HANDSHAKE)
        } else if id == 2 {
            Some(MsgType::PROPERTIES)
        } else if id == 3 {
            Some(MsgType::EVENT)
        } else {
            None
        }
    }

    pub fn id(self) -> (id: u8)
        ensures
            id == self.spec_id(),
    {
        match self {
            MsgType::NONE => 0,
            MsgType::HANDSHAKE => 1,
            MsgType::PROPERTIES => 2,
            MsgType::EVENT => 3,
        }
    }

    pub fn from_id(id: u8) -> (t: Option<MsgType>)
        ensures
            t == Self::spec_from_id(id),
    {
        if id == 0 {
            Some(MsgType::NONE)
        } else if id == 1 {
            Some(MsgType::HANDSHAKE)
        } else if id == 2 {
            Some(MsgType::PROPERTIES)
        } else if id == 3 {
            Some(MsgType::EVENT)
        } else {
            None
        }
    }
}

/// The kinds of RPC message, in the order of their numbers.
#[derive(Clone, Copy, Debug, PartialEq, Eq, Structural)]
pub enum RpcMsgType {
    Error,
    Event,
    Handshake,
    Broadcast,
    Properties,
    Block,
    Balance,
    TotalFee,
}

/// The number written as `msg_type` for a payload that carries no message.
pub const NO_MSG_TYPE: i8 = -1;

impl RpcMsgType {
    /// The number that stands for the message kind in `msg_type`.
    pub open spec fn spec_number(self) -> i8 {
        match self {
            RpcMsgType::Error => 0,
            RpcMsgType::Event => 1,
            RpcMsgType::Handshake => 2,
            RpcMsgType::Broadcast => 3,
            RpcMsgType::Properties => 4,
            RpcMsgType::Block => 5,
            RpcMsgType::Balance => 6,
            RpcMsgType::TotalFee => 7,
        }
    }

    pub fn number(self) -> (n: i8)
        ensures
            n == self.spec_number(),
    {
        match self {
            RpcMsgType::Error => 0,
            RpcMsgType::Event => 1,
            RpcMsgType::Handshake => 2,
            RpcMsgType::Broadcast => 3,
            RpcMsgType::Properties => 4,
            RpcMsgType::Block => 5,
            RpcMsgType::Balance => 6,
            RpcMsgType::TotalFee => 7,
        }
    }

    /// What the RPC encoder makes of a `msg_type` number: `-1` asks for a payload
    /// without a message; the numbers of the message kinds that it can encode ask
    /// for that kind; anything else, the number of `Broadcast` included, is refused.
    pub open spec fn spec_for_encoding(msg_type: i8) -> Result<Option<RpcMsgType>, NativeError> {
        if msg_type == NO_MSG_TYPE {
            Ok(None)
        } else if msg_type == 0 {
            Ok(Some(RpcMsgType::Error))
        } else if msg_type == 1 {
            Ok(Some(RpcMsgType::Event))
        } else if msg_type == 2 {
            Ok(Some(RpcMsgType::Handshake))
        } else if msg_type == 4 {
            Ok(Some(RpcMsgType::Properties))
        } else if msg_type == 5 {
            Ok(Some(RpcMsgType::Block))
        } else if msg_type == 6 {
            Ok(Some(RpcMsgType::Balance))
        } else if msg_type == 7 {
            Ok(Some(RpcMsgType::TotalFee))
        } else {
            Err(NativeError::InvalidMsgType)
        }
    }

    pub fn for_encoding(msg_type: i8) -> (res: Result<Option<RpcMsgType>, NativeError>)
        ensures
            res == Self::spec_for_encoding(msg_type),
    {
        if msg_type == NO_MSG_TYPE {
            Ok(None)
        } else if msg_type == 0 {
            Ok(Some(RpcMsgType::Error))
        } else if msg_type == 1 {
            Ok(Some(RpcMsgType::Event))
        } else if msg_type == 2 {
            Ok(Some(RpcMsgType::Handshake))
        } else if msg_type == 4 {
            Ok(Some(RpcMsgType::Properties))
        } else if msg_type == 5 {
            Ok(Some(RpcMsgType::Block))
        } else if msg_type == 6 {
            Ok(Some(RpcMsgType::Balance))
        } else if msg_type == 7 {
            Ok(Some(RpcMsgType::TotalFee))
        } else {
            Err(NativeError::InvalidMsgType)
        }
    }

    /// The `msg_type` number the RPC decoder writes for a payload: the number of its
    /// message's kind, or `-1` when it carries no message.
    pub open spec fn spec_payload_number(kind: Option<RpcMsgType>) -> i8 {
        match kind {
            Some(k) => k.spec_number(),
            None => NO_MSG_TYPE,
        }
    }

    pub fn payload_number(kind: Option<RpcMsgType>) -> (n: i8)
        ensures
            n == Self::spec_payload_number(kind),
    {
        match kind {
            Some(k) => k.number(),
            None => NO_MSG_TYPE,
        }
    }
}

/// The kinds of peer that open a connection.
#[derive(Clone, Copy, Debug, PartialEq, Eq, Structural)]
pub enum PeerType {
    NODE,
    WALLET,
}

impl PeerType {
    /// The number that stands for the peer kind in `peer_type`.
    pub open spec fn spec_id(self) -> u8 {
        match self {
            PeerType::NODE => 0,
            PeerType::WALLET => 1,
        }
    }

    /// The peer kind a `peer_type` number stands for; `InvalidPeerType` otherwise.
    pub open spec fn spec_from_id(id: u8) -> Result<PeerType, NativeError> {
        if id == 0 {
            Ok(PeerType::NODE)
        } else if id == 1 {
            Ok(PeerType::WALLET)
        } else {
            Err(NativeError::InvalidPeerType)
        }
    }

    pub fn id(self) -> (id: u8)
        ensures
            id == self.spec_id(),
    {
        match self {
            PeerType::NODE => 0,
            PeerType::WALLET => 1,
        }
    }

    pub fn from_id(id: u8) -> (res: Result<PeerType, NativeError>)
        ensures
            res == Self::spec_from_id(id),
    {
        if id == 0 {
            Ok(PeerType::NODE)
        } else if id == 1 {
            Ok(PeerType::WALLET)
        } else {
            Err(NativeError::InvalidPeerType)
        }
    }
}

/// The kinds of RPC event.
#[derive(Clone, Copy, Debug, PartialEq, Eq, Structural)]
pub enum EventKind {
    Tx,
    Block,
}

impl EventKind {
    /// The UTF-8 bytes of the name written as an event's `type`.
    pub open spec fn spec_name_bytes(self) -> Seq<u8> {
        match self {
            EventKind::Tx => seq![0x74u8, 0x78u8],
            EventKind::Block => seq![0x62u8, 0x6cu8, 0x6fu8, 0x63u8, 0x6bu8],
        }
    }

    /// The event kind an event `type` names: `tx` or `block`; `InvalidEventType`
    /// for any other name.
    pub open spec fn spec_from_name_bytes(name: Seq<u8>) -> Result<EventKind, NativeError> {
        if name == EventKind::Tx.spec_name_bytes() {
            Ok(EventKind::Tx)
        } else if name == EventKind::Block.spec_name_bytes() {
            Ok(EventKind::Block)
        } else {
            Err(NativeError::InvalidEventType)
        }
    }

    /// The name written as an event's `type`.
    pub fn name(self) -> (name: &'static str)
        ensures
            name.spec_bytes() == self.spec_name_bytes(),
    {
        proof {
            reveal_strlit("tx");
            reveal_strlit("block");
        }
        match self {
            EventKind::Tx => {
                let s = "tx";
                proof {
                    vstd::string::is_ascii_spec_bytes(s);
                    assert(s.spec_bytes() =~= seq![0x74u8, 0x78u8]);
                }
                s
            },
            EventKind::Block => {
                let s = "block";
                proof {
                    vstd::string::is_ascii_spec_bytes(s);
                    assert(s.spec_bytes() =~= seq![0x62u8, 0x6cu8, 0x6fu8, 0x63u8, 0x6bu8]);
                }
                s
            },
        }
    }

    /// The event kind that an event `type` names.
    pub fn from_name(name: &str) -> (res: Result<EventKind, NativeError>)
        ensures
            res == Self::spec_from_name_bytes(name.spec_bytes()),
    {
        let b = name.as_bytes();
        if b.len() == 2 && b[0] == 0x74 && b[1] == 0x78 {
            proof {
                assert(b@ =~= seq![0x74u8, 0x78u8]);
            }
            Ok(EventKind::Tx)
        } else if b.len() == 5 && b[0] == 0x62 && b[1] == 0x6c && b[2] == 0x6f && b[3] == 0x63
            && b[4] == 0x6b {
            proof {
                assert(b@ =~= seq![0x62u8, 0x6cu8, 0x6fu8, 0x63u8, 0x6bu8]);
            }
            Ok(EventKind::Block)
        } else {
            proof {
                if b@ == EventKind::Tx.spec_name_bytes() {
                    assert(b@[0] == 0x74u8 && b@[1] == 0x78u8);
                }
                if b@ == EventKind::Block.spec_name_bytes() {
                    assert(b@[0] == 0x62u8);
                }
            }
            Err(NativeError::InvalidEventType)
        }
    }
}

/// A buffer of bytes received from a node that the RPC codec has not consumed yet.
#[derive(Debug)]
pub struct BufRpcCodec {
    buf: Vec<u8>,
}

impl View for BufRpcCodec {
    type V = Seq<u8>;

    closed spec fn view(&self) -> Seq<u8> {
        self.buf@
    }
}

impl BufRpcCodec {
    /// An empty buffer.
    pub fn new() -> (c: BufRpcCodec)
        ensures
            c@ == Seq::<u8>::empty(),
    {
        BufRpcCodec { buf: Vec::with_capacity(4096) }
    }

    /// Appends bytes received from the node.
    pub fn update(&mut self, data: &[u8])
        ensures
            final(self)@ == old(self)@ + data@,
    {
        let ghost start = self.buf@;
        let mut i: usize = 0;
        while i < data.len()
            invariant
                i <= data@.len(),
                self.buf@ == start + data@.subrange(0, i as int),
            decreases data@.len() - i,
        {
            self.buf.push(data[i]);
            i = i + 1;
            proof {
                assert(self.buf@ =~= start + data@.subrange(0, i as int));
            }
        }
        proof {
            assert(data@.subrange(0, data@.len() as int) =~= data@);
        }
    }

    /// The bytes not consumed yet, oldest first.
    pub fn pending(&self) -> (bytes: &[u8])
        ensures
            bytes@ == self@,
    {
        self.buf.as_slice()
    }

    /// Drops the `n` oldest bytes, which the codec has consumed.
    pub fn consume(&mut self, n: usize)
        requires
            n <= old(self)@.len(),
        ensures
            final(self)@ == old(self)@.subrange(n as int, old(self)@.len() as int),
    {
        let mut rest: Vec<u8> = Vec::with_capacity(self.buf.len() - n);
        let mut i: usize = n;
        while i < self.buf.len()
            invariant
                n <= i <= self.buf@.len(),
                rest@ == self.buf@.subrange(n as int, i as int),
            decreases self.buf@.len() - i,
        {
            rest.push(self.buf[i]);
            i = i + 1;
            proof {
                assert(rest@ =~= self.buf@.subrange(n as int, i as int));
            }
        }
        self.buf = rest;
    }
}

/// A message kind that the encoder accepts, written as its number by the decoder,
/// is read back by the encoder as the same kind; `Broadcast` is the one kind the
/// encoder refuses.
pub proof fn lemma_msg_type_number_roundtrip(kind: RpcMsgType)
    requires
        kind != RpcMsgType::Broadcast,
    ensures
        RpcMsgType::spec_for_encoding(RpcMsgType::spec_payload_number(Some(kind)))
            == Ok::<Option<RpcMsgType>, NativeError>(Some(kind)),
{
}

/// The message kinds are numbered in their declaration order, Error 0 through
/// TotalFee 7: the decoder writes exactly these numbers, the encoder reads each of
/// them but Broadcast's back as its kind, reads -1 as no message, and refuses every
/// other number.
pub proof fn lemma_msg_type_numbering(n: i8)
    ensures
        RpcMsgType::spec_payload_number(Some(RpcMsgType::Error)) == 0,
        RpcMsgType::spec_payload_number(Some(RpcMsgType::Event)) == 1,
        RpcMsgType::spec_payload_number(Some(RpcMsgType::Handshake)) == 2,
        RpcMsgType::spec_payload_number(Some(RpcMsgType::Broadcast)) == 3,
        RpcMsgType::spec_payload_number(Some(RpcMsgType::Properties)) == 4,
        RpcMsgType::spec_payload_number(Some(RpcMsgType::Block)) == 5,
        RpcMsgType::spec_payload_number(Some(RpcMsgType::Balance)) == 6,
        RpcMsgType::spec_payload_number(Some(RpcMsgType::TotalFee)) == 7,
        RpcMsgType::spec_payload_number(None) == -1,
        forall|k: RpcMsgType| #[trigger] RpcMsgType::spec_payload_number(Some(k)) == k.spec_number(),
        RpcMsgType::spec_for_encoding(n) is Ok <==> (-1 <= n <= 7 && n != 3),
        forall|k: RpcMsgType| k != RpcMsgType::Broadcast ==>
            #[trigger] RpcMsgType::spec_for_encoding(k.spec_number()) == Ok::<Option<RpcMsgType>, NativeError>(Some(k)),
        RpcMsgType::spec_for_encoding(n) is Err ==>
            RpcMsgType::spec_for_encoding(n) == Err::<Option<RpcMsgType>, NativeError>(NativeError::InvalidMsgType),
        RpcMsgType::spec_for_encoding(n) matches Ok(Some(k)) ==> k.spec_number() == n,
        RpcMsgType::spec_for_encoding(n) matches Ok(None) ==> n == -1,
{
}

/// Peers are numbered NODE 0 and WALLET 1; the encoder accepts exactly those two
/// numbers, each as the peer it names.
pub proof fn lemma_peer_type_numbering(n: u8)
    ensures
        PeerType::NODE.spec_id() == 0,
        PeerType::WALLET.spec_id() == 1,
        PeerType::spec_from_id(n) is Ok <==> n <= 1,
        PeerType::spec_from_id(n) matches Ok(p) ==> p.spec_id() == n,
        PeerType::spec_from_id(n) is Err ==>
            PeerType::spec_from_id(n) == Err::<PeerType, NativeError>(NativeError::InvalidPeerType),
{
}

/// Message kinds of the peer protocol are numbered NONE 0 through EVENT 3; exactly
/// those bytes name a kind, each the kind numbered so.
pub proof fn lemma_msg_kind_numbering(n: u8)
    ensures
        MsgType::NONE.spec_id() == 0,
        MsgType::HANDSHAKE.spec_id() == 1,
        MsgType::PROPERTIES.spec_id() == 2,
        MsgType::EVENT.spec_id() == 3,
        MsgType::spec_from_id(n) is Some <==> n <= 3,
        MsgType::spec_from_id(n) matches Some(t) ==> t.spec_id() == n,
{
}

/// The event names are the UTF-8 bytes of `tx` and `block`, and the encoder accepts
/// exactly those two names.
pub proof fn lemma_event_names(name: Seq<u8>)
    ensures
        EventKind::Tx.spec_name_bytes() == seq![0x74u8, 0x78u8],
        EventKind::Block.spec_name_bytes() == seq![0x62u8, 0x6cu8, 0x6fu8, 0x63u8, 0x6bu8],
        EventKind::spec_from_name_bytes(name) is Ok <==>
            (name == seq![0x74u8, 0x78u8] || name == seq![0x62u8, 0x6cu8, 0x6fu8, 0x63u8, 0x6bu8]),
        EventKind::spec_from_name_bytes(name) matches Ok(k) ==> k.spec_name_bytes() == name,
{
}

/// A payload without a message, written as `-1` by the decoder, is read back by the
/// encoder as a payload without a message.
pub proof fn lemma_no_msg_roundtrip()
    ensures
        RpcMsgType::spec_for_encoding(RpcMsgType::spec_payload_number(None))
            == Ok::<Option<RpcMsgType>, NativeError>(None),
{
}

/// The encoder refuses the number of `Broadcast`.
pub proof fn lemma_broadcast_refused()
    ensures
        RpcMsgType::spec_for_encoding(RpcMsgType::Broadcast.spec_number())
            == Err::<Option<RpcMsgType>, NativeError>(NativeError::InvalidMsgType),
{
}

/// A peer kind read back from the number it is written as is the same kind.
pub proof fn lemma_peer_type_roundtrip(p: PeerType)
    ensures
        PeerType::spec_from_id(p.spec_id()) == Ok::<PeerType, NativeError>(p),
{
}

/// An event kind read back from the name it is written as is the same kind.
pub proof fn lemma_event_name_roundtrip(k: EventKind)
    ensures
        EventKind::spec_from_name_bytes(k.spec_name_bytes()) == Ok::<EventKind, NativeError>(k),
{
    assert(EventKind::Tx.spec_name_bytes() != EventKind::Block.spec_name_bytes()) by {
        assert(EventKind::Tx.spec_name_bytes().len() != EventKind::Block.spec_name_bytes().len());
    }
}

/// A message kind read back from the byte it is written as is the same kind.
pub proof fn lemma_msg_kind_id_roundtrip(t: MsgType)
    ensures
        MsgType::spec_from_id(t.spec_id()) == Some(t),
{
}

/// Bytes appended to the buffer come out, after everything that was pending before
/// them has been consumed, exactly as they were appended.
pub proof fn lemma_update_then_consume(pending: Seq<u8>, data: Seq<u8>)
    ensures
        (pending + data).subrange(pending.len() as int, (pending + data).len() as int) == data,
{
    assert((pending + data).subrange(pending.len() as int, (pending + data).len() as int) =~= data);
}

} // verus!
