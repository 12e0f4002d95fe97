//! The control protocol: the messages a control client and the server
//! exchange, and how each is laid out in a packet.
//!
//! | tag | message    | payload                         |
//! |-----|------------|---------------------------------|
//! | 1   | Ping       | nothing                         |
//! | 2   | Bind       | address                         |
//! | 3   | BindOk     | address                         |
//! | 4   | BindFailed | address, then the reason, UTF-8 |
//! | 5   | Map        | id (u32), address               |
//! | 6   | MapError   | id (u32), then the reason, UTF-8 |

use vstd::prelude::*;
use vstd::utf8::{decode_utf8, encode_utf8, valid_utf8};
use vstd::string::StringExecFns;
use crate::address::{parse_address, Address, AddressView, lemma_address_round_trip, lemma_address_parse_inverse};
use crate::error::{Error, ErrorView};
use crate::packet::{parse_packet, Packet, PacketView, MAX_PAYLOAD, lemma_packet_round_trip};
use crate::wire::{
    append_bytes, be32, from_be32, get_u32, lemma_be32_round_trip, lemma_from_be32_inverse, put_u32,
};

verus! {

pub const TAG_PING: u8 = 1;

pub const TAG_BIND: u8 = 2;

pub const TAG_BIND_OK: u8 = 3;

pub const TAG_BIND_FAILED: u8 = 4;

pub const TAG_MAP: u8 = 5;

pub const TAG_MAP_ERROR: u8 = 6;

/// A message of the control protocol.
#[derive(Debug, Clone, PartialEq, Eq)]
pub enum Message {
    /// Heartbeat, in both directions.
    Ping,
    /// The client asks for a public port.
    Bind(Address),
    /// The server opened the port.
    BindOk(Address),
    /// The server could not open the port, and why.
    BindFailed(Address, String),
    /// The server asks the client to dial back for the visitor `id`; a client
    /// opens its mapper stream with the same message.
    Mapping(u32, Address),
    /// The client could not reach the target of the visitor `id`, and why.
    MapError(u32, String),
}

/// The mathematical value of a [`Message`].
pub enum MessageView {
    Ping,
    Bind(AddressView),
    BindOk(AddressView),
    BindFailed(AddressView, Seq<char>),
    Mapping(u32, AddressView),
    MapError(u32, Seq<char>),
}

impl MessageView {
    /// Whether the address it carries, if any, is one.
    pub open spec fn wf(self) -> bool {
        match self {
            MessageView::Ping => true,
            MessageView::Bind(a) => a.wf(),
            MessageView::BindOk(a) => a.wf(),
            MessageView::BindFailed(a, _) => a.wf(),
            MessageView::Mapping(_, a) => a.wf(),
            MessageView::MapError(_, _) => true,
        }
    }

    pub open spec fn tag(self) -> u8 {
        match self {
            MessageView::Ping => TAG_PING,
            MessageView::Bind(_) => TAG_BIND,
            MessageView::BindOk(_) => TAG_BIND_OK,
            MessageView::BindFailed(_, _) => TAG_BIND_FAILED,
            MessageView::Mapping(_, _) => TAG_MAP,
            MessageView::MapError(_, _) => TAG_MAP_ERROR,
        }
    }

    pub open spec fn payload(self) -> Seq<u8> {
        match self {
            MessageView::Ping => Seq::empty(),
            MessageView::Bind(a) => a.wire(),
            MessageView::BindOk(a) => a.wire(),
            MessageView::BindFailed(a, reason) => a.wire() + encode_utf8(reason),
            MessageView::Mapping(id, a) => be32(id) + a.wire(),
            MessageView::MapError(id, reason) => be32(id) + encode_utf8(reason),
        }
    }

    /// The packet that carries this message.
    pub open spec fn packet(self) -> PacketView {
        PacketView { tag: self.tag(), data: self.payload() }
    }

    /// Whether this message can be put on the wire: it is well formed and
    /// its payload fits the length field.
    pub open spec fn encodable(self) -> bool {
        self.wf() && self.packet().fits()
    }

    /// The name of the kind of message.
    pub open spec fn name(self) -> Seq<char> {
        match self {
            MessageView::Ping => "Ping"@,
            MessageView::Bind(_) => "Bind"@,
            MessageView::BindOk(_) => "BindOk"@,
            MessageView::BindFailed(_, _) => "BindFailed"@,
            MessageView::Mapping(_, _) => "Map"@,
            MessageView::MapError(_, _) => "MapError"@,
        }
    }
}

/// The address that makes up the whole of `data`, if `data` is one.
pub open spec fn parse_whole_address(data: Seq<u8>) -> Option<AddressView> {
    match parse_address(data) {
        Some((a, used)) => if used == data.len() {
            Some(a)
        } else {
            None
        },
        None => None,
    }
}

/// The message that the packet `p` carries, or `None` where the tag is
/// unknown or the payload is not what the tag asks for.
pub open spec fn parse_message(p: PacketView) -> Option<MessageView> {
    if p.tag == TAG_PING {
        if p.data.len() == 0 {
            Some(MessageView::Ping)
        } else {
            None
        }
    } else if p.tag == TAG_BIND {
        match parse_whole_address(p.data) {
            Some(a) => Some(MessageView::Bind(a)),
            None => None,
        }
    } else if p.tag == TAG_BIND_OK {
        match parse_whole_address(p.data) {
            Some(a) => Some(MessageView::BindOk(a)),
            None => None,
        }
    } else if p.tag == TAG_BIND_FAILED {
        match parse_address(p.data) {
            Some((a, used)) => if valid_utf8(p.data.skip(used as int)) {
                Some(MessageView::BindFailed(a, decode_utf8(p.data.skip(used as int))))
            } else {
                None
            },
            None => None,
        }
    } else if p.tag == TAG_MAP {
        if p.data.len() < 4 {
            None
        } else {
            match parse_whole_address(p.data.skip(4)) {
                Some(a) => Some(MessageView::Mapping(from_be32(p.data.subrange(0, 4)), a)),
                None => None,
            }
        }
    } else if p.tag == TAG_MAP_ERROR {
        if p.data.len() < 4 || !valid_utf8(p.data.skip(4)) {
            None
        } else {
            Some(
                MessageView::MapError(
                    from_be32(p.data.subrange(0, 4)),
                    decode_utf8(p.data.skip(4)),
                ),
            )
        }
    } else {
        None
    }
}

/// The message that opens the byte stream `s` and the number of bytes it
/// takes.
pub open spec fn parse_stream(s: Seq<u8>) -> Option<(MessageView, nat)> {
    match parse_packet(s) {
        Some((p, used)) => match parse_message(p) {
            Some(m) => Some((m, used)),
            None => None,
        },
        None => None,
    }
}

/// Decoding the packet of a well-formed message gives the message back.
pub proof fn lemma_message_round_trip(m: MessageView)
    requires
        m.wf(),
    ensures
        parse_message(m.packet()) == Some(m),
{
    broadcast use vstd::utf8::encode_utf8_valid_utf8, vstd::utf8::encode_utf8_decode_utf8;

    let p = m.packet();
    match m {
        MessageView::Ping => {},
        MessageView::Bind(a) => {
            lemma_address_round_trip(a, Seq::empty());
            assert(a.wire() + Seq::<u8>::empty() =~= a.wire());
        },
        MessageView::BindOk(a) => {
            lemma_address_round_trip(a, Seq::empty());
            assert(a.wire() + Seq::<u8>::empty() =~= a.wire());
        },
        MessageView::BindFailed(a, reason) => {
            lemma_address_round_trip(a, encode_utf8(reason));
            assert(p.data.skip(a.wire().len() as int) =~= encode_utf8(reason));
        },
        MessageView::Mapping(id, a) => {
            lemma_be32_round_trip(id);
            lemma_address_round_trip(a, Seq::empty());
            assert(a.wire() + Seq::<u8>::empty() =~= a.wire());
            assert(p.data.skip(4) =~= a.wire());
            assert(p.data.subrange(0, 4) =~= be32(id));
        },
        MessageView::MapError(id, reason) => {
            lemma_be32_round_trip(id);
            assert(p.data.skip(4) =~= encode_utf8(reason));
            assert(p.data.subrange(0, 4) =~= be32(id));
        },
    }
}

/// A packet that decodes to a message is the packet of that message: no two
/// packets stand for the same message.
pub proof fn lemma_message_parse_inverse(p: PacketView, m: MessageView)
    requires
        parse_message(p) == Some(m),
    ensures
        m.wf(),
        m.packet() == p,
{
    broadcast use vstd::utf8::decode_utf8_encode_utf8;

    match m {
        MessageView::Ping => {
            assert(p.data =~= Seq::<u8>::empty());
        },
        MessageView::Bind(a) => {
            lemma_address_parse_inverse(p.data, a, p.data.len());
            assert(p.data.subrange(0, p.data.len() as int) =~= p.data);
        },
        MessageView::BindOk(a) => {
            lemma_address_parse_inverse(p.data, a, p.data.len());
            assert(p.data.subrange(0, p.data.len() as int) =~= p.data);
        },
        MessageView::BindFailed(a, reason) => {
            let used = match parse_address(p.data) {
                Some((_, used)) => used,
                None => 0,
            };
            lemma_address_parse_inverse(p.data, a, used);
            assert(p.data =~= p.data.subrange(0, used as int) + p.data.skip(used as int));
        },
        MessageView::Mapping(id, a) => {
            let rest = p.data.skip(4);
            lemma_address_parse_inverse(rest, a, rest.len());
            assert(rest.subrange(0, rest.len() as int) =~= rest);
            lemma_from_be32_inverse(p.data.subrange(0, 4));
            assert(p.data.subrange(0, 4).subrange(0, 4) =~= p.data.subrange(0, 4));
            assert(p.data =~= p.data.subrange(0, 4) + rest);
        },
        MessageView::MapError(id, reason) => {
            lemma_from_be32_inverse(p.data.subrange(0, 4));
            assert(p.data.subrange(0, 4).subrange(0, 4) =~= p.data.subrange(0, 4));
            assert(p.data =~= p.data.subrange(0, 4) + p.data.skip(4));
        },
    }
}

/// Encoding a message and decoding the bytes gives the message back,
/// whatever follows it on the stream.
pub proof fn lemma_stream_round_trip(m: MessageView, rest: Seq<u8>)
    requires
        m.encodable(),
    ensures
        parse_stream(m.packet().wire() + rest) == Some((m, m.packet().wire().len())),
{
    lemma_packet_round_trip(m.packet(), rest);
    lemma_message_round_trip(m);
}

impl View for Message {
    type V = MessageView;

    open spec fn view(&self) -> MessageView {
        match *self {
            Message::Ping => MessageView::Ping,
            Message::Bind(a) => MessageView::Bind(a@),
            Message::BindOk(a) => MessageView::BindOk(a@),
            Message::BindFailed(a, reason) => MessageView::BindFailed(a@, reason@),
            Message::Mapping(id, a) => MessageView::Mapping(id, a@),
            Message::MapError(id, reason) => MessageView::MapError(id, reason@),
        }
    }
}

/// `String::from_utf8` of std: the text that `bytes` spell in UTF-8. It
/// answers `None` exactly where the bytes are not valid UTF-8, and otherwise
/// the string whose characters are the decoded bytes.
#[verifier::external_body]
fn text_of(bytes: &[u8]) -> (text: Option<String>)
    ensures
        text is Some <==> valid_utf8(bytes@),
        text matches Some(s) ==> s@ == decode_utf8(bytes@),
{
    match String::from_utf8(bytes.to_vec()) {
        Ok(s) => Some(s),
        Err(_) => None,
    }
}

impl Message {
    /// Every message holds well-formed addresses.
    pub proof fn lemma_wf(self)
        ensures
            self@.wf(),
    {
        match self {
            Message::Ping => {},
            Message::Bind(a) => a.lemma_wf(),
            Message::BindOk(a) => a.lemma_wf(),
            Message::BindFailed(a, _) => a.lemma_wf(),
            Message::Mapping(_, a) => a.lemma_wf(),
            Message::MapError(_, _) => {},
        }
    }

    /// The name of the kind of message, for reports.
    pub fn name(&self) -> (name: String)
        ensures
            name@ == self@.name(),
    {
        match self {
            Message::Ping => String::from_str("Ping"),
            Message::Bind(_) => String::from_str("Bind"),
            Message::BindOk(_) => String::from_str("BindOk"),
            Message::BindFailed(_, _) => String::from_str("BindFailed"),
            Message::Mapping(_, _) => String::from_str("Map"),
            Message::MapError(_, _) => String::from_str("MapError"),
        }
    }

    /// The bytes of a heartbeat.
    pub fn ping_bytes() -> (bytes: Vec<u8>)
        ensures
            bytes@ == MessageView::Ping.packet().wire(),
    {
        Packet::new(TAG_PING, Vec::new()).encode()
    }

    /// The bytes that ask the client to dial back for the visitor `id`.
    pub fn mapping_bytes(id: u32, target: &Address) -> (bytes: Vec<u8>)
        ensures
            bytes@ == MessageView::Mapping(id, target@).packet().wire(),
            MessageView::Mapping(id, target@).encodable(),
    {
        proof {
            target.lemma_wf();
        }
        let mut data: Vec<u8> = Vec::new();
        put_u32(&mut data, id);
        target.encode_into(&mut data);
        assert(data@ =~= MessageView::Mapping(id, target@).payload());
        Packet::new(TAG_MAP, data).encode()
    }

    /// The bytes that tell the client that its port is open.
    pub fn bind_ok_bytes(bound: &Address) -> (bytes: Vec<u8>)
        ensures
            bytes@ == MessageView::BindOk(bound@).packet().wire(),
            MessageView::BindOk(bound@).encodable(),
    {
        proof {
            bound.lemma_wf();
        }
        let mut data: Vec<u8> = Vec::new();
        bound.encode_into(&mut data);
        assert(data@ =~= MessageView::BindOk(bound@).payload());
        Packet::new(TAG_BIND_OK, data).encode()
    }

    /// The packet that carries this message, or `None` exactly where the
    /// payload is too long for the length field.
    pub fn to_packet(&self) -> (r: Option<Packet>)
        ensures
            r is Some <==> self@.encodable(),
            r matches Some(p) ==> p@ == self@.packet(),
    {
        proof {
            self.lemma_wf();
        }
        let mut data: Vec<u8> = Vec::new();
        let tag: u8 = match self {
            Message::Ping => TAG_PING,
            Message::Bind(a) => {
                a.encode_into(&mut data);
                TAG_BIND
            },
            Message::BindOk(a) => {
                a.encode_into(&mut data);
                TAG_BIND_OK
            },
            Message::BindFailed(a, reason) => {
                a.encode_into(&mut data);
                append_bytes(&mut data, reason.as_str().as_bytes());
                TAG_BIND_FAILED
            },
            Message::Mapping(id, a) => {
                put_u32(&mut data, *id);
                a.encode_into(&mut data);
                TAG_MAP
            },
            Message::MapError(id, reason) => {
                put_u32(&mut data, *id);
                append_bytes(&mut data, reason.as_str().as_bytes());
                TAG_MAP_ERROR
            },
        };
        assert(data@ =~= self@.payload());
        if data.len() <= MAX_PAYLOAD {
            Some(Packet::new(tag, data))
        } else {
            None
        }
    }

    /// The bytes that carry this message on the wire, or `None` exactly
    /// where the payload is too long for the length field.
    pub fn to_packet_vec(&self) -> (r: Option<Vec<u8>>)
        ensures
            r is Some <==> self@.encodable(),
            r matches Some(bytes) ==> bytes@ == self@.packet().wire(),
    {
        match self.to_packet() {
            Some(packet) => Some(packet.encode()),
            None => None,
        }
    }

    /// The message that `packet` carries. Fails with `Decode` exactly where
    /// the tag is unknown or the payload is not what the tag asks for.
    pub fn try_message(packet: &Packet) -> (r: Result<Message, Error>)
        ensures
            match r {
                Ok(m) => parse_message(packet@) == Some(m@),
                Err(e) => e@ == ErrorView::Decode && parse_message(packet@) is None,
            },
    {
        let tag = packet.get_tag();
        let data = packet.get_data().as_slice();
        if tag == TAG_PING {
            if data.len() == 0 {
                Ok(Message::Ping)
            } else {
                Err(Error::Decode)
            }
        } else if tag == TAG_BIND || tag == TAG_BIND_OK {
            match Address::decode(data) {
                Ok((a, used)) => {
                    if used != data.len() {
                        Err(Error::Decode)
                    } else if tag == TAG_BIND {
                        Ok(Message::Bind(a))
                    } else {
                        Ok(Message::BindOk(a))
                    }
                },
                Err(e) => Err(e),
            }
        } else if tag == TAG_BIND_FAILED {
            match Address::decode(data) {
                Ok((a, used)) => {
                    proof {
                        lemma_address_parse_inverse(data@, a@, used as nat);
                    }
                    let rest = &data[used..data.len()];
                    assert(rest@ =~= data@.skip(used as int));
                    match text_of(rest) {
                        Some(reason) => Ok(Message::BindFailed(a, reason)),
                        None => Err(Error::Decode),
                    }
                },
                Err(e) => Err(e),
            }
        } else if tag == TAG_MAP {
            if data.len() < 4 {
                return Err(Error::Decode);
            }
            let id = get_u32(data, 0);
            let rest = &data[4..data.len()];
            assert(rest@ =~= data@.skip(4));
            match Address::decode(rest) {
                Ok((a, used)) => {
                    if used != rest.len() {
                        Err(Error::Decode)
                    } else {
                        Ok(Message::Mapping(id, a))
                    }
                },
                Err(e) => Err(e),
            }
        } else if tag == TAG_MAP_ERROR {
            if data.len() < 4 {
                return Err(Error::Decode);
            }
            let id = get_u32(data, 0);
            let rest = &data[4..data.len()];
            assert(rest@ =~= data@.skip(4));
            match text_of(rest) {
                Some(reason) => Ok(Message::MapError(id, reason)),
                None => Err(Error::Decode),
            }
        } else {
            Err(Error::Decode)
        }
    }

    /// Reads the message that opens `bytes` and says how many bytes it took.
    /// Fails with `Decode` exactly where `bytes` does not open with a whole
    /// packet that carries a message.
    pub fn decode(bytes: &[u8]) -> (r: Result<(Message, usize), Error>)
        ensures
            match r {
                Ok((m, used)) => parse_stream(bytes@) == Some((m@, used as nat)),
                Err(e) => e@ == ErrorView::Decode && parse_stream(bytes@) is None,
            },
    {
        match Packet::take(bytes) {
            Ok((packet, used)) => match Message::try_message(&packet) {
                Ok(m) => Ok((m, used)),
                Err(e) => Err(e),
            },
            Err(e) => Err(e),
        }
    }
}

} // verus!
