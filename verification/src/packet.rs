//! Packet framing.
//!
//! Every packet is a four-byte big-endian length, one tag byte and the
//! payload; the length counts the tag and the payload. A packet therefore
//! says itself where it ends, and a reader that meets a payload it cannot
//! make sense of still knows where the next packet starts.

use vstd::prelude::*;
use crate::error::{Error, ErrorView};
use crate::wire::{
    append_bytes, be32, copy_range, from_be32, get_u32, lemma_from_be32_inverse, put_u32,
};

verus! {

/// The number of bytes before the payload: the length and the tag.
pub const HEADER_LEN: usize = 5;

/// The longest payload whose length, with the tag, still fits the length
/// field.
pub const MAX_PAYLOAD: usize = 0xFFFF_FFFE;

/// One framed packet: a tag and its payload.
#[derive(Debug, Clone, PartialEq, Eq)]
pub struct Packet {
    tag: u8,
    data: Vec<u8>,
}

/// The mathematical value of a [`Packet`].
pub struct PacketView {
    pub tag: u8,
    pub data: Seq<u8>,
}

impl PacketView {
    /// Whether the payload is short enough for the length field.
    pub open spec fn fits(self) -> bool {
        self.data.len() <= MAX_PAYLOAD
    }

    /// The bytes that stand for this packet on the wire.
    pub open spec fn wire(self) -> Seq<u8> {
        be32((self.data.len() + 1) as u32) + seq![self.tag] + self.data
    }
}

/// The number of bytes that the packet opening `s` takes in all, as its
/// length field announces it; `None` while the length field is incomplete or
/// where it announces a packet without a tag.
pub open spec fn announced_len(s: Seq<u8>) -> Option<int> {
    if s.len() < 4 || from_be32(s.subrange(0, 4)) < 1 {
        None
    } else {
        Some(4 + from_be32(s.subrange(0, 4)))
    }
}

/// The packet that opens `s` and the number of bytes it takes, or `None`
/// where `s` does not open with a whole packet.
pub open spec fn parse_packet(s: Seq<u8>) -> Option<(PacketView, nat)> {
    match announced_len(s) {
        None => None,
        Some(total) => if s.len() < total {
            None
        } else {
            Some((PacketView { tag: s[4], data: s.subrange(5, total) }, total as nat))
        },
    }
}

/// Parsing the wire form of a packet gives the packet back, whatever follows
/// it: a packet ends where its length says.
pub proof fn lemma_packet_round_trip(p: PacketView, rest: Seq<u8>)
    requires
        p.fits(),
    ensures
        p.wire().len() == p.data.len() + 5,
        parse_packet(p.wire() + rest) == Some((p, p.wire().len())),
{
    let s = p.wire() + rest;
    let n = (p.data.len() + 1) as u32;
    crate::wire::lemma_be32_round_trip(n);
    assert(s.subrange(0, 4) =~= be32(n));
    assert(s.subrange(5, 4 + n) =~= p.data);
}

/// What parses as a packet is the wire form of that packet.
pub proof fn lemma_packet_parse_inverse(s: Seq<u8>, p: PacketView, used: nat)
    requires
        parse_packet(s) == Some((p, used)),
    ensures
        p.fits(),
        used <= s.len(),
        p.wire() == s.subrange(0, used as int),
{
    lemma_from_be32_inverse(s.subrange(0, 4));
    assert(s.subrange(0, 4).subrange(0, 4) =~= s.subrange(0, 4));
    assert(p.wire() =~= s.subrange(0, used as int));
}

/// Two packets written one after the other are read back one after the
/// other: the first parse stops where the second packet starts.
pub proof fn lemma_packets_in_sequence(p: PacketView, q: PacketView, rest: Seq<u8>)
    requires
        p.fits(),
        q.fits(),
    ensures
        parse_packet(p.wire() + q.wire() + rest) == Some((p, p.wire().len())),
        parse_packet((p.wire() + q.wire() + rest).skip(p.wire().len() as int)) == Some(
            (q, q.wire().len()),
        ),
{
    let s = p.wire() + q.wire() + rest;
    assert(s =~= p.wire() + (q.wire() + rest));
    lemma_packet_round_trip(p, q.wire() + rest);
    assert(s.skip(p.wire().len() as int) =~= q.wire() + rest);
    lemma_packet_round_trip(q, rest);
}

impl View for Packet {
    type V = PacketView;

    closed spec fn view(&self) -> PacketView {
        PacketView { tag: self.tag, data: self.data@ }
    }
}

impl Packet {
    /// A packet with the given tag and payload.
    pub fn new(tag: u8, data: Vec<u8>) -> (p: Packet)
        ensures
            p@ == (PacketView { tag, data: data@ }),
    {
        Packet { tag, data }
    }

    /// The number of bytes of a packet that come before its payload.
    pub fn size() -> (n: usize)
        ensures
            n == HEADER_LEN,
    {
        HEADER_LEN
    }

    pub fn get_tag(&self) -> (tag: u8)
        ensures
            tag == self@.tag,
    {
        self.tag
    }

    /// The length of the payload.
    pub fn get_len(&self) -> (n: usize)
        ensures
            n == self@.data.len(),
    {
        self.data.len()
    }

    pub fn get_data(&self) -> (data: &Vec<u8>)
        ensures
            data@ == self@.data,
    {
        &self.data
    }

    /// Whether the payload is short enough to be framed.
    pub fn fits(&self) -> (b: bool)
        ensures
            b == self@.fits(),
    {
        self.data.len() <= MAX_PAYLOAD
    }

    /// The wire form of this packet.
    pub fn encode(&self) -> (bytes: Vec<u8>)
        requires
            self@.fits(),
        ensures
            bytes@ == self@.wire(),
    {
        let mut out: Vec<u8> = Vec::new();
        let n: u32 = (self.data.len() + 1) as u32;
        put_u32(&mut out, n);
        out.push(self.tag);
        append_bytes(&mut out, self.data.as_slice());
        assert(out@ =~= self@.wire());
        out
    }

    /// The number of bytes taken by the packet that opens `bytes`, header
    /// included, as far as the length field is there to tell.
    pub fn announced(bytes: &[u8]) -> (total: Option<u64>)
        ensures
            match total {
                Some(n) => announced_len(bytes@) == Some(n as int),
                None => announced_len(bytes@) is None,
            },
    {
        if bytes.len() < 4 {
            return None;
        }
        let n = get_u32(bytes, 0);
        if n < 1 {
            None
        } else {
            Some(4 + n as u64)
        }
    }

    /// Reads the packet that opens `bytes` and says how many bytes it took.
    /// Fails with `Decode` exactly where `bytes` does not open with a whole
    /// packet.
    pub fn take(bytes: &[u8]) -> (r: Result<(Packet, usize), Error>)
        ensures
            match r {
                Ok((p, used)) => parse_packet(bytes@) == Some((p@, used as nat)),
                Err(e) => e@ == ErrorView::Decode && parse_packet(bytes@) is None,
            },
    {
        if bytes.len() < 4 {
            return Err(Error::Decode);
        }
        let n = get_u32(bytes, 0);
        if n < 1 || bytes.len() - 4 < n as usize {
            return Err(Error::Decode);
        }
        let total: usize = 4 + n as usize;
        let data = copy_range(bytes, 5, total);
        Ok((Packet { tag: bytes[4], data }, total))
    }

    /// Reads `bytes` as exactly one packet. Fails with `Decode` exactly where
    /// `bytes` is not one whole packet and nothing more.
    pub fn decode_data(bytes: &[u8]) -> (r: Result<Packet, Error>)
        ensures
            match r {
                Ok(p) => parse_packet(bytes@) == Some((p@, bytes@.len())),
                Err(e) => e@ == ErrorView::Decode && !(parse_packet(bytes@) matches Some((_, used))
                    && used == bytes@.len()),
            },
    {
        match Packet::take(bytes) {
            Ok((packet, used)) => {
                if used == bytes.len() {
                    Ok(packet)
                } else {
                    Err(Error::Decode)
                }
            },
            Err(e) => Err(e),
        }
    }
}

} // verus!
