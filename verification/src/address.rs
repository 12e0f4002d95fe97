//! Socket addresses and their wire form.
//!
//! On the wire an address is one family byte (4 or 6), the host bytes (4 or
//! 16 of them), the port as two big-endian bytes, and one kind byte (0 for a
//! plain TCP target, 1 for a mixed one).

use vstd::prelude::*;
use crate::error::Error;
use crate::wire::{be16, from_be16, get_u16, put_u16};

verus! {

/// The host part of an address.
#[derive(Debug, Clone, Copy, PartialEq, Eq)]
pub enum Host {
    V4([u8; 4]),
    V6([u8; 16]),
}

/// An immutable socket address: host, port, and whether the target is to be
/// treated as mixed.
#[derive(Debug, Clone, Copy, PartialEq, Eq)]
pub struct Address {
    host: Host,
    port: u16,
    mixed: bool,
}

/// The mathematical value of an [`Address`].
pub struct AddressView {
    /// The host bytes: four for IPv4, sixteen for IPv6.
    pub host: Seq<u8>,
    pub port: u16,
    pub mixed: bool,
}

impl AddressView {
    /// Whether the host has one of the two lengths an address can have.
    pub open spec fn wf(self) -> bool {
        self.host.len() == 4 || self.host.len() == 16
    }

    /// The family byte that announces the host.
    pub open spec fn family(self) -> u8 {
        if self.host.len() == 4 {
            4
        } else {
            6
        }
    }

    /// The kind byte that closes the address.
    pub open spec fn kind_byte(self) -> u8 {
        if self.mixed {
            1
        } else {
            0
        }
    }

    /// The bytes that stand for this address on the wire.
    pub open spec fn wire(self) -> Seq<u8> {
        seq![self.family()] + self.host + be16(self.port) + seq![self.kind_byte()]
    }

    /// This address with its mixed mark set as asked.
    pub open spec fn with_mixed(self, mixed: bool) -> AddressView {
        AddressView { host: self.host, port: self.port, mixed }
    }
}

/// How many host bytes follow the family byte `family`, if it is one.
pub open spec fn host_len(family: u8) -> Option<int> {
    if family == 4 {
        Some(4)
    } else if family == 6 {
        Some(16)
    } else {
        None
    }
}

/// The address that opens `s` and the number of bytes it takes, or `None`
/// where `s` does not open with a whole, well-formed address.
pub open spec fn parse_address(s: Seq<u8>) -> Option<(AddressView, nat)> {
    if s.len() < 1 {
        None
    } else {
        match host_len(s[0]) {
            None => None,
            Some(n) => {
                if s.len() < n + 4 || s[n + 3] > 1 {
                    None
                } else {
                    Some(
                        (
                            AddressView {
                                host: s.subrange(1, n + 1),
                                port: from_be16(s.subrange(n + 1, n + 3)),
                                mixed: s[n + 3] == 1,
                            },
                            (n + 4) as nat,
                        ),
                    )
                }
            },
        }
    }
}

/// Parsing the wire form of an address gives the address back, whatever
/// follows it.
pub proof fn lemma_address_round_trip(a: AddressView, rest: Seq<u8>)
    requires
        a.wf(),
    ensures
        parse_address(a.wire() + rest) == Some((a, a.wire().len())),
        a.wire().len() == a.host.len() + 4,
{
    let s = a.wire() + rest;
    let n = a.host.len() as int;
    assert(s[0] == a.family());
    assert(host_len(s[0]) == Some(n));
    assert(s.subrange(1, n + 1) =~= a.host);
    assert(s.subrange(n + 1, n + 3) =~= be16(a.port));
    assert(s[n + 3] == a.kind_byte());
}

/// What parses as an address is the wire form of that address.
pub proof fn lemma_address_parse_inverse(s: Seq<u8>, a: AddressView, used: nat)
    requires
        parse_address(s) == Some((a, used)),
    ensures
        a.wf(),
        used <= s.len(),
        a.wire() == s.subrange(0, used as int),
{
    let n = host_len(s[0])->0;
    crate::wire::lemma_from_be16_inverse(s.subrange(n + 1, n + 3));
    assert(be16(a.port) =~= s.subrange(n + 1, n + 3));
    assert(a.wire() =~= s.subrange(0, used as int));
}

impl View for Address {
    type V = AddressView;

    closed spec fn view(&self) -> AddressView {
        AddressView {
            host: match self.host {
                Host::V4(octets) => octets@,
                Host::V6(octets) => octets@,
            },
            port: self.port,
            mixed: self.mixed,
        }
    }
}

impl Address {
    /// A plain TCP address of an IPv4 host.
    pub fn v4(octets: [u8; 4], port: u16) -> (a: Address)
        ensures
            a@ == (AddressView { host: octets@, port, mixed: false }),
    {
        Address { host: Host::V4(octets), port, mixed: false }
    }

    /// A plain TCP address of an IPv6 host.
    pub fn v6(octets: [u8; 16], port: u16) -> (a: Address)
        ensures
            a@ == (AddressView { host: octets@, port, mixed: false }),
    {
        Address { host: Host::V6(octets), port, mixed: false }
    }

    /// Every address has a host of four or of sixteen bytes.
    pub proof fn lemma_wf(self)
        ensures
            self@.wf(),
    {
    }

    pub fn host(&self) -> (h: Host)
        ensures
            match h {
                Host::V4(octets) => octets@ == self@.host,
                Host::V6(octets) => octets@ == self@.host,
            },
    {
        self.host
    }

    pub fn port(&self) -> (p: u16)
        ensures
            p == self@.port,
    {
        self.port
    }

    pub fn is_mixed(&self) -> (m: bool)
        ensures
            m == self@.mixed,
    {
        self.mixed
    }

    /// The same address, marked mixed or plain as `mixed` says.
    pub fn if_stream_mixed(self, mixed: bool) -> (a: Address)
        ensures
            a@ == self@.with_mixed(mixed),
    {
        Address { host: self.host, port: self.port, mixed }
    }

    /// Appends the wire form of this address to `out`.
    pub fn encode_into(&self, out: &mut Vec<u8>)
        ensures
            final(out)@ == old(out)@ + self@.wire(),
    {
        match &self.host {
            Host::V4(octets) => {
                out.push(4);
                let mut i: usize = 0;
                while i < 4
                    invariant
                        i <= 4,
                        out@ == old(out)@ + seq![4u8] + octets@.subrange(0, i as int),
                    decreases 4 - i,
                {
                    out.push(octets[i]);
                    i += 1;
                }
                assert(octets@.subrange(0, 4) =~= octets@);
            },
            Host::V6(octets) => {
                out.push(6);
                let mut i: usize = 0;
                while i < 16
                    invariant
                        i <= 16,
                        out@ == old(out)@ + seq![6u8] + octets@.subrange(0, i as int),
                    decreases 16 - i,
                {
                    out.push(octets[i]);
                    i += 1;
                }
                assert(octets@.subrange(0, 16) =~= octets@);
            },
        }
        put_u16(out, self.port);
        out.push(if self.mixed { 1 } else { 0 });
        assert(out@ =~= old(out)@ + self@.wire());
    }

    /// Reads the address that opens `bytes`, and says how many bytes it took.
    /// Fails with `Decode` exactly where no whole, well-formed address opens
    /// `bytes`.
    pub fn decode(bytes: &[u8]) -> (r: Result<(Address, usize), Error>)
        ensures
            match r {
                Ok((a, used)) => parse_address(bytes@) == Some((a@, used as nat)),
                Err(e) => e@ == crate::error::ErrorView::Decode && parse_address(bytes@) is None,
            },
    {
        if bytes.len() < 1 {
            return Err(Error::Decode);
        }
        let family = bytes[0];
        if family == 4 {
            if bytes.len() < 8 || bytes[7] > 1 {
                return Err(Error::Decode);
            }
            let octets: [u8; 4] = [bytes[1], bytes[2], bytes[3], bytes[4]];
            assert(octets@ =~= bytes@.subrange(1, 5));
            let port = get_u16(bytes, 5);
            Ok((Address { host: Host::V4(octets), port, mixed: bytes[7] == 1 }, 8))
        } else if family == 6 {
            if bytes.len() < 20 || bytes[19] > 1 {
                return Err(Error::Decode);
            }
            let octets: [u8; 16] = [
                bytes[1],
                bytes[2],
                bytes[3],
                bytes[4],
                bytes[5],
                bytes[6],
                bytes[7],
                bytes[8],
                bytes[9],
                bytes[10],
                bytes[11],
                bytes[12],
                bytes[13],
                bytes[14],
                bytes[15],
                bytes[16],
            ];
            assert(octets@ =~= bytes@.subrange(1, 17));
            let port = get_u16(bytes, 17);
            Ok((Address { host: Host::V6(octets), port, mixed: bytes[19] == 1 }, 20))
        } else {
            Err(Error::Decode)
        }
    }
}

} // verus!
