//! Unpackers: the classifiers that say what a stream on the public port is.
//!
//! An unpacker looks at the first bytes of a stream, which the wrapper of
//! the stream holds, and answers with a [`Peer`]. It reads nothing itself:
//! the runtime reads until the unpacker has what it wants, then asks.

use vstd::prelude::*;
use std::sync::Arc;
use crate::address::Address;
use crate::error::Error;
use crate::fallback::Fallback;
use crate::packet::{announced_len, parse_packet, Packet, HEADER_LEN};
use crate::protocol::{parse_stream, Message, MessageView, TAG_MAP};
use crate::provider::{Provider, ProviderWrapper};
use crate::server::{Config, NetSocket, Peer, PenetrateProvider, Visitor};

verus! {

/// A shared classifier of streams of type `S`.
pub type Unpacker<S> = ProviderWrapper<Fallback<S>, Peer<Fallback<S>>>;

/// The number of bytes of a mapping packet that carries an IPv4 address.
pub const MAPPING_V4_LEN: usize = 17;

/// The number of bytes of a mapping packet that carries an IPv6 address.
pub const MAPPING_V6_LEN: usize = 29;

/// The id of the mapping packet that opens `held` and the number of bytes the
/// packet takes, if `held` opens with one.
pub open spec fn front_mapping(held: Seq<u8>) -> Option<(u32, nat)> {
    match parse_stream(held) {
        Some((MessageView::Mapping(id, _), used)) => Some((id, used)),
        _ => None,
    }
}

/// How many more bytes the plain unpacker wants before its answer is final:
/// the header first, then, where the header announces what may be a mapping
/// packet, the rest of that packet.
pub open spec fn normal_wants(held: Seq<u8>) -> nat {
    if held.len() < HEADER_LEN {
        (HEADER_LEN - held.len()) as nat
    } else if held[4] != TAG_MAP {
        0
    } else {
        match announced_len(held) {
            Some(total) => if (total == MAPPING_V4_LEN || total == MAPPING_V6_LEN) && held.len()
                < total {
                (total - held.len()) as nat
            } else {
                0
            },
            None => 0,
        }
    }
}

/// Whether `out` is the answer of the plain unpacker for the stream `fb`,
/// where asking the stream for its local address gave `local`: a stream that
/// opens with a mapping packet is the mapper of that id, positioned behind
/// the packet; any other stream is a visitor to be forwarded, untouched, to
/// the local address.
pub open spec fn normal_verdict<S>(
    fb: Fallback<S>,
    local: Result<Address, Error>,
    out: Result<Peer<Fallback<S>>, Error>,
) -> bool {
    match front_mapping(fb@.held()) {
        Some((id, used)) => {
            &&& out matches Ok(Peer::Mapper(i, after))
            &&& i == id
            &&& after.target() == fb.target()
            &&& after@ == fb@.rewound().replayed(used)
        },
        None => match local {
            Ok(addr) => {
                &&& out matches Ok(Peer::Visitor(Visitor::Forward(after), a))
                &&& a == addr
                &&& after == fb
            },
            Err(e) => out == Err::<Peer<Fallback<S>>, Error>(e),
        },
    }
}

/// Once the plain unpacker wants no more, no byte that follows changes what
/// it finds at the front.
pub proof fn lemma_normal_answer_is_final(held: Seq<u8>, more: Seq<u8>)
    requires
        normal_wants(held) == 0,
    ensures
        front_mapping(held + more) == front_mapping(held),
{
    let all = held + more;
    assert(all.subrange(0, 4) =~= held.subrange(0, 4));
    assert(all[4] == held[4]);
    assert(announced_len(all) == announced_len(held));
    if held[4] != TAG_MAP {
    } else {
        match announced_len(held) {
            Some(total) => {
                if total == MAPPING_V4_LEN || total == MAPPING_V6_LEN {
                    assert(held.len() >= total);
                    assert(all.subrange(5, total) =~= held.subrange(5, total));
                } else {
                    if front_mapping(all) is Some {
                        lemma_mapping_lengths(all);
                    }
                    if front_mapping(held) is Some {
                        lemma_mapping_lengths(held);
                    }
                }
            },
            None => {},
        }
    }
}

/// A mapping packet takes seventeen or twenty-nine bytes.
pub proof fn lemma_mapping_lengths(s: Seq<u8>)
    requires
        front_mapping(s) is Some,
    ensures
        announced_len(s) == Some(MAPPING_V4_LEN as int) || announced_len(s) == Some(
            MAPPING_V6_LEN as int,
        ),
{
}

/// The plain unpacker: a stream that opens with a mapping packet is a
/// mapper, every other stream a visitor to be forwarded.
pub struct NormalUnpacker;

impl NormalUnpacker {
    /// How many more bytes should be held before the unpacker is asked.
    pub fn wants(held: &[u8]) -> (n: usize)
        ensures
            n == normal_wants(held@),
    {
        if held.len() < HEADER_LEN {
            HEADER_LEN - held.len()
        } else if held[4] != TAG_MAP {
            0
        } else {
            match Packet::announced(held) {
                Some(total) => {
                    if total == 17 && held.len() < MAPPING_V4_LEN {
                        MAPPING_V4_LEN - held.len()
                    } else if total == 29 && held.len() < MAPPING_V6_LEN {
                        MAPPING_V6_LEN - held.len()
                    } else {
                        0
                    }
                },
                None => 0,
            }
        }
    }

    /// The answer for the stream `fb`, where asking the stream for its local
    /// address gave `local`.
    pub fn classify<S>(fb: Fallback<S>, local: Result<Address, Error>) -> (out: Result<
        Peer<Fallback<S>>,
        Error,
    >)
        ensures
            normal_verdict(fb, local, out),
    {
        let mut fb = fb;
        let found: Option<(u32, usize)> = match fb.back_data() {
            Some(held) => match Message::decode(held) {
                Ok((Message::Mapping(id, _), used)) => Some((id, used)),
                _ => None,
            },
            None => {
                assert(fb@.held() =~= Seq::<u8>::empty());
                None
            },
        };
        match found {
            Some((id, used)) => {
                proof {
                    use_type_invariant(&fb);
                    match parse_packet(fb@.held()) {
                        Some((p, n)) => crate::packet::lemma_packet_parse_inverse(
                            fb@.held(),
                            p,
                            n,
                        ),
                        None => {},
                    }
                }
                fb.backward();
                let _ = fb.replay(used);
                Ok(Peer::Mapper(id, fb))
            },
            None => match local {
                Ok(addr) => Ok(Peer::Visitor(Visitor::Forward(fb), addr)),
                Err(e) => Err(e),
            },
        }
    }
}

impl<S: NetSocket> Provider<Fallback<S>> for NormalUnpacker {
    type Output = Result<Peer<Fallback<S>>, Error>;

    open spec fn yields(&self, fb: Fallback<S>, out: Result<Peer<Fallback<S>>, Error>) -> bool {
        exists|local: Result<Address, Error>| #[trigger]
            fb.is_local(local) && normal_verdict(fb, local, out)
    }

    fn call(&self, fb: Fallback<S>) -> (out: Result<Peer<Fallback<S>>, Error>) {
        let local = fb.local_addr();
        let out = NormalUnpacker::classify(fb, local);
        assert(fb.is_local(local) && normal_verdict(fb, local, out));
        out
    }
}

/// Whether `held` opens like a SOCKS handshake: with the version byte of
/// SOCKS4 or of SOCKS5.
pub open spec fn is_socks(held: Seq<u8>) -> bool {
    held.len() > 0 && (held[0] == 4 || held[0] == 5)
}

/// The SOCKS unpacker: a stream that opens like a SOCKS handshake goes to
/// the handler, which negotiates and names the target; any other stream is
/// left, untouched, to the unpackers that follow.
#[verifier::reject_recursive_types(S)]
pub struct SocksUnpacker<S> {
    handler: Unpacker<S>,
}

impl<S> SocksUnpacker<S> {
    /// The handler of the streams that open like a SOCKS handshake.
    pub closed spec fn handler(&self) -> Unpacker<S> {
        self.handler
    }

    pub fn new(handler: Unpacker<S>) -> (u: Self)
        ensures
            u.handler() == handler,
    {
        SocksUnpacker { handler }
    }

    /// Whether the first byte held is the version byte of SOCKS4 or SOCKS5.
    pub fn detect(held: &[u8]) -> (b: bool)
        ensures
            b == is_socks(held@),
    {
        held.len() > 0 && (held[0] == 4 || held[0] == 5)
    }
}

impl<S> Provider<Fallback<S>> for SocksUnpacker<S> {
    type Output = Result<Peer<Fallback<S>>, Error>;

    open spec fn yields(&self, fb: Fallback<S>, out: Result<Peer<Fallback<S>>, Error>) -> bool {
        if is_socks(fb@.held()) {
            self.handler().allows(fb, out)
        } else {
            out == Ok::<Peer<Fallback<S>>, Error>(Peer::Unknown(fb))
        }
    }

    fn call(&self, fb: Fallback<S>) -> (out: Result<Peer<Fallback<S>>, Error>) {
        let socks = match fb.back_data() {
            Some(held) => SocksUnpacker::<S>::detect(held),
            None => false,
        };
        if socks {
            self.handler.call(fb)
        } else {
            Ok(Peer::Unknown(fb))
        }
    }
}

/// Whether asking `adapters` one after the other may end with `out` for the
/// stream `fb`: the first that does not answer `Unknown` decides, each is
/// handed the stream as the one before it left it, and a failure ends the
/// asking. Where all answer `Unknown`, so does the chain.
pub open spec fn chain_allows<S>(
    adapters: Seq<Unpacker<S>>,
    fb: Fallback<S>,
    out: Result<Peer<Fallback<S>>, Error>,
) -> bool
    decreases adapters.len(),
{
    if adapters.len() == 0 {
        out == Ok::<Peer<Fallback<S>>, Error>(Peer::Unknown(fb))
    } else {
        ||| adapters[0].allows(fb, out) && !(out matches Ok(Peer::Unknown(_)))
        ||| exists|next: Fallback<S>| #[trigger]
            adapters[0].allows(fb, Ok(Peer::Unknown(next))) && chain_allows(
                adapters.skip(1),
                next,
                out,
            )
    }
}

/// Unpackers in a row: the first that recognises a stream decides.
#[verifier::reject_recursive_types(S)]
pub struct UnpackerChain<S> {
    adapters: Vec<Unpacker<S>>,
}

impl<S> UnpackerChain<S> {
    /// The unpackers, in the order in which they are asked.
    pub closed spec fn adapters(&self) -> Seq<Unpacker<S>> {
        self.adapters@
    }

    pub fn new(adapters: Vec<Unpacker<S>>) -> (c: Self)
        ensures
            c.adapters() == adapters@,
    {
        UnpackerChain { adapters }
    }
}

impl<S> Provider<Fallback<S>> for UnpackerChain<S> {
    type Output = Result<Peer<Fallback<S>>, Error>;

    open spec fn yields(&self, fb: Fallback<S>, out: Result<Peer<Fallback<S>>, Error>) -> bool {
        chain_allows(self.adapters(), fb, out)
    }

    fn call(&self, fb: Fallback<S>) -> (out: Result<Peer<Fallback<S>>, Error>) {
        let mut current = fb;
        let mut i: usize = 0;
        assert(self.adapters@.skip(0) =~= self.adapters@);
        while i < self.adapters.len()
            invariant
                i <= self.adapters@.len(),
                forall|out: Result<Peer<Fallback<S>>, Error>|
                    chain_allows(self.adapters@.skip(i as int), current, out) ==> chain_allows(
                        self.adapters@,
                        fb,
                        out,
                    ),
            decreases self.adapters@.len() - i,
        {
            let ghost rest = self.adapters@.skip(i as int);
            let ghost before = current;
            assert(rest[0] == self.adapters@[i as int]);
            assert(rest.skip(1) =~= self.adapters@.skip(i + 1));
            match self.adapters[i].call(current) {
                Ok(Peer::Unknown(next)) => {
                    assert forall|out: Result<Peer<Fallback<S>>, Error>|
                        chain_allows(self.adapters@.skip(i + 1), next, out) implies chain_allows(
                        self.adapters@,
                        fb,
                        out,
                    ) by {
                        assert(rest[0].allows(before, Ok(Peer::Unknown(next))));
                        assert(chain_allows(rest, before, out));
                    }
                    current = next;
                    i += 1;
                },
                decided => {
                    assert(chain_allows(rest, before, decided));
                    return decided;
                },
            }
        }
        assert(self.adapters@.skip(i as int).len() == 0);
        assert(chain_allows(self.adapters@.skip(i as int), current, Ok(Peer::Unknown(current))));
        Ok(Peer::Unknown(current))
    }
}

/// Collects the unpackers of a server, in the order in which they are to be
/// asked.
#[verifier::reject_recursive_types(S)]
pub struct PenetrateAdapterBuilder<S> {
    pub(crate) config: Config,
    pub(crate) adapters: Vec<Unpacker<S>>,
}

/// A builder that waits for the handler of its SOCKS unpacker.
#[verifier::reject_recursive_types(S)]
pub struct PenetrateSocksBuilder<S> {
    pub(crate) adapter_builder: PenetrateAdapterBuilder<S>,
}

impl<S> PenetrateAdapterBuilder<S> {
    pub closed spec fn config(&self) -> Config {
        self.config
    }

    /// The unpackers collected so far.
    pub closed spec fn adapters(&self) -> Seq<Unpacker<S>> {
        self.adapters@
    }

    /// A builder with no unpacker.
    pub fn new(config: Config) -> (b: Self)
        ensures
            b.config() == config,
            b.adapters() == Seq::<Unpacker<S>>::empty(),
    {
        PenetrateAdapterBuilder { config, adapters: Vec::new() }
    }

    /// Adds the plain unpacker behind those collected so far.
    pub fn with_normal_unpacker(self) -> (b: Self) where S: NetSocket + 'static
        ensures
            b.config() == self.config(),
            b.adapters().len() == self.adapters().len() + 1,
            b.adapters().drop_last() == self.adapters(),
            forall|fb: Fallback<S>, out: Result<Peer<Fallback<S>>, Error>|
                #[trigger] b.adapters().last().allows(fb, out) == NormalUnpacker.yields(fb, out),
    {
        let mut b = self;
        b.adapters.push(ProviderWrapper::wrap(NormalUnpacker));
        assert(b.adapters@.drop_last() =~= self.adapters@);
        b
    }

    /// Goes on to the choice of a SOCKS handler.
    pub fn with_socks_unpacker(self) -> (b: PenetrateSocksBuilder<S>)
        ensures
            b.inner() == self,
    {
        PenetrateSocksBuilder { adapter_builder: self }
    }

    /// The greeter of a server that asks the collected unpackers in order.
    pub fn build(self) -> (p: PenetrateProvider<S>) where S: 'static
        ensures
            p.config() == self.config(),
            forall|fb: Fallback<S>, out: Result<Peer<Fallback<S>>, Error>|
                #[trigger] p.unpacker().allows(fb, out) == chain_allows(self.adapters(), fb, out),
    {
        let chain = UnpackerChain::new(self.adapters);
        PenetrateProvider::new(self.config, Arc::new(ProviderWrapper::wrap(chain)))
    }
}

impl<S> PenetrateSocksBuilder<S> {
    /// The builder that this one goes back to.
    pub closed spec fn inner(&self) -> PenetrateAdapterBuilder<S> {
        self.adapter_builder
    }

    /// Adds a SOCKS unpacker that hands its streams to `handler`, behind the
    /// unpackers collected so far.
    pub fn with_handler(self, handler: Unpacker<S>) -> (b: PenetrateAdapterBuilder<S>) where
        S: 'static,

        ensures
            b.config() == self.inner().config(),
            b.adapters().len() == self.inner().adapters().len() + 1,
            b.adapters().drop_last() == self.inner().adapters(),
            forall|fb: Fallback<S>, out: Result<Peer<Fallback<S>>, Error>|
                #[trigger] b.adapters().last().allows(fb, out) == (if is_socks(fb@.held()) {
                    handler.allows(fb, out)
                } else {
                    out == Ok::<Peer<Fallback<S>>, Error>(Peer::Unknown(fb))
                }),
    {
        let mut b = self.adapter_builder;
        b.adapters.push(ProviderWrapper::wrap(SocksUnpacker::new(handler)));
        assert(b.adapters@.drop_last() =~= self.adapter_builder.adapters@);
        b
    }
}

} // verus!
