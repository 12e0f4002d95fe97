use std::time::Duration;

use fuso::address::Address;
use fuso::converter::{
    NormalUnpacker, PenetrateAdapterBuilder, SocksUnpacker, Unpacker, UnpackerChain,
    MAPPING_V4_LEN, MAPPING_V6_LEN,
};
use fuso::error::{Error, IoKind};
use fuso::fallback::{Fallback, Mode};
use fuso::protocol::Message;
use fuso::provider::{Provider, ProviderChain, ProviderTransfer, ProviderWrapper};
use fuso::server::{Config, NetSocket, Peer, Visitor};

#[derive(Debug, PartialEq)]
struct Stream(bool);

impl NetSocket for Stream {
    fn peer_addr(&self) -> Result<Address, Error> {
        Ok(Address::v4([10, 0, 0, 2], 5555))
    }

    fn local_addr(&self) -> Result<Address, Error> {
        if self.0 {
            Ok(Address::v4([10, 0, 0, 1], 7000))
        } else {
            Err(Error::Io(IoKind::Other, String::from("no address")))
        }
    }
}

struct Socks;

impl Provider<Fallback<Stream>> for Socks {
    type Output = Result<Peer<Fallback<Stream>>, Error>;

    fn call(&self, fb: Fallback<Stream>) -> Self::Output {
        Ok(Peer::Finished(fb))
    }
}

struct Refuse;

impl Provider<Fallback<Stream>> for Refuse {
    type Output = Result<Peer<Fallback<Stream>>, Error>;

    fn call(&self, _: Fallback<Stream>) -> Self::Output {
        Err(Error::Timeout)
    }
}

struct Add(u32);

impl Provider<u32> for Add {
    type Output = Result<u32, Error>;

    fn call(&self, n: u32) -> Result<u32, Error> {
        n.checked_add(self.0).ok_or(Error::ResourceExhausted)
    }
}

struct Double;

impl Provider<u32> for Double {
    type Output = Result<u32, Error>;

    fn call(&self, n: u32) -> Result<u32, Error> {
        n.checked_mul(2).ok_or(Error::Decode)
    }
}

fn held(bytes: &[u8]) -> Fallback<Stream> {
    let mut fb = Fallback::new(Stream(true), true);
    fb.mark();
    fb.record(bytes).unwrap();
    fb
}

fn config() -> Config {
    Config {
        is_mixed: false,
        max_wait_time: Duration::from_secs(2),
        heartbeat_timeout: Duration::from_secs(30),
        read_timeout: None,
        write_timeout: None,
        fallback_strict_mode: false,
    }
}

#[test]
fn normal_unpacker_wants_the_header_then_the_packet() {
    assert_eq!(NormalUnpacker::wants(b""), 5);
    assert_eq!(NormalUnpacker::wants(b"HE"), 3);
    assert_eq!(NormalUnpacker::wants(b"HELLO"), 0);
    assert_eq!(NormalUnpacker::wants(b"HELLO WORLD"), 0);
    let v4 = Message::mapping_bytes(9, &Address::v4([1, 2, 3, 4], 80));
    let v6 = Message::mapping_bytes(9, &Address::v6([0; 16], 80));
    assert_eq!(v4.len(), MAPPING_V4_LEN);
    assert_eq!(v6.len(), MAPPING_V6_LEN);
    for cut in 5..v4.len() {
        assert_eq!(NormalUnpacker::wants(&v4[..cut]), v4.len() - cut);
    }
    for cut in 5..v6.len() {
        assert_eq!(NormalUnpacker::wants(&v6[..cut]), v6.len() - cut);
    }
    assert_eq!(NormalUnpacker::wants(&v4), 0);
    assert_eq!(NormalUnpacker::wants(&v6), 0);
    assert_eq!(NormalUnpacker::wants(&[0, 0, 0, 14, 5]), 0);
    assert_eq!(NormalUnpacker::wants(&[0xFF, 0xFF, 0xFF, 0xFF, 5]), 0);
    assert_eq!(NormalUnpacker::wants(&[0, 0, 0, 0, 5]), 0);
}

#[test]
fn a_stream_that_opens_with_a_mapping_packet_is_a_mapper() {
    let mut first = Message::mapping_bytes(42, &Address::v4([1, 2, 3, 4], 80));
    first.extend_from_slice(b"tail");
    match NormalUnpacker.call(held(&first)) {
        Ok(Peer::Mapper(id, mut fb)) => {
            assert_eq!(id, 42);
            assert_eq!(fb.mode(), Mode::Rewound);
            assert_eq!(fb.replay(100), b"tail");
            assert_eq!(fb.into_inner(), Stream(true));
        }
        _ => panic!("a mapper"),
    }
    match NormalUnpacker.call(held(&Message::mapping_bytes(0, &Address::v6([9; 16], 1)))) {
        Ok(Peer::Mapper(id, fb)) => {
            assert_eq!(id, 0);
            assert_eq!(fb.mode(), Mode::Forward);
        }
        _ => panic!("a mapper"),
    }
}

#[test]
fn every_other_stream_is_a_visitor_to_be_forwarded() {
    let ping = Message::ping_bytes();
    let cut = &Message::mapping_bytes(42, &Address::v4([1, 2, 3, 4], 80))[..16];
    for first in [&b"HELLO"[..], &b""[..], &ping[..], cut] {
        match NormalUnpacker.call(held(first)) {
            Ok(Peer::Visitor(Visitor::Forward(mut fb), target)) => {
                assert_eq!(target, Address::v4([10, 0, 0, 1], 7000));
                assert_eq!(fb.mode(), Mode::Recording);
                fb.backward();
                assert_eq!(fb.replay(100), first);
            }
            _ => panic!("a visitor"),
        }
    }
}

#[test]
fn a_visitor_without_a_local_address_fails() {
    let fb = Fallback::new(Stream(false), true);
    assert!(matches!(
        NormalUnpacker.call(fb),
        Err(Error::Io(IoKind::Other, _))
    ));
    let fb = Fallback::new(Stream(false), true);
    assert!(matches!(
        NormalUnpacker::classify(fb, Err(Error::Timeout)),
        Err(Error::Timeout)
    ));
    let fb = Fallback::new(Stream(false), true);
    assert!(matches!(
        NormalUnpacker::classify(fb, Ok(Address::v4([8, 8, 8, 8], 53))),
        Ok(Peer::Visitor(Visitor::Forward(_), _))
    ));
}

#[test]
fn socks_signature() {
    assert!(SocksUnpacker::<Stream>::detect(&[5, 1, 0]));
    assert!(SocksUnpacker::<Stream>::detect(&[4]));
    assert!(!SocksUnpacker::<Stream>::detect(&[]));
    assert!(!SocksUnpacker::<Stream>::detect(&[3, 5]));
    assert!(!SocksUnpacker::<Stream>::detect(b"GET /"));
}

#[test]
fn socks_unpacker_passes_other_streams_on() {
    let socks = SocksUnpacker::new(ProviderWrapper::wrap(Socks));
    assert!(matches!(socks.call(held(&[5, 1, 0])), Ok(Peer::Finished(_))));
    match socks.call(held(b"HELLO")) {
        Ok(Peer::Unknown(mut fb)) => {
            fb.backward();
            assert_eq!(fb.replay(10), b"HELLO");
        }
        _ => panic!("not a socks stream"),
    }
}

#[test]
fn the_first_unpacker_that_knows_decides() {
    let adapters: Vec<Unpacker<Stream>> = vec![
        ProviderWrapper::wrap(SocksUnpacker::new(ProviderWrapper::wrap(Socks))),
        ProviderWrapper::wrap(NormalUnpacker),
        ProviderWrapper::wrap(Refuse),
    ];
    let chain = UnpackerChain::new(adapters);
    assert!(matches!(chain.call(held(&[4, 1])), Ok(Peer::Finished(_))));
    assert!(matches!(chain.call(held(b"plain")), Ok(Peer::Visitor(Visitor::Forward(_), _))));
    assert!(matches!(
        chain.call(held(&Message::mapping_bytes(3, &Address::v4([1, 1, 1, 1], 1)))),
        Ok(Peer::Mapper(3, _))
    ));
}

#[test]
fn a_chain_in_which_nobody_knows_answers_unknown() {
    let nobody: UnpackerChain<Stream> = UnpackerChain::new(Vec::new());
    assert!(matches!(nobody.call(held(b"abc")), Ok(Peer::Unknown(_))));
    let socks_only = UnpackerChain::new(vec![ProviderWrapper::wrap(SocksUnpacker::new(
        ProviderWrapper::wrap(Socks),
    ))]);
    assert!(matches!(socks_only.call(held(b"abc")), Ok(Peer::Unknown(_))));
}

#[test]
fn a_failure_ends_the_asking() {
    let chain = UnpackerChain::new(vec![
        ProviderWrapper::wrap(SocksUnpacker::new(ProviderWrapper::wrap(Socks))),
        ProviderWrapper::wrap(Refuse),
        ProviderWrapper::wrap(NormalUnpacker),
    ]);
    assert!(matches!(chain.call(held(b"abc")), Err(Error::Timeout)));
    assert!(matches!(chain.call(held(&[5])), Ok(Peer::Finished(_))));
}

#[test]
fn builder_collects_unpackers_in_order() {
    let provider = PenetrateAdapterBuilder::<Stream>::new(config())
        .with_socks_unpacker()
        .with_handler(ProviderWrapper::wrap(Socks))
        .with_normal_unpacker()
        .build();
    let session = provider
        .establish(Address::v4([1, 1, 1, 1], 1), Ok(Stream(true)), Ok(()))
        .unwrap()
        .into_inner();
    assert!(matches!(session.unpack(held(&[5, 2])), Ok(Peer::Finished(_))));
    assert!(matches!(session.unpack(held(b"hello")), Ok(Peer::Visitor(_, _))));
    let fb = session.accepted(Stream(true));
    assert!(!fb.is_strict());
}

#[test]
fn wrapped_providers_answer_as_the_provider_does() {
    let add: ProviderWrapper<u32, u32> = ProviderWrapper::wrap(Add(3));
    assert_eq!(add.call(4), Ok(7));
    assert_eq!(add.clone().call(u32::MAX), Err(Error::ResourceExhausted));
    let double = ProviderTransfer::wrap(Double);
    assert_eq!(double.call(21), Ok(42));
    assert_eq!(double.clone().call(u32::MAX), Err(Error::Decode));
}

#[test]
fn a_chain_calls_the_first_then_the_second() {
    let chain = ProviderChain::chain(Add(1), Double);
    assert_eq!(chain.call(4), Ok(10));
    let other = ProviderChain::chain(Double, Add(1));
    assert_eq!(other.call(4), Ok(9));
    assert_eq!(chain.call(u32::MAX), Err(Error::ResourceExhausted));
    assert_eq!(other.clone().call(u32::MAX), Err(Error::Decode));
    assert_eq!(chain.call(u32::MAX - 1), Err(Error::Decode));
    let nested = ProviderChain::chain(chain, other);
    assert_eq!(nested.call(0), Ok(5));
}
