use fuso::address::{Address, Host};
use fuso::error::Error;
use fuso::packet::Packet;
use fuso::protocol::Message;

fn sample_v6() -> Address {
    Address::v6([0x20, 0x01, 0x0d, 0xb8, 0, 0, 0, 0, 0, 0, 0, 0, 0, 0, 0, 1], 443)
}

fn every_message() -> Vec<Message> {
    vec![
        Message::Ping,
        Message::Bind(Address::v4([0, 0, 0, 0], 7000)),
        Message::Bind(sample_v6()),
        Message::BindOk(Address::v4([10, 1, 2, 3], 65535)),
        Message::BindFailed(Address::v4([0, 0, 0, 0], 80), String::from("address in use")),
        Message::BindFailed(sample_v6(), String::new()),
        Message::Mapping(1, Address::v4([0, 0, 0, 0], 7000).if_stream_mixed(true)),
        Message::Mapping(0xFFFF_FFFF, sample_v6()),
        Message::MapError(7, String::from("refused")),
        Message::MapError(0, String::from("caf\u{e9} \u{1F600}")),
    ]
}

#[test]
fn encoding_then_decoding_gives_the_message_back() {
    for message in every_message() {
        let bytes = message.to_packet_vec().unwrap();
        let (back, used) = Message::decode(&bytes).unwrap();
        assert_eq!(back, message);
        assert_eq!(used, bytes.len());
    }
}

#[test]
fn packet_then_message_gives_the_message_back() {
    for message in every_message() {
        let packet = message.to_packet().unwrap();
        assert_eq!(Message::try_message(&packet), Ok(message));
    }
}

#[test]
fn tags_are_as_the_protocol_names_them() {
    let tags: Vec<u8> = every_message().iter().map(|m| m.to_packet().unwrap().get_tag()).collect();
    assert_eq!(tags, vec![1, 2, 2, 3, 4, 4, 5, 5, 6, 6]);
}

#[test]
fn ping_is_five_bytes() {
    assert_eq!(Message::Ping.to_packet_vec().unwrap(), vec![0, 0, 0, 1, 1]);
    assert_eq!(Message::ping_bytes(), vec![0, 0, 0, 1, 1]);
}

#[test]
fn mapping_request_wire_form() {
    let target = Address::v4([0, 0, 0, 0], 7000).if_stream_mixed(true);
    let bytes = Message::Mapping(1, target).to_packet_vec().unwrap();
    assert_eq!(bytes, vec![0, 0, 0, 13, 5, 0, 0, 0, 1, 4, 0, 0, 0, 0, 0x1B, 0x58, 1]);
    assert_eq!(Message::mapping_bytes(1, &target), bytes);
}

#[test]
fn bind_ok_wire_form() {
    let bound = Address::v4([127, 0, 0, 1], 80);
    let bytes = Message::bind_ok_bytes(&bound);
    assert_eq!(bytes, vec![0, 0, 0, 9, 3, 4, 127, 0, 0, 1, 0, 80, 0]);
    assert_eq!(Message::BindOk(bound).to_packet_vec().unwrap(), bytes);
}

#[test]
fn map_error_wire_form() {
    let bytes = Message::MapError(7, String::from("refused")).to_packet_vec().unwrap();
    assert_eq!(
        bytes,
        vec![0, 0, 0, 12, 6, 0, 0, 0, 7, b'r', b'e', b'f', b'u', b's', b'e', b'd']
    );
}

#[test]
fn bind_failed_carries_address_then_reason() {
    let message = Message::BindFailed(Address::v4([1, 2, 3, 4], 258), String::from("no"));
    assert_eq!(
        message.to_packet_vec().unwrap(),
        vec![0, 0, 0, 11, 4, 4, 1, 2, 3, 4, 1, 2, 0, b'n', b'o']
    );
}

#[test]
fn address_wire_form_v6() {
    let mut out = Vec::new();
    sample_v6().encode_into(&mut out);
    assert_eq!(
        out,
        vec![6, 0x20, 0x01, 0x0d, 0xb8, 0, 0, 0, 0, 0, 0, 0, 0, 0, 0, 0, 1, 1, 187, 0]
    );
    assert_eq!(Address::decode(&out), Ok((sample_v6(), 20)));
}

#[test]
fn address_fields_are_kept() {
    let a = Address::v4([192, 168, 0, 1], 8080);
    assert_eq!(a.host(), Host::V4([192, 168, 0, 1]));
    assert_eq!(a.port(), 8080);
    assert!(!a.is_mixed());
    assert!(a.if_stream_mixed(true).is_mixed());
    assert!(!a.if_stream_mixed(true).if_stream_mixed(false).is_mixed());
    assert_eq!(a.if_stream_mixed(true).port(), 8080);
}

#[test]
fn bad_addresses_are_refused() {
    assert_eq!(Address::decode(&[]), Err(Error::Decode));
    assert_eq!(Address::decode(&[5, 0, 0, 0, 0, 0, 0, 0]), Err(Error::Decode));
    assert_eq!(Address::decode(&[4, 0, 0, 0, 0, 0, 0]), Err(Error::Decode));
    assert_eq!(Address::decode(&[4, 0, 0, 0, 0, 0, 0, 2]), Err(Error::Decode));
    assert_eq!(Address::decode(&[6, 0, 0, 0, 0, 0, 0, 0]), Err(Error::Decode));
}

#[test]
fn unknown_tags_are_refused() {
    assert_eq!(Message::try_message(&Packet::new(0, Vec::new())), Err(Error::Decode));
    assert_eq!(Message::try_message(&Packet::new(7, Vec::new())), Err(Error::Decode));
    assert_eq!(Message::try_message(&Packet::new(255, vec![1])), Err(Error::Decode));
}

#[test]
fn payloads_that_do_not_match_the_tag_are_refused() {
    assert_eq!(Message::try_message(&Packet::new(1, vec![0])), Err(Error::Decode));
    assert_eq!(Message::try_message(&Packet::new(2, vec![4, 0, 0, 0, 0, 0, 80])), Err(Error::Decode));
    assert_eq!(
        Message::try_message(&Packet::new(2, vec![4, 0, 0, 0, 0, 0, 80, 0, 0])),
        Err(Error::Decode)
    );
    assert_eq!(Message::try_message(&Packet::new(5, vec![0, 0, 1])), Err(Error::Decode));
    assert_eq!(Message::try_message(&Packet::new(5, vec![0, 0, 0, 1])), Err(Error::Decode));
    assert_eq!(Message::try_message(&Packet::new(6, vec![0, 0, 1])), Err(Error::Decode));
}

#[test]
fn reasons_must_be_utf8() {
    assert_eq!(
        Message::try_message(&Packet::new(6, vec![0, 0, 0, 7, 0xFF, 0xFE])),
        Err(Error::Decode)
    );
    assert_eq!(
        Message::try_message(&Packet::new(6, vec![0, 0, 0, 7, 0xC3])),
        Err(Error::Decode)
    );
    assert_eq!(
        Message::try_message(&Packet::new(4, vec![4, 1, 2, 3, 4, 0, 80, 0, 0xED, 0xA0, 0x80])),
        Err(Error::Decode)
    );
    assert_eq!(
        Message::try_message(&Packet::new(6, vec![0, 0, 0, 7, 0xC3, 0xA9])),
        Ok(Message::MapError(7, String::from("\u{e9}")))
    );
}

#[test]
fn a_malformed_packet_does_not_lose_the_next_one() {
    let mut stream = Packet::new(9, vec![1, 2, 3]).encode();
    stream.extend_from_slice(&Message::Ping.to_packet_vec().unwrap());
    assert_eq!(Message::decode(&stream), Err(Error::Decode));
    let (_, used) = Packet::take(&stream).unwrap();
    assert_eq!(Message::decode(&stream[used..]), Ok((Message::Ping, 5)));
}

#[test]
fn message_names() {
    let names: Vec<String> = every_message().iter().map(|m| m.name()).collect();
    assert_eq!(
        names,
        vec!["Ping", "Bind", "Bind", "BindOk", "BindFailed", "BindFailed", "Map", "Map", "MapError", "MapError"]
    );
}
