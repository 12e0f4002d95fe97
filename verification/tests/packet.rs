use fuso::error::Error;
use fuso::packet::{Packet, HEADER_LEN, MAX_PAYLOAD};

#[test]
fn test_packet() {
    let packet = Packet::new(1, "Hello".into());

    println!("{:?}", Packet::size());
    println!("{:?}", packet);

    assert_eq!(5, packet.get_len());

    let data = packet.encode();

    println!("len: {}, raw: {:?}", data.len(), data);

    let packet = Packet::decode_data(&data).unwrap();

    println!("data len: {}, {:?}", packet.get_len(), packet.get_data());
}

#[test]
fn packet_wire_form_is_length_tag_payload() {
    let packet = Packet::new(1, "Hello".into());
    let data = packet.encode();
    assert_eq!(data, vec![0, 0, 0, 6, 1, b'H', b'e', b'l', b'l', b'o']);
    assert_eq!(Packet::size(), HEADER_LEN);
    assert_eq!(Packet::size(), 5);
}

#[test]
fn packet_round_trip_keeps_tag_and_payload() {
    let packet = Packet::new(200, vec![9, 8, 7]);
    let back = Packet::decode_data(&packet.encode()).unwrap();
    assert_eq!(back, packet);
    assert_eq!(back.get_tag(), 200);
    assert_eq!(back.get_data(), &vec![9, 8, 7]);
}

#[test]
fn empty_payload_is_a_packet() {
    let packet = Packet::new(1, Vec::new());
    assert!(packet.fits());
    let data = packet.encode();
    assert_eq!(data, vec![0, 0, 0, 1, 1]);
    assert_eq!(Packet::decode_data(&data).unwrap().get_len(), 0);
}

#[test]
fn length_field_counts_tag_and_payload_big_endian() {
    let packet = Packet::new(7, vec![0u8; 300]);
    let data = packet.encode();
    assert_eq!(&data[0..5], &[0, 0, 1, 45, 7]);
    assert_eq!(data.len(), 305);
}

#[test]
fn take_stops_where_the_packet_ends() {
    let mut data = Packet::new(3, vec![1, 2]).encode();
    data.extend_from_slice(&[0xAA, 0xBB, 0xCC]);
    let (packet, used) = Packet::take(&data).unwrap();
    assert_eq!(used, 7);
    assert_eq!(packet, Packet::new(3, vec![1, 2]));
}

#[test]
fn decode_data_refuses_trailing_bytes() {
    let mut data = Packet::new(3, vec![1, 2]).encode();
    data.push(0);
    assert_eq!(Packet::decode_data(&data), Err(Error::Decode));
}

#[test]
fn truncated_packets_are_refused() {
    let data = Packet::new(3, vec![1, 2, 3, 4]).encode();
    for cut in 0..data.len() {
        assert_eq!(Packet::take(&data[..cut]), Err(Error::Decode));
        assert_eq!(Packet::decode_data(&data[..cut]), Err(Error::Decode));
    }
}

#[test]
fn a_length_of_zero_is_refused() {
    assert_eq!(Packet::take(&[0, 0, 0, 0, 1, 2, 3]), Err(Error::Decode));
    assert_eq!(Packet::announced(&[0, 0, 0, 0, 1]), None);
}

#[test]
fn announced_gives_the_whole_length() {
    assert_eq!(Packet::announced(&[0, 0, 0]), None);
    assert_eq!(Packet::announced(&[0, 0, 0, 13]), Some(17));
    assert_eq!(Packet::announced(&[0xFF, 0xFF, 0xFF, 0xFF, 9]), Some(0x1_0000_0003));
}

#[test]
fn two_packets_in_a_row_are_read_one_after_the_other() {
    let first = Packet::new(1, Vec::new());
    let second = Packet::new(5, vec![4, 4, 4]);
    let mut stream = first.encode();
    stream.extend_from_slice(&second.encode());
    let (a, used) = Packet::take(&stream).unwrap();
    let (b, rest) = Packet::take(&stream[used..]).unwrap();
    assert_eq!(a, first);
    assert_eq!(b, second);
    assert_eq!(used + rest, stream.len());
}

#[test]
fn small_payloads_fit() {
    assert!(Packet::new(0, vec![0u8; 1024]).fits());
    assert_eq!(MAX_PAYLOAD, 0xFFFF_FFFE);
}
