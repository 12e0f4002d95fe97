use fuso::outbox::Outbox;
use fuso::packet::Packet;
use fuso::protocol::Message;

#[test]
fn packets_leave_in_the_order_in_which_they_came() {
    let mut outbox = Outbox::new();
    assert!(outbox.is_empty());
    outbox.push(&[1, 2, 3]);
    outbox.push(&[4, 5]);
    assert_eq!(outbox.front(), &[1, 2, 3, 4, 5]);
    outbox.wrote(2);
    assert_eq!(outbox.front(), &[3, 4, 5]);
    outbox.push(&[6]);
    assert_eq!(outbox.front(), &[3, 4, 5, 6]);
    outbox.wrote(4);
    assert!(outbox.is_empty());
    assert_eq!(outbox.front(), &[] as &[u8]);
}

#[test]
fn a_packet_put_in_during_a_write_does_not_cut_into_it() {
    let ping = Message::ping_bytes();
    let map = Message::MapError(3, String::from("busy")).to_packet_vec().unwrap();
    let mut outbox = Outbox::new();
    let mut wire = Vec::new();

    outbox.push(&map);
    wire.extend_from_slice(&outbox.front()[..6]);
    outbox.wrote(6);
    outbox.push(&ping);
    wire.extend_from_slice(&outbox.front()[..3]);
    outbox.wrote(3);
    outbox.push(&ping);
    let rest = outbox.front().to_vec();
    wire.extend_from_slice(&rest);
    outbox.wrote(rest.len());

    let (first, a) = Message::decode(&wire).unwrap();
    let (second, b) = Message::decode(&wire[a..]).unwrap();
    let (third, c) = Message::decode(&wire[a + b..]).unwrap();
    assert_eq!(first, Message::MapError(3, String::from("busy")));
    assert_eq!(second, Message::Ping);
    assert_eq!(third, Message::Ping);
    assert_eq!(a + b + c, wire.len());
    assert!(outbox.is_empty());
}

#[test]
fn a_write_never_counts_more_than_is_pending() {
    let mut outbox = Outbox::new();
    outbox.push(&Packet::new(1, Vec::new()).encode());
    outbox.wrote(100);
    assert!(outbox.is_empty());
    outbox.push(&[7]);
    assert_eq!(outbox.front(), &[7]);
}

#[test]
fn an_empty_packet_changes_nothing() {
    let mut outbox = Outbox::new();
    outbox.push(&[]);
    assert!(outbox.is_empty());
    outbox.push(&[1]);
    outbox.push(&[]);
    assert_eq!(outbox.front(), &[1]);
    outbox.wrote(0);
    assert_eq!(outbox.front(), &[1]);
}
