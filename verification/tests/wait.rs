use fuso::wait::WaitFor;

#[test]
fn first_id_is_one_and_ids_count_up() {
    let mut table: WaitFor<&str> = WaitFor::new();
    assert_eq!(table.push("a"), Ok(1));
    assert_eq!(table.push("b"), Ok(2));
    assert_eq!(table.push("c"), Ok(3));
    assert_eq!(table.len(), 3);
}

#[test]
fn id_wrap() {
    let mut table: WaitFor<u8> = WaitFor::resuming_after(0xFFFF_FFFE);
    assert_eq!(table.push(0), Ok(0xFFFF_FFFF));
    assert_eq!(table.push(1), Ok(0));
    assert_eq!(table.push(2), Ok(1));
    assert_eq!(table.push(3), Ok(2));
    assert_eq!(table.len(), 4);
    assert_eq!(table.push(4), Ok(3));
    assert!(table.contains(0xFFFF_FFFF) && table.contains(0) && table.contains(3));
}

#[test]
fn wrap_skips_live_ids() {
    let mut table: WaitFor<u8> = WaitFor::new();
    assert_eq!(table.push(0), Ok(1));
    assert_eq!(table.push(0), Ok(2));
    let mut wrapped: WaitFor<u8> = WaitFor::resuming_after(0xFFFF_FFFF);
    assert_eq!(wrapped.push(9), Ok(0));
    assert_eq!(wrapped.push(9), Ok(1));
    assert_eq!(wrapped.remove(0), Some(9));
    assert_eq!(wrapped.push(9), Ok(2));
}

#[test]
fn live_ids_are_passed_over_after_a_round() {
    let mut table: WaitFor<u8> = WaitFor::resuming_after(0xFFFF_FFFD);
    assert_eq!(table.push(1), Ok(0xFFFF_FFFE));
    assert_eq!(table.push(2), Ok(0xFFFF_FFFF));
    assert_eq!(table.push(3), Ok(0));
    assert_eq!(table.remove(0xFFFF_FFFF), Some(2));
    let mut again: WaitFor<u8> = WaitFor::resuming_after(0xFFFF_FFFE);
    assert_eq!(again.push(1), Ok(0xFFFF_FFFF));
    assert_eq!(again.push(2), Ok(0));
    assert_eq!(again.remove(0), Some(2));
    assert_eq!(again.push(3), Ok(1));
}

#[test]
fn a_freed_id_is_not_handed_out_at_once() {
    let mut table: WaitFor<u8> = WaitFor::new();
    assert_eq!(table.push(1), Ok(1));
    assert_eq!(table.remove(1), Some(1));
    assert_eq!(table.push(2), Ok(2));
    assert!(!table.contains(1));
}

#[test]
fn no_two_live_slots_share_an_id() {
    let mut table: WaitFor<u32> = WaitFor::resuming_after(0xFFFF_FFF0);
    let mut ids = Vec::new();
    for n in 0..64u32 {
        let id = table.push(n).unwrap();
        assert!(!ids.contains(&id));
        ids.push(id);
        if n % 3 == 0 {
            assert_eq!(table.remove(id), Some(n));
            ids.pop();
        }
    }
    assert_eq!(table.len(), ids.len());
    for id in ids {
        assert!(table.contains(id));
    }
}

#[test]
fn remove_gives_the_slot_once() {
    let mut table: WaitFor<String> = WaitFor::new();
    let id = table.push(String::from("slot")).unwrap();
    assert!(table.contains(id));
    assert_eq!(table.remove(id), Some(String::from("slot")));
    assert_eq!(table.remove(id), None);
    assert!(!table.contains(id));
    assert_eq!(table.len(), 0);
}

#[test]
fn remove_of_an_unknown_id_changes_nothing() {
    let mut table: WaitFor<u8> = WaitFor::new();
    let id = table.push(5).unwrap();
    assert_eq!(table.remove(id + 1), None);
    assert_eq!(table.len(), 1);
    assert!(table.contains(id));
}
