use ep_server::capability::{Capability, EpCap};
use ep_server::endpoint::{Ep, MintFailure, FIRST_BADGE};
use ep_server::server::{take_lowest_bit, Action, Dispatch, EpServer, IpcMessage, ReceiveSlot, SysError};

fn message(badge: Option<usize>, cap_transfer: bool) -> Result<IpcMessage, SysError> {
    Ok(IpcMessage::Message { payload: vec![7, 8], need_reply: false, cap_transfer, badge })
}

fn server() -> EpServer {
    EpServer::new(Capability::new(3))
}

#[test]
fn first_badge_is_one_hundred() {
    let root: EpCap = Capability::new(9);
    let mut ep = Ep::from_unbadged(root);
    assert_eq!(FIRST_BADGE, 100);
    assert_eq!(ep.peek_badge(), 100);
    assert_eq!(ep.root(), 9);
    let (badge, cap) = ep.derive_badged_cap(Some(40)).unwrap();
    assert_eq!(badge, 100);
    assert_eq!(cap.slot, 40);
    assert_eq!(ep.peek_badge(), 101);
}

#[test]
fn derived_badges_are_pairwise_distinct() {
    let mut ep = Ep::from_unbadged(Capability::new(1));
    let mut seen: Vec<usize> = Vec::new();
    for slot in 0..200usize {
        let (badge, cap) = ep.derive_badged_cap(Some(slot + 10)).unwrap();
        assert!(badge >= 100);
        assert_ne!(badge, 0);
        assert!(!seen.contains(&badge));
        assert_eq!(cap.slot, slot + 10);
        seen.push(badge);
    }
    assert_eq!(seen.len(), 200);
}

#[test]
fn derivation_without_a_slot_hands_out_nothing() {
    let mut ep = Ep::from_unbadged(Capability::new(1));
    assert!(ep.derive_badged_cap(None).is_none());
    assert_eq!(ep.peek_badge(), 100);
    let (badge, _) = ep.derive_badged_cap(Some(5)).unwrap();
    assert_eq!(badge, 100);
}

#[test]
fn mint_request_names_root_slot_destination_and_badge() {
    let mut ep = Ep::from_unbadged(Capability::new(12));
    let (badge, cap) = ep.derive_badged_cap(Some(77)).unwrap();
    let req = ep.mint_request(cap.slot, badge);
    assert_eq!(req.args, [12, 77, 100, 0, 0, 0]);
    assert_eq!(req.info.length, 2);
}

#[test]
fn server_derives_from_its_own_counter() {
    let mut s = server();
    let (a, ca) = s.derive_badged_cap(Some(20)).unwrap();
    let (b, cb) = s.derive_badged_cap(Some(21)).unwrap();
    assert_eq!((a, ca.slot), (100, 20));
    assert_eq!((b, cb.slot), (101, 21));
    assert!(s.derive_badged_cap(None).is_none());
    let (c, _) = s.derive_badged_cap(Some(22)).unwrap();
    assert_eq!(c, 102);
}

#[test]
fn inserted_handler_receives_its_badge() {
    let mut s = server();
    s.insert_event(100, 11);
    s.insert_event(101, 12);
    let out = s.dispatch(50, &message(Some(100), false));
    assert_eq!(
        out,
        Dispatch {
            action: Action::Deliver { handler: 11, cap_transfer_slot: None },
            release: None,
            slot_consumed: false,
        }
    );
    let out = s.dispatch(50, &message(Some(101), true));
    assert_eq!(
        out,
        Dispatch {
            action: Action::Deliver { handler: 12, cap_transfer_slot: Some(50) },
            release: None,
            slot_consumed: true,
        }
    );
}

#[test]
fn insert_replaces_the_handler_of_a_badge() {
    let mut s = server();
    s.insert_event(100, 11);
    s.insert_event(100, 99);
    assert_eq!(s.event_handler(100), Some(99));
    let out = s.dispatch(50, &message(Some(100), false));
    assert_eq!(out.action, Action::Deliver { handler: 99, cap_transfer_slot: None });
}

#[test]
fn removed_handler_receives_nothing() {
    let mut s = server();
    s.insert_event(100, 11);
    s.insert_event(101, 12);
    s.remove_event(100);
    assert_eq!(s.event_handler(100), None);
    assert_eq!(s.event_handler(101), Some(12));
    let out = s.dispatch(50, &message(Some(100), false));
    assert_eq!(
        out,
        Dispatch { action: Action::UnknownBadge { badge: 100 }, release: None, slot_consumed: false }
    );
    s.remove_event(100);
    assert_eq!(s.event_handler(100), None);
}

#[test]
fn dropped_message_with_a_capability_releases_the_slot() {
    let s = server();
    let out = s.dispatch(50, &message(Some(555), true));
    assert_eq!(
        out,
        Dispatch { action: Action::UnknownBadge { badge: 555 }, release: Some(50), slot_consumed: true }
    );
    let out = s.dispatch(51, &message(None, true));
    assert_eq!(out, Dispatch { action: Action::Unbadged, release: Some(51), slot_consumed: true });
}

#[test]
fn only_registered_bit_of_mask_is_called() {
    let mut s = server();
    s.insert_notification(5, 70);
    let mask: u64 = (1 << 2) | (1 << 5) | (1 << 9);
    let out = s.dispatch(50, &Ok(IpcMessage::Notification(mask)));
    assert_eq!(
        out,
        Dispatch { action: Action::Notify { calls: vec![(5, 70)] }, release: None, slot_consumed: false }
    );
}

#[test]
fn set_bits_are_called_in_ascending_order_once_each() {
    let mut s = server();
    s.insert_notification(63, 1);
    s.insert_notification(0, 2);
    s.insert_notification(9, 3);
    s.insert_notification(31, 4);
    assert_eq!(s.notified(u64::MAX), vec![(0, 2), (9, 3), (31, 4), (63, 1)]);
    assert_eq!(s.notified((1 << 9) | (1 << 63)), vec![(9, 3), (63, 1)]);
    assert_eq!(s.notified(1 << 9), vec![(9, 3)]);
    assert_eq!(s.notified((1 << 9) | (1 << 10) | (1 << 8)), vec![(9, 3)]);
    assert_eq!(s.notified(0), Vec::<(usize, usize)>::new());
}

#[test]
fn notification_handler_can_be_replaced() {
    let mut s = server();
    s.insert_notification(7, 1);
    s.insert_notification(7, 2);
    assert_eq!(s.notified(1 << 7), vec![(7, 2)]);
}

#[test]
fn failed_receive_is_reported_and_nothing_else() {
    let s = server();
    let out = s.dispatch(50, &Err(SysError { code: 4 }));
    assert_eq!(
        out,
        Dispatch { action: Action::Failed { error: SysError { code: 4 } }, release: None, slot_consumed: false }
    );
}

#[test]
fn unbadged_then_registered_message_still_fires() {
    let mut s = server();
    s.insert_event(100, 11);
    let first = s.dispatch(50, &message(None, false));
    assert_eq!(first, Dispatch { action: Action::Unbadged, release: None, slot_consumed: false });
    let second = s.dispatch(50, &message(Some(4242), false));
    assert_eq!(second.action, Action::UnknownBadge { badge: 4242 });
    let third = s.dispatch(50, &message(Some(100), false));
    assert_eq!(third.action, Action::Deliver { handler: 11, cap_transfer_slot: None });
}

#[test]
fn receive_slot_is_reused_until_a_capability_arrives() {
    let mut slot = ReceiveSlot::new(30);
    assert_eq!(slot.ready(), Some(30));
    slot.after_receive(&message(Some(1), false));
    assert_eq!(slot.ready(), Some(30));
    slot.after_receive(&Ok(IpcMessage::Notification(3)));
    assert_eq!(slot.ready(), Some(30));
    slot.after_receive(&Err(SysError { code: 1 }));
    assert_eq!(slot.ready(), Some(30));
    assert!(!slot.replace(31));
    assert_eq!(slot.ready(), Some(30));
}

#[test]
fn consumed_receive_slot_is_never_used_again() {
    let mut slot = ReceiveSlot::new(30);
    let mut next_free: usize = 31;
    let mut used: Vec<usize> = Vec::new();
    for _ in 0..10 {
        let current = slot.ready().unwrap();
        assert!(!used.contains(&current));
        used.push(current);
        slot.after_receive(&message(Some(1), true));
        assert_eq!(slot.ready(), None);
        assert!(!slot.replace(current));
        assert_eq!(slot.ready(), None);
        assert!(slot.replace(next_free));
        next_free += 1;
    }
    assert_eq!(used, vec![30, 31, 32, 33, 34, 35, 36, 37, 38, 39]);
}

#[test]
fn refused_mint_names_the_slot_to_release() {
    let mut ep = Ep::from_unbadged(Capability::new(1));
    let derived = ep.derive_badged_cap(Some(44)).unwrap();
    let out = Ep::conclude(derived, Err(SysError { code: 9 }));
    assert_eq!(out.err(), Some(MintFailure { error: SysError { code: 9 }, release: 44 }));
    let derived = ep.derive_badged_cap(Some(45)).unwrap();
    let (badge, cap) = Ep::conclude(derived, Ok(())).unwrap();
    assert_eq!((badge, cap.slot), (101, 45));
}

#[test]
fn handed_on_receive_slot_must_be_replaced() {
    let mut slot = ReceiveSlot::new(30);
    slot.consume();
    assert_eq!(slot.ready(), None);
    assert!(!slot.replace(30));
    assert!(slot.replace(31));
    assert_eq!(slot.ready(), Some(31));
}

#[test]
fn lowest_bit_is_taken_and_cleared() {
    assert_eq!(take_lowest_bit(0), None);
    assert_eq!(take_lowest_bit(0b100100), Some((2, 0b100000)));
    assert_eq!(take_lowest_bit(1), Some((0, 0)));
    assert_eq!(take_lowest_bit(1 << 63), Some((63, 0)));
    assert_eq!(take_lowest_bit(u64::MAX), Some((0, u64::MAX - 1)));
    let mut mask: u64 = (1 << 2) | (1 << 5) | (1 << 9);
    let mut bits: Vec<usize> = Vec::new();
    while let Some((bit, rest)) = take_lowest_bit(mask) {
        bits.push(bit);
        mask = rest;
    }
    assert_eq!(bits, vec![2, 5, 9]);
    assert_eq!(mask, 0);
}
