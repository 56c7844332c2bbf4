use penput::connection::{ApprovalBroker, ApprovalOutcome, ConnectionSlot, PeerId};
use penput::mouse::{MouseController, MoveCmd};
use penput::udp::{
    encode_reply, parse_datagram, udp_on_approval, udp_on_datagram, udp_on_tick, ClientMsg,
    ServerReply, UdpAction, UdpSession,
};

fn peer(n: u128) -> PeerId {
    PeerId { ip: n, port: 9002 }
}

fn hello(w: u16, h: u16) -> Vec<u8> {
    let mut pkt = vec![0x01];
    pkt.extend_from_slice(&w.to_be_bytes());
    pkt.extend_from_slice(&h.to_be_bytes());
    pkt
}

fn mv(x: u16, y: u16) -> Vec<u8> {
    let mut pkt = vec![0x02];
    pkt.extend_from_slice(&x.to_be_bytes());
    pkt.extend_from_slice(&y.to_be_bytes());
    pkt
}

fn ping(t: u64) -> Vec<u8> {
    let mut pkt = vec![0x03];
    pkt.extend_from_slice(&t.to_be_bytes());
    pkt
}

#[test]
fn datagrams_decode_exactly() {
    assert_eq!(
        parse_datagram(&hello(1000, 2000)),
        Some(ClientMsg::Hello { w: 1000, h: 2000 })
    );
    assert_eq!(parse_datagram(&mv(500, 65535)), Some(ClientMsg::Move { x: 500, y: 65535 }));
    assert_eq!(
        parse_datagram(&ping(0x0102030405060708)),
        Some(ClientMsg::Ping { t: 0x0102030405060708 })
    );
}

#[test]
fn undersized_and_unknown_datagrams_are_dropped() {
    assert_eq!(parse_datagram(&vec![]), None);
    assert_eq!(parse_datagram(&vec![0x01, 0, 1, 0]), None);
    assert_eq!(parse_datagram(&vec![0x02, 0, 1, 0]), None);
    assert_eq!(parse_datagram(&vec![0x03, 1, 2, 3, 4, 5, 6, 7]), None);
    assert_eq!(parse_datagram(&vec![0x7f, 0, 0, 0, 0]), None);
}

#[test]
fn replies_encode_exactly() {
    assert_eq!(
        encode_reply(&ServerReply::Accept { w: 1920, h: 1080 }),
        vec![0x10, 0x07, 0x80, 0x04, 0x38]
    );
    assert_eq!(encode_reply(&ServerReply::Reject), vec![0x11]);
    assert_eq!(encode_reply(&ServerReply::Busy), vec![0x12]);
    let mut pong = vec![0x13];
    pong.extend_from_slice(&0x1122334455667788u64.to_be_bytes());
    assert_eq!(encode_reply(&ServerReply::Pong { t: 0x1122334455667788 }), pong);
}

#[test]
fn hello_from_second_peer_yields_busy_and_keeps_session() {
    let mut slot = ConnectionSlot::new();
    let mut mouse = MouseController::new(1920, 1080);
    let mut session = Some(UdpSession { peer: peer(1), client_w: 100, client_h: 200, last_seen: 50 });
    slot.try_claim(peer(1));

    let act = udp_on_datagram(&mut session, &mut slot, &mut mouse, &hello(7, 8), peer(2), 60);
    assert_eq!(act, UdpAction::Reply(ServerReply::Busy));
    assert_eq!(
        session,
        Some(UdpSession { peer: peer(1), client_w: 100, client_h: 200, last_seen: 50 })
    );
    assert_eq!(slot.occupant, Some(peer(1)));
}

#[test]
fn rehello_from_bound_peer_refreshes_and_reaccepts() {
    let mut slot = ConnectionSlot::new();
    let mut mouse = MouseController::new(1920, 1080);
    let mut session = Some(UdpSession { peer: peer(1), client_w: 100, client_h: 200, last_seen: 50 });
    slot.try_claim(peer(1));

    let act = udp_on_datagram(&mut session, &mut slot, &mut mouse, &hello(300, 400), peer(1), 90);
    assert_eq!(act, UdpAction::Reply(ServerReply::Accept { w: 1920, h: 1080 }));
    assert_eq!(
        session,
        Some(UdpSession { peer: peer(1), client_w: 300, client_h: 400, last_seen: 90 })
    );
}

#[test]
fn move_and_ping_from_non_bound_peer_are_ignored() {
    let mut slot = ConnectionSlot::new();
    let mut mouse = MouseController::new(1920, 1080);
    let mut session = Some(UdpSession { peer: peer(1), client_w: 100, client_h: 200, last_seen: 50 });
    slot.try_claim(peer(1));

    let act = udp_on_datagram(&mut session, &mut slot, &mut mouse, &mv(5, 6), peer(2), 60);
    assert_eq!(act, UdpAction::Ignore);
    let act = udp_on_datagram(&mut session, &mut slot, &mut mouse, &ping(42), peer(2), 70);
    assert_eq!(act, UdpAction::Ignore);
    assert_eq!(
        session,
        Some(UdpSession { peer: peer(1), client_w: 100, client_h: 200, last_seen: 50 })
    );
    assert_eq!(mouse.latest, None);
}

#[test]
fn move_and_ping_with_no_session_are_ignored() {
    let mut slot = ConnectionSlot::new();
    let mut mouse = MouseController::new(1920, 1080);
    let mut session: Option<UdpSession> = None;

    let act = udp_on_datagram(&mut session, &mut slot, &mut mouse, &mv(5, 6), peer(1), 60);
    assert_eq!(act, UdpAction::Ignore);
    let act = udp_on_datagram(&mut session, &mut slot, &mut mouse, &ping(42), peer(1), 70);
    assert_eq!(act, UdpAction::Ignore);
    assert_eq!(session, None);
    assert_eq!(slot.occupant, None);
    assert_eq!(mouse.latest, None);
}

#[test]
fn ping_from_bound_peer_echoes_timestamp() {
    let mut slot = ConnectionSlot::new();
    let mut mouse = MouseController::new(1920, 1080);
    let mut session = Some(UdpSession { peer: peer(1), client_w: 100, client_h: 200, last_seen: 50 });
    slot.try_claim(peer(1));

    let act = udp_on_datagram(&mut session, &mut slot, &mut mouse, &ping(0xdeadbeef), peer(1), 95);
    assert_eq!(act, UdpAction::Reply(ServerReply::Pong { t: 0xdeadbeef }));
    assert_eq!(session.unwrap().last_seen, 95);
}

#[test]
fn move_with_zero_viewport_refreshes_but_skips_sink() {
    let mut slot = ConnectionSlot::new();
    let mut mouse = MouseController::new(1920, 1080);
    let mut session = Some(UdpSession { peer: peer(1), client_w: 0, client_h: 200, last_seen: 50 });
    slot.try_claim(peer(1));

    let act = udp_on_datagram(&mut session, &mut slot, &mut mouse, &mv(5, 6), peer(1), 80);
    assert_eq!(act, UdpAction::Ignore);
    assert_eq!(session.unwrap().last_seen, 80);
    assert_eq!(mouse.latest, None);
}

#[test]
fn denied_approval_releases_slot_and_rejects() {
    let mut slot = ConnectionSlot::new();
    let mut mouse = MouseController::new(1920, 1080);
    let mut session: Option<UdpSession> = None;

    let act = udp_on_datagram(&mut session, &mut slot, &mut mouse, &hello(10, 20), peer(1), 0);
    assert_eq!(act, UdpAction::AskApproval { w: 10, h: 20 });
    assert_eq!(slot.occupant, Some(peer(1)));

    let act = udp_on_approval(&mut session, &mut slot, &mouse, peer(1), 10, 20, 0, false);
    assert_eq!(act, UdpAction::Reply(ServerReply::Reject));
    assert_eq!(session, None);
    assert_eq!(slot.occupant, None);
}

#[test]
fn sweep_destroys_session_only_past_the_timeout() {
    let mut slot = ConnectionSlot::new();
    let mut session = Some(UdpSession { peer: peer(1), client_w: 10, client_h: 20, last_seen: 1000 });
    slot.try_claim(peer(1));

    // Exactly at the timeout: still alive.
    assert!(!udp_on_tick(&mut session, &mut slot, 6000));
    assert!(session.is_some());
    assert_eq!(slot.occupant, Some(peer(1)));

    // One past the timeout: destroyed, and the slot claimable again at once.
    assert!(udp_on_tick(&mut session, &mut slot, 6001));
    assert_eq!(session, None);
    assert_eq!(slot.occupant, None);
    assert!(slot.try_claim(peer(2)));
}

#[test]
fn end_to_end_scenario() {
    let mut slot = ConnectionSlot::new();
    let mut broker = ApprovalBroker::new(true);
    let mut mouse = MouseController::new(1920, 1080);
    let mut session: Option<UdpSession> = None;

    let a = peer(1);
    let b = peer(2);

    // Peer A: HELLO(100, 200); auto-approve grants without queueing.
    let act = udp_on_datagram(&mut session, &mut slot, &mut mouse, &hello(100, 200), a, 0);
    assert_eq!(act, UdpAction::AskApproval { w: 100, h: 200 });
    assert_eq!(broker.request_approval(a), ApprovalOutcome::Granted);
    let act = udp_on_approval(&mut session, &mut slot, &mouse, a, 100, 200, 0, true);
    assert_eq!(act, UdpAction::Reply(ServerReply::Accept { w: 1920, h: 1080 }));

    // Peer A: MOVE(50, 100); the sink sees exactly one move with A's viewport.
    let act = udp_on_datagram(&mut session, &mut slot, &mut mouse, &mv(50, 100), a, 100);
    assert_eq!(act, UdpAction::Ignore);
    assert_eq!(
        mouse.take_latest(),
        Some(MoveCmd { client_w: 100, client_h: 200, x: 50, y: 100 })
    );
    assert_eq!(mouse.take_latest(), None);

    // Peer B: HELLO while A is active; busy, session untouched.
    let act = udp_on_datagram(&mut session, &mut slot, &mut mouse, &hello(10, 20), b, 200);
    assert_eq!(act, UdpAction::Reply(ServerReply::Busy));
    assert_eq!(session.unwrap().peer, a);

    // A stays silent past the timeout; the sweep frees the slot.
    assert!(udp_on_tick(&mut session, &mut slot, 100 + 5001));
    assert_eq!(session, None);

    // Peer B's next HELLO now succeeds.
    let act = udp_on_datagram(&mut session, &mut slot, &mut mouse, &hello(10, 20), b, 5200);
    assert_eq!(act, UdpAction::AskApproval { w: 10, h: 20 });
    assert_eq!(broker.request_approval(b), ApprovalOutcome::Granted);
    let act = udp_on_approval(&mut session, &mut slot, &mouse, b, 10, 20, 5200, true);
    assert_eq!(act, UdpAction::Reply(ServerReply::Accept { w: 1920, h: 1080 }));
    assert_eq!(session.unwrap().peer, b);
}
