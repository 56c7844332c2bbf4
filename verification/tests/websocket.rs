use penput::connection::{ConnectionSlot, PeerId};
use penput::mouse::{MouseController, MoveCmd};
use penput::websocket::{
    encode_pong_text, encode_remote_screen_text, ws_on_approval, ws_on_connect, ws_on_message,
    WsAction, WsApprovalAction, WsConnectAction, WsIncoming, WsSession,
};

fn peer(n: u128) -> PeerId {
    PeerId { ip: n, port: 9001 }
}

#[test]
fn busy_slot_notifies_and_never_reaches_approval() {
    let mut slot = ConnectionSlot::new();
    assert!(slot.try_claim(peer(1)));
    let act = ws_on_connect(&mut slot, peer(2));
    assert_eq!(act, WsConnectAction::NotifyBusy);
    assert_eq!(slot.occupant, Some(peer(1)));
}

#[test]
fn empty_slot_claims_and_awaits_approval() {
    let mut slot = ConnectionSlot::new();
    let act = ws_on_connect(&mut slot, peer(1));
    assert_eq!(act, WsConnectAction::AwaitApproval);
    assert_eq!(slot.occupant, Some(peer(1)));
}

#[test]
fn denial_never_leaves_the_slot_occupied() {
    let mut slot = ConnectionSlot::new();
    let mouse = MouseController::new(1920, 1080);
    assert_eq!(ws_on_connect(&mut slot, peer(1)), WsConnectAction::AwaitApproval);
    let act = ws_on_approval(&mut slot, &mouse, false);
    assert_eq!(act, WsApprovalAction::NotifyRejected);
    assert_eq!(slot.occupant, None);
}

#[test]
fn approval_announces_screen_size() {
    let mut slot = ConnectionSlot::new();
    let mouse = MouseController::new(1920, 1080);
    assert_eq!(ws_on_connect(&mut slot, peer(1)), WsConnectAction::AwaitApproval);
    let act = ws_on_approval(&mut slot, &mouse, true);
    assert_eq!(act, WsApprovalAction::Accepted { screen_w: 1920, screen_h: 1080 });
    assert_eq!(slot.occupant, Some(peer(1)));
}

#[test]
fn init_records_viewport_without_reply() {
    let mut sess = WsSession::new();
    let mut mouse = MouseController::new(1920, 1080);
    let act = ws_on_message(&mut sess, &mut mouse, &WsIncoming::Init { width: 1000, height: 2000 });
    assert_eq!(act, WsAction::NoReply);
    assert_eq!((sess.width, sess.height), (1000, 2000));
}

#[test]
fn ping_echoes_timestamp_in_pong() {
    let mut sess = WsSession::new();
    let mut mouse = MouseController::new(1920, 1080);
    let act = ws_on_message(&mut sess, &mut mouse, &WsIncoming::Ping { t: 0xfeedface });
    assert_eq!(act, WsAction::SendPong { t: 0xfeedface });
}

#[test]
fn coordinates_before_init_are_ignored() {
    let mut sess = WsSession::new();
    let mut mouse = MouseController::new(1920, 1080);
    let act = ws_on_message(&mut sess, &mut mouse, &WsIncoming::Binary(vec![0, 50, 0, 100]));
    assert_eq!(act, WsAction::NoReply);
    assert_eq!(mouse.latest, None);
}

#[test]
fn coordinates_after_init_reach_the_sink() {
    let mut sess = WsSession::new();
    let mut mouse = MouseController::new(1920, 1080);
    ws_on_message(&mut sess, &mut mouse, &WsIncoming::Init { width: 100, height: 200 });
    let act = ws_on_message(&mut sess, &mut mouse, &WsIncoming::Binary(vec![0, 50, 0, 100]));
    assert_eq!(act, WsAction::NoReply);
    assert_eq!(
        mouse.take_latest(),
        Some(MoveCmd { client_w: 100, client_h: 200, x: 50, y: 100 })
    );
}

#[test]
fn short_binary_frames_are_ignored() {
    let mut sess = WsSession::new();
    let mut mouse = MouseController::new(1920, 1080);
    ws_on_message(&mut sess, &mut mouse, &WsIncoming::Init { width: 100, height: 200 });
    let act = ws_on_message(&mut sess, &mut mouse, &WsIncoming::Binary(vec![0, 50, 0]));
    assert_eq!(act, WsAction::NoReply);
    assert_eq!(mouse.latest, None);
}

#[test]
fn pong_text_is_exact() {
    assert_eq!(encode_pong_text(0), b"{\"type\":\"pong\",\"t\":0}".to_vec());
    assert_eq!(
        encode_pong_text(1234567890123),
        b"{\"type\":\"pong\",\"t\":1234567890123}".to_vec()
    );
    assert_eq!(
        encode_pong_text(u64::MAX),
        b"{\"type\":\"pong\",\"t\":18446744073709551615}".to_vec()
    );
}

#[test]
fn remote_screen_text_is_exact() {
    assert_eq!(
        encode_remote_screen_text(1920, 1080),
        b"{\"type\":\"remote_screen\",\"width\":1920,\"height\":1080}".to_vec()
    );
    assert_eq!(
        encode_remote_screen_text(1, 65535),
        b"{\"type\":\"remote_screen\",\"width\":1,\"height\":65535}".to_vec()
    );
}

#[test]
fn other_text_is_ignored_and_close_stops() {
    let mut sess = WsSession::new();
    let mut mouse = MouseController::new(1920, 1080);
    assert_eq!(ws_on_message(&mut sess, &mut mouse, &WsIncoming::OtherText), WsAction::NoReply);
    assert_eq!(ws_on_message(&mut sess, &mut mouse, &WsIncoming::Closed), WsAction::Stop);
}
