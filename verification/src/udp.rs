//! The UDP session protocol: a single shared session slot over an unordered,
//! unreliable datagram transport. Binary framing with big-endian fields, a
//! hello/accept handshake controlled by the connection slot and the approval
//! broker, fire-and-forget moves, ping/pong echo, and a liveness sweep that
//! destroys the session after a fixed quiet period.
//!
//! The listener loop around these functions receives datagrams, drives the
//! steps below, sends the replies they return, and asks the broker for a
//! decision when a step requests one.

use vstd::prelude::*;

use crate::connection::{after_claim, after_release, claim_ok, ConnectionSlot, PeerId};
use crate::mouse::{after_move, MouseController};

verus! {

/// Client-to-server tag: hello, carrying the client viewport size.
pub const MSG_HELLO: u8 = 0x01;

/// Client-to-server tag: move, carrying a touch position.
pub const MSG_MOVE: u8 = 0x02;

/// Client-to-server tag: ping, carrying a timestamp to echo.
pub const MSG_PING: u8 = 0x03;

/// Server-to-client tag: accept, carrying the desktop screen size.
pub const MSG_ACCEPT: u8 = 0x10;

/// Server-to-client tag: the approval was denied.
pub const MSG_REJECT: u8 = 0x11;

/// Server-to-client tag: another session is active.
pub const MSG_BUSY: u8 = 0x12;

/// Server-to-client tag: pong, echoing the ping's timestamp.
pub const MSG_PONG: u8 = 0x13;

/// Quiet period (in milliseconds) after which the liveness sweep destroys
/// the session.
pub const SESSION_TIMEOUT_MS: u64 = 5000;

/// The live UDP session: the sole peer allowed to drive it, its last
/// reported viewport, and when it was last heard from.
#[derive(Clone, Copy, PartialEq, Eq, Structural, Debug)]
pub struct UdpSession {
    pub peer: PeerId,
    pub client_w: u16,
    pub client_h: u16,
    pub last_seen: u64,
}

/// A datagram from a client, decoded.
#[derive(Clone, Copy, PartialEq, Eq, Structural, Debug)]
pub enum ClientMsg {
    Hello { w: u16, h: u16 },
    Move { x: u16, y: u16 },
    Ping { t: u64 },
}

/// A reply for the server to send.
#[derive(Clone, Copy, PartialEq, Eq, Structural, Debug)]
pub enum ServerReply {
    Accept { w: u16, h: u16 },
    Reject,
    Busy,
    Pong { t: u64 },
}

/// What the listener must do after a step: send a reply, ask the approval
/// broker about the claiming peer (then report the decision through
/// `udp_on_approval`), or nothing at all.
#[derive(Clone, Copy, PartialEq, Eq, Structural, Debug)]
pub enum UdpAction {
    Reply(ServerReply),
    AskApproval { w: u16, h: u16 },
    Ignore,
}

/// The big-endian 16-bit value spelled by two bytes.
pub open spec fn be16(hi: u8, lo: u8) -> u16 {
    ((hi as int) * 0x100 + (lo as int)) as u16
}

/// The big-endian 64-bit value spelled by eight bytes, most significant
/// first.
pub open spec fn be64(b0: u8, b1: u8, b2: u8, b3: u8, b4: u8, b5: u8, b6: u8, b7: u8) -> u64 {
    ((b0 as int) * 0x0100000000000000 + (b1 as int) * 0x0001000000000000 + (b2 as int)
        * 0x0000010000000000 + (b3 as int) * 0x0000000100000000 + (b4 as int) * 0x0000000001000000
        + (b5 as int) * 0x0000000000010000 + (b6 as int) * 0x0000000000000100 + (b7 as int)) as u64
}

/// How an inbound datagram decodes: a tag byte selects the message, and an
/// undersized payload for that tag (or an unknown tag, or an empty
/// datagram) decodes to nothing and is silently dropped.
pub open spec fn spec_parse_datagram(b: Seq<u8>) -> Option<ClientMsg> {
    if b.len() == 0 {
        None
    } else if b[0] == MSG_HELLO {
        if b.len() >= 5 {
            Some(ClientMsg::Hello { w: be16(b[1], b[2]), h: be16(b[3], b[4]) })
        } else {
            None
        }
    } else if b[0] == MSG_MOVE {
        if b.len() >= 5 {
            Some(ClientMsg::Move { x: be16(b[1], b[2]), y: be16(b[3], b[4]) })
        } else {
            None
        }
    } else if b[0] == MSG_PING {
        if b.len() >= 9 {
            Some(ClientMsg::Ping { t: be64(b[1], b[2], b[3], b[4], b[5], b[6], b[7], b[8]) })
        } else {
            None
        }
    } else {
        None
    }
}

/// The exact bytes of a server reply.
pub open spec fn spec_encode_reply(r: ServerReply) -> Seq<u8> {
    match r {
        ServerReply::Accept { w, h } => seq![
            MSG_ACCEPT,
            (w / 0x100) as u8,
            (w % 0x100) as u8,
            (h / 0x100) as u8,
            (h % 0x100) as u8,
        ],
        ServerReply::Reject => seq![MSG_REJECT],
        ServerReply::Busy => seq![MSG_BUSY],
        ServerReply::Pong { t } => seq![
            MSG_PONG,
            ((t / 0x0100000000000000) % 0x100) as u8,
            ((t / 0x0001000000000000) % 0x100) as u8,
            ((t / 0x0000010000000000) % 0x100) as u8,
            ((t / 0x0000000100000000) % 0x100) as u8,
            ((t / 0x0000000001000000) % 0x100) as u8,
            ((t / 0x0000000000010000) % 0x100) as u8,
            ((t / 0x0000000000000100) % 0x100) as u8,
            (t % 0x100) as u8,
        ],
    }
}

pub(crate) fn read_be16(hi: u8, lo: u8) -> (r: u16)
    ensures
        r == be16(hi, lo),
{
    (hi as u16) * 0x100 + (lo as u16)
}

fn read_be64(b0: u8, b1: u8, b2: u8, b3: u8, b4: u8, b5: u8, b6: u8, b7: u8) -> (r: u64)
    ensures
        r == be64(b0, b1, b2, b3, b4, b5, b6, b7),
{
    (b0 as u64) * 0x0100000000000000 + (b1 as u64) * 0x0001000000000000 + (b2 as u64)
        * 0x0000010000000000 + (b3 as u64) * 0x0000000100000000 + (b4 as u64) * 0x0000000001000000
        + (b5 as u64) * 0x0000000000010000 + (b6 as u64) * 0x0000000000000100 + (b7 as u64)
}

/// Decode one inbound datagram. Undersized or unrecognized datagrams decode
/// to `None`: they are dropped without a reply.
pub fn parse_datagram(pkt: &Vec<u8>) -> (r: Option<ClientMsg>)
    ensures
        r == spec_parse_datagram(pkt@),
{
    if pkt.len() == 0 {
        return None;
    }
    let tag = pkt[0];
    if tag == MSG_HELLO {
        if pkt.len() < 5 {
            return None;
        }
        Some(ClientMsg::Hello { w: read_be16(pkt[1], pkt[2]), h: read_be16(pkt[3], pkt[4]) })
    } else if tag == MSG_MOVE {
        if pkt.len() < 5 {
            return None;
        }
        Some(ClientMsg::Move { x: read_be16(pkt[1], pkt[2]), y: read_be16(pkt[3], pkt[4]) })
    } else if tag == MSG_PING {
        if pkt.len() < 9 {
            return None;
        }
        Some(
            ClientMsg::Ping {
                t: read_be64(pkt[1], pkt[2], pkt[3], pkt[4], pkt[5], pkt[6], pkt[7], pkt[8]),
            },
        )
    } else {
        None
    }
}

/// Encode one server reply into the exact bytes to send.
pub fn encode_reply(r: &ServerReply) -> (out: Vec<u8>)
    ensures
        out@ == spec_encode_reply(*r),
{
    let mut out: Vec<u8> = Vec::new();
    match r {
        ServerReply::Accept { w, h } => {
            out.push(MSG_ACCEPT);
            out.push((*w / 0x100) as u8);
            out.push((*w % 0x100) as u8);
            out.push((*h / 0x100) as u8);
            out.push((*h % 0x100) as u8);
        },
        ServerReply::Reject => {
            out.push(MSG_REJECT);
        },
        ServerReply::Busy => {
            out.push(MSG_BUSY);
        },
        ServerReply::Pong { t } => {
            out.push(MSG_PONG);
            out.push(((*t / 0x0100000000000000) % 0x100) as u8);
            out.push(((*t / 0x0001000000000000) % 0x100) as u8);
            out.push(((*t / 0x0000010000000000) % 0x100) as u8);
            out.push(((*t / 0x0000000100000000) % 0x100) as u8);
            out.push(((*t / 0x0000000001000000) % 0x100) as u8);
            out.push(((*t / 0x0000000000010000) % 0x100) as u8);
            out.push(((*t / 0x0000000000000100) % 0x100) as u8);
            out.push((*t % 0x100) as u8);
        },
    }
    proof {
        assert(out@ =~= spec_encode_reply(*r));
    }
    out
}

/// A session bound to `s.peer`, refreshed: same peer and viewport, heard
/// from at `now`.
pub open spec fn refreshed(s: UdpSession, now: u64) -> UdpSession {
    UdpSession { last_seen: now, ..s }
}

/// The session has been quiet for longer than the configured timeout.
pub open spec fn session_expired(s: UdpSession, now: u64) -> bool {
    now > s.last_seen + SESSION_TIMEOUT_MS
}

/// The joint invariant of the session and the connection slot: while a UDP
/// session is live, the slot is held by exactly its bound peer.
pub open spec fn udp_inv(sess: Option<UdpSession>, slot: ConnectionSlot) -> bool {
    sess matches Some(s) ==> slot.occupant == Some(s.peer)
}

/// One datagram against the listener state: the next session and slot
/// state, the pointer sink's state, and the action to perform.
///
/// - Hello from the bound peer refreshes the session and re-sends accept.
/// - Hello from another peer while a session is live: busy, nothing changes.
/// - Hello with no session claims the slot; if the claim fails: busy;
///   otherwise the listener must ask for approval.
/// - Move and ping from the bound peer refresh liveness; a move with a
///   usable viewport reaches the pointer sink; a ping is answered with a
///   pong echoing its timestamp verbatim.
/// - Move and ping from any other peer, or with no session, and anything
///   that does not decode, are ignored: no reply, no state change.
pub open spec fn spec_udp_on_datagram(
    sess: Option<UdpSession>,
    slot: ConnectionSlot,
    mouse: MouseController,
    pkt: Seq<u8>,
    from: PeerId,
    now: u64,
) -> (Option<UdpSession>, ConnectionSlot, MouseController, UdpAction) {
    match spec_parse_datagram(pkt) {
        None => (sess, slot, mouse, UdpAction::Ignore),
        Some(msg) => match msg {
            ClientMsg::Hello { w, h } => match sess {
                Some(s) => if s.peer == from {
                    (
                        Some(UdpSession { peer: s.peer, client_w: w, client_h: h, last_seen: now }),
                        slot,
                        mouse,
                        UdpAction::Reply(
                            ServerReply::Accept { w: mouse.screen_w, h: mouse.screen_h },
                        ),
                    )
                } else {
                    (sess, slot, mouse, UdpAction::Reply(ServerReply::Busy))
                },
                None => if claim_ok(slot, from) {
                    (sess, after_claim(slot, from), mouse, UdpAction::AskApproval { w, h })
                } else {
                    (sess, slot, mouse, UdpAction::Reply(ServerReply::Busy))
                },
            },
            ClientMsg::Move { x, y } => match sess {
                Some(s) => if s.peer == from {
                    (
                        Some(refreshed(s, now)),
                        slot,
                        after_move(mouse, s.client_w, s.client_h, x, y),
                        UdpAction::Ignore,
                    )
                } else {
                    (sess, slot, mouse, UdpAction::Ignore)
                },
                None => (sess, slot, mouse, UdpAction::Ignore),
            },
            ClientMsg::Ping { t } => match sess {
                Some(s) => if s.peer == from {
                    (
                        Some(refreshed(s, now)),
                        slot,
                        mouse,
                        UdpAction::Reply(ServerReply::Pong { t }),
                    )
                } else {
                    (sess, slot, mouse, UdpAction::Ignore)
                },
                None => (sess, slot, mouse, UdpAction::Ignore),
            },
        },
    }
}

/// Handle one inbound datagram. See `spec_udp_on_datagram` for the exact
/// transition this performs.
pub fn udp_on_datagram(
    session: &mut Option<UdpSession>,
    slot: &mut ConnectionSlot,
    mouse: &mut MouseController,
    pkt: &Vec<u8>,
    from: PeerId,
    now: u64,
) -> (action: UdpAction)
    ensures
        (*final(session), *final(slot), *final(mouse), action) == spec_udp_on_datagram(
            *old(session),
            *old(slot),
            *old(mouse),
            pkt@,
            from,
            now,
        ),
{
    let parsed = parse_datagram(pkt);
    match parsed {
        None => UdpAction::Ignore,
        Some(ClientMsg::Hello { w, h }) => {
            let cur: Option<UdpSession> = *session;
            match cur {
                Some(s) => {
                    if s.peer == from {
                        *session = Some(
                            UdpSession { peer: s.peer, client_w: w, client_h: h, last_seen: now },
                        );
                        let (sw, sh) = mouse.screen_size();
                        UdpAction::Reply(ServerReply::Accept { w: sw, h: sh })
                    } else {
                        UdpAction::Reply(ServerReply::Busy)
                    }
                },
                None => {
                    if slot.try_claim(from) {
                        UdpAction::AskApproval { w, h }
                    } else {
                        UdpAction::Reply(ServerReply::Busy)
                    }
                },
            }
        },
        Some(ClientMsg::Move { x, y }) => {
            let cur: Option<UdpSession> = *session;
            match cur {
                Some(s) => {
                    if s.peer == from {
                        *session = Some(
                            UdpSession {
                                peer: s.peer,
                                client_w: s.client_w,
                                client_h: s.client_h,
                                last_seen: now,
                            },
                        );
                        if s.client_w > 0 && s.client_h > 0 {
                            let _ = mouse.move_absolute(s.client_w, s.client_h, x, y);
                        }
                        UdpAction::Ignore
                    } else {
                        UdpAction::Ignore
                    }
                },
                None => UdpAction::Ignore,
            }
        },
        Some(ClientMsg::Ping { t }) => {
            let cur: Option<UdpSession> = *session;
            match cur {
                Some(s) => {
                    if s.peer == from {
                        *session = Some(
                            UdpSession {
                                peer: s.peer,
                                client_w: s.client_w,
                                client_h: s.client_h,
                                last_seen: now,
                            },
                        );
                        UdpAction::Reply(ServerReply::Pong { t })
                    } else {
                        UdpAction::Ignore
                    }
                },
                None => UdpAction::Ignore,
            }
        },
    }
}

/// The approval decision arriving for the peer whose hello claimed the
/// slot: on approval the session is created bound to that peer with the
/// viewport its hello declared, and accept announces the desktop screen
/// size; on denial the slot is released and the peer told so.
pub open spec fn spec_udp_on_approval(
    slot: ConnectionSlot,
    mouse: MouseController,
    peer: PeerId,
    w: u16,
    h: u16,
    now: u64,
    approved: bool,
) -> (Option<UdpSession>, ConnectionSlot, UdpAction) {
    if approved {
        (
            Some(UdpSession { peer, client_w: w, client_h: h, last_seen: now }),
            slot,
            UdpAction::Reply(ServerReply::Accept { w: mouse.screen_w, h: mouse.screen_h }),
        )
    } else {
        (None, after_release(slot), UdpAction::Reply(ServerReply::Reject))
    }
}

/// Complete the hello handshake once the approval decision for `peer` is
/// known. The listener calls this exactly once after an `AskApproval`
/// action, before handling any further datagram, with `w` and `h` from that
/// action.
pub fn udp_on_approval(
    session: &mut Option<UdpSession>,
    slot: &mut ConnectionSlot,
    mouse: &MouseController,
    peer: PeerId,
    w: u16,
    h: u16,
    now: u64,
    approved: bool,
) -> (action: UdpAction)
    requires
        *old(session) is None,
        old(slot).occupant == Some(peer),
    ensures
        (*final(session), *final(slot), action) == spec_udp_on_approval(
            *old(slot),
            *mouse,
            peer,
            w,
            h,
            now,
            approved,
        ),
{
    if approved {
        *session = Some(UdpSession { peer, client_w: w, client_h: h, last_seen: now });
        let (sw, sh) = mouse.screen_size();
        UdpAction::Reply(ServerReply::Accept { w: sw, h: sh })
    } else {
        slot.release();
        UdpAction::Reply(ServerReply::Reject)
    }
}

/// The liveness sweep: a session quiet for longer than the timeout is
/// destroyed and the slot released; otherwise nothing changes.
pub open spec fn spec_udp_on_tick(sess: Option<UdpSession>, slot: ConnectionSlot, now: u64) -> (
    Option<UdpSession>,
    ConnectionSlot,
    bool,
) {
    match sess {
        Some(s) => if session_expired(s, now) {
            (None, after_release(slot), true)
        } else {
            (sess, slot, false)
        },
        None => (sess, slot, false),
    }
}

/// One firing of the periodic liveness sweep. This is the only way a UDP
/// session ends without an explicit client action.
pub fn udp_on_tick(session: &mut Option<UdpSession>, slot: &mut ConnectionSlot, now: u64) -> (timed_out:
    bool)
    ensures
        (*final(session), *final(slot), timed_out) == spec_udp_on_tick(
            *old(session),
            *old(slot),
            now,
        ),
{
    let cur: Option<UdpSession> = *session;
    match cur {
        Some(s) => {
            if now > SESSION_TIMEOUT_MS && s.last_seen < now - SESSION_TIMEOUT_MS {
                *session = None;
                slot.release();
                true
            } else {
                false
            }
        },
        None => false,
    }
}

/// An accept reply carries the screen size verbatim: a client reading the
/// two big-endian fields of the encoded bytes recovers exactly the width
/// and height that were encoded.
pub proof fn lemma_accept_carries_screen_size(w: u16, h: u16)
    ensures
        ({
            let b = spec_encode_reply(ServerReply::Accept { w, h });
            &&& b.len() == 5
            &&& b[0] == MSG_ACCEPT
            &&& be16(b[1], b[2]) == w
            &&& be16(b[3], b[4]) == h
        }),
{
    vstd::arithmetic::div_mod::lemma_fundamental_div_mod(w as int, 0x100);
    vstd::arithmetic::div_mod::lemma_fundamental_div_mod(h as int, 0x100);
}

/// A pong echoes the ping's timestamp verbatim: a client reading the eight
/// big-endian payload bytes of the encoded reply recovers exactly the
/// timestamp its ping carried.
pub proof fn lemma_pong_echoes_timestamp(t: u64)
    ensures
        ({
            let b = spec_encode_reply(ServerReply::Pong { t });
            &&& b.len() == 9
            &&& b[0] == MSG_PONG
            &&& be64(b[1], b[2], b[3], b[4], b[5], b[6], b[7], b[8]) == t
        }),
{
    assert(((t / 0x0100000000000000) % 0x100) * 0x0100000000000000 + ((t / 0x0001000000000000)
        % 0x100) * 0x0001000000000000 + ((t / 0x0000010000000000) % 0x100) * 0x0000010000000000 + (
    (t / 0x0000000100000000) % 0x100) * 0x0000000100000000 + ((t / 0x0000000001000000) % 0x100)
        * 0x0000000001000000 + ((t / 0x0000000000010000) % 0x100) * 0x0000000000010000 + ((t
        / 0x0000000000000100) % 0x100) * 0x0000000000000100 + (t % 0x100) == t) by (bit_vector);
}

/// A hello from any peer other than the bound one, while a session is live,
/// is answered with busy and changes nothing: not the session's fields, not
/// the slot, not the pointer sink.
pub proof fn lemma_hello_while_busy(
    s: UdpSession,
    slot: ConnectionSlot,
    mouse: MouseController,
    pkt: Seq<u8>,
    from: PeerId,
    now: u64,
)
    requires
        spec_parse_datagram(pkt) matches Some(m) && m is Hello,
        from != s.peer,
    ensures
        spec_udp_on_datagram(Some(s), slot, mouse, pkt, from, now) == (
            Some(s),
            slot,
            mouse,
            UdpAction::Reply(ServerReply::Busy),
        ),
{
}

/// A move or ping from a non-bound peer, or from anyone while no session is
/// live, produces no reply and no state mutation.
pub proof fn lemma_move_ping_ignored(
    sess: Option<UdpSession>,
    slot: ConnectionSlot,
    mouse: MouseController,
    pkt: Seq<u8>,
    from: PeerId,
    now: u64,
)
    requires
        spec_parse_datagram(pkt) matches Some(m) && (m is Move || m is Ping),
        sess matches Some(s) ==> from != s.peer,
    ensures
        spec_udp_on_datagram(sess, slot, mouse, pkt, from, now) == (
            sess,
            slot,
            mouse,
            UdpAction::Ignore,
        ),
{
}

/// Exclusivity across the two transports: while the slot is held by anyone
/// (a WebSocket connection, or a UDP peer whose approval is pending), a UDP
/// hello finding no live session is answered busy and changes nothing, and
/// no claim from any peer - in particular a new WebSocket connection's -
/// can succeed.
pub proof fn lemma_cross_transport_exclusivity(
    slot: ConnectionSlot,
    mouse: MouseController,
    pkt: Seq<u8>,
    from: PeerId,
    now: u64,
    other: PeerId,
)
    requires
        slot.occupant is Some,
        spec_parse_datagram(pkt) matches Some(m) && m is Hello,
    ensures
        spec_udp_on_datagram(None, slot, mouse, pkt, from, now) == (
            None::<UdpSession>,
            slot,
            mouse,
            UdpAction::Reply(ServerReply::Busy),
        ),
        !claim_ok(slot, other),
{
}

/// Once a session has been quiet past the timeout, the sweep destroys it
/// and the slot is immediately claimable again, by any peer.
pub proof fn lemma_timeout_frees_slot(s: UdpSession, slot: ConnectionSlot, now: u64, p: PeerId)
    requires
        session_expired(s, now),
    ensures
        ({
            let (sess2, slot2, fired) = spec_udp_on_tick(Some(s), slot, now);
            &&& fired
            &&& sess2 is None
            &&& claim_ok(slot2, p)
        }),
{
}

/// Every step of the UDP listener preserves the joint invariant: while a
/// session is live, the slot is held by its bound peer.
pub proof fn lemma_steps_preserve_udp_inv(
    sess: Option<UdpSession>,
    slot: ConnectionSlot,
    mouse: MouseController,
    pkt: Seq<u8>,
    from: PeerId,
    now: u64,
)
    requires
        udp_inv(sess, slot),
    ensures
        ({
            let (sess2, slot2, _, _) = spec_udp_on_datagram(sess, slot, mouse, pkt, from, now);
            udp_inv(sess2, slot2)
        }),
        ({
            let (sess3, slot3, _) = spec_udp_on_tick(sess, slot, now);
            udp_inv(sess3, slot3)
        }),
        sess is None && slot.occupant == Some(from) ==> forall|w: u16, h: u16, approved: bool|
            {
                let (sess4, slot4, _) = #[trigger] spec_udp_on_approval(
                    slot,
                    mouse,
                    from,
                    w,
                    h,
                    now,
                    approved,
                );
                udp_inv(sess4, slot4)
            },
{
}

} // verus!
