//! The WebSocket session protocol: the same exclusivity and approval
//! semantics as the UDP path, built on an ordered, reliable transport, so
//! transport close is the sole liveness signal and no timeout exists.
//!
//! The connection handler around these functions performs the transport
//! work: it upgrades the connection, turns inbound structured text into
//! `WsIncoming` values and binary frames into their raw bytes, sends the
//! notices and replies the steps ask for, and releases the slot when the
//! loop exits for any reason.

use vstd::prelude::*;

use crate::connection::{after_claim, after_release, claim_ok, ConnectionSlot, PeerId};
use crate::mouse::{after_move, MouseController};
use crate::udp::be16;

verus! {

/// Per-connection session state: the negotiated client viewport, zero until
/// an init message arrives. Coordinates are ignored until both extents are
/// non-zero.
#[derive(Clone, Copy, PartialEq, Eq, Structural, Debug)]
pub struct WsSession {
    pub width: u16,
    pub height: u16,
}

/// One inbound WebSocket message, as the handler hands it over: structured
/// text already classified (an init carrying the viewport, a ping carrying
/// a timestamp, or any other text), a binary frame's raw bytes, or the
/// transport's end (a close frame or an unrecoverable error).
#[derive(Debug)]
pub enum WsIncoming {
    Init { width: u16, height: u16 },
    Ping { t: u64 },
    OtherText,
    Binary(Vec<u8>),
    Closed,
}

/// What the handler must do after a message: send a pong echoing the
/// ping's timestamp, leave the message loop, or nothing.
#[derive(Clone, Copy, PartialEq, Eq, Structural, Debug)]
pub enum WsAction {
    SendPong { t: u64 },
    Stop,
    NoReply,
}

/// How an accepted connection starts: the slot was busy (send the
/// already-connected notice and close without asking for approval), or the
/// slot is claimed and the handler must ask for approval.
#[derive(Clone, Copy, PartialEq, Eq, Structural, Debug)]
pub enum WsConnectAction {
    NotifyBusy,
    AwaitApproval,
}

/// How the handshake ends: denied (send the rejected notice and close; the
/// slot is already released), or approved (send the connected notice, then
/// announce the desktop screen size so the client can render the remote
/// cursor before sending coordinates).
#[derive(Clone, Copy, PartialEq, Eq, Structural, Debug)]
pub enum WsApprovalAction {
    NotifyRejected,
    Accepted { screen_w: u16, screen_h: u16 },
}

/// One inbound message against the session: the next session and pointer
/// sink state, and the action to perform.
///
/// - Init records the viewport; no reply.
/// - Ping is answered with a pong echoing its timestamp verbatim.
/// - A binary frame of at least four bytes decodes as a big-endian
///   coordinate pair and reaches the pointer sink once the viewport is
///   known and positive; shorter frames, and coordinates before a usable
///   init, are ignored.
/// - Any other text is ignored; the transport's end stops the loop.
pub open spec fn spec_ws_on_message(sess: WsSession, mouse: MouseController, msg: WsIncoming) -> (
    WsSession,
    MouseController,
    WsAction,
) {
    match msg {
        WsIncoming::Init { width, height } => (WsSession { width, height }, mouse, WsAction::NoReply),
        WsIncoming::Ping { t } => (sess, mouse, WsAction::SendPong { t }),
        WsIncoming::OtherText => (sess, mouse, WsAction::NoReply),
        WsIncoming::Binary(b) => if b@.len() >= 4 && sess.width > 0 && sess.height > 0 {
            (
                sess,
                after_move(mouse, sess.width, sess.height, be16(b@[0], b@[1]), be16(b@[2], b@[3])),
                WsAction::NoReply,
            )
        } else {
            (sess, mouse, WsAction::NoReply)
        },
        WsIncoming::Closed => (sess, mouse, WsAction::Stop),
    }
}

impl WsSession {
    /// A fresh session: no viewport negotiated yet.
    pub fn new() -> (s: Self)
        ensures
            s.width == 0,
            s.height == 0,
    {
        WsSession { width: 0, height: 0 }
    }
}

/// An accepted connection from `peer` claims the slot. On failure the
/// handler sends the already-connected notice and closes, never reaching
/// the approval step; on success it asks for approval next.
pub fn ws_on_connect(slot: &mut ConnectionSlot, peer: PeerId) -> (a: WsConnectAction)
    ensures
        *final(slot) == after_claim(*old(slot), peer),
        a == (if claim_ok(*old(slot), peer) {
            WsConnectAction::AwaitApproval
        } else {
            WsConnectAction::NotifyBusy
        }),
{
    if slot.try_claim(peer) {
        WsConnectAction::AwaitApproval
    } else {
        WsConnectAction::NotifyBusy
    }
}

/// The approval decision for a connection that holds the slot. A denial
/// releases the slot before the handler sends the rejected notice and
/// closes: a denied connection never leaves the slot occupied.
pub fn ws_on_approval(slot: &mut ConnectionSlot, mouse: &MouseController, approved: bool) -> (a:
    WsApprovalAction)
    requires
        old(slot).occupant is Some,
    ensures
        approved ==> *final(slot) == *old(slot) && a == (WsApprovalAction::Accepted {
            screen_w: mouse.screen_w,
            screen_h: mouse.screen_h,
        }),
        !approved ==> *final(slot) == after_release(*old(slot)) && a
            == WsApprovalAction::NotifyRejected,
{
    if approved {
        let (sw, sh) = mouse.screen_size();
        WsApprovalAction::Accepted { screen_w: sw, screen_h: sh }
    } else {
        slot.release();
        WsApprovalAction::NotifyRejected
    }
}

/// The decimal spelling of a number, most significant digit first, no sign
/// and no leading zero (a lone zero for zero).
pub open spec fn dec_digits(n: int) -> Seq<u8>
    recommends
        n >= 0,
    decreases n,
{
    if n < 10 {
        seq![(48 + n) as u8]
    } else {
        dec_digits(n / 10).push((48 + n % 10) as u8)
    }
}

/// The exact text of the pong message answering a ping that carried `t`.
pub open spec fn pong_text(t: u64) -> Seq<u8> {
    seq![
        123u8,
        34u8,
        116u8,
        121u8,
        112u8,
        101u8,
        34u8,
        58u8,
        34u8,
        112u8,
        111u8,
        110u8,
        103u8,
        34u8,
        44u8,
        34u8,
        116u8,
        34u8,
        58u8,
    ] + dec_digits(t as int) + seq![125u8]
}

/// The exact text of the screen-size announcement sent once after connect.
pub open spec fn remote_screen_text(w: u16, h: u16) -> Seq<u8> {
    seq![
        123u8,
        34u8,
        116u8,
        121u8,
        112u8,
        101u8,
        34u8,
        58u8,
        34u8,
        114u8,
        101u8,
        109u8,
        111u8,
        116u8,
        101u8,
        95u8,
        115u8,
        99u8,
        114u8,
        101u8,
        101u8,
        110u8,
        34u8,
        44u8,
        34u8,
        119u8,
        105u8,
        100u8,
        116u8,
        104u8,
        34u8,
        58u8,
    ] + dec_digits(w as int) + seq![
        44u8,
        34u8,
        104u8,
        101u8,
        105u8,
        103u8,
        104u8,
        116u8,
        34u8,
        58u8,
    ] + dec_digits(h as int) + seq![125u8]
}

/// Append the decimal spelling of `n`.
fn push_dec(n: u64, out: &mut Vec<u8>)
    ensures
        final(out)@ == old(out)@ + dec_digits(n as int),
    decreases n,
{
    if n < 10 {
        out.push((48 + n) as u8);
        proof {
            assert(old(out)@.push((48 + n as int) as u8) =~= old(out)@ + dec_digits(n as int));
        }
    } else {
        let q = n / 10;
        let r = n % 10;
        push_dec(q, out);
        out.push((48 + r) as u8);
        proof {
            assert((old(out)@ + dec_digits(q as int)).push((48 + r as int) as u8) =~= old(out)@
                + dec_digits(n as int));
        }
    }
}

/// Build the pong message's exact text, as raw bytes of valid ASCII.
pub fn encode_pong_text(t: u64) -> (out: Vec<u8>)
    ensures
        out@ == pong_text(t),
{
    let mut out: Vec<u8> = Vec::new();
    out.push(123);
    out.push(34);
    out.push(116);
    out.push(121);
    out.push(112);
    out.push(101);
    out.push(34);
    out.push(58);
    out.push(34);
    out.push(112);
    out.push(111);
    out.push(110);
    out.push(103);
    out.push(34);
    out.push(44);
    out.push(34);
    out.push(116);
    out.push(34);
    out.push(58);
    push_dec(t, &mut out);
    out.push(125);
    proof {
        assert(out@ =~= pong_text(t));
    }
    out
}

/// Build the screen-size announcement's exact text, as raw bytes of valid
/// ASCII.
pub fn encode_remote_screen_text(w: u16, h: u16) -> (out: Vec<u8>)
    ensures
        out@ == remote_screen_text(w, h),
{
    let mut out: Vec<u8> = Vec::new();
    out.push(123);
    out.push(34);
    out.push(116);
    out.push(121);
    out.push(112);
    out.push(101);
    out.push(34);
    out.push(58);
    out.push(34);
    out.push(114);
    out.push(101);
    out.push(109);
    out.push(111);
    out.push(116);
    out.push(101);
    out.push(95);
    out.push(115);
    out.push(99);
    out.push(114);
    out.push(101);
    out.push(101);
    out.push(110);
    out.push(34);
    out.push(44);
    out.push(34);
    out.push(119);
    out.push(105);
    out.push(100);
    out.push(116);
    out.push(104);
    out.push(34);
    out.push(58);
    push_dec(w as u64, &mut out);
    out.push(44);
    out.push(34);
    out.push(104);
    out.push(101);
    out.push(105);
    out.push(103);
    out.push(104);
    out.push(116);
    out.push(34);
    out.push(58);
    push_dec(h as u64, &mut out);
    out.push(125);
    proof {
        assert(out@ =~= remote_screen_text(w, h));
    }
    out
}

/// Handle one inbound message of the session loop. See `spec_ws_on_message`
/// for the exact transition this performs.
pub fn ws_on_message(sess: &mut WsSession, mouse: &mut MouseController, msg: &WsIncoming) -> (a:
    WsAction)
    ensures
        (*final(sess), *final(mouse), a) == spec_ws_on_message(*old(sess), *old(mouse), *msg),
{
    match msg {
        WsIncoming::Init { width, height } => {
            sess.width = *width;
            sess.height = *height;
            WsAction::NoReply
        },
        WsIncoming::Ping { t } => WsAction::SendPong { t: *t },
        WsIncoming::OtherText => WsAction::NoReply,
        WsIncoming::Binary(b) => {
            if b.len() >= 4 && sess.width > 0 && sess.height > 0 {
                let x = crate::udp::read_be16(b[0], b[1]);
                let y = crate::udp::read_be16(b[2], b[3]);
                let w = sess.width;
                let h = sess.height;
                let _ = mouse.move_absolute(w, h, x, y);
                WsAction::NoReply
            } else {
                WsAction::NoReply
            }
        },
        WsIncoming::Closed => WsAction::Stop,
    }
}

} // verus!
