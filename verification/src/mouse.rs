//! The pointer sink as the protocol sees it: the desktop's screen size, the
//! exact coordinate-mapping contract, and a latest-value-wins buffer of the
//! pending move. Superseded moves are coalesced, never queued; the actuation
//! side drains the buffer with `take_latest` and injects the mapped position.

use vstd::prelude::*;

verus! {

/// One requested pointer move: the client's viewport and the touch position
/// inside it.
#[derive(Clone, Copy, PartialEq, Eq, Structural, Debug)]
pub struct MoveCmd {
    pub client_w: u16,
    pub client_h: u16,
    pub x: u16,
    pub y: u16,
}

/// Error type of `move_absolute`. The protocol-facing operations never
/// produce one: a degenerate viewport is a safe no-op, not an error.
#[derive(Clone, Copy, PartialEq, Eq, Structural, Debug)]
pub struct MouseError;

/// Maps client-viewport coordinates to absolute desktop positions. Holds the
/// desktop's screen size (fixed at startup) and at most one pending move.
#[derive(Clone, Copy, PartialEq, Eq, Structural, Debug)]
pub struct MouseController {
    pub screen_w: u16,
    pub screen_h: u16,
    pub latest: Option<MoveCmd>,
}

/// The controller after a move request: the pending buffer is overwritten if
/// the viewport is usable, untouched otherwise.
pub open spec fn after_move(m: MouseController, client_w: u16, client_h: u16, x: u16, y: u16) -> MouseController {
    if client_w == 0 || client_h == 0 {
        m
    } else {
        MouseController { latest: Some(MoveCmd { client_w, client_h, x, y }), ..m }
    }
}

/// Nearest-integer mapping of a coordinate from a client axis of length
/// `client` onto a screen axis of length `screen`: round((x / client) *
/// screen), with halves rounding up.
pub open spec fn spec_map_coord(x: int, client: int, screen: int) -> int
    recommends
        client > 0,
{
    (2 * x * screen + client) / (2 * client)
}

impl MouseController {
    /// A controller for a desktop screen of the given size. A reported zero
    /// extent is clamped to one, so that the stored size is always usable.
    pub fn new(width: u16, height: u16) -> (m: Self)
        ensures
            m.screen_w == (if width == 0 { 1u16 } else { width }),
            m.screen_h == (if height == 0 { 1u16 } else { height }),
            m.latest is None,
    {
        MouseController {
            screen_w: if width == 0 { 1 } else { width },
            screen_h: if height == 0 { 1 } else { height },
            latest: None,
        }
    }

    /// The desktop's screen size, as announced to clients.
    pub fn screen_size(&self) -> (wh: (u16, u16))
        ensures
            wh.0 == self.screen_w,
            wh.1 == self.screen_h,
    {
        (self.screen_w, self.screen_h)
    }

    /// Record a move request. A call with a zero client extent is a safe
    /// no-op and still succeeds. Otherwise the request overwrites whatever
    /// move was pending: intermediate positions are deliberately dropped.
    /// This operation never fails.
    pub fn move_absolute(&mut self, client_w: u16, client_h: u16, x: u16, y: u16) -> (r: Result<
        (),
        MouseError,
    >)
        ensures
            r is Ok,
            *final(self) == after_move(*old(self), client_w, client_h, x, y),
    {
        if client_w == 0 || client_h == 0 {
            return Ok(());
        }
        self.latest = Some(MoveCmd { client_w, client_h, x, y });
        Ok(())
    }

    /// Hand the most recent pending move to the actuation side and clear the
    /// buffer. Moves overwritten before this call are gone for good.
    pub fn take_latest(&mut self) -> (cmd: Option<MoveCmd>)
        ensures
            cmd == old(self).latest,
            final(self).latest is None,
            final(self).screen_w == old(self).screen_w,
            final(self).screen_h == old(self).screen_h,
    {
        let cmd = self.latest;
        self.latest = None;
        cmd
    }
}

/// Map one axis of a client coordinate onto the desktop screen. The result
/// is the nearest integer to (x / client) * screen (halves up), which the
/// actuation side feeds to the OS pointer driver.
pub fn map_coord(x: u16, client: u16, screen: u16) -> (r: u32)
    requires
        client > 0,
    ensures
        r == spec_map_coord(x as int, client as int, screen as int),
{
    let x64: u64 = x as u64;
    let client64: u64 = client as u64;
    let screen64: u64 = screen as u64;
    proof {
        assert((2 * x64) * screen64 <= 131070 * 65535) by (nonlinear_arith)
            requires
                x64 <= 65535,
                screen64 <= 65535,
        ;
    }
    let num: u64 = 2 * x64 * screen64 + client64;
    let den: u64 = 2 * client64;
    let q: u64 = num / den;
    proof {
        vstd::arithmetic::div_mod::lemma_div_is_ordered_by_denominator(num as int, 2, den as int);
        assert(q <= num / 2);
    }
    q as u32
}

/// The mapping sends 0 to 0 and the far edge of the client axis to the far
/// edge of the screen axis (the even split of the half-open pixel ranges
/// lands the endpoint on `screen` itself).
pub proof fn lemma_map_coord_bounds(client: int, screen: int)
    requires
        client > 0,
    ensures
        spec_map_coord(0, client, screen) == 0,
        spec_map_coord(client, client, screen) == screen,
{
    let d = 2 * client;
    assert(2 * 0 * screen == 0) by (nonlinear_arith);
    assert(spec_map_coord(0, client, screen) == client / d);
    vstd::arithmetic::div_mod::lemma_basic_div(client, d);
    vstd::arithmetic::div_mod::lemma_hoist_over_denominator(client, screen, d as nat);
    assert(2 * client * screen == screen * d) by (nonlinear_arith)
        requires
            d == 2 * client,
    ;
    assert(spec_map_coord(client, client, screen) == (client + screen * d) / d);
}

} // verus!
