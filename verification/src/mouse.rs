//! Mouse input synthesis.
//!
//! A mouse tracks its position and the held button, and turns moves,
//! presses and releases into the wire events to send.  A move can be
//! split into several interpolated steps; the caller supplies the current
//! keyboard modifier bits, which ride along on every event.

use vstd::prelude::*;
use crate::protocol::input::DispatchMouseEvent;
use crate::protocol::input::MouseButton;
use crate::protocol::types::JsCoord;
use crate::protocol::types::JsUInt;

verus! {

/// The coordinate range the synthesizer accepts, generous beyond any
/// screen, so that interpolation arithmetic stays well inside the machine
/// integers.
pub open spec fn in_coord_range(v: int) -> bool {
    -1_000_000 <= v <= 1_000_000
}

/// The point `step`/`steps` of the way from `from` to `to`, rounded
/// towards `from`.
pub open spec fn spec_interp(from: int, to: int, step: int, steps: int) -> int
    recommends
        steps > 0,
{
    if to >= from {
        from + (to - from) * step / steps
    } else {
        from - (from - to) * step / steps
    }
}

fn interp(from: JsCoord, to: JsCoord, step: usize, steps: usize) -> (r: JsCoord)
    requires
        1 <= steps <= 1_000_000,
        step <= steps,
        in_coord_range(from as int),
        in_coord_range(to as int),
    ensures
        r == spec_interp(from as int, to as int, step as int, steps as int),
        in_coord_range(r as int),
{
    if to >= from {
        let delta: i64 = to - from;
        proof {
            assert(0 <= (delta as int) * (step as int) <= (delta as int) * (steps as int)
                <= 2_000_000_000_000) by (nonlinear_arith)
                requires
                    0 <= delta <= 2_000_000,
                    0 <= step <= steps <= 1_000_000,
            ;
            assert(0 <= (delta as int) * (step as int) / (steps as int) <= delta as int)
                by (nonlinear_arith)
                requires
                    0 <= (delta as int) * (step as int) <= (delta as int) * (steps as int),
                    0 < steps,
            ;
        }
        let part: i64 = delta * (step as i64) / (steps as i64);
        from + part
    } else {
        let delta: i64 = from - to;
        proof {
            assert(0 <= (delta as int) * (step as int) <= (delta as int) * (steps as int)
                <= 2_000_000_000_000) by (nonlinear_arith)
                requires
                    0 <= delta <= 2_000_000,
                    0 <= step <= steps <= 1_000_000,
            ;
            assert(0 <= (delta as int) * (step as int) / (steps as int) <= delta as int)
                by (nonlinear_arith)
                requires
                    0 <= (delta as int) * (step as int) <= (delta as int) * (steps as int),
                    0 < steps,
            ;
        }
        let part: i64 = delta * (step as i64) / (steps as i64);
        from - part
    }
}

/// The mouse of one session: its position and the held button.
pub struct Mouse {
    pub x: JsCoord,
    pub y: JsCoord,
    pub button: Option<MouseButton>,
}

impl Mouse {
    /// A fresh mouse: at the origin, no button held.
    pub fn new() -> (r: Mouse)
        ensures
            r.x == 0,
            r.y == 0,
            r.button is None,
    {
        Mouse { x: 0, y: 0, button: None }
    }

    /// Move to a point in `steps` interpolated hops, ending exactly there.
    /// Each hop is one `mouseMoved` event carrying the held button and the
    /// caller's modifier bits.
    pub fn mouse_move(&mut self, x: JsCoord, y: JsCoord, steps: usize, modifiers: JsUInt) -> (r:
        Vec<DispatchMouseEvent>)
        requires
            1 <= steps <= 1_000_000,
            in_coord_range(x as int),
            in_coord_range(y as int),
            in_coord_range(old(self).x as int),
            in_coord_range(old(self).y as int),
        ensures
            final(self).x == x,
            final(self).y == y,
            final(self).button == old(self).button,
            r@.len() == steps,
            forall|s: int|
                0 <= s < steps ==> {
                    let ev = #[trigger] r@[s];
                    &&& ev.event_type@ == "mouseMoved"@
                    &&& ev.x == spec_interp(
                        old(self).x as int,
                        x as int,
                        s + 1,
                        steps as int,
                    )
                    &&& ev.y == spec_interp(
                        old(self).y as int,
                        y as int,
                        s + 1,
                        steps as int,
                    )
                    &&& ev.modifiers == Some(modifiers)
                    &&& ev.button == old(self).button
                    &&& ev.click_count is None
                },
    {
        let from_x = self.x;
        let from_y = self.y;
        let mut out: Vec<DispatchMouseEvent> = Vec::new();
        let mut step: usize = 1;
        while step <= steps
            invariant
                1 <= step <= steps + 1,
                steps <= 1_000_000,
                in_coord_range(x as int),
                in_coord_range(y as int),
                in_coord_range(from_x as int),
                in_coord_range(from_y as int),
                self == old(self),
                from_x == old(self).x,
                from_y == old(self).y,
                out@.len() == step - 1,
                forall|s: int|
                    0 <= s < step - 1 ==> {
                        let ev = #[trigger] out@[s];
                        &&& ev.event_type@ == "mouseMoved"@
                        &&& ev.x == spec_interp(from_x as int, x as int, s + 1, steps as int)
                        &&& ev.y == spec_interp(from_y as int, y as int, s + 1, steps as int)
                        &&& ev.modifiers == Some(modifiers)
                        &&& ev.button == old(self).button
                        &&& ev.click_count is None
                    },
            decreases steps + 1 - step,
        {
            let ev = DispatchMouseEvent {
                event_type: String::from_str("mouseMoved"),
                x: interp(from_x, x, step, steps),
                y: interp(from_y, y, step, steps),
                modifiers: Some(modifiers),
                button: self.button,
                click_count: None,
            };
            out.push(ev);
            step = step + 1;
        }
        self.x = x;
        self.y = y;
        out
    }

    /// Press a button at the current position: the button becomes held and
    /// the `mousePressed` event to send is handed back.
    pub fn down(&mut self, button: MouseButton, click_count: JsUInt, modifiers: JsUInt) -> (r:
        DispatchMouseEvent)
        ensures
            final(self).x == old(self).x,
            final(self).y == old(self).y,
            final(self).button == Some(button),
            r.event_type@ == "mousePressed"@,
            r.x == old(self).x,
            r.y == old(self).y,
            r.modifiers == Some(modifiers),
            r.button == Some(button),
            r.click_count == Some(click_count),
    {
        self.button = Some(button);
        DispatchMouseEvent {
            event_type: String::from_str("mousePressed"),
            x: self.x,
            y: self.y,
            modifiers: Some(modifiers),
            button: Some(button),
            click_count: Some(click_count),
        }
    }

    /// Release a button at the current position: no button is held
    /// afterwards and the `mouseReleased` event to send is handed back.
    pub fn up(&mut self, button: MouseButton, click_count: JsUInt, modifiers: JsUInt) -> (r:
        DispatchMouseEvent)
        ensures
            final(self).x == old(self).x,
            final(self).y == old(self).y,
            final(self).button is None,
            r.event_type@ == "mouseReleased"@,
            r.x == old(self).x,
            r.y == old(self).y,
            r.modifiers == Some(modifiers),
            r.button == Some(button),
            r.click_count == Some(click_count),
    {
        self.button = None;
        DispatchMouseEvent {
            event_type: String::from_str("mouseReleased"),
            x: self.x,
            y: self.y,
            modifiers: Some(modifiers),
            button: Some(button),
            click_count: Some(click_count),
        }
    }

    /// Click at a point: move there in one hop, press, release.  The three
    /// events to send, in order; the caller may pause between press and
    /// release.
    pub fn click(
        &mut self,
        x: JsCoord,
        y: JsCoord,
        button: MouseButton,
        click_count: JsUInt,
        modifiers: JsUInt,
    ) -> (r: Vec<DispatchMouseEvent>)
        requires
            in_coord_range(x as int),
            in_coord_range(y as int),
            in_coord_range(old(self).x as int),
            in_coord_range(old(self).y as int),
        ensures
            final(self).x == x,
            final(self).y == y,
            final(self).button is None,
            r@.len() == 3,
            r@[0].event_type@ == "mouseMoved"@,
            r@[0].x == x,
            r@[0].y == y,
            r@[1].event_type@ == "mousePressed"@,
            r@[1].x == x,
            r@[1].y == y,
            r@[1].button == Some(button),
            r@[1].click_count == Some(click_count),
            r@[2].event_type@ == "mouseReleased"@,
            r@[2].x == x,
            r@[2].y == y,
            r@[2].button == Some(button),
            r@[2].click_count == Some(click_count),
    {
        let mut out = self.mouse_move(x, y, 1, modifiers);
        proof {
            let fx = old(self).x as int;
            let fy = old(self).y as int;
            let tx = x as int;
            let ty = y as int;
            assert(spec_interp(fx, tx, 1, 1) == tx) by (nonlinear_arith);
            assert(spec_interp(fy, ty, 1, 1) == ty) by (nonlinear_arith);
        }
        let press = self.down(button, click_count, modifiers);
        let release = self.up(button, click_count, modifiers);
        out.push(press);
        out.push(release);
        out
    }
}

} // verus!
