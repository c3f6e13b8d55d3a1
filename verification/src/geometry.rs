//! Corner-anchored positioning and the aspect-locked resize state machine.

use vstd::prelude::*;

verus! {

/// Design width of the widget; together with [`ASPECT_H`] it fixes the
/// width : height ratio every resize is corrected to.
pub const ASPECT_W: u32 = 164;
/// Design height of the widget.
pub const ASPECT_H: u32 = 252;
/// Outer margin, in pixels, kept between the window and the monitor edge.
pub const MARGIN: i32 = 12;
/// Extra inset, in pixels, above the monitor's bottom edge; applied only to
/// bottom-anchored corners so the window clears a taskbar-like obstruction.
pub const BOTTOM_INSET: i32 = 50;
/// Largest dimension the coordinator accepts. A machine limit only: it keeps
/// every corrected size inside `u32` and every position inside `i32`.
pub const MAX_DIM: u32 = 16777216;
/// Largest magnitude of a monitor origin coordinate the coordinator accepts;
/// a machine limit with the same purpose as [`MAX_DIM`].
pub const MAX_COORD: i32 = 16777216;

/// A window or monitor size in physical pixels.
#[derive(Clone, Copy, PartialEq, Eq, Structural, Debug)]
pub struct Size {
    pub width: u32,
    pub height: u32,
}

/// An absolute screen coordinate in physical pixels.
#[derive(Clone, Copy, PartialEq, Eq, Structural, Debug)]
pub struct Point {
    pub x: i32,
    pub y: i32,
}

/// The geometry of one monitor: its top-left origin and its size.
#[derive(Clone, Copy, PartialEq, Eq, Structural, Debug)]
pub struct Monitor {
    pub origin: Point,
    pub size: Size,
}

/// One of the four screen corners a window can be snapped to.
#[derive(Clone, Copy, PartialEq, Eq, Structural, Debug)]
pub enum Corner {
    TopLeft,
    TopRight,
    BottomLeft,
    BottomRight,
}

/// `a / b` rounded to the nearest integer (ties away from zero), for
/// non-negative `a` and positive even `b`.
pub open spec fn round_div(a: int, b: int) -> int
    recommends
        a >= 0,
        b > 0,
{
    (a + b / 2) / b
}

/// The height that matches width `w` under the design ratio.
pub open spec fn height_for_width(w: int) -> int {
    round_div(w * (ASPECT_H as int), ASPECT_W as int)
}

/// The width that matches height `h` under the design ratio.
pub open spec fn width_for_height(h: int) -> int {
    round_div(h * (ASPECT_W as int), ASPECT_H as int)
}

/// The x coordinate the window is anchored to for `corner`.
pub open spec fn corner_x(corner: Corner, monitor: Monitor, win: Size) -> int {
    match corner {
        Corner::TopLeft | Corner::BottomLeft => monitor.origin.x + MARGIN as int,
        Corner::TopRight | Corner::BottomRight => monitor.origin.x + monitor.size.width as int
            - win.width as int - MARGIN as int,
    }
}

/// The y coordinate the window is anchored to for `corner`. Bottom-anchored
/// corners step in by [`BOTTOM_INSET`] instead of [`MARGIN`].
pub open spec fn corner_y(corner: Corner, monitor: Monitor, win: Size) -> int {
    match corner {
        Corner::TopLeft | Corner::TopRight => monitor.origin.y + MARGIN as int,
        Corner::BottomLeft | Corner::BottomRight => monitor.origin.y + monitor.size.height as int
            - win.height as int - BOTTOM_INSET as int,
    }
}

/// The machine bounds under which position arithmetic cannot overflow.
pub open spec fn monitor_in_range(monitor: Monitor) -> bool {
    &&& -MAX_COORD <= monitor.origin.x <= MAX_COORD
    &&& -MAX_COORD <= monitor.origin.y <= MAX_COORD
    &&& monitor.size.width <= MAX_DIM
    &&& monitor.size.height <= MAX_DIM
}

/// Computes the absolute position that anchors a window of size `win` to
/// `corner` of `monitor`, with the fixed margin and bottom inset.
pub fn corner_position(corner: Corner, monitor: Monitor, win: Size) -> (p: Point)
    requires
        monitor_in_range(monitor),
        win.width <= MAX_DIM,
        win.height <= MAX_DIM,
    ensures
        p.x == corner_x(corner, monitor, win),
        p.y == corner_y(corner, monitor, win),
{
    let x: i32 = match corner {
        Corner::TopLeft | Corner::BottomLeft => monitor.origin.x + MARGIN,
        Corner::TopRight | Corner::BottomRight => monitor.origin.x + monitor.size.width as i32
            - win.width as i32 - MARGIN,
    };
    let y: i32 = match corner {
        Corner::TopLeft | Corner::TopRight => monitor.origin.y + MARGIN,
        Corner::BottomLeft | Corner::BottomRight => monitor.origin.y + monitor.size.height as i32
            - win.height as i32 - BOTTOM_INSET,
    };
    Point { x, y }
}

/// The width the incoming resize is corrected to: a changed width means the
/// user dragged a horizontal or corner edge and the width is kept; an
/// unchanged width means a vertical-only drag and the width follows the
/// height. Width takes precedence on corner drags, which report a width
/// delta in the same event.
pub open spec fn corrected_width(incoming: Size, last_width: u32) -> int {
    if incoming.width != last_width {
        incoming.width as int
    } else {
        width_for_height(incoming.height as int)
    }
}

/// The height the incoming resize is corrected to; see [`corrected_width`].
pub open spec fn corrected_height(incoming: Size, last_width: u32) -> int {
    if incoming.width != last_width {
        height_for_width(incoming.width as int)
    } else {
        incoming.height as int
    }
}

/// Computes `height_for_width(w)` in machine integers.
fn height_for_width_exec(w: u32) -> (h: u32)
    requires
        w <= MAX_DIM,
    ensures
        h == height_for_width(w as int),
{
    proof {
        assert((w as int) * (ASPECT_H as int) <= (MAX_DIM as int) * (ASPECT_H as int))
            by (nonlinear_arith)
            requires
                w <= MAX_DIM,
        ;
    }
    let wide: u64 = (w as u64) * (ASPECT_H as u64) + (ASPECT_W as u64) / 2;
    proof {
        assert(wide / (ASPECT_W as u64) < 0x1_0000_0000) by (nonlinear_arith)
            requires
                wide <= (MAX_DIM as u64) * (ASPECT_H as u64) + (ASPECT_W as u64) / 2,
        ;
    }
    (wide / (ASPECT_W as u64)) as u32
}

/// Computes `width_for_height(h)` in machine integers.
fn width_for_height_exec(h: u32) -> (w: u32)
    requires
        h <= MAX_DIM,
    ensures
        w == width_for_height(h as int),
        w <= MAX_DIM,
{
    proof {
        assert((h as int) * (ASPECT_W as int) <= (MAX_DIM as int) * (ASPECT_W as int))
            by (nonlinear_arith)
            requires
                h <= MAX_DIM,
        ;
    }
    let wide: u64 = (h as u64) * (ASPECT_W as u64) + (ASPECT_H as u64) / 2;
    proof {
        assert(wide / (ASPECT_H as u64) <= MAX_DIM) by (nonlinear_arith)
            requires
                wide <= (MAX_DIM as u64) * (ASPECT_W as u64) + (ASPECT_H as u64) / 2,
        ;
    }
    (wide / (ASPECT_H as u64)) as u32
}

/// The aspect-locked resize state machine. `last_width` is the width last
/// accepted as intentional; `guard` is held while a programmatic correction
/// is in flight, so that the resize notification the correction itself
/// triggers is not re-corrected.
pub struct AspectLock {
    pub last_width: u32,
    pub guard: bool,
}

impl AspectLock {
    /// The bound the state machine maintains on its remembered width.
    pub open spec fn wf(self) -> bool {
        self.last_width <= MAX_DIM
    }

    /// A fresh state machine: no correction in flight.
    pub fn new(initial_width: u32) -> (s: Self)
        requires
            initial_width <= MAX_DIM,
        ensures
            s.last_width == initial_width,
            !s.guard,
            s.wf(),
    {
        AspectLock { last_width: initial_width, guard: false }
    }

    /// Handles one resize notification from the host. Returns the corrected
    /// size the caller must apply programmatically, or `None` when the
    /// incoming size already satisfies the ratio. While the guard is held
    /// the call is a no-op: the notification was self-inflicted by a
    /// correction and must not be re-corrected. When a correction is
    /// returned the guard is set; the caller applies the resize and then
    /// calls [`AspectLock::correction_applied`].
    pub fn on_resize(&mut self, incoming: Size) -> (correction: Option<Size>)
        requires
            old(self).wf(),
            incoming.width <= MAX_DIM,
            incoming.height <= MAX_DIM,
        ensures
            final(self).wf(),
            old(self).guard ==> correction is None && *final(self) == *old(self),
            !old(self).guard ==> {
                let cw = corrected_width(incoming, old(self).last_width);
                let ch = corrected_height(incoming, old(self).last_width);
                &&& final(self).last_width == cw
                &&& if cw == incoming.width && ch == incoming.height {
                    correction is None && !final(self).guard
                } else {
                    &&& correction matches Some(c) && c.width == cw && c.height == ch
                    &&& final(self).guard
                }
            },
    {
        if self.guard {
            return None;
        }
        let new_w: u32;
        let new_h: u32;
        if incoming.width != self.last_width {
            new_w = incoming.width;
            new_h = height_for_width_exec(incoming.width);
        } else {
            new_w = width_for_height_exec(incoming.height);
            new_h = incoming.height;
        }
        self.last_width = new_w;
        if new_w != incoming.width || new_h != incoming.height {
            self.guard = true;
            Some(Size { width: new_w, height: new_h })
        } else {
            None
        }
    }

    /// The host has finished applying a programmatic correction; resize
    /// notifications are accepted again.
    pub fn correction_applied(&mut self)
        ensures
            final(self).last_width == old(self).last_width,
            !final(self).guard,
            old(self).wf() ==> final(self).wf(),
    {
        self.guard = false;
    }
}

/// Aspect preservation for a width-driven resize: the corrected height is
/// the rounded ratio match for the incoming width, off from the exact
/// rational by at most half a denominator (one-pixel rounding tolerance).
/// `h` is within rounding tolerance of the exact ratio height for `w`:
/// scaled by the design width, the pair misses the exact ratio by at most
/// half a unit.
pub open spec fn height_within_rounding(w: int, h: int) -> bool {
    -(ASPECT_W as int) / 2 < (ASPECT_W as int) * h - (ASPECT_H as int) * w <= (ASPECT_W as int) / 2
}

/// `w` is within rounding tolerance of the exact ratio width for `h`.
pub open spec fn width_within_rounding(w: int, h: int) -> bool {
    -(ASPECT_H as int) / 2 < (ASPECT_H as int) * w - (ASPECT_W as int) * h <= (ASPECT_H as int) / 2
}

pub proof fn lemma_width_drag_keeps_aspect(incoming: Size, last_width: u32)
    requires
        1 <= incoming.width <= MAX_DIM,
        incoming.width != last_width,
    ensures
        corrected_width(incoming, last_width) == incoming.width as int,
        corrected_height(incoming, last_width) == height_for_width(incoming.width as int),
        height_within_rounding(incoming.width as int, corrected_height(incoming, last_width)),
{
    let a: int = incoming.width as int * (ASPECT_H as int);
    let b: int = ASPECT_W as int;
    let q: int = (a + b / 2) / b;
    assert(b * q <= a + b / 2 < b * (q + 1) && q == round_div(a, b)) by (nonlinear_arith)
        requires
            a >= 0,
            b == 164,
            q == (a + b / 2) / b,
        ;
}

/// The counterpart for a vertical-only drag: the height is kept and the
/// corrected width is the rounded ratio match for it.
pub proof fn lemma_height_drag_keeps_aspect(incoming: Size, last_width: u32)
    requires
        1 <= incoming.height <= MAX_DIM,
        incoming.width == last_width,
    ensures
        corrected_height(incoming, last_width) == incoming.height as int,
        corrected_width(incoming, last_width) == width_for_height(incoming.height as int),
        width_within_rounding(corrected_width(incoming, last_width), incoming.height as int),
{
    let a: int = incoming.height as int * (ASPECT_W as int);
    let b: int = ASPECT_H as int;
    let q: int = (a + b / 2) / b;
    assert(b * q <= a + b / 2 < b * (q + 1) && q == round_div(a, b)) by (nonlinear_arith)
        requires
            a >= 0,
            b == 252,
            q == (a + b / 2) / b,
        ;
}

/// The anchor point depends only on the corner and the observed monitor and
/// window size: two calls that observe the same geometry yield the same
/// coordinates, so repositioning is idempotent.
pub proof fn lemma_position_idempotent(corner: Corner, m1: Monitor, w1: Size, m2: Monitor, w2: Size)
    requires
        m1 == m2,
        w1 == w2,
    ensures
        corner_x(corner, m1, w1) == corner_x(corner, m2, w2),
        corner_y(corner, m1, w1) == corner_y(corner, m2, w2),
{
}

} // verus!
