//! The view of the map: zoom anchored at the cursor, pan kept within the content, and
//! the pointer sessions that tell a click from a drag and a tap from a pinch.
//!
//! Screen positions are in thousandths of a pixel and zoom factors in thousandths.

use vstd::prelude::*;
use crate::grid::{MAP_HEIGHT_PX, MAP_WIDTH_PX};
use crate::map_view::{dist_sq, squared_distance, ZOOM_MAX, ZOOM_MIN};
use crate::units::{
    clamped, div_floor, floor_sqrt, in_domain, is_floor_sqrt, isqrt, lemma_scaled_monotonic,
    scale, scale_wide, scaled,
};

verus! {

/// Factor of one zoom step, in thousandths.
pub const ZOOM_STEP: i64 = 1_100;

/// A mouse session that moves farther than this on either axis is a drag.
pub const DRAG_THRESHOLD: i64 = 3_000;

/// A touch session that moves farther than this is a pan.
pub const TOUCH_DRAG_THRESHOLD: i64 = 8_000;

/// A pinch that starts with the fingers closer than this changes nothing.
pub const PINCH_MIN_DISTANCE: i64 = 1_000;

/// Distances at or above this value are all reported as this value.
pub const DISTANCE_MAX: i64 = 4_000_000_000_000_000_000;

/// Zoom and pan of the map view.
#[derive(Debug, Clone, Copy, PartialEq, Eq, Structural)]
pub struct ViewTransform {
    pub zoom: i64,
    pub pan_x: i64,
    pub pan_y: i64,
}

/// Position and size of the map container on the screen.
#[derive(Debug, Clone, Copy, PartialEq, Eq, Structural)]
pub struct Rect {
    pub left: i64,
    pub top: i64,
    pub width: i64,
    pub height: i64,
}

/// The amount that a wheel event scrolls, in the unit that the device reports.
#[derive(Debug, Clone, Copy, PartialEq, Eq, Structural)]
pub enum WheelDelta {
    Pixels(i64),
    Lines(i64),
    Pages(i64),
}

/// A mouse session from button down to button up.
#[derive(Debug, Clone, Copy, PartialEq, Eq)]
pub struct MouseSession {
    pub is_dragging: bool,
    pub did_drag: bool,
    pub start: (i64, i64),
    pub start_pan: (i64, i64),
}

/// A touch session: one finger that taps or pans, or two fingers that pinch.
#[derive(Debug, Clone, Copy, PartialEq, Eq)]
pub struct TouchSession {
    pub start_pos: Option<(i64, i64)>,
    pub did_pan: bool,
    pub start_pan: (i64, i64),
    pub is_pinching: bool,
    pub pinch_start_distance: i64,
    pub pinch_start_zoom: i64,
    pub pinch_midpoint: (i64, i64),
    pub pinch_start_pan: (i64, i64),
}

impl Rect {
    /// Width and height lie in the coordinate domain.
    pub open spec fn wf(self) -> bool {
        in_domain(self.width as int) && in_domain(self.height as int)
    }
}

/// The distance between two points, or [`DISTANCE_MAX`] where it is that large.
pub open spec fn distance_between(a: (i64, i64), b: (i64, i64)) -> int {
    if dist_sq(a, b) < DISTANCE_MAX * DISTANCE_MAX {
        floor_sqrt(dist_sq(a, b))
    } else {
        DISTANCE_MAX as int
    }
}

/// The pan on one axis that keeps the content point under `cursor` in place when the zoom
/// changes from `old_zoom` to `new_zoom`.
pub open spec fn anchored_pan(cursor: int, old_zoom: int, new_zoom: int, old_pan: int) -> int {
    cursor - scaled(cursor - old_pan, new_zoom, old_zoom)
}

/// Width of the content at the given zoom in a container of width `w`.
pub open spec fn content_width(w: int, zoom: int) -> int {
    scaled(w, zoom, 1_000)
}

/// Height of the content at the given zoom in a container of width `w`: the image keeps
/// its aspect ratio.
pub open spec fn content_height(w: int, zoom: int) -> int {
    scaled(w, MAP_HEIGHT_PX * zoom, MAP_WIDTH_PX * 1_000)
}

/// The least pan on an axis where the content has the given extent and the container the
/// extent `view`: the content may not leave its far edge uncovered.
pub open spec fn min_pan(content: int, view: int) -> int {
    if content > view {
        view - content
    } else {
        0
    }
}

/// `pan` limited so that the content covers the container.
pub open spec fn limited_pan(pan: int, content: int, view: int) -> int {
    clamped(pan, min_pan(content, view), 0)
}

/// The zoom one step in or out from `zoom`, kept between [`ZOOM_MIN`] and [`ZOOM_MAX`].
pub open spec fn stepped_zoom(zoom: int, zoom_in: bool) -> int {
    if zoom_in {
        clamped(scaled(zoom, ZOOM_STEP as int, 1_000), ZOOM_MIN as int, ZOOM_MAX as int)
    } else {
        clamped(scaled(zoom, 1_000, ZOOM_STEP as int), ZOOM_MIN as int, ZOOM_MAX as int)
    }
}

/// The zoom of a pinch that began at `start_zoom` with the fingers `start_d` apart, now
/// that they are `d` apart.
pub open spec fn pinched_zoom(start_zoom: int, d: int, start_d: int) -> int {
    clamped(scaled(start_zoom, d, start_d), ZOOM_MIN as int, ZOOM_MAX as int)
}

/// The wheel amount in pixels: a line counts 40 pixels and a page 400.
pub open spec fn wheel_pixels(delta: WheelDelta) -> int {
    match delta {
        WheelDelta::Pixels(d) => d as int,
        WheelDelta::Lines(d) => d * 40,
        WheelDelta::Pages(d) => d * 400,
    }
}

impl ViewTransform {
    /// The zoom lies between [`ZOOM_MIN`] and [`ZOOM_MAX`] and no pan is positive.
    pub open spec fn wf(self) -> bool {
        ZOOM_MIN <= self.zoom <= ZOOM_MAX && self.pan_x <= 0 && self.pan_y <= 0
    }

    /// Zoom one and no pan.
    pub open spec fn initial() -> ViewTransform {
        ViewTransform { zoom: ZOOM_MIN, pan_x: 0, pan_y: 0 }
    }

    /// The view with the given pan, limited to the content of a container.
    pub open spec fn panned_to(self, pan_x: int, pan_y: int, rect: Rect) -> ViewTransform {
        ViewTransform {
            zoom: self.zoom,
            pan_x: limited_pan(
                pan_x,
                content_width(rect.width as int, self.zoom as int),
                rect.width as int,
            ) as i64,
            pan_y: limited_pan(
                pan_y,
                content_height(rect.width as int, self.zoom as int),
                rect.height as int,
            ) as i64,
        }
    }

    /// The view at `new_zoom` with the content point under the client position `at` kept in
    /// place, as far as the limits of the pan allow. `pan` is the pan before the change.
    pub open spec fn zoomed_at(
        old_zoom: int,
        pan: (i64, i64),
        new_zoom: i64,
        at: (i64, i64),
        rect: Rect,
    ) -> ViewTransform {
        (ViewTransform { zoom: new_zoom, pan_x: 0, pan_y: 0 }).panned_to(
            anchored_pan(at.0 - rect.left, old_zoom, new_zoom as int, pan.0 as int),
            anchored_pan(at.1 - rect.top, old_zoom, new_zoom as int, pan.1 as int),
            rect,
        )
    }

    /// The view after a wheel event at the client position `at`: a negative amount zooms
    /// in by one step, any other zooms out, about the cursor. Where the zoom is at its
    /// limit already, the view stays as it is.
    pub open spec fn after_wheel(self, delta_y: int, at: (i64, i64), rect: Rect) -> ViewTransform {
        let new_zoom = stepped_zoom(self.zoom as int, delta_y < 0);
        if new_zoom == self.zoom {
            self
        } else {
            Self::zoomed_at(
                self.zoom as int,
                (self.pan_x, self.pan_y),
                new_zoom as i64,
                at,
                rect,
            )
        }
    }
}

/// A pan limited to the content is never positive and never uncovers the far edge.
pub proof fn lemma_limited_pan_bounds(pan: int, content: int, view: int)
    ensures
        limited_pan(pan, content, view) <= 0,
        content >= view ==> limited_pan(pan, content, view) >= -(content - view),
        content <= view ==> limited_pan(pan, content, view) == 0,
{
}

/// Stepped and pinched zooms lie between [`ZOOM_MIN`] and [`ZOOM_MAX`].
pub proof fn lemma_zoom_bounds(zoom: int, zoom_in: bool, d: int, start_d: int)
    ensures
        ZOOM_MIN <= stepped_zoom(zoom, zoom_in) <= ZOOM_MAX,
        ZOOM_MIN <= pinched_zoom(zoom, d, start_d) <= ZOOM_MAX,
{
}

/// Every view that a pan or a zoom produces from a well-formed zoom is well formed.
pub proof fn lemma_view_stays_well_formed(
    view: ViewTransform,
    pan_x: int,
    pan_y: int,
    delta_y: int,
    at: (i64, i64),
    rect: Rect,
)
    requires
        view.wf(),
        rect.wf(),
    ensures
        view.panned_to(pan_x, pan_y, rect).wf(),
        view.after_wheel(delta_y, at, rect).wf(),
        ViewTransform::initial().wf(),
{
    lemma_content_bounds(rect.width as int, view.zoom as int);
    let z = stepped_zoom(view.zoom as int, delta_y < 0);
    lemma_content_bounds(rect.width as int, z);
}

/// The content of a container in the domain is at most eleven times the domain's limit.
pub proof fn lemma_content_bounds(w: int, zoom: int)
    requires
        in_domain(w),
        ZOOM_MIN <= zoom <= ZOOM_MAX,
    ensures
        -11_000_000_000_000_000 <= content_width(w, zoom) <= 11_000_000_000_000_000,
        -11_000_000_000_000_000 <= content_height(w, zoom) <= 11_000_000_000_000_000,
{
    lemma_scaled_monotonic(-1_000_000_000_000_000, w, zoom, 1_000);
    lemma_scaled_monotonic(w, 1_000_000_000_000_000, zoom, 1_000);
    assert(scaled(1_000_000_000_000_000, zoom, 1_000) <= 11_000_000_000_000_000) by (nonlinear_arith)
        requires
            1_000 <= zoom <= 10_000,
    ;
    assert(scaled(-1_000_000_000_000_000, zoom, 1_000) >= -11_000_000_000_000_000) by (nonlinear_arith)
        requires
            1_000 <= zoom <= 10_000,
    ;
    let n = MAP_HEIGHT_PX * zoom;
    let d = MAP_WIDTH_PX * 1_000;
    lemma_scaled_monotonic(-1_000_000_000_000_000, w, n, d);
    lemma_scaled_monotonic(w, 1_000_000_000_000_000, n, d);
    assert(scaled(1_000_000_000_000_000, 888_000 * zoom, 1_024_000_000) <= 11_000_000_000_000_000)
        by (nonlinear_arith)
        requires
            1_000 <= zoom <= 10_000,
    ;
    assert(scaled(-1_000_000_000_000_000, 888_000 * zoom, 1_024_000_000)
        >= -11_000_000_000_000_000) by (nonlinear_arith)
        requires
            1_000 <= zoom <= 10_000,
    ;
}

/// The content coordinate, on one axis, of the point under a screen position at a zoom.
pub open spec fn content_point(cursor: int, pan: int, zoom: int) -> int {
    scaled(cursor - pan, 1_000, zoom)
}

/// Zooming about a cursor keeps the content point under it in place to within one
/// thousandth of a pixel, as long as the pan is not limited afterwards.
pub proof fn lemma_zoom_keeps_cursor_point(cursor: int, pan: int, old_zoom: int, new_zoom: int)
    requires
        ZOOM_MIN <= old_zoom <= ZOOM_MAX,
        ZOOM_MIN <= new_zoom <= ZOOM_MAX,
    ensures
        content_point(cursor, pan, old_zoom) - 1 <= content_point(
            cursor,
            anchored_pan(cursor, old_zoom, new_zoom, pan),
            new_zoom,
        ) <= content_point(cursor, pan, old_zoom) + 1,
{
    let c = cursor - pan;
    let q = scaled(c, new_zoom, old_zoom);
    let before = scaled(c, 1_000, old_zoom);
    let after = scaled(q, 1_000, new_zoom);
    assert(cursor - anchored_pan(cursor, old_zoom, new_zoom, pan) == q);
    // q is c * new / old to within a half, so q * old lies within old of 2 * c * new.
    let nq = 2 * c * new_zoom + old_zoom;
    assert(q == nq / (2 * old_zoom));
    assert(nq == (2 * old_zoom) * q + nq % (2 * old_zoom)) by {
        vstd::arithmetic::div_mod::lemma_fundamental_div_mod(nq, 2 * old_zoom);
    }
    assert(0 <= nq % (2 * old_zoom) < 2 * old_zoom) by {
        vstd::arithmetic::div_mod::lemma_mod_bound(nq, 2 * old_zoom);
    }
    let nb = 2 * c * 1_000 + old_zoom;
    assert(before == nb / (2 * old_zoom));
    assert(nb == (2 * old_zoom) * before + nb % (2 * old_zoom)) by {
        vstd::arithmetic::div_mod::lemma_fundamental_div_mod(nb, 2 * old_zoom);
    }
    assert(0 <= nb % (2 * old_zoom) < 2 * old_zoom) by {
        vstd::arithmetic::div_mod::lemma_mod_bound(nb, 2 * old_zoom);
    }
    let na = 2 * q * 1_000 + new_zoom;
    assert(after == na / (2 * new_zoom));
    assert(na == (2 * new_zoom) * after + na % (2 * new_zoom)) by {
        vstd::arithmetic::div_mod::lemma_fundamental_div_mod(na, 2 * new_zoom);
    }
    assert(0 <= na % (2 * new_zoom) < 2 * new_zoom) by {
        vstd::arithmetic::div_mod::lemma_mod_bound(na, 2 * new_zoom);
    }
    let rq = nq % (2 * old_zoom);
    let rb = nb % (2 * old_zoom);
    let ra = na % (2 * new_zoom);
    assert(before - 1 <= after <= before + 1) by (nonlinear_arith)
        requires
            1_000 <= old_zoom <= 10_000,
            1_000 <= new_zoom <= 10_000,
            2 * c * new_zoom + old_zoom == (2 * old_zoom) * q + rq,
            0 <= rq < 2 * old_zoom,
            2 * c * 1_000 + old_zoom == (2 * old_zoom) * before + rb,
            0 <= rb < 2 * old_zoom,
            2 * q * 1_000 + new_zoom == (2 * new_zoom) * after + ra,
            0 <= ra < 2 * new_zoom,
    ;
}

/// The distance between two points, or [`DISTANCE_MAX`] where it is that large.
pub fn point_distance(a: (i64, i64), b: (i64, i64)) -> (d: i64)
    ensures
        d == distance_between(a, b),
        0 <= d <= DISTANCE_MAX,
        dist_sq(a, b) < DISTANCE_MAX * DISTANCE_MAX ==> is_floor_sqrt(dist_sq(a, b), d as int),
{
    let d2: u128 = squared_distance(a, b);
    assert(DISTANCE_MAX * DISTANCE_MAX == 16_000_000_000_000_000_000_000_000_000_000_000_000)
        by (nonlinear_arith)
        requires
            DISTANCE_MAX == 4_000_000_000_000_000_000,
    ;
    if d2 >= 16_000_000_000_000_000_000_000_000_000_000_000_000 {
        DISTANCE_MAX
    } else {
        let r: u64 = isqrt(d2);
        assert(r < 4_000_000_000_000_000_000) by (nonlinear_arith)
            requires
                r * r <= d2,
                d2 < 16_000_000_000_000_000_000_000_000_000_000_000_000,
        ;
        r as i64
    }
}

/// The wheel amount in pixels: a line counts 40 pixels and a page 400.
pub fn wheel_delta_y(delta: WheelDelta) -> (pixels: i64)
    requires
        match delta {
            WheelDelta::Pixels(_) => true,
            WheelDelta::Lines(d) => in_domain(d as int),
            WheelDelta::Pages(d) => in_domain(d as int),
        },
    ensures
        pixels == wheel_pixels(delta),
{
    match delta {
        WheelDelta::Pixels(d) => d,
        WheelDelta::Lines(d) => d * 40,
        WheelDelta::Pages(d) => d * 400,
    }
}

/// The pan that keeps the content point under the cursor in place when the zoom changes
/// from `old_zoom` to `new_zoom`.
pub fn zoom_pan_at_cursor(
    cursor_x: i64,
    cursor_y: i64,
    old_zoom: i64,
    new_zoom: i64,
    old_pan_x: i64,
    old_pan_y: i64,
) -> (pan: (i64, i64))
    requires
        ZOOM_MIN <= old_zoom <= ZOOM_MAX,
        ZOOM_MIN <= new_zoom <= ZOOM_MAX,
        in_domain(cursor_x as int),
        in_domain(cursor_y as int),
        in_domain(old_pan_x as int),
        in_domain(old_pan_y as int),
    ensures
        pan.0 == anchored_pan(cursor_x as int, old_zoom as int, new_zoom as int, old_pan_x as int),
        pan.1 == anchored_pan(cursor_y as int, old_zoom as int, new_zoom as int, old_pan_y as int),
{
    let x: i128 = anchor(cursor_x as i128, old_zoom, new_zoom, old_pan_x);
    let y: i128 = anchor(cursor_y as i128, old_zoom, new_zoom, old_pan_y);
    proof {
        lemma_anchor_bounds(cursor_x as int, old_zoom as int, new_zoom as int, old_pan_x as int);
        lemma_anchor_bounds(cursor_y as int, old_zoom as int, new_zoom as int, old_pan_y as int);
    }
    (x as i64, y as i64)
}

/// An anchored pan of operands in the domain fits in 64 bits.
proof fn lemma_anchor_bounds(cursor: int, old_zoom: int, new_zoom: int, pan: int)
    requires
        ZOOM_MIN <= old_zoom <= ZOOM_MAX,
        ZOOM_MIN <= new_zoom <= ZOOM_MAX,
        in_domain(cursor),
        in_domain(pan),
    ensures
        -22_000_000_000_000_000 <= anchored_pan(cursor, old_zoom, new_zoom, pan)
            <= 22_000_000_000_000_000,
{
    let c = cursor - pan;
    lemma_scaled_monotonic(-2_000_000_000_000_000, c, new_zoom, old_zoom);
    lemma_scaled_monotonic(c, 2_000_000_000_000_000, new_zoom, old_zoom);
    assert(scaled(2_000_000_000_000_000, new_zoom, old_zoom) <= 21_000_000_000_000_000)
        by (nonlinear_arith)
        requires
            1_000 <= old_zoom <= 10_000,
            1_000 <= new_zoom <= 10_000,
    ;
    assert(scaled(-2_000_000_000_000_000, new_zoom, old_zoom) >= -21_000_000_000_000_000)
        by (nonlinear_arith)
        requires
            1_000 <= old_zoom <= 10_000,
            1_000 <= new_zoom <= 10_000,
    ;
}

/// The anchored pan on one axis, in 128 bits.
fn anchor(cursor: i128, old_zoom: i64, new_zoom: i64, old_pan: i64) -> (pan: i128)
    requires
        ZOOM_MIN <= old_zoom <= ZOOM_MAX,
        ZOOM_MIN <= new_zoom <= ZOOM_MAX,
        -0x1_0000_0000_0000_0000 <= cursor <= 0x1_0000_0000_0000_0000,
    ensures
        pan == anchored_pan(cursor as int, old_zoom as int, new_zoom as int, old_pan as int),
        -0x1_0000_0000_0000_0000_0000 <= pan <= 0x1_0000_0000_0000_0000_0000,
{
    let c: i128 = cursor - old_pan as i128;
    assert(-0x2_0000_0000_0000_0000 * 10_000 <= c * new_zoom <= 0x2_0000_0000_0000_0000 * 10_000)
        by (nonlinear_arith)
        requires
            -0x2_0000_0000_0000_0000 <= c <= 0x2_0000_0000_0000_0000,
            1_000 <= new_zoom <= 10_000,
    ;
    proof {
        lemma_scaled_monotonic(-0x2_0000_0000_0000_0000, c as int, new_zoom as int, old_zoom as int);
        lemma_scaled_monotonic(c as int, 0x2_0000_0000_0000_0000, new_zoom as int, old_zoom as int);
        assert(scaled(0x2_0000_0000_0000_0000, new_zoom as int, old_zoom as int)
            <= 0x2_0000_0000_0000_0000 * 11) by (nonlinear_arith)
            requires
                1_000 <= old_zoom <= 10_000,
                1_000 <= new_zoom <= 10_000,
        ;
        assert(scaled(-0x2_0000_0000_0000_0000, new_zoom as int, old_zoom as int)
            >= -0x2_0000_0000_0000_0000 * 11) by (nonlinear_arith)
            requires
                1_000 <= old_zoom <= 10_000,
                1_000 <= new_zoom <= 10_000,
        ;
    }
    let q: i128 = scale_wide(c, new_zoom as i128, old_zoom as i128);
    cursor - q
}

/// `pan` limited so that content of the given extent covers a container of extent `view`.
fn limit_pan(pan: i128, content: i128, view: i64) -> (out: i64)
    requires
        -11_000_000_000_000_000 <= content <= 11_000_000_000_000_000,
        in_domain(view as int),
    ensures
        out == limited_pan(pan as int, content as int, view as int),
        out <= 0,
{
    let lo: i128 = if content > view as i128 {
        view as i128 - content
    } else {
        0
    };
    if pan < lo {
        lo as i64
    } else if pan > 0 {
        0
    } else {
        pan as i64
    }
}

/// Both pans limited to the content of a container at the given zoom.
fn limit_pans(pan_x: i128, pan_y: i128, zoom: i64, rect: Rect) -> (pan: (i64, i64))
    requires
        ZOOM_MIN <= zoom <= ZOOM_MAX,
        rect.wf(),
    ensures
        pan.0 == limited_pan(
            pan_x as int,
            content_width(rect.width as int, zoom as int),
            rect.width as int,
        ),
        pan.1 == limited_pan(
            pan_y as int,
            content_height(rect.width as int, zoom as int),
            rect.height as int,
        ),
        pan.0 <= 0,
        pan.1 <= 0,
{
    proof {
        lemma_content_bounds(rect.width as int, zoom as int);
    }
    let content_w: i128 = scale(rect.width, zoom, 1_000);
    let content_h: i128 = scale(rect.width, MAP_HEIGHT_PX * zoom, MAP_WIDTH_PX * 1_000);
    (limit_pan(pan_x, content_w, rect.width), limit_pan(pan_y, content_h, rect.height))
}

/// Limits a pan so that the map cannot be dragged off the screen.
pub fn clamp_pan(pan_x: i64, pan_y: i64, zoom: i64, container_w: i64, container_h: i64) -> (pan: (
    i64,
    i64,
))
    requires
        ZOOM_MIN <= zoom <= ZOOM_MAX,
        in_domain(container_w as int),
        in_domain(container_h as int),
    ensures
        pan.0 == limited_pan(
            pan_x as int,
            content_width(container_w as int, zoom as int),
            container_w as int,
        ),
        pan.1 == limited_pan(
            pan_y as int,
            content_height(container_w as int, zoom as int),
            container_h as int,
        ),
        pan.0 <= 0,
        pan.1 <= 0,
{
    let rect = Rect { left: 0, top: 0, width: container_w, height: container_h };
    limit_pans(pan_x as i128, pan_y as i128, zoom, rect)
}

/// The zoom one step in or out from `zoom`.
pub fn step_zoom(zoom: i64, zoom_in: bool) -> (out: i64)
    ensures
        out == stepped_zoom(zoom as int, zoom_in),
        ZOOM_MIN <= out <= ZOOM_MAX,
{
    let raw: i128 = if zoom_in {
        scale(zoom, ZOOM_STEP, 1_000)
    } else {
        scale(zoom, 1_000, ZOOM_STEP)
    };
    if raw < ZOOM_MIN as i128 {
        ZOOM_MIN
    } else if raw > ZOOM_MAX as i128 {
        ZOOM_MAX
    } else {
        raw as i64
    }
}

impl ViewTransform {
    /// Zoom one and no pan.
    pub fn new() -> (out: Self)
        ensures
            out == Self::initial(),
            out.wf(),
    {
        ViewTransform { zoom: ZOOM_MIN, pan_x: 0, pan_y: 0 }
    }

    /// Back to zoom one and no pan.
    pub fn reset(&mut self)
        ensures
            *final(self) == Self::initial(),
    {
        self.zoom = ZOOM_MIN;
        self.pan_x = 0;
        self.pan_y = 0;
    }

    /// Moves the pan to the given values, limited to the content of the container.
    pub fn pan_to(&mut self, pan_x: i64, pan_y: i64, rect: Rect)
        requires
            old(self).wf(),
            rect.wf(),
        ensures
            *final(self) == old(self).panned_to(pan_x as int, pan_y as int, rect),
            final(self).wf(),
    {
        let (px, py) = limit_pans(pan_x as i128, pan_y as i128, self.zoom, rect);
        self.pan_x = px;
        self.pan_y = py;
    }

    /// Sets the zoom to `new_zoom` about the client position `at`, from the zoom and pan
    /// given as the state before the change.
    pub fn zoom_about(
        &mut self,
        old_zoom: i64,
        pan: (i64, i64),
        new_zoom: i64,
        at: (i64, i64),
        rect: Rect,
    )
        requires
            ZOOM_MIN <= old_zoom <= ZOOM_MAX,
            ZOOM_MIN <= new_zoom <= ZOOM_MAX,
            rect.wf(),
        ensures
            *final(self) == Self::zoomed_at(old_zoom as int, pan, new_zoom, at, rect),
            final(self).wf(),
    {
        let cx: i128 = at.0 as i128 - rect.left as i128;
        let cy: i128 = at.1 as i128 - rect.top as i128;
        let ax: i128 = anchor(cx, old_zoom, new_zoom, pan.0);
        let ay: i128 = anchor(cy, old_zoom, new_zoom, pan.1);
        let (px, py) = limit_pans(ax, ay, new_zoom, rect);
        self.zoom = new_zoom;
        self.pan_x = px;
        self.pan_y = py;
    }

    /// Handles a wheel event of the given amount at the client position `at`.
    pub fn wheel(&mut self, delta_y: i64, at: (i64, i64), rect: Rect)
        requires
            old(self).wf(),
            rect.wf(),
        ensures
            *final(self) == old(self).after_wheel(delta_y as int, at, rect),
            final(self).wf(),
    {
        let new_zoom: i64 = step_zoom(self.zoom, delta_y < 0);
        if new_zoom != self.zoom {
            let old_zoom: i64 = self.zoom;
            let pan: (i64, i64) = (self.pan_x, self.pan_y);
            self.zoom_about(old_zoom, pan, new_zoom, at, rect);
        }
    }
}

/// The state of the map view: its transform and the pointer sessions under way.
#[derive(Debug, Clone, Copy, PartialEq, Eq)]
pub struct MapView {
    pub view: ViewTransform,
    pub mouse: MouseSession,
    pub touch: TouchSession,
}

/// Whether an offset exceeds the drag threshold of the mouse on either axis.
pub open spec fn is_mouse_drag(dx: int, dy: int) -> bool {
    dx > DRAG_THRESHOLD || dx < -DRAG_THRESHOLD || dy > DRAG_THRESHOLD || dy < -DRAG_THRESHOLD
}

/// Whether a finger has moved farther than the drag threshold of touch.
pub open spec fn is_touch_pan(start: (i64, i64), cur: (i64, i64)) -> bool {
    dist_sq(start, cur) > TOUCH_DRAG_THRESHOLD * TOUCH_DRAG_THRESHOLD
}

/// The point halfway between two points, each coordinate rounded down.
pub open spec fn midpoint_of(a: (i64, i64), b: (i64, i64)) -> (i64, i64) {
    (((a.0 + b.0) / 2) as i64, ((a.1 + b.1) / 2) as i64)
}

impl MapView {
    /// The transform is well formed and a pinch began at a zoom within the limits.
    pub open spec fn wf(self) -> bool {
        self.view.wf() && ZOOM_MIN <= self.touch.pinch_start_zoom <= ZOOM_MAX
    }

    /// The view after the primary mouse button went down at `client`.
    pub open spec fn after_mouse_down(self, client: (i64, i64)) -> MapView {
        MapView {
            mouse: MouseSession {
                is_dragging: true,
                did_drag: false,
                start: client,
                start_pan: (self.view.pan_x, self.view.pan_y),
            },
            ..self
        }
    }

    /// The view after the mouse moved to `client`. A session becomes a drag once the
    /// mouse is farther than [`DRAG_THRESHOLD`] from its start on either axis; a drag
    /// pans the view by the offset from the start.
    pub open spec fn after_mouse_move(self, client: (i64, i64), rect: Rect) -> MapView {
        let dx = client.0 - self.mouse.start.0;
        let dy = client.1 - self.mouse.start.1;
        if !self.mouse.is_dragging {
            self
        } else if self.mouse.did_drag || is_mouse_drag(dx, dy) {
            MapView {
                view: self.view.panned_to(
                    self.mouse.start_pan.0 + dx,
                    self.mouse.start_pan.1 + dy,
                    rect,
                ),
                mouse: MouseSession { did_drag: true, ..self.mouse },
                ..self
            }
        } else {
            self
        }
    }

    /// The view after the mouse button went up, or the mouse left the container.
    pub open spec fn after_mouse_up(self) -> MapView {
        MapView { mouse: MouseSession { is_dragging: false, ..self.mouse }, ..self }
    }

    /// Whether a mouse button going up now ends a click: a session without a drag.
    pub open spec fn is_click(self) -> bool {
        self.mouse.is_dragging && !self.mouse.did_drag
    }

    /// The view after fingers went down at `touches`. One finger starts a tap or a pan;
    /// two or more start a pinch about the point halfway between the first two.
    pub open spec fn after_touch_start(self, touches: Seq<(i64, i64)>) -> MapView {
        if touches.len() == 1 {
            MapView {
                touch: TouchSession {
                    start_pos: Some(touches[0]),
                    did_pan: false,
                    start_pan: (self.view.pan_x, self.view.pan_y),
                    ..self.touch
                },
                ..self
            }
        } else if touches.len() >= 2 {
            MapView {
                touch: TouchSession {
                    start_pos: None,
                    did_pan: true,
                    start_pan: self.touch.start_pan,
                    is_pinching: true,
                    pinch_start_distance: distance_between(touches[0], touches[1]) as i64,
                    pinch_start_zoom: self.view.zoom,
                    pinch_midpoint: midpoint_of(touches[0], touches[1]),
                    pinch_start_pan: (self.view.pan_x, self.view.pan_y),
                },
                ..self
            }
        } else {
            self
        }
    }

    /// The view after fingers moved to `touches`. A pinch sets the zoom to the zoom at
    /// its start times the ratio of the finger distances, about its midpoint; a pinch
    /// that began with the fingers closer than [`PINCH_MIN_DISTANCE`] changes nothing.
    /// One finger pans once it is farther than [`TOUCH_DRAG_THRESHOLD`] from its start.
    pub open spec fn after_touch_move(self, touches: Seq<(i64, i64)>, rect: Rect) -> MapView {
        if self.touch.is_pinching && touches.len() >= 2 {
            if self.touch.pinch_start_distance < PINCH_MIN_DISTANCE {
                self
            } else {
                MapView {
                    view: ViewTransform::zoomed_at(
                        self.touch.pinch_start_zoom as int,
                        self.touch.pinch_start_pan,
                        pinched_zoom(
                            self.touch.pinch_start_zoom as int,
                            distance_between(touches[0], touches[1]),
                            self.touch.pinch_start_distance as int,
                        ) as i64,
                        self.touch.pinch_midpoint,
                        rect,
                    ),
                    ..self
                }
            }
        } else if touches.len() == 1 {
            match self.touch.start_pos {
                Some(start) => if self.touch.did_pan || is_touch_pan(start, touches[0]) {
                    MapView {
                        view: self.view.panned_to(
                            self.touch.start_pan.0 + (touches[0].0 - start.0),
                            self.touch.start_pan.1 + (touches[0].1 - start.1),
                            rect,
                        ),
                        touch: TouchSession { did_pan: true, ..self.touch },
                        ..self
                    }
                } else {
                    self
                },
                None => self,
            }
        } else {
            self
        }
    }

    /// The position of the tap that fingers going up now complete, `remaining` fingers
    /// still being down: the start of a one-finger session that neither panned nor
    /// pinched, once the last finger is up.
    pub open spec fn tap_at(self, remaining: int) -> Option<(i64, i64)> {
        if !self.touch.is_pinching && remaining == 0 && !self.touch.did_pan {
            self.touch.start_pos
        } else {
            None
        }
    }

    /// The view after fingers went up, `remaining` fingers still being down.
    pub open spec fn after_touch_end(self, remaining: int) -> MapView {
        if remaining == 0 {
            MapView {
                touch: TouchSession { start_pos: None, is_pinching: false, ..self.touch },
                ..self
            }
        } else {
            self
        }
    }

    /// The view after the touch session was cancelled.
    pub open spec fn after_touch_cancel(self) -> MapView {
        MapView {
            touch: TouchSession {
                start_pos: None,
                did_pan: false,
                is_pinching: false,
                ..self.touch
            },
            ..self
        }
    }

    /// The initial view with no session under way: zoom one, no pan, and every stored
    /// position and distance zero.
    pub open spec fn initial() -> MapView {
        MapView {
            view: ViewTransform::initial(),
            mouse: MouseSession {
                is_dragging: false,
                did_drag: false,
                start: (0, 0),
                start_pan: (0, 0),
            },
            touch: TouchSession {
                start_pos: None,
                did_pan: false,
                start_pan: (0, 0),
                is_pinching: false,
                pinch_start_distance: 0,
                pinch_start_zoom: ZOOM_MIN,
                pinch_midpoint: (0, 0),
                pinch_start_pan: (0, 0),
            },
        }
    }

    /// The initial view with no session under way.
    pub fn new() -> (out: Self)
        ensures
            out == Self::initial(),
            out.wf(),
    {
        MapView {
            view: ViewTransform::new(),
            mouse: MouseSession {
                is_dragging: false,
                did_drag: false,
                start: (0, 0),
                start_pan: (0, 0),
            },
            touch: TouchSession {
                start_pos: None,
                did_pan: false,
                start_pan: (0, 0),
                is_pinching: false,
                pinch_start_distance: 0,
                pinch_start_zoom: ZOOM_MIN,
                pinch_midpoint: (0, 0),
                pinch_start_pan: (0, 0),
            },
        }
    }

    /// Handles a wheel event of the given amount at the client position `at`.
    pub fn on_wheel(&mut self, delta: WheelDelta, at: (i64, i64), rect: Rect)
        requires
            old(self).wf(),
            rect.wf(),
            match delta {
                WheelDelta::Pixels(_) => true,
                WheelDelta::Lines(d) => in_domain(d as int),
                WheelDelta::Pages(d) => in_domain(d as int),
            },
        ensures
            *final(self) == (MapView {
                view: old(self).view.after_wheel(wheel_pixels(delta), at, rect),
                ..*old(self)
            }),
            final(self).wf(),
    {
        let delta_y: i64 = wheel_delta_y(delta);
        self.view.wheel(delta_y, at, rect);
    }

    /// Handles the primary mouse button going down at `client`.
    pub fn on_mouse_down(&mut self, client: (i64, i64))
        ensures
            *final(self) == old(self).after_mouse_down(client),
            old(self).wf() ==> final(self).wf(),
    {
        self.mouse = MouseSession {
            is_dragging: true,
            did_drag: false,
            start: client,
            start_pan: (self.view.pan_x, self.view.pan_y),
        };
    }

    /// Handles the mouse moving to `client`.
    pub fn on_mouse_move(&mut self, client: (i64, i64), rect: Rect)
        requires
            old(self).wf(),
            rect.wf(),
        ensures
            *final(self) == old(self).after_mouse_move(client, rect),
            final(self).wf(),
    {
        if !self.mouse.is_dragging {
            return;
        }
        let dx: i128 = client.0 as i128 - self.mouse.start.0 as i128;
        let dy: i128 = client.1 as i128 - self.mouse.start.1 as i128;
        let t: i128 = DRAG_THRESHOLD as i128;
        if !self.mouse.did_drag && (dx > t || dx < -t || dy > t || dy < -t) {
            self.mouse.did_drag = true;
        }
        if self.mouse.did_drag {
            let (px, py) = limit_pans(
                self.mouse.start_pan.0 as i128 + dx,
                self.mouse.start_pan.1 as i128 + dy,
                self.view.zoom,
                rect,
            );
            self.view.pan_x = px;
            self.view.pan_y = py;
        }
    }

    /// Handles the mouse button going up. Returns whether that ends a click.
    pub fn on_mouse_up(&mut self) -> (click: bool)
        ensures
            click == old(self).is_click(),
            *final(self) == old(self).after_mouse_up(),
            old(self).wf() ==> final(self).wf(),
    {
        let click = self.mouse.is_dragging && !self.mouse.did_drag;
        self.mouse.is_dragging = false;
        click
    }

    /// Handles the mouse leaving the container: the session ends without a click.
    pub fn on_mouse_leave(&mut self)
        ensures
            *final(self) == old(self).after_mouse_up(),
            old(self).wf() ==> final(self).wf(),
    {
        self.mouse.is_dragging = false;
    }

    /// Handles a double click: back to zoom one and no pan.
    pub fn on_double_click(&mut self)
        ensures
            *final(self) == (MapView { view: ViewTransform::initial(), ..*old(self) }),
            old(self).wf() ==> final(self).wf(),
    {
        self.view.reset();
    }

    /// Handles fingers going down at `touches`.
    pub fn on_touch_start(&mut self, touches: &Vec<(i64, i64)>)
        requires
            old(self).wf(),
        ensures
            *final(self) == old(self).after_touch_start(touches@),
            final(self).wf(),
    {
        if touches.len() == 1 {
            self.touch.start_pos = Some(touches[0]);
            self.touch.did_pan = false;
            self.touch.start_pan = (self.view.pan_x, self.view.pan_y);
        } else if touches.len() >= 2 {
            let first: (i64, i64) = touches[0];
            let second: (i64, i64) = touches[1];
            let mx: i128 = div_floor(first.0 as i128 + second.0 as i128, 2);
            let my: i128 = div_floor(first.1 as i128 + second.1 as i128, 2);
            self.touch.is_pinching = true;
            self.touch.pinch_start_distance = point_distance(first, second);
            self.touch.pinch_start_zoom = self.view.zoom;
            self.touch.pinch_midpoint = (mx as i64, my as i64);
            self.touch.pinch_start_pan = (self.view.pan_x, self.view.pan_y);
            self.touch.start_pos = None;
            self.touch.did_pan = true;
        }
    }

    /// Handles fingers moving to `touches`.
    pub fn on_touch_move(&mut self, touches: &Vec<(i64, i64)>, rect: Rect)
        requires
            old(self).wf(),
            rect.wf(),
        ensures
            *final(self) == old(self).after_touch_move(touches@, rect),
            final(self).wf(),
    {
        if self.touch.is_pinching && touches.len() >= 2 {
            let start_d: i64 = self.touch.pinch_start_distance;
            if start_d < PINCH_MIN_DISTANCE {
                return;
            }
            let d: i64 = point_distance(touches[0], touches[1]);
            let old_zoom: i64 = self.touch.pinch_start_zoom;
            let raw: i128 = scale(old_zoom, d, start_d);
            let new_zoom: i64 = if raw < ZOOM_MIN as i128 {
                ZOOM_MIN
            } else if raw > ZOOM_MAX as i128 {
                ZOOM_MAX
            } else {
                raw as i64
            };
            let pan: (i64, i64) = self.touch.pinch_start_pan;
            let mid: (i64, i64) = self.touch.pinch_midpoint;
            self.view.zoom_about(old_zoom, pan, new_zoom, mid, rect);
        } else if touches.len() == 1 {
            let cur: (i64, i64) = touches[0];
            match self.touch.start_pos {
                Some(start) => {
                    if !self.touch.did_pan {
                        let d2: u128 = squared_distance(start, cur);
                        if d2 > 64_000_000 {
                            self.touch.did_pan = true;
                        }
                    }
                    if self.touch.did_pan {
                        let dx: i128 = cur.0 as i128 - start.0 as i128;
                        let dy: i128 = cur.1 as i128 - start.1 as i128;
                        let (px, py) = limit_pans(
                            self.touch.start_pan.0 as i128 + dx,
                            self.touch.start_pan.1 as i128 + dy,
                            self.view.zoom,
                            rect,
                        );
                        self.view.pan_x = px;
                        self.view.pan_y = py;
                    }
                },
                None => {},
            }
        }
    }

    /// Handles fingers going up, `remaining` fingers still being down. Returns the
    /// position of the tap that this completes, if any.
    pub fn on_touch_end(&mut self, remaining: usize) -> (tap: Option<(i64, i64)>)
        ensures
            tap == old(self).tap_at(remaining as int),
            *final(self) == old(self).after_touch_end(remaining as int),
            old(self).wf() ==> final(self).wf(),
    {
        if self.touch.is_pinching {
            if remaining == 0 {
                self.touch.is_pinching = false;
                self.touch.start_pos = None;
            }
            return None;
        }
        let tap: Option<(i64, i64)> = if remaining == 0 && !self.touch.did_pan {
            self.touch.start_pos
        } else {
            None
        };
        if remaining == 0 {
            self.touch.start_pos = None;
        }
        tap
    }

    /// Handles the touch session being cancelled.
    pub fn on_touch_cancel(&mut self)
        ensures
            *final(self) == old(self).after_touch_cancel(),
            old(self).wf() ==> final(self).wf(),
    {
        self.touch.start_pos = None;
        self.touch.did_pan = false;
        self.touch.is_pinching = false;
    }
}

} // verus!
