//! The viewport: where the image stands relative to the canvas and how far
//! it is zoomed, with clamped panning.
//!
//! Positions are offsets of the image's center from the canvas's center.
//! Panning clamps the position per axis so that the smaller of image and
//! canvas can slide across the larger one but the two cannot detach.

use vstd::prelude::*;
use vstd::arithmetic::div_mod::{
    lemma_div_basics_4, lemma_div_denominator, lemma_div_is_ordered, lemma_fundamental_div_mod,
};
use vstd::arithmetic::power::{lemma_pow0, lemma_pow_positive, pow};
use crate::geometry::{clamp_int, div_to_zero, sat_i32, sat_u32, scale_of, Point, Rect};

verus! {

/// The mutable view state of one displayed image.
#[derive(Clone, Copy, Debug, PartialEq, Eq, Structural)]
pub struct Viewport {
    /// How many times the view is zoomed in (negative: zoomed out).
    /// 0 means 1:1 scale.
    pub zoom_level: i32,
    /// The factor each zoom level scales the image by; fixed at
    /// construction.
    pub zoom_factor: u32,
    /// Offset of the image's center from the canvas's center.
    pub image_position: Point,
    /// Bounding box of the unscaled image, centered on the origin.
    pub image_rect: Rect,
}

/// The canvas rectangle centered on the origin.
pub open spec fn spec_canvas_rect(canvas_width: u32, canvas_height: u32) -> Rect
    recommends
        canvas_width <= i32::MAX as u32,
        canvas_height <= i32::MAX as u32,
{
    Rect {
        x: (-((canvas_width as int) / 2)) as i32,
        y: (-((canvas_height as int) / 2)) as i32,
        w: canvas_width,
        h: canvas_height,
    }
}

/// Least allowed horizontal position: the smaller rectangle's right edge
/// may not pass the larger one's left edge.
pub open spec fn min_pos_x(o: Rect, s: Rect) -> int {
    if o.w > s.w {
        o.left() + s.right()
    } else {
        s.left() + o.right()
    }
}

/// Greatest allowed horizontal position.
pub open spec fn max_pos_x(o: Rect, s: Rect) -> int {
    if o.w > s.w {
        o.right() + s.left()
    } else {
        s.right() + o.left()
    }
}

/// Least allowed vertical position.
pub open spec fn min_pos_y(o: Rect, s: Rect) -> int {
    if o.h > s.h {
        o.top() + s.bottom()
    } else {
        s.top() + o.bottom()
    }
}

/// Greatest allowed vertical position.
pub open spec fn max_pos_y(o: Rect, s: Rect) -> int {
    if o.h > s.h {
        o.bottom() + s.top()
    } else {
        s.bottom() + o.top()
    }
}

/// One coordinate of the position after a pan: moved by `delta`, clamped
/// into `[min, max]`, and saturated into the machine range.
pub open spec fn next_coord(pos: int, delta: int, min: int, max: int) -> int {
    sat_i32(clamp_int(pos + delta, min, max))
}

impl Viewport {
    /// Well-formedness: the image rectangle is centered on the origin and
    /// its sides fit the signed coordinate range.
    pub open spec fn wf(self) -> bool {
        &&& self.zoom_factor >= 1
        &&& self.image_rect.w <= i32::MAX as u32
        &&& self.image_rect.h <= i32::MAX as u32
        &&& self.image_rect.x as int == -((self.image_rect.w as int) / 2)
        &&& self.image_rect.y as int == -((self.image_rect.h as int) / 2)
    }

    /// The state a viewport for an image of the given size starts in.
    pub open spec fn spec_new(image_width: u32, image_height: u32) -> Viewport
        recommends
            image_width <= i32::MAX as u32,
            image_height <= i32::MAX as u32,
    {
        Viewport {
            zoom_level: 0,
            zoom_factor: 2,
            image_position: Point { x: 0, y: 0 },
            image_rect: Rect {
                x: (-((image_width as int) / 2)) as i32,
                y: (-((image_height as int) / 2)) as i32,
                w: image_width,
                h: image_height,
            },
        }
    }

    /// Constructs the viewport for an image of the given size: unzoomed,
    /// centered.
    pub fn new(image_width: u32, image_height: u32) -> (v: Viewport)
        requires
            image_width <= i32::MAX as u32,
            image_height <= i32::MAX as u32,
        ensures
            v == Viewport::spec_new(image_width, image_height),
            v.wf(),
    {
        Viewport {
            zoom_level: 0,
            zoom_factor: 2,
            image_position: Point { x: 0, y: 0 },
            image_rect: Rect {
                x: -((image_width / 2) as i32),
                y: -((image_height / 2) as i32),
                w: image_width,
                h: image_height,
            },
        }
    }

    /// The image rectangle at the current zoom, still centered on the
    /// origin.
    pub open spec fn spec_scaled_rect(self) -> Rect {
        self.image_rect.spec_scaled(self.zoom_factor as int, self.zoom_level as int)
    }

    /// Computes the image rectangle at the current zoom.
    pub fn scaled_rect(&self) -> (r: Rect)
        requires
            self.zoom_factor >= 1,
        ensures
            r == self.spec_scaled_rect(),
    {
        self.image_rect.scaled(self.zoom_factor, self.zoom_level)
    }

    /// The state after panning by `(dx, dy)` against a canvas of the given
    /// size.
    pub open spec fn spec_translate(self, dx: int, dy: int, canvas_width: u32, canvas_height: u32) -> Viewport {
        let o = spec_canvas_rect(canvas_width, canvas_height);
        let s = self.spec_scaled_rect();
        Viewport {
            image_position: Point {
                x: next_coord(self.image_position.x as int, dx, min_pos_x(o, s), max_pos_x(o, s)) as i32,
                y: next_coord(self.image_position.y as int, dy, min_pos_y(o, s), max_pos_y(o, s)) as i32,
            },
            ..self
        }
    }

    /// Pans the image by `(dx, dy)`, clamping the new position so the image
    /// and the canvas never detach along either axis.
    pub fn translate(&mut self, dx: i32, dy: i32, canvas_width: u32, canvas_height: u32)
        requires
            old(self).wf(),
            canvas_width <= i32::MAX as u32,
            canvas_height <= i32::MAX as u32,
        ensures
            *final(self) == old(self).spec_translate(
                dx as int,
                dy as int,
                canvas_width,
                canvas_height,
            ),
            final(self).wf(),
    {
        let o = Rect {
            x: -((canvas_width / 2) as i32),
            y: -((canvas_height / 2) as i32),
            w: canvas_width,
            h: canvas_height,
        };
        let s = self.scaled_rect();

        let (min_x, max_x): (i64, i64) = if o.w > s.w {
            (
                o.x as i64 + (s.x as i64 + s.w as i64),
                (o.x as i64 + o.w as i64) + s.x as i64,
            )
        } else {
            (
                s.x as i64 + (o.x as i64 + o.w as i64),
                (s.x as i64 + s.w as i64) + o.x as i64,
            )
        };
        let (min_y, max_y): (i64, i64) = if o.h > s.h {
            (
                o.y as i64 + (s.y as i64 + s.h as i64),
                (o.y as i64 + o.h as i64) + s.y as i64,
            )
        } else {
            (
                s.y as i64 + (o.y as i64 + o.h as i64),
                (s.y as i64 + s.h as i64) + o.y as i64,
            )
        };

        let nx = clamp_coord(self.image_position.x as i64 + dx as i64, min_x, max_x);
        let ny = clamp_coord(self.image_position.y as i64 + dy as i64, min_y, max_y);
        self.image_position = Point { x: nx, y: ny };
    }

    /// The state after a reset: centered again and back at 1:1 scale.
    pub open spec fn spec_reset(self) -> Viewport {
        Viewport { zoom_level: 0, image_position: Point { x: 0, y: 0 }, ..self }
    }

    /// Clears position and zoom, returning the image to the center of the
    /// canvas at 1:1 scale.
    pub fn reset(&mut self)
        ensures
            *final(self) == old(self).spec_reset(),
    {
        self.image_position = Point { x: 0, y: 0 };
        self.zoom_level = 0;
    }

    /// Raises the zoom level by one. The position is not re-clamped until
    /// the next pan.
    pub fn zoom_in(&mut self)
        requires
            old(self).zoom_level < i32::MAX,
        ensures
            *final(self) == (Viewport { zoom_level: (old(self).zoom_level + 1) as i32, ..*old(self) }),
    {
        self.zoom_level = self.zoom_level + 1;
    }

    /// Lowers the zoom level by one. The position is not re-clamped until
    /// the next pan.
    pub fn zoom_out(&mut self)
        requires
            old(self).zoom_level > i32::MIN,
        ensures
            *final(self) == (Viewport { zoom_level: (old(self).zoom_level - 1) as i32, ..*old(self) }),
    {
        self.zoom_level = self.zoom_level - 1;
    }

    /// The image's destination rectangle in canvas-absolute coordinates.
    pub open spec fn spec_transformed_rect(self, canvas_width: u32, canvas_height: u32) -> Rect {
        self.spec_scaled_rect().spec_shifted(
            self.image_position.x as int,
            self.image_position.y as int,
        ).spec_shifted((canvas_width as int) / 2, (canvas_height as int) / 2)
    }

    /// Computes the image's final canvas-absolute destination rectangle:
    /// the image rectangle at the current zoom, moved by the pan position,
    /// and converted from center-relative to canvas-absolute coordinates.
    /// It may extend beyond the canvas; the backend clips.
    pub fn transformed_rect(&self, canvas_width: u32, canvas_height: u32) -> (r: Rect)
        requires
            self.wf(),
            canvas_width <= i32::MAX as u32,
            canvas_height <= i32::MAX as u32,
        ensures
            r == self.spec_transformed_rect(canvas_width, canvas_height),
    {
        self.scaled_rect().shifted(self.image_position.x, self.image_position.y).shifted(
            (canvas_width / 2) as i32,
            (canvas_height / 2) as i32,
        )
    }
}

fn clamp_coord(v: i64, min: i64, max: i64) -> (r: i32)
    requires
        min <= max,
    ensures
        r as int == sat_i32(clamp_int(v as int, min as int, max as int)),
{
    let c = if v < min {
        min
    } else if v > max {
        max
    } else {
        v
    };
    if c < i32::MIN as i64 {
        i32::MIN
    } else if c > i32::MAX as i64 {
        i32::MAX
    } else {
        c as i32
    }
}

/// Law: clamping is idempotent. Panning by `(0, 0)` right after any pan
/// against the same canvas leaves the position unchanged.
pub proof fn lemma_clamp_idempotent(v: Viewport, dx: int, dy: int, canvas_width: u32, canvas_height: u32)
    ensures
        v.spec_translate(dx, dy, canvas_width, canvas_height).spec_translate(
            0,
            0,
            canvas_width,
            canvas_height,
        ) == v.spec_translate(dx, dy, canvas_width, canvas_height),
{
    let o = spec_canvas_rect(canvas_width, canvas_height);
    let s = v.spec_scaled_rect();
    let t = v.spec_translate(dx, dy, canvas_width, canvas_height);
    assert(t.spec_scaled_rect() == s);
    assert(min_pos_x(o, s) <= max_pos_x(o, s));
    assert(min_pos_y(o, s) <= max_pos_y(o, s));
}

/// Law: after a reset the viewport equals the state it was constructed in
/// for the same image.
pub proof fn lemma_reset_restores_initial(v: Viewport)
    requires
        v.wf(),
        v.zoom_factor == 2,
    ensures
        v.spec_reset() == Viewport::spec_new(v.image_rect.w, v.image_rect.h),
{
}

/// Law: when the clamp bounds fit the machine range, the position after a
/// pan lies inside them, and the scaled rectangle is unchanged.
pub proof fn lemma_translate_in_bounds(v: Viewport, dx: int, dy: int, canvas_width: u32, canvas_height: u32)
    requires
        i32::MIN as int <= min_pos_x(spec_canvas_rect(canvas_width, canvas_height), v.spec_scaled_rect()),
        max_pos_x(spec_canvas_rect(canvas_width, canvas_height), v.spec_scaled_rect()) <= i32::MAX as int,
        i32::MIN as int <= min_pos_y(spec_canvas_rect(canvas_width, canvas_height), v.spec_scaled_rect()),
        max_pos_y(spec_canvas_rect(canvas_width, canvas_height), v.spec_scaled_rect()) <= i32::MAX as int,
    ensures
        ({
            let o = spec_canvas_rect(canvas_width, canvas_height);
            let s = v.spec_scaled_rect();
            let t = v.spec_translate(dx, dy, canvas_width, canvas_height);
            &&& t.spec_scaled_rect() == s
            &&& min_pos_x(o, s) <= t.image_position.x as int <= max_pos_x(o, s)
            &&& min_pos_y(o, s) <= t.image_position.y as int <= max_pos_y(o, s)
        }),
{
    let o = spec_canvas_rect(canvas_width, canvas_height);
    let s = v.spec_scaled_rect();
    assert(min_pos_x(o, s) <= max_pos_x(o, s));
    assert(min_pos_y(o, s) <= max_pos_y(o, s));
}

/// Law: clamp containment. Whatever pan is asked for, the position that
/// `translate` computes keeps the scaled image and the canvas overlapping
/// along each axis: the larger of the two never detaches from the smaller.
/// The spans here are center-relative; `transformed_rect` shifts both the
/// image's span and the canvas's `[0, w]` by the same half-canvas vector,
/// so the same overlap holds canvas-absolute.
///
/// The bounds hypotheses hold whenever the clamp range fits the machine
/// range; the parity hypotheses exclude images of odd width or height
/// zoomed in beyond the canvas (see `lemma_clamp_containment`).
pub proof fn lemma_translate_keeps_overlap(v: Viewport, dx: int, dy: int, canvas_width: u32, canvas_height: u32)
    requires
        v.wf(),
        1 <= canvas_width <= i32::MAX as u32,
        1 <= canvas_height <= i32::MAX as u32,
        i32::MIN as int <= min_pos_x(spec_canvas_rect(canvas_width, canvas_height), v.spec_scaled_rect()),
        max_pos_x(spec_canvas_rect(canvas_width, canvas_height), v.spec_scaled_rect()) <= i32::MAX as int,
        i32::MIN as int <= min_pos_y(spec_canvas_rect(canvas_width, canvas_height), v.spec_scaled_rect()),
        max_pos_y(spec_canvas_rect(canvas_width, canvas_height), v.spec_scaled_rect()) <= i32::MAX as int,
        v.image_rect.w % 2 == 0 || v.zoom_level <= 0 || v.spec_scaled_rect().w <= canvas_width,
        v.image_rect.h % 2 == 0 || v.zoom_level <= 0 || v.spec_scaled_rect().h <= canvas_height,
    ensures
        ({
            let o = spec_canvas_rect(canvas_width, canvas_height);
            let s = v.spec_scaled_rect();
            let p = v.spec_translate(dx, dy, canvas_width, canvas_height).image_position;
            &&& s.left() + p.x <= o.right()
            &&& s.right() + p.x >= o.left()
            &&& s.top() + p.y <= o.bottom()
            &&& s.bottom() + p.y >= o.top()
        }),
{
    let t = v.spec_translate(dx, dy, canvas_width, canvas_height);
    lemma_translate_in_bounds(v, dx, dy, canvas_width, canvas_height);
    lemma_clamp_containment(t, canvas_width, canvas_height);
}

/// Arithmetic of scaling one centered axis: the scaled near edge stays at
/// or left of the origin, the far edge at or right of it, and the scaled
/// extent sticks out left of center by at most one unit more than right of
/// it (exactly balanced for even extents at whole scales).
proof fn lemma_scale_of_centered_axis(whole: int, factor: int, level: int)
    requires
        0 <= whole,
        factor >= 1,
    ensures
        scale_of(-(whole / 2), factor, level) <= 0,
        scale_of(whole, factor, level) >= 0,
        scale_of(-(whole / 2), factor, level) + scale_of(whole, factor, level) >= 0,
        2 * scale_of(-(whole / 2), factor, level) + scale_of(whole, factor, level) >= 0,
        (whole % 2 == 0 || level <= 0) ==> 2 * scale_of(-(whole / 2), factor, level) + scale_of(
            whole,
            factor,
            level,
        ) <= 1,
{
    let h = whole / 2;
    lemma_fundamental_div_mod(whole, 2);
    if level >= 0 {
        let m = pow(factor, level as nat);
        lemma_pow_positive(factor, level as nat);
        assert(scale_of(-h, factor, level) == div_to_zero(-h * m, 1));
        assert(scale_of(whole, factor, level) == div_to_zero(whole * m, 1));
        assert(h * m >= 0) by (nonlinear_arith)
            requires
                h >= 0,
                m > 0,
        ;
        assert(whole * m >= 0) by (nonlinear_arith)
            requires
                whole >= 0,
                m > 0,
        ;
        assert((h * m) / 1 == h * m);
        assert((whole * m) / 1 == whole * m);
        assert((-h) * m == -(h * m)) by (nonlinear_arith);
        assert(-(h * m) + whole * m == (whole - h) * m) by (nonlinear_arith);
        assert((whole - h) * m >= 0) by (nonlinear_arith)
            requires
                whole - h >= 0,
                m > 0,
        ;
        assert(2 * (-(h * m)) + whole * m == (whole - 2 * h) * m) by (nonlinear_arith);
        assert((whole - 2 * h) * m >= 0) by (nonlinear_arith)
            requires
                whole - 2 * h >= 0,
                m > 0,
        ;
        if whole % 2 == 0 {
            assert((whole - 2 * h) * m == 0) by (nonlinear_arith)
                requires
                    whole - 2 * h == 0,
            ;
        }
        if level == 0 {
            assert(m == 1) by {
                lemma_pow0(factor);
            }
            assert((whole - 2 * h) * m <= 1) by (nonlinear_arith)
                requires
                    0 <= whole - 2 * h <= 1,
                    m == 1,
            ;
        }
    } else {
        let d = pow(factor, (-level) as nat);
        lemma_pow_positive(factor, (-level) as nat);
        assert(scale_of(-h, factor, level) == div_to_zero(-h, d));
        assert(scale_of(whole, factor, level) == div_to_zero(whole, d));
        lemma_div_basics_4(h, d);
        lemma_div_basics_4(whole, d);
        lemma_div_is_ordered(h, whole, d);
        // h / d == whole / (2 d) == (whole / d) / 2
        lemma_div_denominator(whole, 2, d);
        lemma_div_denominator(whole, d, 2);
        let q = whole / d;
        lemma_fundamental_div_mod(q, 2);
        assert(h / d == q / 2);
        assert(2 * div_to_zero(-h, d) + div_to_zero(whole, d) == q - 2 * (q / 2));
        assert(0 <= q - 2 * (q / 2) <= 1);
    }
}

/// The shape of a scaled, saturated, centered axis: near edge at most 0,
/// far edge at least 0, and the two edges out of balance by at most one
/// unit either way (none at all for even extents at whole scales).
proof fn lemma_scaled_axis(whole: int, factor: int, level: int)
    requires
        0 <= whole <= i32::MAX as int,
        factor >= 1,
    ensures
        ({
            let sx = sat_i32(scale_of(-(whole / 2), factor, level));
            let sw = sat_u32(scale_of(whole, factor, level));
            &&& sx <= 0
            &&& sx + sw >= 0
            &&& 2 * sx + sw >= -1
            &&& ((whole % 2 == 0 || level <= 0) ==> 2 * sx + sw <= 1)
        }),
{
    lemma_scale_of_centered_axis(whole, factor, level);
}

/// Law: a clamped position keeps the image and the canvas overlapping.
/// Along each axis, the scaled image's span, moved by the position, still
/// meets the canvas's span: the two rectangles never detach entirely.
///
/// The position hypothesis is what `translate` establishes (see
/// `lemma_translate_in_bounds`). The parity hypotheses exclude images of
/// odd width or height zoomed in beyond the canvas, where the truncated
/// center offset genuinely lets the clamp drift by up to half a scaled
/// pixel.
pub proof fn lemma_clamp_containment(v: Viewport, canvas_width: u32, canvas_height: u32)
    requires
        v.wf(),
        1 <= canvas_width <= i32::MAX as u32,
        1 <= canvas_height <= i32::MAX as u32,
        min_pos_x(spec_canvas_rect(canvas_width, canvas_height), v.spec_scaled_rect())
            <= v.image_position.x as int <= max_pos_x(
            spec_canvas_rect(canvas_width, canvas_height),
            v.spec_scaled_rect(),
        ),
        min_pos_y(spec_canvas_rect(canvas_width, canvas_height), v.spec_scaled_rect())
            <= v.image_position.y as int <= max_pos_y(
            spec_canvas_rect(canvas_width, canvas_height),
            v.spec_scaled_rect(),
        ),
        v.image_rect.w % 2 == 0 || v.zoom_level <= 0 || v.spec_scaled_rect().w <= canvas_width,
        v.image_rect.h % 2 == 0 || v.zoom_level <= 0 || v.spec_scaled_rect().h <= canvas_height,
    ensures
        ({
            let o = spec_canvas_rect(canvas_width, canvas_height);
            let s = v.spec_scaled_rect();
            let p = v.image_position;
            &&& s.left() + p.x <= o.right()
            &&& s.right() + p.x >= o.left()
            &&& s.top() + p.y <= o.bottom()
            &&& s.bottom() + p.y >= o.top()
        }),
{
    let o = spec_canvas_rect(canvas_width, canvas_height);
    let s = v.spec_scaled_rect();
    lemma_scaled_axis(v.image_rect.w as int, v.zoom_factor as int, v.zoom_level as int);
    lemma_scaled_axis(v.image_rect.h as int, v.zoom_factor as int, v.zoom_level as int);
    assert(s.x as int == sat_i32(
        scale_of(-((v.image_rect.w as int) / 2), v.zoom_factor as int, v.zoom_level as int),
    ));
    assert(s.y as int == sat_i32(
        scale_of(-((v.image_rect.h as int) / 2), v.zoom_factor as int, v.zoom_level as int),
    ));
    assert(s.w as int == sat_u32(
        scale_of(v.image_rect.w as int, v.zoom_factor as int, v.zoom_level as int),
    ));
    assert(s.h as int == sat_u32(
        scale_of(v.image_rect.h as int, v.zoom_factor as int, v.zoom_level as int),
    ));
}

} // verus!
