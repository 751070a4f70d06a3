//! The pixel-fit calculator: map a fixed virtual canvas onto a window.
//!
//! Given the virtual canvas size `(w, h)` and the window's physical size
//! `(ww, wh)`, the calculator picks the limiting axis from the two aspect
//! ratios, fills that axis of the window completely, derives the other axis
//! from the canvas aspect ratio (rounding down), and centers the resulting
//! viewport. The per-axis scale factors are the exact rationals
//! `viewport / canvas`, so no precision is lost anywhere in the computation.
//!
//! A canvas with a zero dimension has no aspect ratio; the calculator
//! reports that as [`FitError::DegenerateConfiguration`] instead of
//! producing an undefined result. A window with a zero dimension is valid
//! and simply yields a zero-area viewport.

use vstd::arithmetic::div_mod::{
    lemma_div_multiples_vanish, lemma_div_pos_is_pos, lemma_fundamental_div_mod, lemma_mod_bound,
};
use vstd::prelude::*;

use crate::texture::{TexturePixelCamera, UVec2};

verus! {

/// Physical pixel dimensions of the presentation window, read each update.
#[derive(Clone, Copy, Debug, PartialEq, Eq, Structural)]
pub struct WindowMetrics {
    pub width: u32,
    pub height: u32,
}

/// An exact nonnegative rational scale factor, `num / den`.
#[derive(Clone, Copy, Debug, PartialEq, Eq, Structural)]
pub struct Fraction {
    pub num: u32,
    pub den: u32,
}

/// The multiplicative scale of each axis of the texture quad.
#[derive(Clone, Copy, Debug, PartialEq, Eq, Structural)]
pub struct ScalePair {
    pub x: Fraction,
    pub y: Fraction,
}

/// The computed presentation geometry: the sub-rectangle of the window that
/// shows the canvas, and the scale that maps the canvas onto it 1:1.
#[derive(Clone, Copy, Debug, PartialEq, Eq, Structural)]
pub struct FitResult {
    /// Size of the window sub-rectangle used for presentation.
    pub viewport_size: UVec2,
    /// Top-left offset centering the viewport within the window.
    pub viewport_origin: UVec2,
    /// Per-axis scale mapping the virtual canvas onto the viewport.
    pub axis_scale: ScalePair,
}

/// Why no fit could be computed.
#[derive(Clone, Copy, Debug, PartialEq, Eq, Structural)]
pub enum FitError {
    /// The virtual canvas has a zero dimension, so its aspect ratio is
    /// undefined. A configuration mistake by the caller, reported rather
    /// than propagated as a meaningless viewport.
    DegenerateConfiguration,
}

/// The canvas has no aspect ratio to preserve.
pub open spec fn degenerate(size: UVec2) -> bool {
    size.x == 0 || size.y == 0
}

/// Whether the window is tall relative to the canvas, i.e. whether width is
/// the limiting (completely filled) axis and height letterboxes. A window
/// taller than wide counts as tall outright; otherwise the aspect ratios
/// decide: `wh * (w / h) > ww`, cleared of the division.
pub open spec fn window_is_tall(w: int, h: int, ww: int, wh: int) -> bool {
    wh > ww || wh * w > ww * h
}

/// Clamp to the largest value a `u32` dimension can hold.
pub open spec fn saturate_u32(x: int) -> int {
    if x > u32::MAX as int {
        u32::MAX as int
    } else {
        x
    }
}

/// Width of the viewport: the full window width on a tall window, else the
/// width derived from the window height and the canvas aspect ratio,
/// rounded down.
pub open spec fn spec_viewport_width(w: int, h: int, ww: int, wh: int) -> int {
    if window_is_tall(w, h, ww, wh) {
        ww
    } else {
        wh * w / h
    }
}

/// Height of the viewport: derived from the window width and the canvas
/// aspect ratio (rounded down, clamped to the `u32` range) on a tall
/// window, else the full window height.
pub open spec fn spec_viewport_height(w: int, h: int, ww: int, wh: int) -> int {
    if window_is_tall(w, h, ww, wh) {
        saturate_u32(ww * h / w)
    } else {
        wh
    }
}

/// Offset centering a viewport dimension within a window dimension, clamped
/// to zero rather than going negative when the viewport overshoots.
pub open spec fn spec_centering_offset(window_dim: int, viewport_dim: int) -> int {
    if viewport_dim <= window_dim {
        (window_dim - viewport_dim) / 2
    } else {
        0
    }
}

/// The component-wise statement that `fit` is the fit of canvas `size` in
/// window `window`.
pub open spec fn fit_matches(fit: FitResult, size: UVec2, window: WindowMetrics) -> bool {
    let w: int = size.x as int;
    let h: int = size.y as int;
    let ww: int = window.width as int;
    let wh: int = window.height as int;
    &&& fit.viewport_size.x == spec_viewport_width(w, h, ww, wh)
    &&& fit.viewport_size.y == spec_viewport_height(w, h, ww, wh)
    &&& fit.viewport_origin.x == spec_centering_offset(ww, fit.viewport_size.x as int)
    &&& fit.viewport_origin.y == spec_centering_offset(wh, fit.viewport_size.y as int)
    &&& fit.axis_scale.x == (Fraction { num: fit.viewport_size.x, den: size.x })
    &&& fit.axis_scale.y == (Fraction { num: fit.viewport_size.y, den: size.y })
}

/// The sentinel handed out for a degenerate canvas: an empty viewport at
/// the window origin with zero scale, safe to apply and drawing nothing.
pub open spec fn zero_fit() -> FitResult {
    FitResult {
        viewport_size: UVec2 { x: 0, y: 0 },
        viewport_origin: UVec2 { x: 0, y: 0 },
        axis_scale: ScalePair {
            x: Fraction { num: 0, den: 1 },
            y: Fraction { num: 0, den: 1 },
        },
    }
}

/// The quotient of nonnegative integers sits within one divisor below the
/// exact ratio.
proof fn lemma_div_range(a: int, b: int)
    requires
        0 <= a,
        1 <= b,
    ensures
        b * (a / b) <= a < b * (a / b) + b,
        0 <= a / b,
{
    lemma_fundamental_div_mod(a, b);
    lemma_mod_bound(a, b);
    lemma_div_pos_is_pos(a, b);
}

/// Dividing keeps a bound: `a <= c * b` forces `a / b <= c`.
proof fn lemma_div_le(a: int, b: int, c: int)
    requires
        0 <= a,
        1 <= b,
        0 <= c,
        a <= c * b,
    ensures
        a / b <= c,
{
    lemma_div_range(a, b);
    assert(a / b <= c) by (nonlinear_arith)
        requires
            1 <= b,
            0 <= c,
            b * (a / b) <= a,
            a <= c * b,
    ;
}

/// Dividing keeps a strict bound: `a < c * b` forces `a / b < c`.
proof fn lemma_div_lt(a: int, b: int, c: int)
    requires
        0 <= a,
        1 <= b,
        0 < c,
        a < c * b,
    ensures
        a / b < c,
{
    lemma_div_range(a, b);
    assert(a / b < c) by (nonlinear_arith)
        requires
            1 <= b,
            0 < c,
            b * (a / b) <= a,
            a < c * b,
    ;
}

/// A product of two `u32`-ranged values fits in a `u64`.
proof fn lemma_u32_mul_fits(a: int, b: int)
    by (nonlinear_arith)
    requires
        0 <= a <= u32::MAX,
        0 <= b <= u32::MAX,
    ensures
        0 <= a * b <= 0xFFFF_FFFE_0000_0001,
{
}

/// The pixel-fit calculator. Chooses the limiting axis, fills it, derives
/// the other axis from the canvas aspect ratio, centers the viewport, and
/// reports the exact per-axis scale — or reports a degenerate canvas.
///
/// The result is `Err(DegenerateConfiguration)` exactly when the canvas has
/// a zero dimension; every other input, zero-sized windows included, yields
/// `Ok` with the geometry pinned down by [`fit_matches`].
pub fn compute_fit(size: UVec2, window: WindowMetrics) -> (r: Result<FitResult, FitError>)
    ensures
        r is Err <==> degenerate(size),
        r matches Err(e) ==> e == FitError::DegenerateConfiguration,
        r matches Ok(fit) ==> fit_matches(fit, size, window),
{
    let w: u32 = size.x;
    let h: u32 = size.y;
    if w == 0 || h == 0 {
        return Err(FitError::DegenerateConfiguration);
    }
    let ww: u32 = window.width;
    let wh: u32 = window.height;
    let w64: u64 = w as u64;
    let h64: u64 = h as u64;
    let ww64: u64 = ww as u64;
    let wh64: u64 = wh as u64;
    proof {
        lemma_u32_mul_fits(wh as int, w as int);
        lemma_u32_mul_fits(ww as int, h as int);
    }
    let tall: bool = wh > ww || wh64 * w64 > ww64 * h64;
    let viewport: UVec2 = if tall {
        let q: u64 = (ww64 * h64) / w64;
        let vy: u32 = if q > u32::MAX as u64 {
            u32::MAX
        } else {
            q as u32
        };
        UVec2 { x: ww, y: vy }
    } else {
        let q: u64 = (wh64 * w64) / h64;
        proof {
            lemma_div_le(wh as int * w as int, h as int, ww as int);
        }
        UVec2 { x: q as u32, y: wh }
    };
    let ox: u32 = if viewport.x <= ww {
        (ww - viewport.x) / 2
    } else {
        0
    };
    let oy: u32 = if viewport.y <= wh {
        (wh - viewport.y) / 2
    } else {
        0
    };
    Ok(FitResult {
        viewport_size: viewport,
        viewport_origin: UVec2 { x: ox, y: oy },
        axis_scale: ScalePair {
            x: Fraction { num: viewport.x, den: w },
            y: Fraction { num: viewport.y, den: h },
        },
    })
}

/// The per-update fit computation for a camera: the canvas comes from the
/// camera, the window metrics from the presentation surface.
pub fn scale_render_image(camera: &TexturePixelCamera, window: WindowMetrics) -> (r: Result<
    FitResult,
    FitError,
>)
    ensures
        r is Err <==> degenerate(camera.size),
        r matches Err(e) ==> e == FitError::DegenerateConfiguration,
        r matches Ok(fit) ==> fit_matches(fit, camera.size, window),
{
    compute_fit(camera.size, window)
}

/// The fit, or the safe sentinel of [`zero_fit`] when the canvas is
/// degenerate: callers that cannot act on the error still receive a
/// viewport that draws nothing instead of an undefined one.
pub fn fit_or_sentinel(camera: &TexturePixelCamera, window: WindowMetrics) -> (fit: FitResult)
    ensures
        degenerate(camera.size) ==> fit == zero_fit(),
        !degenerate(camera.size) ==> fit_matches(fit, camera.size, window),
{
    match compute_fit(camera.size, window) {
        Ok(fit) => fit,
        Err(_) => FitResult {
            viewport_size: UVec2 { x: 0, y: 0 },
            viewport_origin: UVec2 { x: 0, y: 0 },
            axis_scale: ScalePair {
                x: Fraction { num: 0, den: 1 },
                y: Fraction { num: 0, den: 1 },
            },
        },
    }
}

/// The viewport never exceeds the window in either axis.
///
/// Excluded inputs: when the window is taller than wide but the canvas is
/// taller still — so much that even at full window width the derived height
/// overshoots the window (`ww * h >= w * (wh + 1)`, with the overshoot not
/// absorbed by clamping) — the tall rule fills the width anyway and the
/// derived height exceeds `wh`. On every other positive input both bounds
/// hold.
pub proof fn lemma_viewport_within_window(w: int, h: int, ww: int, wh: int)
    requires
        1 <= w <= u32::MAX,
        1 <= h <= u32::MAX,
        1 <= ww <= u32::MAX,
        1 <= wh <= u32::MAX,
        !(wh > ww && ww * h >= w * (wh + 1) && wh < u32::MAX),
    ensures
        spec_viewport_width(w, h, ww, wh) <= ww,
        spec_viewport_height(w, h, ww, wh) <= wh,
{
    if window_is_tall(w, h, ww, wh) {
        let q = ww * h / w;
        lemma_div_range(ww * h, w);
        if wh * w > ww * h {
            lemma_div_lt(ww * h, w, wh);
        } else if wh == u32::MAX {
            assert(saturate_u32(q) <= wh);
        } else {
            assert(ww * h < w * (wh + 1));
            assert(ww * h < (wh + 1) * w) by (nonlinear_arith)
                requires
                    ww * h < w * (wh + 1),
            ;
            lemma_div_lt(ww * h, w, wh + 1);
        }
    } else {
        assert(0 <= wh * w) by (nonlinear_arith)
            requires
                0 <= wh,
                0 <= w,
        ;
        lemma_div_le(wh * w, h, ww);
    }
}

/// The centered viewport stays inside the window: origin plus size does not
/// exceed the window dimension on either axis, under the same exclusion as
/// [`lemma_viewport_within_window`].
pub proof fn lemma_viewport_centered_within_window(w: int, h: int, ww: int, wh: int)
    requires
        1 <= w <= u32::MAX,
        1 <= h <= u32::MAX,
        1 <= ww <= u32::MAX,
        1 <= wh <= u32::MAX,
        !(wh > ww && ww * h >= w * (wh + 1) && wh < u32::MAX),
    ensures
        spec_centering_offset(ww, spec_viewport_width(w, h, ww, wh)) + spec_viewport_width(
            w,
            h,
            ww,
            wh,
        ) <= ww,
        spec_centering_offset(wh, spec_viewport_height(w, h, ww, wh)) + spec_viewport_height(
            w,
            h,
            ww,
            wh,
        ) <= wh,
{
    lemma_viewport_within_window(w, h, ww, wh);
}

/// Aspect preservation: the viewport keeps the canvas aspect ratio up to
/// the rounding of a single floor division. On a tall window
/// `vy * w <= vx * h < vy * w + w`, so dividing by `vy * h` bounds
/// `vx / vy - w / h` between `0` and `w / (vy * h)`; symmetrically on a
/// wide window. Excluded inputs: those where the derived height exceeds the
/// `u32` range and is clamped, which discards the ratio.
pub proof fn lemma_aspect_preserved(w: int, h: int, ww: int, wh: int)
    requires
        1 <= w <= u32::MAX,
        1 <= h <= u32::MAX,
        1 <= ww <= u32::MAX,
        1 <= wh <= u32::MAX,
        window_is_tall(w, h, ww, wh) ==> ww * h / w <= u32::MAX,
    ensures
        ({
            let vx: int = spec_viewport_width(w, h, ww, wh);
            let vy: int = spec_viewport_height(w, h, ww, wh);
            if window_is_tall(w, h, ww, wh) {
                vy * w <= vx * h < vy * w + w
            } else {
                vx * h <= vy * w < vx * h + h
            }
        }),
{
    if window_is_tall(w, h, ww, wh) {
        let q = ww * h / w;
        assert(0 <= ww * h) by (nonlinear_arith)
            requires
                0 <= ww,
                0 <= h,
        ;
        lemma_div_range(ww * h, w);
        assert(q * w == w * q) by (nonlinear_arith);
    } else {
        let p = wh * w / h;
        assert(0 <= wh * w) by (nonlinear_arith)
            requires
                0 <= wh,
                0 <= w,
        ;
        lemma_div_range(wh * w, h);
        assert(p * h == h * p) by (nonlinear_arith);
    }
}

/// A window whose aspect ratio matches the canvas exactly (`ww * h ==
/// wh * w`) is filled completely: the viewport is the whole window, the
/// centering offset is zero on both axes, and the two axis scales are equal
/// (`vx / w == vy / h`, cross-multiplied).
pub proof fn lemma_exact_aspect_fills_window(w: int, h: int, ww: int, wh: int)
    requires
        1 <= w <= u32::MAX,
        1 <= h <= u32::MAX,
        1 <= ww <= u32::MAX,
        1 <= wh <= u32::MAX,
        ww * h == wh * w,
    ensures
        spec_viewport_width(w, h, ww, wh) == ww,
        spec_viewport_height(w, h, ww, wh) == wh,
        spec_centering_offset(ww, spec_viewport_width(w, h, ww, wh)) == 0,
        spec_centering_offset(wh, spec_viewport_height(w, h, ww, wh)) == 0,
        spec_viewport_width(w, h, ww, wh) * h == spec_viewport_height(w, h, ww, wh) * w,
{
    if window_is_tall(w, h, ww, wh) {
        assert(ww * h == w * wh) by (nonlinear_arith)
            requires
                ww * h == wh * w,
        ;
        lemma_div_multiples_vanish(wh, w);
    } else {
        assert(wh * w == h * ww) by (nonlinear_arith)
            requires
                ww * h == wh * w,
        ;
        lemma_div_multiples_vanish(ww, h);
    }
}

/// Resize monotonicity: enlarging the window by an integer factor `k` on
/// both axes scales the viewport by exactly `k`, and the two axis scales
/// agree (`vx / w == vy / h`, cross-multiplied), provided the canvas divides
/// its derived axis evenly — otherwise the floor rounding of the derived
/// axis need not scale linearly.
pub proof fn lemma_resize_scales_viewport(w: int, h: int, ww: int, wh: int, k: int)
    requires
        1 <= w <= u32::MAX,
        1 <= h <= u32::MAX,
        1 <= ww,
        1 <= wh,
        1 <= k,
        k * ww <= u32::MAX,
        k * wh <= u32::MAX,
        window_is_tall(w, h, ww, wh) ==> ((ww * h) % w == 0 && k * (ww * h / w) <= u32::MAX),
        !window_is_tall(w, h, ww, wh) ==> (wh * w) % h == 0,
    ensures
        spec_viewport_width(w, h, k * ww, k * wh) == k * spec_viewport_width(w, h, ww, wh),
        spec_viewport_height(w, h, k * ww, k * wh) == k * spec_viewport_height(w, h, ww, wh),
        spec_viewport_width(w, h, ww, wh) * h == spec_viewport_height(w, h, ww, wh) * w,
{
    assert((k * wh > k * ww) == (wh > ww)) by (nonlinear_arith)
        requires
            1 <= k,
    ;
    assert(((k * wh) * w > (k * ww) * h) == (wh * w > ww * h)) by (nonlinear_arith)
        requires
            1 <= k,
    ;
    if window_is_tall(w, h, ww, wh) {
        let q = ww * h / w;
        assert(0 <= ww * h) by (nonlinear_arith)
            requires
                0 <= ww,
                0 <= h,
        ;
        lemma_fundamental_div_mod(ww * h, w);
        lemma_div_pos_is_pos(ww * h, w);
        assert((k * ww) * h == w * (k * q)) by (nonlinear_arith)
            requires
                ww * h == w * q,
        ;
        lemma_div_multiples_vanish(k * q, w);
        assert(q <= k * q) by (nonlinear_arith)
            requires
                1 <= k,
                0 <= q,
        ;
        assert(w * q == q * w) by (nonlinear_arith);
    } else {
        let p = wh * w / h;
        assert(0 <= wh * w) by (nonlinear_arith)
            requires
                0 <= wh,
                0 <= w,
        ;
        lemma_fundamental_div_mod(wh * w, h);
        lemma_div_pos_is_pos(wh * w, h);
        assert((k * wh) * w == h * (k * p)) by (nonlinear_arith)
            requires
                wh * w == h * p,
        ;
        lemma_div_multiples_vanish(k * p, h);
        assert(p * h == h * p) by (nonlinear_arith);
    }
}

} // verus!
