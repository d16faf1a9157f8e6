//! # Slider Widget
//!
//! A horizontal slider that sets an `i16` value within a range, in steps.

use crate::draw::{DrawCommand, PrimitiveStyle, TextBaseline};
use crate::geometry::{coord, Point, Rectangle, Size};
use crate::smartstate::{after_set, inclusive_end, inclusive_start, needs_redraw, update_smartstate, Container, Smartstate};
use crate::text::{measurable, measure_text_centered, text_size_centered, MonoFont};
use crate::style::Style;
use crate::ui::{allocation, checked_size, spec_checked_size, GuiError, GuiResult, Interaction, Response, Ui, Widget};
use core::ops::RangeInclusive;
use vstd::prelude::*;

verus! {

broadcast use crate::smartstate::lemma_spec_state;

/// Rust's integer division, which rounds toward zero.
pub open spec fn trunc_div(a: int, b: int) -> int {
    let q = (if a >= 0 { a } else { -a }) / (if b >= 0 { b } else { -b });
    if (a >= 0) == (b >= 0) {
        q
    } else {
        -q
    }
}

/// `t` clamped to `[min_t, max_t]` (tested against `min_t` first).
pub open spec fn clamp_t(t: int, min_t: int, max_t: int) -> int {
    if t < min_t {
        min_t
    } else if t > max_t {
        max_t
    } else {
        t
    }
}

/// The numerator of the interpolation: the distance of the clamped `t` from `min_t`, scaled by
/// the output range, plus half the input range for rounding.
pub open spec fn lerp_numerator(start: i16, end: i16, t: i16, min_t: i16, max_t: i16) -> int {
    (end - start) * (clamp_t(t as int, min_t as int, max_t as int) - min_t) + trunc_div(max_t - min_t, 2)
}

/// Integer linear interpolation: `t`, clamped to `[min_t, max_t]`, mapped onto `[start, end]`
/// with rounding; `start` when the input range is empty. The result is truncated to `i16`.
pub open spec fn lerp_spec(start: i16, end: i16, t: i16, min_t: i16, max_t: i16) -> i16 {
    if max_t - min_t == 0 {
        start
    } else {
        (start + trunc_div(lerp_numerator(start, end, t, min_t, max_t), max_t - min_t)) as i16
    }
}

/// Rust's division of `a` by a nonzero `b`, in `i64`.
fn div_toward_zero(a: i64, b: i64) -> (q: i64)
    requires
        b != 0,
        -0x1_0000_0000_0000 <= a <= 0x1_0000_0000_0000,
        -0x1_0000_0000_0000 <= b <= 0x1_0000_0000_0000,
    ensures
        q == trunc_div(a as int, b as int),
{
    let na: i64 = if a >= 0 { a } else { -a };
    let nb: i64 = if b >= 0 { b } else { -b };
    let q: i64 = na / nb;
    if (a >= 0) == (b >= 0) {
        q
    } else {
        -q
    }
}

/// Linear interpolation of `t` from `[min_t, max_t]` onto `[start, end]` in integer
/// arithmetic, rounding to nearest (see [`lerp_spec`]).
///
/// The arithmetic is carried out wide enough that it never overflows.
pub fn lerp_fixed(start: i16, end: i16, t: i16, min_t: i16, max_t: i16) -> (r: i16)
    ensures
        r == lerp_spec(start, end, t, min_t, max_t),
{
    let start: i64 = start as i64;
    let end: i64 = end as i64;
    let t: i64 = t as i64;
    let min_t: i64 = min_t as i64;
    let max_t: i64 = max_t as i64;
    let clamped_t: i64 = if t < min_t {
        min_t
    } else if t > max_t {
        max_t
    } else {
        t
    };
    let range: i64 = max_t - min_t;
    if range == 0 {
        return start as i16;
    }
    let half: i64 = div_toward_zero(range, 2);
    let a: i64 = end - start;
    let b: i64 = clamped_t - min_t;
    assert(-65536 * 65536 <= a * b <= 65536 * 65536) by (nonlinear_arith)
        requires
            -65536 <= a <= 65536,
            -65536 <= b <= 65536,
    ;
    let num: i64 = a * b + half;
    let q: i64 = div_toward_zero(num, range);
    let interpolated: i64 = start + q;
    #[verifier::truncate]
    (interpolated as i16)
}

/// `(d * c + h) / r` lies in `[0, d]` for `c` in `[0, r]` and `h` below `r`, and is `d` at `c == r`.
proof fn lemma_scaled_quotient(d: int, c: int, h: int, r: int)
    requires
        d >= 0,
        r > 0,
        0 <= c <= r,
        0 <= h < r,
    ensures
        0 <= (d * c + h) / r <= d,
        c == r ==> (d * c + h) / r == d,
        c == 0 ==> (d * c + h) / r == 0,
{
    vstd::arithmetic::mul::lemma_mul_inequality(c, r, d);
    assert(d * c <= r * d) by (nonlinear_arith)
        requires
            c * d <= r * d,
    ;
    assert(0 <= d * c) by (nonlinear_arith)
        requires
            d >= 0,
            c >= 0,
    ;
    vstd::arithmetic::div_mod::lemma_div_pos_is_pos(d * c + h, r);
    vstd::arithmetic::div_mod::lemma_div_is_ordered(d * c + h, r * d + h, r);
    vstd::arithmetic::div_mod::lemma_div_multiples_vanish_fancy(d, h, r);
    if c == 0 {
        vstd::arithmetic::div_mod::lemma_div_multiples_vanish_fancy(0, h, r);
        assert(d * c == 0);
    }
    if c == r {
        assert(d * c == r * d) by (nonlinear_arith)
            requires
                c == r,
        ;
    }
}

/// Interpolating onto an increasing range `[start, end]` stays within it, gives `start` at (or
/// below) the input range's start and `end` at (or above) its end.
pub proof fn law_lerp_within_range(start: i16, end: i16, t: i16, min_t: i16, max_t: i16)
    requires
        start <= end,
    ensures
        start <= lerp_spec(start, end, t, min_t, max_t) <= end,
        min_t < max_t && t <= min_t ==> lerp_spec(start, end, t, min_t, max_t) == start,
        min_t < max_t && t >= max_t ==> lerp_spec(start, end, t, min_t, max_t) == end,
{
    let r: int = max_t - min_t;
    let c: int = clamp_t(t as int, min_t as int, max_t as int) - min_t;
    let d: int = end - start;
    let num = lerp_numerator(start, end, t, min_t, max_t);
    if r == 0 {
    } else if r > 0 {
        let h = r / 2;
        assert(trunc_div(r, 2) == h);
        lemma_scaled_quotient(d, c, h, r);
        assert(num == d * c + h);
        assert(num >= 0) by (nonlinear_arith)
            requires
                d >= 0,
                c >= 0,
                h >= 0,
                num == d * c + h,
        ;
        assert(trunc_div(num, r) == num / r);
    } else {
        let h = (-r) / 2;
        assert(trunc_div(r, 2) == -h);
        assert(c == 0 || c == r);
        lemma_scaled_quotient(d, if c == 0 { 0 } else { -r }, h, -r);
        if c == 0 {
            assert(d * c == 0) by (nonlinear_arith)
                requires
                    c == 0,
            ;
            assert(num == -h);
            assert(trunc_div(num, r) == h / (-r));
        } else {
            assert(d * c == -(d * (-r))) by (nonlinear_arith)
                requires
                    c == r,
            ;
            assert(num == -(d * (-r) + h));
            assert(d * (-r) + h >= 0) by (nonlinear_arith)
                requires
                    d >= 0,
                    r < 0,
                    h >= 0,
            ;
            assert(trunc_div(num, r) == (d * (-r) + h) / (-r));
        }
    }
}

/// Moving a value of the range `[start, end]` to its nearer step keeps it in the range.
pub proof fn law_stepped_within_range(v: i16, step_size: u16, start: i16, end: i16)
    requires
        start <= v <= end,
        stepped_spec(v, step_size, start, end) is Some,
    ensures
        start <= stepped_spec(v, step_size, start, end)->0 <= end,
{
    let span = range_span(start, end)->0;
    let step = clamp_step(step_size, span);
    vstd::arithmetic::div_mod::lemma_mod_bound(v as int, step);
}

/// A press on a slider over an increasing range selects a value of the range.
pub proof fn law_press_keeps_value_in_range(start: i16, end: i16, step_size: u16, px: i32, left: i32, pad_w: u32, width: u32)
    requires
        start <= end,
        pressed_value(start, end, step_size, px, left, pad_w, width) is Some,
    ensures
        start <= pressed_value(start, end, step_size, px, left, pad_w, width)->0 <= end,
{
    let t = ((px as i16) - (left as i16)) as i16;
    let lo = ((pad_w as i16) + 5) as i16;
    let hi = (((width as i16) - (pad_w as i16)) - 5) as i16;
    law_lerp_within_range(start, end, t, lo, hi);
    law_stepped_within_range(lerp_spec(start, end, t, lo, hi), step_size, start, end);
}

/// `x` lies in the range of `i16`.
pub open spec fn fits_i16(x: int) -> bool {
    i16::MIN <= x <= i16::MAX
}

/// The distance between the ends of a slider's range, when it is computed without overflow
/// (in `i16`, as its absolute value) and is not zero.
pub open spec fn range_span(start: i16, end: i16) -> Option<int> {
    let d = end - start;
    if fits_i16(d) && d != i16::MIN && d != 0 {
        Some(if d >= 0 { d } else { -d })
    } else {
        None
    }
}

/// `step_size` clamped to `[1, span]`.
pub open spec fn clamp_step(step_size: u16, span: int) -> int {
    if step_size < 1 {
        1
    } else if step_size > span {
        span
    } else {
        step_size as int
    }
}

/// `v` moved to the nearer multiple of `step`, the upper one on a tie, and kept in
/// `[start, end]`; `None` where that arithmetic leaves `i16`.
pub open spec fn snap_spec(v: i16, step: int, start: i16, end: i16) -> Option<i16> {
    let to_next = (v as int) % step;
    let to_prev = step - to_next;
    if to_next < to_prev {
        let c = v - to_next;
        if fits_i16(c) {
            Some(if c >= start { c as i16 } else { start })
        } else {
            None
        }
    } else {
        let c = v + to_prev;
        if fits_i16(c) {
            Some(if c <= end { c as i16 } else { end })
        } else {
            None
        }
    }
}

/// The value that a slider over `[start, end]` with the given step size takes for the
/// interpolated value `v`; `None` where the range's span is zero or does not fit in `i16`.
pub open spec fn stepped_spec(v: i16, step_size: u16, start: i16, end: i16) -> Option<i16> {
    match range_span(start, end) {
        Some(span) => snap_spec(v, clamp_step(step_size, span), start, end),
        None => None,
    }
}

/// Snapping lands on the step grid: the value it gives is a multiple of the step (the step size
/// kept within `[1, span]`) within one step of the value it was given, or one of the range's
/// ends (where the nearer multiple lies outside the range).
pub proof fn law_snap_lands_on_step(v: i16, step_size: u16, start: i16, end: i16)
    ensures
        stepped_spec(v, step_size, start, end) matches Some(r) ==> {
            let step = clamp_step(step_size, range_span(start, end)->Some_0);
            ||| r == start
            ||| r == end
            ||| (r as int) % step == 0 && -step < r - v <= step
        },
{
    if let Some(span) = range_span(start, end) {
        let step = clamp_step(step_size, span);
        let x = v as int;
        vstd::arithmetic::div_mod::lemma_fundamental_div_mod(x, step);
        let k = x / step;
        let to_next = x % step;
        assert(0 <= to_next < step);
        vstd::arithmetic::div_mod::lemma_mod_multiples_basic(k, step);
        vstd::arithmetic::div_mod::lemma_mod_multiples_basic(k + 1, step);
        assert(x - to_next == k * step) by (nonlinear_arith)
            requires
                x == step * k + to_next,
        ;
        assert(x + (step - to_next) == (k + 1) * step) by (nonlinear_arith)
            requires
                x == step * k + to_next,
        ;
    }
}

/// Moves `v` to the nearer step of the slider's range (see [`stepped_spec`]).
pub fn snap_to_step(v: i16, step_size: u16, start: i16, end: i16) -> (r: Option<i16>)
    ensures
        r == stepped_spec(v, step_size, start, end),
{
    let d: i32 = end as i32 - start as i32;
    if !(i16::MIN as i32 <= d && d <= i16::MAX as i32 && d != i16::MIN as i32 && d != 0) {
        return None;
    }
    let span: i32 = if d >= 0 { d } else { -d };
    let step: i32 = if step_size < 1 {
        1
    } else if step_size as i32 > span {
        span
    } else {
        step_size as i32
    };
    let shifted: i64 = v as i64 + 32768 * step as i64;
    let to_next: i64 = shifted % step as i64;
    proof {
        vstd::arithmetic::div_mod::lemma_mod_multiples_vanish(32768, v as int, step as int);
        vstd::arithmetic::div_mod::lemma_mod_pos_bound(v as int + 32768 * step, step as int);
        assert(32768 * step + v == v + 32768 * step);
    }
    let to_prev: i64 = step as i64 - to_next;
    if to_next < to_prev {
        let c: i64 = v as i64 - to_next;
        if c < i16::MIN as i64 {
            return None;
        }
        Some(if c >= start as i64 { c as i16 } else { start })
    } else {
        let c: i64 = v as i64 + to_prev;
        if c > i16::MAX as i64 {
            return None;
        }
        Some(if c <= end as i64 { c as i16 } else { end })
    }
}

/// The value that pressing a slider at horizontal display position `px` selects: the press
/// position relative to the slider's left edge `left`, interpolated from the extent of the
/// slider line (inset by the padding `pad_w` and half the knob) onto `[start, end]`, then moved to
/// the nearer step. Positions and extents are taken as `i16`; `None` where they do not fit, or
/// where moving to a step would leave `i16`.
pub open spec fn pressed_value(start: i16, end: i16, step_size: u16, px: i32, left: i32, pad_w: u32, width: u32) -> Option<i16> {
    let t = (px as i16) - (left as i16);
    let lo = (pad_w as i16) + 5;
    let hi0 = (width as i16) - (pad_w as i16);
    let hi = hi0 - 5;
    if fits_i16(t) && fits_i16(lo) && fits_i16(hi0) && fits_i16(hi) {
        stepped_spec(lerp_spec(start, end, t as i16, lo as i16, hi as i16), step_size, start, end)
    } else {
        None
    }
}

/// Computes [`pressed_value`].
fn pressed_value_exec(start: i16, end: i16, step_size: u16, px: i32, left: i32, pad_w: u32, width: u32) -> (r: Option<i16>)
    ensures
        r == pressed_value(start, end, step_size, px, left, pad_w, width),
{
    let px16: i16 = #[verifier::truncate] (px as i16);
    let left16: i16 = #[verifier::truncate] (left as i16);
    let pw16: i16 = #[verifier::truncate] (pad_w as i16);
    let w16: i16 = #[verifier::truncate] (width as i16);
    let t: i32 = px16 as i32 - left16 as i32;
    let lo: i32 = pw16 as i32 + 5;
    let hi0: i32 = w16 as i32 - pw16 as i32;
    let hi: i32 = hi0 - 5;
    if !(i16::MIN as i32 <= t && t <= i16::MAX as i32 && lo <= i16::MAX as i32 && i16::MIN as i32 <= hi && hi0 <= i16::MAX as i32) {
        return None;
    }
    let t: i16 = t as i16;
    let lo: i16 = lo as i16;
    let hi: i16 = hi as i16;
    let v = lerp_fixed(start, end, t, lo, hi);
    snap_to_step(v, step_size, start, end)
}

/// The horizontal offset of the knob's center for `value` within the slider (see
/// [`pressed_value`] for the extent of the line); 0 where the line's extent does not fit in
/// `i16`.
pub open spec fn knob_offset_spec(value: i16, start: i16, end: i16, pad_w: u32, width: u32) -> i16 {
    let lo = (pad_w as i16) + 5;
    let hi0 = (width as i16) - (pad_w as i16);
    let hi = hi0 - 5;
    if fits_i16(lo) && fits_i16(hi0) && fits_i16(hi) {
        lerp_spec(lo as i16, hi as i16, value, start, end)
    } else {
        0
    }
}

/// Computes [`knob_offset_spec`].
fn knob_offset(value: i16, start: i16, end: i16, pad_w: u32, width: u32) -> (r: i16)
    ensures
        r == knob_offset_spec(value, start, end, pad_w, width),
{
    let pw16: i16 = #[verifier::truncate] (pad_w as i16);
    let w16: i16 = #[verifier::truncate] (width as i16);
    let lo: i32 = pw16 as i32 + 5;
    let hi0: i32 = w16 as i32 - pw16 as i32;
    let hi: i32 = hi0 - 5;
    if !(lo <= i16::MAX as i32 && i16::MIN as i32 <= hi && hi0 <= i16::MAX as i32) {
        return 0;
    }
    let lo: i16 = lo as i16;
    let hi: i16 = hi as i16;
    lerp_fixed(lo, hi, value, start, end)
}

/// How strongly the slider is interacted with: 2 when pressed or dragged, 1 when hovered,
/// 0 otherwise.
pub open spec fn interaction_level(i: Interaction) -> u32 {
    match i {
        Interaction::Click(_) | Interaction::Drag(_) => 2,
        Interaction::Hover(_) => 1,
        _ => 0,
    }
}

/// The smartstate id of a slider: its value (as `u16`) in the low half, the interaction level
/// in the high half.
pub open spec fn slider_state_id(value: i16, i: Interaction) -> u32 {
    ((value as u16) as int + interaction_level(i) * 65536) as u32
}

/// The value a slider holds after an interaction `i` reaches it while placed with its left edge
/// at `left`.
pub open spec fn slider_value_after(value: i16, start: i16, end: i16, step_size: u16, i: Interaction, left: i32, pad_w: u32, width: u32) -> i16 {
    match i {
        Interaction::Click(p) | Interaction::Drag(p) => match pressed_value(start, end, step_size, p.x, left, pad_w, width) {
            Some(v) => v,
            None => value,
        },
        _ => value,
    }
}

/// Interpolating onto an increasing range is monotone: a larger `t` never gives a smaller value.
pub proof fn law_lerp_monotone(start: i16, end: i16, t1: i16, t2: i16, min_t: i16, max_t: i16)
    requires
        start <= end,
        min_t < max_t,
        t1 <= t2,
    ensures
        lerp_spec(start, end, t1, min_t, max_t) <= lerp_spec(start, end, t2, min_t, max_t),
{
    law_lerp_within_range(start, end, t1, min_t, max_t);
    law_lerp_within_range(start, end, t2, min_t, max_t);
    let r: int = max_t - min_t;
    let d: int = end - start;
    let c1: int = clamp_t(t1 as int, min_t as int, max_t as int) - min_t;
    let c2: int = clamp_t(t2 as int, min_t as int, max_t as int) - min_t;
    let h = r / 2;
    assert(trunc_div(r, 2) == h);
    let n1 = lerp_numerator(start, end, t1, min_t, max_t);
    let n2 = lerp_numerator(start, end, t2, min_t, max_t);
    assert(n1 == d * c1 + h);
    assert(n2 == d * c2 + h);
    assert(0 <= n1 <= n2) by (nonlinear_arith)
        requires
            d >= 0,
            0 <= c1 <= c2,
            h >= 0,
            n1 == d * c1 + h,
            n2 == d * c2 + h,
    ;
    assert(trunc_div(n1, r) == n1 / r);
    assert(trunc_div(n2, r) == n2 / r);
    vstd::arithmetic::div_mod::lemma_div_is_ordered(n1, n2, r);
    vstd::arithmetic::div_mod::lemma_fundamental_div_mod(n2, r);
    let q2 = n2 / r;
    let m2 = n2 % r;
    assert(0 <= c2 <= r);
    assert(q2 <= d) by (nonlinear_arith)
        requires
            n2 == r * q2 + m2,
            0 <= m2 < r,
            n2 == d * c2 + h,
            0 <= c2 <= r,
            0 <= h < r,
            d >= 0,
            r > 0,
    ;
    vstd::arithmetic::div_mod::lemma_div_pos_is_pos(n1, r);
}

/// Dragging acts as pressing: a drag at a point sets the value a press at that point sets,
/// which is the value [`pressed_value`] gives there (the value stays where that is none); any
/// other interaction (hovering, releasing, none) leaves the value as it is.
pub proof fn law_drag_sets_value_as_press(
    value: i16,
    start: i16,
    end: i16,
    step_size: u16,
    p: Point,
    i: Interaction,
    left: i32,
    pad_w: u32,
    width: u32,
)
    ensures
        slider_value_after(value, start, end, step_size, Interaction::Drag(p), left, pad_w, width)
            == slider_value_after(value, start, end, step_size, Interaction::Click(p), left, pad_w, width),
        pressed_value(start, end, step_size, p.x, left, pad_w, width) matches Some(v) ==> slider_value_after(
            value,
            start,
            end,
            step_size,
            Interaction::Drag(p),
            left,
            pad_w,
            width,
        ) == v && slider_value_after(value, start, end, step_size, Interaction::Click(p), left, pad_w, width) == v,
        pressed_value(start, end, step_size, p.x, left, pad_w, width) is None ==> slider_value_after(
            value,
            start,
            end,
            step_size,
            Interaction::Drag(p),
            left,
            pad_w,
            width,
        ) == value,
        !(i is Click || i is Drag) ==> slider_value_after(value, start, end, step_size, i, left, pad_w, width) == value,
{
}

/// A slider whose value lies in its increasing range keeps it there, whatever reaches it.
pub proof fn law_slider_value_stays_in_range(value: i16, start: i16, end: i16, step_size: u16, i: Interaction, left: i32, pad_w: u32, width: u32)
    requires
        start <= value <= end,
    ensures
        start <= slider_value_after(value, start, end, step_size, i, left, pad_w, width) <= end,
{
    match i {
        Interaction::Click(p) | Interaction::Drag(p) => {
            if pressed_value(start, end, step_size, p.x, left, pad_w, width) is Some {
                law_press_keeps_value_in_range(start, end, step_size, p.x, left, pad_w, width);
            }
        },
        _ => {},
    }
}

/// The size of a slider: its width plus padding on both sides (at least the label's width
/// plus padding), and the larger of the row height, the default widget height and the knob
/// plus padding, with room for the label below.
pub open spec fn slider_size(width: u32, pad: Size, min_height: u32, row_height: u32, label: Option<Size>) -> Result<Size, GuiError> {
    let h0 = if min_height >= row_height { min_height as int } else { row_height as int };
    let h1 = if h0 >= 10 + 2 * pad.height { h0 } else { 10 + 2 * pad.height };
    let w1 = width + 2 * pad.width;
    match label {
        Some(ts) => spec_checked_size(
            if w1 >= ts.width + 2 * pad.width { w1 } else { ts.width + 2 * pad.width },
            h1 + pad.height + ts.height,
        ),
        None => spec_checked_size(w1, h1),
    }
}

/// # Slider Widget
///
/// A horizontal slider for an `i16` value in an inclusive range. Pressing or dragging on it
/// sets the value to the position's place on the slider line, moved to the nearer step; an
/// optional label is drawn centered below the line.
///
/// Where the slider's extent does not fit in `i16`, or moving to a step would leave `i16` (or
/// the range has no span), a press leaves the value as it is.
pub struct Slider<'a> {
    pub value: &'a mut i16,
    pub start: i16,
    pub end: i16,
    pub step_size: u16,
    pub label: Option<&'a str>,
    pub width: u32,
    pub smartstate: Container<'a, Smartstate>,
}

impl<'a> Slider<'a> {
    /// The value the slider sets.
    pub open spec fn value(&self) -> i16 {
        *self.value
    }

    /// The reference the slider sets the value through.
    pub open spec fn value_target(&self) -> &'a mut i16 {
        self.value
    }

    pub open spec fn range_start(&self) -> i16 {
        self.start
    }

    pub open spec fn range_end(&self) -> i16 {
        self.end
    }

    pub open spec fn step(&self) -> u16 {
        self.step_size
    }

    pub open spec fn label_spec(&self) -> Option<&'a str> {
        self.label
    }

    pub open spec fn width_spec(&self) -> u32 {
        self.width
    }

    pub open spec fn smartstate_spec(&self) -> Container<'a, Smartstate> {
        self.smartstate
    }

    /// A slider for `value` over `range`, 200 pixels wide, with steps of 1, no label and no
    /// smartstate.
    pub fn new(value: &'a mut i16, range: RangeInclusive<i16>) -> (s: Self)
        ensures
            s.value() == *old(value),
            *final(s.value_target()) == *final(value),
            s.range_start() == range@.start,
            s.range_end() == range@.end,
            s.step() == 1,
            s.label_spec() is None,
            s.width_spec() == 200,
            s.smartstate_spec().inner() is None,
    {
        let start = *inclusive_start(&range);
        let end = *inclusive_end(&range);
        Slider { value, start, end, step_size: 1, label: None, width: 200, smartstate: Container::empty() }
    }

    /// Adds a label below the slider.
    pub fn label(self, label: &'a str) -> (s: Self)
        ensures
            s.label_spec() == Some(label),
            s.value() == self.value(),
            s.value_target() == self.value_target(),
            s.range_start() == self.range_start(),
            s.range_end() == self.range_end(),
            s.step() == self.step(),
            s.width_spec() == self.width_spec(),
            s.smartstate_spec() == self.smartstate_spec(),
    {
        let mut s = self;
        s.label = Some(label);
        s
    }

    /// Adds smartstate support: the slider then only redraws when its value or interaction
    /// changes.
    pub fn smartstate(self, smartstate: &'a mut Smartstate) -> (s: Self)
        ensures
            s.smartstate_spec().inner() == Some(*old(smartstate)),
            s.smartstate_spec().target() matches Some(r) && *final(r) == *final(smartstate),
            s.value() == self.value(),
            s.value_target() == self.value_target(),
            s.range_start() == self.range_start(),
            s.range_end() == self.range_end(),
            s.step() == self.step(),
            s.label_spec() == self.label_spec(),
            s.width_spec() == self.width_spec(),
    {
        let mut s = self;
        s.smartstate.set(smartstate);
        s
    }

    /// Sets the width of the slider line (without padding).
    pub fn width(self, width: u32) -> (s: Self)
        ensures
            s.width_spec() == width,
            s.value() == self.value(),
            s.value_target() == self.value_target(),
            s.range_start() == self.range_start(),
            s.range_end() == self.range_end(),
            s.step() == self.step(),
            s.label_spec() == self.label_spec(),
            s.smartstate_spec() == self.smartstate_spec(),
    {
        let mut s = self;
        s.width = width;
        s
    }

    /// Sets the step size, clamped to between 1 and the span of the range.
    ///
    /// The span must be nonzero and fit in `i16`.
    pub fn step_size(self, step_size: u16) -> (s: Self)
        requires
            range_span(self.range_start(), self.range_end()) is Some,
        ensures
            s.step() == clamp_step(step_size, range_span(self.range_start(), self.range_end())->0),
            s.value() == self.value(),
            s.value_target() == self.value_target(),
            s.range_start() == self.range_start(),
            s.range_end() == self.range_end(),
            s.label_spec() == self.label_spec(),
            s.width_spec() == self.width_spec(),
            s.smartstate_spec() == self.smartstate_spec(),
    {
        let d: i32 = self.end as i32 - self.start as i32;
        let span: i32 = if d >= 0 { d } else { -d };
        let step: u16 = if step_size < 1 {
            1
        } else if step_size as i32 > span {
            span as u16
        } else {
            step_size
        };
        let mut s = self;
        s.step_size = step;
        s
    }
}

/// The smartstate id of a slider (see [`slider_state_id`]).
fn slider_state(value: i16, i: Interaction) -> (id: u32)
    ensures
        id == slider_state_id(value, i),
{
    let level: u32 = match i {
        Interaction::Click(_) | Interaction::Drag(_) => 2,
        Interaction::Hover(_) => 1,
        _ => 0,
    };
    let low: u16 = #[verifier::truncate] (value as u16);
    low as u32 + level * 65536
}

impl<'a, COL: Copy> Widget<COL> for Slider<'a> {
    fn draw(&mut self, ui: &mut Ui<'_, COL>) -> (r: GuiResult<Response>)
        ensures
            old(self).smartstate_spec().target() matches Some(r1) ==> (final(self).smartstate_spec().target() matches Some(r2)
                && *final(r2) == *final(r1)),
            ({
                let st = old(ui).style_spec();
                let pad = st.spacing.button_padding;
                let label_ok = match old(self).label_spec() {
                    Some(l) => measurable(l, st.default_font),
                    None => true,
                };
                let label_size = match old(self).label_spec() {
                    Some(l) => Some(text_size_centered(l@, st.default_font)),
                    None => None,
                };
                let size = slider_size(old(self).width_spec(), pad, st.default_widget_height, old(ui).placer().row_height, label_size);
                &&& !label_ok ==> r == Err::<Response, GuiError>(GuiError::NoSpaceLeft)
                &&& label_ok ==> match size {
                    Err(e) => r == Err::<Response, GuiError>(e),
                    Ok(sz) => match allocation(*old(ui), sz) {
                        Err(e) => r == Err::<Response, GuiError>(e),
                        Ok((area, inter)) => {
                            let v = slider_value_after(
                                old(self).value(),
                                old(self).range_start(),
                                old(self).range_end(),
                                old(self).step(),
                                inter,
                                area.top_left.x,
                                pad.width,
                                sz.width,
                            );
                            let now = after_set(old(self).smartstate_spec().inner(), Some(slider_state_id(v, inter)));
                            &&& r matches Ok(resp)
                            &&& resp.internal.area == area
                            &&& resp.internal.interaction == inter
                            &&& resp.changed == (v != old(self).value())
                            &&& !resp.click
                            &&& !resp.down
                            &&& resp.redraw == needs_redraw(old(self).smartstate_spec().inner(), now)
                            &&& resp.error is None
                            &&& final(self).value() == v
                            &&& final(self).smartstate_spec().inner() == now
                            &&& (!needs_redraw(old(self).smartstate_spec().inner(), now) ==> final(ui).commands() == old(ui).commands())
                            &&& (needs_redraw(old(self).smartstate_spec().inner(), now) ==> exists|t: Option<String>|
                                #[trigger] same_label(t, old(self).label_spec()) && final(ui).commands() == old(ui).commands()
                                    + old(ui).framed(
                                    area,
                                    slider_items(
                                        st,
                                        area,
                                        inter,
                                        knob_offset_spec(v, old(self).range_start(), old(self).range_end(), pad.width, sz.width),
                                        knob_offset_spec(old(self).value(), old(self).range_start(), old(self).range_end(), pad.width, sz.width),
                                        t,
                                        match label_size {
                                            Some(ls) => ls.height as int,
                                            None => 0,
                                        },
                                    ),
                                ))
                        },
                    },
                }
            }),
            *final(final(self).value_target()) == *final(old(self).value_target()),
            old(self).range_start() <= old(self).value() <= old(self).range_end() ==> final(self).range_start()
                <= final(self).value() <= final(self).range_end(),
            final(self).range_start() == old(self).range_start(),
            final(self).range_end() == old(self).range_end(),
            final(self).step() == old(self).step(),
            final(self).label_spec() == old(self).label_spec(),
            final(self).width_spec() == old(self).width_spec(),
    {
        let padding = ui.style().spacing.button_padding;
        let font = ui.style().default_font;
        let (size, text_h) = slider_extent(self.width, self.label, &font, padding, ui.style().default_widget_height, ui.get_row_height())?;
        let iresponse = ui.allocate_space(size)?;
        let area = iresponse.area;
        let inter = iresponse.interaction;
        let old_val: i16 = *self.value;
        match inter {
            Interaction::Click(p) | Interaction::Drag(p) => {
                if let Some(v) = pressed_value_exec(self.start, self.end, self.step_size, p.x, area.top_left.x, padding.width, size.width) {
                    *self.value = v;
                }
            },
            _ => {},
        }
        let new_val: i16 = *self.value;
        let state_val = slider_state(new_val, inter);
        let redraw = update_smartstate(&mut self.smartstate, Some(state_val));
        if redraw {
            let knob_pos = knob_offset(new_val, self.start, self.end, padding.width, size.width);
            let old_knob_pos = knob_offset(old_val, self.start, self.end, padding.width, size.width);
            draw_slider(ui, area, inter, knob_pos, old_knob_pos, self.label, text_h);
        }
        proof {
            if self.start <= old_val <= self.end {
                law_slider_value_stays_in_range(old_val, self.start, self.end, self.step_size, inter, area.top_left.x, padding.width, size.width);
            }
        }
        Ok(Response::new(iresponse).set_changed(old_val != new_val).set_redraw(redraw))
    }
}

/// The size of a slider (see [`slider_size`]) and the height of its label (0 without one); a
/// label too long to measure cannot be placed.
fn slider_extent(width: u32, label: Option<&str>, font: &MonoFont, padding: Size, min_height: u32, row_height: u32) -> (r: GuiResult<(Size, u64)>)
    ensures
        (match label {
            Some(l) => !measurable(l, *font),
            None => false,
        }) ==> r == Err::<(Size, u64), GuiError>(GuiError::NoSpaceLeft),
        (match label {
            Some(l) => measurable(l, *font),
            None => true,
        }) ==> {
            let ls = match label {
                Some(l) => Some(text_size_centered(l@, *font)),
                None => None,
            };
            match slider_size(width, padding, min_height, row_height, ls) {
                Ok(sz) => r matches Ok((s, th)) && s == sz && th == match ls {
                    Some(t) => t.height as int,
                    None => 0,
                } && th + padding.height <= sz.height,
                Err(e) => r == Err::<(Size, u64), GuiError>(e),
            }
        },
{
    let h0: u64 = if min_height >= row_height { min_height as u64 } else { row_height as u64 };
    let knob_h: u64 = 10 + 2 * padding.height as u64;
    let mut height: u64 = if h0 >= knob_h { h0 } else { knob_h };
    let mut w: u64 = width as u64 + 2 * padding.width as u64;
    let mut text_h: u64 = 0;
    if let Some(label) = label {
        let ts = match measure_text_centered(label, font) {
            Some(ts) => ts,
            None => {
                return Err(GuiError::NoSpaceLeft);
            },
        };
        height = height + padding.height as u64 + ts.height as u64;
        let tw: u64 = ts.width as u64 + 2 * padding.width as u64;
        if tw > w {
            w = tw;
        }
        text_h = ts.height as u64;
    }
    let size = checked_size(w, height)?;
    Ok((size, text_h))
}

/// The commands that draw a slider in `area` with the knob at `knob_pos` from the left edge
/// (after `old_knob_pos`): the knob's previous place cleared to the background when it moved, the
/// line from padding and half a knob in from the left to as far in from the right (stroke of the
/// border color, 2 wide), the knob (filled by the interaction: primary when pressed, highlight
/// item background when hovered, else item background; outlined at least 1 wide), and the
/// label `text` (of height `text_h`) centered at the bottom. Coordinates are truncated to `i32`.
pub open spec fn slider_items<COL>(
    style: Style<COL>,
    area: Rectangle,
    inter: Interaction,
    knob_pos: i16,
    old_knob_pos: i16,
    text: Option<String>,
    text_h: int,
) -> Seq<DrawCommand<COL>> {
    let pad = style.spacing.button_padding;
    let line_y = (area.top_left.y + pad.height + 5) as i32;
    let knob_fill = if inter is Click || inter is Drag {
        style.primary_color
    } else if inter is Hover {
        style.highlight_item_background_color
    } else {
        style.item_background_color
    };
    (if old_knob_pos != knob_pos {
        seq![
            DrawCommand::Circle {
                center: Point { x: (area.top_left.x + old_knob_pos) as i32, y: line_y },
                diameter: 14,
                style: PrimitiveStyle {
                    fill_color: Some(style.background_color),
                    stroke_color: Some(style.background_color),
                    stroke_width: 0,
                },
            },
        ]
    } else {
        Seq::empty()
    }) + seq![
        DrawCommand::Line {
            start: Point { x: (area.top_left.x + pad.width + 5) as i32, y: line_y },
            end: Point { x: (area.top_left.x + area.size.width - pad.width - 5) as i32, y: line_y },
            style: PrimitiveStyle {
                fill_color: Some(style.primary_color),
                stroke_color: Some(style.border_color),
                stroke_width: 2,
            },
        },
        DrawCommand::Circle {
            center: Point { x: (area.top_left.x + knob_pos) as i32, y: line_y },
            diameter: 10,
            style: PrimitiveStyle {
                fill_color: Some(knob_fill),
                stroke_color: Some(style.border_color),
                stroke_width: if style.border_width >= 1 { style.border_width } else { 1 },
            },
        },
    ] + match text {
        Some(t) => seq![
            DrawCommand::Text {
                text: t,
                position: Point {
                    x: (area.top_left.x + area.size.width / 2) as i32,
                    y: (area.top_left.y + area.size.height - text_h - pad.height) as i32,
                },
                font: style.default_font,
                color: style.text_color,
                baseline: TextBaseline::Top,
                centered: true,
            },
        ],
        None => Seq::empty(),
    }
}

/// `t` holds the characters of `label`, if there is one.
pub open spec fn same_label(t: Option<String>, label: Option<&str>) -> bool {
    match (t, label) {
        (Some(s), Some(l)) => s@ == l@,
        (None, None) => true,
        _ => false,
    }
}

/// Draws a slider in `area`: the knob's previous place cleared (when it moved), the line, the
/// knob at `knob_pos` from the left edge (filled according to the interaction) and the label
/// centered below.
fn draw_slider<COL: Copy>(
    ui: &mut Ui<'_, COL>,
    area: crate::geometry::Rectangle,
    inter: Interaction,
    knob_pos: i16,
    old_knob_pos: i16,
    label: Option<&str>,
    text_h: u64,
)
    requires
        !old(ui).framebuf_active(),
        text_h <= u32::MAX,
    ensures
        exists|t: Option<String>| #[trigger] same_label(t, label) && final(ui).commands() == old(ui).commands() + old(ui).framed(
            area,
            slider_items(old(ui).style_spec(), area, inter, knob_pos, old_knob_pos, t, text_h as int),
        ),
        final(ui).commands().len() > old(ui).commands().len(),
        !final(ui).framebuf_active(),
        final(ui).placer() == old(ui).placer(),
        final(ui).unchanged_frame(*old(ui)),
        final(ui).interaction() == old(ui).interaction(),
        final(ui).is_cleared() == old(ui).is_cleared(),
        final(ui).popup_showing() == old(ui).popup_showing(),
        final(ui).has_popup_layer() == old(ui).has_popup_layer(),
{
    let style = ui.style();
    let padding = style.spacing.button_padding;
    let font = style.default_font;
    let left: i64 = area.top_left.x as i64;
    let top: i64 = area.top_left.y as i64;
    let pw: i64 = padding.width as i64;
    let ph: i64 = padding.height as i64;
    let line_style = PrimitiveStyle::filled_with_border(style.primary_color, style.border_color, 2);
    let knob_fill = match inter {
        Interaction::Click(_) | Interaction::Drag(_) => style.primary_color,
        Interaction::Hover(_) => style.highlight_item_background_color,
        _ => style.item_background_color,
    };
    let knob_stroke: u32 = if style.border_width >= 1 { style.border_width } else { 1 };
    let knob_style = PrimitiveStyle::filled_with_border(knob_fill, style.border_color, knob_stroke);
    let old_knob_style = PrimitiveStyle::filled_with_border(style.background_color, style.background_color, 0);
    let text_color = style.text_color;
    let line_y = coord(top + ph + 5);
    let line_start = Point::new(coord(left + pw + 5), line_y);
    let line_end = Point::new(coord(left + area.size.width as i64 - pw - 5), line_y);
    ui.start_drawing(&area);
    if old_knob_pos != knob_pos {
        let _ = ui.draw(DrawCommand::Circle {
            center: Point::new(coord(left + old_knob_pos as i64), line_y),
            diameter: 14,
            style: old_knob_style,
        });
    }
    let _ = ui.draw(DrawCommand::Line { start: line_start, end: line_end, style: line_style });
    let _ = ui.draw(DrawCommand::Circle { center: Point::new(coord(left + knob_pos as i64), line_y), diameter: 10, style: knob_style });
    let ghost mut t: Option<String> = None;
    if let Some(label) = label {
        let owned = label.to_owned();
        proof {
            t = Some(owned);
        }
        let _ = ui.draw(DrawCommand::Text {
            text: owned,
            position: Point::new(
                coord(left + (area.size.width / 2) as i64),
                coord(top + area.size.height as i64 - text_h as i64 - ph),
            ),
            font,
            color: text_color,
            baseline: TextBaseline::Top,
            centered: true,
        });
    }
    let _ = ui.finalize();
    assert(same_label(t, label));
    assert(ui.commands() =~= old(ui).commands() + old(ui).framed(
        area,
        slider_items(old(ui).style_spec(), area, inter, knob_pos, old_knob_pos, t, text_h as int),
    ));
}

} // verus!
