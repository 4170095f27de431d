//! Style snapshots and the point transform.
//!
//! A `Style` captures origin, rotation, anisotropic scale, point size and
//! color. Queued curves carry the style that was current when they were
//! enqueued, so later configuration commands cannot affect them.
use vstd::prelude::*;

use crate::fbits::{add_bits, sub_bits, mul_bits, sin_bits, cos_bits, add64, sub64, mul64, sin64, cos64};
use crate::tree_node::str_is;

verus! {

/// The transform and display configuration captured for one curve at
/// enqueue time. All scalars are binary64 bit patterns.
pub struct Style {
    pub origin: (u64, u64),
    pub rot: u64,
    pub scale: (u64, u64),
    pub size: u64,
    pub color: String,
}

/// The color a style name selects on the drawing surface; any unrecognized
/// name draws fully transparent rather than failing.
#[derive(Debug, Clone, Copy, PartialEq, Eq, Structural)]
pub enum ColorKind {
    Blue,
    Red,
    Green,
    Black,
    Yellow,
    Cyan,
    Magenta,
    Transparent,
}

/// Maps a color name to the color it selects.
pub open spec fn color_of(s: Seq<char>) -> ColorKind {
    if s == "blue"@ {
        ColorKind::Blue
    } else if s == "red"@ {
        ColorKind::Red
    } else if s == "green"@ {
        ColorKind::Green
    } else if s == "black"@ {
        ColorKind::Black
    } else if s == "yellow"@ {
        ColorKind::Yellow
    } else if s == "cyan"@ {
        ColorKind::Cyan
    } else if s == "magenta"@ {
        ColorKind::Magenta
    } else {
        ColorKind::Transparent
    }
}

/// Runtime color lookup, agreeing with `color_of` on the name's view.
pub fn color_kind(name: &String) -> (r: ColorKind)
    ensures
        r == color_of(name@),
{
    if str_is(name, "blue") {
        ColorKind::Blue
    } else if str_is(name, "red") {
        ColorKind::Red
    } else if str_is(name, "green") {
        ColorKind::Green
    } else if str_is(name, "black") {
        ColorKind::Black
    } else if str_is(name, "yellow") {
        ColorKind::Yellow
    } else if str_is(name, "cyan") {
        ColorKind::Cyan
    } else if str_is(name, "magenta") {
        ColorKind::Magenta
    } else {
        ColorKind::Transparent
    }
}

/// The style transform applied to one raw point, in the order scale, then
/// rotate, then translate. The rotation is deliberately coupled: the rotated
/// ordinate is computed from the already-rotated abscissa, not from two
/// independent copies of the pre-rotation values.
pub open spec fn transform_spec(st: Style, x: u64, y: u64) -> (u64, u64) {
    let xs = mul_bits(x, st.scale.0);
    let ys = mul_bits(y, st.scale.1);
    let c = cos_bits(st.rot);
    let s = sin_bits(st.rot);
    let xr = add_bits(mul_bits(xs, c), mul_bits(ys, s));
    let yr = sub_bits(mul_bits(ys, c), mul_bits(xr, s));
    (add_bits(xr, st.origin.0), add_bits(yr, st.origin.1))
}

impl Style {
    /// Applies this style's transform to a raw point.
    pub fn process_data(&self, x: u64, y: u64) -> (r: (u64, u64))
        ensures
            r == transform_spec(*self, x, y),
    {
        let xs = mul64(x, self.scale.0);
        let ys = mul64(y, self.scale.1);
        let c = cos64(self.rot);
        let s = sin64(self.rot);
        let xr = add64(mul64(xs, c), mul64(ys, s));
        let yr = sub64(mul64(ys, c), mul64(xr, s));
        (add64(xr, self.origin.0), add64(yr, self.origin.1))
    }
}

} // verus!
