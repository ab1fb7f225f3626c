//! Easing presets and the curve each one stands for.
//!
//! Most named presets are cubic-bezier approximations, with control points
//! from easings.net, of a simpler polynomial; their control points are all
//! multiples of one hundredth and are kept here exactly, as whole
//! hundredths. The remaining presets (elastic, bounce) are closed-form
//! curves, named here and evaluated by the caller. `V` is the scalar type
//! of the control points of a custom curve.
use vstd::prelude::*;

verus! {

/// An easing curve: a named preset, or a custom cubic bezier through
/// `(0, 0)`, `(x1, y1)`, `(x2, y2)`, `(1, 1)`.
#[derive(Debug, Clone, Copy, PartialEq)]
pub enum Easing<V> {
    Linear,
    EaseInSine,
    EaseOutSine,
    EaseInOutSine,
    EaseInQuad,
    EaseOutQuad,
    EaseInOutQuad,
    EaseInCubic,
    EaseOutCubic,
    EaseInOutCubic,
    EaseInQuart,
    EaseOutQuart,
    EaseInOutQuart,
    EaseInQuint,
    EaseOutQuint,
    EaseInOutQuint,
    EaseInExpo,
    EaseOutExpo,
    EaseInOutExpo,
    EaseInCirc,
    EaseOutCirc,
    EaseInOutCirc,
    EaseInBack,
    EaseOutBack,
    EaseInOutBack,
    EaseInElastic,
    EaseOutElastic,
    EaseInOutElastic,
    EaseInBounce,
    EaseOutBounce,
    EaseInOutBounce,
    CubicBezier(V, V, V, V),
}

/// The control points `(x1, y1)` and `(x2, y2)` of a preset cubic bezier,
/// in hundredths.
#[derive(Debug, Clone, Copy, PartialEq, Eq, Structural)]
pub struct Hundredths {
    pub x1: i32,
    pub y1: i32,
    pub x2: i32,
    pub y2: i32,
}

/// The curve that an easing evaluates.
#[derive(Debug, Clone, Copy, PartialEq)]
pub enum Shape<V> {
    /// `f(t) = t`.
    Identity,
    /// A preset cubic bezier, control points in hundredths.
    Bezier(Hundredths),
    /// A custom cubic bezier with control points `(x1, y1, x2, y2)`.
    CustomBezier(V, V, V, V),
    InElastic,
    OutElastic,
    InOutElastic,
    InBounce,
    OutBounce,
    InOutBounce,
}

/// Control points `(x1, y1)`, `(x2, y2)`, in hundredths.
pub open spec fn pts(x1: int, y1: int, x2: int, y2: int) -> Hundredths {
    Hundredths { x1: x1 as i32, y1: y1 as i32, x2: x2 as i32, y2: y2 as i32 }
}

/// The preset table: which curve each easing evaluates.
pub open spec fn spec_shape<V>(easing: Easing<V>) -> Shape<V> {
    match easing {
        Easing::Linear => Shape::Identity,
        Easing::EaseInSine => Shape::Bezier(pts(12, 0, 39, 0)),
        Easing::EaseOutSine => Shape::Bezier(pts(61, 100, 88, 100)),
        Easing::EaseInOutSine => Shape::Bezier(pts(37, 0, 63, 100)),
        Easing::EaseInQuad => Shape::Bezier(pts(11, 0, 50, 0)),
        Easing::EaseOutQuad => Shape::Bezier(pts(50, 100, 89, 100)),
        Easing::EaseInOutQuad => Shape::Bezier(pts(45, 0, 55, 100)),
        Easing::EaseInCubic => Shape::Bezier(pts(32, 0, 67, 0)),
        Easing::EaseOutCubic => Shape::Bezier(pts(33, 100, 68, 100)),
        Easing::EaseInOutCubic => Shape::Bezier(pts(65, 0, 35, 100)),
        Easing::EaseInQuart => Shape::Bezier(pts(50, 0, 75, 0)),
        Easing::EaseOutQuart => Shape::Bezier(pts(25, 100, 50, 100)),
        Easing::EaseInOutQuart => Shape::Bezier(pts(76, 0, 24, 100)),
        Easing::EaseInQuint => Shape::Bezier(pts(64, 0, 78, 0)),
        Easing::EaseOutQuint => Shape::Bezier(pts(22, 100, 36, 100)),
        Easing::EaseInOutQuint => Shape::Bezier(pts(83, 0, 17, 100)),
        Easing::EaseInExpo => Shape::Bezier(pts(70, 0, 84, 0)),
        Easing::EaseOutExpo => Shape::Bezier(pts(16, 100, 30, 100)),
        Easing::EaseInOutExpo => Shape::Bezier(pts(87, 0, 13, 100)),
        Easing::EaseInCirc => Shape::Bezier(pts(55, 0, 100, 45)),
        Easing::EaseOutCirc => Shape::Bezier(pts(0, 55, 45, 100)),
        Easing::EaseInOutCirc => Shape::Bezier(pts(85, 0, 15, 100)),
        Easing::EaseInBack => Shape::Bezier(pts(36, 0, 66, -56)),
        Easing::EaseOutBack => Shape::Bezier(pts(34, 156, 64, 100)),
        Easing::EaseInOutBack => Shape::Bezier(pts(68, -60, 32, 160)),
        Easing::EaseInElastic => Shape::InElastic,
        Easing::EaseOutElastic => Shape::OutElastic,
        Easing::EaseInOutElastic => Shape::InOutElastic,
        Easing::EaseInBounce => Shape::InBounce,
        Easing::EaseOutBounce => Shape::OutBounce,
        Easing::EaseInOutBounce => Shape::InOutBounce,
        Easing::CubicBezier(x1, y1, x2, y2) => Shape::CustomBezier(x1, y1, x2, y2),
    }
}

fn hundredths(x1: i32, y1: i32, x2: i32, y2: i32) -> (h: Hundredths)
    ensures
        h == pts(x1 as int, y1 as int, x2 as int, y2 as int),
{
    Hundredths { x1, y1, x2, y2 }
}

/// The curve that `easing` evaluates.
pub fn shape<V: Copy>(easing: Easing<V>) -> (s: Shape<V>)
    ensures
        s == spec_shape(easing),
{
    match easing {
        Easing::Linear => Shape::Identity,
        Easing::EaseInSine => Shape::Bezier(hundredths(12, 0, 39, 0)),
        Easing::EaseOutSine => Shape::Bezier(hundredths(61, 100, 88, 100)),
        Easing::EaseInOutSine => Shape::Bezier(hundredths(37, 0, 63, 100)),
        Easing::EaseInQuad => Shape::Bezier(hundredths(11, 0, 50, 0)),
        Easing::EaseOutQuad => Shape::Bezier(hundredths(50, 100, 89, 100)),
        Easing::EaseInOutQuad => Shape::Bezier(hundredths(45, 0, 55, 100)),
        Easing::EaseInCubic => Shape::Bezier(hundredths(32, 0, 67, 0)),
        Easing::EaseOutCubic => Shape::Bezier(hundredths(33, 100, 68, 100)),
        Easing::EaseInOutCubic => Shape::Bezier(hundredths(65, 0, 35, 100)),
        Easing::EaseInQuart => Shape::Bezier(hundredths(50, 0, 75, 0)),
        Easing::EaseOutQuart => Shape::Bezier(hundredths(25, 100, 50, 100)),
        Easing::EaseInOutQuart => Shape::Bezier(hundredths(76, 0, 24, 100)),
        Easing::EaseInQuint => Shape::Bezier(hundredths(64, 0, 78, 0)),
        Easing::EaseOutQuint => Shape::Bezier(hundredths(22, 100, 36, 100)),
        Easing::EaseInOutQuint => Shape::Bezier(hundredths(83, 0, 17, 100)),
        Easing::EaseInExpo => Shape::Bezier(hundredths(70, 0, 84, 0)),
        Easing::EaseOutExpo => Shape::Bezier(hundredths(16, 100, 30, 100)),
        Easing::EaseInOutExpo => Shape::Bezier(hundredths(87, 0, 13, 100)),
        Easing::EaseInCirc => Shape::Bezier(hundredths(55, 0, 100, 45)),
        Easing::EaseOutCirc => Shape::Bezier(hundredths(0, 55, 45, 100)),
        Easing::EaseInOutCirc => Shape::Bezier(hundredths(85, 0, 15, 100)),
        Easing::EaseInBack => Shape::Bezier(hundredths(36, 0, 66, -56)),
        Easing::EaseOutBack => Shape::Bezier(hundredths(34, 156, 64, 100)),
        Easing::EaseInOutBack => Shape::Bezier(hundredths(68, -60, 32, 160)),
        Easing::EaseInElastic => Shape::InElastic,
        Easing::EaseOutElastic => Shape::OutElastic,
        Easing::EaseInOutElastic => Shape::InOutElastic,
        Easing::EaseInBounce => Shape::InBounce,
        Easing::EaseOutBounce => Shape::OutBounce,
        Easing::EaseInOutBounce => Shape::InOutBounce,
        Easing::CubicBezier(x1, y1, x2, y2) => Shape::CustomBezier(x1, y1, x2, y2),
    }
}


/// The control points of the point reflection of a bezier through
/// `(0.5, 0.5)`: the curve `t -> 1 - f(1 - t)`.
pub open spec fn reflect(h: Hundredths) -> Hundredths {
    pts(100 - h.x2, 100 - h.y2, 100 - h.x1, 100 - h.y1)
}

/// The ease-out counterpart of an ease-in preset.
pub open spec fn ease_out_of<V>(easing: Easing<V>) -> Option<Easing<V>> {
    match easing {
        Easing::EaseInSine => Some(Easing::EaseOutSine),
        Easing::EaseInQuad => Some(Easing::EaseOutQuad),
        Easing::EaseInCubic => Some(Easing::EaseOutCubic),
        Easing::EaseInQuart => Some(Easing::EaseOutQuart),
        Easing::EaseInQuint => Some(Easing::EaseOutQuint),
        Easing::EaseInExpo => Some(Easing::EaseOutExpo),
        Easing::EaseInCirc => Some(Easing::EaseOutCirc),
        Easing::EaseInBack => Some(Easing::EaseOutBack),
        Easing::EaseInElastic => Some(Easing::EaseOutElastic),
        Easing::EaseInBounce => Some(Easing::EaseOutBounce),
        _ => None,
    }
}

/// Whether `easing` is one of the symmetric ease-in-out presets.
pub open spec fn is_in_out<V>(easing: Easing<V>) -> bool {
    ||| easing is EaseInOutSine
    ||| easing is EaseInOutQuad
    ||| easing is EaseInOutCubic
    ||| easing is EaseInOutQuart
    ||| easing is EaseInOutQuint
    ||| easing is EaseInOutExpo
    ||| easing is EaseInOutCirc
    ||| easing is EaseInOutBack
    ||| easing is EaseInOutElastic
    ||| easing is EaseInOutBounce
}

/// Every preset bezier keeps its x control points within `[0, 1]`, so its
/// x coordinate rises monotonically from 0 to 1 and each time value has
/// exactly one point on the curve.
pub proof fn lemma_preset_x_in_unit_range<V>(easing: Easing<V>)
    ensures
        spec_shape(easing) matches Shape::Bezier(h) ==> {
            &&& 0 <= h.x1 <= 100
            &&& 0 <= h.x2 <= 100
        },
{
}

/// Each ease-out preset is the point reflection of its ease-in preset
/// through the midpoint `(0.5, 0.5)`: `out(t) = 1 - in(1 - t)`.
pub proof fn lemma_ease_out_mirrors_ease_in<V>(easing: Easing<V>)
    requires
        ease_out_of(easing) is Some,
    ensures
        spec_shape(easing) matches Shape::Bezier(h) ==> spec_shape(
            ease_out_of(easing).unwrap(),
        ) == Shape::<V>::Bezier(reflect(h)),
        spec_shape(easing) is InElastic ==> spec_shape(ease_out_of(easing).unwrap()) is OutElastic,
        spec_shape(easing) is InBounce ==> spec_shape(ease_out_of(easing).unwrap()) is OutBounce,
{
}

/// Every ease-in-out preset bezier is its own point reflection through the
/// midpoint, so the curve passes through `(0.5, 0.5)`.
pub proof fn lemma_in_out_presets_symmetric<V>(easing: Easing<V>)
    requires
        is_in_out(easing),
    ensures
        spec_shape(easing) matches Shape::Bezier(h) ==> reflect(h) == h,
        spec_shape(easing) matches Shape::Bezier(h) ==> h.x1 + h.x2 == 100 && h.y1 + h.y2 == 100,
        !(spec_shape(easing) is Bezier) ==> spec_shape(easing) is InOutElastic || spec_shape(
            easing,
        ) is InOutBounce,
{
}

/// Whether `easing` is one of the ease-in bezier presets.
pub open spec fn is_ease_in_bezier<V>(easing: Easing<V>) -> bool {
    ||| easing is EaseInSine
    ||| easing is EaseInQuad
    ||| easing is EaseInCubic
    ||| easing is EaseInQuart
    ||| easing is EaseInQuint
    ||| easing is EaseInExpo
    ||| easing is EaseInCirc
    ||| easing is EaseInBack
}

/// Whether `easing` is one of the ease-out bezier presets.
pub open spec fn is_ease_out_bezier<V>(easing: Easing<V>) -> bool {
    ||| easing is EaseOutSine
    ||| easing is EaseOutQuad
    ||| easing is EaseOutCubic
    ||| easing is EaseOutQuart
    ||| easing is EaseOutQuint
    ||| easing is EaseOutExpo
    ||| easing is EaseOutCirc
    ||| easing is EaseOutBack
}

/// Ease-in presets start slow: each is a bezier that leaves `(0, 0)` flat
/// (`y1 = 0`) and whose control points lie on or below the diagonal, so the
/// eased value never exceeds the linear progress on `[0, 1]`.
pub proof fn lemma_ease_in_below_diagonal<V>(easing: Easing<V>)
    requires
        is_ease_in_bezier(easing),
    ensures
        spec_shape(easing) matches Shape::Bezier(h) && h.y1 == 0 && h.y1 <= h.x1 && h.y2 <= h.x2,
{
}

/// Ease-out presets start fast: each is a bezier that arrives at `(1, 1)`
/// flat (`y2 = 1`) and whose control points lie on or above the diagonal,
/// so the eased value is never below the linear progress on `[0, 1]`.
pub proof fn lemma_ease_out_above_diagonal<V>(easing: Easing<V>)
    requires
        is_ease_out_bezier(easing),
    ensures
        spec_shape(easing) matches Shape::Bezier(h) && h.y2 == 100 && h.y1 >= h.x1 && h.y2 >= h.x2,
{
}

/// Ease-in-out bezier presets start slow and end slow: the first control
/// point lies on or below the diagonal and the second on or above it.
pub proof fn lemma_ease_in_out_crosses_diagonal<V>(easing: Easing<V>)
    requires
        is_in_out(easing),
        !(easing is EaseInOutElastic),
        !(easing is EaseInOutBounce),
    ensures
        spec_shape(easing) matches Shape::Bezier(h) && h.y1 <= h.x1 && h.y2 >= h.x2,
{
}

/// The preset of the next higher power in the polynomial family
/// quad, cubic, quart, quint, expo, keeping the direction (in or out).
pub open spec fn next_power<V>(easing: Easing<V>) -> Option<Easing<V>> {
    match easing {
        Easing::EaseInQuad => Some(Easing::EaseInCubic),
        Easing::EaseInCubic => Some(Easing::EaseInQuart),
        Easing::EaseInQuart => Some(Easing::EaseInQuint),
        Easing::EaseInQuint => Some(Easing::EaseInExpo),
        Easing::EaseOutQuad => Some(Easing::EaseOutCubic),
        Easing::EaseOutCubic => Some(Easing::EaseOutQuart),
        Easing::EaseOutQuart => Some(Easing::EaseOutQuint),
        Easing::EaseOutQuint => Some(Easing::EaseOutExpo),
        _ => None,
    }
}

/// A higher power is more pronounced: the ease-in curve of the next power
/// has the same y control points and x control points at least as large,
/// so for each curve parameter it is no further along in value and at
/// least as far along in time, and it lies on or below the lower power's
/// curve (it starts slower); the ease-out curve of the next power has x
/// control points at most as large, and lies on or above (it starts
/// faster).
pub proof fn lemma_higher_power_more_pronounced<V>(easing: Easing<V>)
    requires
        next_power(easing) is Some,
    ensures
        spec_shape(easing) matches Shape::Bezier(h) && spec_shape(next_power(easing).unwrap()) matches Shape::Bezier(
            k,
        ) && h.y1 == k.y1 && h.y2 == k.y2 && (is_ease_in_bezier(easing) ==> h.x1 <= k.x1 && h.x2
            <= k.x2) && (is_ease_out_bezier(easing) ==> h.x1 >= k.x1 && h.x2 >= k.x2),
{
}

} // verus!
