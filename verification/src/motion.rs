//! Animation targets for motion elements: the per-state property targets,
//! the builder that collects them, and the rules that decide which value
//! each property moves toward.
//!
//! `V` is the scalar type of property values.
use vstd::prelude::*;

use crate::easing::Easing;
use crate::time::Duration;

verus! {

/// One animatable property of a motion element.
#[derive(Debug, Clone, Copy, PartialEq, Eq, Structural)]
pub enum Property {
    Opacity,
    X,
    Y,
    Scale,
    Rotate,
}

/// Per-property animation target values.
///
/// Used inside [`MotionBuilder::initial`] and [`MotionBuilder::animate`]
/// closures.
#[derive(Debug, Clone)]
pub struct PropertyTarget<V> {
    pub opacity: Option<V>,
    pub x: Option<V>,
    pub y: Option<V>,
    pub scale: Option<V>,
    /// Rotation in radians.
    pub rotate: Option<V>,
    /// Per-state duration override. When set, properties from this target
    /// use this duration instead of the global [`MotionBuilder::duration`].
    pub duration: Option<Duration>,
}

impl<V> PropertyTarget<V> {
    /// The target that sets no property and no duration.
    pub open spec fn empty() -> Self {
        PropertyTarget {
            opacity: None,
            x: None,
            y: None,
            scale: None,
            rotate: None,
            duration: None,
        }
    }

    /// The value this target gives `property`, if any.
    pub open spec fn spec_get(self, property: Property) -> Option<V> {
        match property {
            Property::Opacity => self.opacity,
            Property::X => self.x,
            Property::Y => self.y,
            Property::Scale => self.scale,
            Property::Rotate => self.rotate,
        }
    }

    /// This target with `property` set to `value` and all else unchanged.
    pub open spec fn spec_with(self, property: Property, value: V) -> Self {
        match property {
            Property::Opacity => PropertyTarget { opacity: Some(value), ..self },
            Property::X => PropertyTarget { x: Some(value), ..self },
            Property::Y => PropertyTarget { y: Some(value), ..self },
            Property::Scale => PropertyTarget { scale: Some(value), ..self },
            Property::Rotate => PropertyTarget { rotate: Some(value), ..self },
        }
    }

    /// The duration that values of this target animate with.
    pub open spec fn spec_duration_or(self, global: Duration) -> Duration {
        match self.duration {
            Some(d) => d,
            None => global,
        }
    }

    /// Set the target opacity (0.0–1.0).
    pub fn opacity(self, opacity: V) -> (t: Self)
        ensures
            t == self.spec_with(Property::Opacity, opacity),
    {
        PropertyTarget { opacity: Some(opacity), ..self }
    }

    /// Set the target x translation in pixels.
    pub fn x(self, x: V) -> (t: Self)
        ensures
            t == self.spec_with(Property::X, x),
    {
        PropertyTarget { x: Some(x), ..self }
    }

    /// Set the target y translation in pixels.
    pub fn y(self, y: V) -> (t: Self)
        ensures
            t == self.spec_with(Property::Y, y),
    {
        PropertyTarget { y: Some(y), ..self }
    }

    /// Set the target uniform scale (1.0 = no scaling).
    pub fn scale(self, scale: V) -> (t: Self)
        ensures
            t == self.spec_with(Property::Scale, scale),
    {
        PropertyTarget { scale: Some(scale), ..self }
    }

    /// Set the target rotation in radians.
    pub fn rotate_radians(self, radians: V) -> (t: Self)
        ensures
            t == self.spec_with(Property::Rotate, radians),
    {
        PropertyTarget { rotate: Some(radians), ..self }
    }

    /// Per-state duration override. Properties resolved from this target
    /// use this duration instead of the global [`MotionBuilder::duration`].
    pub fn duration(self, duration: Duration) -> (t: Self)
        ensures
            t == (PropertyTarget { duration: Some(duration), ..self }),
    {
        PropertyTarget { duration: Some(duration), ..self }
    }
}

impl<V: Copy> PropertyTarget<V> {
    /// The value this target gives `property`, if any.
    pub fn get(&self, property: Property) -> (v: Option<V>)
        ensures
            v == self.spec_get(property),
    {
        match property {
            Property::Opacity => self.opacity,
            Property::X => self.x,
            Property::Y => self.y,
            Property::Scale => self.scale,
            Property::Rotate => self.rotate,
        }
    }
}

impl<V> Default for PropertyTarget<V> {
    /// The target that sets no property and no duration.
    fn default() -> (t: Self)
        ensures
            t == Self::empty(),
    {
        PropertyTarget { opacity: None, x: None, y: None, scale: None, rotate: None, duration: None }
    }
}


/// Animation configuration for a motion element.
///
/// The shorthand methods (`opacity`, `x`, etc.) merge into
/// [`animate`](Self::animate); [`initial`](Self::initial) and
/// [`animate`](Self::animate) replace their whole target.
#[derive(Debug, Clone)]
pub struct MotionBuilder<V> {
    /// Optional initial state (applied immediately on first render).
    pub initial: Option<PropertyTarget<V>>,
    /// Target state to animate toward.
    pub animate: Option<PropertyTarget<V>>,
    /// Target state while the pointer is over the element.
    pub while_hover: Option<PropertyTarget<V>>,
    /// Target state while the element is pressed.
    pub while_tap: Option<PropertyTarget<V>>,
    /// Transition duration.
    pub duration: Duration,
    /// Easing curve for all animated properties.
    pub easing: Easing<V>,
}

/// The default transition duration, in milliseconds.
pub const DEFAULT_DURATION_MILLIS: u64 = 300;

impl<V> Default for MotionBuilder<V> {
    /// No targets, a 300 ms duration and the ease-out-cubic curve.
    fn default() -> (b: Self)
        ensures
            b.initial is None,
            b.animate is None,
            b.while_hover is None,
            b.while_tap is None,
            b.duration@ == DEFAULT_DURATION_MILLIS * crate::time::NANOS_PER_MILLI,
            b.easing == Easing::<V>::EaseOutCubic,
    {
        MotionBuilder {
            initial: None,
            animate: None,
            while_hover: None,
            while_tap: None,
            duration: Duration::from_millis(DEFAULT_DURATION_MILLIS),
            easing: Easing::EaseOutCubic,
        }
    }
}

impl<V> MotionBuilder<V> {
    /// The animate target that shorthands merge into: the current one, or
    /// an empty one.
    pub open spec fn spec_animate_or_empty(self) -> PropertyTarget<V> {
        match self.animate {
            Some(t) => t,
            None => PropertyTarget::empty(),
        }
    }

    /// This builder with `property` of the animate target set to `value`.
    pub open spec fn spec_with_animate(self, property: Property, value: V) -> Self {
        MotionBuilder {
            animate: Some(self.spec_animate_or_empty().spec_with(property, value)),
            ..self
        }
    }

    /// Set the initial state. The element appears in this state on first
    /// render, then transitions toward [`animate`](Self::animate).
    pub fn initial(self, f: impl FnOnce(PropertyTarget<V>) -> PropertyTarget<V>) -> (b: Self)
        requires
            f.requires((PropertyTarget::<V>::empty(),)),
        ensures
            b.initial matches Some(t) && f.ensures((PropertyTarget::<V>::empty(),), t),
            b == (MotionBuilder { initial: b.initial, ..self }),
    {
        MotionBuilder { initial: Some(f(PropertyTarget::default())), ..self }
    }

    /// Set the target state to animate toward, replacing any earlier one.
    pub fn animate(self, f: impl FnOnce(PropertyTarget<V>) -> PropertyTarget<V>) -> (b: Self)
        requires
            f.requires((PropertyTarget::<V>::empty(),)),
        ensures
            b.animate matches Some(t) && f.ensures((PropertyTarget::<V>::empty(),), t),
            b == (MotionBuilder { animate: b.animate, ..self }),
    {
        MotionBuilder { animate: Some(f(PropertyTarget::default())), ..self }
    }

    /// Set the target state while the pointer is over the element.
    pub fn while_hover(self, f: impl FnOnce(PropertyTarget<V>) -> PropertyTarget<V>) -> (b: Self)
        requires
            f.requires((PropertyTarget::<V>::empty(),)),
        ensures
            b.while_hover matches Some(t) && f.ensures((PropertyTarget::<V>::empty(),), t),
            b == (MotionBuilder { while_hover: b.while_hover, ..self }),
    {
        MotionBuilder { while_hover: Some(f(PropertyTarget::default())), ..self }
    }

    /// Set the target state while the element is pressed.
    pub fn while_tap(self, f: impl FnOnce(PropertyTarget<V>) -> PropertyTarget<V>) -> (b: Self)
        requires
            f.requires((PropertyTarget::<V>::empty(),)),
        ensures
            b.while_tap matches Some(t) && f.ensures((PropertyTarget::<V>::empty(),), t),
            b == (MotionBuilder { while_tap: b.while_tap, ..self }),
    {
        MotionBuilder { while_tap: Some(f(PropertyTarget::default())), ..self }
    }

    fn take_animate(self) -> (r: (PropertyTarget<V>, Self))
        ensures
            r.0 == self.spec_animate_or_empty(),
            r.1 == (MotionBuilder { animate: None, ..self }),
    {
        let MotionBuilder { initial, animate, while_hover, while_tap, duration, easing } = self;
        let existing = match animate {
            Some(t) => t,
            None => PropertyTarget::default(),
        };
        (existing, MotionBuilder { initial, animate: None, while_hover, while_tap, duration, easing })
    }

    /// Shorthand for `animate(|s| s.opacity(opacity))`, merged into the
    /// existing animate target.
    pub fn opacity(self, opacity: V) -> (b: Self)
        ensures
            b == self.spec_with_animate(Property::Opacity, opacity),
    {
        let (existing, rest) = self.take_animate();
        MotionBuilder { animate: Some(existing.opacity(opacity)), ..rest }
    }

    /// Shorthand for `animate(|s| s.x(x))`, merged into the existing animate
    /// target.
    pub fn x(self, x: V) -> (b: Self)
        ensures
            b == self.spec_with_animate(Property::X, x),
    {
        let (existing, rest) = self.take_animate();
        MotionBuilder { animate: Some(existing.x(x)), ..rest }
    }

    /// Shorthand for `animate(|s| s.y(y))`, merged into the existing animate
    /// target.
    pub fn y(self, y: V) -> (b: Self)
        ensures
            b == self.spec_with_animate(Property::Y, y),
    {
        let (existing, rest) = self.take_animate();
        MotionBuilder { animate: Some(existing.y(y)), ..rest }
    }

    /// Shorthand for `animate(|s| s.scale(scale))`, merged into the existing
    /// animate target.
    pub fn scale(self, scale: V) -> (b: Self)
        ensures
            b == self.spec_with_animate(Property::Scale, scale),
    {
        let (existing, rest) = self.take_animate();
        MotionBuilder { animate: Some(existing.scale(scale)), ..rest }
    }

    /// Shorthand for `animate(|s| s.rotate_radians(radians))`, merged into
    /// the existing animate target.
    pub fn rotate_radians(self, radians: V) -> (b: Self)
        ensures
            b == self.spec_with_animate(Property::Rotate, radians),
    {
        let (existing, rest) = self.take_animate();
        MotionBuilder { animate: Some(existing.rotate_radians(radians)), ..rest }
    }

    /// Set the transition duration.
    pub fn duration(self, duration: Duration) -> (b: Self)
        ensures
            b == (MotionBuilder { duration, ..self }),
    {
        MotionBuilder { duration, ..self }
    }

    /// Set the easing curve.
    pub fn easing(self, easing: Easing<V>) -> (b: Self)
        ensures
            b == (MotionBuilder { easing, ..self }),
    {
        MotionBuilder { easing, ..self }
    }

    /// Whether hover or tap states are configured; such elements keep
    /// requesting frames so that interaction keeps being detected.
    pub fn has_interactions(&self) -> (b: bool)
        ensures
            b == (self.while_hover is Some || self.while_tap is Some),
    {
        self.while_hover.is_some() || self.while_tap.is_some()
    }
}

/// The value a motion element starts from for `property`: the initial
/// state's value where it sets one, else the neutral value.
pub open spec fn spec_start_value<V>(initial: Option<PropertyTarget<V>>, property: Property, neutral: V) -> V {
    match initial {
        Some(t) => match t.spec_get(property) {
            Some(v) => v,
            None => neutral,
        },
        None => neutral,
    }
}

impl<V: Copy> MotionBuilder<V> {
    /// The value the element starts from for `property` on first render:
    /// the initial state's value, falling back to `neutral` (never to the
    /// animate target).
    pub fn start_value(&self, property: Property, neutral: V) -> (v: V)
        ensures
            v == spec_start_value(self.initial, property, neutral),
    {
        match &self.initial {
            Some(t) => match t.get(property) {
                Some(v) => v,
                None => neutral,
            },
            None => neutral,
        }
    }
}

/// The value `target` gives `property`, where there is a target.
pub open spec fn provided<V>(target: Option<PropertyTarget<V>>, property: Property) -> Option<V> {
    match target {
        Some(t) => t.spec_get(property),
        None => None,
    }
}

/// The duration of `target` (which must be present), or `global`.
pub open spec fn duration_of<V>(target: Option<PropertyTarget<V>>, global: Duration) -> Duration {
    target.unwrap().spec_duration_or(global)
}

/// The target behind an optional reference.
pub open spec fn copied<V>(target: Option<&PropertyTarget<V>>) -> Option<PropertyTarget<V>> {
    match target {
        Some(t) => Some(*t),
        None => None,
    }
}

/// The value and duration a property moves toward.
///
/// Active states take priority in the order tap, hover, animate; each gives
/// its own duration, or the global one. Where no active state gives the
/// property, it returns to `neutral`, with the duration of the first
/// interaction state in priority order (tap, then hover) that gives the
/// property, else the global duration, so that a property leaves an
/// interaction state at that state's speed.
pub open spec fn spec_resolve<V>(
    tapping: bool,
    while_tap: Option<PropertyTarget<V>>,
    hovering: bool,
    while_hover: Option<PropertyTarget<V>>,
    animate: Option<PropertyTarget<V>>,
    property: Property,
    neutral: V,
    global: Duration,
) -> (V, Duration) {
    if tapping && provided(while_tap, property) is Some {
        (provided(while_tap, property).unwrap(), duration_of(while_tap, global))
    } else if hovering && provided(while_hover, property) is Some {
        (provided(while_hover, property).unwrap(), duration_of(while_hover, global))
    } else if provided(animate, property) is Some {
        (provided(animate, property).unwrap(), duration_of(animate, global))
    } else if provided(while_tap, property) is Some {
        (neutral, duration_of(while_tap, global))
    } else if provided(while_hover, property) is Some {
        (neutral, duration_of(while_hover, global))
    } else {
        (neutral, global)
    }
}

/// The target value and duration of `property`, from the targets of the
/// active states in priority order (tap, hover, animate), falling back to
/// `neutral`.
pub fn resolve_property<V: Copy>(
    tapping: bool,
    while_tap: Option<&PropertyTarget<V>>,
    hovering: bool,
    while_hover: Option<&PropertyTarget<V>>,
    animate: Option<&PropertyTarget<V>>,
    property: Property,
    neutral: V,
    global_duration: Duration,
) -> (r: (V, Duration))
    ensures
        r == spec_resolve(
            tapping,
            copied(while_tap),
            hovering,
            copied(while_hover),
            copied(animate),
            property,
            neutral,
            global_duration,
        ),
{
    let mut fallback_duration = global_duration;

    if let Some(t) = while_tap {
        if let Some(v) = t.get(property) {
            fallback_duration = match t.duration {
                Some(d) => d,
                None => global_duration,
            };
            if tapping {
                return (v, fallback_duration);
            }
        }
    }

    let tap_gives = match while_tap {
        Some(t) => t.get(property).is_some(),
        None => false,
    };

    if let Some(h) = while_hover {
        if let Some(v) = h.get(property) {
            let d = match h.duration {
                Some(d) => d,
                None => global_duration,
            };
            if hovering {
                return (v, d);
            }
            if !tap_gives {
                fallback_duration = d;
            }
        }
    }

    if let Some(a) = animate {
        if let Some(v) = a.get(property) {
            let d = match a.duration {
                Some(d) => d,
                None => global_duration,
            };
            return (v, d);
        }
    }

    (neutral, fallback_duration)
}


/// A state that is active and gives the property decides its value: tap
/// above hover, hover above animate.
pub proof fn lemma_active_state_priority<V>(
    tapping: bool,
    while_tap: Option<PropertyTarget<V>>,
    hovering: bool,
    while_hover: Option<PropertyTarget<V>>,
    animate: Option<PropertyTarget<V>>,
    property: Property,
    neutral: V,
    global: Duration,
)
    ensures
        ({
            let r = spec_resolve(
                tapping,
                while_tap,
                hovering,
                while_hover,
                animate,
                property,
                neutral,
                global,
            );
            &&& tapping && provided(while_tap, property) is Some ==> r.0 == provided(
                while_tap,
                property,
            ).unwrap()
            &&& !(tapping && provided(while_tap, property) is Some) && hovering && provided(
                while_hover,
                property,
            ) is Some ==> r.0 == provided(while_hover, property).unwrap()
        }),
{
}

/// States that are not active never change a property's value: it is the
/// animate target's, or the neutral value.
pub proof fn lemma_inactive_states_keep_value<V>(
    while_tap: Option<PropertyTarget<V>>,
    while_hover: Option<PropertyTarget<V>>,
    animate: Option<PropertyTarget<V>>,
    property: Property,
    neutral: V,
    global: Duration,
)
    ensures
        spec_resolve(false, while_tap, false, while_hover, animate, property, neutral, global).0
            == match provided(animate, property) {
            Some(v) => v,
            None => neutral,
        },
{
}

/// A state that does not give a property leaves that property exactly as
/// if the state were not active: only the properties it sets are
/// overridden.
pub proof fn lemma_active_state_overrides_only_its_properties<V>(
    tapping: bool,
    while_tap: Option<PropertyTarget<V>>,
    hovering: bool,
    while_hover: Option<PropertyTarget<V>>,
    animate: Option<PropertyTarget<V>>,
    property: Property,
    neutral: V,
    global: Duration,
)
    ensures
        provided(while_tap, property) is None ==> spec_resolve(
            tapping,
            while_tap,
            hovering,
            while_hover,
            animate,
            property,
            neutral,
            global,
        ) == spec_resolve(false, while_tap, hovering, while_hover, animate, property, neutral, global),
        provided(while_hover, property) is None ==> spec_resolve(
            tapping,
            while_tap,
            hovering,
            while_hover,
            animate,
            property,
            neutral,
            global,
        ) == spec_resolve(tapping, while_tap, false, while_hover, animate, property, neutral, global),
{
}

/// Without hover and tap states, a property moves to the animate target's
/// value with its duration (or to the neutral value with the global
/// duration), whatever the pointer does.
pub proof fn lemma_no_interaction_states<V>(
    tapping: bool,
    hovering: bool,
    animate: Option<PropertyTarget<V>>,
    property: Property,
    neutral: V,
    global: Duration,
)
    ensures
        spec_resolve(tapping, None, hovering, None, animate, property, neutral, global) == match provided(animate, property) {
            Some(v) => (v, duration_of(animate, global)),
            None => (neutral, global),
        },
{
}

/// Once the interaction states end, a property that only they give returns
/// to the neutral value with the duration of the first of them, in
/// priority order (tap, then hover), that gives it.
pub proof fn lemma_leaving_state_keeps_its_speed<V>(
    while_tap: Option<PropertyTarget<V>>,
    while_hover: Option<PropertyTarget<V>>,
    property: Property,
    neutral: V,
    global: Duration,
)
    ensures
        provided(while_tap, property) is Some ==> spec_resolve(
            false,
            while_tap,
            false,
            while_hover,
            None,
            property,
            neutral,
            global,
        ) == (neutral, duration_of(while_tap, global)),
        provided(while_tap, property) is None && provided(while_hover, property) is Some
            ==> spec_resolve(false, while_tap, false, while_hover, None, property, neutral, global)
            == (neutral, duration_of(while_hover, global)),
{
}

/// Reading a property of a target reads that property's own field.
pub proof fn lemma_get_reads_own_field<V>(t: PropertyTarget<V>)
    ensures
        t.spec_get(Property::Opacity) == t.opacity,
        t.spec_get(Property::X) == t.x,
        t.spec_get(Property::Y) == t.y,
        t.spec_get(Property::Scale) == t.scale,
        t.spec_get(Property::Rotate) == t.rotate,
{
}

/// After a property of a target is set, the target gives that property the
/// value just set, whatever it gave before; every other property and the
/// duration are unchanged.
pub proof fn lemma_set_then_get<V>(t: PropertyTarget<V>, property: Property, value: V)
    ensures
        t.spec_with(property, value).spec_get(property) == Some(value),
        forall|other: Property|
            other != property ==> #[trigger] t.spec_with(property, value).spec_get(other)
                == t.spec_get(other),
        t.spec_with(property, value).duration == t.duration,
{
}

/// A shorthand sets the property on the animate target, to the value just
/// given, keeping every other property and the duration of the animate
/// target that was there (none where there was none); nothing else in the
/// builder changes.
pub proof fn lemma_shorthand_sets_animate<V>(b: MotionBuilder<V>, property: Property, value: V)
    ensures
        b.spec_with_animate(property, value).animate matches Some(a) && a.spec_get(property) == Some(
            value,
        ),
        forall|other: Property|
            other != property ==> #[trigger] b.spec_with_animate(
                property,
                value,
            ).animate.unwrap().spec_get(other) == match b.animate {
                Some(t) => t.spec_get(other),
                None => None,
            },
        b.spec_with_animate(property, value).animate.unwrap().duration == match b.animate {
            Some(t) => t.duration,
            None => None,
        },
        b.spec_with_animate(property, value).initial == b.initial,
        b.spec_with_animate(property, value).while_hover == b.while_hover,
        b.spec_with_animate(property, value).while_tap == b.while_tap,
        b.spec_with_animate(property, value).duration == b.duration,
        b.spec_with_animate(property, value).easing == b.easing,
{
}

/// The start value of a property depends only on that property's own
/// field of the initial state: its value where the initial state gives
/// one, else the neutral value.
pub proof fn lemma_start_value_own_field<V>(
    initial: Option<PropertyTarget<V>>,
    property: Property,
    neutral: V,
)
    ensures
        initial is None ==> spec_start_value(initial, property, neutral) == neutral,
        initial is Some && initial.unwrap().spec_get(property) is Some ==> spec_start_value(
            initial,
            property,
            neutral,
        ) == initial.unwrap().spec_get(property).unwrap(),
        initial is Some && initial.unwrap().spec_get(property) is None ==> spec_start_value(
            initial,
            property,
            neutral,
        ) == neutral,
{
}

/// What the resolution gives, case by case, in terms of the states'
/// fields: an active state that gives the property decides its value and
/// duration (its own duration, or the global one), tap before hover before
/// animate; otherwise the value is neutral and the duration that of the
/// first interaction state (tap, then hover) that gives the property, or
/// the global one.
pub proof fn lemma_resolve_by_cases<V>(
    tapping: bool,
    while_tap: Option<PropertyTarget<V>>,
    hovering: bool,
    while_hover: Option<PropertyTarget<V>>,
    animate: Option<PropertyTarget<V>>,
    property: Property,
    neutral: V,
    global: Duration,
)
    ensures
        ({
            let r = spec_resolve(
                tapping,
                while_tap,
                hovering,
                while_hover,
                animate,
                property,
                neutral,
                global,
            );
            let tap_gives = while_tap matches Some(t) && t.spec_get(property) is Some;
            let hover_gives = while_hover matches Some(h) && h.spec_get(property) is Some;
            let animate_gives = animate matches Some(a) && a.spec_get(property) is Some;
            &&& tapping && tap_gives ==> r == (
                while_tap.unwrap().spec_get(property).unwrap(),
                match while_tap.unwrap().duration {
                    Some(d) => d,
                    None => global,
                },
            )
            &&& !(tapping && tap_gives) && hovering && hover_gives ==> r == (
                while_hover.unwrap().spec_get(property).unwrap(),
                match while_hover.unwrap().duration {
                    Some(d) => d,
                    None => global,
                },
            )
            &&& !(tapping && tap_gives) && !(hovering && hover_gives) && animate_gives ==> r == (
                animate.unwrap().spec_get(property).unwrap(),
                match animate.unwrap().duration {
                    Some(d) => d,
                    None => global,
                },
            )
            &&& !(tapping && tap_gives) && !(hovering && hover_gives) && !animate_gives ==> r.0
                == neutral
            &&& !(tapping && tap_gives) && !(hovering && hover_gives) && !animate_gives
                && tap_gives ==> r.1 == match while_tap.unwrap().duration {
                Some(d) => d,
                None => global,
            }
            &&& !(tapping && tap_gives) && !(hovering && hover_gives) && !animate_gives
                && !tap_gives && hover_gives ==> r.1 == match while_hover.unwrap().duration {
                Some(d) => d,
                None => global,
            }
            &&& !tap_gives && !hover_gives && !animate_gives ==> r == (neutral, global)
        }),
{
}

} // verus!
