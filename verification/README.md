# gpui_motion

Declarative animation primitives for GPUI elements, with their rules
verified by Verus.

- `src/` — the verified library:
  - `time.rs`: `Duration`, a span of seconds plus nanoseconds with
    saturating addition and comparison.
  - `easing.rs`: the easing presets and the curve (preset bezier control
    points in hundredths, or a closed-form curve) that each one evaluates,
    with the symmetry laws of the preset table.
  - `tween.rs`: the tween state machine (ticking, completion, linear
    progress).
  - `motion.rs`: property targets, the motion builder, start values, and
    the priority rule (tap, hover, animate, neutral) that picks each
    property's target value and duration.
  - `interaction.rs`: hover and tap state transitions on pointer events.
- `tests/` — tests of the library.
- `app/` — the GPUI side: `f32` evaluation of the easing curves, the
  current value of a tween through `gpui::Lerp`, degree rotation, and the
  `Motion` element with its event listeners.
