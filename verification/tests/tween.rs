use gpui_motion::{Duration, Easing, Progress, Tween};

const APPROX_EPS: f32 = 0.02;

fn linear(from: f32, to: f32, millis: u64) -> Tween<f32, f32> {
    Tween::new(from, to, Duration::from_millis(millis), Easing::Linear)
}

#[test]
fn test_approx_eps_is_reasonable() {
    // APPROX_EPS should be in (0, 1).
    assert!(APPROX_EPS > 0.0 && APPROX_EPS < 1.0);
}

#[test]
fn new_tween_starts_at_zero_and_is_not_done() {
    let tw = linear(0.0, 100.0, 1000);
    assert!(!tw.is_done());
    assert_eq!(
        tw.progress(),
        Progress::Linear { elapsed: Duration::from_millis(0), duration: Duration::from_millis(1000) }
    );
    assert_eq!(tw.endpoints(), (&0.0, &100.0));
    assert_eq!(tw.easing(), Easing::Linear);
}

#[test]
fn tick_to_end_is_done() {
    let mut tw = linear(0.0, 100.0, 1000);
    tw.tick(Duration::from_millis(1000));
    assert!(tw.is_done());
    assert_eq!(
        tw.progress(),
        Progress::Linear { elapsed: Duration::from_millis(1000), duration: Duration::from_millis(1000) }
    );
}

#[test]
fn tick_half_way() {
    let mut tw = linear(0.0, 100.0, 1000);
    tw.tick(Duration::from_millis(500));
    assert!(!tw.is_done());
    assert_eq!(
        tw.progress(),
        Progress::Linear { elapsed: Duration::from_millis(500), duration: Duration::from_millis(1000) }
    );
}

/// Past the end, progress is clamped to the duration.
#[test]
fn progress_clamps_past_end() {
    let mut tw = linear(0.0, 100.0, 1000);
    tw.tick(Duration::from_millis(2000));
    assert!(tw.is_done());
    assert_eq!(
        tw.progress(),
        Progress::Linear { elapsed: Duration::from_millis(1000), duration: Duration::from_millis(1000) }
    );
}

/// A zero-duration tween is immediately at its target.
#[test]
fn zero_duration_is_immediate() {
    let tw = Tween::new(0.0_f32, 100.0, Duration::zero(), Easing::<f32>::Linear);
    assert!(tw.is_done());
    assert_eq!(tw.progress(), Progress::Immediate);
}

#[test]
fn multiple_ticks_accumulate() {
    let mut tw = linear(0.0, 100.0, 1000);
    tw.tick(Duration::from_millis(200));
    tw.tick(Duration::from_millis(300));
    assert_eq!(
        tw.progress(),
        Progress::Linear { elapsed: Duration::from_millis(500), duration: Duration::from_millis(1000) }
    );
}

/// An absurdly large tick must not overflow.
#[test]
fn tick_saturates() {
    let mut tw = linear(0.0, 100.0, 1000);
    tw.tick(Duration::from_secs(60 * 60 * 24 * 365)); // 1 year
    assert!(tw.is_done());
    tw.tick(Duration::max());
    tw.tick(Duration::max());
    assert!(tw.is_done());
    assert_eq!(
        tw.progress(),
        Progress::Linear { elapsed: Duration::from_millis(1000), duration: Duration::from_millis(1000) }
    );
}

#[test]
fn tween_holds_any_value_type() {
    let tw = Tween::new((1_i32, 2_i32), (3, 4), Duration::from_millis(10), Easing::<f32>::EaseInCubic);
    assert_eq!(tw.endpoints(), (&(1, 2), &(3, 4)));
    assert_eq!(tw.easing(), Easing::EaseInCubic);
}

/// Done exactly when the saturated sum of the ticks reaches the duration,
/// and never undone by later ticks.
#[test]
fn done_follows_sum_of_ticks() {
    let mut tw = linear(0.0, 100.0, 1000);
    assert!(!tw.is_done());
    tw.tick(Duration::from_millis(500));
    assert!(!tw.is_done());
    tw.tick(Duration::from_millis(499));
    assert!(!tw.is_done());
    tw.tick(Duration::from_millis(1));
    assert!(tw.is_done());
    tw.tick(Duration::zero());
    assert!(tw.is_done());
    tw.tick(Duration::from_secs(60 * 60 * 24 * 365));
    assert!(tw.is_done());
}
