use gpui_motion::easing::{shape, Hundredths, Shape};
use gpui_motion::Easing;

fn bezier(e: Easing<f32>) -> Hundredths {
    match shape(e) {
        Shape::Bezier(h) => h,
        other => panic!("{:?} is not a preset bezier: {:?}", e, other),
    }
}

fn reflect(h: Hundredths) -> Hundredths {
    Hundredths { x1: 100 - h.x2, y1: 100 - h.y2, x2: 100 - h.x1, y2: 100 - h.y1 }
}

#[test]
fn preset_control_points() {
    assert_eq!(bezier(Easing::EaseOutCubic), Hundredths { x1: 33, y1: 100, x2: 68, y2: 100 });
    assert_eq!(bezier(Easing::EaseInBack), Hundredths { x1: 36, y1: 0, x2: 66, y2: -56 });
    assert_eq!(bezier(Easing::EaseInOutBack), Hundredths { x1: 68, y1: -60, x2: 32, y2: 160 });
    assert_eq!(bezier(Easing::EaseInCirc), Hundredths { x1: 55, y1: 0, x2: 100, y2: 45 });
}

#[test]
fn closed_form_and_custom_curves() {
    assert_eq!(shape(Easing::<f32>::Linear), Shape::Identity);
    assert_eq!(shape(Easing::<f32>::EaseInElastic), Shape::InElastic);
    assert_eq!(shape(Easing::<f32>::EaseInOutBounce), Shape::InOutBounce);
    assert_eq!(
        shape(Easing::CubicBezier(0.42_f32, 0.0, 0.58, 1.0)),
        Shape::CustomBezier(0.42, 0.0, 0.58, 1.0)
    );
}

#[test]
fn ease_out_is_reflected_ease_in() {
    let pairs = [
        (Easing::EaseInSine, Easing::EaseOutSine),
        (Easing::EaseInQuad, Easing::EaseOutQuad),
        (Easing::EaseInCubic, Easing::EaseOutCubic),
        (Easing::EaseInQuart, Easing::EaseOutQuart),
        (Easing::EaseInQuint, Easing::EaseOutQuint),
        (Easing::EaseInExpo, Easing::EaseOutExpo),
        (Easing::EaseInCirc, Easing::EaseOutCirc),
        (Easing::EaseInBack, Easing::EaseOutBack),
    ];
    for (i, o) in pairs {
        assert_eq!(reflect(bezier(i)), bezier(o), "{:?} / {:?}", i, o);
    }
}

#[test]
fn in_out_presets_are_symmetric() {
    let in_outs = [
        Easing::EaseInOutSine,
        Easing::EaseInOutQuad,
        Easing::EaseInOutCubic,
        Easing::EaseInOutQuart,
        Easing::EaseInOutQuint,
        Easing::EaseInOutExpo,
        Easing::EaseInOutCirc,
        Easing::EaseInOutBack,
    ];
    for e in in_outs {
        let h = bezier(e);
        assert_eq!(reflect(h), h, "{:?}", e);
    }
}
