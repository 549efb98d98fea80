use rust_os::animations::{Animation, WindowAnimation};
use rust_os::easing::{ease, interpolate_value, EasingType, UNIT};

#[test]
fn easing_curves_exact_values() {
    assert_eq!(ease(EasingType::Linear, 300), 300);
    assert_eq!(ease(EasingType::EaseIn, 500), 250);
    assert_eq!(ease(EasingType::EaseOut, 500), 750);
    assert_eq!(ease(EasingType::EaseInOut, 250), 125);
    assert_eq!(ease(EasingType::EaseInOut, 750), 875);
}

#[test]
fn easing_curves_fix_both_ends() {
    for kind in [EasingType::Linear, EasingType::EaseIn, EasingType::EaseOut, EasingType::EaseInOut] {
        assert_eq!(ease(kind, 0), 0);
        assert_eq!(ease(kind, UNIT), UNIT);
    }
}

#[test]
fn interpolation_rounds_toward_start() {
    assert_eq!(interpolate_value(640, 320, 750), 400);
    assert_eq!(interpolate_value(0, 100, 333), 33);
    assert_eq!(interpolate_value(100, 0, 333), 67);
    assert_eq!(interpolate_value(-5, 5, 1000), 5);
}

#[test]
fn linear_animation_steps_then_holds_end() {
    let mut a = Animation::new(0, 100, 4, EasingType::Linear);
    assert_eq!(a.update(), 25);
    assert_eq!(a.update(), 50);
    assert_eq!(a.update(), 75);
    assert!(!a.is_complete);
    assert_eq!(a.update(), 100);
    assert!(a.is_complete);
    for _ in 0..10 {
        assert_eq!(a.update(), 100);
        assert!(a.is_complete);
        assert_eq!(a.current_time, 4);
    }
}

#[test]
fn every_tick_from_duration_on_returns_end() {
    for duration in 1..40u32 {
        let mut a = Animation::new(-300, 700, duration, EasingType::EaseInOut);
        for n in 1..(duration + 5) {
            let v = a.update();
            if n >= duration {
                assert_eq!(v, 700);
                assert!(a.is_complete);
            } else {
                assert!((-300..=700).contains(&v));
                assert!(!a.is_complete);
            }
        }
    }
}

#[test]
fn zero_duration_completes_on_first_advance() {
    let mut a = Animation::new(10, 20, 0, EasingType::EaseIn);
    assert_eq!(a.update(), 20);
    assert!(a.is_complete);
    assert_eq!(a.current_time, 0);
    assert_eq!(a.update(), 20);
}

#[test]
fn ease_out_slide_first_frame() {
    let mut a = Animation::new(640, 320, 30, EasingType::EaseOut);
    assert_eq!(a.update(), 620);
}

#[test]
fn compound_completes_when_all_members_do() {
    let mut w = WindowAnimation::spring_open(10, 20, 300, 200);
    for _ in 0..19 {
        let _ = w.update();
        assert!(!w.is_complete());
    }
    assert_eq!(w.update(), (10, 20, 300, 200, 1000));
    assert!(w.is_complete());
}

#[test]
fn compound_waits_for_the_slowest_member() {
    let mut w = WindowAnimation::minimize_to_dock(100, 100, 400, 300, 80, 420);
    w.alpha = Animation::new(1000, 800, 40, EasingType::EaseOut);
    for _ in 0..30 {
        let _ = w.update();
    }
    assert!(w.x.is_complete && w.width.is_complete);
    assert!(!w.is_complete());
    for _ in 0..10 {
        let _ = w.update();
    }
    assert!(w.is_complete());
    assert_eq!(w.update(), (80, 420, 64, 64, 800));
}
