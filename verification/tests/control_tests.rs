use sinus::control::{Action, Control};
use sinus::shapes::Shape;

#[test]
fn start_state_and_blinks() {
    let c = Control::new(Shape::Heart);
    assert_eq!(c, Control { shape: Shape::Heart, last_pressed: false, hb: 0, led_on: false });
    assert_eq!(c.blinks(), 4);
    assert_eq!(Control::new(Shape::Ellipse).blinks(), 1);
    assert_eq!(Control::new(Shape::Spiral).blinks(), 8);
}

#[test]
fn press_moves_to_next_shape_once() {
    let mut c = Control::new(Shape::Heart);
    let a = c.step(true);
    assert_eq!(a, Action { redraw: Some(Shape::Star), blinks: 5, led: None });
    assert_eq!(c.shape, Shape::Star);
    // Held down: no second change.
    for _ in 0..5 {
        let a = c.step(true);
        assert_eq!(a.redraw, None);
        assert_eq!(a.blinks, 0);
    }
    assert_eq!(c.shape, Shape::Star);
    c.step(false);
    let a = c.step(true);
    assert_eq!(a.redraw, Some(Shape::Rose));
    assert_eq!(c.shape, Shape::Rose);
}

#[test]
fn heartbeat_toggles_every_sixteen_passes() {
    let mut c = Control::new(Shape::Circle);
    let mut toggles = Vec::new();
    for pass in 1..=48u32 {
        let a = c.step(false);
        if let Some(level) = a.led {
            toggles.push((pass, level));
        }
    }
    assert_eq!(toggles, vec![(16, true), (32, false), (48, true)]);
}

#[test]
fn press_resets_led_before_heartbeat() {
    let mut c = Control { shape: Shape::Spiral, last_pressed: false, hb: 15, led_on: true };
    let a = c.step(true);
    assert_eq!(a, Action { redraw: Some(Shape::Ellipse), blinks: 1, led: Some(true) });
    assert_eq!(c.led_on, true);
    assert_eq!(c.hb, 16);
}

#[test]
fn counter_wraps() {
    let mut c = Control { shape: Shape::Star, last_pressed: true, hb: u32::MAX, led_on: true };
    let a = c.step(true);
    assert_eq!(c.hb, 0);
    assert_eq!(a.led, Some(false));
    assert_eq!(a.redraw, None);
}
