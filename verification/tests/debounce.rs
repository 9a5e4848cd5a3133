use button_debounce::debounce::{Button, Event, SETTLE_MS};

// Raw sequence [high, high, low, low, low, high], one step per poll, with
// the settle re-sample confirming the level the poll itself sampled.
#[test]
fn poll_scenario_high_high_low_low_low_high() {
    let mut b = Button::new();
    let raw_low = [false, false, true, true, true, false];
    let expected = [
        Event::Nothing,
        Event::Nothing,
        Event::Pressed,
        Event::Nothing,
        Event::Nothing,
        Event::Released,
    ];
    for k in 0..6 {
        let e = b.poll(raw_low[k], raw_low[k]);
        assert_eq!(e, expected[k]);
    }
}

#[test]
fn new_button_starts_unpressed() {
    let b = Button::new();
    assert!(!b.is_pressed());
}

#[test]
fn settle_window_is_thirty_ms() {
    assert_eq!(SETTLE_MS, 30);
}

#[test]
fn check_overwrites_confirmed_state() {
    let mut b = Button::new();
    b.check(true);
    assert!(b.is_pressed());
    b.check(false);
    assert!(!b.is_pressed());
}

#[test]
fn needs_settle_exactly_on_edges() {
    let mut b = Button::new();
    assert!(b.needs_settle(true));
    assert!(!b.needs_settle(false));
    b.check(true);
    assert!(b.needs_settle(false));
    assert!(!b.needs_settle(true));
}

// A press candidate whose settle re-sample reads released is noise: no
// event, and the state follows the re-sample.
#[test]
fn press_noise_emits_nothing() {
    let mut b = Button::new();
    assert_eq!(b.poll(true, false), Event::Nothing);
    assert!(!b.is_pressed());
}

// Symmetric release-side noise.
#[test]
fn release_noise_emits_nothing() {
    let mut b = Button::new();
    b.check(true);
    assert_eq!(b.poll(false, true), Event::Nothing);
    assert!(b.is_pressed());
}

// Pressed needs the line pressed at both samples; a confirmed press then
// reports Pressed exactly once.
#[test]
fn pressed_needs_both_samples_low() {
    let mut b = Button::new();
    assert_eq!(b.poll(true, false), Event::Nothing);
    assert_eq!(b.poll(true, true), Event::Pressed);
    assert!(b.is_pressed());
}

// Released needs the line released at both samples.
#[test]
fn released_needs_both_samples_high() {
    let mut b = Button::new();
    b.check(true);
    assert_eq!(b.poll(false, true), Event::Nothing);
    assert_eq!(b.poll(false, false), Event::Released);
    assert!(!b.is_pressed());
}

// A held button fires once: no second Pressed without a Released between.
#[test]
fn held_button_does_not_double_fire() {
    let mut b = Button::new();
    assert_eq!(b.poll(true, true), Event::Pressed);
    for _ in 0..5 {
        assert_eq!(b.poll(true, true), Event::Nothing);
    }
    assert_eq!(b.poll(false, false), Event::Released);
    assert_eq!(b.poll(true, true), Event::Pressed);
}

// After a Nothing with the line steady, polling stays at Nothing for good.
#[test]
fn steady_line_polls_nothing_indefinitely() {
    let mut b = Button::new();
    assert_eq!(b.poll(false, false), Event::Nothing);
    for _ in 0..10 {
        assert_eq!(b.poll(false, false), Event::Nothing);
        assert!(!b.is_pressed());
    }
}
