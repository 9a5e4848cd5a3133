use button_debounce::ui::{Redraw, TwoButtonUi};

const GREEN: bool = false;
const BLUE: bool = true;

// Confirmed presses green, blue, green from a fresh state: the flag
// toggles exactly twice; the presses that switch buttons redraw both
// regions, while the opening green press repeats the flag's initial
// button and so redraws only the green region.
#[test]
fn green_blue_green_toggles_twice() {
    let mut ui = TwoButtonUi::new();
    assert!(!ui.last_pressed_blue);

    let r1 = ui.on_press(GREEN);
    assert_eq!(r1, Redraw { green_region: true, blue_region: false });
    assert!(!ui.last_pressed_blue);

    let r2 = ui.on_press(BLUE);
    assert_eq!(r2, Redraw { green_region: true, blue_region: true });
    assert!(ui.last_pressed_blue);

    let r3 = ui.on_press(GREEN);
    assert_eq!(r3, Redraw { green_region: true, blue_region: true });
    assert!(!ui.last_pressed_blue);
}

// A repeat press of the same button keeps the flag and refreshes only its
// own region.
#[test]
fn repeat_press_redraws_own_region_only() {
    let mut ui = TwoButtonUi::new();
    ui.on_press(BLUE);
    let r = ui.on_press(BLUE);
    assert_eq!(r, Redraw { green_region: false, blue_region: true });
    assert!(ui.last_pressed_blue);

    ui.on_press(GREEN);
    let r = ui.on_press(GREEN);
    assert_eq!(r, Redraw { green_region: true, blue_region: false });
    assert!(!ui.last_pressed_blue);
}
