use button_debounce::geometry::label_origin;
use embedded_graphics::geometry::{Point, Size};
use embedded_graphics::primitives::Rectangle;

#[test]
fn label_origin_exact_values() {
    assert_eq!(label_origin(320, 240), (9, 119));
    assert_eq!(label_origin(240, 240), (9, 119));
    assert_eq!(label_origin(321, 241), (10, 120));
    assert_eq!(label_origin(20, 1), (9, 0));
}

// The computed origin matches what the graphics library computes for the
// same display: the bounding box centre shifted left by w / 2 - 10.
#[test]
fn label_origin_matches_graphics_library() {
    for &(w, h) in &[(320u32, 240u32), (240, 240), (321, 241), (128, 64), (20, 1)] {
        let bb = Rectangle::new(Point::zero(), Size::new(w, h));
        let expected = bb.center() - Size::new(w / 2 - 10, 0);
        assert_eq!(label_origin(w, h), (expected.x, expected.y));
    }
}
