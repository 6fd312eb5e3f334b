use geoviz::shapes::{clipped_difference, Pixel, PixelCircle, PixelLine, PixelRect, Trace};
use geoviz::surface::{Action, Canvas, Ink, Mode};

fn px(x: i32, y: i32) -> Pixel {
    Pixel::new(x, y)
}

#[test]
fn fresh_surface_draws_black_line_outlines() {
    let c = Canvas::new();
    assert_eq!(c.mode(), Mode::Line);
    assert!(!c.fill());
    assert_eq!(c.ink(), Ink::Black);
    assert_eq!(c.pending(), None);
    assert!(c.points().is_empty());
    assert!(c.lines().is_empty());
    assert!(c.circles().is_empty());
}

#[test]
fn toggle_follows_the_single_pressed_button() {
    let mut c = Canvas::new();
    c.toggle((false, true, false));
    assert_eq!(c.mode(), Mode::Rectangle);
    c.toggle((false, false, true));
    assert_eq!(c.mode(), Mode::Circle);
    c.toggle((true, false, false));
    assert_eq!(c.mode(), Mode::Line);
}

#[test]
fn toggle_falls_back_to_circles() {
    for buttons in [
        (false, false, false),
        (true, true, false),
        (true, false, true),
        (false, true, true),
        (true, true, true),
    ] {
        let mut c = Canvas::new();
        c.toggle(buttons);
        assert_eq!(c.mode(), Mode::Circle);
    }
}

#[test]
fn toggle_twice_is_toggle_once() {
    let mut once = Canvas::new();
    once.toggle((false, true, false));
    let mut twice = Canvas::new();
    twice.toggle((false, true, false));
    twice.toggle((false, true, false));
    assert_eq!(once.mode(), twice.mode());
}

#[test]
fn first_click_is_marked_and_waits() {
    let mut c = Canvas::new();
    let actions = c.press(3, 4);
    assert_eq!(actions, vec![Action::Mark { at: px(3, 4) }]);
    assert_eq!(c.pending(), Some(px(3, 4)));
    assert_eq!(c.points(), &vec![px(3, 4)]);
    assert!(c.lines().is_empty());
}

#[test]
fn second_click_completes_a_line_from_the_newest_click() {
    let mut c = Canvas::new();
    c.press(0, 0);
    let actions = c.press(2, 2);
    let line = PixelLine::new(px(2, 2), px(0, 0));
    assert_eq!(
        actions,
        vec![
            Action::Mark { at: px(2, 2) },
            Action::PaintLine { trace: Trace::Slanted { line }, ink: Ink::Black },
        ]
    );
    assert_eq!(c.lines(), &vec![line]);
    assert_eq!(c.pending(), None);
    assert_eq!(c.points(), &vec![px(0, 0), px(2, 2)]);
}

#[test]
fn third_click_waits_again() {
    let mut c = Canvas::new();
    c.press(0, 0);
    c.press(2, 2);
    let actions = c.press(7, 7);
    assert_eq!(actions, vec![Action::Mark { at: px(7, 7) }]);
    assert_eq!(c.pending(), Some(px(7, 7)));
    assert_eq!(c.lines().len(), 1);
}

#[test]
fn line_traces() {
    assert_eq!(PixelLine::new(px(2, 0), px(2, 5)).trace(), Trace::Vertical { x: 2 });
    assert_eq!(PixelLine::new(px(1, 9), px(6, 9)).trace(), Trace::Horizontal { y: 9 });
    let slanted = PixelLine::new(px(0, 0), px(2, 2));
    assert_eq!(slanted.trace(), Trace::Slanted { line: slanted });
}

#[test]
fn a_line_through_one_position_counts_as_vertical() {
    assert_eq!(PixelLine::new(px(4, 4), px(4, 4)).trace(), Trace::Vertical { x: 4 });
}

#[test]
fn a_new_line_is_crossed_with_lines_then_circles() {
    let mut c = Canvas::new();
    c.press(0, 0);
    c.press(10, 0);
    c.press(0, 5);
    c.press(0, 9);
    c.toggle((false, false, true));
    c.press(5, 5);
    c.press(5, 8);
    c.toggle((true, false, false));
    c.press(1, 1);
    let actions = c.press(4, 7);

    let first = PixelLine::new(px(10, 0), px(0, 0));
    let second = PixelLine::new(px(0, 9), px(0, 5));
    let circle = PixelCircle::new(px(5, 5), px(5, 8));
    let fresh = PixelLine::new(px(4, 7), px(1, 1));
    assert_eq!(
        actions,
        vec![
            Action::Mark { at: px(4, 7) },
            Action::PaintLine { trace: Trace::Slanted { line: fresh }, ink: Ink::Black },
            Action::CrossLines { fresh_line: fresh, stored_line: first },
            Action::CrossLines { fresh_line: fresh, stored_line: second },
            Action::CrossLineCircle { line: fresh, circle },
        ]
    );
    assert_eq!(c.lines(), &vec![first, second, fresh]);
    assert_eq!(c.circles(), &vec![circle]);
}

#[test]
fn a_new_circle_is_crossed_with_circles_then_lines() {
    let mut c = Canvas::new();
    c.press(0, 0);
    c.press(10, 0);
    c.toggle((false, false, true));
    c.press(0, 0);
    c.press(5, 0);
    c.press(8, 0);
    let actions = c.press(13, 0);

    let line = PixelLine::new(px(10, 0), px(0, 0));
    let stored = PixelCircle::new(px(0, 0), px(5, 0));
    let fresh = PixelCircle::new(px(8, 0), px(13, 0));
    assert_eq!(
        actions,
        vec![
            Action::Mark { at: px(13, 0) },
            Action::PaintCircle { circle: fresh, fill: false, ink: Ink::Black },
            Action::CrossCircles { fresh_circle: fresh, stored_circle: stored },
            Action::CrossLineCircle { line, circle: fresh },
        ]
    );
    assert_eq!(c.circles(), &vec![stored, fresh]);
    assert_eq!(c.lines(), &vec![line]);
}

#[test]
fn the_first_circle_on_an_empty_surface_is_crossed_with_nothing() {
    let mut c = Canvas::new();
    c.toggle((false, false, true));
    c.press(1, 2);
    let actions = c.press(4, 6);
    let fresh = PixelCircle::new(px(1, 2), px(4, 6));
    assert_eq!(
        actions,
        vec![
            Action::Mark { at: px(4, 6) },
            Action::PaintCircle { circle: fresh, fill: false, ink: Ink::Black },
        ]
    );
}

#[test]
fn a_rectangle_is_painted_and_not_stored() {
    let mut c = Canvas::new();
    c.press(0, 0);
    c.press(3, 3);
    c.toggle((false, true, false));
    c.press(10, 20);
    let actions = c.press(4, 50);
    let rect = PixelRect { origin: px(10, 20), width: -6, height: 30 };
    assert_eq!(
        actions,
        vec![
            Action::Mark { at: px(4, 50) },
            Action::PaintRectangle { rect, fill: false, ink: Ink::Black },
        ]
    );
    assert_eq!(c.lines().len(), 1);
    assert!(c.circles().is_empty());
    assert_eq!(c.pending(), None);
    assert_eq!(c.points().len(), 4);
}

#[test]
fn rectangle_extents_keep_the_sign_of_the_corner_order() {
    assert_eq!(
        PixelRect::new(px(5, 7), px(1, 2)),
        PixelRect { origin: px(1, 2), width: 4, height: 5 }
    );
    assert_eq!(
        PixelRect::new(px(1, 2), px(5, 7)),
        PixelRect { origin: px(5, 7), width: -4, height: -5 }
    );
}

#[test]
fn rectangle_extents_stop_at_the_ends_of_the_range() {
    let r = PixelRect::new(px(i32::MAX, i32::MIN), px(i32::MIN, i32::MAX));
    assert_eq!(r.origin, px(i32::MIN, i32::MAX));
    assert_eq!(r.width, i32::MAX);
    assert_eq!(r.height, i32::MIN);
}

#[test]
fn clipped_difference_values() {
    assert_eq!(clipped_difference(7, 9), -2);
    assert_eq!(clipped_difference(i32::MAX, -1), i32::MAX);
    assert_eq!(clipped_difference(i32::MIN, 1), i32::MIN);
    assert_eq!(clipped_difference(i32::MIN, i32::MIN), 0);
}

#[test]
fn a_waiting_click_survives_a_change_of_mode() {
    let mut c = Canvas::new();
    c.press(1, 1);
    c.toggle((false, false, true));
    assert_eq!(c.pending(), Some(px(1, 1)));
    let actions = c.press(1, 6);
    let fresh = PixelCircle::new(px(1, 1), px(1, 6));
    assert_eq!(actions[1], Action::PaintCircle { circle: fresh, fill: false, ink: Ink::Black });
    assert_eq!(c.circles(), &vec![fresh]);
}

#[test]
fn paint_settings_travel_with_the_shape() {
    let mut c = Canvas::new();
    c.set_color((10, 20, 30));
    c.set_fill(true);
    assert_eq!(c.ink(), Ink::Rgb { r: 10, g: 20, b: 30 });
    assert!(c.fill());
    c.toggle((false, true, false));
    c.press(0, 0);
    let actions = c.press(2, 3);
    assert_eq!(
        actions[1],
        Action::PaintRectangle {
            rect: PixelRect { origin: px(0, 0), width: 2, height: 3 },
            fill: true,
            ink: Ink::Rgb { r: 10, g: 20, b: 30 },
        }
    );
}

#[test]
fn black_picked_by_parts_is_not_the_initial_ink() {
    let mut c = Canvas::new();
    c.set_color((0, 0, 0));
    assert_eq!(c.ink(), Ink::Rgb { r: 0, g: 0, b: 0 });
    assert_ne!(c.ink(), Ink::Black);
}

#[test]
fn clear_forgets_clicks_and_shapes_only() {
    let mut c = Canvas::new();
    c.set_color((1, 2, 3));
    c.set_fill(true);
    c.press(0, 0);
    c.press(1, 1);
    c.toggle((false, false, true));
    c.press(0, 0);
    c.press(1, 1);
    c.press(9, 9);
    c.clear();
    assert!(c.points().is_empty());
    assert!(c.lines().is_empty());
    assert!(c.circles().is_empty());
    assert_eq!(c.pending(), None);
    assert_eq!(c.mode(), Mode::Circle);
    assert!(c.fill());
    assert_eq!(c.ink(), Ink::Rgb { r: 1, g: 2, b: 3 });
}

#[test]
fn every_stored_shape_is_crossed_once() {
    let mut c = Canvas::new();
    for i in 0..5 {
        c.press(i, 0);
        c.press(i, 10);
    }
    c.toggle((false, false, true));
    for i in 0..3 {
        c.press(i, i);
        c.press(i + 4, i);
    }
    c.press(50, 50);
    let actions = c.press(60, 50);
    assert_eq!(actions.len(), 2 + 3 + 5);
    let crossed_circles =
        actions.iter().filter(|a| matches!(a, Action::CrossCircles { .. })).count();
    let crossed_lines =
        actions.iter().filter(|a| matches!(a, Action::CrossLineCircle { .. })).count();
    assert_eq!(crossed_circles, 3);
    assert_eq!(crossed_lines, 5);
}
