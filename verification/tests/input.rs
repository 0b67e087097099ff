use fractal_view::events::ViewEvent;
use fractal_view::frame::process_events;
use fractal_view::input::{InputHandler, Key, MouseButton, RawEvent};
use fractal_view::rat::Rat;
use fractal_view::view_state::ViewState;

#[test]
fn wheel_up_zooms_and_wheel_down_unzooms() {
    let mut h = InputHandler::default();
    let up = h.handle_input(&RawEvent::MouseWheel { y: 1 });
    assert_eq!(up, vec![ViewEvent::Zoom(Rat::new(11, 10))]);
    let down = h.handle_input(&RawEvent::MouseWheel { y: -1 });
    assert_eq!(down, vec![ViewEvent::UnZoom(Rat::new(11, 10))]);
    // A zero delta takes the non-positive branch, as the translator is
    // written: unzoom.
    let zero = h.handle_input(&RawEvent::MouseWheel { y: 0 });
    assert_eq!(zero, vec![ViewEvent::UnZoom(Rat::new(11, 10))]);
}

#[test]
fn quit_and_escape_emit_quit() {
    let mut h = InputHandler::default();
    assert_eq!(h.handle_input(&RawEvent::Quit), vec![ViewEvent::Quit]);
    assert_eq!(
        h.handle_input(&RawEvent::KeyDown(Key::Escape)),
        vec![ViewEvent::Quit]
    );
}

#[test]
fn drag_pans_with_inverted_horizontal_delta() {
    let mut h = InputHandler::default();
    // Motion without the button held pans nothing.
    assert_eq!(
        h.handle_input(&RawEvent::MouseMotion { xrel: 5, yrel: 7 }),
        vec![]
    );
    assert_eq!(h.handle_input(&RawEvent::MouseButtonDown(MouseButton::Left)), vec![]);
    assert_eq!(
        h.handle_input(&RawEvent::MouseMotion { xrel: 5, yrel: 7 }),
        vec![ViewEvent::Pan(-5, 7)]
    );
    assert_eq!(h.handle_input(&RawEvent::MouseButtonUp(MouseButton::Left)), vec![]);
    assert_eq!(
        h.handle_input(&RawEvent::MouseMotion { xrel: 5, yrel: 7 }),
        vec![]
    );
}

#[test]
fn other_mouse_buttons_do_not_start_a_drag() {
    let mut h = InputHandler::default();
    assert_eq!(h.handle_input(&RawEvent::MouseButtonDown(MouseButton::Other)), vec![]);
    assert_eq!(
        h.handle_input(&RawEvent::MouseMotion { xrel: 5, yrel: 7 }),
        vec![]
    );
}

#[test]
fn directional_keys_pan_and_release_clears_the_held_state() {
    let mut h = InputHandler::default();
    assert_eq!(
        h.handle_input(&RawEvent::KeyDown(Key::W)),
        vec![ViewEvent::Pan(0, 10)]
    );
    assert_eq!(
        h.handle_input(&RawEvent::KeyDown(Key::A)),
        vec![ViewEvent::Pan(-10, 10)]
    );
    assert_eq!(h.handle_input(&RawEvent::KeyUp(Key::W)), vec![]);
    assert_eq!(
        h.handle_input(&RawEvent::KeyDown(Key::D)),
        vec![ViewEvent::Pan(10, 0)]
    );
    assert_eq!(
        h.handle_input(&RawEvent::KeyDown(Key::S)),
        vec![ViewEvent::Pan(10, -10)]
    );
}

#[test]
fn zoom_keys_emit_fixed_factor_zooms() {
    let mut h = InputHandler::default();
    assert_eq!(
        h.handle_input(&RawEvent::KeyDown(Key::Equals)),
        vec![ViewEvent::Zoom(Rat::new(11, 10))]
    );
    assert_eq!(
        h.handle_input(&RawEvent::KeyDown(Key::Minus)),
        vec![ViewEvent::UnZoom(Rat::new(11, 10))]
    );
}

#[test]
fn resize_is_forwarded_and_unknown_events_are_ignored() {
    let mut h = InputHandler::default();
    assert_eq!(
        h.handle_input(&RawEvent::WindowResized { width: 1024, height: 768 }),
        vec![ViewEvent::WindowResize(1024, 768)]
    );
    assert_eq!(h.handle_input(&RawEvent::Other), vec![]);
    assert_eq!(h.handle_input(&RawEvent::KeyDown(Key::Other)), vec![]);
    assert_eq!(h.handle_input(&RawEvent::KeyUp(Key::Other)), vec![]);
}

#[test]
fn drain_applies_events_in_order() {
    let mut h = InputHandler::default();
    let mut s = ViewState::default();
    let raws = vec![
        RawEvent::MouseWheel { y: 1 },
        RawEvent::MouseButtonDown(MouseButton::Left),
        RawEvent::MouseMotion { xrel: -100, yrel: 0 },
    ];
    let keep_running = process_events(&mut h, &mut s, &raws);
    assert!(keep_running);
    assert_eq!(s.zoom, Rat::new(11, 10));
    // Pan(100, 0) at zoom 1.1: 100 / 800 / 1.1 = 5/44.
    assert_eq!(s.focus_x, Rat::new(5, 44));
}

#[test]
fn quit_stops_the_drain_but_keeps_earlier_events() {
    let mut h = InputHandler::default();
    let mut s = ViewState::default();
    let raws = vec![
        RawEvent::MouseWheel { y: 1 },
        RawEvent::Quit,
        RawEvent::MouseWheel { y: 1 },
    ];
    let keep_running = process_events(&mut h, &mut s, &raws);
    assert!(!keep_running);
    // The first wheel tick was applied; the one after the quit was not.
    assert_eq!(s.zoom, Rat::new(11, 10));
}
