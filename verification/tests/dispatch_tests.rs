use dm_gui::events::{MouseEvent, WindowEvent};
use dm_gui::geometry::{Point, Size};
use dm_gui::widget::{Button, TextEdit};
use dm_gui::window::{
    get_x_lparam, get_y_lparam, MessageOutcome, Window, WindowOpt, WM_COMMAND, WM_MOUSEMOVE,
    WM_PAINT,
};

fn empty_window(hwnd: u64) -> Window {
    Window::new(hwnd, WindowOpt::new().creation_params())
}

fn pack_coords(x: u16, y: u16) -> u64 {
    ((y as u64) << 16) | (x as u64)
}

#[test]
fn paint_runs_the_first_registered_handler_once() {
    let mut w = empty_window(42);
    w.connect(WindowEvent::paint(1));
    w.connect(WindowEvent::paint(2));
    assert_eq!(w.on_message(WM_PAINT, 0, 0), MessageOutcome::RunPaint { handler: 1 });
}

#[test]
fn paint_without_a_handler_is_declined() {
    let w = empty_window(42);
    assert_eq!(w.on_message(WM_PAINT, 0, 0), MessageOutcome::NotHandled);
}

#[test]
fn paint_skips_handlers_of_other_kinds() {
    let mut w = empty_window(42);
    w.connect(WindowEvent::mousemove(9));
    w.connect(WindowEvent::paint(3));
    assert_eq!(w.on_message(WM_PAINT, 0, 0), MessageOutcome::RunPaint { handler: 3 });
}

#[test]
fn mousemove_decodes_the_packed_coordinates() {
    let mut w = empty_window(42);
    w.connect(WindowEvent::mousemove(5));
    let r = w.on_message(WM_MOUSEMOVE, 0, pack_coords(10, 20));
    assert_eq!(
        r,
        MessageOutcome::RunMouseMove {
            handler: 5,
            event: MouseEvent::new(Point::new(10, 20)),
        }
    );
}

#[test]
fn mousemove_coordinates_are_signed() {
    // -5 and -1 as 16-bit words.
    assert_eq!(get_x_lparam(pack_coords(0xFFFB, 0xFFFF)), -5);
    assert_eq!(get_y_lparam(pack_coords(0xFFFB, 0xFFFF)), -1);
    assert_eq!(get_x_lparam(pack_coords(0x7FFF, 0x8000)), 32767);
    assert_eq!(get_y_lparam(pack_coords(0x7FFF, 0x8000)), -32768);
}

#[test]
fn mousemove_without_a_handler_is_declined() {
    let w = empty_window(42);
    assert_eq!(w.on_message(WM_MOUSEMOVE, 0, 0), MessageOutcome::NotHandled);
}

#[test]
fn command_runs_the_handler_registered_for_the_matching_child() {
    let mut w = empty_window(42);
    assert!(Button::create(&mut w, "ok", "OK", 101));
    assert!(TextEdit::create(&mut w, "name", 102));
    w.connect(WindowEvent::button_click("ok", 7));
    assert_eq!(w.on_message(WM_COMMAND, 0, 101), MessageOutcome::RunCommand { handler: 7 });
}

#[test]
fn command_for_a_child_without_a_registration_is_declined() {
    let mut w = empty_window(42);
    assert!(Button::create(&mut w, "ok", "OK", 101));
    assert!(TextEdit::create(&mut w, "name", 102));
    w.connect(WindowEvent::button_click("ok", 7));
    assert_eq!(w.on_message(WM_COMMAND, 0, 102), MessageOutcome::NotHandled);
}

#[test]
fn command_for_an_unrelated_handle_is_declined() {
    let mut w = empty_window(42);
    assert!(Button::create(&mut w, "ok", "OK", 101));
    w.connect(WindowEvent::button_click("ok", 7));
    assert_eq!(w.on_message(WM_COMMAND, 0, 999), MessageOutcome::NotHandled);
}

#[test]
fn command_matches_by_the_container_name() {
    let mut w = empty_window(42);
    assert!(Button::create(&mut w, "b1", "one", 101));
    assert!(Button::create(&mut w, "b2", "two", 102));
    w.connect(WindowEvent::button_click("b2", 8));
    assert_eq!(w.on_message(WM_COMMAND, 0, 101), MessageOutcome::NotHandled);
    assert_eq!(w.on_message(WM_COMMAND, 0, 102), MessageOutcome::RunCommand { handler: 8 });
}

#[test]
fn command_takes_the_first_registration_for_the_name() {
    let mut w = empty_window(42);
    assert!(Button::create(&mut w, "ok", "OK", 101));
    w.connect(WindowEvent::button_click("ok", 7));
    w.connect(WindowEvent::button_click("ok", 9));
    assert_eq!(w.on_message(WM_COMMAND, 0, 101), MessageOutcome::RunCommand { handler: 7 });
}

#[test]
fn unknown_messages_are_declined() {
    let mut w = empty_window(42);
    w.connect(WindowEvent::paint(1));
    w.connect(WindowEvent::mousemove(2));
    w.connect(WindowEvent::button_click("ok", 3));
    assert_eq!(w.on_message(0x0400, 0, 0), MessageOutcome::NotHandled);
}

#[test]
fn window_set_size_then_get_size_round_trips() {
    let mut w = empty_window(42);
    w.set_size(Size::new(400, 600));
    assert_eq!(w.get_size(), Size::new(400, 600));
}

#[test]
fn window_set_position_keeps_the_size() {
    let mut w = empty_window(42);
    w.set_size(Size::new(400, 600));
    w.set_position(Point::new(3, 4));
    assert_eq!(w.control.pos, Point::new(3, 4));
    assert_eq!(w.get_size(), Size::new(400, 600));
}

#[test]
fn window_show_sets_visible() {
    let mut w = empty_window(42);
    assert!(!w.control.visible);
    w.show();
    assert!(w.control.visible);
}
