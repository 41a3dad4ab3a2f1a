use dm_gui::events::WindowEvent;
use dm_gui::system::{System, SystemOutcome};
use dm_gui::widget::Button;
use dm_gui::window::{MessageOutcome, Window, WindowOpt, WM_COMMAND, WM_DESTROY, WM_PAINT};

fn empty_window(hwnd: u64) -> Window {
    Window::new(hwnd, WindowOpt::new().creation_params())
}

#[test]
fn init_twice_registers_the_class_once_and_both_succeed() {
    let mut sys = System::new();
    assert!(sys.needs_class_registration());
    assert!(sys.init(5, 3));
    // The class is registered: a second attempt performs no registration
    // call and still reports success.
    assert!(!sys.needs_class_registration());
    assert!(sys.init(0, 0));
    assert!(sys.class_registered);
    assert_eq!(sys.hinstance, 5);
}

#[test]
fn init_fails_without_a_module_handle() {
    let mut sys = System::new();
    assert!(!sys.init(0, 3));
    assert!(sys.needs_class_registration());
}

#[test]
fn init_fails_when_class_registration_fails() {
    let mut sys = System::new();
    assert!(!sys.init(5, 0));
    assert!(sys.needs_class_registration());
    // A later attempt may still succeed.
    assert!(sys.init(5, 3));
}

#[test]
fn destroying_the_last_window_requests_quit() {
    let mut sys = System::new();
    assert!(sys.init(5, 3));
    sys.register_window(empty_window(42));
    assert_eq!(sys.window_count(), 1);
    assert!(!sys.should_quit());
    let r = sys.handle_message(42, WM_DESTROY, 0, 0);
    assert_eq!(r, SystemOutcome::WindowDestroyed { quit: true });
    assert_eq!(sys.window_count(), 0);
    assert!(sys.should_quit());
}

#[test]
fn a_destroyed_window_is_never_dispatched_to_again() {
    let mut sys = System::new();
    sys.register_window(empty_window(42));
    assert_eq!(
        sys.handle_message(42, WM_DESTROY, 0, 0),
        SystemOutcome::WindowDestroyed { quit: true }
    );
    assert_eq!(sys.handle_message(42, WM_PAINT, 0, 0), SystemOutcome::DefaultHandling);
    assert_eq!(sys.handle_message(42, WM_DESTROY, 0, 0), SystemOutcome::DefaultHandling);
}

#[test]
fn destroying_one_of_two_windows_does_not_quit() {
    let mut sys = System::new();
    sys.register_window(empty_window(42));
    sys.register_window(empty_window(43));
    let r = sys.handle_message(42, WM_DESTROY, 0, 0);
    assert_eq!(r, SystemOutcome::WindowDestroyed { quit: false });
    assert_eq!(sys.window_count(), 1);
    assert!(!sys.should_quit());
}

#[test]
fn messages_reach_the_window_owning_the_handle() {
    let mut sys = System::new();
    let mut w1 = empty_window(42);
    w1.connect(WindowEvent::paint(1));
    let mut w2 = empty_window(43);
    w2.connect(WindowEvent::paint(2));
    sys.register_window(w1);
    sys.register_window(w2);
    assert_eq!(
        sys.handle_message(43, WM_PAINT, 0, 0),
        SystemOutcome::Dispatched(MessageOutcome::RunPaint { handler: 2 })
    );
    assert_eq!(
        sys.handle_message(42, WM_PAINT, 0, 0),
        SystemOutcome::Dispatched(MessageOutcome::RunPaint { handler: 1 })
    );
}

#[test]
fn a_handle_no_window_owns_falls_to_default_handling() {
    let mut sys = System::new();
    sys.register_window(empty_window(42));
    assert_eq!(sys.handle_message(7, WM_PAINT, 0, 0), SystemOutcome::DefaultHandling);
}

#[test]
fn declined_messages_are_reported_for_default_handling() {
    let mut sys = System::new();
    sys.register_window(empty_window(42));
    assert_eq!(
        sys.handle_message(42, WM_PAINT, 0, 0),
        SystemOutcome::Dispatched(MessageOutcome::NotHandled)
    );
}

#[test]
fn full_scenario_commands_route_by_child_handle() {
    // Window with button "ok" and text field "name"; a command handler is
    // registered for "ok" alone.
    let mut sys = System::new();
    assert!(sys.init(5, 3));
    let mut w = empty_window(42);
    assert!(Button::create(&mut w, "ok", "OK", 101));
    assert!(dm_gui::widget::TextEdit::create(&mut w, "name", 102));
    w.connect(WindowEvent::button_click("ok", 7));
    sys.register_window(w);
    assert_eq!(
        sys.handle_message(42, WM_COMMAND, 0, 101),
        SystemOutcome::Dispatched(MessageOutcome::RunCommand { handler: 7 })
    );
    assert_eq!(
        sys.handle_message(42, WM_COMMAND, 0, 102),
        SystemOutcome::Dispatched(MessageOutcome::NotHandled)
    );
}
