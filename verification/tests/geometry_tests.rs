use dm_gui::events::MouseEvent;
use dm_gui::geometry::{Point, Size};
use dm_gui::control::size_from_rect;
use dm_gui::window::{WindowOpt, CW_USEDEFAULT};

#[test]
fn point_accessors() {
    let p = Point::new(3, -7);
    assert_eq!(p.get_x(), 3);
    assert_eq!(p.get_y(), -7);
}

#[test]
fn size_accessors() {
    let s = Size::new(400, 600);
    assert_eq!(s.get_width(), 400);
    assert_eq!(s.get_height(), 600);
}

#[test]
fn mouse_event_position() {
    let e = MouseEvent::new(Point::new(11, 22));
    let p = e.get_position();
    assert_eq!(p, Point::new(11, 22));
}

#[test]
fn window_opt_builder_sets_every_option() {
    let opt = WindowOpt::new()
        .is_topmost(true)
        .position(Point::new(10, 20))
        .size(Size::new(300, 200))
        .title("Rust Window");
    assert_eq!(opt.topmost, Some(true));
    assert_eq!(opt.position, Some(Point::new(10, 20)));
    assert_eq!(opt.size, Some(Size::new(300, 200)));
    assert_eq!(opt.title.as_deref(), Some("Rust Window"));
}

#[test]
fn creation_params_fall_back_to_defaults() {
    let p = WindowOpt::new().creation_params();
    assert_eq!(p.x, CW_USEDEFAULT);
    assert_eq!(p.y, CW_USEDEFAULT);
    assert_eq!(p.width, CW_USEDEFAULT);
    assert_eq!(p.height, CW_USEDEFAULT);
    assert_eq!(p.title, "");
}

#[test]
fn creation_params_take_explicit_options() {
    let p = WindowOpt::new()
        .position(Point::new(5, 6))
        .size(Size::new(640, 480))
        .title("t")
        .creation_params();
    assert_eq!(p.x, 5);
    assert_eq!(p.y, 6);
    assert_eq!(p.width, 640);
    assert_eq!(p.height, 480);
    assert_eq!(p.title, "t");
}

#[test]
fn size_from_rect_subtracts_edges() {
    let s = size_from_rect(10, 20, 410, 620);
    assert_eq!(s, Size::new(400, 600));
}

#[test]
fn size_from_rect_zero_rectangle() {
    let s = size_from_rect(0, 0, 0, 0);
    assert_eq!(s, Size::new(0, 0));
}
