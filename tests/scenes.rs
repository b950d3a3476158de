use adviewer::controller::Container;
use adviewer::geom::{LayoutHelper, Rectangle, Vector};
use adviewer::scene::{Control, ControlKind, FieldValue, MouseEvent, Scene};
use adviewer::stage::Stage;

fn button(x: i64, y: i64, w: i64, h: i64, text: &str) -> Control {
    Control::new(ControlKind::Button, Rectangle::new(x, y, w, h), String::from(text))
}

#[test]
fn set_field_value_without_match_changes_nothing() {
    let mut s = Scene::new(Rectangle::new(0, 0, 200, 200));
    let mut a = Control::new(ControlKind::Text, Rectangle::new(0, 0, 10, 10), String::from("a"));
    a.set_id(1);
    s.add_control(a);
    s.add_control(button(0, 0, 10, 10, "b"));
    s.set_field_value(FieldValue::Text(String::from("new")), ControlKind::Text, 2);
    s.set_field_value(FieldValue::Text(String::from("new")), ControlKind::Button, 1);
    assert_eq!(s.controls[0].text, "a");
    assert_eq!(s.controls[1].text, "b");
}

#[test]
fn set_field_value_updates_first_match_only() {
    let mut s = Scene::new(Rectangle::new(0, 0, 200, 200));
    for name in ["a", "b"] {
        let mut c = Control::new(ControlKind::Text, Rectangle::new(0, 0, 10, 10), String::from(name));
        c.set_id(9);
        s.add_control(c);
    }
    s.set_field_value(FieldValue::Text(String::from("FPS: 60")), ControlKind::Text, 9);
    assert_eq!(s.controls[0].text, "FPS: 60");
    assert_eq!(s.controls[1].text, "b");
}

#[test]
fn set_field_value_on_empty_scene_is_a_no_op() {
    let mut s = Scene::new(Rectangle::new(0, 0, 200, 200));
    s.set_field_value(FieldValue::Text(String::from("x")), ControlKind::Text, 1);
    assert!(s.controls.is_empty());
}

#[test]
fn mouse_down_goes_to_topmost_control_only() {
    let mut s = Scene::new(Rectangle::new(0, 0, 200, 200));
    s.add_control(button(0, 0, 100, 100, "below"));
    s.add_control(button(50, 50, 100, 100, "above"));
    assert!(s.handle_mouse(MouseEvent::Down, Vector::new(75, 75)));
    assert!(s.controls[1].pressed);
    assert!(!s.controls[0].pressed);
}

#[test]
fn mouse_down_passes_through_labels_and_misses() {
    let mut s = Scene::new(Rectangle::new(0, 0, 200, 200));
    s.add_control(button(0, 0, 100, 100, "below"));
    s.add_control(Control::new(ControlKind::Label, Rectangle::new(0, 0, 100, 100), String::from("label")));
    assert!(s.handle_mouse(MouseEvent::Down, Vector::new(10, 10)));
    assert!(s.controls[0].pressed);
    assert!(!s.handle_mouse(MouseEvent::Down, Vector::new(150, 150)));
}

#[test]
fn mouse_up_releases_pressed_button() {
    let mut s = Scene::new(Rectangle::new(0, 0, 200, 200));
    s.add_control(button(0, 0, 100, 100, "b"));
    assert!(!s.handle_mouse(MouseEvent::Up, Vector::new(10, 10)));
    s.handle_mouse(MouseEvent::Down, Vector::new(10, 10));
    assert!(s.handle_mouse(MouseEvent::Up, Vector::new(150, 150)));
    assert!(!s.controls[0].pressed);
}

#[test]
fn hover_marks_controls_from_the_top_down_to_the_consumer() {
    let mut s = Scene::new(Rectangle::new(0, 0, 200, 200));
    s.add_control(button(0, 0, 100, 100, "below"));
    s.add_control(button(50, 50, 100, 100, "above"));
    assert!(s.handle_mouse(MouseEvent::At, Vector::new(10, 10)));
    assert!(s.controls[0].hovered);
    assert!(!s.controls[1].hovered);
    assert!(s.handle_mouse(MouseEvent::At, Vector::new(75, 75)));
    assert!(s.controls[1].hovered);
    // The control below the consumer did not see the event and keeps its state.
    assert!(s.controls[0].hovered);
}

#[test]
fn rectangle_contains_edges() {
    let r = Rectangle::new(10, 10, 5, 5);
    assert!(r.contains(Vector::new(10, 10)));
    assert!(r.contains(Vector::new(14, 14)));
    assert!(!r.contains(Vector::new(15, 10)));
    assert!(!r.contains(Vector::new(9, 12)));
}

#[test]
fn sub_frame_is_relative_to_scene() {
    let s = Scene::new(Rectangle::new(30, 40, 200, 200));
    assert_eq!(s.sub_frame(Vector::new(8, 9), Vector::new(70, 32)), Rectangle::new(38, 49, 70, 32));
}

#[test]
fn with_id_sets_tag_and_name() {
    let s = Scene::new(Rectangle::new(0, 0, 1, 1)).with_id(100, "Toolbar");
    assert_eq!(s.id, Some(100));
    assert_eq!(s.name, "Toolbar");
}

#[test]
fn center_frame_exact() {
    let outer = Rectangle::new(0, 50, 800, 550);
    let inner = Rectangle::new_sized(500, 500);
    let r = LayoutHelper::center_frame(&outer, &inner, Vector::new(0, 50));
    assert_eq!(r, Rectangle::new(150, 75, 500, 500));
    let wide = Rectangle::new_sized(901, 10);
    let r = LayoutHelper::center_frame(&outer, &wide, Vector::new(0, 0));
    assert_eq!(r.pos.x, -50);
}

#[test]
fn stage_dispatch_stops_at_topmost_scene() {
    let mut st = Stage::new(Rectangle::new(0, 0, 300, 300));
    let mut low = Scene::new(Rectangle::new(0, 0, 300, 300));
    low.add_control(button(0, 0, 100, 100, "low"));
    let mut high = Scene::new(Rectangle::new(0, 0, 300, 300));
    high.add_control(button(0, 0, 100, 100, "high"));
    st.add_scene(low);
    st.add_scene(high);
    assert!(st.handle_mouse(MouseEvent::Down, Vector::new(5, 5)));
    assert!(st.scenes[1].controls[0].pressed);
    assert!(!st.scenes[0].controls[0].pressed);
    assert!(!st.handle_mouse(MouseEvent::Down, Vector::new(250, 250)));
    st.clear();
    assert!(st.scenes.is_empty());
}

#[test]
fn stage_can_tick_and_update() {
    let mut st = Stage::new(Rectangle::new(0, 0, 300, 300));
    st.add_scene(Scene::new(Rectangle::new(0, 0, 300, 300)));
    assert!(st.can_tick(16));
    st.update(16);
    assert_eq!(st.scenes.len(), 1);
}

#[test]
fn scroll_is_consumed_by_no_control() {
    let mut s = Scene::new(Rectangle::new(0, 0, 200, 200));
    s.add_control(button(0, 0, 100, 100, "b"));
    assert!(!s.handle_mouse(MouseEvent::Scroll, Vector::new(10, 10)));
    assert!(!s.controls[0].pressed);
}

#[test]
fn container_presses_and_releases() {
    let mut s = Scene::new(Rectangle::new(0, 0, 200, 200));
    s.add_control(button(0, 0, 100, 100, "b"));
    s.handle_mouse_down(Vector::new(5, 5));
    assert!(s.controls[0].pressed);
    s.handle_mouse_up(Vector::new(5, 5));
    assert!(!s.controls[0].pressed);
}
