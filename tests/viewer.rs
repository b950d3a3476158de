use adviewer::controller::EmptyController;
use adviewer::layout::Justify;
use adviewer::solver::Margins;
use adviewer::ad::{ad_size, ad_sizes, AdSpec};
use adviewer::controller::Controller;
use adviewer::delegate::{AppDelegate, InputEvent, Key, Phase, Response, FPS_TAG};
use adviewer::geom::{Rectangle, Vector};
use adviewer::layout::{LayoutBuilder, LayoutError, Style, Direction, Align};
use adviewer::scene::{ControlKind, MouseEvent};
use adviewer::solver::Dimension;
use adviewer::teapot::{AD_SCENE_ID, INTRO_1_ID};
use adviewer::theme::Theme;
use adviewer::viewer::{AdViewer, TOOLBAR_ID};

#[test]
fn ad_viewer_stage_has_toolbar_and_centered_ad() {
    let mut v = AdViewer::new(Rectangle::new(0, 0, 800, 600));
    v.view_will_load(&Theme::new());
    assert_eq!(v.stage.scenes.len(), 2);
    let tools = &v.stage.scenes[0];
    assert_eq!(tools.id, Some(TOOLBAR_ID));
    assert!(tools.controls.iter().any(|c| c.text == "300x250"));
    let ad = &v.stage.scenes[1];
    assert_eq!(ad.id, Some(AD_SCENE_ID));
    assert_eq!(ad.frame, Rectangle::new(150, 75, 500, 500));
    assert_eq!(ad.views[0].frame, Rectangle::new(150, 75, 500, 160));
    let tl = ad.timeline.as_ref().unwrap();
    assert_eq!(tl.len(), 3);
    assert!(tl.is_running());
    assert_eq!(tl.sprite(0).id, INTRO_1_ID);
    assert_eq!(v.stage.title, "Teapot Ad");
}

#[test]
fn toolbar_buttons_in_key_order() {
    let mut v = AdViewer::new(Rectangle::new(0, 0, 800, 600));
    v.view_will_load(&Theme::new());
    let keys: Vec<&str> = v.stage.scenes[0].controls.iter().map(|c| c.text.as_str()).collect();
    assert_eq!(keys, vec!["120x600", "250x250", "300x250", "728x90"]);
    assert_eq!(v.stage.scenes[0].controls[1].frame, Rectangle::new(86, 9, 70, 32));
}

#[test]
fn ad_viewer_click_on_toolbar_button() {
    let mut v = AdViewer::new(Rectangle::new(0, 0, 800, 600));
    v.view_will_load(&Theme::new());
    assert!(v.handle_mouse(MouseEvent::Down, Vector::new(10, 10)));
    assert!(v.stage.scenes[0].controls[0].pressed);
    assert!(!v.handle_mouse(MouseEvent::Down, Vector::new(400, 400)));
    assert_eq!(v.screen_title(), "Theme Builder");
}

#[test]
fn ad_viewer_update_moves_intro_labels() {
    let mut v = AdViewer::new(Rectangle::new(0, 0, 800, 600));
    v.view_will_load(&Theme::new());
    let before = v.stage.scenes[1].timeline.as_ref().unwrap().sprite(0).position();
    v.update(250);
    let tl = v.stage.scenes[1].timeline.as_ref().unwrap();
    assert_eq!(tl.elapsed(), 250);
    assert_ne!(tl.sprite(0).position(), before);
    assert_eq!(tl.sprite(1).position(), tl.sprite(1).frame.pos);
}

#[test]
fn ad_spec_new_formats_key_and_scale() {
    let s = AdSpec::new(300, 250, "Inline Rectangle");
    assert_eq!(s.id, "300x250");
    assert_eq!(s.width, 300);
    assert_eq!(s.height, 250);
    assert_eq!(s.name, "Inline Rectangle");
    assert_eq!(s.scale_x, 600);
    assert_eq!(s.scale_y, 500);
    let d = AdSpec::default();
    assert_eq!(d.id, "500x500");
    assert_eq!(d.scale_y, 1000);
    assert_eq!(AdSpec::new(0, 7, "").id, "0x7");
}

#[test]
fn ad_size_lookup() {
    assert_eq!(ad_sizes().len(), 4);
    let s = ad_size(&String::from("728x90")).unwrap();
    assert_eq!((s.width, s.height), (728, 90));
    assert_eq!(s.name, "Leaderboard");
    assert!(ad_size(&String::from("1x1")).is_none());
}

#[test]
fn theme_measures_text() {
    let t = Theme::new();
    assert_eq!(t.measure_text("Introducing", 80), Vector::new(440, 80));
    assert_eq!(t.measure_text("", 80), Vector::new(0, 80));
}

#[test]
fn layout_absolute_is_sum_of_relative_offsets() {
    let mut style = Style::new();
    style.width = Dimension::Points(400);
    style.height = Dimension::Points(300);
    style.flex_direction = Direction::Column;
    style.align_items = Align::FlexStart;
    let mut b = LayoutBuilder::new().with_style(style);
    let root = b.root();
    let header = b.add_row(root, 50, None).unwrap();
    let body = b.add_row(root, 250, None).unwrap();
    let col = b.add_column(body, 200, None).unwrap();
    let a = b.add_object(col, Vector::new(200, 50)).unwrap();
    let c = b.add_object(col, Vector::new(200, 100)).unwrap();
    assert_eq!(b.get_layout(a), None);
    let r = b.absolute_layout(root, Vector::new(200, 10));
    assert_eq!(r.id, root);
    assert_eq!(r.children.len(), 2);
    assert_eq!(r.children[0].id, header);
    assert_eq!(r.size, Vector::new(400, 300));
    let rel = |n| b.get_layout(n).unwrap().location;
    let body_abs = &r.children[1];
    assert_eq!(body_abs.id, body);
    assert_eq!(rel(body), Vector::new(0, 50));
    assert_eq!(body_abs.location, Vector::new(200 + rel(root).x + rel(body).x, 10 + rel(root).y + rel(body).y));
    let col_abs = &body_abs.children[0];
    let c_abs = &col_abs.children[1];
    assert_eq!(c_abs.id, c);
    assert_eq!(rel(c), Vector::new(0, 50));
    assert_eq!(
        c_abs.location,
        Vector::new(
            200 + rel(root).x + rel(body).x + rel(col).x + rel(c).x,
            10 + rel(root).y + rel(body).y + rel(col).y + rel(c).y
        )
    );
    assert_eq!(c_abs.location, Vector::new(200, 110));
    assert_eq!(c_abs.size, Vector::new(200, 100));
    assert!(c_abs.children.is_empty());
}

#[test]
fn layout_rejects_unknown_nodes() {
    let mut b = LayoutBuilder::new();
    let bogus = adviewer::layout::NodeId { index: 42 };
    assert_eq!(b.add_row(bogus, 10, None).unwrap_err(), LayoutError::InvalidNode);
    assert_eq!(b.add_object(bogus, Vector::new(1, 1)).unwrap_err(), LayoutError::InvalidNode);
    assert_eq!(b.get_layout(bogus), None);
}

#[test]
fn main_scene_places_button_from_layout() {
    let v = AdViewer::new(Rectangle::new(0, 0, 800, 600));
    let frame = Rectangle::new(0, 50, 800, 550);
    let layout = v.main_scene_layout(&frame);
    assert_eq!(layout.children.len(), 2);
    assert_eq!(layout.location, Vector::new(200, 0));
    let item = &layout.children[1].children[0].children[0];
    assert_eq!(item.size, Vector::new(400, 50));
    let scene = v.main_scene(&frame);
    assert_eq!(scene.controls.len(), 1);
    assert_eq!(scene.controls[0].text, "Normal");
    assert_eq!(scene.controls[0].id, Some(item.id.index as u32));
    assert_eq!(scene.controls[0].id, Some(4));
    assert!(layout.children[0].children.is_empty());
    assert_eq!(scene.controls[0].frame, Rectangle { pos: item.location, size: item.size });
}

#[test]
fn delegate_loads_lazily_and_counts_frames() {
    let mut d = AppDelegate::new(Vector::new(800, 600));
    assert_eq!(d.phase, Phase::Uninitialized);
    assert!(matches!(d.controller, Controller::Empty(_)));
    let mut due = Vec::new();
    for _ in 0..80 {
        due.push(d.update(16));
    }
    assert_eq!(d.phase, Phase::Running);
    assert!(matches!(d.controller, Controller::AdViewer(_)));
    assert_eq!(due.iter().filter(|x| **x).count(), 2);
    assert!(due[39] && due[79]);
    assert_eq!(d.frames, 0);
}

#[test]
fn delegate_escape_closes() {
    let mut d = AppDelegate::new(Vector::new(800, 600));
    assert_eq!(d.handle_event(InputEvent::Focused), Response::Continue);
    assert_eq!(d.phase, Phase::Uninitialized);
    assert_eq!(d.handle_event(InputEvent::KeyPressed(Key::Escape)), Response::Close);
    assert_eq!(d.phase, Phase::Terminal);
    assert!(!d.update(16));
    assert_eq!(d.handle_event(InputEvent::MouseDown(Vector::new(1, 1))), Response::Close);
}

#[test]
fn delegate_routes_pointer_to_screen() {
    let mut d = AppDelegate::new(Vector::new(800, 600));
    assert_eq!(d.handle_event(InputEvent::MouseDown(Vector::new(10, 10))), Response::Continue);
    assert_eq!(d.phase, Phase::Running);
    match &d.controller {
        Controller::AdViewer(v) => assert!(v.stage.scenes[0].controls[0].pressed),
        _ => panic!("screen not loaded"),
    }
}

#[test]
fn delegate_shows_fps_text() {
    let mut d = AppDelegate::new(Vector::new(800, 600));
    assert_eq!(d.data_scene.controls[0].id, Some(FPS_TAG));
    assert_eq!(d.data_scene.controls[0].kind, ControlKind::Text);
    assert_eq!(d.data_scene.controls[0].frame, Rectangle::new(20, 560, 80, 20));
    d.show_fps(String::from("FPS: 60.00"));
    assert_eq!(d.data_scene.controls[0].text, "FPS: 60.00");
}

#[test]
fn delegate_application_ready_loads_viewer() {
    let mut d = AppDelegate::new(Vector::new(640, 480));
    d.application_ready(Vector::new(640, 480));
    assert_eq!(d.phase, Phase::Ready);
    match &d.controller {
        Controller::AdViewer(v) => {
            assert_eq!(v.frame, Rectangle::new(0, 0, 640, 480));
            assert_eq!(v.stage.scenes.len(), 2);
            assert_eq!(v.theme.font_size, 18);
        }
        _ => panic!("screen not loaded"),
    }
    assert_eq!(d.controller.screen_title(), "Theme Builder");
}

#[test]
fn margins_and_default_style() {
    assert_eq!(Margins::new(1, 2, 3, 4), Margins { left: 1, top: 2, right: 3, bottom: 4 });
    assert_eq!(Margins::default(), Margins { left: 0, top: 0, right: 0, bottom: 0 });
    let s = Style::new();
    assert_eq!(s.width, Dimension::Auto);
    assert_eq!(s.flex_direction, Direction::Row);
    assert_eq!(s.justify_content, Justify::FlexStart);
    assert_eq!(s.align_items, Align::Stretch);
}

#[test]
fn get_layout_after_compute() {
    let mut b = LayoutBuilder::new().with_style({
        let mut s = Style::new();
        s.width = Dimension::Points(100);
        s.height = Dimension::Points(80);
        s
    });
    let root = b.root();
    let leaf = b.add_object(root, Vector::new(30, 20)).unwrap();
    let r = b.absolute_layout(leaf, Vector::new(5, 5));
    assert!(r.children.is_empty());
    assert!(b.get_layout(leaf).is_some());
    assert_eq!(b.get_layout(root), None);
    let r = b.absolute_layout(root, Vector::new(0, 0));
    assert_eq!(r.size, Vector::new(100, 80));
    assert_eq!(r.children[0].size, Vector::new(30, 20));
    assert_eq!(b.get_layout(leaf).unwrap().size, Vector::new(30, 20));
}

#[test]
fn empty_controller_takes_nothing() {
    let mut c = Controller::Empty(EmptyController {});
    assert!(!c.handle_mouse(MouseEvent::Down, Vector::new(1, 1)));
    assert_eq!(c.screen_title(), "");
    c.update(16);
    assert!(matches!(c, Controller::Empty(_)));
}

#[test]
fn delegate_wheel_loads_screen_and_is_not_consumed() {
    let mut d = AppDelegate::new(Vector::new(800, 600));
    assert_eq!(d.handle_event(InputEvent::MouseWheel(Vector::new(0, 3))), Response::Continue);
    assert_eq!(d.phase, Phase::Running);
    assert_eq!(d.handle_event(InputEvent::Typed('a')), Response::Continue);
    assert_eq!(d.handle_event(InputEvent::KeyPressed(Key::Other)), Response::Continue);
    assert_eq!(d.phase, Phase::Running);
}

#[test]
fn intro_label_rests_then_finishes() {
    let mut v = AdViewer::new(Rectangle::new(0, 0, 800, 600));
    v.view_will_load(&Theme::new());
    let ad_frame = v.stage.scenes[1].frame;
    v.update(1000);
    let tl = v.stage.scenes[1].timeline.as_ref().unwrap();
    let label = tl.sprite(0);
    assert_eq!(label.text, "Introducing");
    // 11 bytes at 50% of 80 pixels: 440 wide, resting centered in the ad frame.
    assert_eq!(label.position(), Vector::new(ad_frame.pos.x + (500 - 440) / 2, ad_frame.pos.y + (500 - 80) / 2));
    v.update(1000);
    let tl = v.stage.scenes[1].timeline.as_ref().unwrap();
    assert!(tl.sprite(0).animation.as_ref().unwrap().is_finished());
    assert_eq!(tl.sprite(0).position(), Vector::new(-450, ad_frame.pos.y + 210));
    assert_eq!(tl.sprite(1).text, "A Very Basic");
    assert_eq!(tl.sprite(2).text, "Animated Ad");
}

#[test]
fn toolbar_buttons_black_at_size_14() {
    let mut v = AdViewer::new(Rectangle::new(0, 0, 800, 600));
    v.view_will_load(&Theme::new());
    for c in &v.stage.scenes[0].controls {
        assert_eq!(c.font_size, 14);
        assert_eq!((c.color.r, c.color.g, c.color.b), (0, 0, 0));
    }
}
