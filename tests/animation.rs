use adviewer::geom::{Rectangle, Vector};
use adviewer::timeline::{Sprite, Timeline};
use adviewer::tween::{Ease, PlayState, Tween};

fn two_step_tween() -> Tween {
    Tween::with(1, Vector::new(0, 0))
        .to(Some(Vector::new(100, 0)))
        .duration(500)
        .to(Some(Vector::new(100, 300)))
        .duration(1000)
}

#[test]
fn tween_runs_until_total_duration_then_finishes() {
    let mut t = two_step_tween();
    assert_eq!(t.state(), PlayState::Pending);
    t.play();
    assert_eq!(t.state(), PlayState::Running);
    for _ in 0..14 {
        t.advance(100);
        assert_eq!(t.state(), PlayState::Running);
    }
    assert_eq!(t.elapsed(), 1400);
    t.advance(100);
    assert_eq!(t.state(), PlayState::Finished);
    assert_eq!(t.position(), Vector::new(100, 300));
}

#[test]
fn tween_single_large_advance_clamps_to_last_target() {
    let mut t = two_step_tween();
    t.play();
    t.advance(2000);
    assert!(t.is_finished());
    assert_eq!(t.position(), Vector::new(100, 300));
    t.advance(500);
    assert!(t.is_finished());
    assert_eq!(t.elapsed(), 2000);
    assert_eq!(t.position(), Vector::new(100, 300));
}

#[test]
fn tween_carries_leftover_time_into_next_segment() {
    let mut t = two_step_tween();
    t.play();
    t.advance(750);
    assert_eq!(t.state(), PlayState::Running);
    // 250 ms into the second segment of 1000 ms: a quarter of the way from y 0 to 300.
    assert_eq!(t.position(), Vector::new(100, 75));
}

#[test]
fn tween_linear_interpolation_exact() {
    let mut t = Tween::with(2, Vector::new(10, 20)).to(Some(Vector::new(110, -80))).duration(1000);
    t.play();
    t.advance(250);
    assert_eq!(t.position(), Vector::new(35, -5));
}

#[test]
fn tween_quad_in_and_out_at_half_time() {
    let mut a = Tween::with(3, Vector::new(0, 0)).to(Some(Vector::new(100, 0))).duration(1000).ease(Ease::QuadIn);
    a.play();
    a.advance(500);
    assert_eq!(a.position(), Vector::new(25, 0));
    let mut b = Tween::with(4, Vector::new(0, 0)).to(Some(Vector::new(100, 0))).duration(1000).ease(Ease::QuadOut);
    b.play();
    b.advance(500);
    assert_eq!(b.position(), Vector::new(75, 0));
}

#[test]
fn tween_pause_segment_holds_position() {
    let mut t = Tween::with(5, Vector::new(0, 0))
        .to(Some(Vector::new(50, 0)))
        .duration(100)
        .to(None)
        .duration(1000)
        .to(Some(Vector::new(50, 50)))
        .duration(100);
    t.play();
    t.advance(600);
    assert_eq!(t.position(), Vector::new(50, 0));
    assert_eq!(t.state(), PlayState::Running);
}

#[test]
fn tween_zero_duration_segment_applies_on_next_advance() {
    let mut t = Tween::with(6, Vector::new(0, 0)).to(Some(Vector::new(40, 40)));
    t.play();
    assert_eq!(t.position(), Vector::new(0, 0));
    assert_eq!(t.state(), PlayState::Running);
    t.advance(0);
    assert_eq!(t.position(), Vector::new(40, 40));
    assert!(t.is_finished());
}

#[test]
fn tween_pending_advance_changes_nothing() {
    let mut t = two_step_tween();
    t.advance(300);
    assert_eq!(t.state(), PlayState::Pending);
    assert_eq!(t.elapsed(), 0);
    assert_eq!(t.position(), Vector::new(0, 0));
}

#[test]
fn tween_split_advances_match_one_advance() {
    let mut a = two_step_tween();
    let mut b = two_step_tween();
    a.play();
    b.play();
    a.advance(300);
    a.advance(400);
    b.advance(700);
    assert_eq!(a.position(), b.position());
    assert_eq!(a.state(), b.state());
}

#[test]
fn tween_builder_records_segments() {
    let t = Tween::with(7, Vector::new(0, 0)).to(Some(Vector::new(1, 1))).duration(500).ease(Ease::QuadIn).to(None).duration(1000);
    let segs = t.segments();
    assert_eq!(segs.len(), 2);
    assert_eq!(segs[0].duration, 500);
    assert_eq!(segs[0].ease, Ease::QuadIn);
    assert_eq!(segs[1].target, None);
    assert_eq!(segs[1].ease, Ease::Linear);
    assert_eq!(t.id(), 7);
}

fn sprite_with_tween(id: u32) -> Sprite {
    let mut s = Sprite::new(id, Rectangle::new(0, 0, 10, 10), String::from("x"), 12);
    s.animation = Some(Tween::with(id, Vector::new(0, 0)).to(Some(Vector::new(100, 0))).duration(10000));
    s
}

fn tween_elapsed(t: &Timeline, i: usize) -> u64 {
    t.sprite(i).animation.as_ref().unwrap().elapsed()
}

#[test]
fn timeline_activates_sprites_at_their_offsets() {
    let mut t = Timeline::new(Rectangle::new(0, 0, 100, 100));
    t.add_sprite(sprite_with_tween(1), 0);
    t.add_sprite(sprite_with_tween(2), 2000);
    t.add_sprite(sprite_with_tween(3), 4000);
    t.play();
    t.update(1000);
    assert_eq!((tween_elapsed(&t, 0), tween_elapsed(&t, 1), tween_elapsed(&t, 2)), (1000, 0, 0));
    t.update(1000);
    assert_eq!((tween_elapsed(&t, 0), tween_elapsed(&t, 1), tween_elapsed(&t, 2)), (2000, 1000, 0));
    t.update(1000);
    assert_eq!((tween_elapsed(&t, 0), tween_elapsed(&t, 1), tween_elapsed(&t, 2)), (3000, 2000, 0));
    t.update(1000);
    assert_eq!((tween_elapsed(&t, 0), tween_elapsed(&t, 1), tween_elapsed(&t, 2)), (4000, 3000, 1000));
    assert_eq!(t.elapsed(), 4000);
}

#[test]
fn timeline_offsets_need_not_grow_with_insertion() {
    let mut t = Timeline::new(Rectangle::new(0, 0, 100, 100));
    t.add_sprite(sprite_with_tween(1), 3000);
    t.add_sprite(sprite_with_tween(2), 0);
    t.play();
    t.update(1000);
    assert_eq!(tween_elapsed(&t, 0), 0);
    assert_eq!(tween_elapsed(&t, 1), 1000);
    assert_eq!(t.offset(0), 3000);
}

#[test]
fn timeline_not_playing_does_not_advance() {
    let mut t = Timeline::new(Rectangle::new(0, 0, 100, 100));
    t.add_sprite(sprite_with_tween(1), 0);
    t.update(1000);
    assert!(!t.is_running());
    assert_eq!(t.elapsed(), 0);
    assert_eq!(tween_elapsed(&t, 0), 0);
    assert_eq!(t.len(), 1);
}

#[test]
fn timeline_moves_sprite_with_its_animation() {
    let mut t = Timeline::new(Rectangle::new(0, 0, 100, 100));
    t.add_sprite(sprite_with_tween(1), 0);
    t.play();
    t.update(5000);
    assert_eq!(t.sprite(0).position(), Vector::new(50, 0));
    assert_eq!(t.sprite(0).current_frame(), Rectangle::new(50, 0, 10, 10));
}

#[test]
fn tween_many_advances_match_one_advance() {
    let mut a = two_step_tween();
    let mut b = two_step_tween();
    a.play();
    b.play();
    for d in [100u32, 250, 0, 375, 500, 275] {
        a.advance(d);
    }
    b.advance(1500);
    assert_eq!(a.position(), b.position());
    assert_eq!(a.state(), b.state());
    assert_eq!(a.state(), PlayState::Finished);
}
