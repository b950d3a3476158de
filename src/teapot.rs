use vstd::prelude::*;
use crate::ad::AdSpec;
use crate::geom::{clamp64, clamp_i64, half, half_of, Rectangle, Vector};
use crate::scene::{BackgroundStyle, BorderStyle, Color, Scene, ShapeView};
use crate::stage::Stage;
use crate::theme::{text_width, Theme};
use crate::timeline::{Sprite, Timeline};
use crate::tween::{pt, Ease, PlayState, Segment, Tween, TweenView};

verus! {

pub const INTRO_FONT_SIZE: u32 = 80;

pub const BG_HEADER_H: u32 = 160;

pub const AD_SCENE_ID: u32 = 201;

pub const INTRO_1_ID: u32 = 221;

pub const INTRO_2_ID: u32 = 222;

pub const INTRO_3_ID: u32 = 223;

/// How long an intro label takes to slide in, to rest, and to slide out (ms).
pub const SLIDE_MS: u32 = 500;

pub const REST_MS: u32 = 1000;

/// Where an intro label of extent `tw` by `th` starts: just off the right edge of
/// `frame`, centered vertically.
pub open spec fn intro_start(frame: Rectangle, tw: int, th: int) -> (int, int) {
    (clamp64(frame.pos.x + frame.size.x + 10), clamp64(frame.pos.y + half(frame.size.y - th)))
}

/// Where an intro label rests: centered horizontally in `frame`.
pub open spec fn intro_rest_x(frame: Rectangle, tw: int) -> int {
    clamp64(frame.pos.x + half(frame.size.x - tw))
}

/// Where an intro label leaves to: just off the left edge of the screen.
pub open spec fn intro_exit_x(tw: int) -> int {
    clamp64(-tw - 10)
}

/// Slide in to the middle, rest, slide out to the left.
pub open spec fn intro_segments(frame: Rectangle, tw: int, th: int) -> Seq<Segment> {
    let y = intro_start(frame, tw, th).1 as i64;
    seq![
        Segment {
            duration: SLIDE_MS,
            target: Some(Vector { x: intro_rest_x(frame, tw) as i64, y }),
            ease: Ease::QuadIn,
        },
        Segment { duration: REST_MS, target: None, ease: Ease::Linear },
        Segment {
            duration: SLIDE_MS,
            target: Some(Vector { x: intro_exit_x(tw) as i64, y }),
            ease: Ease::QuadOut,
        },
    ]
}

/// `s` is the intro label `text`, of `text_len` bytes, with identifier `id` at
/// `font_size` in `frame`, measured with `theme`; its animation, in `state`, is at
/// its start.
pub open spec fn is_intro_label(
    s: Sprite,
    text: Seq<char>,
    text_len: nat,
    font_size: u32,
    frame: Rectangle,
    theme: Theme,
    id: u32,
    state: PlayState,
) -> bool {
    let tw = text_width(text_len, font_size as nat, theme.char_width_percent as nat);
    let th = font_size as int;
    let start = intro_start(frame, tw, th);
    &&& s.id == id
    &&& s.text@ == text
    &&& s.font_size == font_size
    &&& s.color == (Color { r: 0, g: 0, b: 0, a: 255 })
    &&& pt(s.frame.pos) == start
    &&& s.frame.size == (Vector { x: tw as i64, y: font_size as i64 })
    &&& s.animation is Some
    &&& s.animation->Some_0.wf()
    &&& s.animation->Some_0.view() == (TweenView {
        id,
        segments: intro_segments(frame, tw, th),
        start,
        state,
        elapsed: 0,
        position: start,
    })
}

/// The text of the `i`-th intro label.
pub open spec fn intro_text(i: int) -> Seq<char> {
    if i == 0 {
        "Introducing"@
    } else if i == 1 {
        "A Very Basic"@
    } else {
        "Animated Ad"@
    }
}

/// The length in bytes of the `i`-th intro label's text.
pub open spec fn intro_len(i: int) -> nat {
    if i == 1 {
        12
    } else {
        11
    }
}

pub open spec fn intro_id(i: int) -> u32 {
    if i == 0 {
        INTRO_1_ID
    } else if i == 1 {
        INTRO_2_ID
    } else {
        INTRO_3_ID
    }
}

/// The intro labels' font size for `spec`: the reference size scaled vertically.
pub open spec fn intro_font_size(spec: AdSpec) -> u32 {
    let s = INTRO_FONT_SIZE * spec.scale_y / 1000;
    if s > u32::MAX {
        u32::MAX
    } else {
        s as u32
    }
}

/// The height of the ad's header band for `spec`.
pub open spec fn header_height(spec: AdSpec) -> int {
    clamp64((BG_HEADER_H * spec.scale_y / 1000) as int)
}

/// The ad's scene before its timeline is set: framed, on white, with a dark green
/// header band across the top.
pub open spec fn is_ad_background(s: Scene, frame: Rectangle, spec: AdSpec) -> bool {
    &&& s.frame == frame
    &&& s.id == Some(AD_SCENE_ID)
    &&& s.name@ == "Ad scene"@
    &&& s.border == BorderStyle::SolidLine(Color { r: 0, g: 0, b: 0, a: 255 }, 1)
    &&& s.background == BackgroundStyle::Solid(Color { r: 255, g: 255, b: 255, a: 255 })
    &&& s.views@ == seq![
        ShapeView {
            frame: Rectangle {
                pos: frame.pos,
                size: Vector { x: frame.size.x, y: header_height(spec) as i64 },
            },
            fill: Color { r: 0, g: 0x33, b: 0, a: 255 },
        },
    ]
    &&& s.controls@.len() == 0
}

/// Builds the animated teapot ad.
pub struct TeapotAdBuilder {}

impl TeapotAdBuilder {
    /// Title the stage and add the ad's scene: its background, and a timeline that
    /// brings in three labels two seconds apart, already playing.
    pub fn build_stage(&mut self, stage: &mut Stage, frame: &Rectangle, theme: &Theme, spec: &AdSpec)
        requires
            old(stage).wf(),
        ensures
            final(stage).wf(),
            final(stage).title@ == "Teapot Ad"@,
            final(stage).frame == old(stage).frame,
            final(stage).scenes@.len() == old(stage).scenes@.len() + 1,
            forall|i: int|
                0 <= i < old(stage).scenes@.len() ==> final(stage).scenes@[i]
                    == old(stage).scenes@[i],
            ({
                let s = final(stage).scenes@.last();
                &&& is_ad_background(Scene { timeline: None, ..s }, *frame, *spec)
                &&& s.timeline matches Some(t) && is_intro_timeline(t, *frame, intro_font_size(*spec), *theme)
            }),
    {
        stage.title = "Teapot Ad".to_owned();
        proof {
            reveal_strlit("Teapot Ad");
        }
        let mut scene = self.background_scene(frame, spec);
        let timeline = self.intro_timeline(frame, spec, theme);
        scene.set_timeline(timeline);
        stage.add_scene(scene);
    }

    fn background_scene(&self, frame: &Rectangle, spec: &AdSpec) -> (r: Scene)
        ensures
            r.wf(),
            r.timeline is None,
            is_ad_background(r, *frame, *spec),
    {
        let mut scene = Scene::new(*frame).with_id(AD_SCENE_ID, "Ad scene");
        scene.border = BorderStyle::SolidLine(Color::rgb(0, 0, 0), 1);
        scene.background = BackgroundStyle::Solid(Color::rgb(255, 255, 255));
        let h = spec.scaled_y(BG_HEADER_H);
        let h = if h > i64::MAX as u128 {
            i64::MAX
        } else {
            h as i64
        };
        let rect = Rectangle { pos: frame.pos, size: Vector { x: frame.size.x, y: h } };
        scene.add_view(ShapeView { frame: rect, fill: Color::rgb(0, 0x33, 0) });
        proof {
            reveal_strlit("Ad scene");
            assert(scene.views@ =~= seq![ShapeView { frame: rect, fill: Color { r: 0, g: 0x33, b: 0, a: 255 } }]);
        }
        scene
    }

    /// Three labels, the second and third starting two and four seconds after the
    /// first, each sliding in, resting and sliding out; the timeline is playing.
    fn intro_timeline(&self, frame: &Rectangle, spec: &AdSpec, theme: &Theme) -> (r: Timeline)
        ensures
            is_intro_timeline(r, *frame, intro_font_size(*spec), *theme),
    {
        let mut timeline = Timeline::new(*frame);
        let scaled = spec.scaled_y(INTRO_FONT_SIZE);
        let font_size: u32 = if scaled > u32::MAX as u128 {
            u32::MAX
        } else {
            scaled as u32
        };
        proof {
            reveal_strlit("Introducing");
            reveal_strlit("A Very Basic");
            reveal_strlit("Animated Ad");
            vstd::string::is_ascii_spec_bytes("Introducing");
            vstd::string::is_ascii_spec_bytes("A Very Basic");
            vstd::string::is_ascii_spec_bytes("Animated Ad");
        }
        let label = self.make_intro_text("Introducing", font_size, frame, theme, INTRO_1_ID);
        timeline.add_sprite(label, 0);
        let label = self.make_intro_text("A Very Basic", font_size, frame, theme, INTRO_2_ID);
        timeline.add_sprite(label, 2000);
        let label = self.make_intro_text("Animated Ad", font_size, frame, theme, INTRO_3_ID);
        timeline.add_sprite(label, 4000);
        let ghost pre = timeline.cues();
        timeline.play();
        proof {
            assert(pre[0].offset == 0 && pre[1].offset == 2000 && pre[2].offset == 4000);
            assert forall|i: int| 0 <= i < 3 implies is_intro_label(
                (#[trigger] timeline.cues()[i]).sprite,
                intro_text(i),
                intro_len(i),
                font_size,
                *frame,
                *theme,
                intro_id(i),
                PlayState::Running,
            ) by {
                assert(is_intro_label(pre[i].sprite, intro_text(i), intro_len(i), font_size, *frame, *theme, intro_id(i), PlayState::Pending));
            }
        }
        timeline
    }

    fn make_intro_text(&self, text: &str, font_size: u32, frame: &Rectangle, theme: &Theme, id: u32) -> (r: Sprite)
        ensures
            is_intro_label(r, text@, text.len() as nat, font_size, *frame, *theme, id, PlayState::Pending),
            crate::timeline::sprite_wf(r),
    {
        let size = theme.measure_text(text, font_size);
        let tw = size.x as i128;
        let th = font_size as i128;
        let x0 = frame.pos.x as i128;
        let y0 = frame.pos.y as i128;
        let w = frame.size.x as i128;
        let h = frame.size.y as i128;
        let start_x = clamp_i64(x0 + w + 10);
        let y = clamp_i64(y0 + half_of(h - th));
        let rest_x = clamp_i64(x0 + half_of(w - tw));
        let exit_x = clamp_i64(-tw - 10);
        let start = Vector { x: start_x, y };
        let tween = Tween::with(id, start).to(Some(Vector { x: rest_x, y })).duration(SLIDE_MS).ease(
            Ease::QuadIn,
        ).to(None).duration(REST_MS).to(Some(Vector { x: exit_x, y })).duration(SLIDE_MS).ease(
            Ease::QuadOut,
        );
        let mut label = Sprite::new(
            id,
            Rectangle { pos: start, size: Vector { x: size.x, y: font_size as i64 } },
            text.to_owned(),
            font_size,
        );
        label.animation = Some(tween);
        proof {
            let tws = text_width(text.len() as nat, font_size as nat, theme.char_width_percent as nat);
            assert(tween.view().segments =~= intro_segments(*frame, tws, font_size as int));
        }
        label
    }
}

/// The ad's intro timeline for `frame`: three labels at offsets of zero, two and
/// four seconds, in that order, each sliding in, resting and sliding out, and the
/// timeline playing from zero.
pub open spec fn is_intro_timeline(t: Timeline, frame: Rectangle, font_size: u32, theme: Theme) -> bool {
    &&& t.wf()
    &&& t.spec_frame() == frame
    &&& t.spec_running()
    &&& t.spec_elapsed() == 0
    &&& t.cues().len() == 3
    &&& t.cues()[0].offset == 0
    &&& t.cues()[1].offset == 2000
    &&& t.cues()[2].offset == 4000
    &&& t.cues()[0].sprite.id == INTRO_1_ID
    &&& t.cues()[1].sprite.id == INTRO_2_ID
    &&& t.cues()[2].sprite.id == INTRO_3_ID
    &&& forall|i: int|
        0 <= i < 3 ==> is_intro_label(
            (#[trigger] t.cues()[i]).sprite,
            intro_text(i),
            intro_len(i),
            font_size,
            frame,
            theme,
            intro_id(i),
            PlayState::Running,
        )
}

} // verus!
