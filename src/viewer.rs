use vstd::prelude::*;
use crate::ad::{ad_sizes, preset, size_key, AdSpec, N_PRESETS};
use crate::geom::{centered, clamp64, clamp_i64, fits_i64, half, half_of, LayoutHelper, Rectangle, Vector};
use crate::layout::{abs_ok, all_computed, below, root_at, Align, Direction, Justify, LayoutBuilder, NodeLayout, Style};
use crate::scene::{BorderStyle, Color, Control, ControlKind, MouseEvent, Scene, ShapeView};
use crate::solver::{Dimension, Layout};
use crate::stage::{scene_can_tick, Stage};
use crate::teapot::{is_ad_background, is_intro_timeline, TeapotAdBuilder};
use crate::theme::Theme;

verus! {

pub const TOOLBAR_ID: u32 = 100;

pub const MAIN_ID: u32 = 2;

pub const TOOLBAR_H: i64 = 50;

pub const TOOLBAR_BTN_W: i64 = 70;

pub const TOOLBAR_BTN_H: i64 = 32;

pub const TOOLBAR_SPACING: i64 = 8;

/// The frame of the `i`-th toolbar button: a row of buttons from the left edge,
/// centered vertically in the toolbar band.
pub open spec fn toolbar_button_frame(frame: Rectangle, i: int) -> Rectangle {
    Rectangle {
        pos: Vector {
            x: clamp64(frame.pos.x + TOOLBAR_SPACING + i * (TOOLBAR_BTN_W + TOOLBAR_SPACING)) as i64,
            y: clamp64(frame.pos.y + (TOOLBAR_H - TOOLBAR_BTN_H) / 2) as i64,
        },
        size: Vector { x: TOOLBAR_BTN_W, y: TOOLBAR_BTN_H },
    }
}

/// The toolbar scene over `frame`: a grey background, a darker band across the
/// top, and one button per preset size labelled with its key in black at size 14.
pub open spec fn is_toolbar(s: Scene, frame: Rectangle) -> bool {
    &&& s.wf()
    &&& s.frame == frame
    &&& s.id == Some(TOOLBAR_ID)
    &&& s.name@ == "Toolbar"@
    &&& s.timeline is None
    &&& s.views@ == seq![
        ShapeView { frame, fill: Color { r: 0x55, g: 0x55, b: 0x55, a: 255 } },
        ShapeView {
            frame: Rectangle { pos: frame.pos, size: Vector { x: frame.size.x, y: TOOLBAR_H } },
            fill: Color { r: 0x33, g: 0x33, b: 0x33, a: 255 },
        },
    ]
    &&& s.controls@.len() == N_PRESETS
    &&& forall|i: int|
        0 <= i < N_PRESETS ==> {
            let c = #[trigger] s.controls@[i];
            &&& c.kind == ControlKind::Button
            &&& c.text@ == size_key(preset(i).0, preset(i).1)
            &&& c.frame == toolbar_button_frame(frame, i)
            &&& c.font_size == 14
            &&& c.color == (Color { r: 0, g: 0, b: 0, a: 255 })
            &&& !c.pressed
            &&& !c.hovered
        }
}

/// The area below the toolbar.
pub open spec fn body_frame(frame: Rectangle) -> Rectangle {
    Rectangle {
        pos: Vector { x: 0, y: TOOLBAR_H },
        size: Vector { x: frame.size.x, y: clamp64(frame.size.y - TOOLBAR_H) as i64 },
    }
}

/// Where a `w` by `h` creative goes: centered in the area below the toolbar.
pub open spec fn ad_frame(frame: Rectangle, w: u32, h: u32) -> Rectangle {
    let inner = Rectangle { pos: Vector { x: 0, y: 0 }, size: Vector { x: w as i64, y: h as i64 } };
    let at = centered(body_frame(frame), inner, Vector { x: 0, y: TOOLBAR_H });
    Rectangle { pos: Vector { x: at.0 as i64, y: at.1 as i64 }, size: inner.size }
}

/// The viewer's stage over `frame` for the creative `spec` laid out at `w` by `h`:
/// the toolbar, then the ad's scene centered below it.
pub open spec fn is_viewer_stage(st: Stage, frame: Rectangle, w: u32, h: u32, spec: AdSpec, theme: Theme) -> bool {
    &&& st.wf()
    &&& st.frame == frame
    &&& st.title@ == "Teapot Ad"@
    &&& st.scenes@.len() == 2
    &&& is_toolbar(st.scenes@[0], frame)
    &&& is_ad_background(Scene { timeline: None, ..st.scenes@[1] }, ad_frame(frame, w, h), spec)
    &&& st.scenes@[1].timeline matches Some(t) && is_intro_timeline(
        t,
        ad_frame(frame, w, h),
        crate::teapot::intro_font_size(spec),
        theme,
    )
}

/// A screen that shows an ad creative centered below a toolbar of preset sizes.
#[derive(Debug)]
pub struct AdViewer {
    pub frame: Rectangle,
    pub stage: Stage,
    pub ad_spec: AdSpec,
    pub theme: Theme,
}

impl AdViewer {
    pub open spec fn wf(&self) -> bool {
        self.stage.wf()
    }

    pub fn new(frame: Rectangle) -> (r: AdViewer)
        ensures
            r.wf(),
            r.frame == frame,
            r.stage.frame == frame,
            r.stage.scenes@.len() == 0,
            crate::ad::describes(r.ad_spec, 500, 500, "Default 500x500"@),
            r.theme == Theme::spec_new(),
    {
        AdViewer { frame, stage: Stage::new(frame), ad_spec: AdSpec::default(), theme: Theme::new() }
    }

    /// The toolbar scene over `frame`.
    fn tools_scene(&self, frame: &Rectangle) -> (r: Scene)
        ensures
            is_toolbar(r, *frame),
    {
        let mut scene = Scene::new(*frame).with_id(TOOLBAR_ID, "Toolbar");
        scene.add_view(ShapeView { frame: *frame, fill: Color::rgb(0x55, 0x55, 0x55) });
        let band = Rectangle { pos: frame.pos, size: Vector { x: frame.size.x, y: TOOLBAR_H } };
        scene.add_view(ShapeView { frame: band, fill: Color::rgb(0x33, 0x33, 0x33) });
        let sizes = ad_sizes();
        let y = clamp_i64(frame.pos.y as i128 + ((TOOLBAR_H - TOOLBAR_BTN_H) / 2) as i128);
        let mut i: usize = 0;
        while i < sizes.len()
            invariant
                sizes@.len() == N_PRESETS,
                forall|k: int|
                    0 <= k < N_PRESETS ==> crate::ad::describes(
                        #[trigger] sizes@[k],
                        preset(k).0,
                        preset(k).1,
                        preset(k).2,
                    ),
                i <= N_PRESETS,
                y == clamp64(frame.pos.y + (TOOLBAR_H - TOOLBAR_BTN_H) / 2),
                scene.wf(),
                scene.frame == *frame,
                scene.id == Some(TOOLBAR_ID),
                scene.name@ == "Toolbar"@,
                scene.timeline is None,
                scene.views@ == seq![
                    ShapeView { frame: *frame, fill: Color { r: 0x55, g: 0x55, b: 0x55, a: 255 } },
                    ShapeView { frame: band, fill: Color { r: 0x33, g: 0x33, b: 0x33, a: 255 } },
                ],
                scene.controls@.len() == i,
                forall|k: int|
                    0 <= k < i ==> {
                        let c = #[trigger] scene.controls@[k];
                        &&& c.kind == ControlKind::Button
                        &&& c.text@ == size_key(preset(k).0, preset(k).1)
                        &&& c.frame == toolbar_button_frame(*frame, k)
                        &&& c.font_size == 14
                        &&& c.color == (Color { r: 0, g: 0, b: 0, a: 255 })
                        &&& !c.pressed
                        &&& !c.hovered
                    },
            decreases N_PRESETS - i,
        {
            proof {
                assert(i < 4);
            }
            let step: i128 = i as i128 * 78;
            let x = clamp_i64(frame.pos.x as i128 + TOOLBAR_SPACING as i128 + step);
            let sub = Rectangle { pos: Vector { x, y }, size: Vector { x: TOOLBAR_BTN_W, y: TOOLBAR_BTN_H } };
            let button = Control::new(ControlKind::Button, sub, sizes[i].id.clone());
            proof {
                assert(crate::ad::describes(sizes@[i as int], preset(i as int).0, preset(i as int).1, preset(i as int).2));
            }
            let ghost before = scene.controls@;
            scene.add_control(button);
            proof {
                assert forall|k: int| 0 <= k < i implies scene.controls@[k] == before[k] by {}
            }
            i = i + 1;
        }
        proof {
            reveal_strlit("Toolbar");
        }
        scene
    }

    /// The stage for `frame`: the toolbar, then the creative of this viewer's size
    /// centered below it, built from `spec`.
    fn assemble_stage(&mut self, frame: Rectangle, theme: &Theme, spec: AdSpec) -> (r: Stage)
        ensures
            *final(self) == *old(self),
            is_viewer_stage(r, frame, old(self).ad_spec.width, old(self).ad_spec.height, spec, *theme),
    {
        let mut stage = Stage::new(frame);
        let tools = self.tools_scene(&frame);
        stage.add_scene(tools);
        let body = Rectangle {
            pos: Vector { x: 0, y: TOOLBAR_H },
            size: Vector { x: frame.size.x, y: clamp_i64(frame.size.y as i128 - TOOLBAR_H as i128) },
        };
        let inner = Rectangle::new_sized(self.ad_spec.width as i64, self.ad_spec.height as i64);
        let offset = Vector { x: 0, y: TOOLBAR_H };
        proof {
            assert(fits_i64(half(body.size.x - inner.size.x)));
            assert(fits_i64(half(body.size.y - inner.size.y) + TOOLBAR_H));
        }
        let framed = LayoutHelper::center_frame(&body, &inner, offset);
        let ghost before = stage.scenes@;
        let mut builder = TeapotAdBuilder {};
        builder.build_stage(&mut stage, &framed, theme, &spec);
        proof {
            assert(stage.scenes@[0] == before[0]);
            assert(framed == ad_frame(frame, self.ad_spec.width, self.ad_spec.height));
        }
        stage
    }

    /// Build the screen with `theme`: the toolbar and the reference-size creative.
    pub fn view_will_load(&mut self, theme: &Theme)
        ensures
            viewer_loaded(*final(self), old(self).frame, old(self).ad_spec, *theme),
    {
        let frame = self.frame;
        let spec = AdSpec::default();
        let stage = self.assemble_stage(frame, theme, spec);
        self.stage = stage;
        self.theme = *theme;
    }

    pub fn set_theme(&mut self, theme: &Theme)
        ensures
            *final(self) == (AdViewer { theme: *theme, ..*old(self) }),
    {
        self.theme = *theme;
    }

    pub fn screen_title(&self) -> (r: &'static str)
        ensures
            r@ == "Theme Builder"@,
    {
        proof {
            reveal_strlit("Theme Builder");
        }
        "Theme Builder"
    }

    /// Give the stage a tick of `delta` milliseconds when no clock would overflow;
    /// otherwise nothing changes.
    pub fn update(&mut self, delta: u32)
        requires
            old(self).wf(),
        ensures
            viewer_ticked(*old(self), *final(self), delta as int),
    {
        if self.stage.can_tick(delta) {
            self.stage.update(delta);
        }
    }

    /// Offer a pointer event to the stage; returns whether a control consumed it.
    pub fn handle_mouse(&mut self, ev: MouseEvent, p: Vector) -> (r: bool)
        ensures
            r == (crate::stage::top_scene(old(self).stage.scenes@, ev, p) >= 0),
            viewer_dispatched(*old(self), *final(self), ev, p),
    {
        self.stage.handle_mouse(ev, p)
    }

    /// The layout of the main body area over `frame`: a header row and a body row,
    /// the body holding one column of half the width with three items stacked in
    /// it; the whole placed 200 pixels from the left.
    pub fn main_scene_layout(&self, frame: &Rectangle) -> (r: NodeLayout)
        ensures
            exists|rel: Seq<Option<Layout>>| is_main_layout(r, rel),
    {
        let mut style = Style::new();
        style.width = Dimension::Points(frame.size.x);
        style.height = Dimension::Points(frame.size.y);
        style.flex_direction = Direction::Column;
        style.justify_content = Justify::FlexStart;
        style.align_items = Align::FlexStart;
        let mut b = LayoutBuilder::new().with_style(style);
        let root = b.root();
        let column_w = half_of(frame.size.x as i128) as i64;
        let body_h = clamp_i64(frame.size.y as i128 - 50);
        let _header = b.add_row(root, 50, None).unwrap();
        let body = b.add_row(root, body_h, None).unwrap();
        let column0 = b.add_column(body, column_w, None).unwrap();
        let _ = b.add_object(column0, Vector { x: column_w, y: 50 }).unwrap();
        let _ = b.add_object(column0, Vector { x: column_w, y: 50 }).unwrap();
        let _ = b.add_object(column0, Vector { x: column_w, y: 200 }).unwrap();
        proof {
            let tree = b.tree();
            assert(tree[0] =~= main_tree()[0]);
            assert(tree[1] =~= main_tree()[1]);
            assert(tree[2] =~= main_tree()[2]);
            assert(tree[3] =~= main_tree()[3]);
            assert(tree[4] =~= main_tree()[4]);
            assert(tree[5] =~= main_tree()[5]);
            assert(tree[6] =~= main_tree()[6]);
            assert(tree =~= main_tree());
        }
        let r = b.absolute_layout(root, Vector { x: 200, y: 0 });
        proof {
            assert(is_main_layout(r, b.layouts()));
        }
        r
    }

    /// The main body scene over `frame`: bordered, with a button placed where the
    /// main layout puts its first item, tagged with that item's node index.
    pub fn main_scene(&self, frame: &Rectangle) -> (r: Scene)
        ensures
            exists|t: NodeLayout, rel: Seq<Option<Layout>>|
                is_main_layout(t, rel) && main_scene_from(r, t, *frame),
    {
        let mut scene = Scene::new(*frame).with_id(MAIN_ID, "Main");
        scene.border = BorderStyle::SolidLine(Color::rgb(0x99, 0x99, 0x99), 1);
        let layout = self.main_scene_layout(frame);
        let ghost rel = choose|rel: Seq<Option<Layout>>| is_main_layout(layout, rel);
        proof {
            lemma_main_layout_shape(layout, rel);
        }
        let item = &layout.children[1].children[0].children[0];
        let mut button = Control::new(
            ControlKind::Button,
            Rectangle { pos: item.location, size: item.size },
            "Normal".to_owned(),
        );
        button.set_id(item.id.index as u32);
        scene.add_control(button);
        proof {
            reveal_strlit("Main");
            reveal_strlit("Normal");
            assert(is_main_layout(layout, rel) && main_scene_from(scene, layout, *frame));
        }
        scene
    }
}

/// `v` is loaded: over `frame`, for the creative `ad_spec`, with `theme` (by
/// which its text was measured), showing the toolbar and the reference-size
/// creative.
pub open spec fn viewer_loaded(v: AdViewer, frame: Rectangle, ad_spec: AdSpec, theme: Theme) -> bool {
    &&& v.wf()
    &&& v.frame == frame
    &&& v.ad_spec == ad_spec
    &&& v.theme == theme
    &&& exists|spec: AdSpec|
        crate::ad::describes(spec, 500, 500, "Default 500x500"@) && is_viewer_stage(
            v.stage,
            frame,
            ad_spec.width,
            ad_spec.height,
            spec,
            theme,
        )
}

/// `n` is `o` after a tick of `delta` milliseconds: when every clock of its stage
/// can take the tick, each scene's timeline took it; otherwise nothing changed.
pub open spec fn viewer_ticked(o: AdViewer, n: AdViewer, delta: int) -> bool {
    &&& n.wf()
    &&& n.frame == o.frame
    &&& n.ad_spec == o.ad_spec
    &&& n.theme == o.theme
    &&& n.stage.title == o.stage.title
    &&& n.stage.frame == o.stage.frame
    &&& n.stage.scenes@.len() == o.stage.scenes@.len()
    &&& if forall|i: int|
        0 <= i < o.stage.scenes@.len() ==> scene_can_tick(#[trigger] o.stage.scenes@[i], delta) {
        forall|i: int|
            0 <= i < o.stage.scenes@.len() ==> {
                let a = #[trigger] o.stage.scenes@[i];
                let b = n.stage.scenes@[i];
                &&& b == (Scene { timeline: b.timeline, ..a })
                &&& crate::scene::scene_timeline_stepped(a, b, delta)
            }
    } else {
        n == o
    }
}

/// `n` is `o` after the pointer event `ev` at `p` went through its stage, from the
/// topmost scene and control down to the first control that consumes it.
pub open spec fn viewer_dispatched(o: AdViewer, n: AdViewer, ev: MouseEvent, p: Vector) -> bool {
    &&& n.frame == o.frame
    &&& n.ad_spec == o.ad_spec
    &&& n.theme == o.theme
    &&& n.stage.title == o.stage.title
    &&& n.stage.frame == o.stage.frame
    &&& n.stage.scenes@.len() == o.stage.scenes@.len()
    &&& forall|i: int|
        0 <= i < o.stage.scenes@.len() ==> {
            let a = #[trigger] o.stage.scenes@[i];
            let b = n.stage.scenes@[i];
            if i >= crate::stage::top_scene(o.stage.scenes@, ev, p) {
                &&& b == (Scene { controls: b.controls, ..a })
                &&& b.controls@ == crate::scene::dispatched(a.controls@, ev, p)
            } else {
                b == a
            }
        }
}

/// The tree of the main layout, by node index: the root holds a header row and a
/// body row, the body one column, the column three items.
pub open spec fn main_tree() -> Seq<Seq<usize>> {
    seq![
        seq![1usize, 2usize],
        Seq::<usize>::empty(),
        seq![3usize],
        seq![4usize, 5usize, 6usize],
        Seq::<usize>::empty(),
        Seq::<usize>::empty(),
        Seq::<usize>::empty(),
    ]
}

/// `t` is the main layout in absolute coordinates for the relative layouts `rel`
/// that the solver computed for its tree, the root placed at (200, 0).
pub open spec fn is_main_layout(t: NodeLayout, rel: Seq<Option<Layout>>) -> bool {
    &&& rel.len() == 7
    &&& all_computed(main_tree(), rel, 0)
    &&& abs_ok(t, main_tree(), rel, 0, root_at(rel, 0, Vector { x: 200, y: 0 }))
}

/// The first item of a main layout.
pub open spec fn first_item(t: NodeLayout) -> NodeLayout {
    t.children@[1].children@[0].children@[0]
}

/// The main scene `s` built from the main layout `t`.
pub open spec fn main_scene_from(s: Scene, t: NodeLayout, frame: Rectangle) -> bool {
    {
            &&& s.wf()
            &&& s.frame == frame
            &&& s.id == Some(MAIN_ID)
            &&& s.name@ == "Main"@
            &&& s.border == BorderStyle::SolidLine(Color { r: 0x99, g: 0x99, b: 0x99, a: 255 }, 1)
            &&& s.views@.len() == 0
            &&& s.controls@.len() == 1
            &&& s.controls@[0].kind == ControlKind::Button
            &&& s.controls@[0].text@ == "Normal"@
            &&& s.controls@[0].frame == (Rectangle { pos: first_item(t).location, size: first_item(t).size })
            &&& s.controls@[0].id == Some(first_item(t).id.index as u32)
            &&& first_item(t).id.index == 4
    }
}

/// A main layout has two children, the second holding one column of three items;
/// the header and the items have no children.
pub proof fn lemma_main_layout_shape(t: NodeLayout, rel: Seq<Option<Layout>>)
    requires
        is_main_layout(t, rel),
    ensures
        t.id.index == 0,
        t.children@.len() == 2,
        t.children@[0].id.index == 1,
        t.children@[0].children@.len() == 0,
        t.children@[1].id.index == 2,
        t.children@[1].children@.len() == 1,
        t.children@[1].children@[0].id.index == 3,
        t.children@[1].children@[0].children@.len() == 3,
        forall|k: int|
            0 <= k < 3 ==> (#[trigger] t.children@[1].children@[0].children@[k]).id.index == 4 + k
                && t.children@[1].children@[0].children@[k].children@.len() == 0,
{
    let tree = main_tree();
    let at = root_at(rel, 0, Vector { x: 200, y: 0 });
    assert(abs_ok(t, tree, rel, 0, at));
    assert(tree[0][0] == 1 && tree[0][1] == 2);
    assert(abs_ok(t.children@[0], tree, rel, 1, below(rel, 1, at)));
    let l1 = below(rel, 2, at);
    assert(abs_ok(t.children@[1], tree, rel, 2, l1));
    assert(tree[2][0] == 3);
    let l2 = below(rel, 3, l1);
    let col = t.children@[1].children@[0];
    assert(abs_ok(col, tree, rel, 3, l2));
    assert forall|k: int| 0 <= k < 3 implies (#[trigger] col.children@[k]).id.index == 4 + k
        && col.children@[k].children@.len() == 0 by {
        assert(tree[3][k] == 4 + k);
        assert(abs_ok(col.children@[k], tree, rel, 4 + k, below(rel, 4 + k, l2)));
    }
}

} // verus!
