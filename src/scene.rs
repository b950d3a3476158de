use vstd::prelude::*;
use crate::geom::{fits_i64, Rectangle, Vector};
use crate::timeline::{timeline_stepped, Timeline};

verus! {

/// An RGBA color.
#[derive(Clone, Copy, Debug, PartialEq, Eq, Structural)]
pub struct Color {
    pub r: u8,
    pub g: u8,
    pub b: u8,
    pub a: u8,
}

impl Color {
    pub fn rgb(r: u8, g: u8, b: u8) -> (c: Color)
        ensures
            c == (Color { r, g, b, a: 255 }),
    {
        Color { r, g, b, a: 255 }
    }
}

#[derive(Clone, Copy, Debug, PartialEq, Eq, Structural)]
pub enum BorderStyle {
    Hidden,
    /// A line of the color, this many pixels wide.
    SolidLine(Color, u32),
}

#[derive(Clone, Copy, Debug, PartialEq, Eq, Structural)]
pub enum BackgroundStyle {
    Transparent,
    Solid(Color),
}

/// An inert shape drawn behind the controls: a filled rectangle.
#[derive(Clone, Copy, Debug, PartialEq, Eq, Structural)]
pub struct ShapeView {
    pub frame: Rectangle,
    pub fill: Color,
}

/// The kinds of interactive objects; only buttons take pointer events.
#[derive(Clone, Copy, Debug, PartialEq, Eq, Structural)]
pub enum ControlKind {
    Button,
    Label,
    Text,
}

/// A value written into a control by `Scene::set_field_value`.
#[derive(Debug)]
pub enum FieldValue {
    Text(String),
}

/// The pointer events a scene dispatches.
#[derive(Clone, Copy, Debug, PartialEq, Eq, Structural)]
pub enum MouseEvent {
    /// The pointer moved over a point.
    At,
    /// The button went down at a point.
    Down,
    /// The button came up at a point.
    Up,
    /// The wheel turned with the pointer at a point; none of the controls here
    /// scrolls, so no control consumes it.
    Scroll,
}

/// An interactive object.
#[derive(Debug)]
pub struct Control {
    pub kind: ControlKind,
    pub id: Option<u32>,
    pub frame: Rectangle,
    pub text: String,
    pub font_size: u32,
    pub color: Color,
    pub pressed: bool,
    pub hovered: bool,
}

/// Whether a control consumes the event: a button under the pointer takes hover
/// and presses, and a pressed button takes the release.
pub open spec fn takes(c: Control, ev: MouseEvent, p: Vector) -> bool {
    c.kind == ControlKind::Button && match ev {
        MouseEvent::At => c.frame.spec_contains(p),
        MouseEvent::Down => c.frame.spec_contains(p),
        MouseEvent::Up => c.pressed,
        MouseEvent::Scroll => false,
    }
}

/// The control after it has been offered the event.
pub open spec fn touched(c: Control, ev: MouseEvent, p: Vector) -> Control {
    match ev {
        MouseEvent::At => Control { hovered: takes(c, ev, p), ..c },
        MouseEvent::Down => if takes(c, ev, p) {
            Control { pressed: true, ..c }
        } else {
            c
        },
        MouseEvent::Up => if takes(c, ev, p) {
            Control { pressed: false, ..c }
        } else {
            c
        },
        MouseEvent::Scroll => c,
    }
}

/// The index of the topmost (last added) control that consumes the event, or -1.
pub open spec fn top_taker(cs: Seq<Control>, ev: MouseEvent, p: Vector) -> int
    decreases cs.len(),
{
    if cs.len() == 0 {
        -1
    } else if takes(cs.last(), ev, p) {
        cs.len() - 1
    } else {
        top_taker(cs.drop_last(), ev, p)
    }
}

/// The controls after dispatch: the event goes from the topmost control down and
/// stops at the first that consumes it; the controls below that one never see it.
pub open spec fn dispatched(cs: Seq<Control>, ev: MouseEvent, p: Vector) -> Seq<Control> {
    let k = top_taker(cs, ev, p);
    Seq::new(cs.len(), |i: int| if i >= k { touched(cs[i], ev, p) } else { cs[i] })
}

/// Of two controls that both take a pointer event, the one added last gets it:
/// that control is changed as the event asks, and dispatch stops there, so the
/// earlier one is left exactly as it was.
pub proof fn lemma_topmost_first(cs: Seq<Control>, ev: MouseEvent, p: Vector, i: int)
    requires
        0 <= i < cs.len() - 1,
        takes(cs[i], ev, p),
        takes(cs.last(), ev, p),
    ensures
        top_taker(cs, ev, p) == cs.len() - 1,
        dispatched(cs, ev, p)[cs.len() - 1] == touched(cs.last(), ev, p),
        dispatched(cs, ev, p)[i] == cs[i],
{
}

/// `n` is `o` with `text` written into the first control of the given kind and
/// identifier; when no control matches, `n` is `o`.
pub open spec fn field_written(o: Seq<Control>, n: Seq<Control>, text: String, kind: ControlKind, id: u32) -> bool {
    &&& (forall|j: int| 0 <= j < o.len() ==> !is_field(#[trigger] o[j], kind, id)) ==> n == o
    &&& forall|k: int|
        0 <= k < o.len() && is_field(#[trigger] o[k], kind, id) && (forall|j: int|
            0 <= j < k ==> !is_field(o[j], kind, id)) ==> n == o.update(k, Control { text, ..o[k] })
}

/// Whether the control has the kind and the identifier that a field update names.
pub open spec fn is_field(c: Control, kind: ControlKind, id: u32) -> bool {
    c.kind == kind && c.id == Some(id)
}

impl Control {
    pub fn new(kind: ControlKind, frame: Rectangle, text: String) -> (r: Control)
        ensures
            r.kind == kind,
            r.id is None,
            r.frame == frame,
            r.text == text,
            r.font_size == 14,
            r.color == (Color { r: 0, g: 0, b: 0, a: 255 }),
            !r.pressed,
            !r.hovered,
    {
        Control {
            kind,
            id: None,
            frame,
            text,
            font_size: 14,
            color: Color { r: 0, g: 0, b: 0, a: 255 },
            pressed: false,
            hovered: false,
        }
    }

    pub fn set_id(&mut self, id: u32)
        ensures
            *final(self) == (Control { id: Some(id), ..*old(self) }),
    {
        self.id = Some(id);
    }

    /// Offer the event to this control; returns whether it consumed it.
    pub fn handle_mouse(&mut self, ev: MouseEvent, p: Vector) -> (r: bool)
        ensures
            r == takes(*old(self), ev, p),
            *final(self) == touched(*old(self), ev, p),
    {
        let taken = match self.kind {
            ControlKind::Button => match ev {
                MouseEvent::At => self.frame.contains(p),
                MouseEvent::Down => self.frame.contains(p),
                MouseEvent::Up => self.pressed,
                MouseEvent::Scroll => false,
            },
            _ => false,
        };
        match ev {
            MouseEvent::At => {
                self.hovered = taken;
            },
            MouseEvent::Down => {
                if taken {
                    self.pressed = true;
                }
            },
            MouseEvent::Up => {
                if taken {
                    self.pressed = false;
                }
            },
            MouseEvent::Scroll => {},
        }
        taken
    }
}

/// A rectangular region holding views, then controls, in drawing order, and at
/// most one timeline.
#[derive(Debug)]
pub struct Scene {
    pub frame: Rectangle,
    pub id: Option<u32>,
    pub name: String,
    pub views: Vec<ShapeView>,
    pub controls: Vec<Control>,
    pub timeline: Option<Timeline>,
    pub border: BorderStyle,
    pub background: BackgroundStyle,
}

impl Scene {
    pub open spec fn wf(&self) -> bool {
        self.timeline matches Some(t) ==> t.wf()
    }

    pub fn new(frame: Rectangle) -> (r: Scene)
        ensures
            r.wf(),
            r.frame == frame,
            r.id is None,
            r.name@ == Seq::<char>::empty(),
            r.views@ == Seq::<ShapeView>::empty(),
            r.controls@ == Seq::<Control>::empty(),
            r.timeline is None,
            r.border == BorderStyle::Hidden,
            r.background == BackgroundStyle::Transparent,
    {
        Scene {
            frame,
            id: None,
            name: String::new(),
            views: Vec::new(),
            controls: Vec::new(),
            timeline: None,
            border: BorderStyle::Hidden,
            background: BackgroundStyle::Transparent,
        }
    }

    /// Attach an identifier and a name.
    pub fn with_id(self, id: u32, name: &str) -> (r: Scene)
        ensures
            r == (Scene { id: Some(id), name: r.name, ..self }),
            r.name@ == name@,
    {
        let mut s = self;
        s.id = Some(id);
        s.name = name.to_owned();
        s
    }

    pub fn add_view(&mut self, view: ShapeView)
        ensures
            *final(self) == (Scene { views: final(self).views, ..*old(self) }),
            final(self).views@ == old(self).views@.push(view),
    {
        self.views.push(view);
    }

    pub fn add_control(&mut self, control: Control)
        ensures
            *final(self) == (Scene { controls: final(self).controls, ..*old(self) }),
            final(self).controls@ == old(self).controls@.push(control),
    {
        self.controls.push(control);
    }

    pub fn set_timeline(&mut self, timeline: Timeline)
        requires
            timeline.wf(),
        ensures
            final(self).wf(),
            *final(self) == (Scene { timeline: Some(timeline), ..*old(self) }),
    {
        self.timeline = Some(timeline);
    }

    /// A frame at `origin` relative to the scene's top-left corner.
    pub fn sub_frame(&self, origin: Vector, size: Vector) -> (r: Rectangle)
        requires
            fits_i64(self.frame.pos.x + origin.x),
            fits_i64(self.frame.pos.y + origin.y),
        ensures
            r.pos.x == self.frame.pos.x + origin.x,
            r.pos.y == self.frame.pos.y + origin.y,
            r.size == size,
    {
        Rectangle { pos: self.frame.pos.plus(origin), size }
    }

    /// Write `value` into the first control of the given kind and identifier. When
    /// no control matches, nothing changes.
    pub fn set_field_value(&mut self, value: FieldValue, kind: ControlKind, id: u32)
        ensures
            *final(self) == (Scene { controls: final(self).controls, ..*old(self) }),
            field_written(
                old(self).controls@,
                final(self).controls@,
                match value {
                    FieldValue::Text(t) => t,
                },
                kind,
                id,
            ),
    {
        let n = self.controls.len();
        let mut i: usize = 0;
        while i < n
            invariant
                n == self.controls@.len(),
                i <= n,
                *self == *old(self),
                forall|j: int| 0 <= j < i ==> !is_field(#[trigger] self.controls@[j], kind, id),
            decreases n - i,
        {
            if self.controls[i].kind == kind && self.controls[i].id == Some(id) {
                let mut c = self.controls.remove(i);
                c.text = match value {
                    FieldValue::Text(t) => t,
                };
                self.controls.insert(i, c);
                proof {
                    assert(self.controls@ =~= old(self).controls@.update(i as int, c));
                }
                return;
            }
            i = i + 1;
        }
    }

    /// Offer a pointer event to the controls from the topmost down, stopping at the
    /// first that consumes it; returns whether one did.
    pub fn handle_mouse(&mut self, ev: MouseEvent, p: Vector) -> (r: bool)
        ensures
            r == (top_taker(old(self).controls@, ev, p) >= 0),
            *final(self) == (Scene { controls: final(self).controls, ..*old(self) }),
            final(self).controls@ == dispatched(old(self).controls@, ev, p),
    {
        let ghost orig = self.controls@;
        let mut i: usize = self.controls.len();
        proof {
            assert(orig.subrange(0, i as int) =~= orig);
        }
        while i > 0
            invariant
                i <= orig.len(),
                self.controls@.len() == orig.len(),
                *self == (Scene { controls: self.controls, ..*old(self) }),
                orig == old(self).controls@,
                top_taker(orig, ev, p) == top_taker(orig.subrange(0, i as int), ev, p),
                forall|j: int| 0 <= j < i ==> self.controls@[j] == orig[j],
                forall|j: int|
                    i <= j < orig.len() ==> self.controls@[j] == touched(orig[j], ev, p),
            decreases i,
        {
            let ghost before = self.controls@;
            i = i - 1;
            let mut c = self.controls.remove(i);
            let taken = c.handle_mouse(ev, p);
            self.controls.insert(i, c);
            proof {
                let pre = orig.subrange(0, i + 1);
                assert(pre.last() == orig[i as int]);
                assert(pre.drop_last() =~= orig.subrange(0, i as int));
                assert(self.controls@ =~= before.update(i as int, touched(orig[i as int], ev, p)));
            }
            proof {
                let pre = orig.subrange(0, i + 1);
                assert(top_taker(orig, ev, p) == top_taker(pre, ev, p));
                if taken {
                    assert(top_taker(pre, ev, p) == i);
                } else {
                    assert(top_taker(pre, ev, p) == top_taker(orig.subrange(0, i as int), ev, p));
                }
            }
            if taken {
                proof {
                    assert(top_taker(orig, ev, p) == i);
                    assert(self.controls@ =~= dispatched(orig, ev, p));
                }
                return true;
            }
        }
        proof {
            assert(self.controls@ =~= dispatched(orig, ev, p));
        }
        false
    }

    /// Advance the scene's timeline, if it has one, by `delta` milliseconds.
    pub fn update(&mut self, delta: u32)
        requires
            old(self).wf(),
            old(self).timeline matches Some(t) ==> t.spec_can_tick(delta as int),
        ensures
            final(self).wf(),
            *final(self) == (Scene { timeline: final(self).timeline, ..*old(self) }),
            scene_timeline_stepped(*old(self), *final(self), delta as int),
    {
        if let Some(t) = &mut self.timeline {
            t.update(delta);
        }
    }
}

/// The scene's timeline, if any, took one tick of `delta` milliseconds.
pub open spec fn scene_timeline_stepped(o: Scene, n: Scene, delta: int) -> bool {
    match o.timeline {
        Some(t) => n.timeline matches Some(u) && timeline_stepped(t, u, delta),
        None => n.timeline is None,
    }
}

} // verus!
