use vstd::prelude::*;
use crate::geom::{Rectangle, Vector};
use crate::scene::Color;
use crate::tween::{advance_view, pt, PlayState, Tween};

verus! {

/// Something drawn that an animation can move: a text label with an identifier,
/// drawn in `color` at `font_size`.
#[derive(Debug)]
pub struct Sprite {
    pub id: u32,
    pub frame: Rectangle,
    pub text: String,
    pub font_size: u32,
    pub color: Color,
    pub animation: Option<Tween>,
}

/// The sprite's animation, if any, is well formed.
pub open spec fn sprite_wf(s: Sprite) -> bool {
    s.animation matches Some(t) ==> t.wf()
}

/// Where a sprite is drawn: where its animation has taken it, else its frame.
pub open spec fn sprite_pos(s: Sprite) -> (int, int) {
    match s.animation {
        Some(t) => t.view().position,
        None => pt(s.frame.pos),
    }
}

impl Sprite {
    pub fn new(id: u32, frame: Rectangle, text: String, font_size: u32) -> (r: Sprite)
        ensures
            r.id == id,
            r.frame == frame,
            r.text == text,
            r.font_size == font_size,
            r.color == (Color { r: 0, g: 0, b: 0, a: 255 }),
            r.animation is None,
    {
        Sprite { id, frame, text, font_size, color: Color { r: 0, g: 0, b: 0, a: 255 }, animation: None }
    }

    /// Where the sprite is drawn now.
    pub fn position(&self) -> (r: Vector)
        ensures
            pt(r) == sprite_pos(*self),
    {
        match &self.animation {
            Some(t) => t.position(),
            None => self.frame.pos,
        }
    }

    /// The frame at the position where the sprite is drawn now.
    pub fn current_frame(&self) -> (r: Rectangle)
        ensures
            pt(r.pos) == sprite_pos(*self),
            r.size == self.frame.size,
    {
        Rectangle { pos: self.position(), size: self.frame.size }
    }
}

/// A sprite and the time after the timeline starts at which its animation begins.
#[derive(Debug)]
pub struct Cue {
    pub sprite: Sprite,
    pub offset: u64,
}

/// How one cue changes in a tick that brings the timeline to `elapsed`: a cue whose
/// offset is reached and whose animation has not finished has the animation advanced
/// by `delta`; any other cue is untouched.
pub open spec fn cue_stepped(c: Cue, n: Cue, elapsed: int, delta: int) -> bool {
    if c.offset <= elapsed && c.sprite.animation is Some
        && c.sprite.animation->Some_0.view().state != PlayState::Finished {
        &&& n.offset == c.offset
        &&& n.sprite.id == c.sprite.id
        &&& n.sprite.frame == c.sprite.frame
        &&& n.sprite.text == c.sprite.text
        &&& n.sprite.font_size == c.sprite.font_size
        &&& n.sprite.color == c.sprite.color
        &&& n.sprite.animation is Some
        &&& n.sprite.animation->Some_0.view() == advance_view(
            c.sprite.animation->Some_0.view(),
            delta,
        )
        &&& n.sprite.animation->Some_0.wf()
    } else {
        n == c
    }
}

/// How a tick of `delta` milliseconds changes a timeline: a running one moves its
/// clock on and steps each cue; one that is not running stays as it is.
pub open spec fn timeline_stepped(o: Timeline, n: Timeline, delta: int) -> bool {
    &&& n.spec_frame() == o.spec_frame()
    &&& n.spec_running() == o.spec_running()
    &&& (!o.spec_running() ==> n.cues() == o.cues() && n.spec_elapsed() == o.spec_elapsed())
    &&& (o.spec_running() ==> {
        &&& n.spec_elapsed() == o.spec_elapsed() + delta
        &&& n.cues().len() == o.cues().len()
        &&& forall|i: int|
            0 <= i < o.cues().len() ==> cue_stepped(
                #[trigger] o.cues()[i],
                n.cues()[i],
                n.spec_elapsed(),
                delta,
            )
    })
}

/// `ts` are the states of a timeline before and after each tick of `ds`.
pub open spec fn ticked_through(ts: Seq<Timeline>, ds: Seq<int>) -> bool {
    &&& ts.len() == ds.len() + 1
    &&& forall|k: int| 0 <= k < ds.len() ==> ds[k] >= 0
    &&& forall|k: int| 0 <= k < ds.len() ==> #[trigger] timeline_stepped(ts[k], ts[k + 1], ds[k])
}

/// Over any run of ticks of a running timeline, a sprite whose offset the clock
/// has not reached by the end has never been touched.
pub proof fn lemma_untouched_before_offset(ts: Seq<Timeline>, ds: Seq<int>, i: int)
    requires
        ticked_through(ts, ds),
        ts[0].spec_running(),
        0 <= i < ts[0].cues().len(),
        ts.last().spec_elapsed() < ts[0].cues()[i].offset,
    ensures
        ts.last().cues().len() == ts[0].cues().len(),
        ts.last().cues()[i] == ts[0].cues()[i],
        ts.last().spec_running(),
    decreases ds.len(),
{
    if ds.len() > 0 {
        let n = ds.len() as int;
        let pre = ts.drop_last();
        let pds = ds.drop_last();
        assert forall|k: int| 0 <= k < pds.len() implies #[trigger] timeline_stepped(
            pre[k],
            pre[k + 1],
            pds[k],
        ) by {
            assert(timeline_stepped(ts[k], ts[k + 1], ds[k]));
        }
        let m = n - 1;
        assert(timeline_stepped(ts[m], ts[m + 1], ds[m]));
        assert(ts[m + 1] == ts.last());
        lemma_clock_before_end(ts, ds, n - 1);
        lemma_untouched_before_offset(pre, pds, i);
        assert(pre.last() == ts[n - 1]);
        assert(cue_stepped(ts[n - 1].cues()[i], ts[n].cues()[i], ts[n].spec_elapsed(), ds[n - 1]));
    }
}

/// While a timeline ticks, its clock never goes back and it keeps running.
proof fn lemma_clock_before_end(ts: Seq<Timeline>, ds: Seq<int>, k: int)
    requires
        ticked_through(ts, ds),
        ts[0].spec_running(),
        0 <= k <= ds.len(),
    ensures
        ts[k].spec_elapsed() <= ts.last().spec_elapsed(),
        ts[k].spec_running(),
    decreases ds.len() - k,
{
    lemma_running_through(ts, ds, k);
    if k < ds.len() {
        assert(timeline_stepped(ts[k], ts[k + 1], ds[k]));
        lemma_clock_before_end(ts, ds, k + 1);
    }
}

proof fn lemma_running_through(ts: Seq<Timeline>, ds: Seq<int>, k: int)
    requires
        ticked_through(ts, ds),
        ts[0].spec_running(),
        0 <= k <= ds.len(),
    ensures
        ts[k].spec_running(),
    decreases k,
{
    if k > 0 {
        let j = k - 1;
        lemma_running_through(ts, ds, j);
        assert(timeline_stepped(ts[j], ts[j + 1], ds[j]));
    }
}

/// Sprites scheduled at offsets from the timeline's start.
#[derive(Debug)]
pub struct Timeline {
    frame: Rectangle,
    cues: Vec<Cue>,
    elapsed: u64,
    running: bool,
}

impl Timeline {
    pub closed spec fn cues(&self) -> Seq<Cue> {
        self.cues@
    }

    pub closed spec fn spec_frame(&self) -> Rectangle {
        self.frame
    }

    pub fn frame(&self) -> (r: Rectangle)
        ensures
            r == self.spec_frame(),
    {
        self.frame
    }

    pub closed spec fn spec_elapsed(&self) -> int {
        self.elapsed as int
    }

    pub closed spec fn spec_running(&self) -> bool {
        self.running
    }

    /// Every animation is well formed.
    pub open spec fn wf(&self) -> bool {
        forall|i: int| 0 <= i < self.cues().len() ==> sprite_wf(#[trigger] self.cues()[i].sprite)
    }

    /// Neither the timeline's clock nor any animation's can overflow in a tick of
    /// `delta` milliseconds.
    pub open spec fn spec_can_tick(&self, delta: int) -> bool {
        &&& self.spec_elapsed() + delta <= u64::MAX
        &&& forall|i: int|
            0 <= i < self.cues().len() ==> ((#[trigger] self.cues()[i]).sprite.animation matches Some(
                t,
            ) ==> t.view().elapsed + delta <= u64::MAX)
    }

    /// Whether a tick of `delta` milliseconds overflows no clock.
    pub fn can_tick(&self, delta: u32) -> (r: bool)
        requires
            self.wf(),
        ensures
            r == self.spec_can_tick(delta as int),
    {
        if self.elapsed > u64::MAX - delta as u64 {
            return false;
        }
        let n = self.cues.len();
        let mut i: usize = 0;
        while i < n
            invariant
                n == self.cues().len(),
                i <= n,
                forall|j: int|
                    0 <= j < i ==> ((#[trigger] self.cues()[j]).sprite.animation matches Some(t)
                        ==> t.view().elapsed + delta <= u64::MAX),
            decreases n - i,
        {
            if let Some(t) = &self.cues[i].sprite.animation {
                if t.elapsed() > u64::MAX - delta as u64 {
                    return false;
                }
            }
            i = i + 1;
        }
        true
    }

    pub fn new(frame: Rectangle) -> (r: Timeline)
        ensures
            r.wf(),
            r.spec_frame() == frame,
            r.cues() == Seq::<Cue>::empty(),
            r.spec_elapsed() == 0,
            !r.spec_running(),
    {
        Timeline { frame, cues: Vec::new(), elapsed: 0, running: false }
    }

    /// Schedule `sprite` to start `offset` milliseconds after the timeline starts.
    /// Offsets need not grow in the order sprites are added.
    pub fn add_sprite(&mut self, sprite: Sprite, offset: u64)
        requires
            old(self).wf(),
            sprite_wf(sprite),
        ensures
            final(self).wf(),
            final(self).cues() == old(self).cues().push(Cue { sprite, offset }),
            final(self).spec_frame() == old(self).spec_frame(),
            final(self).spec_elapsed() == old(self).spec_elapsed(),
            final(self).spec_running() == old(self).spec_running(),
    {
        self.cues.push(Cue { sprite, offset });
        proof {
            assert forall|i: int| 0 <= i < self.cues().len() implies sprite_wf(
                #[trigger] self.cues()[i].sprite,
            ) by {
                if i < old(self).cues().len() {
                    assert(self.cues()[i] == old(self).cues()[i]);
                }
            }
        }
    }

    /// Reset the clock to zero, mark the timeline running and start every sprite's
    /// animation from its beginning.
    pub fn play(&mut self)
        requires
            old(self).wf(),
        ensures
            final(self).wf(),
            final(self).spec_elapsed() == 0,
            final(self).spec_running(),
            final(self).spec_frame() == old(self).spec_frame(),
            final(self).cues().len() == old(self).cues().len(),
            forall|i: int|
                0 <= i < old(self).cues().len() ==> {
                    let c = #[trigger] old(self).cues()[i];
                    let n = final(self).cues()[i];
                    &&& n.offset == c.offset
                    &&& n.sprite.id == c.sprite.id
                    &&& n.sprite.frame == c.sprite.frame
                    &&& n.sprite.text == c.sprite.text
                    &&& n.sprite.font_size == c.sprite.font_size
                    &&& n.sprite.color == c.sprite.color
                    &&& n.sprite.animation is Some <==> c.sprite.animation is Some
                    &&& (c.sprite.animation matches Some(t) ==> {
                        let u = n.sprite.animation->Some_0;
                        u.view() == (crate::tween::TweenView {
                            state: PlayState::Running,
                            elapsed: 0,
                            position: t.view().start,
                            ..t.view()
                        })
                    })
                },
    {
        let mut old_cues: Vec<Cue> = Vec::new();
        std::mem::swap(&mut old_cues, &mut self.cues);
        let ghost orig = old_cues@;
        let n = old_cues.len();
        let mut i: usize = 0;
        while i < n
            invariant
                n == orig.len(),
                i <= n,
                self.frame == old(self).frame,
                self.running == old(self).running,
                self.elapsed == old(self).elapsed,
                old_cues@ == orig.subrange(i as int, n as int),
                self.cues@.len() == i,
                forall|j: int| 0 <= j < orig.len() ==> sprite_wf(#[trigger] orig[j].sprite),
                forall|j: int|
                    0 <= j < i ==> {
                        &&& sprite_wf(#[trigger] self.cues@[j].sprite)
                        &&& (self.cues@[j].sprite.animation matches Some(t) ==> t.view().elapsed
                            == 0)
                    },
                forall|j: int|
                    0 <= j < i ==> {
                        let c = #[trigger] orig[j];
                        let m = self.cues@[j];
                        &&& sprite_wf(m.sprite)
                        &&& m.offset == c.offset
                        &&& m.sprite.id == c.sprite.id
                        &&& m.sprite.frame == c.sprite.frame
                        &&& m.sprite.text == c.sprite.text
                        &&& m.sprite.font_size == c.sprite.font_size
                        &&& m.sprite.color == c.sprite.color
                        &&& m.sprite.animation is Some <==> c.sprite.animation is Some
                        &&& (c.sprite.animation matches Some(t) ==> {
                            let u = m.sprite.animation->Some_0;
                            u.view() == (crate::tween::TweenView {
                                state: PlayState::Running,
                                elapsed: 0,
                                position: t.view().start,
                                ..t.view()
                            })
                        })
                    },
            decreases n - i,
        {
            let mut c = old_cues.remove(0);
            proof {
                assert(c == orig[i as int]);
            }
            if let Some(t) = &mut c.sprite.animation {
                t.play();
            }
            self.cues.push(c);
            proof {
                assert(old_cues@ =~= orig.subrange(i + 1, n as int));
            }
            i = i + 1;
        }
        self.elapsed = 0;
        self.running = true;
        proof {
            assert forall|j: int| 0 <= j < self.cues().len() implies sprite_wf(
                #[trigger] self.cues()[j].sprite,
            ) by {
                assert(self.cues()[j] == self.cues@[j]);
            }
        }
    }

    /// One tick of `delta` milliseconds. A running timeline moves its clock on, then
    /// advances by `delta` the animation of each sprite whose offset the clock has
    /// reached and whose animation has not finished; the others are untouched. A
    /// timeline that is not running is left as it is.
    pub fn update(&mut self, delta: u32)
        requires
            old(self).wf(),
            old(self).spec_can_tick(delta as int),
        ensures
            final(self).wf(),
            timeline_stepped(*old(self), *final(self), delta as int),
    {
        if !self.running {
            return;
        }
        let now = self.elapsed + delta as u64;
        let mut old_cues: Vec<Cue> = Vec::new();
        std::mem::swap(&mut old_cues, &mut self.cues);
        let ghost orig = old_cues@;
        let ghost before = self.elapsed as int;
        let n = old_cues.len();
        let mut i: usize = 0;
        while i < n
            invariant
                n == orig.len(),
                i <= n,
                self.frame == old(self).frame,
                self.running == old(self).running,
                self.elapsed == old(self).elapsed,
                now == before + delta,
                old_cues@ == orig.subrange(i as int, n as int),
                self.cues@.len() == i,
                forall|j: int|
                    0 <= j < orig.len() ==> {
                        &&& sprite_wf(#[trigger] orig[j].sprite)
                        &&& (orig[j].sprite.animation matches Some(t) ==> t.view().elapsed
                            + delta <= u64::MAX)
                    },
                forall|j: int|
                    0 <= j < i ==> {
                        &&& cue_stepped(#[trigger] orig[j], self.cues@[j], now as int, delta as int)
                    },
                forall|j: int|
                    0 <= j < i ==> {
                        &&& sprite_wf(#[trigger] self.cues@[j].sprite)
                    },
            decreases n - i,
        {
            let mut c = old_cues.remove(0);
            proof {
                assert(c == orig[i as int]);
            }
            if c.offset <= now {
                if let Some(t) = &mut c.sprite.animation {
                    if !t.is_finished() {
                        t.advance(delta);
                    }
                }
            }
            self.cues.push(c);
            proof {
                assert(old_cues@ =~= orig.subrange(i + 1, n as int));
                assert(self.cues@[i as int] == c);
            }
            i = i + 1;
        }
        self.elapsed = now;
        proof {
            assert forall|j: int| 0 <= j < self.cues().len() implies sprite_wf(
                #[trigger] self.cues()[j].sprite,
            ) by {
                assert(self.cues()[j] == self.cues@[j]);
            }
        }
    }

    /// Milliseconds since `play`.
    pub fn elapsed(&self) -> (r: u64)
        ensures
            r == self.spec_elapsed(),
    {
        self.elapsed
    }

    pub fn is_running(&self) -> (r: bool)
        ensures
            r == self.spec_running(),
    {
        self.running
    }

    pub fn len(&self) -> (r: usize)
        ensures
            r == self.cues().len(),
    {
        self.cues.len()
    }

    /// The sprite scheduled `index`-th.
    pub fn sprite(&self, index: usize) -> (r: &Sprite)
        requires
            index < self.cues().len(),
        ensures
            *r == self.cues()[index as int].sprite,
    {
        &self.cues[index].sprite
    }

    /// The offset of the sprite scheduled `index`-th.
    pub fn offset(&self, index: usize) -> (r: u64)
        requires
            index < self.cues().len(),
        ensures
            r == self.cues()[index as int].offset,
    {
        self.cues[index].offset
    }
}

} // verus!
