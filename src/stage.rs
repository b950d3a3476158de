use vstd::prelude::*;
use crate::geom::{Rectangle, Vector};
use crate::scene::{dispatched, scene_timeline_stepped, top_taker, MouseEvent, Scene};

verus! {

/// Whether some control of the scene consumes the event.
pub open spec fn scene_takes(s: Scene, ev: MouseEvent, p: Vector) -> bool {
    top_taker(s.controls@, ev, p) >= 0
}

/// The index of the topmost scene with a control that consumes the event, or -1.
pub open spec fn top_scene(ss: Seq<Scene>, ev: MouseEvent, p: Vector) -> int
    decreases ss.len(),
{
    if ss.len() == 0 {
        -1
    } else if scene_takes(ss.last(), ev, p) {
        ss.len() - 1
    } else {
        top_scene(ss.drop_last(), ev, p)
    }
}

/// Whether a scene can take a tick of `delta` milliseconds without its clock
/// overflowing.
pub open spec fn scene_can_tick(s: Scene, delta: int) -> bool {
    s.timeline matches Some(t) ==> t.spec_can_tick(delta)
}

/// One screen: an ordered list of scenes, drawn and updated in that order.
#[derive(Debug)]
pub struct Stage {
    pub title: String,
    pub frame: Rectangle,
    pub scenes: Vec<Scene>,
}

impl Stage {
    pub open spec fn wf(&self) -> bool {
        forall|i: int| 0 <= i < self.scenes@.len() ==> (#[trigger] self.scenes@[i]).wf()
    }

    pub fn new(frame: Rectangle) -> (r: Stage)
        ensures
            r.wf(),
            r.title@ == Seq::<char>::empty(),
            r.frame == frame,
            r.scenes@ == Seq::<Scene>::empty(),
    {
        Stage { title: String::new(), frame, scenes: Vec::new() }
    }

    pub fn add_scene(&mut self, scene: Scene)
        requires
            old(self).wf(),
            scene.wf(),
        ensures
            final(self).wf(),
            final(self).title == old(self).title,
            final(self).frame == old(self).frame,
            final(self).scenes@ == old(self).scenes@.push(scene),
    {
        self.scenes.push(scene);
        proof {
            assert(forall|i: int|
                0 <= i < old(self).scenes@.len() ==> self.scenes@[i] == old(self).scenes@[i]);
        }
    }

    /// Remove every scene.
    pub fn clear(&mut self)
        ensures
            final(self).wf(),
            final(self).title == old(self).title,
            final(self).frame == old(self).frame,
            final(self).scenes@ == Seq::<Scene>::empty(),
    {
        self.scenes = Vec::new();
    }

    /// Give every scene a tick of `delta` milliseconds, in order.
    pub fn update(&mut self, delta: u32)
        requires
            old(self).wf(),
            forall|i: int|
                0 <= i < old(self).scenes@.len() ==> scene_can_tick(
                    #[trigger] old(self).scenes@[i],
                    delta as int,
                ),
        ensures
            final(self).wf(),
            final(self).title == old(self).title,
            final(self).frame == old(self).frame,
            final(self).scenes@.len() == old(self).scenes@.len(),
            forall|i: int|
                0 <= i < old(self).scenes@.len() ==> {
                    let o = #[trigger] old(self).scenes@[i];
                    let n = final(self).scenes@[i];
                    &&& n == (Scene { timeline: n.timeline, ..o })
                    &&& scene_timeline_stepped(o, n, delta as int)
                },
    {
        let ghost orig = self.scenes@;
        let n = self.scenes.len();
        let mut i: usize = 0;
        while i < n
            invariant
                n == orig.len(),
                orig == old(self).scenes@,
                i <= n,
                self.scenes@.len() == n,
                self.title == old(self).title,
                self.frame == old(self).frame,
                forall|j: int| i <= j < n ==> self.scenes@[j] == orig[j],
                forall|j: int| 0 <= j < i ==> (#[trigger] self.scenes@[j]).wf(),
                forall|j: int|
                    0 <= j < n ==> (#[trigger] orig[j]).wf() && scene_can_tick(
                        orig[j],
                        delta as int,
                    ),
                forall|j: int|
                    0 <= j < i ==> {
                        let o = #[trigger] orig[j];
                        let m = self.scenes@[j];
                        &&& m.wf()
                        &&& m == (Scene { timeline: m.timeline, ..o })
                        &&& scene_timeline_stepped(o, m, delta as int)
                    },
            decreases n - i,
        {
            let ghost before = self.scenes@;
            let mut s = self.scenes.remove(i);
            proof {
                assert(s == orig[i as int]);
            }
            s.update(delta);
            self.scenes.insert(i, s);
            proof {
                assert(self.scenes@ =~= before.update(i as int, s));
            }
            i = i + 1;
        }
    }

    /// Offer a pointer event to the scenes from the topmost down; within a scene it
    /// goes from the topmost control down. Dispatch stops at the first control that
    /// consumes it; returns whether one did.
    pub fn handle_mouse(&mut self, ev: MouseEvent, p: Vector) -> (r: bool)
        ensures
            r == (top_scene(old(self).scenes@, ev, p) >= 0),
            final(self).title == old(self).title,
            final(self).frame == old(self).frame,
            final(self).scenes@.len() == old(self).scenes@.len(),
            forall|i: int|
                0 <= i < old(self).scenes@.len() ==> {
                    let o = #[trigger] old(self).scenes@[i];
                    let n = final(self).scenes@[i];
                    if i >= top_scene(old(self).scenes@, ev, p) {
                        &&& n == (Scene { controls: n.controls, ..o })
                        &&& n.controls@ == dispatched(o.controls@, ev, p)
                    } else {
                        n == o
                    }
                },
    {
        let ghost orig = self.scenes@;
        let mut i: usize = self.scenes.len();
        proof {
            assert(orig.subrange(0, i as int) =~= orig);
        }
        while i > 0
            invariant
                i <= orig.len(),
                orig == old(self).scenes@,
                self.scenes@.len() == orig.len(),
                self.title == old(self).title,
                self.frame == old(self).frame,
                top_scene(orig, ev, p) == top_scene(orig.subrange(0, i as int), ev, p),
                forall|j: int| 0 <= j < i ==> self.scenes@[j] == orig[j],
                forall|j: int|
                    i <= j < orig.len() ==> {
                        let o = #[trigger] orig[j];
                        let m = self.scenes@[j];
                        &&& m == (Scene { controls: m.controls, ..o })
                        &&& m.controls@ == dispatched(o.controls@, ev, p)
                    },
            decreases i,
        {
            let ghost before = self.scenes@;
            i = i - 1;
            let mut s = self.scenes.remove(i);
            let taken = s.handle_mouse(ev, p);
            self.scenes.insert(i, s);
            proof {
                assert(self.scenes@ =~= before.update(i as int, s));
                let pre = orig.subrange(0, i + 1);
                assert(pre.last() == orig[i as int]);
                assert(pre.drop_last() =~= orig.subrange(0, i as int));
                assert(top_scene(orig, ev, p) == top_scene(pre, ev, p));
                if taken {
                    assert(top_scene(pre, ev, p) == i);
                } else {
                    assert(top_scene(pre, ev, p) == top_scene(orig.subrange(0, i as int), ev, p));
                }
            }
            if taken {
                return true;
            }
        }
        false
    }

    /// Whether every scene's clock can take `delta` more milliseconds.
    pub fn can_tick(&self, delta: u32) -> (r: bool)
        requires
            self.wf(),
        ensures
            r == forall|i: int|
                0 <= i < self.scenes@.len() ==> scene_can_tick(
                    #[trigger] self.scenes@[i],
                    delta as int,
                ),
    {
        let n = self.scenes.len();
        let mut i: usize = 0;
        while i < n
            invariant
                n == self.scenes@.len(),
                i <= n,
                forall|j: int| 0 <= j < i ==> scene_can_tick(#[trigger] self.scenes@[j], delta as int),
                self.wf(),
            decreases n - i,
        {
            if let Some(t) = &self.scenes[i].timeline {
                if !t.can_tick(delta) {
                    return false;
                }
            }
            i = i + 1;
        }
        true
    }
}

} // verus!
