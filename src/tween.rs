use vstd::prelude::*;
use vstd::arithmetic::div_mod::{lemma_div_is_ordered, lemma_div_by_multiple};
use crate::geom::Vector;

verus! {

/// How progress through a segment maps to progress of the animated value.
#[derive(Clone, Copy, Debug, PartialEq, Eq, Structural)]
pub enum Ease {
    /// `t`
    Linear,
    /// `t * t`
    QuadIn,
    /// `t * (2 - t)`
    QuadOut,
}

/// The play state of an animation.
#[derive(Clone, Copy, Debug, PartialEq, Eq, Structural)]
pub enum PlayState {
    Pending,
    Running,
    Finished,
}

/// One step of an animation: over `duration` milliseconds the position moves to
/// `target` along the easing curve; with no target the step is a pause.
#[derive(Clone, Copy, Debug, PartialEq, Eq, Structural)]
pub struct Segment {
    pub duration: u32,
    pub target: Option<Vector>,
    pub ease: Ease,
}

pub open spec fn pt(v: Vector) -> (int, int) {
    (v.x as int, v.y as int)
}

/// Eased progress `p` of `d`, scaled by `d * d`.
pub open spec fn ease_scaled(e: Ease, p: int, d: int) -> int {
    match e {
        Ease::Linear => p * d,
        Ease::QuadIn => p * p,
        Ease::QuadOut => p * (2 * d - p),
    }
}

/// The value between `a` and `b` after `p` of `d` milliseconds, rounded toward `a`.
pub open spec fn lerp(a: int, b: int, e: Ease, p: int, d: int) -> int {
    if d == 0 {
        a
    } else if b >= a {
        a + (b - a) * ease_scaled(e, p, d) / (d * d)
    } else {
        a - (a - b) * ease_scaled(e, p, d) / (d * d)
    }
}

/// Where a segment that starts at `from` leaves the position once complete.
pub open spec fn seg_end(s: Segment, from: (int, int)) -> (int, int) {
    match s.target {
        Some(t) => pt(t),
        None => from,
    }
}

/// The position `p` milliseconds into a segment that starts at `from`.
pub open spec fn seg_pos(s: Segment, from: (int, int), p: int) -> (int, int) {
    match s.target {
        Some(t) => (
            lerp(from.0, t.x as int, s.ease, p, s.duration as int),
            lerp(from.1, t.y as int, s.ease, p, s.duration as int),
        ),
        None => from,
    }
}

/// The summed duration of the segments.
pub open spec fn total(segs: Seq<Segment>) -> nat
    decreases segs.len(),
{
    if segs.len() == 0 {
        0
    } else {
        segs[0].duration as nat + total(segs.drop_first())
    }
}

/// The position after `e` milliseconds of playing `segs` from `from`: segments play
/// strictly in order, and time left over from one segment carries into the next.
pub open spec fn pos_at(segs: Seq<Segment>, from: (int, int), e: int) -> (int, int)
    decreases segs.len(),
{
    if segs.len() == 0 {
        from
    } else if e < segs[0].duration {
        seg_pos(segs[0], from, e)
    } else {
        pos_at(segs.drop_first(), seg_end(segs[0], from), e - segs[0].duration)
    }
}

/// The position once every segment has played.
pub open spec fn end_pos(segs: Seq<Segment>, from: (int, int)) -> (int, int)
    decreases segs.len(),
{
    if segs.len() == 0 {
        from
    } else {
        end_pos(segs.drop_first(), seg_end(segs[0], from))
    }
}

/// What a caller sees of a tween.
pub ghost struct TweenView {
    pub id: u32,
    pub segments: Seq<Segment>,
    pub start: (int, int),
    pub state: PlayState,
    pub elapsed: int,
    pub position: (int, int),
}

/// The view after advancing by `delta` milliseconds: a running tween moves to where
/// its segments put it after the summed time and finishes once that time reaches
/// their total; a pending or finished one stays as it is.
pub open spec fn advance_view(v: TweenView, delta: int) -> TweenView {
    if v.state == PlayState::Running {
        TweenView {
            elapsed: v.elapsed + delta,
            position: pos_at(v.segments, v.start, v.elapsed + delta),
            state: if v.elapsed + delta >= total(v.segments) {
                PlayState::Finished
            } else {
                PlayState::Running
            },
            ..v
        }
    } else {
        v
    }
}

/// A sequence of timed, eased moves of one position.
#[derive(Clone, Debug)]
pub struct Tween {
    id: u32,
    segments: Vec<Segment>,
    start: Vector,
    state: PlayState,
    elapsed: u64,
    index: usize,
    progress: u32,
    seg_start: Vector,
    pos: Vector,
}

impl Tween {
    pub closed spec fn view(&self) -> TweenView {
        TweenView {
            id: self.id,
            segments: self.segments@,
            start: pt(self.start),
            state: self.state,
            elapsed: self.elapsed as int,
            position: pt(self.pos),
        }
    }

    /// Time before the current segment, and the segments still to play, account for
    /// every future position and for the total.
    closed spec fn rest_agrees(&self, base: int, index: int, seg_start: (int, int)) -> bool {
        &&& 0 <= index <= self.segments@.len()
        &&& forall|e: int|
            e >= 0 ==> #[trigger] pos_at(
                self.segments@.subrange(index, self.segments@.len() as int),
                seg_start,
                e,
            ) == pos_at(self.segments@, pt(self.start), base + e)
        &&& total(self.segments@) == base + total(
            self.segments@.subrange(index, self.segments@.len() as int),
        )
    }

    pub closed spec fn wf(&self) -> bool {
        let segs = self.segments@;
        let i = self.index as int;
        &&& i <= segs.len()
        &&& (i < segs.len() ==> self.progress <= segs[i].duration)
        &&& (i == segs.len() ==> self.progress == 0)
        &&& self.elapsed >= self.progress
        &&& (self.state == PlayState::Pending ==> {
            &&& i == 0
            &&& self.elapsed == 0
            &&& self.progress == 0
            &&& self.seg_start == self.start
            &&& self.pos == self.start
        })
        &&& (self.state == PlayState::Running ==> {
            &&& self.rest_agrees(
                self.elapsed - self.progress,
                i,
                pt(self.seg_start),
            )
            &&& pt(self.pos) == if i < segs.len() {
                seg_pos(segs[i], pt(self.seg_start), self.progress as int)
            } else {
                pt(self.seg_start)
            }
        })
        &&& (self.state == PlayState::Finished ==> i == segs.len())
    }

    /// Begin building a tween of the position `start`.
    pub fn with(id: u32, start: Vector) -> (r: Tween)
        ensures
            r.wf(),
            r.view() == (TweenView {
                id,
                segments: Seq::empty(),
                start: pt(start),
                state: PlayState::Pending,
                elapsed: 0,
                position: pt(start),
            }),
    {
        Tween {
            id,
            segments: Vec::new(),
            start,
            state: PlayState::Pending,
            elapsed: 0,
            index: 0,
            progress: 0,
            seg_start: start,
            pos: start,
        }
    }

    /// Back to pending at the start position.
    fn stop(&mut self)
        ensures
            final(self).wf(),
            final(self).view() == (TweenView {
                state: PlayState::Pending,
                elapsed: 0,
                position: old(self).view().start,
                ..old(self).view()
            }),
    {
        self.state = PlayState::Pending;
        self.elapsed = 0;
        self.index = 0;
        self.progress = 0;
        self.seg_start = self.start;
        self.pos = self.start;
    }

    /// Append a segment toward `target` (a pause when `None`), of zero duration and
    /// linear easing until `duration` and `ease` say otherwise. Changing the
    /// segments stops the tween: it is pending again, at its start position.
    pub fn to(self, target: Option<Vector>) -> (r: Tween)
        requires
            self.wf(),
        ensures
            r.wf(),
            r.view() == (TweenView {
                segments: self.view().segments.push(
                    Segment { duration: 0, target, ease: Ease::Linear },
                ),
                state: PlayState::Pending,
                elapsed: 0,
                position: self.view().start,
                ..self.view()
            }),
    {
        let mut t = self;
        t.segments.push(Segment { duration: 0, target, ease: Ease::Linear });
        t.stop();
        t
    }

    /// Set the duration in milliseconds of the segment appended last; this too
    /// stops the tween.
    pub fn duration(self, ms: u32) -> (r: Tween)
        requires
            self.wf(),
        ensures
            r.wf(),
            r.view() == (TweenView {
                segments: if self.view().segments.len() == 0 {
                    self.view().segments
                } else {
                    let n = self.view().segments.len() - 1;
                    self.view().segments.update(
                        n,
                        Segment { duration: ms, ..self.view().segments[n] },
                    )
                },
                state: PlayState::Pending,
                elapsed: 0,
                position: self.view().start,
                ..self.view()
            }),
    {
        let mut t = self;
        let n = t.segments.len();
        if n > 0 {
            let mut s = t.segments[n - 1];
            s.duration = ms;
            t.segments.set(n - 1, s);
        }
        t.stop();
        t
    }

    /// Set the easing of the segment appended last; this too stops the tween.
    pub fn ease(self, e: Ease) -> (r: Tween)
        requires
            self.wf(),
        ensures
            r.wf(),
            r.view() == (TweenView {
                segments: if self.view().segments.len() == 0 {
                    self.view().segments
                } else {
                    let n = self.view().segments.len() - 1;
                    self.view().segments.update(n, Segment { ease: e, ..self.view().segments[n] })
                },
                state: PlayState::Pending,
                elapsed: 0,
                position: self.view().start,
                ..self.view()
            }),
    {
        let mut t = self;
        let n = t.segments.len();
        if n > 0 {
            let mut s = t.segments[n - 1];
            s.ease = e;
            t.segments.set(n - 1, s);
        }
        t.stop();
        t
    }

    /// Start (or restart) from the first segment at the start position.
    pub fn play(&mut self)
        requires
            old(self).wf(),
        ensures
            final(self).wf(),
            final(self).view() == (TweenView {
                state: PlayState::Running,
                elapsed: 0,
                position: old(self).view().start,
                ..old(self).view()
            }),
    {
        self.state = PlayState::Running;
        self.elapsed = 0;
        self.index = 0;
        self.progress = 0;
        self.seg_start = self.start;
        self.pos = self.start;
        proof {
            let segs = self.segments@;
            assert(segs.subrange(0, segs.len() as int) =~= segs);
            if segs.len() > 0 {
                lemma_seg_pos_at_zero(segs[0], pt(self.start));
            }
        }
    }

    pub fn id(&self) -> (r: u32)
        ensures
            r == self.view().id,
    {
        self.id
    }

    pub fn state(&self) -> (r: PlayState)
        ensures
            r == self.view().state,
    {
        self.state
    }

    pub fn is_finished(&self) -> (r: bool)
        ensures
            r == (self.view().state == PlayState::Finished),
    {
        self.state == PlayState::Finished
    }

    /// Milliseconds advanced since `play`.
    pub fn elapsed(&self) -> (r: u64)
        ensures
            r == self.view().elapsed,
    {
        self.elapsed
    }

    pub fn position(&self) -> (r: Vector)
        ensures
            pt(r) == self.view().position,
    {
        self.pos
    }

    pub fn segments(&self) -> (r: &Vec<Segment>)
        ensures
            r@ == self.view().segments,
    {
        &self.segments
    }

    /// Advance a running tween by `delta` milliseconds. Each segment whose time is
    /// used up is applied fully and the rest of `delta` carries into the next one, so
    /// one call may complete several segments; after the last one the tween is
    /// finished and further calls change nothing.
    pub fn advance(&mut self, delta: u32)
        requires
            old(self).wf(),
            old(self).view().elapsed + delta <= u64::MAX,
        ensures
            final(self).wf(),
            final(self).view() == advance_view(old(self).view(), delta as int),
    {
        if self.state != PlayState::Running {
            return;
        }
        let ghost segs = self.segments@;
        let ghost target = self.elapsed + delta;
        let ghost mut base: int = self.elapsed - self.progress;
        let len = self.segments.len();
        let mut left: u32 = delta;
        let mut index = self.index;
        let mut progress = self.progress;
        let mut seg_start = self.seg_start;
        proof {
            assert(pos_at(segs.subrange(index as int, len as int), pt(seg_start), progress + left)
                == pos_at(segs, pt(self.start), base + progress + left));
        }
        while index < len && left >= segs_duration(&self.segments, index) - progress
            invariant
                self.segments@ == segs,
                len == segs.len(),
                self.wf(),
                self.state == PlayState::Running,
                index <= len,
                index < len ==> progress <= segs[index as int].duration,
                index == len ==> progress == 0,
                self.rest_agrees(base, index as int, pt(seg_start)),
                base + progress + left == target,
                base >= 0,
                pos_at(segs.subrange(index as int, len as int), pt(seg_start), progress + left)
                    == pos_at(segs, pt(self.start), target),
            decreases len - index,
        {
            let d = self.segments[index].duration;
            proof {
                let rest = segs.subrange(index as int, len as int);
                let next = segs.subrange(index + 1, len as int);
                assert(rest.drop_first() =~= next);
                assert(rest[0] == segs[index as int]);
                let end = seg_end(segs[index as int], pt(seg_start));
                assert forall|e: int| e >= 0 implies #[trigger] pos_at(next, end, e) == pos_at(
                    segs,
                    pt(self.start),
                    (base + d) + e,
                ) by {
                    assert(pos_at(rest, pt(seg_start), d + e) == pos_at(next, end, e));
                }
            }
            left = left - (d - progress);
            proof {
                base = base + d;
            }
            seg_start = segment_end(&self.segments[index], seg_start);
            index = index + 1;
            progress = 0;
        }
        self.index = index;
        self.seg_start = seg_start;
        self.elapsed = self.elapsed + delta as u64;
        if index < len {
            progress = progress + left;
            self.progress = progress;
            self.pos = segment_position(&self.segments[index], seg_start, progress);
            proof {
                let rest = segs.subrange(index as int, len as int);
                assert(rest[0] == segs[index as int]);
                assert(rest.drop_first() =~= segs.subrange(index + 1, len as int));
                assert(total(rest) >= segs[index as int].duration);
            }
        } else {
            self.progress = 0;
            self.pos = seg_start;
            self.state = PlayState::Finished;
            proof {
                assert(segs.subrange(len as int, len as int) =~= Seq::<Segment>::empty());
            }
        }
    }
}

/// Once the summed time reaches the total duration, the position is the end
/// position: a tween advanced past its end is clamped to the last targets.
pub proof fn lemma_clamped_past_end(segs: Seq<Segment>, from: (int, int), e: int)
    requires
        e >= total(segs),
    ensures
        pos_at(segs, from, e) == end_pos(segs, from),
    decreases segs.len(),
{
    if segs.len() > 0 {
        lemma_clamped_past_end(segs.drop_first(), seg_end(segs[0], from), e - segs[0].duration);
    }
}

/// Cutting a running tween's time into two advances gives the same state and
/// position as one advance by the sum.
pub proof fn lemma_advance_split(v: TweenView, d1: int, d2: int)
    requires
        v.state == PlayState::Running,
        v.elapsed >= 0,
        d1 >= 0,
        d2 >= 0,
    ensures
        advance_view(advance_view(v, d1), d2).state == advance_view(v, d1 + d2).state,
        advance_view(advance_view(v, d1), d2).position == advance_view(v, d1 + d2).position,
{
    let e1 = v.elapsed + d1;
    if e1 >= total(v.segments) {
        lemma_clamped_past_end(v.segments, v.start, e1);
        lemma_clamped_past_end(v.segments, v.start, e1 + d2);
    }
}

/// The view after advancing by each of `ds` in turn.
pub open spec fn advance_all(v: TweenView, ds: Seq<int>) -> TweenView
    decreases ds.len(),
{
    if ds.len() == 0 {
        v
    } else {
        advance_all(advance_view(v, ds[0]), ds.drop_first())
    }
}

pub open spec fn sum(ds: Seq<int>) -> int
    decreases ds.len(),
{
    if ds.len() == 0 {
        0
    } else {
        ds[0] + sum(ds.drop_first())
    }
}

proof fn lemma_sum_nonneg(ds: Seq<int>)
    requires
        forall|i: int| 0 <= i < ds.len() ==> ds[i] >= 0,
    ensures
        sum(ds) >= 0,
    decreases ds.len(),
{
    if ds.len() > 0 {
        lemma_sum_nonneg(ds.drop_first());
    }
}

proof fn lemma_advance_all_idle(v: TweenView, ds: Seq<int>)
    requires
        v.state != PlayState::Running,
    ensures
        advance_all(v, ds) == v,
    decreases ds.len(),
{
    if ds.len() > 0 {
        lemma_advance_all_idle(v, ds.drop_first());
    }
}

/// However a running tween's time is cut into one or more advances, it ends in the
/// state and at the position of one advance by the summed time: running until that
/// time reaches the total duration, then finished at the end position.
pub proof fn lemma_advance_sequence(v: TweenView, ds: Seq<int>)
    requires
        v.state == PlayState::Running,
        ds.len() > 0,
        v.elapsed >= 0,
        forall|i: int| 0 <= i < ds.len() ==> ds[i] >= 0,
    ensures
        advance_all(v, ds).state == advance_view(v, sum(ds)).state,
        advance_all(v, ds).position == advance_view(v, sum(ds)).position,
    decreases ds.len(),
{
    let rest = ds.drop_first();
    let v1 = advance_view(v, ds[0]);
    assert(forall|i: int| 0 <= i < rest.len() ==> rest[i] == ds[i + 1]);
    lemma_sum_nonneg(rest);
    lemma_advance_split(v, ds[0], sum(rest));
    if rest.len() == 0 {
        assert(advance_all(v1, rest) == v1);
    } else if v1.state == PlayState::Running {
        lemma_advance_sequence(v1, rest);
    } else {
        lemma_advance_all_idle(v1, rest);
    }
}

fn segs_duration(segs: &Vec<Segment>, index: usize) -> (r: u32)
    requires
        index < segs@.len(),
    ensures
        r == segs@[index as int].duration,
{
    segs[index].duration
}

fn segment_end(s: &Segment, from: Vector) -> (r: Vector)
    ensures
        pt(r) == seg_end(*s, pt(from)),
{
    match s.target {
        Some(t) => t,
        None => from,
    }
}

/// A segment has not moved its start at time zero.
proof fn lemma_seg_pos_at_zero(s: Segment, from: (int, int))
    ensures
        seg_pos(s, from, 0) == from,
{
    let d = s.duration as int;
    assert(ease_scaled(s.ease, 0, d) == 0);
    if d > 0 {
        assert(0int / (d * d) == 0) by (nonlinear_arith)
            requires
                d > 0,
        ;
    }
}

/// `p * (2d - p) <= d * d` and the like: eased progress never passes the end.
proof fn lemma_ease_bounded(e: Ease, p: int, d: int)
    requires
        0 <= p <= d,
    ensures
        0 <= ease_scaled(e, p, d) <= d * d,
{
    match e {
        Ease::Linear => {
            assert(0 <= p * d <= d * d) by (nonlinear_arith)
                requires
                    0 <= p <= d,
            ;
        },
        Ease::QuadIn => {
            assert(0 <= p * p <= d * d) by (nonlinear_arith)
                requires
                    0 <= p <= d,
            ;
        },
        Ease::QuadOut => {
            assert(0 <= p * (2 * d - p) <= d * d) by (nonlinear_arith)
                requires
                    0 <= p <= d,
            ;
        },
    }
}

fn ease_scaled_exec(e: Ease, p: u32, d: u32) -> (r: u128)
    requires
        p <= d,
    ensures
        r == ease_scaled(e, p as int, d as int),
        r <= d as int * d as int,
{
    proof {
        lemma_ease_bounded(e, p as int, d as int);
        assert(d as int * d as int <= u32::MAX as int * u32::MAX as int) by (nonlinear_arith)
            requires
                d <= u32::MAX,
        ;
    }
    let p = p as u128;
    let d = d as u128;
    match e {
        Ease::Linear => p * d,
        Ease::QuadIn => p * p,
        Ease::QuadOut => p * (2 * d - p),
    }
}

/// `a + (b - a) * eased / (d * d)` with the quotient rounded toward zero.
fn lerp_exec(a: i64, b: i64, e: Ease, p: u32, d: u32) -> (r: i64)
    requires
        p <= d,
    ensures
        r == lerp(a as int, b as int, e, p as int, d as int),
{
    if d == 0 {
        return a;
    }
    let num = ease_scaled_exec(e, p, d);
    proof {
        assert(d as int * d as int <= 0xffff_fffe_0000_0001) by (nonlinear_arith)
            requires
                d <= u32::MAX,
        ;
    }
    let den: u128 = d as u128 * d as u128;
    let diff: u128 = if b >= a {
        (b as i128 - a as i128) as u128
    } else {
        (a as i128 - b as i128) as u128
    };
    proof {
        assert(den > 0 && diff * num <= diff * den) by (nonlinear_arith)
            requires
                num <= den,
                den == d as int * d as int,
                d > 0,
        ;
        assert(diff * den <= 0xffff_ffff_ffff_ffff * 0xffff_ffff_ffff_ffffu128) by (nonlinear_arith)
            requires
                diff <= 0xffff_ffff_ffff_ffff,
                den <= 0xffff_fffe_0000_0001,
        ;
        lemma_div_is_ordered(diff * num, diff * den, den as int);
        lemma_div_by_multiple(diff as int, den as int);
    }
    let off = diff * num / den;
    if b >= a {
        (a as i128 + off as i128) as i64
    } else {
        (a as i128 - off as i128) as i64
    }
}

fn segment_position(s: &Segment, from: Vector, p: u32) -> (r: Vector)
    requires
        p <= s.duration,
    ensures
        pt(r) == seg_pos(*s, pt(from), p as int),
{
    match s.target {
        Some(t) => Vector {
            x: lerp_exec(from.x, t.x, s.ease, p, s.duration),
            y: lerp_exec(from.y, t.y, s.ease, p, s.duration),
        },
        None => from,
    }
}

} // verus!
