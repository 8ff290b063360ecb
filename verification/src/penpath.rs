//! Pen paths — ordered polylines built from pointer samples — and the
//! incremental builders that turn a stream of pointer events into path
//! segments.

use crate::events::{Element, PenEvent};
use crate::geometry::{Aabb, Vec2};
use crate::num::COORD_LIMIT;
use vstd::prelude::*;

verus! {

/// One path segment: a straight line to its end sample. (Curved builders are
/// modeled by the polyline of the samples they emit.)
#[derive(Clone, Copy, Debug, PartialEq, Eq, Structural)]
pub struct Segment {
    pub end: Element,
}

/// The end samples of a sequence of segments.
pub open spec fn segment_ends(segs: Seq<Segment>) -> Seq<Element> {
    segs.map_values(|s: Segment| s.end)
}

/// A pen path: a start sample followed by segments, in drawing order.
#[derive(Clone, Debug)]
pub struct PenPath {
    pub start: Element,
    pub segments: Vec<Segment>,
}

impl View for PenPath {
    type V = Seq<Element>;

    /// A path is viewed as its ordered sequence of samples.
    open spec fn view(&self) -> Seq<Element> {
        seq![self.start] + segment_ends(self.segments@)
    }
}

impl PenPath {
    /// Every sample of the path lies in the input coordinate range.
    pub open spec fn wf(self) -> bool {
        forall|i: int| 0 <= i < self@.len() ==> (#[trigger] self@[i]).wf()
    }

    /// A path consisting of the single sample `element`.
    pub fn new(element: Element) -> (r: PenPath)
        ensures
            r@ == seq![element],
            r.start == element,
            r.segments@ == Seq::<Segment>::empty(),
    {
        let r = PenPath { start: element, segments: Vec::new() };
        proof {
            assert(segment_ends(r.segments@) =~= Seq::<Element>::empty());
            assert(r@ =~= seq![element]);
        }
        r
    }

    /// Append `segments` to the end of the path.
    pub fn extend(&mut self, segments: &Vec<Segment>)
        ensures
            final(self).start == old(self).start,
            final(self).segments@ == old(self).segments@ + segments@,
            final(self)@ == old(self)@ + segment_ends(segments@),
    {
        let mut i: usize = 0;
        while i < segments.len()
            invariant
                i <= segments.len(),
                self.start == old(self).start,
                self.segments@ == old(self).segments@ + segments@.take(i as int),
            decreases segments.len() - i,
        {
            self.segments.push(segments[i]);
            proof {
                assert(old(self).segments@ + segments@.take(i as int) + seq![segments@[i as int]]
                    =~= old(self).segments@ + segments@.take(i + 1));
            }
            i = i + 1;
        }
        proof {
            assert(segments@.take(segments@.len() as int) =~= segments@);
            assert(self.segments@ =~= old(self).segments@ + segments@);
            assert(segment_ends(old(self).segments@ + segments@) =~= segment_ends(
                old(self).segments@,
            ) + segment_ends(segments@));
            assert(self@ =~= old(self)@ + segment_ends(segments@));
        }
    }

    /// The tight axis-aligned bounding box of all samples of the path.
    pub fn bounds(&self) -> (r: Aabb)
        requires
            self.wf(),
        ensures
            r.wf(),
            forall|i: int|
                0 <= i < self@.len() ==> r.mins.x <= (#[trigger] self@[i]).pos.x <= r.maxs.x
                    && r.mins.y <= self@[i].pos.y <= r.maxs.y,
            exists|i: int| 0 <= i < self@.len() && (#[trigger] self@[i]).pos.x == r.mins.x,
            exists|i: int| 0 <= i < self@.len() && (#[trigger] self@[i]).pos.y == r.mins.y,
            exists|i: int| 0 <= i < self@.len() && (#[trigger] self@[i]).pos.x == r.maxs.x,
            exists|i: int| 0 <= i < self@.len() && (#[trigger] self@[i]).pos.y == r.maxs.y,
    {
        assert(self@[0] == self.start);
        let mut acc = Aabb::from_point(self.start.pos);
        let mut i: usize = 0;
        while i < self.segments.len()
            invariant
                self.wf(),
                i <= self.segments.len(),
                acc.wf(),
                forall|j: int|
                    0 <= j < i + 1 ==> acc.mins.x <= (#[trigger] self@[j]).pos.x <= acc.maxs.x
                        && acc.mins.y <= self@[j].pos.y <= acc.maxs.y,
                exists|j: int| 0 <= j < i + 1 && (#[trigger] self@[j]).pos.x == acc.mins.x,
                exists|j: int| 0 <= j < i + 1 && (#[trigger] self@[j]).pos.y == acc.mins.y,
                exists|j: int| 0 <= j < i + 1 && (#[trigger] self@[j]).pos.x == acc.maxs.x,
                exists|j: int| 0 <= j < i + 1 && (#[trigger] self@[j]).pos.y == acc.maxs.y,
            decreases self.segments.len() - i,
        {
            let p = self.segments[i].end.pos;
            assert(self@[i + 1] == self.segments@[i as int].end);
            assert(self@[i + 1].wf());
            acc = acc.merged(Aabb::from_point(p));
            i = i + 1;
        }
        assert(self@.len() == self.segments.len() + 1);
        acc
    }
}

/// The kind of path builder configured for a pen: a plain polyline builder,
/// a builder that smooths the samples into curves, or one that models pen
/// physics. All kinds consume pointer samples and emit path segments.
#[derive(Clone, Copy, Debug, PartialEq, Eq, Structural)]
pub enum PenPathBuilderType {
    Simple,
    Curved,
    Modeled,
}

/// What a builder hands back after consuming one event.
#[derive(Clone, Debug)]
pub enum BuilderProgress {
    /// The builder is buffering; nothing to emit yet.
    InProgress,
    /// The builder emitted segments and the gesture continues.
    EmitContinue(Vec<Segment>),
    /// The builder emitted its final segments; the gesture is over.
    Finished(Vec<Segment>),
}

/// An incremental pen-path builder. Every pressed pointer sample is emitted
/// as one line segment; the final sample of the gesture closes the path.
#[derive(Clone, Debug)]
pub struct PenPathBuilder {
    /// The configured builder kind.
    pub kind: PenPathBuilderType,
    /// The most recent sample consumed.
    pub last: Element,
}

impl PenPathBuilder {
    /// Begin a path at `element`.
    pub fn start(kind: PenPathBuilderType, element: Element) -> (r: PenPathBuilder)
        ensures
            r.kind == kind,
            r.last == element,
    {
        PenPathBuilder { kind, last: element }
    }

    /// Consume one pointer event. A pressed sample is emitted as a line
    /// segment to the sample; lifting the pointer emits the closing segment;
    /// any other event leaves the builder buffering.
    pub fn handle_event(&mut self, event: PenEvent) -> (r: BuilderProgress)
        ensures
            final(self).kind == old(self).kind,
            event matches PenEvent::Down { element } ==> final(self).last == element && (
            r matches BuilderProgress::EmitContinue(segs) && segs@ == seq![
                Segment { end: element },
            ]),
            event matches PenEvent::Up { element } ==> final(self).last == element && (
            r matches BuilderProgress::Finished(segs) && segs@ == seq![
                Segment { end: element },
            ]),
            !(event is Down) && !(event is Up) ==> *final(self) == *old(self) && (
            r is InProgress),
    {
        match event {
            PenEvent::Down { element } => {
                self.last = element;
                let mut segs: Vec<Segment> = Vec::new();
                segs.push(Segment { end: element });
                proof {
                    assert(segs@ =~= seq![Segment { end: element }]);
                }
                BuilderProgress::EmitContinue(segs)
            },
            PenEvent::Up { element } => {
                self.last = element;
                let mut segs: Vec<Segment> = Vec::new();
                segs.push(Segment { end: element });
                proof {
                    assert(segs@ =~= seq![Segment { end: element }]);
                }
                BuilderProgress::Finished(segs)
            },
            _ => BuilderProgress::InProgress,
        }
    }
}

} // verus!
