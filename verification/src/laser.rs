//! The laser-pointer stroke store: a time-windowed collection of pen paths
//! that fade out together a fixed duration after the last update.
//!
//! Every path in the store belongs to the same fade epoch. Once the epoch is
//! fully faded, the next new stroke clears the old paths lazily; nothing ever
//! sweeps the store in the background.

use crate::events::Element;
use crate::penpath::{segment_ends, BuilderProgress, PenPath, Segment};
use vstd::prelude::*;

verus! {

/// How long a fade epoch lasts, in milliseconds.
pub const FULL_FADE_DURATION: u64 = 1500;

/// The fully opaque alpha value.
pub const OPACITY_MAX: u64 = 255;

/// The segments carried by a builder progress report.
pub open spec fn progress_segments(p: BuilderProgress) -> Seq<Segment> {
    match p {
        BuilderProgress::InProgress => Seq::empty(),
        BuilderProgress::EmitContinue(segs) => segs@,
        BuilderProgress::Finished(segs) => segs@,
    }
}

/// The ephemeral laser strokes and the timestamp of their last mutation.
#[derive(Clone, Debug)]
pub struct LaserStore {
    /// The stroke paths of the current fade epoch, in drawing order.
    pub stroke_paths: Vec<PenPath>,
    /// When the store was last updated, in milliseconds.
    pub stroke_update_time: u64,
}

impl Default for LaserStore {
    /// An empty store whose epoch started at time zero.
    fn default() -> (r: LaserStore)
        ensures
            r.stroke_paths@ == Seq::<PenPath>::empty(),
            r.paths_view() == Seq::<Seq<Element>>::empty(),
            r.stroke_update_time == 0,
            r.wf(),
    {
        let r = LaserStore { stroke_paths: Vec::new(), stroke_update_time: 0 };
        proof {
            assert(r.paths_view() =~= Seq::<Seq<Element>>::empty());
        }
        r
    }
}

impl LaserStore {
    /// The stored paths, each viewed as its sequence of samples.
    pub open spec fn paths_view(self) -> Seq<Seq<Element>> {
        self.stroke_paths@.map_values(|p: PenPath| p@)
    }

    /// Every sample of every stored path is an in-range coordinate.
    pub open spec fn wf(self) -> bool {
        forall|i: int|
            0 <= i < self.stroke_paths@.len() ==> (#[trigger] self.stroke_paths@[i]).wf()
    }

    /// Milliseconds since the last update. A clock reading older than the
    /// last update counts as no elapsed time.
    pub open spec fn elapsed_ms(self, now: u64) -> int {
        if now >= self.stroke_update_time {
            now - self.stroke_update_time
        } else {
            0
        }
    }

    /// The store is faded once the full fade duration has elapsed.
    pub open spec fn spec_is_faded(self, now: u64) -> bool {
        self.elapsed_ms(now) >= FULL_FADE_DURATION
    }

    /// What `new_stroke` leaves behind: the epoch is restarted when the old
    /// one had fully faded, otherwise the new path joins the old ones; either
    /// way the fade timer is reset.
    pub open spec fn new_stroke_post(pre: LaserStore, post: LaserStore, element: Element, now: u64) -> bool {
        &&& post.stroke_update_time == now
        &&& (if pre.spec_is_faded(now) {
            post.paths_view() == seq![seq![element]]
        } else {
            post.paths_view() == pre.paths_view().push(seq![element])
        })
    }

    /// What `update` with emitted segments `segs` leaves behind: the fade
    /// timer is always reset; the segments extend the last path; an empty
    /// store keeps its (absent) content.
    pub open spec fn update_post(pre: LaserStore, post: LaserStore, segs: Seq<Segment>, now: u64) -> bool {
        &&& post.stroke_update_time == now
        &&& (if pre.paths_view().len() == 0 {
            post.stroke_paths@ == pre.stroke_paths@
        } else {
            post.paths_view() == pre.paths_view().update(
                pre.paths_view().len() - 1,
                pre.paths_view().last() + segment_ends(segs),
            )
        })
    }

    /// Begin a new stroke at `element`. If the previous epoch has fully
    /// faded, all of its paths are discarded first.
    pub fn new_stroke(&mut self, element: Element, now: u64)
        ensures
            LaserStore::new_stroke_post(*old(self), *final(self), element, now),
            old(self).wf() && element.wf() ==> final(self).wf(),
    {
        if self.is_faded(now) {
            self.stroke_paths.clear();
        }
        self.stroke_paths.push(PenPath::new(element));
        self.stroke_update_time = now;
        proof {
            if old(self).spec_is_faded(now) {
                assert(self.paths_view() =~= seq![seq![element]]);
            } else {
                assert(self.paths_view() =~= old(self).paths_view().push(seq![element]));
            }
        }
    }

    /// Feed one builder progress report into the store. Emitted segments are
    /// appended to the most recent path; even a report with no segments
    /// refreshes the fade timer.
    pub fn update(&mut self, progress: BuilderProgress, now: u64)
        ensures
            LaserStore::update_post(*old(self), *final(self), progress_segments(progress), now),
            progress is InProgress ==> final(self).stroke_paths@ == old(self).stroke_paths@,
            old(self).wf() && (forall|i: int|
                0 <= i < progress_segments(progress).len() ==> (#[trigger] progress_segments(
                    progress,
                )[i]).end.wf()) ==> final(self).wf(),
    {
        let ghost pre = *self;
        if self.stroke_paths.len() > 0 {
            match &progress {
                BuilderProgress::InProgress => {},
                BuilderProgress::EmitContinue(segs) | BuilderProgress::Finished(segs) => {
                    let mut last = self.stroke_paths.pop().unwrap();
                    last.extend(segs);
                    self.stroke_paths.push(last);
                    proof {
                        let n = pre.stroke_paths@.len() as int;
                        assert(self.stroke_paths@ =~= pre.stroke_paths@.update(
                            n - 1,
                            self.stroke_paths@[n - 1],
                        ));
                    }
                },
            }
        }
        self.stroke_update_time = now;
        proof {
            if pre.paths_view().len() == 0 {
                assert(self.stroke_paths@ =~= pre.stroke_paths@);
            } else {
                assert(self.paths_view() =~= pre.paths_view().update(
                    pre.paths_view().len() - 1,
                    pre.paths_view().last() + segment_ends(progress_segments(progress)),
                ));
            }
            if progress is InProgress {
                assert(self.stroke_paths@ =~= pre.stroke_paths@);
            }
        }
    }

    /// Whether the full fade duration has elapsed since the last update.
    pub fn is_faded(&self, now: u64) -> (r: bool)
        ensures
            r == self.spec_is_faded(now),
    {
        if now >= self.stroke_update_time {
            now - self.stroke_update_time >= FULL_FADE_DURATION
        } else {
            false
        }
    }

    /// The alpha value the strokes are drawn with at time `now`: fully opaque
    /// right after an update, linearly interpolated (to the nearest step)
    /// down to fully transparent once the fade duration has elapsed.
    pub open spec fn spec_fade_opacity(self, now: u64) -> int {
        if self.elapsed_ms(now) >= FULL_FADE_DURATION {
            0
        } else {
            ((FULL_FADE_DURATION - self.elapsed_ms(now)) * OPACITY_MAX + FULL_FADE_DURATION / 2)
                / FULL_FADE_DURATION as int
        }
    }

    /// The alpha value in `[0, 255]` that the fading strokes are drawn with.
    pub fn fade_opacity(&self, now: u64) -> (r: u8)
        ensures
            r == self.spec_fade_opacity(now),
    {
        let t = self.stroke_update_time;
        let elapsed: u64 = if now >= t {
            now - t
        } else {
            0
        };
        if elapsed >= FULL_FADE_DURATION {
            0
        } else {
            let v = ((FULL_FADE_DURATION - elapsed) * OPACITY_MAX + FULL_FADE_DURATION / 2)
                / FULL_FADE_DURATION;
            proof {
                vstd::arithmetic::div_mod::lemma_div_is_ordered(
                    ((FULL_FADE_DURATION - elapsed) * OPACITY_MAX + FULL_FADE_DURATION / 2) as int,
                    (FULL_FADE_DURATION * OPACITY_MAX + FULL_FADE_DURATION / 2) as int,
                    FULL_FADE_DURATION as int,
                );
            }
            v as u8
        }
    }

    /// For any duration `d` since the last update, the store is faded exactly
    /// when `d` has reached the full fade duration.
    pub proof fn lemma_fade_threshold(store: LaserStore, d: u64)
        requires
            store.stroke_update_time + d <= u64::MAX,
        ensures
            store.spec_is_faded((store.stroke_update_time + d) as u64) <==> d
                >= FULL_FADE_DURATION,
    {
    }

    /// Starting a stroke on an unfaded store keeps every prior path in place;
    /// starting one on a fully faded store leaves exactly the new path.
    pub proof fn lemma_new_stroke_epoch(
        pre: LaserStore,
        post: LaserStore,
        element: Element,
        now: u64,
    )
        requires
            LaserStore::new_stroke_post(pre, post, element, now),
        ensures
            !pre.spec_is_faded(now) ==> post.paths_view().len() == pre.paths_view().len() + 1
                && forall|i: int|
                0 <= i < pre.paths_view().len() ==> post.paths_view()[i] == pre.paths_view()[i],
            pre.spec_is_faded(now) ==> post.paths_view() == seq![seq![element]],
    {
    }

    /// An update that carries no segments still refreshes the fade timer and
    /// leaves the stored paths untouched.
    pub proof fn lemma_update_in_progress_keeps_content(
        pre: LaserStore,
        post: LaserStore,
        now: u64,
    )
        requires
            LaserStore::update_post(pre, post, Seq::<Segment>::empty(), now),
        ensures
            post.stroke_update_time == now,
            post.paths_view() == pre.paths_view(),
    {
        if pre.paths_view().len() > 0 {
            assert(segment_ends(Seq::<Segment>::empty()) =~= Seq::<Element>::empty());
            assert(pre.paths_view().last() + segment_ends(Seq::<Segment>::empty())
                =~= pre.paths_view().last());
            assert(post.paths_view() =~= pre.paths_view());
        }
    }

} // impl LaserStore

} // verus!
