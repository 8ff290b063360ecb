//! The stroke store: the drawn entities of the document, the ephemeral laser
//! strokes, the persistence checkpoints, and the pending render requests.

use crate::geometry::Vec2;
use crate::laser::LaserStore;
use crate::num::{clamp_spec, STROKE_POS_LIMIT, TRANSLATE_LIMIT};
use crate::widget_flags::WidgetFlags;
use vstd::prelude::*;

verus! {

/// The identifier of one stroke in the store.
#[derive(Clone, Copy, Debug, PartialEq, Eq, Structural)]
pub struct StrokeKey {
    pub idx: usize,
}

/// One stored stroke: its anchor position, the position of its cached raster
/// image, and whether its geometry needs recomputing after a move.
#[derive(Clone, Copy, Debug, PartialEq, Eq, Structural)]
pub struct Stroke {
    /// The anchor position of the stroke, in milli-units.
    pub pos: Vec2,
    /// The position of the stroke's cached raster image, in milli-units.
    pub image_pos: Vec2,
    /// The hitbox geometry is stale (the stroke moved since it was computed).
    pub geometry_dirty: bool,
}

impl Stroke {
    /// Both positions lie within the stored-position range.
    pub open spec fn wf(self) -> bool {
        self.pos.in_range(STROKE_POS_LIMIT) && self.image_pos.in_range(STROKE_POS_LIMIT)
    }
}

/// Whether a stroke is captured by a bounds query between `y_start` and
/// `y_end` with the optional per-axis page limits.
pub open spec fn captured_spec(
    s: Stroke,
    y_start: int,
    y_end: int,
    limit_x: (i64, i64),
    limit_vertical_borders: bool,
    limit_horizontal_borders: bool,
) -> bool {
    &&& s.pos.y >= y_start
    &&& (limit_horizontal_borders ==> s.pos.y <= y_end)
    &&& (limit_vertical_borders ==> limit_x.0 <= s.pos.x <= limit_x.1)
}

/// Whether `keys` contains the index `i`.
pub open spec fn keys_contain(keys: Seq<StrokeKey>, i: int) -> bool {
    exists|j: int| 0 <= j < keys.len() && keys[j].idx == i
}

/// Appending a key extends the contained index set by exactly that key's
/// index.
pub proof fn lemma_keys_contain_push(keys: Seq<StrokeKey>, k: StrokeKey)
    ensures
        forall|i: int|
            #[trigger] keys_contain(keys.push(k), i) <==> keys_contain(keys, i) || i == k.idx,
{
    assert forall|i: int|
        #[trigger] keys_contain(keys.push(k), i) <==> (keys_contain(keys, i) || i
            == k.idx) by {
        if keys_contain(keys, i) {
            let t = choose|t: int| 0 <= t < keys.len() && keys[t].idx == i;
            assert(keys.push(k)[t].idx == i);
        }
        if i == k.idx {
            assert(keys.push(k)[keys.len() as int].idx == i);
        }
        if keys_contain(keys.push(k), i) {
            let t = choose|t: int| 0 <= t < keys.push(k).len() && keys.push(k)[t].idx == i;
            if t < keys.len() {
                assert(keys[t].idx == i);
            }
        }
    }
}

/// A stroke moved by `offset` (clamped into the stored-position range), with
/// its geometry marked stale.
pub open spec fn moved_stroke_spec(s: Stroke, offset: Vec2) -> Stroke {
    Stroke {
        pos: Vec2 {
            x: clamp_spec(
                s.pos.x + offset.x,
                -STROKE_POS_LIMIT as int,
                STROKE_POS_LIMIT as int,
            ) as i64,
            y: clamp_spec(
                s.pos.y + offset.y,
                -STROKE_POS_LIMIT as int,
                STROKE_POS_LIMIT as int,
            ) as i64,
        },
        image_pos: s.image_pos,
        geometry_dirty: true,
    }
}

/// A stroke whose cached image moved by `offset` (clamped).
pub open spec fn moved_image_spec(s: Stroke, offset: Vec2) -> Stroke {
    Stroke {
        pos: s.pos,
        image_pos: Vec2 {
            x: clamp_spec(
                s.image_pos.x + offset.x,
                -STROKE_POS_LIMIT as int,
                STROKE_POS_LIMIT as int,
            ) as i64,
            y: clamp_spec(
                s.image_pos.y + offset.y,
                -STROKE_POS_LIMIT as int,
                STROKE_POS_LIMIT as int,
            ) as i64,
        },
        geometry_dirty: s.geometry_dirty,
    }
}

/// The strokes after those under `keys` moved by `offset`.
pub open spec fn translate_spec(strokes: Seq<Stroke>, keys: Seq<StrokeKey>, offset: Vec2) -> Seq<
    Stroke,
> {
    Seq::new(
        strokes.len(),
        |i: int|
            if keys_contain(keys, i) {
                moved_stroke_spec(strokes[i], offset)
            } else {
                strokes[i]
            },
    )
}

/// The strokes after the cached images of those under `keys` moved by
/// `offset`.
pub open spec fn translate_images_spec(
    strokes: Seq<Stroke>,
    keys: Seq<StrokeKey>,
    offset: Vec2,
) -> Seq<Stroke> {
    Seq::new(
        strokes.len(),
        |i: int|
            if keys_contain(keys, i) {
                moved_image_spec(strokes[i], offset)
            } else {
                strokes[i]
            },
    )
}

/// The strokes after the geometry of those under `keys` was recomputed.
pub open spec fn fresh_geometry_spec(strokes: Seq<Stroke>, keys: Seq<StrokeKey>) -> Seq<Stroke> {
    Seq::new(
        strokes.len(),
        |i: int|
            if keys_contain(keys, i) {
                Stroke { geometry_dirty: false, ..strokes[i] }
            } else {
                strokes[i]
            },
    )
}

/// The keys of the strokes among the first `n` that the bounds query
/// captures, in increasing index order.
pub open spec fn keys_between_upto(
    strokes: Seq<Stroke>,
    n: int,
    y_start: int,
    y_end: int,
    limit_x: (i64, i64),
    limit_vertical_borders: bool,
    limit_horizontal_borders: bool,
) -> Seq<StrokeKey>
    decreases n,
{
    if n <= 0 {
        Seq::empty()
    } else {
        let prev = keys_between_upto(
            strokes,
            n - 1,
            y_start,
            y_end,
            limit_x,
            limit_vertical_borders,
            limit_horizontal_borders,
        );
        if captured_spec(
            strokes[n - 1],
            y_start,
            y_end,
            limit_x,
            limit_vertical_borders,
            limit_horizontal_borders,
        ) {
            prev.push(StrokeKey { idx: (n - 1) as usize })
        } else {
            prev
        }
    }
}

/// All key indices refer into a store of `n` strokes and are pairwise
/// distinct.
pub open spec fn keys_wf(keys: Seq<StrokeKey>, n: int) -> bool {
    &&& forall|j: int| 0 <= j < keys.len() ==> (#[trigger] keys[j]).idx < n
    &&& forall|a: int, b: int|
        0 <= a < b < keys.len() ==> (#[trigger] keys[a]).idx != (#[trigger] keys[b]).idx
}

/// The stroke store.
#[derive(Clone, Debug)]
pub struct StrokeStore {
    /// The stored strokes; a `StrokeKey` is an index into this order.
    pub strokes: Vec<Stroke>,
    /// The ephemeral laser strokes.
    pub laser_store: LaserStore,
    /// The persistence checkpoints recorded so far, as timestamps.
    pub history: Vec<u64>,
    /// A threaded re-render of the viewport was dispatched and not yet drawn.
    pub rerender_requested: bool,
}

impl StrokeStore {
    /// Every stored stroke is in range.
    pub open spec fn wf(self) -> bool {
        forall|i: int| 0 <= i < self.strokes@.len() ==> (#[trigger] self.strokes@[i]).wf()
    }

    /// An empty store.
    pub fn new() -> (r: StrokeStore)
        ensures
            r.strokes@ == Seq::<Stroke>::empty(),
            r.laser_store.stroke_paths@ == Seq::<crate::penpath::PenPath>::empty(),
            r.laser_store.paths_view() == Seq::<Seq<crate::events::Element>>::empty(),
            r.laser_store.stroke_update_time == 0,
            r.history@ == Seq::<u64>::empty(),
            !r.rerender_requested,
            r.wf(),
            r.laser_store.wf(),
    {
        StrokeStore {
            strokes: Vec::new(),
            laser_store: LaserStore::default(),
            history: Vec::new(),
            rerender_requested: false,
        }
    }

    /// The keys of all strokes captured between `y_start` and `y_end`,
    /// honoring the page-limit flags, in increasing index order.
    pub fn keys_between(
        &self,
        y_start: i64,
        y_end: i64,
        limit_x: (i64, i64),
        limit_movement_vertical_borders: bool,
        limit_movement_horizontal_borders: bool,
    ) -> (r: Vec<StrokeKey>)
        ensures
            r@ == keys_between_upto(
                self.strokes@,
                self.strokes@.len() as int,
                y_start as int,
                y_end as int,
                limit_x,
                limit_movement_vertical_borders,
                limit_movement_horizontal_borders,
            ),
            keys_wf(r@, self.strokes@.len() as int),
            forall|j: int|
                0 <= j < r@.len() ==> captured_spec(
                    self.strokes@[(#[trigger] r@[j]).idx as int],
                    y_start as int,
                    y_end as int,
                    limit_x,
                    limit_movement_vertical_borders,
                    limit_movement_horizontal_borders,
                ),
            forall|i: int|
                0 <= i < self.strokes@.len() && captured_spec(
                    #[trigger] self.strokes@[i],
                    y_start as int,
                    y_end as int,
                    limit_x,
                    limit_movement_vertical_borders,
                    limit_movement_horizontal_borders,
                ) ==> keys_contain(r@, i),
    {
        let mut r: Vec<StrokeKey> = Vec::new();
        let mut i: usize = 0;
        while i < self.strokes.len()
            invariant
                i <= self.strokes@.len(),
                r@ == keys_between_upto(
                    self.strokes@,
                    i as int,
                    y_start as int,
                    y_end as int,
                    limit_x,
                    limit_movement_vertical_borders,
                    limit_movement_horizontal_borders,
                ),
                forall|j: int| 0 <= j < r@.len() ==> (#[trigger] r@[j]).idx < i,
                forall|a: int, b: int|
                    0 <= a < b < r@.len() ==> (#[trigger] r@[a]).idx < (#[trigger] r@[b]).idx,
                forall|j: int|
                    0 <= j < r@.len() ==> captured_spec(
                        self.strokes@[(#[trigger] r@[j]).idx as int],
                        y_start as int,
                        y_end as int,
                        limit_x,
                        limit_movement_vertical_borders,
                        limit_movement_horizontal_borders,
                    ),
                forall|k: int|
                    0 <= k < i && captured_spec(
                        #[trigger] self.strokes@[k],
                        y_start as int,
                        y_end as int,
                        limit_x,
                        limit_movement_vertical_borders,
                        limit_movement_horizontal_borders,
                    ) ==> keys_contain(r@, k),
            decreases self.strokes@.len() - i,
        {
            let s = self.strokes[i];
            let captured = s.pos.y >= y_start && (!limit_movement_horizontal_borders || s.pos.y
                <= y_end) && (!limit_movement_vertical_borders || (limit_x.0 <= s.pos.x && s.pos.x
                <= limit_x.1));
            if captured {
                let ghost r_old = r@;
                r.push(StrokeKey { idx: i });
                proof {
                    lemma_keys_contain_push(r_old, StrokeKey { idx: i });
                    assert(r@[r@.len() - 1].idx == i);
                    assert(keys_contain(r@, i as int));
                }
            }
            i = i + 1;
        }
        proof {
            assert(forall|a: int, b: int|
                0 <= a < b < r@.len() ==> (#[trigger] r@[a]).idx != (#[trigger] r@[b]).idx);
        }
        r
    }

    /// Translate the strokes under `keys` by `offset`, clamping into the
    /// stored-position range. The cached stroke images stay where they are,
    /// and the moved strokes are marked as needing new geometry.
    pub fn translate_strokes(&mut self, keys: &Vec<StrokeKey>, offset: Vec2)
        requires
            keys_wf(keys@, old(self).strokes@.len() as int),
            offset.in_range(TRANSLATE_LIMIT),
            old(self).wf(),
        ensures
            final(self).strokes@ == translate_spec(old(self).strokes@, keys@, offset),
            final(self).laser_store == old(self).laser_store,
            final(self).history == old(self).history,
            final(self).rerender_requested == old(self).rerender_requested,
            final(self).wf(),
    {
        let ghost pre = *self;
        let mut j: usize = 0;
        while j < keys.len()
            invariant
                keys_wf(keys@, pre.strokes@.len() as int),
                offset.in_range(TRANSLATE_LIMIT),
                pre.wf(),
                j <= keys@.len(),
                self.strokes@.len() == pre.strokes@.len(),
                forall|i: int|
                    0 <= i < pre.strokes@.len() && keys_contain(keys@.take(j as int), i)
                        ==> (#[trigger] self.strokes@[i]) == (Stroke {
                        pos: Vec2 {
                            x: clamp_spec(
                                pre.strokes@[i].pos.x + offset.x,
                                -STROKE_POS_LIMIT as int,
                                STROKE_POS_LIMIT as int,
                            ) as i64,
                            y: clamp_spec(
                                pre.strokes@[i].pos.y + offset.y,
                                -STROKE_POS_LIMIT as int,
                                STROKE_POS_LIMIT as int,
                            ) as i64,
                        },
                        image_pos: pre.strokes@[i].image_pos,
                        geometry_dirty: true,
                    }),
                forall|i: int|
                    0 <= i < pre.strokes@.len() && !keys_contain(keys@.take(j as int), i)
                        ==> (#[trigger] self.strokes@[i]) == pre.strokes@[i],
                self.laser_store == pre.laser_store,
                self.history == pre.history,
                self.rerender_requested == pre.rerender_requested,
            decreases keys@.len() - j,
        {
            let idx = keys[j].idx;
            assert(!keys_contain(keys@.take(j as int), idx as int));
            let s = self.strokes[idx];
            let moved = Stroke {
                pos: Vec2 {
                    x: crate::num::clamp_i64(s.pos.x + offset.x, -STROKE_POS_LIMIT, STROKE_POS_LIMIT),
                    y: crate::num::clamp_i64(s.pos.y + offset.y, -STROKE_POS_LIMIT, STROKE_POS_LIMIT),
                },
                image_pos: s.image_pos,
                geometry_dirty: true,
            };
            assert(moved == moved_stroke_spec(pre.strokes@[idx as int], offset));
            self.strokes[idx] = moved;
            proof {
                assert(keys@.take(j + 1) =~= keys@.take(j as int).push(keys@[j as int]));
                lemma_keys_contain_push(keys@.take(j as int), keys@[j as int]);
                assert(forall|i: int|
                    keys_contain(keys@.take(j + 1), i) <==> keys_contain(keys@.take(j as int), i)
                        || i == idx as int);
            }
            j = j + 1;
        }
        proof {
            assert(keys@.take(keys@.len() as int) =~= keys@);
            assert(self.strokes@ =~= translate_spec(pre.strokes@, keys@, offset));
        }
    }

    /// Translate the cached raster images of the strokes under `keys` by
    /// `offset`, clamping into the stored-position range.
    pub fn translate_strokes_images(&mut self, keys: &Vec<StrokeKey>, offset: Vec2)
        requires
            keys_wf(keys@, old(self).strokes@.len() as int),
            offset.in_range(TRANSLATE_LIMIT),
            old(self).wf(),
        ensures
            final(self).strokes@ == translate_images_spec(old(self).strokes@, keys@, offset),
            final(self).laser_store == old(self).laser_store,
            final(self).history == old(self).history,
            final(self).rerender_requested == old(self).rerender_requested,
            final(self).wf(),
    {
        let ghost pre = *self;
        let mut j: usize = 0;
        while j < keys.len()
            invariant
                keys_wf(keys@, pre.strokes@.len() as int),
                offset.in_range(TRANSLATE_LIMIT),
                pre.wf(),
                j <= keys@.len(),
                self.strokes@.len() == pre.strokes@.len(),
                forall|i: int|
                    0 <= i < pre.strokes@.len() && keys_contain(keys@.take(j as int), i)
                        ==> (#[trigger] self.strokes@[i]) == (Stroke {
                        pos: pre.strokes@[i].pos,
                        image_pos: Vec2 {
                            x: clamp_spec(
                                pre.strokes@[i].image_pos.x + offset.x,
                                -STROKE_POS_LIMIT as int,
                                STROKE_POS_LIMIT as int,
                            ) as i64,
                            y: clamp_spec(
                                pre.strokes@[i].image_pos.y + offset.y,
                                -STROKE_POS_LIMIT as int,
                                STROKE_POS_LIMIT as int,
                            ) as i64,
                        },
                        geometry_dirty: pre.strokes@[i].geometry_dirty,
                    }),
                forall|i: int|
                    0 <= i < pre.strokes@.len() && !keys_contain(keys@.take(j as int), i)
                        ==> (#[trigger] self.strokes@[i]) == pre.strokes@[i],
                self.laser_store == pre.laser_store,
                self.history == pre.history,
                self.rerender_requested == pre.rerender_requested,
            decreases keys@.len() - j,
        {
            let idx = keys[j].idx;
            assert(!keys_contain(keys@.take(j as int), idx as int));
            let s = self.strokes[idx];
            let moved = Stroke {
                pos: s.pos,
                image_pos: Vec2 {
                    x: crate::num::clamp_i64(
                        s.image_pos.x + offset.x,
                        -STROKE_POS_LIMIT,
                        STROKE_POS_LIMIT,
                    ),
                    y: crate::num::clamp_i64(
                        s.image_pos.y + offset.y,
                        -STROKE_POS_LIMIT,
                        STROKE_POS_LIMIT,
                    ),
                },
                geometry_dirty: s.geometry_dirty,
            };
            self.strokes[idx] = moved;
            proof {
                assert(keys@.take(j + 1) =~= keys@.take(j as int).push(keys@[j as int]));
                lemma_keys_contain_push(keys@.take(j as int), keys@[j as int]);
                assert(forall|i: int|
                    keys_contain(keys@.take(j + 1), i) <==> keys_contain(keys@.take(j as int), i)
                        || i == idx as int);
            }
            j = j + 1;
        }
        proof {
            assert(keys@.take(keys@.len() as int) =~= keys@);
            assert(self.strokes@ =~= translate_images_spec(pre.strokes@, keys@, offset));
        }
    }

    /// Recompute the geometry of the strokes under `keys`: afterwards none of
    /// them is marked dirty any more.
    pub fn update_geometry_for_strokes(&mut self, keys: &Vec<StrokeKey>)
        requires
            keys_wf(keys@, old(self).strokes@.len() as int),
            old(self).wf(),
        ensures
            final(self).strokes@ == fresh_geometry_spec(old(self).strokes@, keys@),
            final(self).laser_store == old(self).laser_store,
            final(self).history == old(self).history,
            final(self).rerender_requested == old(self).rerender_requested,
            final(self).wf(),
    {
        let ghost pre = *self;
        let mut j: usize = 0;
        while j < keys.len()
            invariant
                keys_wf(keys@, pre.strokes@.len() as int),
                pre.wf(),
                j <= keys@.len(),
                self.strokes@.len() == pre.strokes@.len(),
                forall|i: int|
                    0 <= i < pre.strokes@.len() && keys_contain(keys@.take(j as int), i)
                        ==> (#[trigger] self.strokes@[i]) == (Stroke {
                        geometry_dirty: false,
                        ..pre.strokes@[i]
                    }),
                forall|i: int|
                    0 <= i < pre.strokes@.len() && !keys_contain(keys@.take(j as int), i)
                        ==> (#[trigger] self.strokes@[i]) == pre.strokes@[i],
                self.laser_store == pre.laser_store,
                self.history == pre.history,
                self.rerender_requested == pre.rerender_requested,
            decreases keys@.len() - j,
        {
            let idx = keys[j].idx;
            assert(!keys_contain(keys@.take(j as int), idx as int));
            let s = self.strokes[idx];
            let fresh = Stroke { pos: s.pos, image_pos: s.image_pos, geometry_dirty: false };
            self.strokes[idx] = fresh;
            proof {
                assert(keys@.take(j + 1) =~= keys@.take(j as int).push(keys@[j as int]));
                lemma_keys_contain_push(keys@.take(j as int), keys@[j as int]);
                assert(forall|i: int|
                    keys_contain(keys@.take(j + 1), i) <==> keys_contain(keys@.take(j as int), i)
                        || i == idx as int);
            }
            j = j + 1;
        }
        proof {
            assert(keys@.take(keys@.len() as int) =~= keys@);
            assert(self.strokes@ =~= fresh_geometry_spec(pre.strokes@, keys@));
        }
    }

    /// Record a persistence checkpoint (an undo snapshot) timestamped `now`.
    pub fn record(&mut self, now: u64) -> (r: WidgetFlags)
        ensures
            final(self).history@ == old(self).history@.push(now),
            final(self).strokes == old(self).strokes,
            final(self).laser_store == old(self).laser_store,
            final(self).rerender_requested == old(self).rerender_requested,
            r == (WidgetFlags { refresh_ui: true, ..WidgetFlags::empty_spec() }),
    {
        self.history.push(now);
        WidgetFlags { refresh_ui: true, ..WidgetFlags::empty() }
    }

    /// Dispatch a threaded re-render of the viewport. The render job runs in
    /// the background; here only the request is recorded.
    pub fn regenerate_rendering_in_viewport_threaded(&mut self)
        ensures
            final(self).rerender_requested,
            final(self).strokes == old(self).strokes,
            final(self).laser_store == old(self).laser_store,
            final(self).history == old(self).history,
    {
        self.rerender_requested = true;
    }

    /// The largest stroke anchor height, at least zero: the watermark the
    /// document must expand to.
    pub open spec fn max_y_spec(strokes: Seq<Stroke>) -> int
        decreases strokes.len(),
    {
        if strokes.len() == 0 {
            0
        } else {
            let rest = StrokeStore::max_y_spec(strokes.drop_last());
            if strokes.last().pos.y > rest {
                strokes.last().pos.y as int
            } else {
                rest
            }
        }
    }

    /// The largest stroke anchor height, at least zero.
    pub fn max_stroke_y(&self) -> (r: i64)
        requires
            self.wf(),
        ensures
            r == StrokeStore::max_y_spec(self.strokes@),
            0 <= r <= STROKE_POS_LIMIT,
    {
        let mut r: i64 = 0;
        let mut i: usize = 0;
        while i < self.strokes.len()
            invariant
                self.wf(),
                i <= self.strokes@.len(),
                r == StrokeStore::max_y_spec(self.strokes@.take(i as int)),
                0 <= r <= STROKE_POS_LIMIT,
            decreases self.strokes@.len() - i,
        {
            let y = self.strokes[i].pos.y;
            proof {
                assert(self.strokes@.take(i + 1).drop_last() =~= self.strokes@.take(i as int));
                assert(self.strokes@.take(i + 1).last() == self.strokes@[i as int]);
            }
            if y > r {
                r = y;
            }
            i = i + 1;
        }
        proof {
            assert(self.strokes@.take(self.strokes@.len() as int) =~= self.strokes@);
        }
        r
    }
}

} // verus!
