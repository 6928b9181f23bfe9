//! One painter order across screen rectangles, images and labels.
//!
//! Each kind arrives sorted by its visual order (layer, then depth, then the
//! stable entity bits). The plan merges the three lists into one total order
//! and groups consecutive rectangles into runs, so that every image and label
//! sits between exactly the rectangles it must cover and be covered by.

use vstd::prelude::*;

verus! {

/// The painter order of one screen source: its layer, its draw-order depth
/// as a totally ordered integer key, and its stable entity bits.
#[derive(Debug, Clone, Copy, PartialEq, Eq, Hash, Structural)]
pub struct VisualOrder {
    /// Layer order; lower layers are drawn first.
    pub layer: i32,
    /// Depth key; lower keys are drawn first within a layer.
    pub depth: i64,
    /// Stable entity bits; the final tie break.
    pub entity: u64,
}

/// The depth key of an `f32` depth given by its bits: the IEEE-754 total
/// order read as a signed magnitude, with both zeros equal.
pub open spec fn spec_depth_key(bits: u32) -> int {
    if bits >= 0x8000_0000 {
        -(bits - 0x8000_0000)
    } else {
        bits as int
    }
}

/// Computes the depth key of an `f32` depth from its bits.
pub fn depth_key(bits: u32) -> (key: i64)
    ensures
        key == spec_depth_key(bits),
{
    if bits >= 0x8000_0000 {
        -((bits - 0x8000_0000) as i64)
    } else {
        bits as i64
    }
}

impl VisualOrder {
    /// Builds the painter order of a source from its layer, the bits of its
    /// `f32` depth and its stable entity bits.
    pub fn new(layer: i32, depth_bits: u32, entity: u64) -> (order: Self)
        ensures
            order.layer == layer,
            order.depth == spec_depth_key(depth_bits),
            order.entity == entity,
    {
        VisualOrder { layer, depth: depth_key(depth_bits), entity }
    }
}

/// `a` is drawn no later than `b`: lexicographic on layer, depth, entity.
pub open spec fn order_le(a: VisualOrder, b: VisualOrder) -> bool {
    ||| a.layer < b.layer
    ||| a.layer == b.layer && a.depth < b.depth
    ||| a.layer == b.layer && a.depth == b.depth && a.entity <= b.entity
}

/// Whether `a` is drawn no later than `b`.
pub fn visual_order_le(a: &VisualOrder, b: &VisualOrder) -> (le: bool)
    ensures
        le == order_le(*a, *b),
{
    if a.layer != b.layer {
        a.layer < b.layer
    } else if a.depth != b.depth {
        a.depth < b.depth
    } else {
        a.entity <= b.entity
    }
}

/// One ordered screen draw, after all world content.
#[derive(Debug, Clone, Copy, PartialEq, Eq, Structural)]
pub enum ScreenDraw {
    /// One contiguous subsequence of sorted screen rectangles.
    Rectangles {
        /// Snapshot-local rectangle-run index.
        run: usize,
    },
    /// One registered image placed between rectangle runs or other images.
    Image {
        /// Index into the snapshot's resolved image list.
        index: usize,
    },
    /// One prepared screen label.
    Text {
        /// Index into the snapshot's resolved text list.
        index: usize,
    },
}

/// The sorted rectangles `start..end` drawn as one scene.
#[derive(Debug, Clone, Copy, PartialEq, Eq, Structural)]
pub struct RectangleRun {
    /// First rectangle of the run.
    pub start: usize,
    /// One past the last rectangle of the run.
    pub end: usize,
}

/// A draw plan could not be stored.
#[derive(Debug, Clone, Copy, PartialEq, Eq, Structural)]
pub enum DrawPlanError {
    /// Room for one more plan entry could not be reserved.
    AllocationFailed {
        /// Bytes of the entry that could not be reserved.
        requested_bytes: usize,
    },
}

/// One source in the merged painter order.
#[derive(Debug, Clone, Copy, PartialEq, Eq, Structural)]
pub enum MergedItem {
    /// The rectangle at `index` of the sorted rectangles.
    Rectangle { index: usize },
    /// The image at `index` of the sorted images.
    Image { index: usize },
    /// The label at `index` of the sorted labels.
    Text { index: usize },
}

/// The painter order of a merged item.
pub open spec fn item_key(
    rects: Seq<VisualOrder>,
    images: Seq<VisualOrder>,
    texts: Seq<VisualOrder>,
    item: MergedItem,
) -> VisualOrder {
    match item {
        MergedItem::Rectangle { index } => rects[index as int],
        MergedItem::Image { index } => images[index as int],
        MergedItem::Text { index } => texts[index as int],
    }
}

/// The next image or label: the image unless a label precedes it strictly.
pub open spec fn next_non_rectangle(
    images: Seq<VisualOrder>,
    texts: Seq<VisualOrder>,
    i: int,
    t: int,
) -> Option<MergedItem> {
    if i < images.len() && (t >= texts.len() || order_le(images[i], texts[t])) {
        Some(MergedItem::Image { index: i as usize })
    } else if t < texts.len() {
        Some(MergedItem::Text { index: t as usize })
    } else {
        None
    }
}

/// The next source: the rectangle unless another source precedes it strictly.
pub open spec fn next_item(
    rects: Seq<VisualOrder>,
    images: Seq<VisualOrder>,
    texts: Seq<VisualOrder>,
    r: int,
    i: int,
    t: int,
) -> Option<MergedItem> {
    let other = next_non_rectangle(images, texts, i, t);
    if r < rects.len() && (other is None || order_le(
        rects[r],
        item_key(rects, images, texts, other->0),
    )) {
        Some(MergedItem::Rectangle { index: r as usize })
    } else {
        other
    }
}

/// The painter order of all sources from rectangle `r`, image `i` and label
/// `t` onward.
pub open spec fn merged_from(
    rects: Seq<VisualOrder>,
    images: Seq<VisualOrder>,
    texts: Seq<VisualOrder>,
    r: int,
    i: int,
    t: int,
) -> Seq<MergedItem>
    decreases (rects.len() - r) + (images.len() - i) + (texts.len() - t),
{
    if 0 <= r <= rects.len() && 0 <= i <= images.len() && 0 <= t <= texts.len() {
        match next_item(rects, images, texts, r, i, t) {
            Some(MergedItem::Rectangle { .. }) => seq![
                MergedItem::Rectangle { index: r as usize },
            ] + merged_from(rects, images, texts, r + 1, i, t),
            Some(MergedItem::Image { .. }) => seq![MergedItem::Image { index: i as usize }]
                + merged_from(rects, images, texts, r, i + 1, t),
            Some(MergedItem::Text { .. }) => seq![MergedItem::Text { index: t as usize }]
                + merged_from(rects, images, texts, r, i, t + 1),
            None => Seq::empty(),
        }
    } else {
        Seq::empty()
    }
}

/// The painter order of all sources.
pub open spec fn merged(
    rects: Seq<VisualOrder>,
    images: Seq<VisualOrder>,
    texts: Seq<VisualOrder>,
) -> Seq<MergedItem> {
    merged_from(rects, images, texts, 0, 0, 0)
}

/// Closes the pending rectangle run `start..end`, if it is not empty.
pub open spec fn flush_run(
    draws: Seq<ScreenDraw>,
    runs: Seq<RectangleRun>,
    start: int,
    end: int,
) -> (Seq<ScreenDraw>, Seq<RectangleRun>) {
    if start != end {
        (
            draws.push(ScreenDraw::Rectangles { run: runs.len() as usize }),
            runs.push(RectangleRun { start: start as usize, end: end as usize }),
        )
    } else {
        (draws, runs)
    }
}

/// Plan state after a prefix of the merged order: the draws and runs so far,
/// the start of the pending run, and the rectangles seen.
pub open spec fn plan_state(items: Seq<MergedItem>) -> (
    Seq<ScreenDraw>,
    Seq<RectangleRun>,
    int,
    int,
)
    decreases items.len(),
{
    if items.len() == 0 {
        (Seq::empty(), Seq::empty(), 0, 0)
    } else {
        let (draws, runs, start, seen) = plan_state(items.drop_last());
        match items.last() {
            MergedItem::Rectangle { .. } => (draws, runs, start, seen + 1),
            MergedItem::Image { index } => {
                let (draws, runs) = flush_run(draws, runs, start, seen);
                (draws.push(ScreenDraw::Image { index }), runs, seen, seen)
            },
            MergedItem::Text { index } => {
                let (draws, runs) = flush_run(draws, runs, start, seen);
                (draws.push(ScreenDraw::Text { index }), runs, seen, seen)
            },
        }
    }
}

/// The draw plan: with rectangles only, one draw of the whole rectangle
/// scene and no runs; otherwise the merged order with consecutive rectangles
/// grouped into runs.
pub open spec fn spec_plan(
    rects: Seq<VisualOrder>,
    images: Seq<VisualOrder>,
    texts: Seq<VisualOrder>,
) -> (Seq<ScreenDraw>, Seq<RectangleRun>) {
    if images.len() == 0 && texts.len() == 0 {
        if rects.len() == 0 {
            (Seq::empty(), Seq::empty())
        } else {
            (seq![ScreenDraw::Rectangles { run: 0 }], Seq::empty())
        }
    } else {
        let (draws, runs, start, seen) = plan_state(merged(rects, images, texts));
        flush_run(draws, runs, start, seen)
    }
}

/// Unfolds one step of the merged order.
proof fn lemma_merged_step(
    rects: Seq<VisualOrder>,
    images: Seq<VisualOrder>,
    texts: Seq<VisualOrder>,
    r: int,
    i: int,
    t: int,
)
    requires
        0 <= r <= rects.len(),
        0 <= i <= images.len(),
        0 <= t <= texts.len(),
    ensures
        next_item(rects, images, texts, r, i, t) is None ==> merged_from(
            rects,
            images,
            texts,
            r,
            i,
            t,
        ) == Seq::<MergedItem>::empty(),
        next_item(rects, images, texts, r, i, t) is None ==> r == rects.len() && i
            == images.len() && t == texts.len(),
        next_item(rects, images, texts, r, i, t) matches Some(MergedItem::Rectangle { .. })
            ==> r < rects.len() && merged_from(rects, images, texts, r, i, t) == seq![
            MergedItem::Rectangle { index: r as usize },
        ] + merged_from(rects, images, texts, r + 1, i, t),
        next_item(rects, images, texts, r, i, t) matches Some(MergedItem::Image { .. })
            ==> i < images.len() && merged_from(rects, images, texts, r, i, t)
            == seq![MergedItem::Image { index: i as usize }] + merged_from(
            rects,
            images,
            texts,
            r,
            i + 1,
            t,
        ),
        next_item(rects, images, texts, r, i, t) matches Some(MergedItem::Text { .. })
            ==> t < texts.len() && merged_from(rects, images, texts, r, i, t)
            == seq![MergedItem::Text { index: t as usize }] + merged_from(
            rects,
            images,
            texts,
            r,
            i,
            t + 1,
        ),
{
}

/// Extending a prefix by one item advances the plan state by that item.
proof fn lemma_plan_state_push(items: Seq<MergedItem>, item: MergedItem)
    ensures
        plan_state(items.push(item)) == ({
            let (draws, runs, start, seen) = plan_state(items);
            match item {
                MergedItem::Rectangle { .. } => (draws, runs, start, seen + 1),
                MergedItem::Image { index } => {
                    let (draws, runs) = flush_run(draws, runs, start, seen);
                    (draws.push(ScreenDraw::Image { index }), runs, seen, seen)
                },
                MergedItem::Text { index } => {
                    let (draws, runs) = flush_run(draws, runs, start, seen);
                    (draws.push(ScreenDraw::Text { index }), runs, seen, seen)
                },
            }
        }),
{
    assert(items.push(item).drop_last() =~= items);
}

/// Keys in nondecreasing painter order.
pub open spec fn sorted(keys: Seq<VisualOrder>) -> bool {
    forall|a: int, b: int| 0 <= a <= b < keys.len() ==> order_le(#[trigger] keys[a], #[trigger] keys[b])
}

/// The painter orders of merged items.
pub open spec fn merged_keys(
    rects: Seq<VisualOrder>,
    images: Seq<VisualOrder>,
    texts: Seq<VisualOrder>,
    items: Seq<MergedItem>,
) -> Seq<VisualOrder> {
    items.map_values(|item: MergedItem| item_key(rects, images, texts, item))
}

/// The item refers to a source at or after `r`, `i`, `t` of its own kind.
pub open spec fn item_in_range(
    rects: Seq<VisualOrder>,
    images: Seq<VisualOrder>,
    texts: Seq<VisualOrder>,
    r: int,
    i: int,
    t: int,
    item: MergedItem,
) -> bool {
    match item {
        MergedItem::Rectangle { index } => r <= index < rects.len(),
        MergedItem::Image { index } => i <= index < images.len(),
        MergedItem::Text { index } => t <= index < texts.len(),
    }
}

/// Every merged item from `r`, `i`, `t` onward refers to a remaining source.
proof fn lemma_merged_in_range(
    rects: Seq<VisualOrder>,
    images: Seq<VisualOrder>,
    texts: Seq<VisualOrder>,
    r: int,
    i: int,
    t: int,
)
    requires
        0 <= r <= rects.len(),
        0 <= i <= images.len(),
        0 <= t <= texts.len(),
        rects.len() <= usize::MAX,
        images.len() <= usize::MAX,
        texts.len() <= usize::MAX,
    ensures
        forall|k: int|
            0 <= k < merged_from(rects, images, texts, r, i, t).len() ==> item_in_range(
                rects,
                images,
                texts,
                r,
                i,
                t,
                #[trigger] merged_from(rects, images, texts, r, i, t)[k],
            ),
    decreases (rects.len() - r) + (images.len() - i) + (texts.len() - t),
{
    lemma_merged_step(rects, images, texts, r, i, t);
    let m = merged_from(rects, images, texts, r, i, t);
    match next_item(rects, images, texts, r, i, t) {
        Some(MergedItem::Rectangle { .. }) => {
            lemma_merged_in_range(rects, images, texts, r + 1, i, t);
            let rest = merged_from(rects, images, texts, r + 1, i, t);
            assert forall|k: int| 0 <= k < m.len() implies item_in_range(
                rects,
                images,
                texts,
                r,
                i,
                t,
                #[trigger] m[k],
            ) by {
                if k > 0 {
                    assert(m[k] == rest[k - 1]);
                }
            }
        },
        Some(MergedItem::Image { .. }) => {
            lemma_merged_in_range(rects, images, texts, r, i + 1, t);
            let rest = merged_from(rects, images, texts, r, i + 1, t);
            assert forall|k: int| 0 <= k < m.len() implies item_in_range(
                rects,
                images,
                texts,
                r,
                i,
                t,
                #[trigger] m[k],
            ) by {
                if k > 0 {
                    assert(m[k] == rest[k - 1]);
                }
            }
        },
        Some(MergedItem::Text { .. }) => {
            lemma_merged_in_range(rects, images, texts, r, i, t + 1);
            let rest = merged_from(rects, images, texts, r, i, t + 1);
            assert forall|k: int| 0 <= k < m.len() implies item_in_range(
                rects,
                images,
                texts,
                r,
                i,
                t,
                #[trigger] m[k],
            ) by {
                if k > 0 {
                    assert(m[k] == rest[k - 1]);
                }
            }
        },
        None => {},
    }
}

/// The chosen source precedes every remaining head.
proof fn lemma_next_is_least(
    rects: Seq<VisualOrder>,
    images: Seq<VisualOrder>,
    texts: Seq<VisualOrder>,
    r: int,
    i: int,
    t: int,
)
    requires
        0 <= r <= rects.len(),
        0 <= i <= images.len(),
        0 <= t <= texts.len(),
        rects.len() <= usize::MAX,
        images.len() <= usize::MAX,
        texts.len() <= usize::MAX,
        next_item(rects, images, texts, r, i, t) is Some,
    ensures
        ({
            let key = item_key(rects, images, texts, next_item(rects, images, texts, r, i, t)->0);
            &&& r < rects.len() ==> order_le(key, rects[r])
            &&& i < images.len() ==> order_le(key, images[i])
            &&& t < texts.len() ==> order_le(key, texts[t])
        }),
{
    let other = next_non_rectangle(images, texts, i, t);
    if other is Some {
        if i < images.len() && t < texts.len() && !order_le(images[i], texts[t]) {
            assert(order_le(texts[t], images[i]));
        }
    }
}

/// Law: when each kind arrives in painter order, the merged plan visits all
/// sources in one nondecreasing painter order.
pub proof fn merged_order_is_sorted(
    rects: Seq<VisualOrder>,
    images: Seq<VisualOrder>,
    texts: Seq<VisualOrder>,
)
    requires
        sorted(rects),
        sorted(images),
        sorted(texts),
        rects.len() <= usize::MAX,
        images.len() <= usize::MAX,
        texts.len() <= usize::MAX,
    ensures
        sorted(merged_keys(rects, images, texts, merged(rects, images, texts))),
{
    lemma_merged_sorted_from(rects, images, texts, 0, 0, 0);
}

proof fn lemma_merged_sorted_from(
    rects: Seq<VisualOrder>,
    images: Seq<VisualOrder>,
    texts: Seq<VisualOrder>,
    r: int,
    i: int,
    t: int,
)
    requires
        sorted(rects),
        sorted(images),
        sorted(texts),
        rects.len() <= usize::MAX,
        images.len() <= usize::MAX,
        texts.len() <= usize::MAX,
        0 <= r <= rects.len(),
        0 <= i <= images.len(),
        0 <= t <= texts.len(),
    ensures
        sorted(merged_keys(rects, images, texts, merged_from(rects, images, texts, r, i, t))),
    decreases (rects.len() - r) + (images.len() - i) + (texts.len() - t),
{
    lemma_merged_step(rects, images, texts, r, i, t);
    let m = merged_from(rects, images, texts, r, i, t);
    let keys = merged_keys(rects, images, texts, m);
    if next_item(rects, images, texts, r, i, t) is None {
        return;
    }
    let x = next_item(rects, images, texts, r, i, t)->0;
    lemma_next_is_least(rects, images, texts, r, i, t);
    let (r2, i2, t2) = match x {
        MergedItem::Rectangle { .. } => (r + 1, i, t),
        MergedItem::Image { .. } => (r, i + 1, t),
        MergedItem::Text { .. } => (r, i, t + 1),
    };
    lemma_merged_sorted_from(rects, images, texts, r2, i2, t2);
    lemma_merged_in_range(rects, images, texts, r2, i2, t2);
    let rest = merged_from(rects, images, texts, r2, i2, t2);
    let rest_keys = merged_keys(rects, images, texts, rest);
    assert(m == seq![x] + rest);
    assert forall|a: int, b: int| 0 <= a <= b < keys.len() implies order_le(
        #[trigger] keys[a],
        #[trigger] keys[b],
    ) by {
        if a == 0 {
            let y = rest[b - 1];
            assert(keys[0] == item_key(rects, images, texts, x));
            if b > 0 {
                assert(keys[b] == rest_keys[b - 1]);
                assert(item_in_range(rects, images, texts, r2, i2, t2, y));
                match y {
                    MergedItem::Rectangle { index } => {
                        assert(order_le(rects[r], rects[index as int]));
                    },
                    MergedItem::Image { index } => {
                        assert(order_le(images[i], images[index as int]));
                    },
                    MergedItem::Text { index } => {
                        assert(order_le(texts[t], texts[index as int]));
                    },
                }
            }
        } else {
            assert(keys[a] == rest_keys[a - 1]);
            assert(keys[b] == rest_keys[b - 1]);
        }
    }
}

/// The kinds of screen source.
#[derive(Debug, Clone, Copy, PartialEq, Eq, Structural)]
pub enum SourceKind {
    /// Screen rectangles.
    Rectangle,
    /// Screen images.
    Image,
    /// Screen labels.
    Text,
}

/// The kind and index of a merged item.
pub open spec fn item_source(item: MergedItem) -> (SourceKind, int) {
    match item {
        MergedItem::Rectangle { index } => (SourceKind::Rectangle, index as int),
        MergedItem::Image { index } => (SourceKind::Image, index as int),
        MergedItem::Text { index } => (SourceKind::Text, index as int),
    }
}

/// The indices of the items of one kind, in plan order.
pub open spec fn indices_of(items: Seq<MergedItem>, kind: SourceKind) -> Seq<int>
    decreases items.len(),
{
    if items.len() == 0 {
        Seq::empty()
    } else {
        let (head_kind, head_index) = item_source(items[0]);
        (if head_kind == kind {
            seq![head_index]
        } else {
            Seq::empty()
        }) + indices_of(items.drop_first(), kind)
    }
}

/// The indices `from..to`, in order.
pub open spec fn index_range(from: int, to: int) -> Seq<int> {
    Seq::new((to - from) as nat, |k: int| from + k)
}

proof fn lemma_indices_from(
    rects: Seq<VisualOrder>,
    images: Seq<VisualOrder>,
    texts: Seq<VisualOrder>,
    r: int,
    i: int,
    t: int,
)
    requires
        0 <= r <= rects.len(),
        0 <= i <= images.len(),
        0 <= t <= texts.len(),
        rects.len() <= usize::MAX,
        images.len() <= usize::MAX,
        texts.len() <= usize::MAX,
    ensures
        indices_of(merged_from(rects, images, texts, r, i, t), SourceKind::Rectangle)
            == index_range(r, rects.len() as int),
        indices_of(merged_from(rects, images, texts, r, i, t), SourceKind::Image) == index_range(
            i,
            images.len() as int,
        ),
        indices_of(merged_from(rects, images, texts, r, i, t), SourceKind::Text) == index_range(
            t,
            texts.len() as int,
        ),
    decreases (rects.len() - r) + (images.len() - i) + (texts.len() - t),
{
    lemma_merged_step(rects, images, texts, r, i, t);
    let m = merged_from(rects, images, texts, r, i, t);
    match next_item(rects, images, texts, r, i, t) {
        Some(MergedItem::Rectangle { .. }) => {
            lemma_indices_from(rects, images, texts, r + 1, i, t);
            assert(m.drop_first() =~= merged_from(rects, images, texts, r + 1, i, t));
            assert(seq![r] + index_range(r + 1, rects.len() as int) =~= index_range(
                r,
                rects.len() as int,
            ));
            assert(Seq::<int>::empty() + index_range(i, images.len() as int) =~= index_range(
                i,
                images.len() as int,
            ));
            assert(Seq::<int>::empty() + index_range(t, texts.len() as int) =~= index_range(
                t,
                texts.len() as int,
            ));
        },
        Some(MergedItem::Image { .. }) => {
            lemma_indices_from(rects, images, texts, r, i + 1, t);
            assert(m.drop_first() =~= merged_from(rects, images, texts, r, i + 1, t));
            assert(seq![i] + index_range(i + 1, images.len() as int) =~= index_range(
                i,
                images.len() as int,
            ));
            assert(Seq::<int>::empty() + index_range(r, rects.len() as int) =~= index_range(
                r,
                rects.len() as int,
            ));
            assert(Seq::<int>::empty() + index_range(t, texts.len() as int) =~= index_range(
                t,
                texts.len() as int,
            ));
        },
        Some(MergedItem::Text { .. }) => {
            lemma_indices_from(rects, images, texts, r, i, t + 1);
            assert(m.drop_first() =~= merged_from(rects, images, texts, r, i, t + 1));
            assert(seq![t] + index_range(t + 1, texts.len() as int) =~= index_range(
                t,
                texts.len() as int,
            ));
            assert(Seq::<int>::empty() + index_range(r, rects.len() as int) =~= index_range(
                r,
                rects.len() as int,
            ));
            assert(Seq::<int>::empty() + index_range(i, images.len() as int) =~= index_range(
                i,
                images.len() as int,
            ));
        },
        None => {
            assert(index_range(r, rects.len() as int) =~= Seq::<int>::empty());
            assert(index_range(i, images.len() as int) =~= Seq::<int>::empty());
            assert(index_range(t, texts.len() as int) =~= Seq::<int>::empty());
        },
    }
}

/// Law: the merged plan lists every rectangle, image and label exactly once,
/// each kind in its own sorted order.
pub proof fn merged_lists_each_source_once(
    rects: Seq<VisualOrder>,
    images: Seq<VisualOrder>,
    texts: Seq<VisualOrder>,
)
    requires
        rects.len() <= usize::MAX,
        images.len() <= usize::MAX,
        texts.len() <= usize::MAX,
    ensures
        indices_of(merged(rects, images, texts), SourceKind::Rectangle) == index_range(
            0,
            rects.len() as int,
        ),
        indices_of(merged(rects, images, texts), SourceKind::Image) == index_range(
            0,
            images.len() as int,
        ),
        indices_of(merged(rects, images, texts), SourceKind::Text) == index_range(
            0,
            texts.len() as int,
        ),
{
    lemma_indices_from(rects, images, texts, 0, 0, 0);
}

/// The rectangles `from..to` as merged items.
pub open spec fn rect_items(from: int, to: int) -> Seq<MergedItem> {
    Seq::new((to - from) as nat, |k: int| MergedItem::Rectangle { index: (from + k) as usize })
}

/// The sources one draw paints.
pub open spec fn expand_draw(draw: ScreenDraw, runs: Seq<RectangleRun>) -> Seq<MergedItem> {
    match draw {
        ScreenDraw::Rectangles { run } => if run < runs.len() {
            rect_items(runs[run as int].start as int, runs[run as int].end as int)
        } else {
            Seq::empty()
        },
        ScreenDraw::Image { index } => seq![MergedItem::Image { index }],
        ScreenDraw::Text { index } => seq![MergedItem::Text { index }],
    }
}

/// The sources a plan paints, in draw order.
pub open spec fn flatten(draws: Seq<ScreenDraw>, runs: Seq<RectangleRun>) -> Seq<MergedItem>
    decreases draws.len(),
{
    if draws.len() == 0 {
        Seq::empty()
    } else {
        flatten(draws.drop_last(), runs) + expand_draw(draws.last(), runs)
    }
}

/// Every run draw refers to an existing run.
pub open spec fn runs_referenced(draws: Seq<ScreenDraw>, runs: Seq<RectangleRun>) -> bool {
    forall|k: int|
        0 <= k < draws.len() ==> ((#[trigger] draws[k]) matches ScreenDraw::Rectangles { run }
            ==> run < runs.len())
}

proof fn lemma_flatten_more_runs(
    draws: Seq<ScreenDraw>,
    runs: Seq<RectangleRun>,
    run: RectangleRun,
)
    requires
        runs_referenced(draws, runs),
    ensures
        flatten(draws, runs.push(run)) == flatten(draws, runs),
    decreases draws.len(),
{
    if draws.len() > 0 {
        let prefix = draws.drop_last();
        assert(runs_referenced(prefix, runs)) by {
            assert forall|k: int| 0 <= k < prefix.len() implies ((#[trigger] prefix[k]) matches ScreenDraw::Rectangles { run }
                ==> run < runs.len()) by {
                assert(prefix[k] == draws[k]);
            }
        }
        lemma_flatten_more_runs(prefix, runs, run);
        let last = draws.last();
        assert(draws[draws.len() - 1] == last);
        match last {
            ScreenDraw::Rectangles { run: index } => {
                assert(runs.push(run)[index as int] == runs[index as int]);
            },
            _ => {},
        }
    }
}

proof fn lemma_flatten_push(draws: Seq<ScreenDraw>, runs: Seq<RectangleRun>, draw: ScreenDraw)
    ensures
        flatten(draws.push(draw), runs) == flatten(draws, runs) + expand_draw(draw, runs),
{
    assert(draws.push(draw).drop_last() =~= draws);
}

/// The plan state after `done` paints `done`, with the pending run last.
pub open spec fn plan_state_paints(done: Seq<MergedItem>, seen: int) -> bool {
    let (draws, runs, start, count) = plan_state(done);
    &&& count == seen
    &&& 0 <= start <= count
    &&& runs.len() <= start
    &&& runs_referenced(draws, runs)
    &&& done == flatten(draws, runs) + rect_items(start, count)
}

proof fn lemma_flush_paints(
    draws: Seq<ScreenDraw>,
    runs: Seq<RectangleRun>,
    start: int,
    end: int,
)
    requires
        runs_referenced(draws, runs),
        0 <= start <= end < usize::MAX,
        runs.len() <= start,
    ensures
        runs_referenced(flush_run(draws, runs, start, end).0, flush_run(draws, runs, start, end).1),
        flush_run(draws, runs, start, end).1.len() <= end,
        flatten(flush_run(draws, runs, start, end).0, flush_run(draws, runs, start, end).1)
            == flatten(draws, runs) + rect_items(start, end),
{
    if start != end {
        let run = RectangleRun { start: start as usize, end: end as usize };
        let draw = ScreenDraw::Rectangles { run: runs.len() as usize };
        lemma_flatten_more_runs(draws, runs, run);
        lemma_flatten_push(draws, runs.push(run), draw);
        let (d2, r2) = flush_run(draws, runs, start, end);
        assert forall|k: int| 0 <= k < d2.len() implies ((#[trigger] d2[k]) matches ScreenDraw::Rectangles { run }
            ==> run < r2.len()) by {
            if k < draws.len() {
                assert(d2[k] == draws[k]);
            }
        }
    } else {
        assert(flatten(draws, runs) + rect_items(start, end) =~= flatten(draws, runs));
    }
}

proof fn lemma_plan_state_step(done: Seq<MergedItem>, seen: int, item: MergedItem)
    requires
        plan_state_paints(done, seen),
        0 <= seen < usize::MAX,
        item is Rectangle ==> item == (MergedItem::Rectangle { index: seen as usize }),
    ensures
        plan_state_paints(done.push(item), (if item is Rectangle { seen + 1 } else { seen })),
{
    lemma_plan_state_push(done, item);
    let (draws, runs, start, count) = plan_state(done);
    match item {
        MergedItem::Rectangle { .. } => {
            assert(rect_items(start, count).push(item) =~= rect_items(start, count + 1));
            assert(done.push(item) =~= flatten(draws, runs) + rect_items(start, count + 1));
        },
        MergedItem::Image { index } => {
            lemma_flush_paints(draws, runs, start, count);
            let (d2, r2) = flush_run(draws, runs, start, count);
            lemma_flatten_push(d2, r2, ScreenDraw::Image { index });
            assert(rect_items(count, count) =~= Seq::<MergedItem>::empty());
            assert(done.push(item) =~= flatten(d2.push(ScreenDraw::Image { index }), r2)
                + rect_items(count, count));
            assert forall|k: int| 0 <= k < d2.push(ScreenDraw::Image { index }).len() implies ((
            #[trigger] d2.push(ScreenDraw::Image { index })[k]) matches ScreenDraw::Rectangles {
                run,
            } ==> run < r2.len()) by {
                if k < d2.len() {
                    assert(d2.push(ScreenDraw::Image { index })[k] == d2[k]);
                }
            }
        },
        MergedItem::Text { index } => {
            lemma_flush_paints(draws, runs, start, count);
            let (d2, r2) = flush_run(draws, runs, start, count);
            lemma_flatten_push(d2, r2, ScreenDraw::Text { index });
            assert(rect_items(count, count) =~= Seq::<MergedItem>::empty());
            assert(done.push(item) =~= flatten(d2.push(ScreenDraw::Text { index }), r2)
                + rect_items(count, count));
            assert forall|k: int| 0 <= k < d2.push(ScreenDraw::Text { index }).len() implies ((
            #[trigger] d2.push(ScreenDraw::Text { index })[k]) matches ScreenDraw::Rectangles {
                run,
            } ==> run < r2.len()) by {
                if k < d2.len() {
                    assert(d2.push(ScreenDraw::Text { index })[k] == d2[k]);
                }
            }
        },
    }
}

proof fn lemma_plan_paints_from(
    rects: Seq<VisualOrder>,
    images: Seq<VisualOrder>,
    texts: Seq<VisualOrder>,
    r: int,
    i: int,
    t: int,
    done: Seq<MergedItem>,
)
    requires
        0 <= r <= rects.len(),
        0 <= i <= images.len(),
        0 <= t <= texts.len(),
        rects.len() < usize::MAX,
        images.len() <= usize::MAX,
        texts.len() <= usize::MAX,
        plan_state_paints(done, r),
    ensures
        plan_state_paints(
            done + merged_from(rects, images, texts, r, i, t),
            rects.len() as int,
        ),
    decreases (rects.len() - r) + (images.len() - i) + (texts.len() - t),
{
    lemma_merged_step(rects, images, texts, r, i, t);
    match next_item(rects, images, texts, r, i, t) {
        Some(MergedItem::Rectangle { .. }) => {
            let item = MergedItem::Rectangle { index: r as usize };
            lemma_plan_state_step(done, r, item);
            lemma_plan_paints_from(rects, images, texts, r + 1, i, t, done.push(item));
            assert(done + merged_from(rects, images, texts, r, i, t) =~= done.push(item)
                + merged_from(rects, images, texts, r + 1, i, t));
        },
        Some(MergedItem::Image { .. }) => {
            let item = MergedItem::Image { index: i as usize };
            lemma_plan_state_step(done, r, item);
            lemma_plan_paints_from(rects, images, texts, r, i + 1, t, done.push(item));
            assert(done + merged_from(rects, images, texts, r, i, t) =~= done.push(item)
                + merged_from(rects, images, texts, r, i + 1, t));
        },
        Some(MergedItem::Text { .. }) => {
            let item = MergedItem::Text { index: t as usize };
            lemma_plan_state_step(done, r, item);
            lemma_plan_paints_from(rects, images, texts, r, i, t + 1, done.push(item));
            assert(done + merged_from(rects, images, texts, r, i, t) =~= done.push(item)
                + merged_from(rects, images, texts, r, i, t + 1));
        },
        None => {
            assert(done + merged_from(rects, images, texts, r, i, t) =~= done);
        },
    }
}

/// Law: when images or labels are present, the plan paints exactly the
/// merged painter order: each run draw paints its consecutive rectangles,
/// and every run draw refers to a run of the plan.
pub proof fn plan_paints_the_merged_order(
    rects: Seq<VisualOrder>,
    images: Seq<VisualOrder>,
    texts: Seq<VisualOrder>,
)
    requires
        rects.len() < usize::MAX,
        images.len() <= usize::MAX,
        texts.len() <= usize::MAX,
        images.len() > 0 || texts.len() > 0,
    ensures
        runs_referenced(spec_plan(rects, images, texts).0, spec_plan(rects, images, texts).1),
        flatten(spec_plan(rects, images, texts).0, spec_plan(rects, images, texts).1) == merged(
            rects,
            images,
            texts,
        ),
{
    let empty = Seq::<MergedItem>::empty();
    assert(rect_items(0, 0) =~= empty);
    assert(plan_state_paints(empty, 0));
    lemma_plan_paints_from(rects, images, texts, 0, 0, 0, empty);
    let all = merged(rects, images, texts);
    assert(empty + all =~= all);
    let (draws, runs, start, count) = plan_state(all);
    lemma_flush_paints(draws, runs, start, count);
}

/// Appends one draw, or reports the bytes it could not reserve.
fn push_draw(draws: &mut Vec<ScreenDraw>, draw: ScreenDraw) -> (result: Result<(), DrawPlanError>)
    ensures
        result is Ok ==> final(draws)@ == old(draws)@.push(draw),
        result is Err ==> final(draws)@ == old(draws)@ && result == Err::<(), DrawPlanError>(
            DrawPlanError::AllocationFailed {
                requested_bytes: vstd::layout::size_of::<ScreenDraw>() as usize,
            },
        ),
{
    if draws.try_reserve(1).is_err() {
        return Err(
            DrawPlanError::AllocationFailed {
                requested_bytes: core::mem::size_of::<ScreenDraw>(),
            },
        );
    }
    draws.push(draw);
    Ok(())
}

/// Appends one run, or reports the bytes it could not reserve.
fn push_run(runs: &mut Vec<RectangleRun>, run: RectangleRun) -> (result: Result<(), DrawPlanError>)
    ensures
        result is Ok ==> final(runs)@ == old(runs)@.push(run),
        result is Err ==> final(runs)@ == old(runs)@ && result == Err::<(), DrawPlanError>(
            DrawPlanError::AllocationFailed {
                requested_bytes: vstd::layout::size_of::<RectangleRun>() as usize,
            },
        ),
{
    if runs.try_reserve(1).is_err() {
        return Err(
            DrawPlanError::AllocationFailed {
                requested_bytes: core::mem::size_of::<RectangleRun>(),
            },
        );
    }
    runs.push(run);
    Ok(())
}

/// Whether `error` is one of the two allocation failures of a plan.
pub open spec fn is_plan_allocation_failure(error: DrawPlanError) -> bool {
    ||| error == DrawPlanError::AllocationFailed {
        requested_bytes: vstd::layout::size_of::<ScreenDraw>() as usize,
    }
    ||| error == DrawPlanError::AllocationFailed {
        requested_bytes: vstd::layout::size_of::<RectangleRun>() as usize,
    }
}

/// Closes the pending run `start..end` into the plan, if it is not empty.
fn flush_pending(
    draws: &mut Vec<ScreenDraw>,
    runs: &mut Vec<RectangleRun>,
    start: usize,
    end: usize,
) -> (result: Result<(), DrawPlanError>)
    ensures
        result is Ok ==> (final(draws)@, final(runs)@) == flush_run(
            old(draws)@,
            old(runs)@,
            start as int,
            end as int,
        ),
        result is Err ==> is_plan_allocation_failure(result->Err_0),
{
    if start != end {
        let run = runs.len();
        push_run(runs, RectangleRun { start, end })?;
        push_draw(draws, ScreenDraw::Rectangles { run })?;
    }
    Ok(())
}

/// Builds the plan into `draws` and `runs`, which are cleared first.
fn compose_inner(
    rects: &[VisualOrder],
    images: &[VisualOrder],
    texts: &[VisualOrder],
    draws: &mut Vec<ScreenDraw>,
    runs: &mut Vec<RectangleRun>,
) -> (result: Result<(), DrawPlanError>)
    ensures
        result is Ok ==> (final(draws)@, final(runs)@) == spec_plan(rects@, images@, texts@),
        result is Err ==> is_plan_allocation_failure(result->Err_0),
        rects@.len() == 0 && images@.len() == 0 && texts@.len() == 0 ==> result is Ok,
{
    draws.clear();
    runs.clear();
    if images.len() == 0 && texts.len() == 0 {
        if rects.len() != 0 {
            push_draw(draws, ScreenDraw::Rectangles { run: 0 })?;
        }
        return Ok(());
    }
    let ghost all = merged(rects@, images@, texts@);
    let ghost mut done: Seq<MergedItem> = Seq::empty();
    let mut r: usize = 0;
    let mut i: usize = 0;
    let mut t: usize = 0;
    let mut run_start: usize = 0;
    proof {
        assert(all == done + merged_from(rects@, images@, texts@, 0, 0, 0));
    }
    loop
        invariant_except_break
            r <= rects@.len(),
            i <= images@.len(),
            t <= texts@.len(),
            run_start <= r,
            all == merged(rects@, images@, texts@),
            all == done + merged_from(rects@, images@, texts@, r as int, i as int, t as int),
            plan_state(done) == (draws@, runs@, run_start as int, r as int),
        ensures
            plan_state(all) == (draws@, runs@, run_start as int, r as int),
        decreases (rects@.len() - r) + (images@.len() - i) + (texts@.len() - t),
    {
        proof {
            lemma_merged_step(rects@, images@, texts@, r as int, i as int, t as int);
        }
        // The next image or label: an image wins ties against a label.
        let take_image = i < images.len() && (t >= texts.len() || visual_order_le(
            &images[i],
            &texts[t],
        ));
        let has_other = take_image || t < texts.len();
        let take_rectangle = r < rects.len() && (!has_other || (if take_image {
            visual_order_le(&rects[r], &images[i])
        } else {
            visual_order_le(&rects[r], &texts[t])
        }));
        if take_rectangle {
            proof {
                let item = MergedItem::Rectangle { index: r as usize };
                lemma_plan_state_push(done, item);
                assert(done + merged_from(rects@, images@, texts@, r as int, i as int, t as int)
                    =~= done.push(item) + merged_from(
                    rects@,
                    images@,
                    texts@,
                    r + 1,
                    i as int,
                    t as int,
                ));
                done = done.push(item);
            }
            r += 1;
        } else if has_other {
            flush_pending(draws, runs, run_start, r)?;
            if take_image {
                push_draw(draws, ScreenDraw::Image { index: i })?;
                proof {
                    let item = MergedItem::Image { index: i };
                    lemma_plan_state_push(done, item);
                    assert(done + merged_from(
                        rects@,
                        images@,
                        texts@,
                        r as int,
                        i as int,
                        t as int,
                    ) =~= done.push(item) + merged_from(
                        rects@,
                        images@,
                        texts@,
                        r as int,
                        i + 1,
                        t as int,
                    ));
                    done = done.push(item);
                }
                i += 1;
            } else {
                push_draw(draws, ScreenDraw::Text { index: t })?;
                proof {
                    let item = MergedItem::Text { index: t };
                    lemma_plan_state_push(done, item);
                    assert(done + merged_from(
                        rects@,
                        images@,
                        texts@,
                        r as int,
                        i as int,
                        t as int,
                    ) =~= done.push(item) + merged_from(
                        rects@,
                        images@,
                        texts@,
                        r as int,
                        i as int,
                        t + 1,
                    ));
                    done = done.push(item);
                }
                t += 1;
            }
            run_start = r;
        } else {
            proof {
                assert(done =~= all);
            }
            break;
        }
    }
    flush_pending(draws, runs, run_start, r)?;
    Ok(())
}

/// Builds the mixed painter plan of sorted rectangles, images and labels
/// into `draws` and `runs`. A failed reservation leaves both empty, so no
/// partial plan survives; with nothing to draw nothing is reserved and the
/// call succeeds.
pub fn compose(
    rects: &[VisualOrder],
    images: &[VisualOrder],
    texts: &[VisualOrder],
    draws: &mut Vec<ScreenDraw>,
    runs: &mut Vec<RectangleRun>,
) -> (result: Result<(), DrawPlanError>)
    ensures
        result is Ok ==> (final(draws)@, final(runs)@) == spec_plan(rects@, images@, texts@),
        result is Err ==> is_plan_allocation_failure(result->Err_0) && final(draws)@.len() == 0
            && final(runs)@.len() == 0,
        rects@.len() == 0 && images@.len() == 0 && texts@.len() == 0 ==> result is Ok,
{
    let result = compose_inner(rects, images, texts, draws, runs);
    if result.is_err() {
        runs.clear();
        draws.clear();
    }
    result
}

/// One world primitive in painter order.
#[derive(Debug, Clone, Copy, PartialEq, Eq, Structural)]
pub enum WorldDraw {
    /// The rectangle at `index` of the sorted world rectangles.
    Rectangle { index: usize },
    /// The circle at `index` of the sorted world circles.
    Circle { index: usize },
    /// The line at `index` of the sorted world lines.
    Line { index: usize },
}

/// The world primitive at a merged position: on an exact tie rectangles
/// precede circles, which precede lines.
pub open spec fn world_draw(item: MergedItem) -> WorldDraw {
    match item {
        MergedItem::Rectangle { index } => WorldDraw::Rectangle { index },
        MergedItem::Image { index } => WorldDraw::Circle { index },
        MergedItem::Text { index } => WorldDraw::Line { index },
    }
}

/// The painter order of the world scene: sorted rectangles, circles and
/// lines merged into one total order, rectangles first and lines last on an
/// exact tie.
pub fn world_draw_order(
    rects: &[VisualOrder],
    circles: &[VisualOrder],
    lines: &[VisualOrder],
) -> (order: Vec<WorldDraw>)
    ensures
        order@ == merged(rects@, circles@, lines@).map_values(|item: MergedItem| world_draw(item)),
{
    let ghost all = merged(rects@, circles@, lines@);
    let ghost mut done: Seq<MergedItem> = Seq::empty();
    let mut order: Vec<WorldDraw> = Vec::new();
    let mut r: usize = 0;
    let mut c: usize = 0;
    let mut l: usize = 0;
    proof {
        assert(all == done + merged_from(rects@, circles@, lines@, 0, 0, 0));
    }
    loop
        invariant_except_break
            r <= rects@.len(),
            c <= circles@.len(),
            l <= lines@.len(),
            all == merged(rects@, circles@, lines@),
            all == done + merged_from(rects@, circles@, lines@, r as int, c as int, l as int),
            order@ == done.map_values(|item: MergedItem| world_draw(item)),
        ensures
            order@ == all.map_values(|item: MergedItem| world_draw(item)),
        decreases (rects@.len() - r) + (circles@.len() - c) + (lines@.len() - l),
    {
        proof {
            lemma_merged_step(rects@, circles@, lines@, r as int, c as int, l as int);
        }
        let take_circle = c < circles.len() && (l >= lines.len() || visual_order_le(
            &circles[c],
            &lines[l],
        ));
        let has_other = take_circle || l < lines.len();
        let take_rectangle = r < rects.len() && (!has_other || (if take_circle {
            visual_order_le(&rects[r], &circles[c])
        } else {
            visual_order_le(&rects[r], &lines[l])
        }));
        let ghost before = done;
        let item = if take_rectangle {
            WorldDraw::Rectangle { index: r }
        } else if take_circle {
            WorldDraw::Circle { index: c }
        } else if has_other {
            WorldDraw::Line { index: l }
        } else {
            proof {
                assert(done =~= all);
            }
            break;
        };
        order.push(item);
        proof {
            let (merged_item, r2, c2, l2) = if take_rectangle {
                (MergedItem::Rectangle { index: r }, r + 1, c as int, l as int)
            } else if take_circle {
                (MergedItem::Image { index: c }, r as int, c + 1, l as int)
            } else {
                (MergedItem::Text { index: l }, r as int, c as int, l + 1)
            };
            assert(done + merged_from(rects@, circles@, lines@, r as int, c as int, l as int)
                =~= done.push(merged_item) + merged_from(rects@, circles@, lines@, r2, c2, l2));
            done = done.push(merged_item);
            assert(order@ =~= done.map_values(|item: MergedItem| world_draw(item)));
        }
        if take_rectangle {
            r += 1;
        } else if take_circle {
            c += 1;
        } else {
            l += 1;
        }
    }
    order
}

/// The sorted rectangles a run draw paints, as a range of the `count`
/// sorted rectangles: with rectangles only, run 0 is the whole list;
/// otherwise the recorded run, when its range lies within the list.
pub fn run_records(
    count: usize,
    has_non_rectangles: bool,
    runs: &[RectangleRun],
    run: usize,
) -> (range: Option<RectangleRun>)
    ensures
        !has_non_rectangles ==> range == (if run == 0 && count != 0 {
            Some(RectangleRun { start: 0, end: count })
        } else {
            None::<RectangleRun>
        }),
        has_non_rectangles ==> range == (if run < runs@.len() && runs@[run as int].start
            <= runs@[run as int].end <= count {
            Some(runs@[run as int])
        } else {
            None::<RectangleRun>
        }),
{
    if !has_non_rectangles {
        return if run == 0 && count != 0 {
            Some(RectangleRun { start: 0, end: count })
        } else {
            None
        };
    }
    if run >= runs.len() {
        return None;
    }
    let range = runs[run];
    if range.start <= range.end && range.end <= count {
        Some(range)
    } else {
        None
    }
}

} // verus!
