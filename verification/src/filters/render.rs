//! Running a stack of filters: which plates are kept, which layers are worked
//! on, and which pictures must be read first.
use vstd::prelude::*;
use crate::filters::key::{StackEntry, prefix_key, prefix_keys};
use crate::filters::params::FilterParams;
use crate::order::{
    in_order, law_sorted_in_order, law_sorted_keeps_items, stable_sort, stable_sorted,
};

verus! {

/// A filter of a stack in a run: the key of its plate, and whether the plate of
/// an earlier run is taken.
#[derive(Clone, Copy, Debug, PartialEq, Eq, Structural)]
pub struct RenderStep {
    pub key: u64,
    pub reuse: bool,
}

/// Whether the plate that an earlier run left behind a filter is the one that
/// the filter would make: it has the key, and as many bytes as the picture.
pub open spec fn reusable(cache: Seq<(u64, Vec<u8>)>, i: int, key: u64, bytes: int) -> bool {
    i < cache.len() && cache[i].0 == key && cache[i].1.len() == bytes
}

/// The steps of a run over a picture of that many bytes.
pub open spec fn steps_of(
    stack: Seq<StackEntry>,
    cache: Seq<(u64, Vec<u8>)>,
    bytes: int,
) -> Seq<RenderStep> {
    Seq::new(
        stack.len(),
        |i: int|
            RenderStep {
                key: prefix_key(stack, (i + 1) as nat),
                reuse: reusable(cache, i, prefix_key(stack, (i + 1) as nat), bytes),
            },
    )
}

/// The steps of a run.
pub fn render_steps(stack: &Vec<StackEntry>, cache: &Vec<(u64, Vec<u8>)>, bytes: usize) -> (r: Vec<
    RenderStep,
>)
    ensures
        r@ == steps_of(stack@, cache@, bytes as int),
{
    let keys = prefix_keys(stack);
    let ghost want = steps_of(stack@, cache@, bytes as int);
    let n: usize = keys.len();
    let mut out: Vec<RenderStep> = Vec::new();
    let mut i: usize = 0;
    while i < n
        invariant
            i <= n,
            n == keys.len() == stack.len(),
            want == steps_of(stack@, cache@, bytes as int),
            forall|j: int|
                0 <= j < n ==> #[trigger] keys@[j] == prefix_key(stack@, (j + 1) as nat),
            out@ == want.take(i as int),
        decreases n - i,
    {
        let key: u64 = keys[i];
        let reuse = i < cache.len() && cache[i].0 == key && cache[i].1.len() == bytes;
        out.push(RenderStep { key, reuse });
        assert(out@[i as int] == want[i as int]);
        i += 1;
        assert(out@ =~= want.take(i as int));
    }
    assert(want.take(n as int) =~= want);
    out
}

/// A run over the same stack and picture takes every plate of the run before.
pub proof fn law_same_stack_is_reused(
    stack: Seq<StackEntry>,
    before: Seq<(u64, Vec<u8>)>,
    bytes: int,
    i: int,
)
    requires
        before.len() == stack.len(),
        forall|j: int|
            0 <= j < before.len() ==> (#[trigger] before[j]).0 == prefix_key(
                stack,
                (j + 1) as nat,
            ) && before[j].1.len() == bytes,
        0 <= i < stack.len(),
    ensures
        steps_of(stack, before, bytes)[i].reuse,
{
    assert(before[i].0 == prefix_key(stack, (i + 1) as nat));
}

/// Filters that follow a change do not touch the plates before it: stacks that
/// agree up to a filter have the same keys up to there.
pub proof fn law_change_keeps_earlier_plates(a: Seq<StackEntry>, b: Seq<StackEntry>, n: nat)
    requires
        n <= a.len() && n <= b.len(),
        forall|j: int| 0 <= j < n ==> #[trigger] a[j] == b[j],
    ensures
        prefix_key(a, n) == prefix_key(b, n),
    decreases n,
{
    if n > 0 {
        law_change_keeps_earlier_plates(a, b, (n - 1) as nat);
        assert(a[n - 1] == b[n - 1]);
    }
}

/// Whether a layer is worked on: it is there, and no folder.
pub open spec fn workable(folders: Seq<bool>, target: usize) -> bool {
    target < folders.len() && !folders[target as int]
}

/// The layers that a stack is applied to, of those that were asked for.
pub open spec fn worked_on(targets: Seq<usize>, folders: Seq<bool>) -> Seq<usize> {
    targets.filter(|t: usize| workable(folders, t))
}

/// The layers that a stack is applied to. `folders` tells of each layer whether
/// it is a folder.
pub fn apply_targets(targets: &Vec<usize>, folders: &Vec<bool>) -> (r: Vec<usize>)
    ensures
        r@ == worked_on(targets@, folders@),
{
    let ghost keep = |t: usize| workable(folders@, t);
    let mut out: Vec<usize> = Vec::new();
    let mut i: usize = 0;
    proof {
        assert(targets@.take(0) =~= Seq::empty());
        reveal(Seq::filter);
    }
    while i < targets.len()
        invariant
            i <= targets.len(),
            keep == (|t: usize| workable(folders@, t)),
            out@ == targets@.take(i as int).filter(keep),
        decreases targets.len() - i,
    {
        let t: usize = targets[i];
        proof {
            reveal(Seq::filter);
            assert(targets@.take(i + 1).drop_last() =~= targets@.take(i as int));
            assert(targets@.take(i + 1).last() == t);
        }
        if t < folders.len() && !folders[t] {
            out.push(t);
        }
        i += 1;
    }
    assert(targets@.take(targets.len() as int) =~= targets@);
    out
}

/// The place among the filtered layers of the one that stands for all.
pub fn primary_target(targets: &Vec<usize>, edited: usize) -> (r: Option<usize>)
    ensures
        r is Some <==> targets.len() > 0,
        r matches Some(k) ==> {
            &&& k < targets.len()
            &&& targets@.contains(edited) ==> targets@[k as int] == edited && forall|j: int|
                0 <= j < k ==> targets@[j] != edited
            &&& !targets@.contains(edited) ==> k == 0
        },
{
    if targets.len() == 0 {
        return None;
    }
    let mut i: usize = 0;
    while i < targets.len()
        invariant
            i <= targets.len(),
            forall|j: int| 0 <= j < i ==> targets@[j] != edited,
        decreases targets.len() - i,
    {
        if targets[i] == edited {
            assert(targets@.contains(edited)) by {
                assert(targets@[i as int] == edited);
            }
            return Some(i);
        }
        i += 1;
    }
    Some(0)
}

/// Whether a layer, the first of a pair, lies below another.
pub open spec fn lower_first() -> spec_fn((usize, usize), (usize, usize)) -> bool {
    |a: (usize, usize), b: (usize, usize)| a.0 < b.0
}

fn lower_layer(a: &(usize, usize), b: &(usize, usize)) -> (r: bool)
    ensures
        r == (a.0 < b.0),
{
    a.0 < b.0
}

/// Layers, each with its place among those that were filtered.
pub open spec fn numbered(layers: Seq<usize>) -> Seq<(usize, usize)> {
    Seq::new(layers.len(), |i: int| (layers[i], i as usize))
}

/// The order in which filtered layers are laid over each other: from the lowest
/// up, with the place of each among those that were filtered. Where a layer
/// comes twice, as they came.
pub fn composition_order(layers: &Vec<usize>) -> (r: Vec<(usize, usize)>)
    ensures
        r@ == stable_sorted(numbered(layers@), lower_first()),
{
    let n: usize = layers.len();
    let mut out: Vec<(usize, usize)> = Vec::new();
    let mut i: usize = 0;
    while i < n
        invariant
            i <= n,
            n == layers.len(),
            out@ == numbered(layers@).take(i as int),
        decreases n - i,
    {
        out.push((layers[i], i));
        i += 1;
        assert(out@ =~= numbered(layers@).take(i as int));
    }
    assert(numbered(layers@).take(n as int) =~= numbered(layers@));
    stable_sort(&mut out, lower_layer, Ghost(lower_first()));
    out
}

/// No layer is laid over one above it, and none is lost.
pub proof fn law_composition_order(layers: Seq<usize>)
    ensures
        stable_sorted(numbered(layers), lower_first()).to_multiset() == numbered(
            layers,
        ).to_multiset(),
        in_order(stable_sorted(numbered(layers), lower_first()), lower_first()),
{
    law_sorted_keeps_items(numbered(layers), lower_first());
    law_sorted_in_order(numbered(layers), lower_first());
}

/// Whether a filter lays a picture over that was not read yet.
pub open spec fn wants_picture(e: StackEntry) -> bool {
    e.params matches FilterParams::ImageOverlay { path, rgba, .. } && rgba is None && path is Some
}

/// The filters of a stack that need a picture read, in order.
pub fn overlays_to_read(stack: &Vec<StackEntry>) -> (r: Vec<usize>)
    ensures
        forall|k: int| 0 <= k < r.len() ==> (#[trigger] r@[k]) < stack.len() && wants_picture(
            stack@[r@[k] as int],
        ),
        forall|k: int, l: int| 0 <= k < l < r.len() ==> #[trigger] r@[k] < #[trigger] r@[l],
        forall|i: int|
            0 <= i < stack.len() && wants_picture(#[trigger] stack@[i]) ==> r@.contains(i as usize),
{
    let mut out: Vec<usize> = Vec::new();
    let mut i: usize = 0;
    while i < stack.len()
        invariant
            i <= stack.len(),
            forall|k: int| 0 <= k < out.len() ==> (#[trigger] out@[k]) < i && wants_picture(
                stack@[out@[k] as int],
            ),
            forall|k: int, l: int|
                0 <= k < l < out.len() ==> #[trigger] out@[k] < #[trigger] out@[l],
            forall|j: int|
                0 <= j < i && wants_picture(#[trigger] stack@[j]) ==> out@.contains(j as usize),
        decreases stack.len() - i,
    {
        let ghost before = out@;
        let wants = match &stack[i].params {
            FilterParams::ImageOverlay { path, rgba, .. } => rgba.is_none() && path.is_some(),
            _ => false,
        };
        if wants {
            out.push(i);
            proof {
                assert(out@[before.len() as int] == i);
                assert forall|j: int|
                    0 <= j < i + 1 && wants_picture(#[trigger] stack@[j]) implies out@.contains(
                    j as usize,
                ) by {
                    if j < i {
                        let k = choose|k: int| 0 <= k < before.len() && before[k] == j as usize;
                        assert(out@[k] == j as usize);
                    }
                }
            }
        }
        i += 1;
    }
    out
}

/// A filter after its picture was read: the picture and its sides are put in.
pub open spec fn with_picture(p: FilterParams, q: FilterParams, w: u32, h: u32, px: Seq<u8>) -> bool {
    match (p, q) {
        (
            FilterParams::ImageOverlay {
                path,
                rgba,
                tex_w,
                tex_h,
                blend,
                opacity,
                scale,
                rotation,
                offset_x,
                offset_y,
                tile,
            },
            FilterParams::ImageOverlay {
                path: path2,
                rgba: rgba2,
                tex_w: w2,
                tex_h: h2,
                blend: blend2,
                opacity: opacity2,
                scale: scale2,
                rotation: rotation2,
                offset_x: x2,
                offset_y: y2,
                tile: tile2,
            },
        ) => {
            &&& path2 == path
            &&& rgba2 matches Some(v) && v@ == px
            &&& w2 == w
            &&& h2 == h
            &&& blend2 == blend
            &&& opacity2 == opacity
            &&& scale2 == scale
            &&& rotation2 == rotation
            &&& x2 == offset_x
            &&& y2 == offset_y
            &&& tile2 == tile
        },
        _ => false,
    }
}

/// Puts a picture that was read into the filter that needs it.
pub fn hydrate_overlay_image(entry: StackEntry, w: u32, h: u32, px: Vec<u8>) -> (r: StackEntry)
    requires
        wants_picture(entry),
    ensures
        r.advanced_open == entry.advanced_open,
        with_picture(entry.params, r.params, w, h, px@),
{
    let StackEntry { params, advanced_open } = entry;
    let params = match params {
        FilterParams::ImageOverlay {
            path,
            rgba,
            tex_w,
            tex_h,
            blend,
            opacity,
            scale,
            rotation,
            offset_x,
            offset_y,
            tile,
        } => FilterParams::ImageOverlay {
            path,
            rgba: Some(px),
            tex_w: w,
            tex_h: h,
            blend,
            opacity,
            scale,
            rotation,
            offset_x,
            offset_y,
            tile,
        },
        other => other,
    };
    StackEntry { params, advanced_open }
}

} // verus!
