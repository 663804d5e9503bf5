//! The state of the filter studio: its stack, its preview and its presets.
use vstd::prelude::*;
use crate::filters::key::{StackEntry, spec_stack_key, stack_key};
use crate::filters::kind::{StudioFilterKind, StudioVisibility};
use crate::filters::params::FilterParams;
use crate::filters::presets::FilterPreset;

verus! {

/// The picture that the studio works on, at preview size.
pub struct BasePlate {
    /// The layer alone.
    pub original: Vec<u8>,
    /// The layer among all others.
    pub context: Vec<u8>,
    /// The coverage of the selection, where there is one.
    pub cover: Option<Vec<u8>>,
    pub pixels: usize,
}

impl BasePlate {
    pub open spec fn wf(self) -> bool {
        &&& 4 * self.pixels <= usize::MAX
        &&& self.cover matches Some(c) ==> c@.len() >= self.pixels
    }
}

/// The preview and the work on it.
pub struct PreviewState {
    pub base: Option<BasePlate>,
    /// The preview last accepted.
    pub rgba: Option<Vec<u8>>,
    /// Counts accepted previews.
    pub upload_gen: u64,
    /// The key of the preview last accepted; `STALE` after a change.
    pub key: u64,
    /// Counts changes; only work begun after the last one is accepted.
    pub job_gen: u64,
    /// Whether a worker's answers are being listened for.
    pub listening: bool,
    /// The change that a worker is working on.
    pub inflight: Option<u64>,
    /// The plates after each filter, with the keys they were made under.
    pub prefix_cache: Vec<(u64, Vec<u8>)>,
    /// No new work before this time, in milliseconds.
    pub debounce_until: u64,
    /// In thousandths; 0 fits the picture to the pane.
    pub zoom: i32,
    pub pan: (i32, i32),
}

/// The user's presets and the panel that shows them.
pub struct PresetShelf {
    pub user: Vec<FilterPreset>,
    pub name_buf: String,
    pub popup: bool,
    pub status: Option<String>,
}

pub struct FilterStudioState {
    pub open: bool,
    /// Whether closing waits for an answer about the stack.
    pub close_prompt: bool,
    pub stack: Vec<StackEntry>,
    pub selected: Option<usize>,
    pub visibility: StudioVisibility,
    pub preview: PreviewState,
    pub shelf: PresetShelf,
    /// Whether a click on the preview picks a colour.
    pub eyedrop_from: bool,
    pub layer_idx: usize,
    /// Whether the stack is being applied to the document.
    pub applying: bool,
    pub target_layers: Vec<usize>,
}

/// The preview key that no stack is taken to have.
pub const STALE: u64 = 0xffff_ffff_ffff_ffff;

/// The counter after one more step.
pub open spec fn stepped(n: u64) -> u64 {
    if n == u64::MAX {
        0
    } else {
        (n + 1) as u64
    }
}

pub fn step(n: u64) -> (r: u64)
    ensures
        r == stepped(n),
{
    if n == u64::MAX {
        0
    } else {
        n + 1
    }
}

/// A finished preview.
pub struct PreviewJob {
    pub gen: u64,
    pub plate_key: u64,
    pub rgba: Vec<u8>,
    pub intermediates: Vec<(u64, Vec<u8>)>,
}

impl PreviewState {
    /// Whether two states differ at most in what a change touches.
    pub open spec fn stale_of(self, old: PreviewState, keep: Option<usize>) -> bool {
        &&& self.base == old.base
        &&& self.rgba == old.rgba
        &&& self.upload_gen == old.upload_gen
        &&& self.key == STALE
        &&& self.job_gen == stepped(old.job_gen)
        &&& self.listening == old.listening
        &&& self.inflight == old.inflight
        &&& self.prefix_cache@ == kept_prefix(old.prefix_cache@, keep)
        &&& self.debounce_until == old.debounce_until
        &&& self.zoom == old.zoom
        &&& self.pan == old.pan
    }
}

/// The plates that a change at `keep` leaves usable: those before it.
pub open spec fn kept_prefix(cache: Seq<(u64, Vec<u8>)>, keep: Option<usize>) -> Seq<(u64, Vec<u8>)> {
    match keep {
        Some(n) => {
            if n <= cache.len() {
                cache.take(n as int)
            } else {
                cache
            }
        },
        None => Seq::empty(),
    }
}

/// A stack with two of its filters in each other's place.
pub open spec fn swapped(stack: Seq<StackEntry>, i: int, j: int) -> Seq<StackEntry> {
    stack.update(i, stack[j]).update(j, stack[i])
}

/// Moving a filter back undoes its move.
pub proof fn law_moved_back(stack: Seq<StackEntry>, i: int, j: int)
    requires
        0 <= i < stack.len(),
        0 <= j < stack.len(),
    ensures
        swapped(swapped(stack, i, j), j, i) == stack,
{
    assert(swapped(swapped(stack, i, j), j, i) =~= stack);
}

/// Taking out the filter that was added last gives back the stack, and selects
/// the filter before it.
pub proof fn law_added_is_removed(before: Seq<StackEntry>, after: Seq<StackEntry>)
    requires
        after.len() == before.len() + 1,
        after.drop_last() == before,
        before.len() < usize::MAX,
    ensures
        after.remove(before.len() as int) == before,
        FilterStudioState::selected_after_remove(
            Some(before.len() as usize),
            before.len() as usize,
            before.len(),
        ) == (if before.len() == 0 {
            None
        } else {
            Some((before.len() - 1) as usize)
        }),
{
    assert(after.remove(before.len() as int) =~= after.drop_last());
}

impl FilterStudioState {
    /// The selection, where there is one, is a filter of the stack.
    pub open spec fn wf(self) -> bool {
        &&& self.selected matches Some(s) ==> s < self.stack@.len()
        &&& self.preview.base matches Some(b) ==> b.wf()
    }

    /// Whether two states agree in all but the stack, what is selected in it,
    /// and its preview.
    pub open spec fn same_frame(self, other: FilterStudioState) -> bool {
        &&& self.open == other.open
        &&& self.close_prompt == other.close_prompt
        &&& self.visibility == other.visibility
        &&& self.eyedrop_from == other.eyedrop_from
        &&& self.layer_idx == other.layer_idx
        &&& self.applying == other.applying
        &&& self.target_layers == other.target_layers
    }

    pub fn new(user: Vec<FilterPreset>) -> (r: FilterStudioState)
        ensures
            r.wf(),
            !r.open,
            !r.close_prompt,
            !r.applying,
            r.stack@.len() == 0,
            r.selected is None,
            r.visibility == StudioVisibility::AllLayers,
            r.preview.base is None,
            r.preview.rgba is None,
            r.preview.upload_gen == 0,
            r.preview.key == 0,
            r.preview.job_gen == 0,
            r.preview.inflight is None,
            r.preview.prefix_cache@.len() == 0,
            !r.preview.listening,
            r.preview.debounce_until == 0,
            r.preview.zoom == 1000,
            r.preview.pan == (0i32, 0i32),
            r.shelf.user == user,
            r.shelf.name_buf@.len() == 0,
            !r.shelf.popup,
            r.shelf.status is None,
            !r.eyedrop_from,
            r.layer_idx == 0,
            r.target_layers@.len() == 0,
    {
        FilterStudioState {
            open: false,
            close_prompt: false,
            stack: Vec::new(),
            selected: None,
            visibility: StudioVisibility::AllLayers,
            preview: PreviewState {
                base: None,
                rgba: None,
                upload_gen: 0,
                key: 0,
                job_gen: 0,
                listening: false,
                inflight: None,
                prefix_cache: Vec::new(),
                debounce_until: 0,
                zoom: 1000,
                pan: (0, 0),
            },
            shelf: PresetShelf { user, name_buf: String::new(), popup: false, status: None },
            eyedrop_from: false,
            layer_idx: 0,
            applying: false,
            target_layers: Vec::new(),
        }
    }

    /// The layers that the stack will be applied to.
    pub fn set_apply_targets(&mut self, targets: Vec<usize>)
        ensures
            *final(self) == (FilterStudioState { target_layers: targets, ..*old(self) }),
    {
        self.target_layers = targets;
    }

    pub fn is_open(&self) -> (r: bool)
        ensures
            r == self.open,
    {
        self.open
    }

    pub fn is_applying(&self) -> (r: bool)
        ensures
            r == self.applying,
    {
        self.applying
    }

    /// The key of the preview of the stack as it is.
    pub fn stack_key(&self) -> (r: u64)
        ensures
            r == spec_stack_key(self.visibility, self.stack@),
    {
        stack_key(self.visibility, &self.stack)
    }

    pub fn has_pending_stack(&self) -> (r: bool)
        ensures
            r == (self.stack@.len() > 0),
    {
        self.stack.len() > 0
    }

    /// Notes a change: work begun before it is not accepted, and the plates
    /// from the selected filter on are dropped.
    pub fn invalidate_preview(&mut self)
        ensures
            final(self).preview.stale_of(old(self).preview, old(self).selected),
            final(self).stack == old(self).stack,
            final(self).selected == old(self).selected,
            final(self).shelf == old(self).shelf,
            final(self).same_frame(*old(self)),
    {
        self.preview.job_gen = step(self.preview.job_gen);
        self.preview.key = STALE;
        match self.selected {
            Some(sel) => {
                self.preview.prefix_cache.truncate(sel);
            },
            None => {
                self.preview.prefix_cache.clear();
            },
        }
    }

    /// Appends a filter with its default parameters and selects it.
    pub fn add_kind(&mut self, kind: StudioFilterKind)
        ensures
            final(self).stack@.len() == old(self).stack@.len() + 1,
            final(self).stack@.drop_last() == old(self).stack@,
            final(self).stack@.last().params.is_default(kind),
            !final(self).stack@.last().advanced_open,
            final(self).selected == Some(old(self).stack@.len() as usize),
            final(self).preview.stale_of(old(self).preview, final(self).selected),
            final(self).shelf == old(self).shelf,
            final(self).same_frame(*old(self)),
            old(self).wf() ==> final(self).wf(),
    {
        self.stack.push(StackEntry { params: FilterParams::defaults(kind), advanced_open: false });
        self.selected = Some(self.stack.len() - 1);
        self.invalidate_preview();
        assert(self.stack@.drop_last() =~= old(self).stack@);
    }

    /// What is selected after the filter at `i` left a stack, of which `len`
    /// remain: the same filter, or the next one where it was that filter.
    pub open spec fn selected_after_remove(selected: Option<usize>, i: usize, len: nat) -> Option<
        usize,
    > {
        match selected {
            Some(s) => {
                if s == i {
                    if len == 0 {
                        None
                    } else if i < len {
                        Some(i)
                    } else {
                        Some((len - 1) as usize)
                    }
                } else if s > i {
                    Some((s - 1) as usize)
                } else {
                    Some(s)
                }
            },
            None => None,
        }
    }

    /// Takes a filter out of the stack.
    pub fn remove_stack_at(&mut self, i: usize)
        ensures
            i >= old(self).stack@.len() ==> *final(self) == *old(self),
            i < old(self).stack@.len() ==> {
                &&& final(self).stack@ == old(self).stack@.remove(i as int)
                &&& final(self).selected == FilterStudioState::selected_after_remove(
                    old(self).selected,
                    i,
                    final(self).stack@.len(),
                )
                &&& final(self).preview.stale_of(old(self).preview, final(self).selected)
                &&& final(self).shelf == old(self).shelf
                &&& final(self).same_frame(*old(self))
            },
            old(self).wf() ==> final(self).wf(),
    {
        if i >= self.stack.len() {
            return;
        }
        self.stack.remove(i);
        let len: usize = self.stack.len();
        self.selected =
        match self.selected {
            Some(s) => {
                if s == i {
                    if len == 0 {
                        None
                    } else if i < len {
                        Some(i)
                    } else {
                        Some(len - 1)
                    }
                } else if s > i {
                    Some(s - 1)
                } else {
                    Some(s)
                }
            },
            None => None,
        };
        self.invalidate_preview();
    }

    pub fn select_stack_at(&mut self, i: usize)
        ensures
            *final(self) == (if i < old(self).stack@.len() {
                FilterStudioState { selected: Some(i), ..*old(self) }
            } else {
                *old(self)
            }),
            old(self).wf() ==> final(self).wf(),
    {
        if i < self.stack.len() {
            self.selected = Some(i);
        }
    }

    /// Moves a filter by `delta` places and selects it; earlier ones are applied
    /// first. A move past either end does nothing.
    pub fn move_stack(&mut self, i: usize, delta: i32)
        ensures
            ({
                let n = old(self).stack@.len();
                let j = i + delta;
                if i < n && 0 <= j < n {
                    &&& final(self).stack@ == swapped(old(self).stack@, i as int, j)
                    &&& final(self).selected == Some(j as usize)
                    &&& final(self).preview.stale_of(old(self).preview, None)
                    &&& final(self).shelf == old(self).shelf
                    &&& final(self).same_frame(*old(self))
                } else {
                    *final(self) == *old(self)
                }
            }),
            old(self).wf() ==> final(self).wf(),
    {
        let n: usize = self.stack.len();
        if i >= n {
            return;
        }
        let j: i128 = i as i128 + delta as i128;
        if j < 0 || j >= n as i128 {
            return;
        }
        let j: usize = j as usize;
        if i < j {
            let b = self.stack.remove(j);
            let a = self.stack.remove(i);
            self.stack.insert(i, b);
            self.stack.insert(j, a);
        } else if j < i {
            let a = self.stack.remove(i);
            let b = self.stack.remove(j);
            self.stack.insert(j, a);
            self.stack.insert(i, b);
        }
        assert(self.stack@ =~= swapped(old(self).stack@, i as int, j as int));
        self.selected = Some(j);
        self.preview.prefix_cache.clear();
        self.invalidate_preview();
        assert(self.preview.prefix_cache@ =~= Seq::empty());
    }
}

} // verus!
