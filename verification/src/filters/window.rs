//! Opening the studio on a document, applying its stack, and closing it.
use vstd::prelude::*;
use vstd::string::StringExecFns;
use crate::filters::flow::{Flow, Task, turn};
use crate::filters::key::StackEntry;
use crate::filters::kind::{StudioFilterKind, StudioVisibility};
use crate::filters::studio::{
    BasePlate, FilterStudioState, PreviewJob, PreviewState, STALE, step, stepped,
};
use crate::text::{decimal, decimal_text};

verus! {

/// What the studio shows at first: with several layers, or without a selection,
/// the whole picture; a single layer with a selection alone.
pub open spec fn first_visibility(layers: nat, has_selection: bool) -> StudioVisibility {
    if layers <= 1 && has_selection {
        StudioVisibility::ThisLayer
    } else {
        StudioVisibility::AllLayers
    }
}

/// How a question about an unapplied stack was answered.
#[derive(Clone, Copy, Debug, PartialEq, Eq, Structural)]
pub enum CloseAnswer {
    Apply,
    Discard,
    Cancel,
}

impl FilterStudioState {
    /// Opens the studio with an empty stack on its target layers. Without a
    /// target it stays as it is.
    pub fn request_open(&mut self, has_selection: bool) -> (r: bool)
        ensures
            r == (old(self).target_layers@.len() > 0),
            !r ==> *final(self) == *old(self),
            r ==> {
                let s = *final(self);
                &&& s.open
                &&& !s.close_prompt
                &&& s.stack@.len() == 0
                &&& s.selected is None
                &&& s.visibility == first_visibility(old(self).target_layers@.len(), has_selection)
                &&& s.layer_idx == old(self).target_layers@[0]
                &&& !s.eyedrop_from
                &&& s.applying == old(self).applying
                &&& s.target_layers == old(self).target_layers
                &&& s.shelf == old(self).shelf
                &&& s.preview.base == old(self).preview.base
                &&& s.preview.upload_gen == old(self).preview.upload_gen
                &&& s.preview.rgba is None
                &&& s.preview.key == 0
                &&& s.preview.job_gen == 0
                &&& !s.preview.listening
                &&& s.preview.inflight is None
                &&& s.preview.prefix_cache@.len() == 0
                &&& s.preview.debounce_until == 0
                &&& s.preview.zoom == 0
                &&& s.preview.pan == (0i32, 0i32)
            },
            old(self).wf() ==> final(self).wf(),
    {
        if self.target_layers.len() == 0 {
            return false;
        }
        self.open = true;
        self.close_prompt = false;
        self.stack.clear();
        self.selected = None;
        self.visibility =
        if self.target_layers.len() > 1 {
            StudioVisibility::AllLayers
        } else if has_selection {
            StudioVisibility::ThisLayer
        } else {
            StudioVisibility::AllLayers
        };
        self.preview.zoom = 0;
        self.preview.pan = (0, 0);
        self.preview.rgba = None;
        self.preview.key = 0;
        self.preview.job_gen = 0;
        self.preview.listening = false;
        self.preview.inflight = None;
        self.preview.prefix_cache.clear();
        self.preview.debounce_until = 0;
        self.eyedrop_from = false;
        self.layer_idx = self.target_layers[0];
        true
    }

    /// Takes new plates of the document, or notes that there is nothing to
    /// filter. New plates make every earlier preview stale and fit the picture
    /// to the pane.
    pub fn rebuild_base(&mut self, base: Option<BasePlate>)
        requires
            base matches Some(b) ==> b.wf(),
        ensures
            final(self).preview.base == base,
            base is None ==> final(self).preview == (PreviewState { base: None, ..old(self).preview }),
            base is Some ==> {
                let p = final(self).preview;
                &&& p.key == STALE
                &&& p.job_gen == stepped(old(self).preview.job_gen)
                &&& p.rgba is None
                &&& p.prefix_cache@.len() == 0
                &&& p.zoom == 0
                &&& p.pan == (0i32, 0i32)
                &&& p.upload_gen == old(self).preview.upload_gen
                &&& p.listening == old(self).preview.listening
                &&& p.inflight == old(self).preview.inflight
                &&& p.debounce_until == old(self).preview.debounce_until
            },
            final(self).stack == old(self).stack,
            final(self).selected == old(self).selected,
            final(self).shelf == old(self).shelf,
            final(self).same_frame(*old(self)),
            old(self).wf() ==> final(self).wf(),
    {
        if base.is_some() {
            self.preview.prefix_cache.clear();
            self.preview.key = STALE;
            self.preview.job_gen = step(self.preview.job_gen);
            self.preview.rgba = None;
            self.preview.zoom = 0;
            self.preview.pan = (0, 0);
        }
        self.preview.base = base;
    }

    /// Follows the document to another layer, where that layer can be painted
    /// on. True where the plates have to be taken anew.
    pub fn follow_layer(&mut self, active: usize, paintable: bool) -> (r: bool)
        ensures
            r == (old(self).layer_idx != active && paintable),
            *final(self) == (if r {
                FilterStudioState { layer_idx: active, ..*old(self) }
            } else {
                *old(self)
            }),
    {
        if self.layer_idx != active && paintable {
            self.layer_idx = active;
            true
        } else {
            false
        }
    }

    /// Starts applying the stack. True where there is one and nothing is being
    /// applied yet.
    pub fn begin_apply(&mut self) -> (r: bool)
        ensures
            r == (!old(self).applying && old(self).stack@.len() > 0),
            *final(self) == (if r {
                FilterStudioState { applying: true, ..*old(self) }
            } else {
                *old(self)
            }),
    {
        if self.applying || self.stack.len() == 0 {
            return false;
        }
        self.applying = true;
        true
    }

    /// Whether `self` is `old` after the studio was closed.
    pub open spec fn closed_of(self, old: FilterStudioState) -> bool {
        &&& !self.open
        &&& !self.close_prompt
        &&& !self.applying
        &&& !self.eyedrop_from
        &&& self.stack@.len() == 0
        &&& self.selected is None
        &&& self.visibility == old.visibility
        &&& self.layer_idx == old.layer_idx
        &&& self.target_layers == old.target_layers
        &&& self.shelf == old.shelf
        &&& self.preview.base is None
        &&& self.preview.rgba is None
        &&& self.preview.upload_gen == stepped(old.preview.upload_gen)
        &&& self.preview.job_gen == stepped(old.preview.job_gen)
        &&& self.preview.key == old.preview.key
        &&& !self.preview.listening
        &&& self.preview.inflight is None
        &&& self.preview.prefix_cache@.len() == 0
        &&& self.preview.debounce_until == old.preview.debounce_until
        &&& self.preview.zoom == old.preview.zoom
        &&& self.preview.pan == old.preview.pan
    }

    /// Closes the studio and lets go of its pictures.
    pub fn close_clean(&mut self)
        ensures
            final(self).closed_of(*old(self)),
            final(self).wf(),
    {
        self.preview.job_gen = step(self.preview.job_gen);
        self.open = false;
        self.close_prompt = false;
        self.stack.clear();
        self.selected = None;
        self.preview.base = None;
        self.preview.rgba = None;
        self.preview.upload_gen = step(self.preview.upload_gen);
        self.preview.listening = false;
        self.preview.inflight = None;
        self.preview.prefix_cache.clear();
        self.eyedrop_from = false;
        self.applying = false;
    }

    /// Notes how applying ended: the studio closes after a success and stays
    /// open after a failure. False where nothing was being applied.
    pub fn apply_ended(&mut self, success: bool) -> (r: bool)
        ensures
            r == (old(self).applying && success),
            !old(self).applying ==> *final(self) == *old(self),
            old(self).applying && success ==> final(self).closed_of(*old(self)),
            old(self).applying && !success ==> *final(self) == (FilterStudioState {
                applying: false,
                ..*old(self)
            }),
            old(self).wf() ==> final(self).wf(),
    {
        if !self.applying {
            return false;
        }
        if success {
            self.close_clean();
            true
        } else {
            self.applying = false;
            false
        }
    }

    /// Wants to close the studio. A stack that was not applied is asked about
    /// first. True where the studio is closed.
    pub fn want_close(&mut self) -> (r: bool)
        ensures
            r == (old(self).stack@.len() == 0),
            r ==> final(self).closed_of(*old(self)),
            !r ==> *final(self) == (FilterStudioState {
                close_prompt: true,
                open: true,
                ..*old(self)
            }),
            old(self).wf() ==> final(self).wf(),
    {
        if self.has_pending_stack() {
            self.close_prompt = true;
            self.open = true;
            false
        } else {
            self.close_clean();
            true
        }
    }

    /// Takes the answer about an unapplied stack. True where applying starts.
    pub fn answer_close(&mut self, answer: CloseAnswer) -> (r: bool)
        ensures
            r == (answer is Apply && !old(self).applying && old(self).stack@.len() > 0),
            match answer {
                CloseAnswer::Apply => *final(self) == (FilterStudioState {
                    close_prompt: false,
                    applying: old(self).applying || r,
                    ..*old(self)
                }),
                CloseAnswer::Discard => final(self).closed_of(*old(self)),
                CloseAnswer::Cancel => *final(self) == (FilterStudioState {
                    close_prompt: false,
                    ..*old(self)
                }),
            },
            old(self).wf() ==> final(self).wf(),
    {
        match answer {
            CloseAnswer::Apply => {
                let started: bool = self.begin_apply();
                self.close_prompt = false;
                started
            },
            CloseAnswer::Discard => {
                self.close_clean();
                false
            },
            CloseAnswer::Cancel => {
                self.close_prompt = false;
                false
            },
        }
    }

    /// Escape closes an open studio, but not over the question.
    pub fn escape(&mut self)
        ensures
            !(old(self).open && !old(self).close_prompt) ==> *final(self) == *old(self),
            old(self).open && !old(self).close_prompt && old(self).stack@.len() == 0
                ==> final(self).closed_of(*old(self)),
            old(self).open && !old(self).close_prompt && old(self).stack@.len() > 0 ==> *final(self)
                == (FilterStudioState { close_prompt: true, ..*old(self) }),
            old(self).wf() ==> final(self).wf(),
    {
        if self.open && !self.close_prompt {
            self.want_close();
        }
    }

    /// How many filters of a kind the stack has.
    pub fn count_kind(&self, kind: StudioFilterKind) -> (r: usize)
        ensures
            r == kind_count(self.stack@, kind),
    {
        let n: usize = self.stack.len();
        let mut count: usize = 0;
        let mut i: usize = 0;
        while i < n
            invariant
                i <= n,
                n == self.stack.len(),
                count <= i,
                count == kind_count(self.stack@.take(i as int), kind),
            decreases n - i,
        {
            if self.stack[i].params.kind() == kind {
                count += 1;
            }
            i += 1;
            assert(self.stack@.take(i as int).drop_last() =~= self.stack@.take(i - 1));
        }
        assert(self.stack@.take(n as int) =~= self.stack@);
        count
    }
}

/// How many filters of a kind a stack has.
pub open spec fn kind_count(stack: Seq<StackEntry>, kind: StudioFilterKind) -> nat
    decreases stack.len(),
{
    if stack.len() == 0 {
        0
    } else {
        kind_count(stack.drop_last(), kind) + if stack.last().params.spec_kind() == kind {
            1nat
        } else {
            0
        }
    }
}

/// The label of the button that adds a filter: marked where the stack has one,
/// and counted where it has more.
pub open spec fn spec_chip_label(kind: StudioFilterKind, count: usize) -> Seq<char> {
    if count == 0 {
        kind.spec_label()@
    } else if count == 1 {
        "✓ "@ + kind.spec_label()@
    } else {
        "✓ "@ + kind.spec_label()@ + " ×"@ + decimal(count as nat)
    }
}

pub fn chip_label(kind: StudioFilterKind, count: usize) -> (r: String)
    ensures
        r@ == spec_chip_label(kind, count),
{
    if count == 0 {
        kind.label().to_owned()
    } else {
        let mut out = "✓ ".to_owned();
        out.append(kind.label());
        if count > 1 {
            out.append(" ×");
            out.append(decimal_text(count as u64).as_str());
        }
        out
    }
}

/// A preview made for an earlier change, or for another stack, is never shown:
/// while the stack has a filter, the picture changes only to a preview of that
/// very stack.
pub proof fn law_only_current_preview_shown(
    f: Flow,
    task: Task,
    job: Option<PreviewJob>,
    dead: bool,
    now: u64,
    until: u64,
)
    requires
        task.filters > 0,
    ensures
        ({
            let t = turn(f, task, job, dead, now, until);
            if job is Some && task.accepts(job->0) {
                t.flow.rgba == Some(job->0.rgba@) && t.flow.key == task.key
            } else {
                t.flow.rgba == f.rgba && t.flow.key == f.key && t.flow.cache == f.cache
            }
        }),
{
}

/// Two workers are never at work on the same change: one is started only when
/// none is known to be at work on it, and is then known.
pub proof fn law_one_worker_per_change(
    f: Flow,
    task: Task,
    job: Option<PreviewJob>,
    dead: bool,
    now: u64,
    until: u64,
)
    ensures
        ({
            let t = turn(f, task, job, dead, now, until);
            &&& t.starts ==> t.flow.inflight == Some(task.gen) && t.flow.listening
            &&& f.inflight == Some(task.gen) && job is None && !dead ==> !t.starts
        }),
{
}

} // verus!
