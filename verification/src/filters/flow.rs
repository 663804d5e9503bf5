//! The work on the preview from frame to frame.
use vstd::prelude::*;
use crate::filters::cover::{opt_view, punch_selection_alpha, punched};
use crate::filters::key::spec_stack_key;
use crate::filters::kind::StudioVisibility;
use crate::filters::studio::{
    BasePlate, FilterStudioState, PreviewJob, PreviewState, STALE, step, stepped,
};

verus! {

/// How long a changed slider waits before a preview is made, in milliseconds.
pub const DEBOUNCE_MS: u64 = 70;

/// The part of the preview that work on it changes.
#[verifier::ext_equal]
pub struct Flow {
    pub rgba: Option<Seq<u8>>,
    pub upload_gen: u64,
    pub key: u64,
    pub listening: bool,
    pub inflight: Option<u64>,
    pub cache: Seq<(u64, Vec<u8>)>,
}

/// What the work depends on: the plates, how many filters there are, what is
/// shown, the stack's key and the number of the last change.
pub struct Task {
    pub base: Option<BasePlate>,
    pub filters: nat,
    pub visibility: StudioVisibility,
    pub key: u64,
    pub gen: u64,
}

impl PreviewState {
    pub open spec fn flow(self) -> Flow {
        Flow {
            rgba: opt_view(self.rgba),
            upload_gen: self.upload_gen,
            key: self.key,
            listening: self.listening,
            inflight: self.inflight,
            cache: self.prefix_cache@,
        }
    }

    /// Whether two states agree in what work on the preview leaves alone.
    pub open spec fn same_task(self, other: PreviewState) -> bool {
        &&& self.base == other.base
        &&& self.job_gen == other.job_gen
        &&& self.debounce_until == other.debounce_until
        &&& self.zoom == other.zoom
        &&& self.pan == other.pan
    }
}

/// The preview of an empty stack: the plate itself, faded out beyond the
/// selection.
pub open spec fn plain_preview(base: BasePlate, v: StudioVisibility) -> Seq<u8> {
    punched(
        match v {
            StudioVisibility::ThisLayer => base.original@,
            StudioVisibility::AllLayers => base.context@,
        },
        base.pixels as int,
        opt_view(base.cover),
    )
}

impl Task {
    /// Whether starting work now would start a worker.
    pub open spec fn starts(self, f: Flow) -> bool {
        self.base is Some && f.inflight != Some(self.gen) && self.filters > 0
    }

    /// The state after work was asked for: nothing changes without plates or
    /// while the current change is being worked on; an empty stack is shown at
    /// once; otherwise a worker is started.
    pub open spec fn kicked(self, f: Flow) -> Flow {
        if self.base is None || f.inflight == Some(self.gen) {
            f
        } else if self.filters == 0 {
            Flow {
                rgba: Some(plain_preview(self.base->0, self.visibility)),
                key: self.key,
                inflight: None,
                upload_gen: stepped(f.upload_gen),
                ..f
            }
        } else {
            Flow { listening: true, inflight: Some(self.gen), ..f }
        }
    }

    /// Whether a finished preview is of the stack as it is now.
    pub open spec fn accepts(self, job: PreviewJob) -> bool {
        job.gen == self.gen && job.plate_key == self.key
    }
}

/// A state of the work, whether a worker was started on the way, and in how
/// many milliseconds the next frame is due at the latest.
pub struct Turn {
    pub flow: Flow,
    pub starts: bool,
    pub wait: Option<int>,
}

pub open spec fn sooner(a: Option<int>, b: int) -> Option<int> {
    match a {
        Some(x) => Some(
            if x < b {
                x
            } else {
                b
            },
        ),
        None => Some(b),
    }
}

impl Turn {
    /// Work is asked for, and a frame soon.
    pub open spec fn kicked(self, task: Task, wait: int) -> Turn {
        Turn {
            flow: task.kicked(self.flow),
            starts: self.starts || task.starts(self.flow),
            wait: sooner(self.wait, wait),
        }
    }
}

/// How long to wait for a slider to rest: at least 16 milliseconds, at most 80.
pub open spec fn pace(until: u64, now: u64) -> int {
    let left = if until > now {
        until - now
    } else {
        0
    };
    if left < 16 {
        16
    } else if left > 80 {
        80
    } else {
        left
    }
}

/// The turn of a frame, step by step: a worker that died is replaced; a
/// finished preview is taken or, where the stack has changed, work is asked for
/// again; a changed stack is worked on once its sliders rest; and a preview
/// that is missing is asked for.
pub open spec fn turn(
    f: Flow,
    task: Task,
    job: Option<PreviewJob>,
    dead: bool,
    now: u64,
    until: u64,
) -> Turn {
    let t0 = Turn { flow: f, starts: false, wait: None };
    let t1 = if dead && job is None {
        Turn { flow: Flow { listening: false, inflight: None, ..f }, ..t0 }.kicked(task, 16)
    } else {
        t0
    };
    let t2 = match job {
        Some(j) => {
            if task.accepts(j) {
                Turn {
                    flow: Flow {
                        inflight: None,
                        cache: j.intermediates@,
                        rgba: Some(j.rgba@),
                        key: task.key,
                        upload_gen: stepped(t1.flow.upload_gen),
                        ..t1.flow
                    },
                    wait: sooner(t1.wait, 0),
                    ..t1
                }
            } else {
                Turn {
                    flow: Flow {
                        inflight: if t1.flow.inflight == Some(j.gen) {
                            None
                        } else {
                            t1.flow.inflight
                        },
                        ..t1.flow
                    },
                    ..t1
                }.kicked(task, 16)
            }
        },
        None => {
            if task.key != t1.flow.key {
                if now >= until {
                    t1.kicked(task, pace(until, now))
                } else {
                    Turn { wait: sooner(t1.wait, pace(until, now)), ..t1 }
                }
            } else if t1.flow.inflight is Some {
                Turn { wait: sooner(t1.wait, 16), ..t1 }
            } else {
                t1
            }
        },
    };
    if t2.flow.rgba is None && task.base is Some && t2.flow.inflight is None {
        t2.kicked(task, 16)
    } else {
        t2
    }
}

/// What a frame asks for: a worker for a change and key, and when to draw the
/// next frame, in milliseconds.
pub struct FrameResult {
    pub work: Option<(u64, u64)>,
    pub wait: Option<u64>,
}

fn earlier(a: Option<u64>, b: u64) -> (r: Option<u64>)
    ensures
        r is Some,
        Some(r->0 as int) == sooner(
            match a {
                Some(x) => Some(x as int),
                None => None,
            },
            b as int,
        ),
{
    match a {
        Some(x) => {
            if x < b {
                Some(x)
            } else {
                Some(b)
            }
        },
        None => Some(b),
    }
}

pub open spec fn opt_int(a: Option<u64>) -> Option<int> {
    match a {
        Some(x) => Some(x as int),
        None => None,
    }
}

impl FilterStudioState {
    pub open spec fn task(self) -> Task {
        Task {
            base: self.preview.base,
            filters: self.stack@.len(),
            visibility: self.visibility,
            key: spec_stack_key(self.visibility, self.stack@),
            gen: self.preview.job_gen,
        }
    }

    /// Asks for work on the preview. Gives the change and the key that a worker
    /// is to be started for.
    pub fn kick_preview_job(&mut self) -> (r: Option<(u64, u64)>)
        requires
            old(self).wf(),
        ensures
            final(self).preview.flow() == old(self).task().kicked(old(self).preview.flow()),
            final(self).preview.same_task(old(self).preview),
            r == (if old(self).task().starts(old(self).preview.flow()) {
                Some((old(self).preview.job_gen, old(self).task().key))
            } else {
                None
            }),
            final(self).stack == old(self).stack,
            final(self).selected == old(self).selected,
            final(self).shelf == old(self).shelf,
            final(self).same_frame(*old(self)),
            final(self).wf(),
    {
        let busy: bool = match self.preview.inflight {
            Some(gen) => gen == self.preview.job_gen,
            None => false,
        };
        if busy {
            return None;
        }
        let plain: Option<Vec<u8>> = match &self.preview.base {
            None => {
                return None;
            },
            Some(base) => {
                if self.stack.len() == 0 {
                    let plate: Vec<u8> = match self.visibility {
                        StudioVisibility::ThisLayer => copy_plate(&base.original),
                        StudioVisibility::AllLayers => copy_plate(&base.context),
                    };
                    Some(punch_selection_alpha(plate, base.pixels, &base.cover))
                } else {
                    None
                }
            },
        };
        let key: u64 = self.stack_key();
        match plain {
            Some(rgba) => {
                self.preview.rgba = Some(rgba);
                self.preview.key = key;
                self.preview.inflight = None;
                self.preview.upload_gen = step(self.preview.upload_gen);
                None
            },
            None => {
                self.preview.listening = true;
                self.preview.inflight = Some(self.preview.job_gen);
                Some((self.preview.job_gen, key))
            },
        }
    }

    /// Notes what the controls did in this frame. A slider's change waits for
    /// the slider to rest; a change of the stack itself does not.
    pub fn settle(&mut self, now: u64, changed: bool)
        ensures
            !changed ==> *final(self) == *old(self),
            changed && old(self).preview.key == STALE ==> *final(self) == (FilterStudioState {
                preview: PreviewState { debounce_until: now, ..old(self).preview },
                ..*old(self)
            }),
            changed && old(self).preview.key != STALE ==> {
                let p = final(self).preview;
                &&& PreviewState { debounce_until: old(self).preview.debounce_until, ..p }.stale_of(
                    old(self).preview,
                    old(self).selected,
                )
                &&& p.debounce_until == (if now > u64::MAX - DEBOUNCE_MS {
                    u64::MAX
                } else {
                    (now + DEBOUNCE_MS) as u64
                })
                &&& final(self).stack == old(self).stack
                &&& final(self).selected == old(self).selected
                &&& final(self).shelf == old(self).shelf
                &&& final(self).same_frame(*old(self))
            },
            old(self).wf() ==> final(self).wf(),
    {
        if changed {
            if self.preview.key != STALE {
                self.invalidate_preview();
                self.preview.debounce_until = now.saturating_add(DEBOUNCE_MS);
            } else {
                self.preview.debounce_until = now;
            }
        }
    }

    /// Takes what the workers sent since the last frame, and asks for work where
    /// it is needed.
    pub fn after_frame(&mut self, now: u64, job: Option<PreviewJob>, dead: bool) -> (r: FrameResult)
        requires
            old(self).wf(),
        ensures
            ({
                let t = turn(
                    old(self).preview.flow(),
                    old(self).task(),
                    job,
                    dead,
                    now,
                    old(self).preview.debounce_until,
                );
                &&& final(self).preview.flow() == t.flow
                &&& r.work == (if t.starts {
                    Some((old(self).preview.job_gen, old(self).task().key))
                } else {
                    None
                })
                &&& opt_int(r.wait) == t.wait
            }),
            final(self).preview.same_task(old(self).preview),
            final(self).stack == old(self).stack,
            final(self).selected == old(self).selected,
            final(self).shelf == old(self).shelf,
            final(self).same_frame(*old(self)),
            final(self).wf(),
    {
        let key: u64 = self.stack_key();
        let ghost task = self.task();
        let mut work: Option<(u64, u64)> = None;
        let mut wait: Option<u64> = None;
        if dead && job.is_none() {
            self.preview.listening = false;
            self.preview.inflight = None;
            work = self.kick_preview_job();
            wait = earlier(wait, 16);
        }
        match job {
            Some(j) => {
                if j.gen == self.preview.job_gen && j.plate_key == key {
                    self.preview.inflight = None;
                    self.preview.prefix_cache = j.intermediates;
                    self.preview.rgba = Some(j.rgba);
                    self.preview.key = key;
                    self.preview.upload_gen = step(self.preview.upload_gen);
                    wait = earlier(wait, 0);
                } else {
                    let its: bool = match self.preview.inflight {
                        Some(gen) => gen == j.gen,
                        None => false,
                    };
                    if its {
                        self.preview.inflight = None;
                    }
                    let more = self.kick_preview_job();
                    if more.is_some() {
                        work = more;
                    }
                    wait = earlier(wait, 16);
                }
            },
            None => {
                if key != self.preview.key {
                    if now >= self.preview.debounce_until {
                        let more = self.kick_preview_job();
                        if more.is_some() {
                            work = more;
                        }
                    }
                    let left: u64 = if self.preview.debounce_until > now {
                        self.preview.debounce_until - now
                    } else {
                        0
                    };
                    wait =
                    earlier(
                        wait,
                        if left < 16 {
                            16
                        } else if left > 80 {
                            80
                        } else {
                            left
                        },
                    );
                } else if self.preview.inflight.is_some() {
                    wait = earlier(wait, 16);
                }
            },
        }
        if self.preview.rgba.is_none() && self.preview.base.is_some()
            && self.preview.inflight.is_none() {
            let more = self.kick_preview_job();
            if more.is_some() {
                work = more;
            }
            wait = earlier(wait, 16);
        }
        FrameResult { work, wait }
    }
}

fn copy_plate(v: &Vec<u8>) -> (r: Vec<u8>)
    ensures
        r@ == v@,
{
    let r = v.clone();
    assert(r@ =~= v@);
    r
}

} // verus!
