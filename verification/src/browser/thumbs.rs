//! Making the small pictures and the large preview.
use vstd::prelude::*;
use crate::browser::moves::is_that;
use crate::browser::state::{Detail, DetailPreview, Thumbnails, Thumbs, next_gen, step_gen};
use crate::paths::parts::{drop_path, has_path, has_place, same_path, same_place, without};
use crate::text::texts;

verus! {

/// How many small pictures are made at a time.
pub const MAX_PARALLEL: usize = 8;

/// What the makers of small pictures have to say.
pub enum ThumbEvent {
    Made { path: String },
    Failed { path: String },
    /// They all ended without an answer.
    Gone,
}

/// A picture to be made: its number and its file.
pub struct ThumbJob {
    pub gen: u64,
    pub path: String,
}

pub open spec fn job_views(v: Seq<ThumbJob>) -> Seq<(u64, Seq<char>)> {
    v.map_values(|j: ThumbJob| (j.gen, j.path@))
}

/// The work and the jobs that are started: files are taken from the front of
/// the queue, as long as there is room, and those that have a picture or whose
/// picture is under way are passed over.
pub open spec fn started(t: Thumbs, jobs: Seq<(u64, Seq<char>)>) -> (Thumbs, Seq<(u64, Seq<char>)>)
    decreases t.queue.len(),
{
    if t.inflight >= MAX_PARALLEL || t.queue.len() == 0 {
        (t, jobs)
    } else {
        let p = t.queue[0];
        let rest = Thumbs { queue: t.queue.drop_first(), ..t };
        if has_place(t.ready, p, t.system) || has_place(t.pending, p, t.system) {
            started(rest, jobs)
        } else {
            started(
                Thumbs {
                    gen: next_gen(t.gen),
                    pending: t.pending.push(p),
                    inflight: (t.inflight + 1) as usize,
                    listening: true,
                    ..rest
                },
                jobs.push((next_gen(t.gen), p)),
            )
        }
    }
}

/// The work after an answer.
pub open spec fn answered(t: Thumbs, event: ThumbEvent) -> Thumbs {
    let fewer: usize = if t.inflight == 0 {
        0
    } else {
        (t.inflight - 1) as usize
    };
    match event {
        ThumbEvent::Made { path } => Thumbs {
            inflight: fewer,
            pending: without(t.pending, path@, t.system),
            ready: if has_place(t.ready, path@, t.system) {
                t.ready
            } else {
                t.ready.push(path@)
            },
            ..t
        },
        ThumbEvent::Failed { path } => Thumbs {
            inflight: fewer,
            pending: without(t.pending, path@, t.system),
            ..t
        },
        ThumbEvent::Gone => Thumbs { listening: false, inflight: 0, ..t },
    }
}

impl Thumbnails {
    /// Starts as many pictures as there is room for.
    pub fn kick(&mut self) -> (r: Vec<ThumbJob>)
        ensures
            (final(self)@, job_views(r@)) == started(old(self)@, Seq::empty()),
    {
        let mut jobs: Vec<ThumbJob> = Vec::new();
        assert(job_views(jobs@) =~= Seq::empty());
        while self.inflight < MAX_PARALLEL && self.queue.len() > 0
            invariant
                started(old(self)@, Seq::empty()) == started(self@, job_views(jobs@)),
            decreases self.queue.len(),
        {
            let ghost t = self@;
            let ghost js = job_views(jobs@);
            let path = self.queue.remove(0);
            assert(texts(self.queue@) =~= t.queue.drop_first());
            assert(path@ == t.queue[0]);
            if !has_path(&self.ready, path.as_str(), self.system) && !has_path(
                &self.pending,
                path.as_str(),
                self.system,
            ) {
                self.listening = true;
                self.gen = step_gen(self.gen);
                self.pending.push(path.as_str().to_owned());
                assert(texts(self.pending@) =~= t.pending.push(path@));
                self.inflight = self.inflight + 1;
                let job = ThumbJob { gen: self.gen, path };
                jobs.push(job);
                assert(job_views(jobs@) =~= js.push((self.gen, path@)));
            }
        }
        assert(self@.queue.len() == self.queue.len());
        jobs
    }

    /// Takes note of an answer; it counts only while answers are expected.
    pub fn note(&mut self, event: ThumbEvent)
        ensures
            final(self)@ == (if old(self)@.listening {
                answered(old(self)@, event)
            } else {
                old(self)@
            }),
    {
        if !self.listening {
            return ;
        }
        match event {
            ThumbEvent::Made { path } => {
                self.inflight = self.inflight.saturating_sub(1);
                drop_path(&mut self.pending, path.as_str(), self.system);
                if !has_path(&self.ready, path.as_str(), self.system) {
                    let ghost before = texts(self.ready@);
                    self.ready.push(path);
                    assert(texts(self.ready@) =~= before.push(path@));
                }
            },
            ThumbEvent::Failed { path } => {
                self.inflight = self.inflight.saturating_sub(1);
                drop_path(&mut self.pending, path.as_str(), self.system);
            },
            ThumbEvent::Gone => {
                self.listening = false;
                self.inflight = 0;
            },
        }
    }
}

/// What the maker of the large preview has to say.
pub enum DetailEvent {
    Made { gen: u64, path: String },
    Failed { gen: u64, path: String },
    /// It is still at work.
    Busy,
    /// It ended without an answer.
    Gone,
}

impl Detail {
    /// The preview asked for a file. One that is there or under way is not
    /// asked for again.
    pub open spec fn asked(self, path: Seq<char>) -> Detail {
        if self.kept(path) {
            self
        } else {
            Detail {
                path: Some(path),
                ready: false,
                waiting: true,
                gen: next_gen(self.gen),
                ..self
            }
        }
    }

    /// Whether the preview of a file is there or under way.
    pub open spec fn kept(self, path: Seq<char>) -> bool {
        is_that(self.path, path, self.system) && (self.ready || self.waiting)
    }

    /// Whether an answer is to what was asked last.
    pub open spec fn expects(self, gen: u64, path: Seq<char>) -> bool {
        gen == self.gen && is_that(self.path, path, self.system)
    }

    /// The preview after an answer.
    pub open spec fn answered(self, event: DetailEvent) -> Detail {
        if !self.waiting {
            self
        } else {
            match event {
                DetailEvent::Made { gen, path } => Detail {
                    ready: self.ready || self.expects(gen, path@),
                    waiting: false,
                    ..self
                },
                DetailEvent::Failed { gen, path } => Detail {
                    ready: self.ready && !self.expects(gen, path@),
                    waiting: false,
                    ..self
                },
                DetailEvent::Busy => self,
                DetailEvent::Gone => Detail { waiting: false, ..self },
            }
        }
    }
}

impl DetailPreview {
    fn is_of(&self, path: &str) -> (r: bool)
        ensures
            r == is_that(self@.path, path@, self.system),
    {
        match &self.path {
            Some(p) => same_path(p.as_str(), path, self.system),
            None => false,
        }
    }

    /// Asks for the preview of a file; tells whether it is to be made.
    pub fn ask(&mut self, path: &str) -> (r: bool)
        ensures
            final(self)@ == old(self)@.asked(path@),
            r == !old(self)@.kept(path@),
    {
        if self.is_of(path) && (self.ready || self.waiting) {
            return false;
        }
        self.path = Some(path.to_owned());
        self.ready = false;
        self.gen = step_gen(self.gen);
        self.waiting = true;
        true
    }

    /// Takes note of an answer. Only one to what was asked last shows.
    pub fn note(&mut self, event: DetailEvent)
        ensures
            final(self)@ == old(self)@.answered(event),
    {
        if !self.waiting {
            return ;
        }
        match event {
            DetailEvent::Made { gen, path } => {
                if gen == self.gen && self.is_of(path.as_str()) {
                    self.ready = true;
                }
                self.waiting = false;
            },
            DetailEvent::Failed { gen, path } => {
                if gen == self.gen && self.is_of(path.as_str()) {
                    self.ready = false;
                }
                self.waiting = false;
            },
            DetailEvent::Busy => {},
            DetailEvent::Gone => {
                self.waiting = false;
            },
        }
    }
}

/// No more small pictures are under way than may be, if no more were; and
/// after a start there is no room left or nothing left to make.
pub proof fn law_started(t: Thumbs, jobs: Seq<(u64, Seq<char>)>)
    requires
        t.inflight <= MAX_PARALLEL,
    ensures
        started(t, jobs).0.inflight <= MAX_PARALLEL,
        started(t, jobs).0.inflight == MAX_PARALLEL || started(t, jobs).0.queue.len() == 0,
        started(t, jobs).0.inflight - t.inflight == started(t, jobs).1.len() - jobs.len(),
        started(t, jobs).0.ready == t.ready,
    decreases t.queue.len(),
{
    if t.inflight < MAX_PARALLEL && t.queue.len() > 0 {
        let p = t.queue[0];
        let rest = Thumbs { queue: t.queue.drop_first(), ..t };
        if has_place(t.ready, p, t.system) || has_place(t.pending, p, t.system) {
            law_started(rest, jobs);
        } else {
            law_started(
                Thumbs {
                    gen: next_gen(t.gen),
                    pending: t.pending.push(p),
                    inflight: (t.inflight + 1) as usize,
                    listening: true,
                    ..rest
                },
                jobs.push((next_gen(t.gen), p)),
            );
        }
    }
}

/// A preview that was asked for before another is never shown.
pub proof fn law_only_last_preview_shows(d: Detail, path: Seq<char>, gen: u64, other: String)
    requires
        !d.kept(path),
        gen != d.asked(path).gen || !same_place(path, other@, d.system),
    ensures
        !d.asked(path).answered(DetailEvent::Made { gen, path: other }).ready,
{
}

/// Pictures are begun in the order in which they were asked for, only of files
/// that have none and get none; what was begun is waited for.
pub proof fn law_started_in_order(t: Thumbs, jobs: Seq<(u64, Seq<char>)>)
    ensures
        ({
            let (u, r) = started(t, jobs);
            &&& jobs.is_prefix_of(r)
            &&& t.pending.is_prefix_of(u.pending)
            &&& u.pending.len() - t.pending.len() == r.len() - jobs.len()
            &&& forall|k: int|
                jobs.len() <= k < r.len() ==> (#[trigger] r[k]).1 == u.pending[t.pending.len() + (k
                    - jobs.len())] && t.queue.contains(r[k].1) && !has_place(
                    t.ready,
                    r[k].1,
                    t.system,
                )
            &&& t.inflight < MAX_PARALLEL && t.queue.len() > 0 && !has_place(
                t.ready,
                t.queue[0],
                t.system,
            ) && !has_place(t.pending, t.queue[0], t.system) ==> r.len() > jobs.len() && r[jobs.len() as int].1
                == t.queue[0]
        }),
    decreases t.queue.len(),
{
    let (u, r) = started(t, jobs);
    if t.inflight >= MAX_PARALLEL || t.queue.len() == 0 {
        assert(jobs =~= r.take(jobs.len() as int));
        assert(t.pending =~= u.pending.take(t.pending.len() as int));
    } else {
        let p = t.queue[0];
        let rest = Thumbs { queue: t.queue.drop_first(), ..t };
        let skip = has_place(t.ready, p, t.system) || has_place(t.pending, p, t.system);
        let t2 = if skip {
            rest
        } else {
            Thumbs {
                gen: next_gen(t.gen),
                pending: t.pending.push(p),
                inflight: (t.inflight + 1) as usize,
                listening: true,
                ..rest
            }
        };
        let jobs2 = if skip {
            jobs
        } else {
            jobs.push((next_gen(t.gen), p))
        };
        law_started_in_order(t2, jobs2);
        assert(jobs =~= jobs2.take(jobs.len() as int));
        assert(jobs2 =~= r.take(jobs2.len() as int));
        assert(jobs =~= r.take(jobs.len() as int));
        assert(t2.pending =~= u.pending.take(t2.pending.len() as int));
        assert(t.pending =~= t2.pending.take(t.pending.len() as int));
        assert(t.pending =~= u.pending.take(t.pending.len() as int));
        if !skip {
            assert(r[jobs.len() as int] == jobs2[jobs.len() as int]);
            assert(u.pending[t.pending.len() as int] == t2.pending[t.pending.len() as int]);
        }
        assert forall|k: int| jobs.len() <= k < r.len() implies (#[trigger] r[k]).1
            == u.pending[t.pending.len() + (k - jobs.len())] && t.queue.contains(r[k].1)
            && !has_place(t.ready, r[k].1, t.system) by {
            if k >= jobs2.len() {
                assert(rest.queue.contains(r[k].1));
                let i = choose|i: int| 0 <= i < rest.queue.len() && rest.queue[i] == r[k].1;
                assert(t.queue[i + 1] == r[k].1);
            } else {
                assert(t.queue.contains(t.queue[0]));
            }
        }
    }
}

} // verus!
