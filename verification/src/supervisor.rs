//! The single-flight supervisor: at most one run is admitted at a time.
//!
//! The supervisor keeps the record of the run in progress in its one slot.
//! The run holds a [`JobHandle`], writes progress and log through it, and
//! gives it back when its task ends; that alone frees the slot. Whoever
//! shares a supervisor between threads puts it behind one lock, so that
//! admission, writes and status reads exclude each other.

use vstd::prelude::*;
use crate::background::BackgroundOperationProgress;
use crate::background::ProgressView;
use crate::background::lines;

verus! {

/// The token of an admitted run. It cannot be copied: the task of the run is
/// its only holder.
#[derive(Debug)]
pub struct JobHandle {
    generation: u64,
}

impl JobHandle {
    /// The number of the run that the handle was issued for.
    pub closed spec fn generation(&self) -> u64 {
        self.generation
    }
}

/// A run was asked for while another is in progress. Nothing was changed;
/// the caller tells the user, and does not try again by itself.
#[derive(Clone, Copy, Debug, PartialEq, Eq, Structural)]
pub struct AlreadyRunning;

/// A snapshot for observers: whether a run is in progress, and if so its
/// counters and its log so far. Without a run the counters are zero and the
/// log is empty.
#[derive(Clone, Debug, PartialEq, Eq)]
pub struct RunStatus {
    pub running: bool,
    pub progress: usize,
    pub max: usize,
    pub log: Vec<String>,
}

/// The owner of the one slot for a run.
pub struct Supervisor {
    current: Option<BackgroundOperationProgress>,
    generation: u64,
}

/// What a [`Supervisor`] holds: the record of the run in progress, if any,
/// and the number of the last run admitted.
pub struct SupervisorView {
    pub current: Option<ProgressView>,
    pub generation: u64,
}

/// The number of the run after run `generation`.
pub open spec fn next_generation(generation: u64) -> u64 {
    if generation == u64::MAX {
        0
    } else {
        (generation + 1) as u64
    }
}

impl SupervisorView {
    /// A supervisor that has admitted nothing yet.
    pub open spec fn idle() -> SupervisorView {
        SupervisorView { current: None, generation: 0 }
    }

    /// A run is in progress.
    pub open spec fn running(self) -> bool {
        self.current is Some
    }

    /// The run numbered `generation` is the one in progress.
    pub open spec fn owns(self, generation: u64) -> bool {
        self.running() && self.generation == generation
    }

    /// The state after a request to start a run: unchanged while a run is in
    /// progress, else holding the fresh record of the next run.
    pub open spec fn started(self, title: Seq<char>, max: usize) -> SupervisorView {
        if self.running() {
            self
        } else {
            SupervisorView {
                current: Some(ProgressView::fresh(title, max)),
                generation: next_generation(self.generation),
            }
        }
    }

    /// The state after the task of run `generation` has ended: the slot is
    /// free if that run was in progress, else nothing has changed.
    pub open spec fn finished(self, generation: u64) -> SupervisorView {
        if self.owns(generation) {
            SupervisorView { current: None, ..self }
        } else {
            self
        }
    }

    /// The state after run `generation` has reported `entries` and its
    /// counters: unchanged unless that run is in progress.
    pub open spec fn reported(
        self,
        generation: u64,
        entries: Seq<Seq<char>>,
        progress: usize,
        max: usize,
    ) -> SupervisorView {
        if self.owns(generation) {
            SupervisorView {
                current: Some(self.current->0.logged_all(entries).at(progress, max)),
                ..self
            }
        } else {
            self
        }
    }

    /// What observers are told.
    pub open spec fn status(self) -> (bool, usize, usize, Seq<Seq<char>>) {
        match self.current {
            Some(job) => (true, job.progress, job.max, job.log),
            None => (false, 0, 0, Seq::empty()),
        }
    }
}

/// One request to start a run: its title and the number of its items.
pub struct StartRequest {
    pub title: Seq<char>,
    pub max: usize,
}

/// How many of `requests`, made one after another with no run ending in
/// between, are admitted.
pub open spec fn admissions(state: SupervisorView, requests: Seq<StartRequest>) -> nat
    decreases requests.len(),
{
    if requests.len() == 0 {
        0
    } else {
        let first = requests.first();
        let admitted: nat = if state.running() {
            0
        } else {
            1
        };
        admitted + admissions(state.started(first.title, first.max), requests.skip(1))
    }
}

/// Single flight. Of any number of start requests made with no run ending in
/// between, none is admitted while a run is in progress, and exactly one, the
/// first, when none is. Once the task of the run in progress has ended,
/// exactly one of the requests that follow is admitted.
pub proof fn lemma_single_flight(state: SupervisorView, requests: Seq<StartRequest>)
    ensures
        admissions(state, requests) <= 1,
        state.running() ==> admissions(state, requests) == 0,
        !state.running() && requests.len() > 0 ==> admissions(state, requests) == 1,
        requests.len() > 0 ==> admissions(state.finished(state.generation), requests) == 1,
    decreases requests.len(),
{
    if requests.len() > 0 {
        let first = requests.first();
        lemma_single_flight(state.started(first.title, first.max), requests.skip(1));
        let freed = state.finished(state.generation);
        lemma_single_flight(freed.started(first.title, first.max), requests.skip(1));
    }
}

impl View for Supervisor {
    type V = SupervisorView;

    closed spec fn view(&self) -> SupervisorView {
        SupervisorView {
            current: match self.current {
                Some(job) => Some(job@),
                None => None,
            },
            generation: self.generation,
        }
    }
}

impl Supervisor {
    /// A supervisor with a free slot.
    pub fn new() -> (r: Supervisor)
        ensures
            r@ == SupervisorView::idle(),
    {
        Supervisor { current: None, generation: 0 }
    }

    /// Whether a run is in progress.
    pub fn is_running(&self) -> (r: bool)
        ensures
            r == self@.running(),
    {
        self.current.is_some()
    }

    /// Whether `handle` belongs to the run in progress.
    pub fn owns(&self, handle: &JobHandle) -> (r: bool)
        ensures
            r == self@.owns(handle.generation()),
    {
        self.current.is_some() && self.generation == handle.generation
    }

    /// Admits a run if none is in progress: the slot then holds a fresh record
    /// with the title and `estimated_max` items to do, and the caller gets the
    /// handle of the run. While a run is in progress the request fails and
    /// nothing changes. The check and the admission are one step.
    pub fn try_start(&mut self, title: &str, estimated_max: usize) -> (r: Result<
        JobHandle,
        AlreadyRunning,
    >)
        ensures
            final(self)@ == old(self)@.started(title@, estimated_max),
            r is Ok <==> !old(self)@.running(),
            r matches Ok(handle) ==> handle.generation() == final(self)@.generation
                && final(self)@.owns(handle.generation()),
    {
        if self.current.is_some() {
            return Err(AlreadyRunning);
        }
        let generation = if self.generation == u64::MAX {
            0
        } else {
            self.generation + 1
        };
        self.generation = generation;
        self.current = Some(BackgroundOperationProgress::new(title, estimated_max));
        Ok(JobHandle { generation })
    }

    /// A snapshot of the run in progress, or the report that there is none.
    pub fn status(&self) -> (r: RunStatus)
        ensures
            (r.running, r.progress, r.max, lines(r.log@)) == self@.status(),
    {
        match &self.current {
            Some(job) => RunStatus {
                running: true,
                progress: job.progress(),
                max: job.max(),
                log: job.get_log(),
            },
            None => {
                RunStatus { running: false, progress: 0, max: 0, log: Vec::new() }
            },
        }
    }

    /// Appends `entry` to the log of the run that `handle` belongs to. Returns
    /// whether that run is in progress; if it is not, nothing changes.
    pub fn append_log(&mut self, handle: &JobHandle, entry: String) -> (r: bool)
        ensures
            r == old(self)@.owns(handle.generation()),
            r ==> final(self)@ == (SupervisorView {
                current: Some(old(self)@.current->0.logged(entry@)),
                ..old(self)@
            }),
            !r ==> final(self)@ == old(self)@,
    {
        if self.generation != handle.generation {
            return false;
        }
        match self.current.take() {
            Some(mut job) => {
                job.log(entry);
                self.current = Some(job);
                true
            },
            None => false,
        }
    }

    /// Sets the counters of the run that `handle` belongs to. Returns whether
    /// that run is in progress; if it is not, nothing changes.
    pub fn set_progress(&mut self, handle: &JobHandle, progress: usize, max: usize) -> (r: bool)
        ensures
            r == old(self)@.owns(handle.generation()),
            r ==> final(self)@ == (SupervisorView {
                current: Some(old(self)@.current->0.at(progress, max)),
                ..old(self)@
            }),
            !r ==> final(self)@ == old(self)@,
    {
        if self.generation != handle.generation {
            return false;
        }
        match self.current.take() {
            Some(mut job) => {
                job.set_progress(progress, max);
                self.current = Some(job);
                true
            },
            None => false,
        }
    }

    /// Appends `entries` to the log of the run that `handle` belongs to and
    /// sets its counters, in one step. Returns whether that run is in
    /// progress; if it is not, nothing changes.
    pub fn report(
        &mut self,
        handle: &JobHandle,
        entries: Vec<String>,
        progress: usize,
        max: usize,
    ) -> (r: bool)
        ensures
            r == old(self)@.owns(handle.generation()),
            final(self)@ == old(self)@.reported(
                handle.generation(),
                lines(entries@),
                progress,
                max,
            ),
    {
        if self.generation != handle.generation {
            return false;
        }
        match self.current.take() {
            Some(mut job) => {
                job.log_all(entries);
                job.set_progress(progress, max);
                self.current = Some(job);
                true
            },
            None => false,
        }
    }

    /// Takes the handle back when the task of its run ends, and frees the
    /// slot. Returns whether that run was in progress; if it was not, nothing
    /// changes.
    pub fn finish(&mut self, handle: JobHandle) -> (r: bool)
        ensures
            r == old(self)@.owns(handle.generation()),
            final(self)@ == old(self)@.finished(handle.generation()),
    {
        if self.current.is_some() && self.generation == handle.generation {
            self.current = None;
            true
        } else {
            false
        }
    }
}

} // verus!
