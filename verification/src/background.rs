//! The record of one background run: its title, its progress and its log.

use vstd::prelude::*;

verus! {

/// The record of one run. The run that it belongs to is its only writer.
pub struct BackgroundOperationProgress {
    title: String,
    progress: usize,
    max: usize,
    log: Vec<String>,
}

/// What a [`BackgroundOperationProgress`] holds.
pub struct ProgressView {
    pub title: Seq<char>,
    pub progress: usize,
    pub max: usize,
    pub log: Seq<Seq<char>>,
}

/// The texts of a run of log lines.
pub open spec fn lines(log: Seq<String>) -> Seq<Seq<char>> {
    log.map_values(|line: String| line@)
}

impl View for BackgroundOperationProgress {
    type V = ProgressView;

    closed spec fn view(&self) -> ProgressView {
        ProgressView {
            title: self.title@,
            progress: self.progress,
            max: self.max,
            log: lines(self.log@),
        }
    }
}

impl ProgressView {
    /// The record of a run that has just begun.
    pub open spec fn fresh(title: Seq<char>, max: usize) -> ProgressView {
        ProgressView { title, progress: 0, max, log: Seq::empty() }
    }

    /// The record with one more line at the end of its log.
    pub open spec fn logged(self, entry: Seq<char>) -> ProgressView {
        ProgressView { log: self.log.push(entry), ..self }
    }

    /// The record with several more lines at the end of its log.
    pub open spec fn logged_all(self, entries: Seq<Seq<char>>) -> ProgressView {
        ProgressView { log: self.log + entries, ..self }
    }

    /// The record with its two counters replaced.
    pub open spec fn at(self, progress: usize, max: usize) -> ProgressView {
        ProgressView { progress, max, ..self }
    }
}

impl BackgroundOperationProgress {
    /// Replaces the two counters; title and log stay.
    pub fn set_progress(&mut self, progress: usize, max: usize)
        ensures
            final(self)@ == old(self)@.at(progress, max),
    {
        self.progress = progress;
        self.max = max;
    }

    /// A copy of the log, oldest line first.
    pub fn get_log(&self) -> (r: Vec<String>)
        ensures
            lines(r@) == self@.log,
    {
        let mut out: Vec<String> = Vec::new();
        let mut i: usize = 0;
        while i < self.log.len()
            invariant
                i <= self.log.len(),
                out@.len() == i,
                lines(out@) == lines(self.log@).take(i as int),
            decreases self.log.len() - i,
        {
            let line = self.log[i].clone();
            proof {
                let grown = lines(out@.push(line));
                let wanted = lines(self.log@).take(i + 1);
                assert forall|j: int| 0 <= j < grown.len() implies grown[j] == wanted[j] by {}
            }
            out.push(line);
            i += 1;
        }
        out
    }

    /// Appends one line to the log; the lines before it stay as they are.
    pub fn log(&mut self, entry: String)
        ensures
            final(self)@ == old(self)@.logged(entry@),
    {
        proof {
            assert(lines(self.log@.push(entry)) == lines(self.log@).push(entry@));
        }
        self.log.push(entry);
    }

    /// Appends the lines to the log, in their order.
    pub fn log_all(&mut self, entries: Vec<String>)
        ensures
            final(self)@ == old(self)@.logged_all(lines(entries@)),
    {
        let mut entries = entries;
        proof {
            assert(lines(self.log@ + entries@) =~= lines(self.log@) + lines(entries@));
        }
        self.log.append(&mut entries);
    }

    /// The record of a run that begins: nothing done yet of `max` items, and
    /// an empty log.
    pub fn new(title: &str, max: usize) -> (r: BackgroundOperationProgress)
        ensures
            r@ == ProgressView::fresh(title@, max),
    {
        proof {
            assert(lines(Seq::<String>::empty()) == Seq::<Seq<char>>::empty());
        }
        BackgroundOperationProgress {
            title: String::from_str(title),
            progress: 0,
            max,
            log: Vec::new(),
        }
    }

    /// How many items are done.
    pub fn progress(&self) -> (r: usize)
        ensures
            r == self@.progress,
    {
        self.progress
    }

    /// How many items there are to do.
    pub fn max(&self) -> (r: usize)
        ensures
            r == self@.max,
    {
        self.max
    }

    /// The title of the run.
    pub fn title(&self) -> (r: &str)
        ensures
            r@ == self@.title,
    {
        self.title.as_str()
    }
}

} // verus!
