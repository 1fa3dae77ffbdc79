//! The progress of a run: how many dependencies are done, and which one is
//! being worked on. It only records; it decides nothing.

use vstd::prelude::*;

verus! {

/// A counter of processed dependencies with a label for the current one.
#[derive(Debug, PartialEq, Eq)]
pub struct Progress {
    total: usize,
    position: usize,
    label: String,
    finished: bool,
}

/// What a [`Progress`] holds, as mathematical values.
pub struct ProgressView {
    pub total: nat,
    pub position: nat,
    pub label: Seq<char>,
    pub finished: bool,
}

impl ProgressView {
    /// The progress of a run over `total` dependencies before the first one.
    pub open spec fn start(total: nat) -> ProgressView {
        ProgressView { total, position: 0, label: Seq::empty(), finished: false }
    }

    /// The same progress with another label.
    pub open spec fn labelled(self, label: Seq<char>) -> ProgressView {
        ProgressView { label, ..self }
    }

    /// One more dependency done. The count does not pass the total.
    pub open spec fn advanced(self) -> ProgressView {
        if self.position < self.total {
            ProgressView { position: self.position + 1, ..self }
        } else {
            self
        }
    }

    /// The same progress, marked as finished.
    pub open spec fn completed(self) -> ProgressView {
        ProgressView { finished: true, ..self }
    }

    /// The count never passes the total.
    pub open spec fn well_formed(self) -> bool {
        self.position <= self.total
    }
}

impl View for Progress {
    type V = ProgressView;

    closed spec fn view(&self) -> ProgressView {
        ProgressView {
            total: self.total as nat,
            position: self.position as nat,
            label: self.label@,
            finished: self.finished,
        }
    }
}

impl Progress {
    #[verifier::type_invariant]
    spec fn counts_within_total(&self) -> bool {
        self.position <= self.total
    }

    /// Starts counting for a run over `total` dependencies.
    pub fn new(total: usize) -> (progress: Progress)
        ensures
            progress@ == ProgressView::start(total as nat),
    {
        Progress { total, position: 0, label: String::new(), finished: false }
    }

    /// Sets the label of the dependency that is being worked on.
    pub fn set_label(&mut self, label: &str)
        ensures
            final(self)@ == old(self)@.labelled(label@),
    {
        proof {
            use_type_invariant(&*self);
        }
        self.label = label.to_owned();
    }

    /// Counts one more dependency as done.
    pub fn inc(&mut self)
        ensures
            final(self)@ == old(self)@.advanced(),
    {
        proof {
            use_type_invariant(&*self);
        }
        if self.position < self.total {
            self.position = self.position + 1;
        }
    }

    /// Marks the run as finished.
    pub fn finish(&mut self)
        ensures
            final(self)@ == old(self)@.completed(),
    {
        proof {
            use_type_invariant(&*self);
        }
        self.finished = true;
    }

    /// The number of dependencies of the run.
    pub fn total(&self) -> (total: usize)
        ensures
            total == self@.total,
            self@.well_formed(),
    {
        proof {
            use_type_invariant(self);
        }
        self.total
    }

    /// The number of dependencies done so far.
    pub fn position(&self) -> (position: usize)
        ensures
            position == self@.position,
            self@.well_formed(),
    {
        proof {
            use_type_invariant(self);
        }
        self.position
    }

    /// The label of the dependency that is being worked on.
    pub fn label(&self) -> (label: &str)
        ensures
            label@ == self@.label,
    {
        self.label.as_str()
    }

    /// Whether the run was marked as finished.
    pub fn is_finished(&self) -> (finished: bool)
        ensures
            finished == self@.finished,
    {
        self.finished
    }
}

} // verus!
