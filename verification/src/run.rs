//! The fetch orchestrator: one task for each feed source, all started at
//! once; the run is over when every task has ended, however it ended.

use crate::catalog::FeedSource;
use crate::task::{initial, FeedTask};
use vstd::prelude::*;

verus! {

/// How a task ended, as its join reports it.
#[derive(Debug, Clone, Copy, PartialEq, Eq, Structural)]
pub enum TaskEnd {
    /// The task ran to its end, with or without articles.
    Finished,
    /// The task crashed.
    Crashed,
}

/// What a finished run reports: how many tasks it ran and how many of them
/// crashed. A run that finished has succeeded.
#[derive(Debug, Clone, Copy, PartialEq, Eq, Structural)]
pub struct RunReport {
    pub tasks: usize,
    pub crashed: usize,
}

/// The bookkeeping of one run.
pub struct Run {
    spawned: usize,
    joined: usize,
    crashed: usize,
}

/// A run as plain numbers.
pub struct RunView {
    pub spawned: nat,
    pub joined: nat,
    pub crashed: nat,
}

/// The run after one more task ended. Once every task has ended nothing
/// changes any more.
pub open spec fn after_join(v: RunView, end: TaskEnd) -> RunView {
    if v.joined < v.spawned {
        RunView {
            joined: v.joined + 1,
            crashed: if end == TaskEnd::Crashed {
                v.crashed + 1
            } else {
                v.crashed
            },
            ..v
        }
    } else {
        v
    }
}

/// The run is over: every task has ended.
pub open spec fn complete(v: RunView) -> bool {
    v.joined == v.spawned
}

impl View for Run {
    type V = RunView;

    closed spec fn view(&self) -> RunView {
        RunView {
            spawned: self.spawned as nat,
            joined: self.joined as nat,
            crashed: self.crashed as nat,
        }
    }
}

impl Run {
    /// No more tasks have ended than were started, and no more have crashed
    /// than have ended.
    pub closed spec fn wf(&self) -> bool {
        self.crashed <= self.joined <= self.spawned
    }

    /// Starts a run: one task for each feed source, in the order of the
    /// sources, none of them begun.
    pub fn start(sources: &Vec<FeedSource>) -> (started: (Run, Vec<FeedTask>))
        ensures
            started.0.wf(),
            started.0@ == (RunView { spawned: sources.len() as nat, joined: 0, crashed: 0 }),
            started.1.len() == sources.len(),
            forall|i: int|
                0 <= i < sources.len() ==> (#[trigger] started.1[i]).wf() && started.1[i]@
                    == initial(sources[i]@),
    {
        let mut tasks: Vec<FeedTask> = Vec::new();
        let mut i: usize = 0;
        while i < sources.len()
            invariant
                i <= sources.len(),
                tasks.len() == i,
                forall|k: int|
                    0 <= k < i ==> (#[trigger] tasks[k]).wf() && tasks[k]@ == initial(sources[k]@),
            decreases sources.len() - i,
        {
            tasks.push(FeedTask::new(sources[i].clone()));
            i += 1;
        }
        (Run { spawned: sources.len(), joined: 0, crashed: 0 }, tasks)
    }

    /// Takes note that one more task has ended.
    pub fn task_ended(&mut self, end: TaskEnd)
        requires
            old(self).wf(),
        ensures
            final(self).wf(),
            final(self)@ == after_join(old(self)@, end),
    {
        if self.joined < self.spawned {
            self.joined += 1;
            match end {
                TaskEnd::Crashed => {
                    self.crashed += 1;
                },
                TaskEnd::Finished => {},
            }
        }
    }

    /// Whether every task has ended.
    pub fn is_complete(&self) -> (b: bool)
        ensures
            b == complete(self@),
    {
        self.joined == self.spawned
    }

    /// The report of the run, once it is over: a run of which every task has
    /// ended has succeeded, whatever became of its tasks.
    pub fn report(&self) -> (r: Option<RunReport>)
        ensures
            r is Some <==> complete(self@),
            r matches Some(report) ==> report.tasks == self@.spawned && report.crashed
                == self@.crashed,
    {
        if self.joined == self.spawned {
            Some(RunReport { tasks: self.spawned, crashed: self.crashed })
        } else {
            None
        }
    }
}

/// However the tasks of a run end, the run is over after as many joins as
/// there are tasks, and not before.
pub proof fn lemma_run_completes(v: RunView, end: TaskEnd)
    requires
        v.joined < v.spawned,
    ensures
        after_join(v, end).joined == v.joined + 1,
        complete(after_join(v, end)) <==> v.joined + 1 == v.spawned,
{
}

} // verus!
