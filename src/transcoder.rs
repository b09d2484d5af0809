//! Decisions of the cancellable transcode executor.
//!
//! The executor starts the encoding tool, then polls it: on each poll it
//! reports what it saw of the child and whether shutdown was requested, and
//! does what [`TranscodeExecutor::step`] answers, until the answer is a
//! [`Completion`]. A cancelled transcode is neither a success nor a failure:
//! it ends as `Aborted`, and its output is removed like a failed one.

use vstd::prelude::*;

verus! {

/// How a transcode ended.
#[derive(Debug, Clone, Copy, PartialEq, Eq, Structural)]
pub enum TranscodeOutcome {
    /// The tool exited successfully; its output is complete.
    Completed,
    /// The tool could not be started, exited with a failure status, or could
    /// not be observed.
    Failed,
    /// Shutdown was requested while the tool ran, and it was killed.
    Aborted,
}

/// What one poll saw of the child process.
#[derive(Debug, Clone, Copy, PartialEq, Eq, Structural)]
pub enum ChildStatus {
    Running,
    Exited { success: bool },
    /// The child's status could not be read.
    Unobservable,
}

/// The end of a transcode and the cleanup it calls for.
#[derive(Debug, Clone, Copy, PartialEq, Eq, Structural)]
pub struct Completion {
    pub outcome: TranscodeOutcome,
    /// Kill the child, which may still run.
    pub kill_child: bool,
    /// Remove the output file.
    pub remove_output: bool,
}

/// What the executor does after a poll.
#[derive(Debug, Clone, Copy, PartialEq, Eq, Structural)]
pub enum ExecutorAction {
    /// Sleep for the polling interval, then poll again.
    Sleep,
    /// Kill the child, sleep, then poll again.
    Kill,
    Finish(Completion),
}

/// State of one running transcode.
#[derive(Debug, Clone, Copy, PartialEq, Eq, Structural)]
pub struct TranscodeExecutor {
    /// The child was killed on a shutdown request.
    pub killed: bool,
}

/// The completion for `outcome`: the output is removed unless it is complete.
pub open spec fn completion_of(outcome: TranscodeOutcome, kill_child: bool) -> Completion {
    Completion { outcome, kill_child, remove_output: outcome != TranscodeOutcome::Completed }
}

/// Next state and action after a poll that saw `status` while the stop flag
/// read `stop`.
pub open spec fn step_of(killed: bool, status: ChildStatus, stop: bool) -> (bool, ExecutorAction) {
    match status {
        ChildStatus::Running => if stop && !killed {
            (true, ExecutorAction::Kill)
        } else {
            (killed, ExecutorAction::Sleep)
        },
        ChildStatus::Exited { success } => {
            let outcome = if killed {
                TranscodeOutcome::Aborted
            } else if success {
                TranscodeOutcome::Completed
            } else {
                TranscodeOutcome::Failed
            };
            (killed, ExecutorAction::Finish(completion_of(outcome, false)))
        },
        ChildStatus::Unobservable => {
            let outcome = if killed {
                TranscodeOutcome::Aborted
            } else {
                TranscodeOutcome::Failed
            };
            (killed, ExecutorAction::Finish(completion_of(outcome, true)))
        },
    }
}

/// The completion that a sequence of polls (status, stop flag) leads to from
/// state `killed`, or `None` when the child is still being polled after them.
pub open spec fn run_of(killed: bool, polls: Seq<(ChildStatus, bool)>) -> Option<Completion>
    decreases polls.len(),
{
    if polls.len() == 0 {
        None
    } else {
        let (next, action) = step_of(killed, polls[0].0, polls[0].1);
        match action {
            ExecutorAction::Finish(c) => Some(c),
            _ => run_of(next, polls.drop_first()),
        }
    }
}

impl TranscodeOutcome {
    /// Whether the output of a transcode that ended so is to be removed.
    pub fn removes_output(&self) -> (r: bool)
        ensures
            r == (*self != TranscodeOutcome::Completed),
    {
        match self {
            TranscodeOutcome::Completed => false,
            _ => true,
        }
    }
}

impl TranscodeExecutor {
    /// State of a transcode whose child was just started.
    pub fn new() -> (r: TranscodeExecutor)
        ensures
            !r.killed,
    {
        TranscodeExecutor { killed: false }
    }

    /// Decides what to do after one poll.
    pub fn step(&mut self, status: ChildStatus, stop: bool) -> (r: ExecutorAction)
        ensures
            (final(self).killed, r) == step_of(old(self).killed, status, stop),
    {
        match status {
            ChildStatus::Running => {
                if stop && !self.killed {
                    self.killed = true;
                    ExecutorAction::Kill
                } else {
                    ExecutorAction::Sleep
                }
            },
            ChildStatus::Exited { success } => {
                let outcome = if self.killed {
                    TranscodeOutcome::Aborted
                } else if success {
                    TranscodeOutcome::Completed
                } else {
                    TranscodeOutcome::Failed
                };
                ExecutorAction::Finish(
                    Completion { outcome, kill_child: false, remove_output: outcome.removes_output() },
                )
            },
            ChildStatus::Unobservable => {
                let outcome = if self.killed {
                    TranscodeOutcome::Aborted
                } else {
                    TranscodeOutcome::Failed
                };
                ExecutorAction::Finish(
                    Completion { outcome, kill_child: true, remove_output: outcome.removes_output() },
                )
            },
        }
    }
}

/// The completion of a transcode whose tool could not be started.
pub fn spawn_failed() -> (r: Completion)
    ensures
        r == completion_of(TranscodeOutcome::Failed, false),
{
    Completion { outcome: TranscodeOutcome::Failed, kill_child: false, remove_output: true }
}

/// Once the child has been killed, a transcode can only end as `Aborted`,
/// with its output removed.
pub proof fn lemma_killed_run_aborts(polls: Seq<(ChildStatus, bool)>)
    ensures
        run_of(true, polls) matches Some(c) ==> c.outcome == TranscodeOutcome::Aborted
            && c.remove_output,
    decreases polls.len(),
{
    if polls.len() > 0 {
        lemma_killed_run_aborts(polls.drop_first());
    }
}

/// When a poll finds the child running while shutdown is requested, the
/// transcode ends as `Aborted` and its output is removed, whatever follows.
pub proof fn lemma_stop_while_running_aborts(killed: bool, polls: Seq<(ChildStatus, bool)>)
    requires
        polls.len() > 0,
        polls[0] == (ChildStatus::Running, true),
    ensures
        run_of(killed, polls) matches Some(c) ==> c.outcome == TranscodeOutcome::Aborted
            && c.remove_output,
{
    lemma_killed_run_aborts(polls.drop_first());
}

/// A transcode that does not end `Completed` has its output removed; one
/// ends `Completed` only when the tool exited successfully and was never
/// killed.
pub proof fn lemma_unfinished_output_removed(killed: bool, polls: Seq<(ChildStatus, bool)>)
    ensures
        run_of(killed, polls) matches Some(c) ==> (c.outcome != TranscodeOutcome::Completed
            <==> c.remove_output),
        run_of(killed, polls) matches Some(c) && c.outcome == TranscodeOutcome::Completed ==> !killed
            && exists|i: int|
            0 <= i < polls.len() && #[trigger] polls[i].0 == (ChildStatus::Exited { success: true }),
    decreases polls.len(),
{
    if polls.len() > 0 {
        let (next, action) = step_of(killed, polls[0].0, polls[0].1);
        lemma_unfinished_output_removed(next, polls.drop_first());
        if let ExecutorAction::Finish(c) = action {
            if c.outcome == TranscodeOutcome::Completed {
                assert(polls[0].0 == (ChildStatus::Exited { success: true }));
            }
        } else if run_of(killed, polls) matches Some(c) && c.outcome == TranscodeOutcome::Completed {
            let i = choose|i: int|
                0 <= i < polls.drop_first().len() && #[trigger] polls.drop_first()[i].0 == (
                ChildStatus::Exited { success: true });
            assert(polls[i + 1].0 == (ChildStatus::Exited { success: true }));
            if killed {
                lemma_killed_run_aborts(polls.drop_first());
            }
        }
    }
}

} // verus!
