//! Decisions of the single consumer of the job queue.
//!
//! For each job (a source path) the consumer derives the job's paths, checks
//! which of them exist, and lets [`WorkQueue::decide`] say whether to skip it
//! or transcode the source into the working marker. A transcode that ends
//! `Completed` is promoted by renaming the marker to the destination; any
//! other is dropped. Existence of the marker or of the destination is the
//! only record of a job, so a duplicate submission is skipped by these checks.
//! The promotion is one rename: until it is done the job shows as marker
//! present and destination absent, and a duplicate is skipped as in flight.

use vstd::prelude::*;

use crate::paths::{destination_of, destination_path, marker_of, working_path};
use crate::transcoder::{Completion, TranscodeOutcome};

verus! {

/// Consumer of the job queue; `suffix` is the target extension of outputs.
pub struct WorkQueue {
    pub suffix: String,
}

/// The paths of one job.
pub struct JobPaths {
    pub source: String,
    pub marker: String,
    pub destination: String,
}

/// Which of a job's paths exist on disk.
#[derive(Debug, Clone, Copy, PartialEq, Eq, Structural)]
pub struct FileStates {
    pub source_exists: bool,
    pub marker_exists: bool,
    pub destination_exists: bool,
}

/// Why a job is skipped.
#[derive(Debug, Clone, Copy, PartialEq, Eq, Structural)]
pub enum SkipReason {
    /// The source was removed after it was enqueued.
    SourceMissing,
    /// A transcode of the source is in flight.
    InFlight,
    /// The source has already been transcoded.
    AlreadyDone,
}

/// What to do with a job.
#[derive(Debug, Clone, Copy, PartialEq, Eq, Structural)]
pub enum JobDecision {
    Skip(SkipReason),
    /// Transcode the source into the marker.
    Transcode,
}

/// What to do once the transcode of a job has ended.
#[derive(Debug, Clone, Copy, PartialEq, Eq, Structural)]
pub enum JobEnd {
    /// Rename the marker to the destination.
    Promote,
    /// Drop the job; it is not retried.
    Drop,
}

/// What one bounded wait on the queue returned.
pub enum Received {
    Job(String),
    TimedOut,
    /// Every producer has gone.
    Disconnected,
}

/// What the consumer does next.
pub enum QueueStep {
    Exit,
    Wait,
    Work(String),
}

/// The decision for a job whose paths are in the given states.
pub open spec fn decision_of(s: FileStates) -> JobDecision {
    if !s.source_exists {
        JobDecision::Skip(SkipReason::SourceMissing)
    } else if s.marker_exists {
        JobDecision::Skip(SkipReason::InFlight)
    } else if s.destination_exists {
        JobDecision::Skip(SkipReason::AlreadyDone)
    } else {
        JobDecision::Transcode
    }
}

/// The states of the paths of the job for `src` on a disk holding the paths `fs`.
pub open spec fn states_in(fs: Set<Seq<char>>, src: Seq<char>, suffix: Seq<char>) -> FileStates {
    FileStates {
        source_exists: fs.contains(src),
        marker_exists: fs.contains(marker_of(src, suffix)),
        destination_exists: fs.contains(destination_of(src, suffix)),
    }
}

/// The disk after the marker of `src` was renamed to its destination.
pub open spec fn promoted(fs: Set<Seq<char>>, src: Seq<char>, suffix: Seq<char>) -> Set<Seq<char>> {
    fs.remove(marker_of(src, suffix)).insert(destination_of(src, suffix))
}

impl WorkQueue {
    pub fn new(suffix: &str) -> (r: WorkQueue)
        ensures
            r.suffix@ == suffix@,
    {
        WorkQueue { suffix: String::from_str(suffix) }
    }

    /// The source, working marker and destination of the job for `source`.
    pub fn job_paths(&self, source: &str) -> (r: JobPaths)
        ensures
            r.source@ == source@,
            r.marker@ == marker_of(source@, self.suffix@),
            r.destination@ == destination_of(source@, self.suffix@),
    {
        JobPaths {
            source: String::from_str(source),
            marker: working_path(source, self.suffix.as_str()),
            destination: destination_path(source, self.suffix.as_str()),
        }
    }

    /// Skips a job whose source is gone, whose marker exists or whose
    /// destination exists, checked in that order; otherwise transcodes it.
    pub fn decide(states: &FileStates) -> (r: JobDecision)
        ensures
            r == decision_of(*states),
    {
        if !states.source_exists {
            JobDecision::Skip(SkipReason::SourceMissing)
        } else if states.marker_exists {
            JobDecision::Skip(SkipReason::InFlight)
        } else if states.destination_exists {
            JobDecision::Skip(SkipReason::AlreadyDone)
        } else {
            JobDecision::Transcode
        }
    }

    /// Only a completed transcode is promoted to the destination.
    pub fn after_transcode(completion: &Completion) -> (r: JobEnd)
        ensures
            r == (if completion.outcome == TranscodeOutcome::Completed {
                JobEnd::Promote
            } else {
                JobEnd::Drop
            }),
    {
        match completion.outcome {
            TranscodeOutcome::Completed => JobEnd::Promote,
            _ => JobEnd::Drop,
        }
    }

    /// Next step of the consumer after a bounded wait on the queue; a
    /// shutdown request ends it, as does the loss of every producer.
    pub fn next_step(stop: bool, received: Received) -> (r: QueueStep)
        ensures
            stop ==> r is Exit,
            !stop ==> match received {
                Received::Job(p) => r matches QueueStep::Work(q) && q@ == p@,
                Received::TimedOut => r is Wait,
                Received::Disconnected => r is Exit,
            },
    {
        if stop {
            return QueueStep::Exit;
        }
        match received {
            Received::Job(p) => QueueStep::Work(p),
            Received::TimedOut => QueueStep::Wait,
            Received::Disconnected => QueueStep::Exit,
        }
    }
}

/// A source submitted twice in succession is transcoded once: the first
/// submission finds nothing and transcodes; the second is skipped, whether
/// the first is still in flight (its marker exists) or has been promoted.
pub proof fn lemma_duplicate_submission_skipped(
    fs: Set<Seq<char>>,
    src: Seq<char>,
    suffix: Seq<char>,
)
    requires
        fs.contains(src),
        !fs.contains(marker_of(src, suffix)),
        !fs.contains(destination_of(src, suffix)),
    ensures
        decision_of(states_in(fs, src, suffix)) == JobDecision::Transcode,
        decision_of(states_in(fs.insert(marker_of(src, suffix)), src, suffix)) is Skip,
        decision_of(states_in(promoted(fs.insert(marker_of(src, suffix)), src, suffix), src, suffix)) is Skip,
        promoted(fs.insert(marker_of(src, suffix)), src, suffix).contains(destination_of(src, suffix)),
        !promoted(fs.insert(marker_of(src, suffix)), src, suffix).contains(marker_of(src, suffix)),
{
    lemma_marker_differs_from_destination(src, suffix);
}

/// The marker and the destination of a source are distinct paths.
pub proof fn lemma_marker_differs_from_destination(src: Seq<char>, suffix: Seq<char>)
    ensures
        marker_of(src, suffix) != destination_of(src, suffix),
{
    assert(marker_of(src, suffix).len() == destination_of(src, suffix).len() + 1);
}

} // verus!
