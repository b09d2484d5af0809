//! Decisions of the file-system watcher.
//!
//! Only the closing of a file that was open for writing makes its paths
//! candidates: a file still being written could be misjudged by the
//! predicates.

use vstd::prelude::*;

verus! {

/// The kinds of file-system notification the watcher tells apart.
#[derive(Debug, Clone, Copy, PartialEq, Eq, Structural)]
pub enum WatchEventKind {
    /// A file opened for writing was closed.
    CloseWrite,
    Other,
}

/// One file-system notification.
pub struct FsEvent {
    pub kind: WatchEventKind,
    pub paths: Vec<String>,
}

/// What one bounded wait for a notification returned.
pub enum WatchReceived {
    Event(FsEvent),
    /// The notification source reported an error.
    Error,
    TimedOut,
    /// The notification source has gone.
    Disconnected,
}

/// What the watcher does next.
pub enum WatchStep {
    Exit,
    Wait,
    /// Evaluate the predicates on each of these paths, and enqueue those
    /// that pass.
    Evaluate(Vec<String>),
}

/// Next step of the watcher after a bounded wait; a shutdown request ends it.
pub fn watch_step(stop: bool, received: WatchReceived) -> (r: WatchStep)
    ensures
        stop ==> r is Exit,
        !stop ==> match received {
            WatchReceived::Event(e) => if e.kind == WatchEventKind::CloseWrite {
                r matches WatchStep::Evaluate(ps) && ps@ == e.paths@
            } else {
                r is Wait
            },
            WatchReceived::Error => r is Wait,
            WatchReceived::TimedOut => r is Wait,
            WatchReceived::Disconnected => r is Exit,
        },
{
    if stop {
        return WatchStep::Exit;
    }
    match received {
        WatchReceived::Event(e) => match e.kind {
            WatchEventKind::CloseWrite => WatchStep::Evaluate(e.paths),
            WatchEventKind::Other => WatchStep::Wait,
        },
        WatchReceived::Error => WatchStep::Wait,
        WatchReceived::TimedOut => WatchStep::Wait,
        WatchReceived::Disconnected => WatchStep::Exit,
    }
}

} // verus!
