//! Notifications: the discrete events a running worker produces.
//!
//! Each line read from a worker's output streams becomes exactly one
//! [`Notification::OutputLine`], error-stream lines distinguished by a
//! literal prefix; when both stream readers have finished, a single
//! [`Notification::RunStateChanged`] with `running == false` closes the
//! worker's lifetime.  The blocking reads themselves happen outside the
//! library; callers hand each line, and each reader's completion, in.

use vstd::prelude::*;

verus! {

/// One asynchronous message for the surrounding application.
pub enum Notification {
    /// A line of worker output.
    OutputLine { text: String },
    /// The worker started (`running == true`) or its output streams closed
    /// (`running == false`).
    RunStateChanged { running: bool },
}

/// Mathematical image of a [`Notification`].
pub enum NotificationGhost {
    OutputLine { text: Seq<char> },
    RunStateChanged { running: bool },
}

impl View for Notification {
    type V = NotificationGhost;

    open spec fn view(&self) -> NotificationGhost {
        match self {
            Notification::OutputLine { text } => NotificationGhost::OutputLine { text: text@ },
            Notification::RunStateChanged { running } => NotificationGhost::RunStateChanged {
                running: *running,
            },
        }
    }
}

impl DeepView for Notification {
    type V = NotificationGhost;

    open spec fn deep_view(&self) -> NotificationGhost {
        self@
    }
}

/// The notification one output line yields: the line itself, prefixed with a
/// marker when it came from the error stream.
pub open spec fn spec_line_notification(line: Seq<char>, from_err: bool) -> NotificationGhost {
    NotificationGhost::OutputLine {
        text: if from_err {
            "[ERR] "@ + line
        } else {
            line
        },
    }
}

/// Builds the notification for one line of worker output.
pub fn line_notification(line: &str, from_err: bool) -> (n: Notification)
    ensures
        n@ == spec_line_notification(line@, from_err),
{
    if from_err {
        Notification::OutputLine { text: String::from_str("[ERR] ").concat(line) }
    } else {
        Notification::OutputLine { text: String::from_str(line) }
    }
}

/// Frames one line of input for the worker's input pipe: the text followed
/// by exactly one line terminator.
pub fn frame_line(text: &str) -> (r: String)
    ensures
        r@ == text@ + "\n"@,
{
    String::from_str(text).concat("\n")
}

/// The notifications one whole stream yields, line for line.
pub open spec fn spec_stream_notifications(lines: Seq<Seq<char>>, from_err: bool) -> Seq<
    NotificationGhost,
> {
    lines.map_values(|l: Seq<char>| spec_line_notification(l, from_err))
}

/// Every line read from a stream yields exactly one notification, and the
/// notifications keep the order the lines were read in.
pub proof fn lemma_one_notification_per_line(lines: Seq<Seq<char>>, from_err: bool)
    ensures
        spec_stream_notifications(lines, from_err).len() == lines.len(),
        forall|i: int|
            0 <= i < lines.len() ==> spec_stream_notifications(lines, from_err)[i]
                == spec_line_notification(lines[i], from_err),
{
}

/// Tracks the two stream readers of one worker lifetime, so that the
/// terminal stopped notification fires exactly once, after both readers
/// have finished.
#[derive(Clone, Copy, PartialEq, Eq, Structural, Debug)]
pub struct ReaderDrain {
    pub out_done: bool,
    pub err_done: bool,
    pub stopped_sent: bool,
}

/// The tracker of a freshly started worker: neither reader finished, no
/// stopped notification sent.
pub open spec fn spec_drain_new() -> ReaderDrain {
    ReaderDrain { out_done: false, err_done: false, stopped_sent: false }
}

/// What one reader's completion does to the tracker: marks that stream
/// drained, and produces the stopped notification exactly when both streams
/// are now drained and it has not been produced before.
pub open spec fn spec_drain_step(d: ReaderDrain, from_err: bool) -> (ReaderDrain, Option<
    NotificationGhost,
>) {
    let marked = ReaderDrain {
        out_done: d.out_done || !from_err,
        err_done: d.err_done || from_err,
        stopped_sent: d.stopped_sent,
    };
    if marked.out_done && marked.err_done && !marked.stopped_sent {
        (
            ReaderDrain { stopped_sent: true, ..marked },
            Some(NotificationGhost::RunStateChanged { running: false }),
        )
    } else {
        (marked, None)
    }
}

impl ReaderDrain {
    /// The tracker for a freshly started worker.
    pub fn new() -> (d: ReaderDrain)
        ensures
            d == spec_drain_new(),
    {
        ReaderDrain { out_done: false, err_done: false, stopped_sent: false }
    }

    /// Records that the reader of one stream has finished; returns the
    /// stopped notification when this was the last of the two.
    pub fn reader_finished(&mut self, from_err: bool) -> (n: Option<Notification>)
        ensures
            *final(self) == spec_drain_step(*old(self), from_err).0,
            n.deep_view() == spec_drain_step(*old(self), from_err).1,
    {
        if from_err {
            self.err_done = true;
        } else {
            self.out_done = true;
        }
        if self.out_done && self.err_done && !self.stopped_sent {
            self.stopped_sent = true;
            Some(Notification::RunStateChanged { running: false })
        } else {
            None
        }
    }
}

/// Over one completed worker lifetime — both stream readers finishing, in
/// either order, from a fresh tracker — the stopped notification is produced
/// exactly once: never by the first reader, always by the last, and never by
/// any later step.
pub proof fn lemma_stopped_notification_once(first_err: bool, later_err: bool)
    ensures
        spec_drain_step(spec_drain_new(), first_err).1 is None,
        spec_drain_step(spec_drain_step(spec_drain_new(), first_err).0, !first_err).1 == Some(
            NotificationGhost::RunStateChanged { running: false },
        ),
        spec_drain_step(
            spec_drain_step(spec_drain_step(spec_drain_new(), first_err).0, !first_err).0,
            later_err,
        ).1 is None,
{
}

} // verus!
