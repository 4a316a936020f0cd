//! Output draining for one launched backend process. The caller reads
//! the process's event stream and hands each event in; the classifier
//! decides how to log it, detects termination, and turns termination
//! into exactly one crash notification, after which the drain stops.
//! A crash never schedules a relaunch: restarting is a decision the
//! shell makes, not this machine.

use vstd::prelude::*;

verus! {

/// One event read from the launched process's stream: an output line,
/// an error line, the terminal lifecycle event with its description,
/// or anything else the stream may carry.
pub enum BackendEvent {
    Stdout { line: String },
    Stderr { line: String },
    Terminated { detail: String },
    Other,
}

/// Mathematical image of a `BackendEvent`.
pub enum BackendEventView {
    Stdout { line: Seq<char> },
    Stderr { line: Seq<char> },
    Terminated { detail: Seq<char> },
    Other,
}

impl View for BackendEvent {
    type V = BackendEventView;

    open spec fn view(&self) -> BackendEventView {
        match self {
            BackendEvent::Stdout { line } => BackendEventView::Stdout { line: line@ },
            BackendEvent::Stderr { line } => BackendEventView::Stderr { line: line@ },
            BackendEvent::Terminated { detail } => BackendEventView::Terminated { detail: detail@ },
            BackendEvent::Other => BackendEventView::Other,
        }
    }
}

/// What the draining loop does with one event: log the line as
/// informational, log it as a warning, log the termination detail as an
/// error and send the one crash notification (then stop reading), or
/// ignore the event.
pub enum DrainAction {
    LogInfo { line: String },
    LogWarn { line: String },
    NotifyCrashed { detail: String },
    Ignore,
}

/// Mathematical image of a `DrainAction`.
pub enum DrainActionView {
    LogInfo { line: Seq<char> },
    LogWarn { line: Seq<char> },
    NotifyCrashed { detail: Seq<char> },
    Ignore,
}

impl View for DrainAction {
    type V = DrainActionView;

    open spec fn view(&self) -> DrainActionView {
        match self {
            DrainAction::LogInfo { line } => DrainActionView::LogInfo { line: line@ },
            DrainAction::LogWarn { line } => DrainActionView::LogWarn { line: line@ },
            DrainAction::NotifyCrashed { detail } => DrainActionView::NotifyCrashed {
                detail: detail@,
            },
            DrainAction::Ignore => DrainActionView::Ignore,
        }
    }
}

/// One drain step: stdout lines are informational, stderr lines are
/// warnings, a termination stops the drain and notifies, everything
/// else is ignored.
pub open spec fn drain_step(e: BackendEventView) -> (bool, DrainActionView) {
    match e {
        BackendEventView::Stdout { line } => (false, DrainActionView::LogInfo { line }),
        BackendEventView::Stderr { line } => (false, DrainActionView::LogWarn { line }),
        BackendEventView::Terminated { detail } => (true, DrainActionView::NotifyCrashed { detail }),
        BackendEventView::Other => (false, DrainActionView::Ignore),
    }
}

/// Drain state for one process handle: whether the terminal event has
/// been seen and the drain has stopped.
pub struct Drain {
    stopped: bool,
}

impl Drain {
    /// Whether the drain has seen the terminal event and stopped.
    pub closed spec fn spec_stopped(&self) -> bool {
        self.stopped
    }

    /// A drain that has consumed nothing yet.
    pub fn new() -> (d: Drain)
        ensures
            !d.spec_stopped(),
    {
        Drain { stopped: false }
    }

    /// Whether the drain has stopped; once it has, no further event may
    /// be handed in.
    pub fn is_stopped(&self) -> (b: bool)
        ensures
            b == self.spec_stopped(),
    {
        self.stopped
    }

    /// Classifies one event, exactly as `drain_step` says; the drain
    /// stops if and only if the event is the termination.
    pub fn on_event(&mut self, event: BackendEvent) -> (action: DrainAction)
        requires
            !old(self).spec_stopped(),
        ensures
            (final(self).spec_stopped(), action@) == drain_step(event@),
    {
        match event {
            BackendEvent::Stdout { line } => DrainAction::LogInfo { line },
            BackendEvent::Stderr { line } => DrainAction::LogWarn { line },
            BackendEvent::Terminated { detail } => {
                self.stopped = true;
                DrainAction::NotifyCrashed { detail }
            },
            BackendEvent::Other => DrainAction::Ignore,
        }
    }
}

/// Whether the drain has stopped, and the actions produced, after the
/// events of `events` are offered in order; events after a termination
/// are never consumed.
pub open spec fn drain_run(stopped: bool, events: Seq<BackendEventView>) -> (
    bool,
    Seq<DrainActionView>,
)
    decreases events.len(),
{
    if stopped || events.len() == 0 {
        (stopped, Seq::empty())
    } else {
        let first = drain_step(events[0]);
        let rest = drain_run(first.0, events.drop_first());
        (rest.0, seq![first.1] + rest.1)
    }
}

/// How many of `actions` are crash notifications.
pub open spec fn count_crash_notes(actions: Seq<DrainActionView>) -> nat
    decreases actions.len(),
{
    if actions.len() == 0 {
        0
    } else {
        (if actions[0] is NotifyCrashed {
            1nat
        } else {
            0nat
        }) + count_crash_notes(actions.drop_first())
    }
}

/// Whether some event of `events` is the termination.
pub open spec fn has_termination(events: Seq<BackendEventView>) -> bool {
    exists|i: int| 0 <= i < events.len() && events[i] is Terminated
}

/// Law: over any stream of events, the drain sends exactly one crash
/// notification when the stream carries a termination and none when it
/// does not, and it stops exactly when a termination was seen. No
/// action it can produce launches anything, so a crash never triggers
/// an automatic relaunch.
pub proof fn lemma_crash_notified_once(events: Seq<BackendEventView>)
    ensures
        count_crash_notes(drain_run(false, events).1) == if has_termination(events) {
            1nat
        } else {
            0nat
        },
        drain_run(false, events).0 == has_termination(events),
    decreases events.len(),
{
    if events.len() == 0 {
        assert(!has_termination(events));
    } else {
        let first = drain_step(events[0]);
        let tail = drain_run(first.0, events.drop_first());
        let acts = seq![first.1] + tail.1;
        assert(drain_run(false, events).1 == acts);
        assert(acts[0] == first.1);
        assert(acts.drop_first() =~= tail.1);
        assert(count_crash_notes(acts) == (if first.1 is NotifyCrashed {
            1nat
        } else {
            0nat
        }) + count_crash_notes(tail.1));
        if events[0] is Terminated {
            assert(first.1 is NotifyCrashed);
            assert(tail.1 =~= Seq::<DrainActionView>::empty());
            assert(count_crash_notes(tail.1) == 0);
            assert(has_termination(events));
        } else {
            assert(!(first.1 is NotifyCrashed));
            lemma_crash_notified_once(events.drop_first());
            assert(has_termination(events.drop_first()) ==> has_termination(events)) by {
                if has_termination(events.drop_first()) {
                    let i = choose|i: int|
                        0 <= i < events.drop_first().len() && events.drop_first()[i] is Terminated;
                    assert(events[i + 1] is Terminated);
                }
            }
            assert(has_termination(events) ==> has_termination(events.drop_first())) by {
                if has_termination(events) {
                    let i = choose|i: int| 0 <= i < events.len() && events[i] is Terminated;
                    assert(events.drop_first()[i - 1] is Terminated);
                }
            }
        }
    }
}

} // verus!
