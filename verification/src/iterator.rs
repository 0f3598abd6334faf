//! The decisions of an iterator over the events of a session: when to start the monitor, and
//! what to do with each attempt to receive an event.
use vstd::prelude::*;

verus! {

/// What one attempt to receive an event without waiting gave.
#[derive(Debug, PartialEq, Eq, Structural, Clone, Copy)]
pub enum PollOutcome {
    /// An event was received.
    Received,
    /// No event was waiting.
    Empty,
    /// The sending side is gone.
    Disconnected,
}

/// What the iterator does after an attempt to receive an event.
#[derive(Debug, PartialEq, Eq, Structural, Clone, Copy)]
pub enum IterStep {
    /// Hand out the event received.
    Yield,
    /// Try again.
    Retry,
    /// End the iteration.
    Finish,
}

/// The state of an iterator over the events of a session: whether its monitor was started.
///
/// The monitor is started on another thread when the next event is asked for the first time.
/// Then the iterator tries to receive an event, having first read whether the monitor had
/// stopped: it hands out an event received, tries again where none is waiting while the monitor
/// runs, and ends where none is waiting once the monitor had stopped or where the sending side is
/// gone. So every event the session passed on before its monitor stopped is handed out, in order.
#[derive(Debug)]
pub struct IteratorState {
    started: bool,
}

impl View for IteratorState {
    type V = bool;

    closed spec fn view(&self) -> bool {
        self.started
    }
}

/// Whether asking for the next event in that state starts the monitor.
pub open spec fn starts_monitor(started: bool) -> bool {
    !started
}

/// What an attempt to receive an event leads to, given whether the monitor had stopped before the
/// attempt: an event is always handed out, and the iteration ends only when none is left.
pub open spec fn step_after(outcome: PollOutcome, stopped: bool) -> IterStep {
    match outcome {
        PollOutcome::Received => IterStep::Yield,
        PollOutcome::Empty => if stopped {
            IterStep::Finish
        } else {
            IterStep::Retry
        },
        PollOutcome::Disconnected => IterStep::Finish,
    }
}

impl IteratorState {
    /// A state in which the monitor was not started yet.
    pub fn new() -> (r: Self)
        ensures
            r@ == false,
    {
        IteratorState { started: false }
    }

    /// Whether the monitor was started.
    pub fn started(&self) -> (r: bool)
        ensures
            r == self@,
    {
        self.started
    }

    /// Asks for the next event: gives whether the monitor must be started now, which is only the
    /// first time.
    pub fn begin_next(&mut self) -> (start: bool)
        ensures
            start == starts_monitor(old(self)@),
            final(self)@ == true,
    {
        let start = !self.started;
        self.started = true;
        start
    }

    /// What to do after an attempt to receive an event, given whether the monitor had stopped
    /// before the attempt.
    pub fn after_poll(outcome: PollOutcome, stopped: bool) -> (r: IterStep)
        ensures
            r == step_after(outcome, stopped),
    {
        match outcome {
            PollOutcome::Received => IterStep::Yield,
            PollOutcome::Empty => {
                if stopped {
                    IterStep::Finish
                } else {
                    IterStep::Retry
                }
            },
            PollOutcome::Disconnected => IterStep::Finish,
        }
    }
}

/// The monitor is started at most once: after asking for an event, asking again never starts it.
pub proof fn lemma_monitor_starts_once(started: bool)
    ensures
        !starts_monitor(true),
        starts_monitor(started) <==> !started,
{
}

/// No event is left behind: an event received is handed out whether or not the monitor had
/// stopped, and the iteration ends on an empty channel only once the monitor had stopped.
pub proof fn lemma_no_event_left_behind(outcome: PollOutcome, stopped: bool)
    ensures
        outcome == PollOutcome::Received ==> step_after(outcome, stopped) == IterStep::Yield,
        step_after(outcome, stopped) == IterStep::Finish ==> outcome != PollOutcome::Received,
        (outcome == PollOutcome::Empty && step_after(outcome, stopped) == IterStep::Finish)
            ==> stopped,
        !stopped && outcome == PollOutcome::Empty ==> step_after(outcome, stopped)
            == IterStep::Retry,
        stopped && outcome == PollOutcome::Empty ==> step_after(outcome, stopped)
            == IterStep::Finish,
        outcome == PollOutcome::Disconnected ==> step_after(outcome, stopped) == IterStep::Finish,
        step_after(outcome, stopped) == IterStep::Retry ==> outcome == PollOutcome::Empty
            && !stopped,
{
}

} // verus!
