//! A timer as a suspendable computation.
//!
//! A timer is armed with a duration. A background worker sleeps for that long
//! and then reports how much time has gone by with [`TimerFuture::elapse`];
//! the scheduler asks for the timer's state with [`TimerFuture::poll`]. The
//! two sides meet in the shared completion state: a flag and the wake handle
//! of whoever polled last.
//!
//! The type of a wake handle is a parameter: the timer stores it, hands it
//! back and never looks inside.
use vstd::prelude::*;
use crate::poll::Poll;

verus! {

/// The state a timer shares with its background worker.
pub struct SharedState<W> {
    /// Whether the sleep time has gone by.
    pub completed: bool,
    /// The wake handle of the most recent poll that found the timer pending.
    pub waker: Option<W>,
}

impl<W> SharedState<W> {
    /// The state of a timer that was just armed: not completed, and nobody
    /// to wake.
    pub fn new() -> (state: Self)
        ensures
            !state.completed,
            state.waker is None,
    {
        SharedState { completed: false, waker: None }
    }

    /// The scheduler's side. A completed state reports `Ready` and stays as
    /// it is. Otherwise `waker` replaces the handle recorded before, and the
    /// state reports `Pending`.
    pub fn poll(&mut self, waker: W) -> (outcome: Poll)
        ensures
            old(self).completed ==> outcome == Poll::Ready && *final(self) == *old(self),
            !old(self).completed ==> outcome == Poll::Pending && !final(self).completed
                && final(self).waker == Some(waker),
    {
        if self.completed {
            Poll::Ready
        } else {
            self.waker = Some(waker);
            Poll::Pending
        }
    }

    /// The worker's side: marks the state completed, and takes out the
    /// wake handle that was recorded, if any, for the caller to invoke.
    pub fn complete(&mut self) -> (woken: Option<W>)
        ensures
            final(self).completed,
            final(self).waker is None,
            woken == old(self).waker,
    {
        self.completed = true;
        self.waker.take()
    }
}

/// A timer that becomes ready once its duration has gone by.
pub struct TimerFuture<W> {
    shared_state: SharedState<W>,
    duration: u128,
}

/// The mathematical value of a timer.
pub ghost struct TimerView<W> {
    pub completed: bool,
    pub waker: Option<W>,
    pub duration: nat,
}

impl<W> TimerView<W> {
    /// A timer that was just armed.
    pub open spec fn armed(duration: nat) -> Self {
        TimerView { completed: false, waker: None, duration }
    }

    /// The timer after a poll that offers `waker`.
    pub open spec fn after_poll(self, waker: W) -> Self {
        if self.completed {
            self
        } else {
            TimerView { waker: Some(waker), ..self }
        }
    }

    /// What a poll reports.
    pub open spec fn poll_result(self) -> Poll {
        if self.completed {
            Poll::Ready
        } else {
            Poll::Pending
        }
    }

    /// Whether a report of `elapsed` time makes the timer expire.
    pub open spec fn expires_at(self, elapsed: nat) -> bool {
        elapsed >= self.duration
    }

    /// The timer after the worker reports that `elapsed` time has gone by.
    pub open spec fn after_elapse(self, elapsed: nat) -> Self {
        if self.expires_at(elapsed) {
            TimerView { completed: true, waker: None, ..self }
        } else {
            self
        }
    }

    /// The wake handle that the worker has to invoke after that report.
    pub open spec fn woken_by_elapse(self, elapsed: nat) -> Option<W> {
        if self.expires_at(elapsed) {
            self.waker
        } else {
            None
        }
    }
}

impl<W> View for TimerFuture<W> {
    type V = TimerView<W>;

    closed spec fn view(&self) -> TimerView<W> {
        TimerView {
            completed: self.shared_state.completed,
            waker: self.shared_state.waker,
            duration: self.duration as nat,
        }
    }
}

impl<W> TimerFuture<W> {
    /// Arms a timer for `duration` nanoseconds. Nothing blocks: the timer is
    /// pending and holds no wake handle.
    pub fn new(duration: u128) -> (timer: Self)
        ensures
            timer@ == TimerView::<W>::armed(duration as nat),
    {
        TimerFuture { shared_state: SharedState::new(), duration }
    }

    /// The duration the timer was armed with, in nanoseconds.
    pub fn duration(&self) -> (d: u128)
        ensures
            d == self@.duration,
    {
        self.duration
    }

    /// Whether the timer has expired.
    pub fn is_completed(&self) -> (done: bool)
        ensures
            done == self@.completed,
    {
        self.shared_state.completed
    }

    /// Polls the timer. An expired timer reports `Ready` and stays as it is.
    /// Otherwise `waker` replaces the handle of any earlier poll and the
    /// timer reports `Pending`.
    pub fn poll(&mut self, waker: W) -> (outcome: Poll)
        ensures
            outcome == old(self)@.poll_result(),
            final(self)@ == old(self)@.after_poll(waker),
    {
        self.shared_state.poll(waker)
    }

    /// The background worker's step: `elapsed` nanoseconds have gone by
    /// since the timer was armed. Before the duration is reached nothing
    /// changes. From then on the timer is completed, and the wake handle that
    /// was recorded, if any, is taken out and returned for the caller to
    /// invoke.
    pub fn elapse(&mut self, elapsed: u128) -> (woken: Option<W>)
        ensures
            final(self)@ == old(self)@.after_elapse(elapsed as nat),
            woken == old(self)@.woken_by_elapse(elapsed as nat),
    {
        if elapsed >= self.duration {
            self.shared_state.complete()
        } else {
            None
        }
    }
}

/// What can happen to a timer: the scheduler polls it and offers a wake
/// handle, or the worker reports how much time has gone by.
pub ghost enum TimerEvent<W> {
    Poll(W),
    Elapse(nat),
}

impl<W> TimerView<W> {
    /// The timer after one event.
    pub open spec fn after_event(self, event: TimerEvent<W>) -> Self {
        match event {
            TimerEvent::Poll(waker) => self.after_poll(waker),
            TimerEvent::Elapse(elapsed) => self.after_elapse(elapsed),
        }
    }

    /// The timer after a sequence of events.
    pub open spec fn after_events(self, events: Seq<TimerEvent<W>>) -> Self
        decreases events.len(),
    {
        if events.len() == 0 {
            self
        } else {
            self.after_event(events[0]).after_events(events.skip(1))
        }
    }

    /// Whether every report of time among `events` is short of the
    /// timer's duration.
    pub open spec fn all_too_early(self, events: Seq<TimerEvent<W>>) -> bool {
        forall|i: int|
            0 <= i < events.len() ==> match #[trigger] events[i] {
                TimerEvent::Poll(waker) => true,
                TimerEvent::Elapse(elapsed) => elapsed < self.duration,
            }
    }

    /// A completed timer holds no wake handle.
    pub open spec fn is_settled(self) -> bool {
        self.completed ==> self.waker is None
    }
}

/// A timer does not complete early, and it does complete on time: while
/// every report of time is short of the duration a pending timer stays
/// pending, however often it is polled, and the first report that reaches
/// the duration completes it.
pub proof fn law_timer_completes_at_its_duration<W>(
    timer: TimerView<W>,
    events: Seq<TimerEvent<W>>,
    elapsed: nat,
)
    requires
        !timer.completed,
        timer.all_too_early(events),
    ensures
        !timer.after_events(events).completed,
        timer.after_events(events).poll_result() == Poll::Pending,
        timer.after_events(events).duration == timer.duration,
        elapsed >= timer.duration ==> timer.after_events(events).after_elapse(
            elapsed,
        ).poll_result() == Poll::Ready,
        elapsed < timer.duration ==> timer.after_events(events).after_elapse(elapsed)
            == timer.after_events(events),
    decreases events.len(),
{
    if events.len() > 0 {
        let next = timer.after_event(events[0]);
        let rest = events.skip(1);
        assert(next.all_too_early(rest));
        law_timer_completes_at_its_duration(next, rest, elapsed);
    }
}

/// Completion is final: a timer that has completed reports `Ready` at
/// every later poll and is not changed by it, and no event makes it pending
/// again.
pub proof fn law_ready_timer_stays_ready<W>(
    timer: TimerView<W>,
    events: Seq<TimerEvent<W>>,
    waker: W,
)
    requires
        timer.completed,
    ensures
        timer.poll_result() == Poll::Ready,
        timer.after_poll(waker) == timer,
        timer.after_events(events).completed,
        timer.after_events(events).poll_result() == Poll::Ready,
    decreases events.len(),
{
    if events.len() > 0 {
        law_ready_timer_stays_ready(timer.after_event(events[0]), events.skip(1), waker);
    }
}

/// A wake handle is invoked at most once: after whatever events, a timer
/// that started out armed holds no handle once it has completed, so a
/// report of time to a completed timer hands out nothing, and the report
/// that completes it hands out the handle of the latest poll.
pub proof fn law_timer_wakes_once<W>(duration: nat, events: Seq<TimerEvent<W>>, elapsed: nat)
    ensures
        TimerView::<W>::armed(duration).after_events(events).is_settled(),
        TimerView::<W>::armed(duration).after_events(events).completed
            ==> TimerView::<W>::armed(duration).after_events(events).woken_by_elapse(elapsed)
            is None,
{
    lemma_events_keep_settled(TimerView::<W>::armed(duration), events);
}

/// No event gives a completed timer a wake handle.
pub proof fn lemma_events_keep_settled<W>(timer: TimerView<W>, events: Seq<TimerEvent<W>>)
    requires
        timer.is_settled(),
    ensures
        timer.after_events(events).is_settled(),
    decreases events.len(),
{
    if events.len() > 0 {
        lemma_events_keep_settled(timer.after_event(events[0]), events.skip(1));
    }
}

} // verus!
