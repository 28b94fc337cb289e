use task_executor::poll::Poll;
use task_executor::timer::{SharedState, TimerFuture};

#[test]
fn a_new_timer_is_pending_and_holds_no_handle() {
    let mut timer: TimerFuture<u32> = TimerFuture::new(50_000_000);
    assert_eq!(timer.duration(), 50_000_000);
    assert!(!timer.is_completed());
    assert_eq!(timer.elapse(0), None);
    assert!(!timer.is_completed());
}

#[test]
fn a_timer_is_pending_until_its_duration_has_gone_by() {
    let mut timer: TimerFuture<u32> = TimerFuture::new(10);
    assert_eq!(timer.poll(1), Poll::Pending);
    assert_eq!(timer.elapse(9), None);
    assert_eq!(timer.poll(2), Poll::Pending);
    assert!(!timer.is_completed());
    assert_eq!(timer.elapse(10), Some(2));
    assert!(timer.is_completed());
    assert_eq!(timer.poll(3), Poll::Ready);
}

#[test]
fn the_latest_poll_is_the_one_that_is_woken() {
    let mut timer: TimerFuture<&str> = TimerFuture::new(5);
    assert_eq!(timer.poll("first"), Poll::Pending);
    assert_eq!(timer.poll("second"), Poll::Pending);
    assert_eq!(timer.elapse(7), Some("second"));
}

#[test]
fn a_timer_that_nobody_polled_wakes_nobody() {
    let mut timer: TimerFuture<u32> = TimerFuture::new(5);
    assert_eq!(timer.elapse(5), None);
    assert!(timer.is_completed());
    assert_eq!(timer.poll(1), Poll::Ready);
}

#[test]
fn a_ready_timer_stays_ready() {
    let mut timer: TimerFuture<u32> = TimerFuture::new(3);
    assert_eq!(timer.elapse(3), None);
    assert_eq!(timer.poll(1), Poll::Ready);
    assert_eq!(timer.poll(2), Poll::Ready);
    assert_eq!(timer.elapse(1), None);
    assert_eq!(timer.poll(3), Poll::Ready);
    assert_eq!(timer.elapse(100), None);
    assert!(timer.is_completed());
}

#[test]
fn a_timer_wakes_only_once() {
    let mut timer: TimerFuture<u32> = TimerFuture::new(3);
    assert_eq!(timer.poll(8), Poll::Pending);
    assert_eq!(timer.elapse(4), Some(8));
    assert_eq!(timer.elapse(5), None);
    assert_eq!(timer.poll(9), Poll::Ready);
    assert_eq!(timer.elapse(6), None);
}

#[test]
fn a_timer_of_no_duration_completes_at_once() {
    let mut timer: TimerFuture<u32> = TimerFuture::new(0);
    assert_eq!(timer.poll(1), Poll::Pending);
    assert_eq!(timer.elapse(0), Some(1));
    assert_eq!(timer.poll(2), Poll::Ready);
}

#[test]
fn a_timer_takes_the_longest_duration() {
    let mut timer: TimerFuture<u32> = TimerFuture::new(u128::MAX);
    assert_eq!(timer.poll(1), Poll::Pending);
    assert_eq!(timer.elapse(u128::MAX - 1), None);
    assert_eq!(timer.elapse(u128::MAX), Some(1));
}

#[test]
fn a_poll_outcome_is_ready_or_pending() {
    assert!(Poll::Ready.is_ready());
    assert!(!Poll::Ready.is_pending());
    assert!(Poll::Pending.is_pending());
    assert!(!Poll::Pending.is_ready());
}

#[test]
fn the_shared_state_records_the_latest_handle_until_it_completes() {
    let mut state: SharedState<u32> = SharedState::new();
    assert!(!state.completed);
    assert_eq!(state.waker, None);
    assert_eq!(state.poll(1), Poll::Pending);
    assert_eq!(state.waker, Some(1));
    assert_eq!(state.poll(2), Poll::Pending);
    assert_eq!(state.waker, Some(2));
    assert_eq!(state.complete(), Some(2));
    assert!(state.completed);
    assert_eq!(state.waker, None);
    assert_eq!(state.poll(3), Poll::Ready);
    assert_eq!(state.waker, None);
    assert_eq!(state.complete(), None);
    assert!(state.completed);
}
