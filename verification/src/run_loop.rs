//! The run loop as a sequence of turns, and what holds of it.
//!
//! A turn is one pass of the loop: receive the next task and, if a
//! computation came out, poll it and report the outcome. The functions here
//! describe many turns at once, and the proofs state the order in which
//! tasks are polled, what repeated wakes do, and when the loop ends.
use vstd::prelude::*;
use crate::executor::{ExecutorView, SendError, SpawnError, Step};
use crate::poll::Poll;

verus! {

impl<F> ExecutorView<F> {
    /// The task that the next turn polls, if it polls one.
    pub open spec fn polled_next(self) -> Option<usize> {
        match self.next_step() {
            Step::Poll { task, future } => Some(task),
            _ => None,
        }
    }

    /// The executor after one turn in which the poll, if there is one,
    /// reports `outcome` and hands the computation back as it was, and in
    /// which nothing else happens: the poll makes no wake handle, and
    /// nothing is sent.
    pub open spec fn after_turn(self, outcome: Poll) -> Self {
        match self.next_step() {
            Step::Poll { task, future } => self.after_next().after_finish(future, outcome),
            _ => self.after_next(),
        }
    }

    /// The executor after one turn for each of `outcomes`.
    pub open spec fn after_turns(self, outcomes: Seq<Poll>) -> Self
        decreases outcomes.len(),
    {
        if outcomes.len() == 0 {
            self
        } else {
            self.after_turn(outcomes[0]).after_turns(outcomes.skip(1))
        }
    }

    /// The tasks polled in those turns, in the order of the polls.
    pub open spec fn polled_in_turns(self, outcomes: Seq<Poll>) -> Seq<usize>
        decreases outcomes.len(),
    {
        if outcomes.len() == 0 {
            Seq::empty()
        } else {
            let rest = self.after_turn(outcomes[0]).polled_in_turns(outcomes.skip(1));
            match self.polled_next() {
                Some(task) => seq![task] + rest,
                None => rest,
            }
        }
    }

    /// The tasks whose poll reported `Ready` in those turns, in the order in
    /// which they completed.
    pub open spec fn completed_in_turns(self, outcomes: Seq<Poll>) -> Seq<usize>
        decreases outcomes.len(),
    {
        if outcomes.len() == 0 {
            Seq::empty()
        } else {
            let rest = self.after_turn(outcomes[0]).completed_in_turns(outcomes.skip(1));
            match self.polled_next() {
                Some(task) if outcomes[0] == Poll::Ready => seq![task] + rest,
                _ => rest,
            }
        }
    }

    /// The executor after each of `futures` was spawned in turn.
    pub open spec fn after_spawns(self, futures: Seq<F>) -> Self
        decreases futures.len(),
    {
        if futures.len() == 0 {
            self
        } else {
            self.after_spawn(futures[0]).after_spawns(futures.skip(1))
        }
    }

    /// Whether the tasks in the queue are all different and each has a
    /// computation in its slot.
    pub open spec fn queue_is_fresh(self) -> bool {
        &&& forall|i: int| 0 <= i < self.queue.len() ==> self.slots[(#[trigger] self.queue[i]) as int] is Some
        &&& forall|i: int, j: int|
            0 <= i < j < self.queue.len() ==> #[trigger] self.queue[i] != #[trigger] self.queue[j]
    }
}

/// `n` outcomes that are all `Ready`.
pub open spec fn all_ready(n: nat) -> Seq<Poll> {
    Seq::new(n, |i: int| Poll::Ready)
}

/// The numbers `first`, `first + 1`, ... of `n` tasks spawned one after
/// another.
pub open spec fn task_numbers(first: nat, n: nat) -> Seq<usize> {
    Seq::new(n, |i: int| (first + i) as usize)
}

/// Every step of the state machine keeps an executor well formed, and a
/// turn of an idle executor leaves it idle.
pub proof fn law_steps_keep_the_executor_well_formed<F>(s: ExecutorView<F>, task: usize, future: F, outcome: Poll)
    requires
        s.wf(),
    ensures
        task < s.slots.len() ==> s.after_send(task).wf(),
        s.slots.len() < usize::MAX ==> s.after_spawn(future).wf(),
        s.is_idle() ==> s.after_next().wf(),
        s.after_finish(future, outcome).wf(),
        s.is_idle() ==> s.after_turn(outcome).wf() && s.after_turn(outcome).is_idle(),
        s.after_shutdown().wf(),
        s.after_waker_made().wf(),
        s.after_waker_dropped().wf(),
        s.after_spawner_made().wf(),
        s.after_spawner_dropped().wf(),
{
}

/// A task that has completed stays completed, whatever happens next, and is
/// never handed out for polling again: wakes, spawns, later turns and the
/// end of another task's poll all leave its slot empty.
pub proof fn law_completed_task_is_never_polled_again<F>(
    s: ExecutorView<F>,
    done: usize,
    task: usize,
    future: F,
    outcome: Poll,
)
    requires
        s.wf(),
        s.has_completed(done),
    ensures
        s.after_send(task).has_completed(done),
        s.after_spawn(future).has_completed(done),
        s.after_finish(future, outcome).has_completed(done),
        s.is_idle() ==> s.polled_next() != Some(done),
        s.is_idle() ==> s.after_next().has_completed(done),
        s.is_idle() ==> s.after_turn(outcome).has_completed(done),
{
}

/// Strict receive order: each turn takes the task at the head of the queue
/// and no other, whatever its poll reports, so that after some turns the
/// queue is what it was without its first entries. Nothing is reordered and
/// nothing is put in.
pub proof fn law_turns_take_the_queue_in_order<F>(s: ExecutorView<F>, outcomes: Seq<Poll>)
    requires
        s.wf(),
        s.is_idle(),
        s.open,
        outcomes.len() <= s.queue.len(),
    ensures
        s.after_turns(outcomes).queue == s.queue.skip(outcomes.len() as int),
        s.after_turns(outcomes).wf(),
        s.after_turns(outcomes).is_idle(),
        s.after_turns(outcomes).open,
    decreases outcomes.len(),
{
    if outcomes.len() > 0 {
        law_turns_take_the_queue_in_order(s.after_turn(outcomes[0]), outcomes.skip(1));
    }
}

/// Each poll uses up one entry of the queue: in any number of turns no more
/// tasks are polled than there are turns, or than there were entries, and
/// only tasks that were queued are polled.
pub proof fn law_each_poll_uses_up_one_entry<F>(s: ExecutorView<F>, outcomes: Seq<Poll>)
    requires
        s.wf(),
        s.is_idle(),
    ensures
        s.polled_in_turns(outcomes).len() <= outcomes.len(),
        s.polled_in_turns(outcomes).len() <= s.queue.len(),
        forall|i: int|
            0 <= i < s.polled_in_turns(outcomes).len() ==> s.queue.contains(
                #[trigger] s.polled_in_turns(outcomes)[i],
            ),
    decreases outcomes.len(),
{
    if outcomes.len() > 0 {
        let t = s.after_turn(outcomes[0]);
        law_each_poll_uses_up_one_entry(t, outcomes.skip(1));
        if s.open && s.queue.len() > 0 {
            assert forall|x: usize| t.queue.contains(x) implies s.queue.contains(x) by {
                let j = choose|j: int| 0 <= j < t.queue.len() && t.queue[j] == x;
            }
        }
    }
}

/// Tasks are polled in the order in which they were received: in a queue of
/// different tasks that all hold a computation, and whose polls all report
/// `Ready`, the tasks complete in queue order, one per turn.
pub proof fn law_ready_tasks_complete_in_queue_order<F>(s: ExecutorView<F>)
    requires
        s.wf(),
        s.is_idle(),
        s.open,
        s.queue_is_fresh(),
    ensures
        s.completed_in_turns(all_ready(s.queue.len())) == s.queue,
        s.polled_in_turns(all_ready(s.queue.len())) == s.queue,
        s.after_turns(all_ready(s.queue.len())).queue.len() == 0,
    decreases s.queue.len(),
{
    let n = s.queue.len();
    let outcomes = all_ready(n);
    if n > 0 {
        let t = s.after_turn(Poll::Ready);
        assert(outcomes.skip(1) =~= all_ready((n - 1) as nat));
        assert(t.queue_is_fresh()) by {
            assert forall|i: int| 0 <= i < t.queue.len() implies t.slots[(#[trigger] t.queue[i]) as int] is Some by {
                assert(t.queue[i] == s.queue[i + 1]);
                assert(s.queue[0] != s.queue[i + 1]);
            }
            assert forall|i: int, j: int| 0 <= i < j < t.queue.len() implies #[trigger] t.queue[i]
                != #[trigger] t.queue[j] by {
                assert(t.queue[i] == s.queue[i + 1]);
                assert(t.queue[j] == s.queue[j + 1]);
            }
        }
        law_ready_tasks_complete_in_queue_order(t);
    }
}

/// Spawning puts the new tasks at the back of the queue in the order of the
/// calls, with the next free numbers, as long as the queue has room.
pub proof fn lemma_spawns_append_in_order<F>(s: ExecutorView<F>, futures: Seq<F>)
    requires
        s.wf(),
        s.open,
        s.queue.len() + futures.len() <= s.capacity,
        s.slots.len() + futures.len() <= usize::MAX,
    ensures
        s.after_spawns(futures).queue == s.queue + task_numbers(s.slots.len(), futures.len()),
        s.after_spawns(futures).slots == s.slots + futures.map_values(|f: F| Some(f)),
        s.after_spawns(futures).wf(),
        s.after_spawns(futures).open,
        s.after_spawns(futures).polling == s.polling,
        s.after_spawns(futures).spawners == s.spawners,
        s.after_spawns(futures).wakers == s.wakers,
        s.after_spawns(futures).capacity == s.capacity,
    decreases futures.len(),
{
    if futures.len() > 0 {
        lemma_spawns_append_in_order(s.after_spawn(futures[0]), futures.skip(1));
    }
}

/// First in, first out among ready tasks: when computations are spawned on
/// an idle executor with an empty queue and every one of them is ready at
/// its first poll, they complete in the order in which they were spawned.
pub proof fn law_ready_tasks_complete_in_spawn_order<F>(s: ExecutorView<F>, futures: Seq<F>)
    requires
        s.wf(),
        s.is_idle(),
        s.open,
        s.queue.len() == 0,
        futures.len() <= s.capacity,
        s.slots.len() + futures.len() <= usize::MAX,
    ensures
        s.after_spawns(futures).completed_in_turns(all_ready(futures.len())) == task_numbers(
            s.slots.len(),
            futures.len(),
        ),
{
    let t = s.after_spawns(futures);
    lemma_spawns_append_in_order(s, futures);
    law_ready_tasks_complete_in_queue_order(t);
}

/// Wakes are not merged, and a task tolerates them: a waiting task that is
/// woken twice before its next poll is in the queue twice. It is polled
/// once if the first poll reports `Ready`, and twice in a row otherwise; a
/// poll that reports `Ready` leaves it completed; and both entries are used
/// up after two turns.
pub proof fn law_two_wakes_give_at_most_two_polls<F>(
    s: ExecutorView<F>,
    task: usize,
    first: Poll,
    second: Poll,
)
    requires
        s.wf(),
        s.is_idle(),
        s.open,
        s.queue.len() == 0,
        s.capacity >= 2,
        task < s.slots.len(),
        s.slots[task as int] is Some,
    ensures
        ({
            let woken = s.after_send(task).after_send(task);
            let outcomes = seq![first, second];
            &&& woken.queue == seq![task, task]
            &&& woken.polled_in_turns(outcomes) == if first == Poll::Ready {
                seq![task]
            } else {
                seq![task, task]
            }
            &&& woken.completed_in_turns(outcomes) == if first == Poll::Ready || second
                == Poll::Ready {
                seq![task]
            } else {
                Seq::empty()
            }
            &&& (first == Poll::Ready || second == Poll::Ready) ==> woken.after_turns(
                outcomes,
            ).has_completed(task)
            &&& woken.after_turns(outcomes).queue.len() == 0
            &&& woken.after_turns(outcomes).is_idle()
        }),
{
    let woken = s.after_send(task).after_send(task);
    let outcomes = seq![first, second];
    let one = woken.after_turn(first);
    let tail = outcomes.skip(1);
    let two = one.after_turn(second);
    assert(one.after_turns(tail) == two.after_turns(tail.skip(1)));
    assert(two.polled_in_turns(tail.skip(1)) =~= Seq::<usize>::empty());
    assert(two.completed_in_turns(tail.skip(1)) =~= Seq::<usize>::empty());
    assert(one.polled_in_turns(tail) =~= match one.polled_next() {
        Some(t) => seq![t],
        None => Seq::empty(),
    });
    assert(one.completed_in_turns(tail) =~= match one.polled_next() {
        Some(t) if second == Poll::Ready => seq![t],
        _ => Seq::empty(),
    });
}

/// Shutdown: once every spawner and every wake handle is gone, the loop
/// ends after one turn for each task still queued and one more. Whatever
/// the polls report, those turns empty the queue and leave the executor
/// idle, and the turn after them finds the channel closed.
pub proof fn law_run_ends_when_nothing_can_send<F>(s: ExecutorView<F>, outcomes: Seq<Poll>)
    requires
        s.wf(),
        s.is_idle(),
        s.open,
        !s.has_senders(),
        outcomes.len() == s.queue.len(),
    ensures
        s.after_turns(outcomes).queue.len() == 0,
        s.after_turns(outcomes).is_idle(),
        s.after_turns(outcomes).next_step() == Step::<F>::Closed,
        s.polled_in_turns(outcomes).len() <= s.queue.len(),
    decreases outcomes.len(),
{
    if outcomes.len() > 0 {
        law_run_ends_when_nothing_can_send(s.after_turn(outcomes[0]), outcomes.skip(1));
    }
}

/// Closure is permanent: on an executor that has closed, every later turn
/// finds it closed, every send and every spawn fails with `Closed`, and
/// nothing opens it again.
pub proof fn law_closed_stays_closed<F>(s: ExecutorView<F>, task: usize, future: F, outcome: Poll)
    requires
        s.wf(),
        !s.open,
    ensures
        s.next_step() == Step::<F>::Closed,
        s.send_result() == Err::<(), SendError>(SendError::Closed),
        s.spawn_result(future) is Err,
        s.after_send(task) == s,
        s.after_spawn(future) == s,
        !s.after_next().open,
        !s.after_finish(future, outcome).open,
        !s.after_turn(outcome).open,
{
}

/// The capacity is a hard limit and nothing is lost at it: a send or a
/// spawn on an open executor whose queue is full fails with `Full`, leaves
/// the executor exactly as it was, and hands the computation back.
pub proof fn law_full_queue_refuses<F>(s: ExecutorView<F>, task: usize, future: F)
    requires
        s.wf(),
        s.open,
        s.queue.len() >= s.capacity,
    ensures
        s.send_result() == Err::<(), SendError>(SendError::Full),
        s.after_send(task) == s,
        s.spawn_result(future) == Err::<usize, SpawnError<F>>(SpawnError::Full(future)),
        s.after_spawn(future) == s,
{
}

} // verus!
