//! The scheduler: a bounded ready queue of tasks and the rules by which
//! tasks enter it, are polled, and leave.
//!
//! The executor is a state machine. Whoever drives it calls
//! [`Executor::next`] to receive the next task, polls the computation that
//! comes out, and reports the outcome with [`Executor::finish`]. Wake handles
//! and spawners put tasks into the queue from the other side. Blocking,
//! threads and the computations themselves stay with the caller: every
//! decision is taken here.
use std::collections::VecDeque;
use vstd::prelude::*;
use crate::poll::Poll;

verus! {

/// The largest number of tasks that the ready queue holds by default.
pub const MAX_QUEUED_TASKS: usize = 10_000;

/// Why a task could not be put into the ready queue.
#[derive(Clone, Copy, Debug, PartialEq, Eq, Structural)]
pub enum SendError {
    /// The queue already holds as many tasks as its capacity allows.
    Full,
    /// The executor has shut down: nothing receives any more.
    Closed,
}

/// Why a computation could not be spawned. The computation comes back.
pub enum SpawnError<F> {
    /// The queue already holds as many tasks as its capacity allows.
    Full(F),
    /// The executor has shut down: nothing receives any more.
    Closed(F),
}

/// What the executor does next.
pub enum Step<F> {
    /// A task was received and its computation taken out of the slot: poll
    /// it, then report with [`Executor::finish`].
    Poll { task: usize, future: F },
    /// A task was received whose slot is empty: it has completed before, and
    /// there is nothing to poll.
    Skip { task: usize },
    /// Nothing is queued, but a spawner or a wake handle may still send:
    /// wait.
    Idle,
    /// Nothing is queued and nothing can send any more: the run is over.
    Closed,
}

/// A handle that puts one task back into the ready queue.
pub struct Waker {
    task: usize,
}

/// A handle that submits new computations.
pub struct Spawner {}

/// The executor with its ready queue and its tasks.
pub struct Executor<F> {
    ready_queue: VecDeque<usize>,
    capacity: usize,
    tasks: Vec<Option<F>>,
    spawners: usize,
    wakers: usize,
    polling: Option<usize>,
    open: bool,
}

/// The mathematical value of an executor.
pub ghost struct ExecutorView<F> {
    /// The tasks that wait to be polled, first in, first out.
    pub queue: Seq<usize>,
    /// How many tasks the queue holds at most.
    pub capacity: nat,
    /// For each task, by its number, the computation in its slot.
    pub slots: Seq<Option<F>>,
    /// How many spawners are alive.
    pub spawners: nat,
    /// How many wake handles are alive.
    pub wakers: nat,
    /// The task that is being polled, if any.
    pub polling: Option<usize>,
    /// Whether the receiving side is still there.
    pub open: bool,
}

impl<F> ExecutorView<F> {
    /// What holds of every executor.
    pub open spec fn wf(self) -> bool {
        &&& self.queue.len() <= self.capacity
        &&& forall|i: int| 0 <= i < self.queue.len() ==> (#[trigger] self.queue[i]) < self.slots.len()
        &&& match self.polling {
            Some(t) => t < self.slots.len() && self.slots[t as int] is None,
            None => true,
        }
        &&& !self.open ==> self.queue.len() == 0
    }

    /// A new executor with one spawner.
    pub open spec fn fresh(capacity: nat) -> Self {
        ExecutorView {
            queue: Seq::empty(),
            capacity,
            slots: Seq::empty(),
            spawners: 1,
            wakers: 0,
            polling: None,
            open: true,
        }
    }

    /// Whether the executor waits for a task, as opposed to polling one.
    pub open spec fn is_idle(self) -> bool {
        self.polling is None
    }

    /// Whether a poll of `task` has reported `Ready`, or the task was
    /// dropped: its slot is empty and it is not being polled.
    pub open spec fn has_completed(self, task: usize) -> bool {
        &&& task < self.slots.len()
        &&& self.slots[task as int] is None
        &&& self.polling != Some(task)
    }

    /// Whether anything can still put a task into the queue.
    pub open spec fn has_senders(self) -> bool {
        self.spawners > 0 || self.wakers > 0
    }

    /// Why a send fails, if it does.
    pub open spec fn send_error(self) -> Option<SendError> {
        if !self.open {
            Some(SendError::Closed)
        } else if self.queue.len() >= self.capacity {
            Some(SendError::Full)
        } else {
            None
        }
    }

    /// The executor after `task` was sent, or as it was if the send fails.
    pub open spec fn after_send(self, task: usize) -> Self {
        if self.send_error() is None {
            ExecutorView { queue: self.queue.push(task), ..self }
        } else {
            self
        }
    }

    /// The executor after `future` was spawned, or as it was if that fails.
    pub open spec fn after_spawn(self, future: F) -> Self {
        if self.send_error() is None {
            ExecutorView {
                queue: self.queue.push(self.slots.len() as usize),
                slots: self.slots.push(Some(future)),
                ..self
            }
        } else {
            self
        }
    }

    /// What spawning `future` returns.
    pub open spec fn spawn_result(self, future: F) -> Result<usize, SpawnError<F>> {
        match self.send_error() {
            None => Ok(self.slots.len() as usize),
            Some(SendError::Full) => Err(SpawnError::Full(future)),
            Some(SendError::Closed) => Err(SpawnError::Closed(future)),
        }
    }

    /// What a send returns.
    pub open spec fn send_result(self) -> Result<(), SendError> {
        match self.send_error() {
            None => Ok(()),
            Some(e) => Err(e),
        }
    }

    /// What the idle executor does next.
    pub open spec fn next_step(self) -> Step<F> {
        if !self.open {
            Step::Closed
        } else if self.queue.len() > 0 {
            let task = self.queue[0];
            match self.slots[task as int] {
                Some(future) => Step::Poll { task, future },
                None => Step::Skip { task },
            }
        } else if self.has_senders() {
            Step::Idle
        } else {
            Step::Closed
        }
    }

    /// The executor after that step.
    pub open spec fn after_next(self) -> Self {
        match self.next_step() {
            Step::Poll { task, future } => ExecutorView {
                queue: self.queue.skip(1),
                slots: self.slots.update(task as int, None),
                polling: Some(task),
                ..self
            },
            Step::Skip { task } => ExecutorView { queue: self.queue.skip(1), ..self },
            Step::Idle => self,
            Step::Closed => ExecutorView { open: false, ..self },
        }
    }

    /// The executor after the poll in progress has reported `outcome` and
    /// handed `future` back.
    pub open spec fn after_finish(self, future: F, outcome: Poll) -> Self {
        match self.polling {
            Some(task) => ExecutorView {
                slots: match outcome {
                    Poll::Pending => self.slots.update(task as int, Some(future)),
                    Poll::Ready => self.slots,
                },
                polling: None,
                ..self
            },
            None => self,
        }
    }

    /// Whether a wake handle for `task` can be one of this executor's.
    pub open spec fn holds_waker(self, task: usize) -> bool {
        self.wakers > 0 && task < self.slots.len()
    }

    /// The executor after one more wake handle was made.
    pub open spec fn after_waker_made(self) -> Self {
        ExecutorView { wakers: self.wakers + 1, ..self }
    }

    /// The executor after a wake handle was dropped unused.
    pub open spec fn after_waker_dropped(self) -> Self {
        ExecutorView { wakers: (self.wakers - 1) as nat, ..self }
    }

    /// The executor after one more spawner was made.
    pub open spec fn after_spawner_made(self) -> Self {
        ExecutorView { spawners: self.spawners + 1, ..self }
    }

    /// The executor after a spawner was dropped.
    pub open spec fn after_spawner_dropped(self) -> Self {
        ExecutorView { spawners: (self.spawners - 1) as nat, ..self }
    }

    /// The executor after the receiving side was dropped.
    pub open spec fn after_shutdown(self) -> Self {
        ExecutorView { queue: Seq::empty(), polling: None, open: false, ..self }
    }
}

impl<F> View for Executor<F> {
    type V = ExecutorView<F>;

    closed spec fn view(&self) -> ExecutorView<F> {
        ExecutorView {
            queue: self.ready_queue@,
            capacity: self.capacity as nat,
            slots: self.tasks@,
            spawners: self.spawners as nat,
            wakers: self.wakers as nat,
            polling: self.polling,
            open: self.open,
        }
    }
}

impl<F> Executor<F> {
    /// What holds of every executor.
    pub open spec fn wf(&self) -> bool {
        self@.wf()
    }

    /// How many tasks the ready queue holds at most.
    pub fn capacity(&self) -> (n: usize)
        ensures
            n == self@.capacity,
    {
        self.capacity
    }

    /// How many tasks wait in the ready queue.
    pub fn queued(&self) -> (n: usize)
        ensures
            n == self@.queue.len(),
    {
        self.ready_queue.len()
    }

    /// The task that is being polled, if any.
    pub fn polling(&self) -> (task: Option<usize>)
        ensures
            task == self@.polling,
    {
        self.polling
    }

    /// How many tasks were spawned so far.
    pub fn spawned(&self) -> (n: usize)
        ensures
            n == self@.slots.len(),
    {
        self.tasks.len()
    }

    /// How many spawners are alive.
    pub fn spawners(&self) -> (n: usize)
        ensures
            n == self@.spawners,
    {
        self.spawners
    }

    /// How many wake handles are alive.
    pub fn wakers(&self) -> (n: usize)
        ensures
            n == self@.wakers,
    {
        self.wakers
    }

    /// Whether the receiving side is still there.
    pub fn is_open(&self) -> (open: bool)
        ensures
            open == self@.open,
    {
        self.open
    }

    /// Whether `task` has completed: it was spawned, its slot is empty, and
    /// it is not being polled.
    pub fn has_completed(&self, task: usize) -> (done: bool)
        requires
            self.wf(),
        ensures
            done == self@.has_completed(task),
    {
        if task >= self.tasks.len() {
            return false;
        }
        match self.polling {
            Some(current) => {
                if current == task {
                    return false;
                }
            },
            None => {},
        }
        self.tasks[task].is_none()
    }

    /// Drops the receiving side: what is queued is lost, the poll in
    /// progress is abandoned, and from now on every send fails.
    pub fn shutdown(&mut self)
        requires
            old(self).wf(),
        ensures
            final(self).wf(),
            final(self)@ == old(self)@.after_shutdown(),
    {
        self.ready_queue.clear();
        self.polling = None;
        self.open = false;
    }

    /// Makes a wake handle for the task that is being polled.
    pub fn waker(&mut self) -> (waker: Waker)
        requires
            old(self).wf(),
            !old(self)@.is_idle(),
            old(self)@.wakers < usize::MAX,
        ensures
            final(self).wf(),
            final(self)@ == old(self)@.after_waker_made(),
            Some(waker@) == old(self)@.polling,
            final(self)@.holds_waker(waker@),
    {
        self.wakers = self.wakers + 1;
        Waker { task: self.polling.unwrap() }
    }

    /// Receives the next task. With a task at the head of the queue, the
    /// task leaves the queue; if its slot holds a computation, that
    /// computation is taken out for polling, else the task is skipped. With
    /// an empty queue the executor waits while anything can still send, and
    /// closes for good once nothing can.
    pub fn next(&mut self) -> (step: Step<F>)
        requires
            old(self).wf(),
            old(self)@.is_idle(),
        ensures
            final(self).wf(),
            step == old(self)@.next_step(),
            final(self)@ == old(self)@.after_next(),
    {
        if !self.open {
            return Step::Closed;
        }
        match self.ready_queue.pop_front() {
            Some(task) => {
                let slot = self.tasks[task].take();
                match slot {
                    Some(future) => {
                        self.polling = Some(task);
                        Step::Poll { task, future }
                    },
                    None => {
                        assert(self.tasks@ =~= old(self).tasks@);
                        Step::Skip { task }
                    },
                }
            },
            None => {
                if self.spawners == 0 && self.wakers == 0 {
                    self.open = false;
                    Step::Closed
                } else {
                    Step::Idle
                }
            },
        }
    }

    /// Puts `task` at the back of the ready queue, if the executor is open
    /// and the queue has room.
    fn send(&mut self, task: usize) -> (sent: Result<(), SendError>)
        requires
            old(self).wf(),
            task < old(self)@.slots.len(),
        ensures
            final(self).wf(),
            sent == old(self)@.send_result(),
            final(self)@ == old(self)@.after_send(task),
    {
        if !self.open {
            return Err(SendError::Closed);
        }
        if self.ready_queue.len() >= self.capacity {
            return Err(SendError::Full);
        }
        self.ready_queue.push_back(task);
        Ok(())
    }

    /// Ends the poll in progress. A computation that is still pending goes
    /// back into its task's slot; one that is ready is dropped and the slot
    /// stays empty. Either way the executor is idle again.
    pub fn finish(&mut self, future: F, outcome: Poll)
        requires
            old(self).wf(),
            !old(self)@.is_idle(),
        ensures
            final(self).wf(),
            final(self)@ == old(self)@.after_finish(future, outcome),
    {
        let task = self.polling.unwrap();
        match outcome {
            Poll::Pending => {
                self.tasks[task] = Some(future);
            },
            Poll::Ready => {},
        }
        self.polling = None;
    }
}

impl View for Waker {
    type V = usize;

    /// The task that the handle wakes.
    closed spec fn view(&self) -> usize {
        self.task
    }
}

impl Waker {
    /// The task that the handle wakes.
    pub fn task(&self) -> (task: usize)
        ensures
            task == self@,
    {
        self.task
    }

    /// Sends the task to the ready queue and keeps the handle. Wakes are
    /// not merged: each one that succeeds is one more entry in the queue,
    /// whether or not the task is queued already or is being polled.
    pub fn wake_by_ref<F>(&self, executor: &mut Executor<F>) -> (sent: Result<(), SendError>)
        requires
            old(executor).wf(),
            old(executor)@.holds_waker(self@),
        ensures
            final(executor).wf(),
            sent == old(executor)@.send_result(),
            final(executor)@ == old(executor)@.after_send(self@),
    {
        executor.send(self.task)
    }

    /// Sends the task to the ready queue and gives the handle up.
    pub fn wake<F>(self, executor: &mut Executor<F>) -> (sent: Result<(), SendError>)
        requires
            old(executor).wf(),
            old(executor)@.holds_waker(self@),
        ensures
            final(executor).wf(),
            sent == old(executor)@.send_result(),
            final(executor)@ == old(executor)@.after_send(self@).after_waker_dropped(),
    {
        let sent = executor.send(self.task);
        executor.wakers = executor.wakers - 1;
        sent
    }

    /// Makes a second handle for the same task.
    pub fn duplicate<F>(&self, executor: &mut Executor<F>) -> (waker: Waker)
        requires
            old(executor).wf(),
            old(executor)@.wakers < usize::MAX,
        ensures
            final(executor).wf(),
            final(executor)@ == old(executor)@.after_waker_made(),
            waker@ == self@,
    {
        executor.wakers = executor.wakers + 1;
        Waker { task: self.task }
    }

    /// Gives the handle up without waking the task.
    pub fn release<F>(self, executor: &mut Executor<F>)
        requires
            old(executor).wf(),
            old(executor)@.wakers > 0,
        ensures
            final(executor).wf(),
            final(executor)@ == old(executor)@.after_waker_dropped(),
    {
        executor.wakers = executor.wakers - 1;
    }
}

impl Spawner {
    /// Submits a computation: a new task with `future` in its slot goes to
    /// the back of the ready queue, and its number is returned. A queue that
    /// is full, or an executor that has shut down, takes nothing: the
    /// executor stays as it was and the computation comes back in the error.
    pub fn spawn<F>(&self, executor: &mut Executor<F>, future: F) -> (spawned: Result<
        usize,
        SpawnError<F>,
    >)
        requires
            old(executor).wf(),
        ensures
            final(executor).wf(),
            spawned == old(executor)@.spawn_result(future),
            final(executor)@ == old(executor)@.after_spawn(future),
    {
        if !executor.open {
            return Err(SpawnError::Closed(future));
        }
        if executor.ready_queue.len() >= executor.capacity {
            return Err(SpawnError::Full(future));
        }
        let task = executor.tasks.len();
        executor.tasks.push(Some(future));
        executor.ready_queue.push_back(task);
        Ok(task)
    }

    /// Makes a second spawner for the same executor.
    pub fn duplicate<F>(&self, executor: &mut Executor<F>) -> (spawner: Spawner)
        requires
            old(executor).wf(),
            old(executor)@.spawners < usize::MAX,
        ensures
            final(executor).wf(),
            final(executor)@ == old(executor)@.after_spawner_made(),
    {
        executor.spawners = executor.spawners + 1;
        Spawner {  }
    }

    /// Gives the spawner up.
    pub fn release<F>(self, executor: &mut Executor<F>)
        requires
            old(executor).wf(),
            old(executor)@.spawners > 0,
        ensures
            final(executor).wf(),
            final(executor)@ == old(executor)@.after_spawner_dropped(),
    {
        executor.spawners = executor.spawners - 1;
    }
}

/// Makes an executor whose ready queue holds at most `queue_capacity` tasks,
/// and the first spawner for it.
pub fn new_executor_and_spawner<F>(queue_capacity: usize) -> (pair: (Executor<F>, Spawner))
    ensures
        pair.0.wf(),
        pair.0@ == ExecutorView::<F>::fresh(queue_capacity as nat),
{
    let executor = Executor {
        ready_queue: VecDeque::new(),
        capacity: queue_capacity,
        tasks: Vec::new(),
        spawners: 1,
        wakers: 0,
        polling: None,
        open: true,
    };
    (executor, Spawner {  })
}

} // verus!
