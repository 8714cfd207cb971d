//! The scheduler: one worker that runs queued works one at a time, in the
//! order in which they were pushed.
//!
//! The worker is a state machine. `worker_action` is its decision,
//! `take_next` and `complete` are its two transitions around the run of a
//! task, and `run_worker` is its loop. A program that gives the worker a
//! thread of its own takes the same transitions under a lock; one that does
//! not lets `wait` and `shutdown` run the worker on the caller's thread.

use vstd::prelude::*;
use std::collections::BTreeMap;
use std::collections::BTreeSet;
use std::collections::VecDeque;
use crate::assets::commons::{AssetHandle, ReaderBox, Signal, State, TaskResult, ThreadWork};
use crate::assets::storage_server::{
    lemma_same_outside_self, lemma_same_outside_step, StorageServer,
};

verus! {

/// What the worker does next.
#[derive(Eq, PartialEq, Clone, Copy, Debug, Structural)]
pub enum WorkerAction {
    /// Leave the loop for good.
    Exit,
    /// Run the work at the head of the queue.
    Run,
    /// Sleep until a push or a shutdown wakes it.
    Park,
}

/// How a call of `wait` ended.
#[derive(Eq, PartialEq, Clone, Copy, Debug, Structural)]
pub enum WaitOutcome {
    /// The work matching the handle has run.
    Completed,
    /// No queued or running work matches the handle: it has finished already, or never existed.
    NotFound,
    /// A matching work is queued, but no worker will get to it.
    Stalled,
}

/// A scheduler as a mathematical value.
pub ghost struct ExecutorModel {
    /// The handles of the queued works, oldest first.
    pub pending: Seq<AssetHandle>,
    /// The handle of the work that the worker has taken and not yet completed.
    pub in_flight: Option<AssetHandle>,
    /// The handles whose work has finished and that nobody has acknowledged yet.
    pub ready: Set<AssetHandle>,
    /// Every handle whose work has finished, in the order of finishing.
    pub completed: Seq<AssetHandle>,
    /// Whether `init` was called.
    pub running: bool,
    /// The last signal given to the worker.
    pub signal: Signal,
    /// Whether the worker has been started and has not left its loop.
    pub worker_alive: bool,
}

impl ExecutorModel {
    /// Whether a worker asked now would run queued work.
    pub open spec fn can_run(self) -> bool {
        self.worker_alive && self.signal != Signal::Stop && self.in_flight is None
    }

    /// Whether a work with this handle is queued or being run.
    pub open spec fn is_pending(self, handle: AssetHandle) -> bool {
        self.pending.contains(handle) || self.in_flight == Some(handle)
    }

    /// The worker's decision in this state.
    pub open spec fn worker_action(self) -> WorkerAction {
        if !self.worker_alive || self.signal == Signal::Stop {
            WorkerAction::Exit
        } else if self.pending.len() > 0 {
            WorkerAction::Run
        } else if self.signal == Signal::StopWaitAllPendingWorks {
            WorkerAction::Exit
        } else {
            WorkerAction::Park
        }
    }

    /// The state after one more work was pushed.
    pub open spec fn after_push(self, handle: AssetHandle) -> ExecutorModel {
        ExecutorModel { pending: self.pending.push(handle), ..self }
    }

    /// The state after these works were pushed, one after the other.
    pub open spec fn after_pushes(self, handles: Seq<AssetHandle>) -> ExecutorModel
        decreases handles.len(),
    {
        if handles.len() == 0 {
            self
        } else {
            self.after_pushes(handles.drop_last()).after_push(handles.last())
        }
    }

    /// The state after the worker took the head of the queue.
    pub open spec fn after_take(self) -> ExecutorModel {
        if self.pending.len() == 0 {
            self
        } else {
            ExecutorModel {
                pending: self.pending.skip(1),
                in_flight: Some(self.pending[0]),
                ..self
            }
        }
    }

    /// The state after the work with this handle was completed.
    pub open spec fn after_complete(self, handle: AssetHandle) -> ExecutorModel {
        ExecutorModel {
            in_flight: None,
            ready: self.ready.insert(handle),
            completed: self.completed.push(handle),
            ..self
        }
    }

    /// The state after the first `n` queued works ran, head first.
    pub open spec fn after_run(self, n: int) -> ExecutorModel
        recommends
            0 <= n <= self.pending.len(),
    {
        ExecutorModel {
            pending: self.pending.skip(n),
            ready: self.ready.union(self.pending.take(n).to_set()),
            completed: self.completed + self.pending.take(n),
            ..self
        }
    }

    /// How many works the worker's loop runs: all that are queued, if there
    /// is a worker with no work in hand that was not told to stop at once.
    pub open spec fn worker_span(self) -> int {
        if self.can_run() {
            self.pending.len() as int
        } else {
            0
        }
    }

    /// The state in which the worker's loop leaves the scheduler: untouched
    /// if there is no worker or the worker has a work in hand; with the
    /// worker gone if it was told to stop; else with every queued work run,
    /// and the worker gone if it was told to stop once the queue is empty.
    pub open spec fn after_worker(self) -> ExecutorModel {
        if !self.worker_alive || self.in_flight is Some {
            self
        } else if self.signal == Signal::Stop {
            ExecutorModel { worker_alive: false, ..self }
        } else {
            ExecutorModel {
                worker_alive: self.signal == Signal::Nop,
                ..self.after_run(self.pending.len() as int)
            }
        }
    }

    /// How many works `wait` runs for this handle: those up to and including
    /// the first that matches.
    pub open spec fn wait_span(self, handle: AssetHandle) -> int {
        if self.wait_outcome(handle) == WaitOutcome::Completed {
            position_of(self.pending, handle) + 1
        } else {
            0
        }
    }

    /// How `wait` on this handle ends in this state.
    pub open spec fn wait_outcome(self, handle: AssetHandle) -> WaitOutcome {
        if !self.is_pending(handle) {
            WaitOutcome::NotFound
        } else if !self.can_run() {
            WaitOutcome::Stalled
        } else {
            WaitOutcome::Completed
        }
    }

    /// The state in which `wait` on this handle leaves the scheduler.
    pub open spec fn after_wait(self, handle: AssetHandle) -> ExecutorModel {
        if self.wait_outcome(handle) == WaitOutcome::Completed {
            self.after_run(position_of(self.pending, handle) + 1)
        } else {
            self
        }
    }

    /// The state after a handle was acknowledged.
    pub open spec fn after_pop_handle(self, handle: AssetHandle) -> ExecutorModel {
        ExecutorModel { ready: self.ready.remove(handle), ..self }
    }

    /// The state after the worker was given a signal. `Nop` is no signal:
    /// it changes nothing, and the signal given before it stands.
    pub open spec fn after_signal(self, signal: Signal) -> ExecutorModel {
        if signal == Signal::Nop {
            self
        } else {
            ExecutorModel { signal, ..self }
        }
    }

    /// How many works `shutdown` with this signal runs.
    pub open spec fn shutdown_span(self, signal: Signal) -> int {
        if signal == Signal::StopWaitAllPendingWorks {
            self.after_signal(signal).worker_span()
        } else {
            0
        }
    }

    /// The state in which `shutdown` with this signal leaves the scheduler.
    pub open spec fn after_shutdown(self, signal: Signal) -> ExecutorModel {
        let signalled = self.after_signal(signal);
        if signal == Signal::StopWaitAllPendingWorks {
            signalled.after_worker()
        } else {
            signalled
        }
    }
}

/// How many handles stand before the first occurrence of `handle`; the
/// length of the sequence if there is none.
pub open spec fn position_of(handles: Seq<AssetHandle>, handle: AssetHandle) -> int
    decreases handles.len(),
{
    if handles.len() == 0 || handles[0] == handle {
        0
    } else {
        1 + position_of(handles.skip(1), handle)
    }
}

/// `position_of` is the index of the first occurrence.
pub proof fn lemma_position_of(handles: Seq<AssetHandle>, handle: AssetHandle)
    ensures
        0 <= position_of(handles, handle) <= handles.len(),
        forall|j: int| 0 <= j < position_of(handles, handle) ==> handles[j] != handle,
        handles.contains(handle) <==> position_of(handles, handle) < handles.len(),
        position_of(handles, handle) < handles.len() ==> handles[position_of(handles, handle)]
            == handle,
    decreases handles.len(),
{
    if handles.len() == 0 || handles[0] == handle {
    } else {
        let rest = handles.skip(1);
        lemma_position_of(rest, handle);
        assert forall|j: int| 0 <= j < position_of(handles, handle) implies handles[j]
            != handle by {
            if j > 0 {
                assert(rest[j - 1] == handles[j]);
            }
        }
        if handles.contains(handle) {
            let i = choose|i: int| 0 <= i < handles.len() && handles[i] == handle;
            assert(rest[i - 1] == handle);
        }
        if position_of(rest, handle) < rest.len() {
            assert(handles[position_of(rest, handle) + 1] == rest[position_of(rest, handle)]);
        }
    }
}

/// Running one more work after `n` is running `n + 1`.
pub proof fn lemma_after_run_step(m: ExecutorModel, n: int)
    requires
        0 <= n < m.pending.len(),
    ensures
        m.after_run(n).pending.len() > 0,
        m.after_run(n).pending[0] == m.pending[n],
        m.after_run(n).after_run(1) == m.after_run(n + 1),
{
    let a = m.after_run(n);
    let b = a.after_run(1);
    let c = m.after_run(n + 1);
    assert(b.pending =~= c.pending);
    assert(a.pending.take(1) =~= seq![m.pending[n]]);
    assert(m.pending.take(n + 1) =~= m.pending.take(n).push(m.pending[n]));
    assert(b.completed =~= c.completed);
    let shorter = m.pending.take(n);
    let longer = m.pending.take(n + 1);
    assert(longer.to_set() =~= shorter.to_set().insert(m.pending[n])) by {
        assert forall|h: AssetHandle|
            longer.contains(h) <==> (shorter.contains(h) || h == m.pending[n]) by {
            if longer.contains(h) {
                let i = choose|i: int| 0 <= i < longer.len() && longer[i] == h;
                if i < n {
                    assert(shorter[i] == h);
                }
            }
            if shorter.contains(h) {
                let i = choose|i: int| 0 <= i < shorter.len() && shorter[i] == h;
                assert(longer[i] == h);
            }
            if h == m.pending[n] {
                assert(longer[n] == h);
            }
        }
    }
    assert(a.pending.take(1).to_set() =~= Set::<AssetHandle>::empty().insert(m.pending[n])) by {
        assert forall|h: AssetHandle| a.pending.take(1).contains(h) <==> h == m.pending[n] by {
            if h == m.pending[n] {
                assert(a.pending.take(1)[0] == h);
            }
        }
    }
    assert(b.ready =~= c.ready);
}

/// Each of the first `n` queued works is ready once they have run.
pub proof fn lemma_after_run_ready(m: ExecutorModel, n: int, i: int)
    requires
        0 <= i < n <= m.pending.len(),
    ensures
        m.after_run(n).ready.contains(m.pending[i]),
        m.after_run(n).completed[m.completed.len() + i] == m.pending[i],
{
    assert(m.pending.take(n)[i] == m.pending[i]);
}

/// Running no work changes nothing.
pub proof fn lemma_after_run_none(m: ExecutorModel)
    ensures
        m.after_run(0) == m,
{
    let a = m.after_run(0);
    assert(a.pending =~= m.pending);
    assert(a.completed =~= m.completed);
    assert(m.pending.take(0).to_set() =~= Set::<AssetHandle>::empty());
    assert(a.ready =~= m.ready);
}

/// First in, first out: after any number of pushes the queue holds what it
/// held before and then the pushed works in the order of pushing; and a
/// worker with no work in hand that is not told to stop at once finishes
/// them in exactly that order, leaves the queue empty, and makes each of
/// them ready.
pub proof fn lemma_fifo_order(m: ExecutorModel, handles: Seq<AssetHandle>)
    ensures
        m.after_pushes(handles).pending == m.pending + handles,
        m.worker_alive && m.in_flight is None && m.signal != Signal::Stop ==> {
            let end = m.after_pushes(handles).after_worker();
            &&& end.completed == m.completed + m.pending + handles
            &&& end.pending.len() == 0
            &&& forall|i: int| 0 <= i < handles.len() ==> end.ready.contains(#[trigger] handles[i])
        },
    decreases handles.len(),
{
    let pushed = m.after_pushes(handles);
    if handles.len() == 0 {
        assert(pushed.pending =~= m.pending + handles);
    } else {
        lemma_fifo_order(m, handles.drop_last());
        assert(pushed.pending =~= m.pending + handles);
    }
    lemma_pushes_frame(m, handles);
    if m.worker_alive && m.in_flight is None && m.signal != Signal::Stop {
        let end = pushed.after_worker();
        let all = pushed.pending;
        assert(all.take(all.len() as int) =~= all);
        assert(end.completed =~= m.completed + m.pending + handles);
        assert forall|i: int| 0 <= i < handles.len() implies end.ready.contains(
            #[trigger] handles[i],
        ) by {
            assert(all[m.pending.len() + i] == handles[i]);
        }
    }
}

/// Acknowledging a handle twice is acknowledging it once, and acknowledging
/// a handle that is not ready changes nothing.
pub proof fn lemma_pop_handle_idempotent(m: ExecutorModel, handle: AssetHandle)
    ensures
        m.after_pop_handle(handle).after_pop_handle(handle) == m.after_pop_handle(handle),
        !m.ready.contains(handle) ==> m.after_pop_handle(handle) == m,
        !m.after_pop_handle(handle).ready.contains(handle),
{
    assert(m.ready.remove(handle).remove(handle) =~= m.ready.remove(handle));
    if !m.ready.contains(handle) {
        assert(m.ready.remove(handle) =~= m.ready);
    }
}

/// Pushing changes nothing but the queue.
pub proof fn lemma_pushes_frame(m: ExecutorModel, handles: Seq<AssetHandle>)
    ensures
        m.after_pushes(handles) == (ExecutorModel {
            pending: m.after_pushes(handles).pending,
            ..m
        }),
    decreases handles.len(),
{
    if handles.len() > 0 {
        lemma_pushes_frame(m, handles.drop_last());
    }
}

/// The reasons of failure on record after a work ended: the work's reason
/// if it failed, none for the handle if it did not.
pub open spec fn recorded(
    failures: Map<AssetHandle, &'static str>,
    handle: AssetHandle,
    result: TaskResult,
) -> Map<AssetHandle, &'static str> {
    match result {
        TaskResult::Failed(reason) => failures.insert(handle, reason),
        _ => failures.remove(handle),
    }
}

/// Whether every handle outside `handles` has the same reason on record in
/// both, or none in both.
pub open spec fn failures_kept(
    before: Map<AssetHandle, &'static str>,
    after: Map<AssetHandle, &'static str>,
    handles: Seq<AssetHandle>,
) -> bool {
    forall|h: AssetHandle|
        !handles.contains(h) ==> (#[trigger] after.contains_key(h) == before.contains_key(h)) && (
        before.contains_key(h) ==> after[h] == before[h])
}

/// The kinds of the handles in a sequence.
pub open spec fn kinds_of(handles: Seq<AssetHandle>) -> Set<u64> {
    Set::new(|k: u64| exists|i: int| 0 <= i < handles.len() && (#[trigger] handles[i]).asset_type == k)
}

/// Dropping `n` works and then one more is dropping `n + 1`.
pub proof fn lemma_works_skip_step(works: Seq<ThreadWork>, n: int)
    requires
        0 <= n < works.len(),
    ensures
        works.skip(n).skip(1) == works.skip(n + 1),
        works.skip(0) == works,
{
    assert(works.skip(n).skip(1) =~= works.skip(n + 1));
    assert(works.skip(0) =~= works);
}

/// The handles of a queue of works, in queue order.
pub open spec fn handles_of(works: Seq<ThreadWork>) -> Seq<AssetHandle> {
    works.map_values(|w: ThreadWork| w.asset_handle)
}

/// The handles that a set of keys stands for.
pub open spec fn handles_of_keys(keys: Set<u128>) -> Set<AssetHandle> {
    Set::new(|h: AssetHandle| keys.contains(h.key_spec()))
}

/// Runs works one at a time, oldest first.
pub struct MonoThreadFifoExecutor {
    works_queue: VecDeque<ThreadWork>,
    in_flight: Option<AssetHandle>,
    ready_handles: BTreeSet<u128>,
    failed: BTreeMap<u128, &'static str>,
    completed: Ghost<Seq<AssetHandle>>,
    worker_alive: bool,
    pub running: bool,
    pub shutdown: Signal,
}

impl View for MonoThreadFifoExecutor {
    type V = ExecutorModel;

    closed spec fn view(&self) -> ExecutorModel {
        ExecutorModel {
            pending: handles_of(self.works_queue@),
            in_flight: self.in_flight,
            ready: handles_of_keys(self.ready_handles@),
            completed: self.completed@,
            running: self.running,
            signal: self.shutdown,
            worker_alive: self.worker_alive,
        }
    }
}

impl MonoThreadFifoExecutor {
    /// The queued works, oldest first.
    pub closed spec fn works(&self) -> Seq<ThreadWork> {
        self.works_queue@
    }

    /// For each handle whose last work failed and that nobody has
    /// acknowledged since, the reason that the work gave.
    pub closed spec fn failures(&self) -> Map<AssetHandle, &'static str> {
        Map::new(
            |h: AssetHandle| self.failed@.contains_key(h.key_spec()),
            |h: AssetHandle| self.failed@[h.key_spec()],
        )
    }

    /// The queue of the model is the handles of the queued works.
    pub proof fn lemma_works_pending(&self)
        ensures
            self@.pending == handles_of(self.works()),
    {
    }

    /// A new scheduler: nothing queued, nothing ready, no worker.
    pub open spec fn new_model() -> ExecutorModel {
        ExecutorModel {
            pending: Seq::empty(),
            in_flight: None,
            ready: Set::empty(),
            completed: Seq::empty(),
            running: false,
            signal: Signal::Nop,
            worker_alive: false,
        }
    }

    pub fn new() -> (exe: Self)
        ensures
            exe@ == Self::new_model(),
            exe.works() == Seq::<ThreadWork>::empty(),
            exe.failures() == Map::<AssetHandle, &'static str>::empty(),
    {
        let exe = Self {
            works_queue: VecDeque::new(),
            in_flight: None,
            ready_handles: BTreeSet::new(),
            failed: BTreeMap::new(),
            completed: Ghost(Seq::empty()),
            worker_alive: false,
            running: false,
            shutdown: Signal::Nop,
        };
        assert(exe@.pending =~= Seq::<AssetHandle>::empty());
        assert(exe@.ready =~= Set::<AssetHandle>::empty());
        assert(exe.failures() =~= Map::<AssetHandle, &'static str>::empty());
        exe
    }

    /// Starts the worker. A scheduler has one worker in its life: `init` must
    /// not be called a second time.
    pub fn init(&mut self)
        requires
            !old(self)@.running,
        ensures
            final(self)@ == (ExecutorModel {
                running: true,
                signal: Signal::Nop,
                worker_alive: true,
                ..old(self)@
            }),
            final(self).works() == old(self).works(),
            final(self).failures() == old(self).failures(),
    {
        self.running = true;
        self.shutdown = Signal::Nop;
        self.worker_alive = true;
    }

    /// Starts the worker unless it was started before; says whether it did.
    pub fn try_init(&mut self) -> (started: bool)
        ensures
            started == !old(self)@.running,
            started ==> final(self)@ == (ExecutorModel {
                running: true,
                signal: Signal::Nop,
                worker_alive: true,
                ..old(self)@
            }),
            !started ==> final(self)@ == old(self)@,
            final(self).works() == old(self).works(),
            final(self).failures() == old(self).failures(),
    {
        if self.running {
            false
        } else {
            self.init();
            true
        }
    }

    /// Puts a work at the tail of the queue.
    pub fn push(&mut self, worker: ThreadWork)
        ensures
            final(self)@ == old(self)@.after_push(worker.asset_handle),
            final(self).works() == old(self).works().push(worker),
            final(self).failures() == old(self).failures(),
    {
        self.works_queue.push_back(worker);
        assert(handles_of(self.works_queue@) =~= handles_of(old(self).works_queue@).push(
            worker.asset_handle,
        ));
    }

    pub fn is_completed(&self, handle: &AssetHandle) -> (r: bool)
        ensures
            r == self@.ready.contains(*handle),
    {
        let key: u128 = handle.key();
        self.ready_handles.contains(&key)
    }

    /// Takes the handle out of the ready set; nothing happens if it is not there.
    pub fn pop_handle(&mut self, handle: &AssetHandle)
        ensures
            final(self)@ == old(self)@.after_pop_handle(*handle),
            final(self).failures() == old(self).failures().remove(*handle),
            final(self).works() == old(self).works(),
    {
        let key: u128 = handle.key();
        self.ready_handles.remove(&key);
        self.failed.remove(&key);
        proof {
            assert forall|h: AssetHandle| h != *handle implies h.key_spec()
                != handle.key_spec() by {
                AssetHandle::lemma_key_injective(h, *handle);
            }
            assert(self@.ready =~= old(self)@.ready.remove(*handle));
            assert(self.failures() =~= old(self).failures().remove(*handle));
        }
    }

    /// The reason that the last work of a handle gave for failing, if it
    /// failed and the handle was not acknowledged since.
    pub fn failure_of(&self, handle: &AssetHandle) -> (reason: Option<&'static str>)
        ensures
            match reason {
                Some(r) => self.failures().contains_key(*handle) && self.failures()[*handle] == r,
                None => !self.failures().contains_key(*handle),
            },
    {
        let key: u128 = handle.key();
        match self.failed.get(&key) {
            Some(reason) => Some(*reason),
            None => None,
        }
    }

    /// The worker's decision: whether to leave, to run the head of the queue, or to sleep.
    pub fn worker_action(&self) -> (action: WorkerAction)
        ensures
            action == self@.worker_action(),
    {
        if !self.worker_alive {
            return WorkerAction::Exit;
        }
        match self.shutdown {
            Signal::Stop => {
                return WorkerAction::Exit;
            },
            Signal::StopWaitAllPendingWorks => {
                let len: usize = self.works_queue.len();
                if len == 0 {
                    return WorkerAction::Exit;
                }
            },
            Signal::Nop => {},
        }
        if self.works_queue.len() > 0 {
            WorkerAction::Run
        } else {
            WorkerAction::Park
        }
    }

    /// Whether `init` was called.
    pub fn is_running(&self) -> (r: bool)
        ensures
            r == self@.running,
    {
        self.running
    }

    /// Whether a worker asked now would run queued work: there is one, it
    /// has not been told to stop at once, and it has no work in hand.
    pub fn can_run(&self) -> (r: bool)
        ensures
            r == self@.can_run(),
    {
        self.worker_alive && self.shutdown != Signal::Stop && self.in_flight.is_none()
    }

    /// Records that the worker has left its loop.
    pub fn worker_exited(&mut self)
        ensures
            final(self)@ == (ExecutorModel { worker_alive: false, ..old(self)@ }),
            final(self).works() == old(self).works(),
            final(self).failures() == old(self).failures(),
    {
        self.worker_alive = false;
    }

    /// The handle of the work that the worker has in hand, if it has one.
    pub fn in_flight(&self) -> (handle: Option<AssetHandle>)
        ensures
            handle == self@.in_flight,
    {
        self.in_flight
    }

    /// The worker's first transition: takes the work at the head of the queue
    /// and marks it as running. The worker must have no work in hand.
    pub fn take_next(&mut self) -> (next: Option<ThreadWork>)
        requires
            old(self)@.in_flight is None,
        ensures
            final(self)@ == old(self)@.after_take(),
            next is Some <==> old(self)@.pending.len() > 0,
            next is Some ==> {
                &&& next->0.asset_handle == old(self)@.pending[0]
                &&& next->0.task == old(self).works()[0].task
                &&& next->0.state == State::Running
                &&& next->0.task_result == TaskResult::Undefined
                &&& final(self).works() == old(self).works().skip(1)
            },
            next is None ==> final(self).works() == old(self).works(),
            final(self).failures() == old(self).failures(),
    {
        match self.works_queue.pop_front() {
            Some(mut worker) => {
                Self::update_state(&mut worker, State::Running, TaskResult::Undefined);
                self.in_flight = Some(worker.asset_handle);
                assert(handles_of(self.works_queue@) =~= handles_of(old(self).works_queue@).skip(1));
                Some(worker)
            },
            None => {
                assert(handles_of(self.works_queue@) =~= handles_of(old(self).works_queue@));
                None
            },
        }
    }

    /// The worker's second transition: marks the work as completed with its
    /// result and puts its handle into the ready set. The work is handed
    /// back so that its result can be read. The work must be the one that
    /// the worker has in hand.
    pub fn complete(&mut self, worker: ThreadWork, task_result: TaskResult) -> (done: ThreadWork)
        requires
            old(self)@.in_flight == Some(worker.asset_handle),
        ensures
            final(self)@ == old(self)@.after_complete(worker.asset_handle),
            done.asset_handle == worker.asset_handle,
            done.task == worker.task,
            done.state == State::Completed,
            done.task_result == task_result,
            final(self).works() == old(self).works(),
            final(self).failures() == recorded(
                old(self).failures(),
                worker.asset_handle,
                task_result,
            ),
    {
        let mut worker = worker;
        Self::update_state(&mut worker, State::Completed, task_result);
        Self::set_completed(&mut self.ready_handles, worker.asset_handle);
        let key: u128 = worker.asset_handle.key();
        match task_result {
            TaskResult::Failed(reason) => {
                self.failed.insert(key, reason);
            },
            _ => {
                self.failed.remove(&key);
            },
        }
        proof {
            let handle = worker.asset_handle;
            assert forall|h: AssetHandle| h != handle implies #[trigger] h.key_spec()
                != handle.key_spec() by {
                AssetHandle::lemma_key_injective(h, handle);
            }
            assert(self.failures() =~= recorded(old(self).failures(), handle, task_result));
        }
        self.in_flight = None;
        proof {
            self.completed@ = self.completed@.push(worker.asset_handle);
        }
        worker
    }

    /// Whether a work with this handle is queued or being run.
    pub fn is_pending(&self, handle: &AssetHandle) -> (r: bool)
        ensures
            r == self@.is_pending(*handle),
    {
        match self.in_flight {
            Some(h) => {
                if h == *handle {
                    return true;
                }
            },
            None => {},
        }
        let len: usize = self.works_queue.len();
        let mut i: usize = 0;
        while i < len
            invariant
                len == self.works_queue@.len(),
                0 <= i <= len,
                forall|j: int| 0 <= j < i ==> self.works_queue@[j].asset_handle != *handle,
            decreases len - i,
        {
            if self.works_queue[i].asset_handle == *handle {
                assert(self@.pending[i as int] == *handle);
                return true;
            }
            i += 1;
        }
        assert(!self@.pending.contains(*handle)) by {
            if self@.pending.contains(*handle) {
                let j = choose|j: int| 0 <= j < self@.pending.len() && self@.pending[j] == *handle;
                assert(self.works_queue@[j].asset_handle == *handle);
            }
        }
        false
    }

    /// One turn of the worker: takes the head of the queue, runs its task
    /// and completes it. Returns the handle and the task's result, or
    /// nothing if the queue was empty or the worker has a work in hand. The
    /// task gets at the storage of its handle's kind and at no other.
    pub fn run_next(&mut self, storage: &mut StorageServer, reader: &ReaderBox) -> (ran: Option<
        (AssetHandle, TaskResult),
    >)
        ensures
            ran is Some <==> old(self)@.pending.len() > 0 && old(self)@.in_flight is None,
            ran is None ==> {
                &&& final(self)@ == old(self)@
                &&& final(self).works() == old(self).works()
                &&& final(self).failures() == old(self).failures()
                &&& *final(storage) == *old(storage)
            },
            ran is Some ==> {
                &&& (ran->0).0 == old(self)@.pending[0]
                &&& final(self)@ == old(self)@.after_run(1)
                &&& final(self).works() == old(self).works().skip(1)
                &&& final(self).failures() == recorded(
                    old(self).failures(),
                    old(self)@.pending[0],
                    (ran->0).1,
                )
                &&& final(storage).same_but(old(storage), old(self)@.pending[0].asset_type)
            },
    {
        if self.in_flight.is_some() {
            return None;
        }
        match self.take_next() {
            Some(mut worker) => {
                let task_result: TaskResult = Self::invoke_task(&mut worker, storage, reader);
                let done = self.complete(worker, task_result);
                proof {
                    let m = old(self)@;
                    assert(m.pending.take(1) =~= seq![m.pending[0]]);
                    assert(m.pending.take(1).to_set() =~= Set::<AssetHandle>::empty().insert(
                        m.pending[0],
                    )) by {
                        assert forall|h: AssetHandle|
                            m.pending.take(1).contains(h) <==> h == m.pending[0] by {
                            if h == m.pending[0] {
                                assert(m.pending.take(1)[0] == h);
                            }
                        }
                    }
                    assert(self@.ready =~= m.after_run(1).ready);
                    assert(self@.completed =~= m.after_run(1).completed);
                }
                Some((done.asset_handle, task_result))
            },
            None => None,
        }
    }

    /// The worker's loop: runs queued works, head first, for as long as the
    /// worker's decision is to run. Returns the number of works it ran.
    pub fn run_worker(&mut self, storage: &mut StorageServer, reader: &ReaderBox) -> (count: usize)
        ensures
            final(self)@ == old(self)@.after_worker(),
            count == old(self)@.worker_span(),
            final(self).works() == old(self).works().skip(count as int),
            failures_kept(old(self).failures(), final(self).failures(), old(self)@.pending),
            final(storage).same_outside(old(storage), kinds_of(old(self)@.pending)),
            count == 0 ==> *final(storage) == *old(storage),
    {
        proof {
            lemma_same_outside_self(*old(storage), kinds_of(old(self)@.pending));
            assert(old(self).works().skip(0) =~= old(self).works());
        }
        if self.in_flight.is_some() {
            return 0;
        }
        let total: usize = self.works_queue.len();
        let mut count: usize = 0;
        let mut action: WorkerAction = self.worker_action();
        proof {
            lemma_after_run_none(old(self)@);
        }
        while action == WorkerAction::Run
            invariant
                action == self@.worker_action(),
                self@ == old(self)@.after_run(count as int),
                old(self)@.in_flight is None,
                0 <= count <= total,
                total == old(self)@.pending.len(),
                total == old(self).works().len(),
                count > 0 ==> old(self)@.worker_alive && old(self)@.signal != Signal::Stop,
                self.works() == old(self).works().skip(count as int),
                failures_kept(old(self).failures(), self.failures(), old(self)@.pending),
                storage.same_outside(old(storage), kinds_of(old(self)@.pending)),
                count == 0 ==> *storage == *old(storage),
            decreases total - count,
        {
            let ghost before = *storage;
            proof {
                lemma_after_run_step(old(self)@, count as int);
                lemma_works_skip_step(old(self).works(), count as int);
                assert(old(self)@.pending.contains(old(self)@.pending[count as int]));
                assert(kinds_of(old(self)@.pending).contains(
                    old(self)@.pending[count as int].asset_type,
                ));
            }
            self.run_next(storage, reader);
            proof {
                lemma_same_outside_step(
                    *old(storage),
                    before,
                    *storage,
                    kinds_of(old(self)@.pending),
                    old(self)@.pending[count as int].asset_type,
                );
            }
            count += 1;
            action = self.worker_action();
        }
        proof {
            let m = old(self)@;
            assert(self@.pending.len() == total - count);
            if m.worker_alive && m.signal != Signal::Stop {
                assert(count == total);
            } else {
                assert(count == 0);
            }
        }
        if action == WorkerAction::Exit {
            self.worker_exited();
        }
        count
    }

    /// Lets the work that matches the handle finish: runs the queue up to
    /// and including the first work with this handle. Returns at once if no
    /// such work is queued, or if no worker would run it.
    pub fn wait(
        &mut self,
        asset_handle: AssetHandle,
        storage: &mut StorageServer,
        reader: &ReaderBox,
    ) -> (outcome: WaitOutcome)
        ensures
            outcome == old(self)@.wait_outcome(asset_handle),
            final(self)@ == old(self)@.after_wait(asset_handle),
            final(self).works() == old(self).works().skip(old(self)@.wait_span(asset_handle)),
            failures_kept(old(self).failures(), final(self).failures(), old(self)@.pending),
            final(storage).same_outside(old(storage), kinds_of(old(self)@.pending)),
            outcome != WaitOutcome::Completed ==> *final(storage) == *old(storage),
    {
        proof {
            lemma_same_outside_self(*old(storage), kinds_of(old(self)@.pending));
            assert(old(self).works().skip(0) =~= old(self).works());
        }
        if !self.is_pending(&asset_handle) {
            return WaitOutcome::NotFound;
        }
        if !self.worker_alive || self.shutdown == Signal::Stop || self.in_flight.is_some() {
            return WaitOutcome::Stalled;
        }
        let total: usize = self.works_queue.len();
        let mut count: usize = 0;
        let mut found: bool = false;
        proof {
            lemma_after_run_none(old(self)@);
            lemma_position_of(old(self)@.pending, asset_handle);
        }
        while !found
            invariant
                self@ == old(self)@.after_run(count as int),
                total == old(self)@.pending.len(),
                !found ==> 0 <= count <= position_of(old(self)@.pending, asset_handle),
                found ==> count == position_of(old(self)@.pending, asset_handle) + 1,
                position_of(old(self)@.pending, asset_handle) < total,
                forall|j: int|
                    0 <= j < position_of(old(self)@.pending, asset_handle) ==> old(self)@.pending[j] != asset_handle,
                old(self)@.pending[position_of(old(self)@.pending, asset_handle)] == asset_handle,
                old(self)@.in_flight is None,
                total == old(self).works().len(),
                self.works() == old(self).works().skip(count as int),
                failures_kept(old(self).failures(), self.failures(), old(self)@.pending),
                storage.same_outside(old(storage), kinds_of(old(self)@.pending)),
            decreases total - count,
        {
            let ghost before = *storage;
            proof {
                lemma_after_run_step(old(self)@, count as int);
                lemma_works_skip_step(old(self).works(), count as int);
                assert(old(self)@.pending.contains(old(self)@.pending[count as int]));
                assert(kinds_of(old(self)@.pending).contains(
                    old(self)@.pending[count as int].asset_type,
                ));
            }
            let ran = self.run_next(storage, reader);
            proof {
                lemma_same_outside_step(
                    *old(storage),
                    before,
                    *storage,
                    kinds_of(old(self)@.pending),
                    old(self)@.pending[count as int].asset_type,
                );
            }
            match ran {
                Some((handle, _)) => {
                    if handle == asset_handle {
                        found = true;
                    }
                },
                None => {},
            }
            count += 1;
        }
        WaitOutcome::Completed
    }

    /// Gives the worker a signal, for it to see when it next decides. `Nop`
    /// is no signal: it changes nothing.
    pub fn signal(&mut self, signal: Signal)
        ensures
            final(self)@ == old(self)@.after_signal(signal),
            signal == Signal::Nop ==> final(self)@ == old(self)@,
            final(self).works() == old(self).works(),
            final(self).failures() == old(self).failures(),
    {
        if signal == Signal::Nop {
            return;
        }
        self.shutdown = signal;
    }

    /// Gives the worker a signal. `Nop` changes nothing. `Stop` leaves what
    /// is queued unrun. With `StopWaitAllPendingWorks` the call returns only
    /// when the worker has run what was queued and has left. Only a signal
    /// that lets queued works run touches the registry.
    pub fn shutdown(&mut self, signal: Signal, storage: &mut StorageServer, reader: &ReaderBox)
        ensures
            final(self)@ == old(self)@.after_shutdown(signal),
            signal == Signal::Nop ==> final(self)@ == old(self)@,
            final(self).works() == old(self).works().skip(old(self)@.shutdown_span(signal)),
            failures_kept(old(self).failures(), final(self).failures(), old(self)@.pending),
            final(storage).same_outside(old(storage), kinds_of(old(self)@.pending)),
            old(self)@.shutdown_span(signal) == 0 ==> *final(storage) == *old(storage),
    {
        proof {
            lemma_same_outside_self(*old(storage), kinds_of(old(self)@.pending));
            assert(old(self).works().skip(0) =~= old(self).works());
        }
        if signal == Signal::Nop {
            return;
        }
        self.signal(signal);
        if signal == Signal::StopWaitAllPendingWorks {
            self.run_worker(storage, reader);
        }
    }

    fn set_completed(container: &mut BTreeSet<u128>, handle: AssetHandle)
        ensures
            handles_of_keys(final(container)@) == handles_of_keys(old(container)@).insert(handle),
    {
        container.insert(handle.key());
        proof {
            assert forall|h: AssetHandle| h != handle implies h.key_spec()
                != handle.key_spec() by {
                AssetHandle::lemma_key_injective(h, handle);
            }
            assert(handles_of_keys(container@) =~= handles_of_keys(old(container)@).insert(handle));
        }
    }

    fn update_state(worker: &mut ThreadWork, state: State, result: TaskResult)
        ensures
            final(worker).state == state,
            final(worker).task_result == result,
            final(worker).asset_handle == old(worker).asset_handle,
            final(worker).task == old(worker).task,
    {
        worker.state = state;
        worker.task_result = result;
    }

    /// Runs the task of a work. Whatever the task does and returns, it gets
    /// at nothing of the work but itself.
    fn invoke_task(worker: &mut ThreadWork, storage: &mut StorageServer, reader: &ReaderBox) -> (r:
        TaskResult)
        ensures
            final(worker).asset_handle == old(worker).asset_handle,
            final(worker).state == old(worker).state,
            final(worker).task_result == old(worker).task_result,
            final(storage).same_but(old(storage), old(worker).asset_handle.asset_type),
    {
        worker.task.invoke(worker.asset_handle, storage, reader)
    }
}

} // verus!
