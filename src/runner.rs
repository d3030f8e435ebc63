//! The decisions of an isolated task runner.
//!
//! A runner owns a task-execution environment (a thread pool with timers). The
//! environment itself lives with the caller; this module holds what the runner
//! decides: which lifecycle transitions are allowed, what a task does next, when
//! a suspension point is over, and what a finished run hands back.
use vstd::prelude::*;

verus! {

/// One step of a deferred computation.
pub enum Step {
    /// Produces one line of output.
    Emit(String),
    /// Suspends the task for the given number of milliseconds.
    Wait(u64),
}

/// The lines that `steps` produce, in the order in which they are written.
pub open spec fn emitted_lines(steps: Seq<Step>) -> Seq<String>
    decreases steps.len(),
{
    if steps.len() == 0 {
        Seq::empty()
    } else {
        let earlier = emitted_lines(steps.drop_last());
        match steps.last() {
            Step::Emit(line) => earlier.push(line),
            Step::Wait(_) => earlier,
        }
    }
}

/// The total time, in milliseconds, for which `steps` suspend.
pub open spec fn total_wait(steps: Seq<Step>) -> nat
    decreases steps.len(),
{
    if steps.len() == 0 {
        0
    } else {
        let earlier = total_wait(steps.drop_last());
        match steps.last() {
            Step::Emit(_) => earlier,
            Step::Wait(ms) => (earlier + ms) as nat,
        }
    }
}


/// A deferred computation: ordered steps, then the value that its last step produces.
pub struct Task<T> {
    pub steps: Vec<Step>,
    pub value: T,
}

/// What the environment is asked to do next for a running task.
pub enum Action {
    /// Output this line, then report `Event::Emitted`.
    Emit(String),
    /// Park the task for this many milliseconds, then report `Event::Resumed`
    /// with the time that actually went by.
    Sleep(u64),
    /// The task has reached its terminal step.
    Finish,
}

/// What the environment reports back after performing an action.
pub enum Event {
    /// The requested line was output.
    Emitted,
    /// The task was woken after the given number of milliseconds.
    Resumed(u64),
}

/// The progress of one task through its steps.
pub struct TaskExecution<T> {
    steps: Vec<Step>,
    value: T,
    next: usize,
    remaining_ms: u64,
    log: Vec<String>,
    slept: Ghost<nat>,
}

impl<T> TaskExecution<T> {
    /// The steps of the task.
    pub closed spec fn steps(&self) -> Seq<Step> {
        self.steps@
    }

    /// The value that the task produces when it completes.
    pub closed spec fn value(&self) -> T {
        self.value
    }

    /// How many steps are done.
    pub closed spec fn done(&self) -> nat {
        self.next as nat
    }

    /// The lines output so far, in order.
    pub closed spec fn log(&self) -> Seq<String> {
        self.log@
    }

    /// The milliseconds for which the task has been parked so far.
    pub closed spec fn slept(&self) -> nat {
        self.slept@
    }

    /// Time still to wait at the current suspension point.
    pub closed spec fn remaining(&self) -> nat {
        self.remaining_ms as nat
    }

    pub open spec fn is_complete(&self) -> bool {
        self.done() == self.steps().len()
    }

    /// The action that the current step asks for.
    pub open spec fn action(&self) -> Action {
        if self.done() >= self.steps().len() {
            Action::Finish
        } else {
            match self.steps()[self.done() as int] {
                Step::Emit(line) => Action::Emit(line),
                Step::Wait(_) => Action::Sleep(self.remaining() as u64),
            }
        }
    }

    pub closed spec fn wf(&self) -> bool {
        &&& self.next <= self.steps@.len()
        &&& self.log@ == emitted_lines(self.steps@.take(self.next as int))
        &&& if self.next < self.steps@.len() && self.steps@[self.next as int] is Wait {
            let ms = self.steps@[self.next as int]->Wait_0;
            &&& self.remaining_ms <= ms
            &&& self.slept@ >= total_wait(self.steps@.take(self.next as int)) + (ms - self.remaining_ms)
        } else {
            self.slept@ >= total_wait(self.steps@.take(self.next as int))
        }
    }

    /// Starts `task` at its first step.
    pub fn new(task: Task<T>) -> (r: Self)
        ensures
            r.wf(),
            r.steps() == task.steps@,
            r.value() == task.value,
            r.done() == 0,
            r.log() == Seq::<String>::empty(),
            r.slept() == 0,
            r.action() == (if task.steps@.len() == 0 {
                Action::Finish
            } else {
                match task.steps@[0] {
                    Step::Emit(line) => Action::Emit(line),
                    Step::Wait(ms) => Action::Sleep(ms),
                }
            }),
    {
        let Task { steps, value } = task;
        let mut r = TaskExecution {
            steps,
            value,
            next: 0,
            remaining_ms: 0,
            log: Vec::new(),
            slept: Ghost(0),
        };
        assert(r.steps@.take(0) =~= Seq::<Step>::empty());
        r.enter_step();
        r
    }

    /// Sets up the step at `next`: a suspension point starts with its full duration.
    fn enter_step(&mut self)
        requires
            old(self).next <= old(self).steps@.len(),
        ensures
            final(self).steps == old(self).steps,
            final(self).value == old(self).value,
            final(self).next == old(self).next,
            final(self).log == old(self).log,
            final(self).slept == old(self).slept,
            final(self).next < final(self).steps@.len() && final(self).steps@[final(self).next as int] is Wait
                ==> final(self).remaining_ms == final(self).steps@[final(self).next as int]->Wait_0,
    {
        if self.next < self.steps.len() {
            match &self.steps[self.next] {
                Step::Wait(ms) => {
                    self.remaining_ms = *ms;
                },
                Step::Emit(_) => {},
            }
        }
    }

    /// The action that the current step asks for.
    pub fn current(&self) -> (r: Action)
        requires
            self.wf(),
        ensures
            r == self.action(),
    {
        if self.next >= self.steps.len() {
            Action::Finish
        } else {
            match &self.steps[self.next] {
                Step::Emit(line) => Action::Emit(line.clone()),
                Step::Wait(_) => Action::Sleep(self.remaining_ms),
            }
        }
    }

    /// Takes in what the environment reports and returns the next action.
    ///
    /// An `Emitted` report at an output step records the line and moves on. A
    /// `Resumed` report at a suspension point counts the time that went by; the
    /// task moves on only once the full duration has passed, and otherwise
    /// sleeps again for the rest. A report that does not answer the current
    /// action changes nothing.
    pub fn advance(&mut self, event: Event) -> (r: Action)
        requires
            old(self).wf(),
        ensures
            final(self).wf(),
            r == final(self).action(),
            final(self).steps() == old(self).steps(),
            final(self).value() == old(self).value(),
            match (old(self).action(), event) {
                (Action::Emit(line), Event::Emitted) => {
                    &&& final(self).done() == old(self).done() + 1
                    &&& final(self).log() == old(self).log().push(line)
                    &&& final(self).slept() == old(self).slept()
                },
                (Action::Sleep(ms), Event::Resumed(elapsed)) => {
                    &&& final(self).log() == old(self).log()
                    &&& final(self).slept() == old(self).slept() + elapsed
                    &&& if elapsed >= ms {
                        final(self).done() == old(self).done() + 1
                    } else {
                        &&& final(self).done() == old(self).done()
                        &&& final(self).remaining() == ms - elapsed
                    }
                },
                _ => *final(self) == *old(self),
            },
    {
        let n = self.next;
        if n >= self.steps.len() {
            return Action::Finish;
        }
        proof {
            lemma_prefix_extend(self.steps@, n as int);
        }
        match (&self.steps[n], event) {
            (Step::Emit(line), Event::Emitted) => {
                let copy = line.clone();
                self.log.push(copy);
                self.next = n + 1;
                self.enter_step();
            },
            (Step::Wait(_), Event::Resumed(elapsed)) => {
                proof {
                    self.slept@ = (self.slept@ + elapsed) as nat;
                }
                if elapsed >= self.remaining_ms {
                    self.next = n + 1;
                    self.enter_step();
                } else {
                    self.remaining_ms = self.remaining_ms - elapsed;
                }
            },
            _ => {},
        }
        self.current()
    }

    /// Whether the task has reached its terminal step.
    pub fn is_finished(&self) -> (r: bool)
        requires
            self.wf(),
        ensures
            r == self.is_complete(),
    {
        self.next == self.steps.len()
    }

    fn into_value(self) -> (r: T)
        ensures
            r == self.value(),
    {
        self.value
    }

    /// The lines output so far, in order.
    pub fn output(&self) -> (r: &Vec<String>)
        ensures
            r@ == self.log(),
    {
        &self.log
    }
}

/// Where a runner is in its life.
#[derive(PartialEq, Eq, Structural, Debug)]
pub enum RunnerState {
    /// The environment is up and no task is in flight.
    Ready,
    /// A task is in flight.
    Running,
    /// The environment was torn down; the runner cannot be used again.
    ShutDown,
}

/// Why a runner operation did not go through.
#[derive(PartialEq, Eq, Structural, Debug)]
pub enum RunnerError {
    /// The environment could not be set up.
    EnvironmentInitError,
    /// The task stopped before its terminal step.
    TaskPanic,
    /// A task is already in flight.
    Busy,
    /// The runner was shut down.
    Stopped,
}

/// What tearing down a runner in state `s` returns.
pub open spec fn shut_down_outcome(s: RunnerState) -> Result<(), RunnerError> {
    match s {
        RunnerState::Ready => Ok(()),
        RunnerState::Running => Err(RunnerError::Busy),
        RunnerState::ShutDown => Err(RunnerError::Stopped),
    }
}

/// The state of a runner in state `s` after an attempt to tear it down.
pub open spec fn after_shut_down(s: RunnerState) -> RunnerState {
    match s {
        RunnerState::Ready => RunnerState::ShutDown,
        _ => s,
    }
}

/// What ending a run returns for the execution `exec`.
pub open spec fn finish_outcome<T>(exec: TaskExecution<T>) -> Result<T, RunnerError> {
    if exec.is_complete() {
        Ok(exec.value())
    } else {
        Err(RunnerError::TaskPanic)
    }
}

/// A runner that drives one deferred computation at a time to completion.
pub struct TokioLib {
    state: RunnerState,
}

impl TokioLib {
    pub closed spec fn state_spec(&self) -> RunnerState {
        self.state
    }

    /// A runner whose environment is up.
    pub fn new() -> (r: Self)
        ensures
            r.state_spec() == RunnerState::Ready,
    {
        TokioLib { state: RunnerState::Ready }
    }

    /// A runner, given whether its environment could be set up.
    pub fn construct(environment_ready: bool) -> (r: Result<Self, RunnerError>)
        ensures
            environment_ready <==> r is Ok,
            r matches Ok(runner) ==> runner.state_spec() == RunnerState::Ready,
            r matches Err(e) ==> e == RunnerError::EnvironmentInitError,
    {
        if environment_ready {
            Ok(TokioLib::new())
        } else {
            Err(RunnerError::EnvironmentInitError)
        }
    }

    pub fn state(&self) -> (r: RunnerState)
        ensures
            r == self.state_spec(),
    {
        match self.state {
            RunnerState::Ready => RunnerState::Ready,
            RunnerState::Running => RunnerState::Running,
            RunnerState::ShutDown => RunnerState::ShutDown,
        }
    }

    /// Submits `task`: a ready runner starts it and is then running.
    pub fn start<T>(&mut self, task: Task<T>) -> (r: Result<TaskExecution<T>, RunnerError>)
        ensures
            old(self).state_spec() == RunnerState::Ready <==> r is Ok,
            r matches Ok(exec) ==> {
                &&& final(self).state_spec() == RunnerState::Running
                &&& exec.wf()
                &&& exec.steps() == task.steps@
                &&& exec.value() == task.value
                &&& exec.done() == 0
                &&& exec.log() == Seq::<String>::empty()
            },
            old(self).state_spec() == RunnerState::Running ==> r == Err::<TaskExecution<T>, _>(
                RunnerError::Busy,
            ) && final(self).state_spec() == RunnerState::Running,
            old(self).state_spec() == RunnerState::ShutDown ==> r == Err::<TaskExecution<T>, _>(
                RunnerError::Stopped,
            ) && final(self).state_spec() == RunnerState::ShutDown,
    {
        match self.state {
            RunnerState::Ready => {
                self.state = RunnerState::Running;
                Ok(TaskExecution::new(task))
            },
            RunnerState::Running => Err(RunnerError::Busy),
            RunnerState::ShutDown => Err(RunnerError::Stopped),
        }
    }

    /// Ends the run in flight: hands back the task's value if it reached its
    /// terminal step, and `TaskPanic` if it stopped before. Either way the
    /// runner is ready again.
    pub fn finish<T>(&mut self, exec: TaskExecution<T>) -> (r: Result<T, RunnerError>)
        requires
            old(self).state_spec() == RunnerState::Running,
            exec.wf(),
        ensures
            final(self).state_spec() == RunnerState::Ready,
            r == finish_outcome(exec),
    {
        self.state = RunnerState::Ready;
        if exec.is_finished() {
            Ok(exec.into_value())
        } else {
            Err(RunnerError::TaskPanic)
        }
    }

    /// Tears the runner down. Only a runner with no task in flight can go.
    pub fn shut_down(&mut self) -> (r: Result<(), RunnerError>)
        ensures
            r == shut_down_outcome(old(self).state_spec()),
            final(self).state_spec() == after_shut_down(old(self).state_spec()),
    {
        match self.state {
            RunnerState::Ready => {
                self.state = RunnerState::ShutDown;
                Ok(())
            },
            RunnerState::Running => Err(RunnerError::Busy),
            RunnerState::ShutDown => Err(RunnerError::Stopped),
        }
    }
}

/// The task of the lesson: wait a second, process one name, wait a second,
/// process another.
pub fn processing_task() -> (r: Task<()>)
    ensures
        r.steps@.len() == 4,
        r.steps@[0] == Step::Wait(1000),
        r.steps@[1] matches Step::Emit(line) && line@ == "Processed: Khan"@,
        r.steps@[2] == Step::Wait(1000),
        r.steps@[3] matches Step::Emit(line) && line@ == "Processed: Khalily"@,
{
    let mut steps: Vec<Step> = Vec::new();
    steps.push(Step::Wait(1000));
    steps.push(Step::Emit(String::from_str("Processed: Khan")));
    steps.push(Step::Wait(1000));
    steps.push(Step::Emit(String::from_str("Processed: Khalily")));
    Task { steps, value: () }
}

/// At every point of a run, the lines output so far are those of the steps
/// done so far, in the order in which they are written.
pub proof fn law_output_follows_steps<T>(exec: TaskExecution<T>)
    requires
        exec.wf(),
    ensures
        exec.log() == emitted_lines(exec.steps().take(exec.done() as int)),
        exec.slept() >= total_wait(exec.steps().take(exec.done() as int)),
{
}

/// A completed run has output exactly the lines of its steps, in written order.
pub proof fn law_output_in_written_order<T>(exec: TaskExecution<T>)
    requires
        exec.wf(),
        exec.is_complete(),
    ensures
        exec.log() == emitted_lines(exec.steps()),
{
    assert(exec.steps().take(exec.done() as int) =~= exec.steps());
}

/// A completed run has been parked for at least the total time of its
/// suspension points.
pub proof fn law_completion_after_all_waits<T>(exec: TaskExecution<T>)
    requires
        exec.wf(),
        exec.is_complete(),
    ensures
        exec.slept() >= total_wait(exec.steps()),
{
    assert(exec.steps().take(exec.done() as int) =~= exec.steps());
}

/// A completed run of "output `before`, wait `ms`, output `after`" has been
/// parked for at least `ms` and has output `before`, then `after`.
pub proof fn law_one_suspension<T>(exec: TaskExecution<T>, before: String, ms: u64, after: String)
    requires
        exec.wf(),
        exec.is_complete(),
        exec.steps() == seq![Step::Emit(before), Step::Wait(ms), Step::Emit(after)],
    ensures
        exec.slept() >= ms,
        exec.log() == seq![before, after],
{
    law_output_in_written_order(exec);
    law_completion_after_all_waits(exec);
    let s = exec.steps();
    assert(s.drop_last() =~= seq![Step::Emit(before), Step::Wait(ms)]);
    assert(s.drop_last().drop_last() =~= seq![Step::Emit(before)]);
    assert(s.drop_last().drop_last().drop_last() =~= Seq::<Step>::empty());
    reveal_with_fuel(emitted_lines, 4);
    reveal_with_fuel(total_wait, 4);
    assert(emitted_lines(s) =~= seq![before, after]);
}

/// Ending a run of a task with no steps hands back the task's value unchanged.
pub proof fn law_identity_round_trip<T>(exec: TaskExecution<T>, value: T)
    requires
        exec.wf(),
        exec.steps().len() == 0,
        exec.value() == value,
    ensures
        finish_outcome(exec) == Ok::<T, RunnerError>(value),
{
}

/// A completed run ends with the value of the task's final step.
pub proof fn law_result_is_final_value<T>(exec: TaskExecution<T>)
    requires
        exec.wf(),
        exec.is_complete(),
    ensures
        finish_outcome(exec) == Ok::<T, RunnerError>(exec.value()),
{
}

/// A runner that is constructed and torn down with no task ever run goes
/// down cleanly.
pub proof fn law_construct_then_destroy(runner: TokioLib)
    requires
        runner.state_spec() == RunnerState::Ready,
    ensures
        shut_down_outcome(runner.state_spec()) == Ok::<(), RunnerError>(()),
        after_shut_down(runner.state_spec()) == RunnerState::ShutDown,
{
}

proof fn lemma_prefix_extend(steps: Seq<Step>, n: int)
    requires
        0 <= n < steps.len(),
    ensures
        emitted_lines(steps.take(n + 1)) == match steps[n] {
            Step::Emit(line) => emitted_lines(steps.take(n)).push(line),
            Step::Wait(_) => emitted_lines(steps.take(n)),
        },
        total_wait(steps.take(n + 1)) == match steps[n] {
            Step::Emit(_) => total_wait(steps.take(n)),
            Step::Wait(ms) => (total_wait(steps.take(n)) + ms) as nat,
        },
{
    assert(steps.take(n + 1).drop_last() =~= steps.take(n));
    assert(steps.take(n + 1).last() == steps[n]);
}

} // verus!
