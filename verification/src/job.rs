//! A job system with two pools: one for computation, one for blocking I/O.
//!
//! Tasks of the I/O pool have a priority: urgent ones go first, low ones wait until there is no
//! other traffic. A task is any value here; the threads that run the tasks belong to the caller.

use vstd::prelude::*;
#[allow(unused_imports)]
use queue::{ComputeQueues, Entry, IoQueues, LOW, NORMAL, URGENT};

pub mod queue;
pub mod sync;
pub mod worker;

pub use sync::{Event, WaitGroup};

verus! {

/// The number of threads in the I/O pool.
pub const IO_THREADS: usize = 4;

/// The number of compute workers where neither the caller nor the system says how many.
pub const DEFAULT_WORKERS: i32 = 4;

/// How far the one I/O pool is.
#[derive(Clone, Copy, Debug, PartialEq, Eq, Structural)]
pub enum IoPhase {
    /// No one asked for it.
    Down,
    /// Its threads are being started.
    Starting,
    /// I/O can be scheduled.
    Ready,
}

/// Which parts of the job system are up.
#[derive(Debug)]
pub struct JobSystem {
    initialized: bool,
    io: IoPhase,
}

/// The state of a [`JobSystem`].
pub struct JobState {
    /// Whether tasks can be scheduled.
    pub initialized: bool,
    /// How far the I/O pool is.
    pub io: IoPhase,
}

impl View for JobSystem {
    type V = JobState;

    closed spec fn view(&self) -> JobState {
        JobState { initialized: self.initialized, io: self.io }
    }
}

impl JobState {
    /// Whether I/O can be scheduled.
    pub open spec fn io_ready(self) -> bool {
        self.io is Ready
    }

    /// The state once the system was initialised: an I/O pool that was not asked for before is
    /// being started.
    pub open spec fn after_init(self) -> JobState {
        JobState {
            initialized: true,
            io: if !self.initialized && self.io is Down {
                IoPhase::Starting
            } else {
                self.io
            },
        }
    }

    /// The state once the threads of the I/O pool run.
    pub open spec fn after_io_started(self) -> JobState {
        JobState {
            initialized: self.initialized,
            io: if self.io is Starting {
                IoPhase::Ready
            } else {
                self.io
            },
        }
    }

    /// The state once the I/O pool was asked for alone.
    pub open spec fn after_init_io(self) -> JobState {
        JobState {
            initialized: self.initialized,
            io: if self.io is Down {
                IoPhase::Ready
            } else {
                self.io
            },
        }
    }

    /// How many I/O threads initialising the system starts.
    pub open spec fn init_io_threads(self) -> usize {
        if !self.initialized && self.io is Down {
            IO_THREADS
        } else {
            0
        }
    }
}

/// The threads that have to be started.
#[derive(Clone, Copy, Debug, PartialEq, Eq, Structural)]
pub struct Startup {
    /// For computation.
    pub workers: i32,
    /// For I/O; none where the pool is up already.
    pub io_threads: usize,
}

/// How many compute workers there are if `requested` were asked for, zero for as many as the
/// system runs at a time: at least one.
pub open spec fn worker_count(requested: u32, parallelism: Option<usize>) -> i32 {
    let n: i32 = if requested > 0 {
        requested as i32
    } else {
        match parallelism {
            Some(p) => p as i32,
            None => DEFAULT_WORKERS,
        }
    };
    if n < 1 {
        1
    } else {
        n
    }
}

impl JobSystem {
    /// Nothing is up.
    pub fn new() -> (r: JobSystem)
        ensures
            r@ == (JobState { initialized: false, io: IoPhase::Down }),
    {
        JobSystem { initialized: false, io: IoPhase::Down }
    }

    /// Decides which threads to start. Only the first call gives any; once they run,
    /// [`JobSystem::io_started`] follows. `parallelism` is how many threads the system runs at a
    /// time, where that is known.
    pub fn init(&mut self, num_workers: u32, parallelism: Option<usize>) -> (r: Option<Startup>)
        ensures
            old(self)@.initialized ==> r is None && final(self)@ == old(self)@,
            !old(self)@.initialized ==> {
                &&& r == Some(
                    Startup {
                        workers: worker_count(num_workers, parallelism),
                        io_threads: old(self)@.init_io_threads(),
                    },
                )
                &&& final(self)@ == old(self)@.after_init()
            },
    {
        if self.initialized {
            return None;
        }
        self.initialized = true;
        let n: i32 = if num_workers > 0 {
            num_workers as i32
        } else {
            match parallelism {
                Some(p) => p as i32,
                None => DEFAULT_WORKERS,
            }
        };
        let workers: i32 = if n < 1 {
            1
        } else {
            n
        };
        let io_threads: usize = match self.io {
            IoPhase::Down => {
                self.io = IoPhase::Starting;
                IO_THREADS
            },
            _ => 0,
        };
        Some(Startup { workers, io_threads })
    }

    /// The I/O threads that [`JobSystem::init`] asked for are running.
    pub fn io_started(&mut self)
        ensures
            final(self)@ == old(self)@.after_io_started(),
    {
        if let IoPhase::Starting = self.io {
            self.io = IoPhase::Ready;
        }
    }

    /// Decides how many I/O threads to start, and no others. Once there is an I/O pool, this has
    /// no effect.
    pub fn init_io(&mut self) -> (r: Option<usize>)
        ensures
            r == if old(self)@.io is Down {
                Some(IO_THREADS)
            } else {
                None::<usize>
            },
            final(self)@ == old(self)@.after_init_io(),
    {
        match self.io {
            IoPhase::Down => {
                self.io = IoPhase::Ready;
                Some(IO_THREADS)
            },
            _ => None,
        }
    }

    /// Whether tasks can be scheduled.
    pub fn is_initialized(&self) -> (r: bool)
        ensures
            r == self@.initialized,
    {
        self.initialized
    }

    /// Whether I/O can be scheduled.
    pub fn is_io_ready(&self) -> (r: bool)
        ensures
            r == self@.io_ready(),
    {
        match self.io {
            IoPhase::Ready => true,
            _ => false,
        }
    }

    /// Hands a task to the compute pool, where any worker may run it. The workers are to be woken.
    pub fn schedule<T>(&self, queues: &mut ComputeQueues<T>, task: T)
        requires
            self@.initialized,
            0 < old(queues)@.len(),
        ensures
            final(queues)@ == queue::pushed(old(queues)@, 0, Entry { task, pinned: false }),
    {
        queues.push(task, 0, false);
    }

    /// Hands a task to the compute pool, where all tasks handed over in this way run on the same
    /// thread. The workers are to be woken.
    pub fn schedule_same_thread<T>(&self, queues: &mut ComputeQueues<T>, task: T)
        requires
            self@.initialized,
            0 < old(queues)@.len(),
        ensures
            final(queues)@ == queue::pushed(old(queues)@, 0, Entry { task, pinned: true }),
    {
        queues.push(task, 0, true);
    }

    /// Hands a task to the I/O pool whose end the caller waits for. A thread of the pool is to be
    /// woken.
    pub fn blocking_call<T>(&self, queues: &mut IoQueues<T>, task: T)
        requires
            self@.initialized,
        ensures
            final(queues)@ == queue::pushed(old(queues)@, NORMAL as int, task),
    {
        queues.push(task, NORMAL);
    }

    /// Hands a task to the I/O pool. A thread of the pool is to be woken.
    pub fn schedule_io<T>(&self, queues: &mut IoQueues<T>, task: T)
        requires
            self@.io_ready(),
        ensures
            final(queues)@ == queue::pushed(old(queues)@, NORMAL as int, task),
    {
        queues.push(task, NORMAL);
    }

    /// Hands a task to the I/O pool, ahead of the usual traffic. A thread of the pool is to be
    /// woken.
    pub fn schedule_io_urgent<T>(&self, queues: &mut IoQueues<T>, task: T)
        requires
            self@.io_ready(),
        ensures
            final(queues)@ == queue::pushed(old(queues)@, URGENT as int, task),
    {
        queues.push(task, URGENT);
    }

    /// Hands a task to the I/O pool, to be run while there is no other traffic. A thread of the
    /// pool is to be woken.
    pub fn schedule_io_low<T>(&self, queues: &mut IoQueues<T>, task: T)
        requires
            self@.io_ready(),
        ensures
            final(queues)@ == queue::pushed(old(queues)@, LOW as int, task),
    {
        queues.push(task, LOW);
    }
}

/// The system is initialised once: whatever came before and whatever comes between, no later
/// call has any effect.
pub proof fn law_init_once(state: JobState)
    ensures
        state.after_init().initialized,
        state.after_init().after_init() == state.after_init(),
        state.after_init().after_init_io().initialized,
{
}

/// Asking for the I/O pool again has no effect, also where it came up with the whole system, and
/// asking for it alone does not bring up the compute pool.
pub proof fn law_init_io_idempotent(state: JobState)
    ensures
        !(state.io is Starting) ==> state.after_init_io().io_ready(),
        state.after_init_io().after_init_io() == state.after_init_io(),
        !state.initialized ==> state.after_init().after_init_io() == state.after_init(),
        !state.initialized && state.io is Down
            ==> state.after_init().after_io_started().io_ready(),
        state.after_init_io().initialized == state.initialized,
{
}

/// What can be asked of the system as a whole.
pub enum Operation {
    /// [`JobSystem::init`].
    Init,
    /// [`JobSystem::io_started`].
    IoStarted,
    /// [`JobSystem::init_io`].
    InitIo,
}

impl Operation {
    /// The state after this was asked.
    pub open spec fn after(self, state: JobState) -> JobState {
        match self {
            Operation::Init => state.after_init(),
            Operation::IoStarted => state.after_io_started(),
            Operation::InitIo => state.after_init_io(),
        }
    }

    /// How many I/O threads are started for it.
    pub open spec fn io_threads(self, state: JobState) -> int {
        match self {
            Operation::Init => state.init_io_threads() as int,
            Operation::IoStarted => 0,
            Operation::InitIo => if state.io is Down {
                IO_THREADS as int
            } else {
                0
            },
        }
    }
}

/// How many I/O threads are started in all for `operations`, one after the other.
pub open spec fn total_io_threads(state: JobState, operations: Seq<Operation>) -> int
    decreases operations.len(),
{
    if operations.len() == 0 {
        0
    } else {
        operations[0].io_threads(state) + total_io_threads(
            operations[0].after(state),
            operations.drop_first(),
        )
    }
}

/// Whether any of `operations` asks for the I/O pool.
pub open spec fn asks_for_io(operations: Seq<Operation>) -> bool {
    exists|i: int| 0 <= i < operations.len() && !(#[trigger] operations[i] is IoStarted)
}

proof fn lemma_io_threads(state: JobState, operations: Seq<Operation>)
    requires
        state.initialized ==> !(state.io is Down),
    ensures
        total_io_threads(state, operations) == if state.io is Down && asks_for_io(operations) {
            IO_THREADS as int
        } else {
            0
        },
    decreases operations.len(),
{
    if operations.len() > 0 {
        let rest = operations.drop_first();
        lemma_io_threads(operations[0].after(state), rest);
        if asks_for_io(rest) {
            let i = choose|i: int| 0 <= i < rest.len() && !(#[trigger] rest[i] is IoStarted);
            assert(!(operations[i + 1] is IoStarted));
        }
        if asks_for_io(operations) && operations[0] is IoStarted {
            let i = choose|i: int|
                0 <= i < operations.len() && !(#[trigger] operations[i] is IoStarted);
            assert(!(rest[i - 1] is IoStarted));
        }
    }
}

/// There is one I/O pool of a fixed size: whatever is asked, in whatever order and however often,
/// its threads are started once if anyone asks for them, and no others are.
pub proof fn law_one_io_pool(operations: Seq<Operation>)
    ensures
        total_io_threads(JobState { initialized: false, io: IoPhase::Down }, operations)
            == if asks_for_io(operations) {
            IO_THREADS as int
        } else {
            0
        },
{
    lemma_io_threads(JobState { initialized: false, io: IoPhase::Down }, operations);
}

/// There is always a compute worker. A request for any number of workers that the scheduler can
/// count is met as it is; one for more than that gets a single worker.
pub proof fn law_worker_count(requested: u32, parallelism: Option<usize>)
    ensures
        worker_count(requested, parallelism) >= 1,
        0 < requested <= i32::MAX ==> worker_count(requested, parallelism) == requested,
        requested > i32::MAX ==> worker_count(requested, parallelism) == 1,
        requested == 0 && parallelism is None ==> worker_count(requested, parallelism)
            == DEFAULT_WORKERS,
        requested == 0 ==> (parallelism matches Some(p) ==> 0 < p <= i32::MAX ==> worker_count(
            requested,
            parallelism,
        ) == p),
{
    assert(requested > 0x7fff_ffff ==> (requested as i32) < 0) by (bit_vector);
}

/// The phases of the I/O pool: initialising the system brings it from down to starting, and asking
/// for it alone from down to ready; once its threads run, it is ready, and it never goes back.
/// Only initialising the system makes it initialised. I/O can be scheduled while it is ready.
pub proof fn law_phases(state: JobState)
    ensures
        state.io_ready() <==> state.io is Ready,
        state.after_init().initialized,
        state.io is Down && !state.initialized ==> state.after_init().io is Starting,
        !(state.io is Down) ==> state.after_init().io == state.io,
        state.after_io_started().initialized == state.initialized,
        state.io is Starting ==> state.after_io_started().io is Ready,
        !(state.io is Starting) ==> state.after_io_started().io == state.io,
        state.after_init_io().initialized == state.initialized,
        state.io is Down ==> state.after_init_io().io is Ready,
        !(state.io is Down) ==> state.after_init_io().io == state.io,
        !state.initialized ==> state.init_io_threads() == if state.io is Down {
            4
        } else {
            0int
        },
{
}

/// Where no number of workers is asked for, there are as many as the system runs at a time, as far
/// as the scheduler can count them, and one at least.
pub proof fn law_workers_for_system(parallelism: usize)
    ensures
        (parallelism as i32) >= 1 ==> worker_count(0, Some(parallelism)) == parallelism as i32,
        (parallelism as i32) < 1 ==> worker_count(0, Some(parallelism)) == 1,
        worker_count(0, None) == 4,
{
}

} // verus!
