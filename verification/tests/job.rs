use fibre_std::job::queue::{ComputeQueues, IoQueues, LOW, NORMAL, URGENT};
use fibre_std::job::sync::{timeout_nanos, CallSlot, TryWait};
use fibre_std::job::worker::{Step, Worker};
use fibre_std::job::{Event, JobSystem, Startup, WaitGroup};
use std::cell::{Cell, RefCell};
use std::rc::Rc;

type Task = Box<dyn FnOnce()>;

fn started() -> JobSystem {
    let mut jobs = JobSystem::new();
    assert!(jobs.init(2, None).is_some());
    jobs.io_started();
    jobs
}

fn run_compute(queues: &mut ComputeQueues<Task>) {
    for worker in 0..queues.workers() {
        while let Some(task) = queues.pop(worker) {
            task();
        }
    }
}

fn run_io(queues: &mut IoQueues<Task>) {
    while let Some(task) = queues.pop() {
        task();
    }
}

#[test]
fn schedule_works() {
    let jobs = started();
    let mut queues: ComputeQueues<Task> = ComputeQueues::new(2);
    let f = Rc::new(Cell::new(false));
    let f2 = f.clone();
    jobs.schedule(&mut queues, Box::new(move || f2.set(true)));
    run_compute(&mut queues);
    assert!(f.get());
}

#[test]
fn blocking_call_works() {
    let jobs = started();
    let mut queues: IoQueues<Task> = IoQueues::new();
    let slot: Rc<RefCell<CallSlot<i32>>> = Rc::new(RefCell::new(CallSlot::new()));
    let slot2 = slot.clone();
    jobs.blocking_call(&mut queues, Box::new(move || slot2.borrow_mut().complete(42)));
    assert_eq!(slot.borrow_mut().wait(), None);
    run_io(&mut queues);
    assert_eq!(slot.borrow_mut().wait(), Some(42));
    assert_eq!(slot.borrow_mut().wait(), None);
}

#[test]
fn waitgroup_works() {
    let jobs = started();
    let mut queues: ComputeQueues<Task> = ComputeQueues::new(2);
    let wg = Rc::new(RefCell::new(WaitGroup::new(1)));
    let f = Rc::new(Cell::new(false));
    let f2 = f.clone();
    let w = wg.clone();
    jobs.schedule(
        &mut queues,
        Box::new(move || {
            f2.set(true);
            w.borrow_mut().done();
        }),
    );
    assert!(!wg.borrow().wait());
    run_compute(&mut queues);
    assert!(wg.borrow().wait());
    assert!(f.get());
}

#[test]
fn event_works() {
    let jobs = started();
    let mut queues: ComputeQueues<Task> = ComputeQueues::new(2);
    let ev = Rc::new(RefCell::new(Event::new(false)));
    let ev2 = ev.clone();
    let f = Rc::new(Cell::new(false));
    let f2 = f.clone();
    jobs.schedule(
        &mut queues,
        Box::new(move || {
            f2.set(true);
            ev2.borrow_mut().signal();
        }),
    );
    assert!(!ev.borrow_mut().wait());
    run_compute(&mut queues);
    assert!(ev.borrow_mut().wait());
    assert!(f.get());
}

#[test]
fn init_starts_everything_once() {
    let mut jobs = JobSystem::new();
    assert!(!jobs.is_initialized());
    assert!(!jobs.is_io_ready());
    assert_eq!(jobs.init(3, Some(8)), Some(Startup { workers: 3, io_threads: 4 }));
    assert!(jobs.is_initialized());
    assert!(!jobs.is_io_ready());
    jobs.io_started();
    assert!(jobs.is_io_ready());
    assert_eq!(jobs.init(3, Some(8)), None);
    assert_eq!(jobs.init_io(), None);
}

#[test]
fn init_io_starts_only_the_io_pool() {
    let mut jobs = JobSystem::new();
    assert_eq!(jobs.init_io(), Some(4));
    assert_eq!(jobs.init_io(), None);
    assert!(jobs.is_io_ready());
    assert!(!jobs.is_initialized());
    assert_eq!(jobs.init(1, None), Some(Startup { workers: 1, io_threads: 0 }));
    jobs.io_started();
    assert!(jobs.is_io_ready());
    assert_eq!(jobs.init_io(), None);
}

#[test]
fn io_pool_is_not_started_twice_while_it_starts() {
    let mut jobs = JobSystem::new();
    assert_eq!(jobs.init(1, None), Some(Startup { workers: 1, io_threads: 4 }));
    assert_eq!(jobs.init_io(), None);
    assert!(!jobs.is_io_ready());
    jobs.io_started();
    assert!(jobs.is_io_ready());
}

#[test]
fn io_start_that_no_one_asked_for_is_ignored() {
    let mut jobs = JobSystem::new();
    jobs.io_started();
    assert!(!jobs.is_io_ready());
    assert_eq!(jobs.init_io(), Some(4));
}

#[test]
fn worker_count_follows_request_then_system_then_default() {
    let count = |n: u32, p: Option<usize>| JobSystem::new().init(n, p).unwrap().workers;
    assert_eq!(count(2, Some(16)), 2);
    assert_eq!(count(0, Some(16)), 16);
    assert_eq!(count(0, None), 4);
    assert_eq!(count(i32::MAX as u32, None), i32::MAX);
    assert_eq!(count(i32::MAX as u32 + 1, None), 1);
    assert_eq!(count(u32::MAX, None), 1);
}

#[test]
fn io_is_taken_by_priority_then_by_age() {
    let mut jobs = JobSystem::new();
    jobs.init_io();
    let mut queues: IoQueues<u32> = IoQueues::new();
    jobs.schedule_io_low(&mut queues, 30);
    jobs.schedule_io(&mut queues, 20);
    jobs.schedule_io_urgent(&mut queues, 10);
    jobs.schedule_io_low(&mut queues, 31);
    jobs.schedule_io(&mut queues, 21);
    jobs.schedule_io_urgent(&mut queues, 11);
    assert_eq!(queues.pop(), Some(10));
    assert_eq!(queues.pop(), Some(11));
    assert_eq!(queues.pop(), Some(20));
    jobs.schedule_io_urgent(&mut queues, 12);
    assert_eq!(queues.pop(), Some(12));
    assert_eq!(queues.pop(), Some(21));
    assert_eq!(queues.pop(), Some(30));
    assert_eq!(queues.pop(), Some(31));
    assert_eq!(queues.pop(), None);
}

#[test]
fn priorities_are_ordered() {
    assert_eq!((URGENT, NORMAL, LOW), (0, 1, 2));
    let mut queues: IoQueues<char> = IoQueues::new();
    queues.push('l', LOW);
    queues.push('n', NORMAL);
    queues.push('u', URGENT);
    assert_eq!(queues.pop(), Some('u'));
    assert_eq!(queues.pop(), Some('n'));
    assert_eq!(queues.pop(), Some('l'));
}

#[test]
fn compute_tasks_are_stolen_by_idle_workers() {
    let jobs = started();
    let mut queues: ComputeQueues<u32> = ComputeQueues::new(3);
    assert_eq!(queues.workers(), 3);
    for task in 1..5 {
        jobs.schedule(&mut queues, task);
    }
    assert_eq!(queues.pop(2), Some(1));
    assert_eq!(queues.pop(0), Some(2));
    assert_eq!(queues.pop(1), Some(3));
    assert_eq!(queues.pop(0), Some(4));
    assert_eq!(queues.pop(0), None);
    assert_eq!(queues.pop(1), None);
}

#[test]
fn workers_take_their_own_tasks_first() {
    let mut queues: ComputeQueues<u32> = ComputeQueues::new(3);
    queues.push(10, 0, false);
    queues.push(20, 1, false);
    queues.push(30, 2, false);
    assert_eq!(queues.pop(1), Some(20));
    assert_eq!(queues.pop(1), Some(10));
    assert_eq!(queues.pop(1), Some(30));
    assert_eq!(queues.pop(1), None);
}

#[test]
fn same_thread_tasks_are_not_stolen() {
    let jobs = started();
    let mut queues: ComputeQueues<u32> = ComputeQueues::new(2);
    jobs.schedule_same_thread(&mut queues, 1);
    jobs.schedule(&mut queues, 2);
    jobs.schedule_same_thread(&mut queues, 3);
    assert_eq!(queues.pop(1), Some(2));
    assert_eq!(queues.pop(1), None);
    assert_eq!(queues.pop(0), Some(1));
    assert_eq!(queues.pop(0), Some(3));
    assert_eq!(queues.pop(0), None);
}

#[test]
fn there_is_a_compute_worker_in_any_case() {
    assert_eq!(ComputeQueues::<u32>::new(0).workers(), 1);
    assert_eq!(ComputeQueues::<u32>::new(-5).workers(), 1);
}

#[test]
fn worker_runs_sleeps_and_exits() {
    let mut queues: IoQueues<u32> = IoQueues::new();
    let mut worker = Worker::new();
    queues.push(1, NORMAL);
    assert!(matches!(worker.next(false, &mut queues), Step::Run(1)));
    assert!(matches!(worker.next(false, &mut queues), Step::Sleep));
    queues.push(2, LOW);
    assert!(matches!(worker.next(true, &mut queues), Step::Run(2)));
    queues.push(3, URGENT);
    assert!(matches!(worker.next(true, &mut queues), Step::Exit));
    assert_eq!(queues.pop(), Some(3));
}

#[test]
fn worker_survives_a_panic() {
    let mut queues: IoQueues<u32> = IoQueues::new();
    let mut worker = Worker::new();
    queues.push(1, NORMAL);
    queues.push(2, NORMAL);
    assert!(matches!(worker.next(false, &mut queues), Step::Run(1)));
    assert_eq!(
        worker.ran(true),
        Some("[std::job] io worker task panicked (task dropped)")
    );
    assert!(matches!(worker.next(false, &mut queues), Step::Run(2)));
    assert_eq!(worker.ran(false), None);
}

#[test]
fn group_is_released_by_the_last_task() {
    let mut wg = WaitGroup::new(1);
    wg.add(2);
    assert_eq!(wg.count(), 3);
    assert!(!wg.done());
    assert!(!wg.done());
    assert!(!wg.wait());
    assert!(wg.done());
    assert!(wg.wait());
    assert!(wg.done());
}

#[test]
fn automatic_event_lets_one_thread_go_on() {
    let mut ev = Event::new(false);
    ev.signal();
    ev.signal();
    assert!(ev.is_signalled());
    assert!(ev.wait());
    assert!(!ev.is_signalled());
    assert!(!ev.wait());
}

#[test]
fn manual_event_lets_all_threads_go_on() {
    let mut ev = Event::new_with_state(true, true);
    assert!(ev.wait());
    assert!(ev.wait());
    ev.clear();
    assert!(!ev.wait());
}

#[test]
fn try_wait_leaves_the_event_alone() {
    let mut ev = Event::new(false);
    assert!(matches!(ev.try_wait::<u64>(None), TryWait::Done(false)));
    assert!(matches!(ev.try_wait(Some(250u64)), TryWait::Sleep(250)));
    ev.signal();
    assert!(matches!(ev.try_wait(Some(250u64)), TryWait::Done(true)));
    assert!(matches!(ev.try_wait::<u64>(None), TryWait::Done(true)));
    assert!(ev.is_signalled());
}

#[test]
fn time_limits_are_in_nanoseconds() {
    assert_eq!(timeout_nanos(None), 0);
    assert_eq!(timeout_nanos(Some(1_500_000_000)), 1_500_000_000);
    assert_eq!(timeout_nanos(Some(i64::MAX as u128 + 1)), i64::MIN);
}
