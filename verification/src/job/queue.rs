//! Queues of tasks.

use std::collections::VecDeque;
use vstd::prelude::*;

verus! {

/// Ahead of all other traffic: what is needed at once.
pub const URGENT: usize = 0;

/// The usual traffic.
pub const NORMAL: usize = 1;

/// Only while there is no other traffic: what may be needed later.
pub const LOW: usize = 2;

/// The tasks of the I/O pool, in one queue for each priority.
pub struct IoQueues<T> {
    urgent: VecDeque<T>,
    normal: VecDeque<T>,
    low: VecDeque<T>,
}

impl<T> View for IoQueues<T> {
    type V = Seq<Seq<T>>;

    /// The queues by priority, each with its oldest task first.
    closed spec fn view(&self) -> Seq<Seq<T>> {
        seq![self.urgent@, self.normal@, self.low@]
    }
}

/// The queues once `task` was added with `priority`.
pub open spec fn pushed<T>(queues: Seq<Seq<T>>, priority: int, task: T) -> Seq<Seq<T>> {
    queues.update(priority, queues[priority].push(task))
}

/// The highest priority that has a task, or the lowest of all where none has.
pub open spec fn first_ready<T>(queues: Seq<Seq<T>>) -> int {
    if queues[0].len() > 0 {
        0
    } else if queues[1].len() > 0 {
        1
    } else {
        2
    }
}

/// Whether `after` and `task` are what taking from `before` gives: the oldest task of the highest
/// priority that has one, or nothing where all queues are empty.
pub open spec fn takes<T>(before: Seq<Seq<T>>, after: Seq<Seq<T>>, task: Option<T>) -> bool {
    let p = first_ready(before);
    if before[p].len() > 0 {
        &&& task == Some(before[p][0])
        &&& after == before.update(p, before[p].drop_first())
    } else {
        &&& task is None
        &&& after == before
    }
}

impl<T> IoQueues<T> {
    /// Three empty queues.
    pub fn new() -> (r: IoQueues<T>)
        ensures
            r@ == seq![Seq::<T>::empty(), Seq::<T>::empty(), Seq::<T>::empty()],
    {
        IoQueues { urgent: VecDeque::new(), normal: VecDeque::new(), low: VecDeque::new() }
    }

    /// Adds a task behind the others of its priority.
    pub fn push(&mut self, task: T, priority: usize)
        requires
            priority < 3,
        ensures
            final(self)@.len() == 3,
            final(self)@ == pushed(old(self)@, priority as int, task),
    {
        if priority == URGENT {
            self.urgent.push_back(task);
        } else if priority == NORMAL {
            self.normal.push_back(task);
        } else {
            self.low.push_back(task);
        }
    }

    /// Takes the oldest task of the highest priority that has one.
    pub fn pop(&mut self) -> (r: Option<T>)
        ensures
            final(self)@.len() == 3,
            takes(old(self)@, final(self)@, r),
    {
        if let Some(task) = self.urgent.pop_front() {
            assert(self@ =~= old(self)@.update(0, old(self)@[0].drop_first()));
            return Some(task);
        }
        if let Some(task) = self.normal.pop_front() {
            assert(self@ =~= old(self)@.update(1, old(self)@[1].drop_first()));
            return Some(task);
        }
        if let Some(task) = self.low.pop_front() {
            assert(self@ =~= old(self)@.update(2, old(self)@[2].drop_first()));
            return Some(task);
        }
        None
    }
}

/// The tasks in the order in which they will be taken, if none is added.
pub open spec fn in_order<T>(queues: Seq<Seq<T>>) -> Seq<T> {
    queues[0] + queues[1] + queues[2]
}

/// What is taken is always the first task in order, and the others stay as they are: so tasks of
/// a higher priority come first, those of one priority come in the order in which they were
/// added, and none is lost or comes twice.
pub proof fn law_taken_in_order<T>(before: Seq<Seq<T>>, after: Seq<Seq<T>>, task: Option<T>)
    requires
        before.len() == 3,
        takes(before, after, task),
    ensures
        after.len() == 3,
        match task {
            Some(t) => in_order(before) == seq![t] + in_order(after),
            None => in_order(before).len() == 0 && after == before,
        },
{
    if let Some(t) = task {
        let p = first_ready(before);
        assert(before[p] == seq![t] + after[p]);
        assert(in_order(before) =~= seq![t] + in_order(after));
    }
}

/// A task that is added comes after all tasks of its own and of higher priorities, and before
/// all tasks of lower ones.
pub proof fn law_added_in_order<T>(queues: Seq<Seq<T>>, task: T)
    requires
        queues.len() == 3,
    ensures
        in_order(pushed(queues, URGENT as int, task)) == queues[0] + seq![task] + queues[1]
            + queues[2],
        in_order(pushed(queues, NORMAL as int, task)) == queues[0] + queues[1] + seq![task]
            + queues[2],
        in_order(pushed(queues, LOW as int, task)) == queues[0] + queues[1] + queues[2]
            + seq![task],
{
    assert(in_order(pushed(queues, URGENT as int, task)) =~= queues[0] + seq![task] + queues[1]
        + queues[2]);
    assert(in_order(pushed(queues, NORMAL as int, task)) =~= queues[0] + queues[1] + seq![task]
        + queues[2]);
    assert(in_order(pushed(queues, LOW as int, task)) =~= queues[0] + queues[1] + queues[2]
        + seq![task]);
}

/// A task of the compute pool.
#[derive(Debug)]
pub struct Entry<T> {
    /// The task.
    pub task: T,
    /// Whether only the worker in whose queue it is may run it.
    pub pinned: bool,
}

/// The tasks of the compute pool, in one queue for each worker. A worker without tasks steals from
/// the others.
pub struct ComputeQueues<T> {
    queues: Vec<VecDeque<Entry<T>>>,
}

impl<T> View for ComputeQueues<T> {
    type V = Seq<Seq<Entry<T>>>;

    /// The queues by worker, each with its oldest task first.
    closed spec fn view(&self) -> Seq<Seq<Entry<T>>> {
        self.queues@.map_values(|q: VecDeque<Entry<T>>| q@)
    }
}

/// Whether every task in the first `n` places of a queue is pinned.
pub open spec fn all_pinned<T>(queue: Seq<Entry<T>>, n: int) -> bool {
    forall|i: int| 0 <= i < n ==> (#[trigger] queue[i]).pinned
}

/// Whether `worker` finds nothing to steal from the first `n` workers.
pub open spec fn none_stealable<T>(queues: Seq<Seq<Entry<T>>>, worker: int, n: int) -> bool {
    forall|v: int|
        0 <= v < n && v != worker ==> all_pinned(#[trigger] queues[v], queues[v].len() as int)
}

/// Whether place `i` of the queue of `victim` is where `worker` steals: the oldest task that is
/// not pinned, of the first other worker that has one.
pub open spec fn steals_at<T>(
    queues: Seq<Seq<Entry<T>>>,
    worker: int,
    victim: int,
    i: int,
) -> bool {
    &&& 0 <= victim < queues.len() && victim != worker
    &&& none_stealable(queues, worker, victim)
    &&& 0 <= i < queues[victim].len()
    &&& all_pinned(queues[victim], i)
    &&& !queues[victim][i].pinned
}

/// Whether `after` and `task` are what `worker` gets from `before`: its own oldest task; if it has
/// none, one that it steals; nothing if there is none to steal either.
pub open spec fn obtains<T>(
    before: Seq<Seq<Entry<T>>>,
    worker: int,
    after: Seq<Seq<Entry<T>>>,
    task: Option<T>,
) -> bool {
    if before[worker].len() > 0 {
        &&& task == Some(before[worker][0].task)
        &&& after == before.update(worker, before[worker].drop_first())
    } else {
        match task {
            Some(t) => exists|v: int, i: int|
                {
                    &&& #[trigger] steals_at(before, worker, v, i)
                    &&& t == before[v][i].task
                    &&& after == before.update(v, before[v].remove(i))
                },
            None => {
                &&& none_stealable(before, worker, before.len() as int)
                &&& after == before
            },
        }
    }
}

impl<T> ComputeQueues<T> {
    /// Empty queues for `workers` workers, and for one at least.
    pub fn new(workers: i32) -> (r: ComputeQueues<T>)
        ensures
            r@ == Seq::new(
                if workers < 1 {
                    1nat
                } else {
                    workers as nat
                },
                |i: int| Seq::<Entry<T>>::empty(),
            ),
    {
        let n: i32 = if workers < 1 {
            1
        } else {
            workers
        };
        let mut queues: Vec<VecDeque<Entry<T>>> = Vec::new();
        let mut i: i32 = 0;
        while i < n
            invariant
                0 <= i <= n,
                queues@.len() == i,
                forall|j: int| 0 <= j < i ==> (#[trigger] queues@[j])@ == Seq::<Entry<T>>::empty(),
            decreases n - i,
        {
            queues.push(VecDeque::new());
            i = i + 1;
        }
        let r = ComputeQueues { queues };
        assert(r@ == Seq::new(n as nat, |i: int| Seq::<Entry<T>>::empty()));
        r
    }

    /// The number of workers.
    pub fn workers(&self) -> (r: usize)
        ensures
            r == self@.len(),
    {
        self.queues.len()
    }

    /// Adds a task behind the others of a worker. One that is pinned cannot be stolen from it.
    pub fn push(&mut self, task: T, worker: usize, pinned: bool)
        requires
            worker < old(self)@.len(),
        ensures
            final(self)@ == pushed(old(self)@, worker as int, Entry { task, pinned }),
    {
        self.queues[worker].push_back(Entry { task, pinned });
        assert(self@ =~= pushed(old(self)@, worker as int, Entry { task, pinned }));
    }

    /// The place of the oldest task of `victim` that is not pinned, or the length of the queue.
    fn first_unpinned(&self, victim: usize) -> (r: usize)
        requires
            victim < self@.len(),
        ensures
            r <= self@[victim as int].len(),
            all_pinned(self@[victim as int], r as int),
            r < self@[victim as int].len() ==> !self@[victim as int][r as int].pinned,
    {
        let queue = &self.queues[victim];
        let len: usize = queue.len();
        let mut i: usize = 0;
        while i < len
            invariant
                i <= len,
                len == queue@.len(),
                all_pinned(queue@, i as int),
            ensures
                i <= len,
                all_pinned(queue@, i as int),
                i < len ==> !queue@[i as int].pinned,
            decreases len - i,
        {
            if !queue[i].pinned {
                break;
            }
            i = i + 1;
        }
        i
    }

    /// Takes the next task for a worker: its own oldest one, or else one that it steals from
    /// another.
    pub fn pop(&mut self, worker: usize) -> (r: Option<T>)
        requires
            worker < old(self)@.len(),
        ensures
            obtains(old(self)@, worker as int, final(self)@, r),
    {
        if let Some(entry) = self.queues[worker].pop_front() {
            assert(self@ =~= old(self)@.update(
                worker as int,
                old(self)@[worker as int].drop_first(),
            ));
            return Some(entry.task);
        }
        assert(self@ =~= old(self)@);
        let n: usize = self.queues.len();
        let mut victim: usize = 0;
        while victim < n
            invariant
                victim <= n,
                n == self@.len(),
                worker < n,
                self@ == old(self)@,
                old(self)@[worker as int].len() == 0,
                none_stealable(old(self)@, worker as int, victim as int),
            decreases n - victim,
        {
            if victim != worker {
                let i: usize = self.first_unpinned(victim);
                if i < self.queues[victim].len() {
                    assert(steals_at(old(self)@, worker as int, victim as int, i as int));
                    let stolen = self.queues[victim].remove(i);
                    assert(self@ =~= old(self)@.update(
                        victim as int,
                        old(self)@[victim as int].remove(i as int),
                    ));
                    return match stolen {
                        Some(entry) => Some(entry.task),
                        None => None,
                    };
                }
            }
            victim = victim + 1;
        }
        None
    }
}

/// The place from which a worker steals is determined: it is never a pinned task, and there is
/// one whenever any other worker has a task that is not pinned.
pub proof fn law_stealing<T>(queues: Seq<Seq<Entry<T>>>, worker: int)
    ensures
        forall|v: int, i: int, w: int, j: int| #[trigger]
            steals_at(queues, worker, v, i) && #[trigger] steals_at(queues, worker, w, j) ==> v == w
                && i == j,
        forall|v: int, i: int| #[trigger] steals_at(queues, worker, v, i) ==> !queues[v][i].pinned,
        !none_stealable(queues, worker, queues.len() as int) ==> exists|v: int, i: int|
            steals_at(queues, worker, v, i),
{
    assert forall|v: int, i: int, w: int, j: int| #[trigger]
        steals_at(queues, worker, v, i) && #[trigger] steals_at(queues, worker, w, j) implies v == w
        && i == j by {
        if v < w {
            assert(all_pinned(queues[v], queues[v].len() as int));
            assert(queues[v][i].pinned);
        }
        if w < v {
            assert(all_pinned(queues[w], queues[w].len() as int));
            assert(queues[w][j].pinned);
        }
        if v == w && i < j {
            assert(queues[v][i].pinned);
        }
        if v == w && j < i {
            assert(queues[v][j].pinned);
        }
    }
    if !none_stealable(queues, worker, queues.len() as int) {
        lemma_stealable(queues, worker, queues.len() as int);
    }
}

proof fn lemma_stealable<T>(queues: Seq<Seq<Entry<T>>>, worker: int, n: int)
    requires
        0 <= n <= queues.len(),
        !none_stealable(queues, worker, n),
    ensures
        exists|v: int, i: int| steals_at(queues, worker, v, i),
    decreases n,
{
    if n > 0 {
        if none_stealable(queues, worker, n - 1) {
            let q = queues[n - 1];
            assert(n - 1 != worker && !all_pinned(q, q.len() as int));
            let i = lemma_first_unpinned(q, q.len() as int);
            assert(steals_at(queues, worker, n - 1, i));
        } else {
            lemma_stealable(queues, worker, n - 1);
        }
    }
}

proof fn lemma_first_unpinned<T>(queue: Seq<Entry<T>>, n: int) -> (i: int)
    requires
        0 <= n <= queue.len(),
        !all_pinned(queue, n),
    ensures
        0 <= i < n,
        all_pinned(queue, i),
        !queue[i].pinned,
    decreases n,
{
    if n > 0 && all_pinned(queue, n - 1) {
        n - 1
    } else if n > 0 {
        lemma_first_unpinned(queue, n - 1)
    } else {
        0
    }
}

/// What a worker gets leaves exactly one queue, and all other tasks stay where they are and in
/// their order; pinned tasks of other workers stay in any case.
pub proof fn law_obtained<T>(
    before: Seq<Seq<Entry<T>>>,
    worker: int,
    after: Seq<Seq<Entry<T>>>,
    task: Option<T>,
)
    requires
        0 <= worker < before.len(),
        obtains(before, worker, after, task),
    ensures
        match task {
            Some(t) => exists|v: int, i: int|
                {
                    &&& 0 <= v < before.len() && 0 <= i < before[v].len()
                    &&& t == (#[trigger] before[v][i]).task
                    &&& v == worker || !before[v][i].pinned
                    &&& after == before.update(v, before[v].remove(i))
                },
            None => {
                &&& after == before
                &&& before[worker].len() == 0
                &&& forall|v: int, i: int|
                    0 <= v < before.len() && v != worker && 0 <= i < before[v].len() ==> (
                    #[trigger] before[v][i]).pinned
            },
        },
{
    if before[worker].len() > 0 {
        assert(before[worker].drop_first() =~= before[worker].remove(0));
        assert(before[worker][0].task == task->0);
    } else if let Some(t) = task {
        let (v, i) = choose|v: int, i: int|
            {
                &&& #[trigger] steals_at(before, worker, v, i)
                &&& t == before[v][i].task
                &&& after == before.update(v, before[v].remove(i))
            };
        assert(t == before[v][i].task);
    }
}

/// Adding a task to one of any number of queues puts exactly that task behind those that are in
/// this queue, and changes no other queue.
pub proof fn law_pushed<T>(queues: Seq<Seq<T>>, w: int, task: T)
    requires
        0 <= w < queues.len(),
    ensures
        pushed(queues, w, task).len() == queues.len(),
        pushed(queues, w, task)[w] == queues[w] + seq![task],
        forall|v: int|
            0 <= v < queues.len() && v != w ==> #[trigger] pushed(queues, w, task)[v] == queues[v],
{
    assert(pushed(queues, w, task)[w] =~= queues[w] + seq![task]);
}

/// Taking a task takes the first one of a queue before which there are only empty ones, and
/// changes no other queue; nothing is taken only if all queues are empty.
pub proof fn law_taken_from_one<T>(before: Seq<Seq<T>>, after: Seq<Seq<T>>, task: Option<T>)
    requires
        before.len() == 3,
        takes(before, after, task),
    ensures
        after.len() == 3,
        match task {
            Some(t) => exists|p: int|
                {
                    &&& 0 <= p < 3
                    &&& #[trigger] before[p] == seq![t] + after[p]
                    &&& forall|q: int| 0 <= q < p ==> (#[trigger] before[q]).len() == 0
                    &&& forall|q: int|
                        0 <= q < 3 && q != p ==> #[trigger] after[q] == before[q]
                },
            None => forall|q: int|
                0 <= q < 3 ==> (#[trigger] before[q]).len() == 0 && after[q].len() == 0,
        },
{
    if let Some(t) = task {
        let p = first_ready(before);
        assert(before[p] =~= seq![t] + after[p]);
    }
}

/// Whether `states` are what queues go through while `tasks` are taken, one after the other.
pub open spec fn taken_in_turn<T>(states: Seq<Seq<Seq<T>>>, tasks: Seq<Option<T>>) -> bool {
    &&& states.len() == tasks.len() + 1
    &&& forall|k: int|
        0 <= k < tasks.len() ==> takes(states[k], #[trigger] states[k + 1], tasks[k])
}

/// If no task is added, each take gives the next task: first all urgent ones, then all normal
/// ones, then all low ones, each in the order in which they were added, and then nothing.
pub proof fn law_all_are_taken<T>(states: Seq<Seq<Seq<T>>>, tasks: Seq<Option<T>>, k: int)
    requires
        taken_in_turn(states, tasks),
        states[0].len() == 3,
        0 <= k < tasks.len(),
    ensures
        tasks[k] == if k < (states[0][0] + states[0][1] + states[0][2]).len() {
            Some((states[0][0] + states[0][1] + states[0][2])[k])
        } else {
            None
        },
{
    lemma_left(states, tasks, k);
    assert(takes(states[k], states[k + 1], tasks[k]));
    law_taken_in_order(states[k], states[k + 1], tasks[k]);
    if let Some(t) = tasks[k] {
        assert(in_order(states[k])[0] == t);
    }
}

proof fn lemma_left<T>(states: Seq<Seq<Seq<T>>>, tasks: Seq<Option<T>>, k: int)
    requires
        taken_in_turn(states, tasks),
        states[0].len() == 3,
        0 <= k <= tasks.len(),
    ensures
        states[k].len() == 3,
        ({
            let all = in_order(states[0]);
            in_order(states[k]) == if k <= all.len() {
                all.skip(k)
            } else {
                seq![]
            }
        }),
    decreases k,
{
    let all = in_order(states[0]);
    if k > 0 {
        lemma_left(states, tasks, k - 1);
        assert(takes(states[k - 1], states[k - 1 + 1], tasks[k - 1]));
        law_taken_in_order(states[k - 1], states[k], tasks[k - 1]);
        let before = in_order(states[k - 1]);
        if let Some(t) = tasks[k - 1] {
            assert(in_order(states[k]) =~= before.skip(1));
            assert(all.skip(k - 1).skip(1) =~= all.skip(k));
        } else {
            assert(in_order(states[k]) =~= seq![]);
            if k - 1 <= all.len() {
                assert(all.skip(k - 1).len() == 0);
            }
        }
    } else {
        assert(all.skip(0) =~= all);
    }
}

/// A worker with tasks of its own gets the oldest of them, and nothing else changes.
pub proof fn law_own_first<T>(
    before: Seq<Seq<Entry<T>>>,
    worker: int,
    after: Seq<Seq<Entry<T>>>,
    task: Option<T>,
)
    requires
        0 <= worker < before.len(),
        obtains(before, worker, after, task),
        before[worker].len() > 0,
    ensures
        task == Some(before[worker][0].task),
        after.len() == before.len(),
        before[worker] == seq![before[worker][0]] + after[worker],
        forall|v: int|
            0 <= v < before.len() && v != worker ==> #[trigger] after[v] == before[v],
{
    assert(before[worker] =~= seq![before[worker][0]] + after[worker]);
}

/// A worker without tasks of its own gets, if any other worker has a task that is not pinned, the
/// oldest such task of the first worker that has one; only if there is none does it get nothing.
pub proof fn law_stolen<T>(
    before: Seq<Seq<Entry<T>>>,
    worker: int,
    after: Seq<Seq<Entry<T>>>,
    task: Option<T>,
)
    requires
        0 <= worker < before.len(),
        obtains(before, worker, after, task),
        before[worker].len() == 0,
    ensures
        match task {
            Some(t) => exists|v: int, i: int|
                {
                    &&& 0 <= v < before.len() && v != worker && 0 <= i < before[v].len()
                    &&& (#[trigger] before[v][i]).task == t && !before[v][i].pinned
                    &&& forall|j: int| 0 <= j < i ==> (#[trigger] before[v][j]).pinned
                    &&& forall|u: int, j: int|
                        0 <= u < v && u != worker && 0 <= j < before[u].len() ==> (
                        #[trigger] before[u][j]).pinned
                    &&& after.len() == before.len()
                    &&& after[v] == before[v].take(i) + before[v].skip(i + 1)
                    &&& forall|u: int|
                        0 <= u < before.len() && u != v ==> #[trigger] after[u] == before[u]
                },
            None => {
                &&& after == before
                &&& forall|u: int, j: int|
                    0 <= u < before.len() && u != worker && 0 <= j < before[u].len() ==> (
                    #[trigger] before[u][j]).pinned
            },
        },
{
    if let Some(t) = task {
        let (v, i) = choose|v: int, i: int|
            {
                &&& #[trigger] steals_at(before, worker, v, i)
                &&& t == before[v][i].task
                &&& after == before.update(v, before[v].remove(i))
            };
        assert(after[v] =~= before[v].take(i) + before[v].skip(i + 1));
        assert(before[v][i].task == t);
        assert forall|u: int, j: int|
            0 <= u < v && u != worker && 0 <= j < before[u].len() implies (
        #[trigger] before[u][j]).pinned by {
            assert(all_pinned(before[u], before[u].len() as int));
        }
    } else {
        assert forall|u: int, j: int|
            0 <= u < before.len() && u != worker && 0 <= j < before[u].len() implies (
        #[trigger] before[u][j]).pinned by {
            assert(all_pinned(before[u], before[u].len() as int));
        }
    }
}

/// Whenever any worker takes a task, each task in a queue either is the one taken, or stays in
/// that queue, no further from its front. If the queue is the worker's own, the task is taken or
/// comes one place nearer: so every task is taken after finitely many takes.
pub proof fn law_task_advances<T>(
    before: Seq<Seq<Entry<T>>>,
    worker: int,
    after: Seq<Seq<Entry<T>>>,
    task: Option<T>,
    w: int,
    k: int,
)
    requires
        0 <= worker < before.len(),
        obtains(before, worker, after, task),
        0 <= w < before.len(),
        0 <= k < before[w].len(),
    ensures
        after.len() == before.len(),
        ({
            ||| task == Some(before[w][k].task)
            ||| k < after[w].len() && after[w][k] == before[w][k] && w != worker
            ||| 0 < k <= after[w].len() && after[w][k - 1] == before[w][k]
        }),
        worker == w && k == 0 ==> task == Some(before[w][0].task),
{
    if before[worker].len() == 0 {
        law_stolen(before, worker, after, task);
        if let Some(t) = task {
            let (v, i) = choose|v: int, i: int|
                {
                    &&& #[trigger] steals_at(before, worker, v, i)
                    &&& t == before[v][i].task
                    &&& after == before.update(v, before[v].remove(i))
                };
            if v == w && k != i {
                assert(after[w] == before[w].remove(i));
            }
        }
    }
}

/// Whether `states` are what queues go through while `worker` takes `tasks`, one after the other.
pub open spec fn obtained_in_turn<T>(
    states: Seq<Seq<Seq<Entry<T>>>>,
    worker: int,
    tasks: Seq<Option<T>>,
) -> bool {
    &&& states.len() == tasks.len() + 1
    &&& forall|k: int|
        0 <= k < tasks.len() ==> obtains(states[k], worker, #[trigger] states[k + 1], tasks[k])
}

/// If no task is added and no other worker takes any, a worker gets all its tasks, oldest first:
/// of any number of queues, and pinned or not.
pub proof fn law_worker_takes_its_tasks<T>(
    states: Seq<Seq<Seq<Entry<T>>>>,
    worker: int,
    tasks: Seq<Option<T>>,
    k: int,
)
    requires
        obtained_in_turn(states, worker, tasks),
        0 <= worker < states[0].len(),
        0 <= k < tasks.len(),
        k < states[0][worker].len(),
    ensures
        tasks[k] == Some(states[0][worker][k].task),
{
    lemma_own_left(states, worker, tasks, k);
    assert(obtains(states[k], worker, states[k + 1], tasks[k]));
    law_own_first(states[k], worker, states[k + 1], tasks[k]);
}

proof fn lemma_own_left<T>(
    states: Seq<Seq<Seq<Entry<T>>>>,
    worker: int,
    tasks: Seq<Option<T>>,
    k: int,
)
    requires
        obtained_in_turn(states, worker, tasks),
        0 <= worker < states[0].len(),
        0 <= k <= tasks.len(),
        k <= states[0][worker].len(),
    ensures
        states[k].len() == states[0].len(),
        states[k][worker] == states[0][worker].skip(k),
    decreases k,
{
    if k > 0 {
        lemma_own_left(states, worker, tasks, k - 1);
        assert(obtains(states[k - 1], worker, states[k - 1 + 1], tasks[k - 1]));
        law_own_first(states[k - 1], worker, states[k], tasks[k - 1]);
        assert(states[k][worker] =~= states[k - 1][worker].skip(1));
        assert(states[0][worker].skip(k - 1).skip(1) =~= states[0][worker].skip(k));
    } else {
        assert(states[0][worker].skip(0) =~= states[0][worker]);
    }
}

} // verus!
