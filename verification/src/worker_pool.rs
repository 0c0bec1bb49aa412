//! The bookkeeping of the web worker pool: which workers run, which worker the next
//! task goes to, and which worker each running task was posted to.
use vstd::prelude::*;
use std::collections::HashMap;
use vstd::arithmetic::div_mod::{
    lemma_add_mod_noop_right, lemma_mod_add_multiples_vanish, lemma_small_mod, lemma_mod_self_0,
};
use crate::chars::str_eq;
use vstd::std_specs::hash::spec_hash_map_iter;
use vstd::std_specs::iter::IteratorSpec;

verus! {

broadcast use vstd::std_specs::hash::group_hash_axioms;

/// A started worker and the token that names it in error reports.
pub struct WorkerSlot<W> {
    pub token: u64,
    pub worker: W,
}

/// Workers of a pool, the round-robin cursor, the next token to hand out and the
/// worker each task was posted to, by task id.
pub struct WorkerPool<W> {
    worker_script_url: String,
    workers: Vec<WorkerSlot<W>>,
    next_worker: usize,
    next_worker_token: u64,
    task_workers: HashMap<u64, u64>,
}

/// The state of a worker pool.
pub struct WorkerPoolView<W> {
    pub url: Seq<char>,
    pub slots: Seq<WorkerSlot<W>>,
    pub next_worker: nat,
    pub next_token: nat,
    pub task_workers: Map<u64, u64>,
}

impl<W> View for WorkerPool<W> {
    type V = WorkerPoolView<W>;

    closed spec fn view(&self) -> WorkerPoolView<W> {
        WorkerPoolView {
            url: self.worker_script_url@,
            slots: self.workers@,
            next_worker: self.next_worker as nat,
            next_token: self.next_worker_token as nat,
            task_workers: self.task_workers@,
        }
    }
}

/// The round-robin cursor points at a worker, or is zero.
pub open spec fn pool_wf<W>(v: WorkerPoolView<W>) -> bool {
    v.next_worker == 0 || v.next_worker < v.slots.len()
}

/// `i` is the first slot whose worker carries `token`.
pub open spec fn is_first_slot<W>(slots: Seq<WorkerSlot<W>>, token: u64, i: int) -> bool {
    &&& 0 <= i < slots.len()
    &&& slots[i].token == token
    &&& forall|j: int| 0 <= j < i ==> slots[j].token != token
}

/// Whether some worker carries `token`.
pub open spec fn has_slot<W>(slots: Seq<WorkerSlot<W>>, token: u64) -> bool {
    exists|i: int| is_first_slot(slots, token, i)
}

/// The first slot carrying `token` (meaningful when there is one).
pub open spec fn slot_of<W>(slots: Seq<WorkerSlot<W>>, token: u64) -> int {
    choose|i: int| is_first_slot(slots, token, i)
}

/// The tasks that were posted to the worker with `token`.
pub open spec fn tasks_on(task_workers: Map<u64, u64>, token: u64) -> Set<u64> {
    task_workers.dom().filter(|t: u64| task_workers[t] == token)
}

/// The round-robin cursor after the slot at `index` was removed, leaving `new_len`
/// workers: it keeps pointing at the same worker, moves to the following one when that
/// worker was removed, and wraps to zero past the end.
pub open spec fn next_after_removal(next: nat, index: nat, new_len: nat) -> nat {
    if new_len == 0 {
        0
    } else if next > index {
        if (next - 1) as nat >= new_len {
            0
        } else {
            (next - 1) as nat
        }
    } else if next >= new_len {
        0
    } else {
        next
    }
}

/// The round-robin cursor after one task was assigned among `n` workers.
pub open spec fn advance_cursor(c: nat, n: nat) -> nat {
    if c + 1 < n {
        c + 1
    } else {
        0
    }
}

/// The round-robin cursor after `k` tasks were assigned among `n` workers.
pub open spec fn cursor_after(c: nat, n: nat, k: nat) -> nat
    decreases k,
{
    if k == 0 {
        c
    } else {
        advance_cursor(cursor_after(c, n, (k - 1) as nat), n)
    }
}

/// Assignments go round robin: the `k`-th task after the cursor stood at `c` goes to
/// worker `(c + k) mod n`.
pub proof fn lemma_cursor_after_is_rotation(c: nat, n: nat, k: nat)
    requires
        c < n,
    ensures
        cursor_after(c, n, k) == ((c + k) as int) % (n as int),
    decreases k,
{
    if k == 0 {
        lemma_small_mod(c, n);
    } else {
        let prev = cursor_after(c, n, (k - 1) as nat);
        lemma_cursor_after_is_rotation(c, n, (k - 1) as nat);
        let x: int = c + k - 1;
        assert(prev == x % (n as int));
        assert(prev < n);
        if prev + 1 < n {
            lemma_small_mod((prev + 1) as nat, n);
        } else {
            lemma_mod_self_0(n as int);
        }
        assert(advance_cursor(prev, n) == ((prev + 1) as int) % (n as int));
        lemma_add_mod_noop_right(1, x, n as int);
        assert((1 + x % (n as int)) % (n as int) == (1 + x) % (n as int));
    }
}

/// After as many assignments as there are workers, the cursor is back where it
/// started: every worker got one task.
pub proof fn lemma_round_robin_cycles(c: nat, n: nat)
    requires
        c < n,
    ensures
        cursor_after(c, n, n) == c,
{
    lemma_cursor_after_is_rotation(c, n, n);
    lemma_mod_add_multiples_vanish(c as int, n as int);
    lemma_small_mod(c, n);
}

/// Removing a worker keeps the cursor on the worker it pointed at; when that worker is
/// the one removed, the cursor moves to the worker after it, or wraps to the first.
pub proof fn lemma_removal_keeps_cursor<W>(slots: Seq<WorkerSlot<W>>, next: nat, index: nat)
    requires
        index < slots.len(),
        next < slots.len(),
        slots.len() > 1,
    ensures
        ({
            let after = slots.remove(index as int);
            let c = next_after_removal(next, index, (slots.len() - 1) as nat);
            &&& c < after.len()
            &&& next != index ==> after[c as int] == slots[next as int]
            &&& next == index && index + 1 < slots.len() ==> after[c as int] == slots[(index + 1) as int]
            &&& next == index && index + 1 == slots.len() ==> c == 0
        }),
{
}

proof fn lemma_first_slot_unique<W>(slots: Seq<WorkerSlot<W>>, token: u64, i: int, k: int)
    requires
        is_first_slot(slots, token, i),
        is_first_slot(slots, token, k),
    ensures
        i == k,
{
    if i < k {
        assert(slots[i].token != token);
    } else if k < i {
        assert(slots[k].token != token);
    }
}

impl<W> WorkerPool<W> {
    /// The pool's invariant.
    pub open spec fn wf(&self) -> bool {
        pool_wf(self@)
    }

    /// An empty pool that loads `sparsha-worker.js`, handing out tokens from one.
    pub fn new() -> (r: Self)
        ensures
            r.wf(),
            r@.url == "sparsha-worker.js"@,
            r@.slots.len() == 0,
            r@.next_worker == 0,
            r@.next_token == 1,
            r@.task_workers == Map::<u64, u64>::empty(),
    {
        WorkerPool {
            worker_script_url: "sparsha-worker.js".to_owned(),
            workers: Vec::new(),
            next_worker: 0,
            next_worker_token: 1,
            task_workers: HashMap::new(),
        }
    }

    /// The script the workers are started from.
    pub fn worker_script_url(&self) -> (r: &str)
        ensures
            r@ == self@.url,
    {
        self.worker_script_url.as_str()
    }

    /// How many workers run.
    pub fn worker_count(&self) -> (r: usize)
        ensures
            r == self@.slots.len(),
    {
        self.workers.len()
    }

    /// The worker in slot `index`.
    pub fn worker(&self, index: usize) -> (r: &W)
        requires
            index < self@.slots.len(),
        ensures
            *r == self@.slots[index as int].worker,
    {
        &self.workers[index].worker
    }

    /// Switch to another worker script. When it differs, the running workers are handed
    /// back to be terminated and the pool starts over; otherwise nothing changes.
    pub fn set_worker_script_url(&mut self, worker_script_url: String) -> (r: Vec<WorkerSlot<W>>)
        requires
            old(self).wf(),
        ensures
            final(self).wf(),
            worker_script_url@ == old(self)@.url ==> r@.len() == 0 && final(self)@ == old(self)@,
            worker_script_url@ != old(self)@.url ==> {
                &&& r@ == old(self)@.slots
                &&& final(self)@.url == worker_script_url@
                &&& final(self)@.slots.len() == 0
                &&& final(self)@.next_worker == 0
                &&& final(self)@.next_token == 1
                &&& final(self)@.task_workers == Map::<u64, u64>::empty()
            },
    {
        if str_eq(self.worker_script_url.as_str(), worker_script_url.as_str()) {
            return Vec::new();
        }
        let mut drained: Vec<WorkerSlot<W>> = Vec::new();
        std::mem::swap(&mut drained, &mut self.workers);
        self.worker_script_url = worker_script_url;
        self.next_worker = 0;
        self.next_worker_token = 1;
        self.task_workers.clear();
        drained
    }

    /// Hand out the token for a worker about to start.
    pub fn allocate_worker_token(&mut self) -> (r: u64)
        requires
            old(self).wf(),
            old(self)@.next_token < u64::MAX,
        ensures
            final(self).wf(),
            r == old(self)@.next_token,
            final(self)@ == (WorkerPoolView { next_token: old(self)@.next_token + 1, ..old(self)@ }),
    {
        let token = self.next_worker_token;
        self.next_worker_token = self.next_worker_token + 1;
        token
    }

    /// Add a started worker at the end of the pool.
    pub fn push_worker(&mut self, token: u64, worker: W)
        requires
            old(self).wf(),
        ensures
            final(self).wf(),
            final(self)@ == (WorkerPoolView {
                slots: old(self)@.slots.push(WorkerSlot { token, worker }),
                ..old(self)@
            }),
    {
        self.workers.push(WorkerSlot { token, worker });
    }

    /// Pick the worker for a task, round robin, and remember it. `None` when no
    /// worker runs.
    pub fn assign_worker(&mut self, task_id: u64) -> (r: Option<(usize, u64)>)
        requires
            old(self).wf(),
        ensures
            final(self).wf(),
            old(self)@.slots.len() == 0 ==> r is None && final(self)@ == old(self)@,
            old(self)@.slots.len() > 0 ==> {
                let n = old(self)@.slots.len();
                let i = old(self)@.next_worker;
                &&& r == Some((i as usize, old(self)@.slots[i as int].token))
                &&& final(self)@ == (WorkerPoolView {
                    next_worker: advance_cursor(i, n),
                    task_workers: old(self)@.task_workers.insert(
                        task_id,
                        old(self)@.slots[i as int].token,
                    ),
                    ..old(self)@
                })
            },
    {
        let n = self.workers.len();
        if n == 0 {
            return None;
        }
        let index = self.next_worker % n;
        proof {
            lemma_small_mod(self.next_worker as nat, n as nat);
            if self.next_worker + 1 < n {
                lemma_small_mod((self.next_worker + 1) as nat, n as nat);
            } else {
                lemma_mod_self_0(n as int);
            }
        }
        self.next_worker = (self.next_worker + 1) % n;
        let token = self.workers[index].token;
        self.task_workers.insert(task_id, token);
        Some((index, token))
    }

    /// The slot of the worker a task was posted to, if the task and that worker are known.
    pub fn worker_index_for_task(&self, task_id: u64) -> (r: Option<usize>)
        ensures
            match r {
                Some(i) => self@.task_workers.contains_key(task_id) && is_first_slot(
                    self@.slots,
                    self@.task_workers[task_id],
                    i as int,
                ),
                None => !self@.task_workers.contains_key(task_id) || !has_slot(
                    self@.slots,
                    self@.task_workers[task_id],
                ),
            },
    {
        match self.task_workers.get(&task_id) {
            Some(token) => self.slot_for_token(*token),
            None => None,
        }
    }

    fn slot_for_token(&self, token: u64) -> (r: Option<usize>)
        ensures
            match r {
                Some(i) => is_first_slot(self@.slots, token, i as int),
                None => !has_slot(self@.slots, token),
            },
    {
        let mut i: usize = 0;
        while i < self.workers.len()
            invariant
                i <= self@.slots.len(),
                forall|j: int| 0 <= j < i ==> self@.slots[j].token != token,
            decreases self@.slots.len() - i,
        {
            if self.workers[i].token == token {
                return Some(i);
            }
            i += 1;
        }
        None
    }

    /// Take out the worker with `token` after it failed: hand back the worker to
    /// terminate and the tasks that were posted to it, keeping the round-robin cursor on
    /// the same worker where it can. `None`, and no change, when no worker has the token.
    pub fn remove_worker(&mut self, token: u64) -> (r: Option<(W, Vec<u64>)>)
        requires
            old(self).wf(),
        ensures
            final(self).wf(),
            !has_slot(old(self)@.slots, token) ==> r is None && final(self)@ == old(self)@,
            has_slot(old(self)@.slots, token) ==> {
                let i = slot_of(old(self)@.slots, token);
                let new_len = (old(self)@.slots.len() - 1) as nat;
                &&& r matches Some((w, tasks))
                &&& w == old(self)@.slots[i].worker
                &&& tasks@.to_set() == tasks_on(old(self)@.task_workers, token)
                &&& tasks@.no_duplicates()
                &&& final(self)@ == (WorkerPoolView {
                    slots: old(self)@.slots.remove(i),
                    next_worker: next_after_removal(old(self)@.next_worker, i as nat, new_len),
                    ..old(self)@
                })
            },
    {
        let index = match self.slot_for_token(token) {
            Some(i) => i,
            None => {
                return None;
            },
        };
        proof {
            lemma_first_slot_unique(old(self)@.slots, token, index as int, slot_of(old(self)@.slots, token));
        }
        let slot = self.workers.remove(index);
        let new_len = self.workers.len();
        let next = if new_len == 0 {
            0
        } else if self.next_worker > index {
            if self.next_worker - 1 >= new_len {
                0
            } else {
                self.next_worker - 1
            }
        } else if self.next_worker >= new_len {
            0
        } else {
            self.next_worker
        };
        self.next_worker = next;
        let affected = self.tasks_posted_to(token);
        Some((slot.worker, affected))
    }

    fn tasks_posted_to(&self, token: u64) -> (r: Vec<u64>)
        ensures
            r@.to_set() == tasks_on(self@.task_workers, token),
            r@.no_duplicates(),
    {
        let ghost m = self.task_workers@;
        let mut out: Vec<u64> = Vec::new();
        for (task_id, worker_token) in it: self.task_workers.iter()
            invariant
                m == self.task_workers@,
                it.seq() == spec_hash_map_iter(&self.task_workers).remaining(),
                it.seq().no_duplicates(),
                out@.no_duplicates(),
                forall|x: u64| out@.contains(x) <==> exists|k: int|
                    0 <= k < it.index() && *it.seq()[k].0 == x && *it.seq()[k].1 == token,
        {
            let ghost idx = it.index();
            let ghost pairs = it.seq();
            let ghost before = out@;
            proof {
                assert(pairs[idx as int] == (task_id, worker_token));
            }
            if *worker_token == token {
                proof {
                    if out@.contains(*task_id) {
                        let k = choose|k: int|
                            0 <= k < idx && *pairs[k].0 == *task_id && *pairs[k].1 == token;
                        assert(m.contains_key(*pairs[k].0) && m[*pairs[k].0] == *pairs[k].1);
                        assert(m.contains_key(*pairs[idx as int].0) && m[*pairs[idx as int].0] == *pairs[idx as int].1);
                        assert(pairs[k] == pairs[idx as int]);
                    }
                }
                out.push(*task_id);
            }
            proof {
                let pushed = *worker_token == token;
                assert(pushed ==> out@ == before.push(*task_id));
                assert(!pushed ==> out@ == before);
                assert forall|x: u64| out@.contains(x) <==> exists|k: int|
                    0 <= k < idx + 1 && *pairs[k].0 == x && *pairs[k].1 == token by {
                    if out@.contains(x) {
                        let i = choose|i: int| 0 <= i < out@.len() && out@[i] == x;
                        if i < before.len() {
                            assert(before[i] == x);
                            assert(before.contains(x));
                            let k = choose|k: int| 0 <= k < idx && *pairs[k].0 == x && *pairs[k].1 == token;
                            assert(0 <= k < idx + 1 && *pairs[k].0 == x && *pairs[k].1 == token);
                        } else {
                            assert(pushed && x == *task_id);
                            assert(*pairs[idx as int].0 == x && *pairs[idx as int].1 == token);
                        }
                    }
                    if exists|k: int| 0 <= k < idx + 1 && *pairs[k].0 == x && *pairs[k].1 == token {
                        let k = choose|k: int| 0 <= k < idx + 1 && *pairs[k].0 == x && *pairs[k].1 == token;
                        if k < idx {
                            assert(before.contains(x));
                            let i = choose|i: int| 0 <= i < before.len() && before[i] == x;
                            assert(out@[i] == x);
                        } else {
                            assert(pushed);
                            assert(out@[before.len() as int] == x);
                        }
                    }
                }
            }
        }
        out
    }

    /// Forget the worker of a finished task.
    pub fn task_finished(&mut self, task_id: u64)
        requires
            old(self).wf(),
        ensures
            final(self).wf(),
            final(self)@ == (WorkerPoolView {
                task_workers: old(self)@.task_workers.remove(task_id),
                ..old(self)@
            }),
    {
        self.task_workers.remove(&task_id);
    }
}

} // verus!
