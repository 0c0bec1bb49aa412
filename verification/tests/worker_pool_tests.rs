use sparsha::worker_pool::WorkerPool;

fn pool_with(workers: &[&'static str]) -> WorkerPool<&'static str> {
    let mut pool = WorkerPool::new();
    for name in workers {
        let token = pool.allocate_worker_token();
        pool.push_worker(token, *name);
    }
    pool
}

#[test]
fn new_pool_loads_the_default_worker_script() {
    let pool: WorkerPool<u8> = WorkerPool::new();
    assert_eq!(pool.worker_script_url(), "sparsha-worker.js");
    assert_eq!(pool.worker_count(), 0);
}

#[test]
fn empty_pool_assigns_nothing() {
    let mut pool: WorkerPool<u8> = WorkerPool::new();
    assert_eq!(pool.assign_worker(1), None);
    assert_eq!(pool.worker_index_for_task(1), None);
}

#[test]
fn tasks_are_assigned_round_robin() {
    let mut pool = pool_with(&["a", "b", "c"]);
    assert_eq!(pool.assign_worker(10), Some((0, 1)));
    assert_eq!(pool.assign_worker(11), Some((1, 2)));
    assert_eq!(pool.assign_worker(12), Some((2, 3)));
    assert_eq!(pool.assign_worker(13), Some((0, 1)));
    assert_eq!(pool.worker_index_for_task(12), Some(2));
    assert_eq!(*pool.worker(2), "c");
}

#[test]
fn finished_tasks_are_forgotten() {
    let mut pool = pool_with(&["a"]);
    pool.assign_worker(5);
    assert_eq!(pool.worker_index_for_task(5), Some(0));
    pool.task_finished(5);
    assert_eq!(pool.worker_index_for_task(5), None);
}

#[test]
fn failed_worker_hands_back_its_tasks() {
    let mut pool = pool_with(&["a", "b", "c"]);
    pool.assign_worker(10);
    pool.assign_worker(11);
    pool.assign_worker(12);
    pool.assign_worker(13);
    let (worker, mut tasks) = pool.remove_worker(1).expect("worker with token 1");
    assert_eq!(worker, "a");
    tasks.sort();
    assert_eq!(tasks, vec![10, 13]);
    assert_eq!(pool.worker_count(), 2);
    assert_eq!(pool.assign_worker(20), Some((0, 2)));
    assert!(pool.remove_worker(99).is_none());
}

#[test]
fn removal_keeps_the_cursor_on_the_same_worker() {
    let mut pool = pool_with(&["a", "b", "c"]);
    pool.assign_worker(1);
    pool.assign_worker(2);
    pool.remove_worker(1);
    assert_eq!(pool.assign_worker(3), Some((1, 3)));
}

#[test]
fn removing_the_last_worker_resets_the_cursor() {
    let mut pool = pool_with(&["a", "b"]);
    pool.assign_worker(1);
    pool.remove_worker(2);
    assert_eq!(pool.assign_worker(2), Some((0, 1)));
    pool.remove_worker(1);
    assert_eq!(pool.worker_count(), 0);
    assert_eq!(pool.assign_worker(3), None);
}

#[test]
fn changing_the_worker_script_restarts_the_pool() {
    let mut pool = pool_with(&["a", "b"]);
    pool.assign_worker(1);
    let unchanged = pool.set_worker_script_url("sparsha-worker.js".to_owned());
    assert!(unchanged.is_empty());
    assert_eq!(pool.worker_count(), 2);
    let drained = pool.set_worker_script_url("other.js".to_owned());
    assert_eq!(drained.iter().map(|slot| slot.worker).collect::<Vec<_>>(), vec!["a", "b"]);
    assert_eq!(pool.worker_script_url(), "other.js");
    assert_eq!(pool.worker_count(), 0);
    assert_eq!(pool.worker_index_for_task(1), None);
    assert_eq!(pool.allocate_worker_token(), 1);
}
