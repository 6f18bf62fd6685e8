use toster::{default_pool_capacity, scratch_path, worker_count, ScratchPool};

#[test]
fn scratch_names_are_indexed_under_the_base() {
    assert_eq!(scratch_path(&String::from("/tmp/dir"), 7), "/tmp/dir/tempfile-7");
    assert_eq!(scratch_path(&String::from("/tmp/dir"), 0), "/tmp/dir/tempfile-0");
    assert_eq!(scratch_path(&String::from("/tmp/dir"), 123), "/tmp/dir/tempfile-123");
}

#[test]
fn fill_populates_to_capacity_with_distinct_names() {
    let mut pool = ScratchPool::new(5);
    pool.fill(&String::from("/tmp/d"), 5);
    assert_eq!(pool.len(), 5);
    assert_eq!(pool.capacity(), 5);
    let mut names = Vec::new();
    while let Some(p) = pool.acquire() {
        names.push(p);
    }
    names.sort();
    let mut expected: Vec<String> = (0..5u64).map(|i| format!("/tmp/d/tempfile-{}", i)).collect();
    expected.sort();
    assert_eq!(names, expected);
}

#[test]
fn balanced_acquire_release_restores_the_size() {
    let mut pool = ScratchPool::new(8);
    pool.fill(&String::from("/tmp/d"), 8);
    let a = pool.acquire().unwrap();
    let b = pool.acquire().unwrap();
    let c = pool.acquire().unwrap();
    assert_eq!(pool.len(), 5);
    assert!(pool.release(b).is_ok());
    assert!(pool.release(a).is_ok());
    assert!(pool.release(c).is_ok());
    assert_eq!(pool.len(), 8);
}

#[test]
fn acquire_on_an_empty_pool_yields_none() {
    let mut pool = ScratchPool::new(2);
    assert_eq!(pool.acquire(), None);
}

#[test]
fn release_on_a_full_pool_hands_the_path_back() {
    let mut pool = ScratchPool::new(1);
    assert!(pool.release(String::from("a")).is_ok());
    assert_eq!(pool.release(String::from("b")), Err(String::from("b")));
    assert_eq!(pool.len(), 1);
}

#[test]
fn default_capacity_is_ten_per_worker() {
    let n = default_pool_capacity();
    assert!(n >= 10);
    assert_eq!(n, worker_count().min(0x100_0000) * 10);
}
