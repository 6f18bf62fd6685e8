//! The scratch-file pool: a fixed-capacity, concurrency-safe pool of
//! reusable scratch-file path names. Paths, not open handles, are
//! pooled: each use creates the backing file afresh, so no previous
//! content can leak into the next use. The pool is modeled as a
//! multiset of path names — paths are fungible and no order is
//! guaranteed on which one an acquire returns.

use vstd::multiset::Multiset;
use vstd::prelude::*;

use crossbeam_queue::ArrayQueue;

use crate::numbers::{dec_str, lemma_dec_str_injective, u64_to_chars};
use crate::text::string_of;

verus! {

#[verifier::external_type_specification]
#[verifier::external_body]
#[verifier::reject_recursive_types(T)]
pub struct ExArrayQueue<T>(ArrayQueue<T>);

/// The multiset of path names a queue holds.
pub uninterp spec fn queue_contents(q: ArrayQueue<String>) -> Multiset<Seq<char>>;

/// The capacity a queue was created with.
pub uninterp spec fn queue_capacity(q: ArrayQueue<String>) -> nat;

/// A bounded, lock-free pool of scratch-file path names, shared by the
/// worker threads. Every acquire must be matched by exactly one
/// release, even on error paths; the pool then never exceeds its
/// capacity and never runs dry in correct operation.
pub struct ScratchPool {
    pub queue: ArrayQueue<String>,
}

/// The path name of the `index`-th scratch file under `base`.
pub open spec fn scratch_name(base: Seq<char>, index: nat) -> Seq<char> {
    base + "/tempfile-"@ + dec_str(index)
}

/// The pool contents after the first `n` scratch names under `base`
/// are added to `m`.
pub open spec fn filled(m: Multiset<Seq<char>>, base: Seq<char>, n: nat) -> Multiset<Seq<char>>
    decreases n,
{
    if n == 0 {
        m
    } else {
        filled(m, base, (n - 1) as nat).insert(scratch_name(base, (n - 1) as nat))
    }
}

/// Builds [`scratch_name`].
pub fn scratch_path(base: &String, index: u64) -> (r: String)
    ensures
        r@ == scratch_name(base@, index as nat),
{
    let mut m = base.clone();
    m.append("/tempfile-");
    let digits = u64_to_chars(index);
    let t = string_of(&digits);
    m.append(t.as_str());
    m
}

impl ScratchPool {
    /// The multiset of path names the pool currently holds.
    pub open spec fn model(self) -> Multiset<Seq<char>> {
        queue_contents(self.queue)
    }

    /// The fixed capacity of the pool.
    pub open spec fn cap(self) -> nat {
        queue_capacity(self.queue)
    }

    /// Relies on crossbeam_queue::ArrayQueue::new: an empty bounded
    /// queue of the given capacity. `new` panics on capacity 0 (or one
    /// absurdly near `usize::MAX`), which the precondition rules out.
    #[verifier::external_body]
    pub fn new(capacity: usize) -> (p: ScratchPool)
        requires
            1 <= capacity <= 0x1000_0000,
        ensures
            queue_contents(p.queue) == Multiset::<Seq<char>>::empty(),
            queue_capacity(p.queue) == capacity as nat,
    {
        ScratchPool { queue: ArrayQueue::new(capacity) }
    }

    /// Relies on crossbeam_queue::ArrayQueue::pop: removes and returns
    /// an element when the queue is non-empty, `None` when it is empty.
    /// Which element leaves is not promised — the model only says it
    /// was present and is now removed once.
    #[verifier::external_body]
    pub fn acquire(&mut self) -> (r: Option<String>)
        ensures
            queue_capacity(final(self).queue) == queue_capacity(old(self).queue),
            queue_contents(old(self).queue).len() == 0 ==> r is None && queue_contents(
                final(self).queue,
            ) == queue_contents(old(self).queue),
            queue_contents(old(self).queue).len() > 0 ==> (r matches Some(p) && queue_contents(
                old(self).queue,
            ).count(p@) > 0 && queue_contents(final(self).queue) == queue_contents(
                old(self).queue,
            ).remove(p@)),
    {
        self.queue.pop()
    }

    /// Relies on crossbeam_queue::ArrayQueue::push: adds the element
    /// when the queue is not full, and hands it back unchanged when it
    /// is.
    #[verifier::external_body]
    pub fn release(&mut self, path: String) -> (r: Result<(), String>)
        ensures
            queue_capacity(final(self).queue) == queue_capacity(old(self).queue),
            queue_contents(old(self).queue).len() < queue_capacity(old(self).queue) ==> (r is Ok
                && queue_contents(final(self).queue) == queue_contents(old(self).queue).insert(
                path@,
            )),
            queue_contents(old(self).queue).len() >= queue_capacity(old(self).queue) ==> (
            r matches Err(p) && p == path && queue_contents(final(self).queue) == queue_contents(
                old(self).queue,
            )),
    {
        self.queue.push(path)
    }

    /// Relies on crossbeam_queue::ArrayQueue::len: the number of
    /// elements the queue holds.
    #[verifier::external_body]
    pub fn len(&self) -> (n: usize)
        ensures
            n as nat == queue_contents(self.queue).len(),
    {
        self.queue.len()
    }

    /// Relies on crossbeam_queue::ArrayQueue::capacity: the capacity
    /// the queue was created with.
    #[verifier::external_body]
    pub fn capacity(&self) -> (n: usize)
        ensures
            n as nat == queue_capacity(self.queue),
    {
        self.queue.capacity()
    }

    /// Pre-populates the pool with `count` distinct scratch-file names
    /// under `base`, as [`filled`] describes.
    pub fn fill(&mut self, base: &String, count: usize)
        requires
            old(self).model().len() + count <= old(self).cap(),
        ensures
            final(self).model() == filled(old(self).model(), base@, count as nat),
            final(self).model().len() == old(self).model().len() + count,
            final(self).cap() == old(self).cap(),
    {
        let mut i: usize = 0;
        while i < count
            invariant
                i <= count,
                self.cap() == old(self).cap(),
                self.model() == filled(old(self).model(), base@, i as nat),
                self.model().len() == old(self).model().len() + i,
                old(self).model().len() + count <= old(self).cap(),
            decreases count - i,
        {
            let name = scratch_path(base, i as u64);
            let ghost m0 = self.model();
            let ghost nm = name@;
            let _added = self.release(name);
            proof {
                broadcast use vstd::multiset::group_multiset_axioms;

                assert(self.model() == m0.insert(nm));
                assert(self.model() == filled(old(self).model(), base@, (i + 1) as nat));
                assert(m0.insert(nm).len() == m0.len() + 1);
            }
            i = i + 1;
        }
    }
}

/// Distinct indices give distinct scratch-file names, so a fill hands
/// the pool non-colliding paths.
pub proof fn lemma_scratch_names_distinct(base: Seq<char>, i: nat, j: nat)
    requires
        i != j,
    ensures
        scratch_name(base, i) != scratch_name(base, j),
{
    if scratch_name(base, i) == scratch_name(base, j) {
        let p = base + "/tempfile-"@;
        assert(scratch_name(base, i) =~= p + dec_str(i));
        assert(scratch_name(base, j) =~= p + dec_str(j));
        assert((p + dec_str(i)).len() == (p + dec_str(j)).len());
        assert(dec_str(i) =~= dec_str(j)) by {
            assert(forall|k: int|
                0 <= k < dec_str(i).len() ==> #[trigger] dec_str(i)[k] == (p + dec_str(i))[p.len()
                    + k] && dec_str(j)[k] == (p + dec_str(j))[p.len() + k]);
        }
        lemma_dec_str_injective(i, j);
        assert(false);
    }
}

/// Relies on num_cpus::get: the number of available CPUs, documented to
/// always be at least 1. The value depends on the machine, so nothing
/// more is promised.
#[verifier::external_body]
pub fn worker_count() -> (n: usize)
    ensures
        1 <= n,
{
    num_cpus::get()
}

/// The pool capacity for this machine: ten scratch files per available
/// CPU, an estimate of the largest number a worker can hold at once,
/// clamped so the pool constructor's bound always holds.
pub fn default_pool_capacity() -> (n: usize)
    ensures
        10 <= n <= 0x1000_0000,
{
    let w = worker_count();
    let clamped: usize = if w > 0x100_0000 {
        0x100_0000
    } else {
        w
    };
    clamped * 10
}

/// A matched acquire/release pair leaves the pool unchanged: removing a
/// path that is present and inserting it back yields the original
/// contents, with the original size. Any interleaving of balanced
/// acquire/release pairs from concurrent workers is, in the multiset
/// model, a sequence of such pairs, so after all of them complete the
/// pool holds exactly what it started with.
pub proof fn lemma_acquire_release_balanced(m: Multiset<Seq<char>>, p: Seq<char>)
    requires
        m.count(p) > 0,
    ensures
        m.remove(p).insert(p) == m,
        m.remove(p).insert(p).len() == m.len(),
{
    broadcast use vstd::multiset::group_multiset_axioms;

    assert(m.remove(p).insert(p) =~= m);
}

} // verus!
