//! Pieces of a reader/writer stress test: the payload that makes a torn read
//! visible, the primitives it drives, and the decisions of its threads.
use vstd::prelude::*;
use vstd::rwlock::RwLock;
use crate::lock::Seqloq;

verus! {

pub const ARRAY_LEN: usize = 4;

/// Payload of the stress test: writers bump every element in turn, so a
/// reader that sees unequal elements saw a write half done.
#[derive(Clone, Copy)]
pub struct TestArray(pub [u64; ARRAY_LEN]);

/// How many elements after the first differ from the first.
pub open spec fn mismatches(a: Seq<u64>) -> nat
    decreases a.len(),
{
    if a.len() <= 1 {
        0
    } else {
        mismatches(a.drop_last()) + if a.last() != a[0] { 1nat } else { 0nat }
    }
}

/// `x + 1`, wrapping at the top of the `u64` range.
pub open spec fn bumped(x: u64) -> u64 {
    ((x as int + 1) % 0x1_0000_0000_0000_0000) as u64
}

impl TestArray {
    /// All elements zero.
    pub fn new() -> (r: TestArray)
        ensures
            forall|i: int| 0 <= i < ARRAY_LEN ==> r.0[i] == 0,
    {
        let r = TestArray([0, 0, 0, 0]);
        assert(r.0@ =~= seq![0u64, 0, 0, 0]);
        r
    }

    /// Counts the elements after the first that differ from it, calling
    /// `pause` before each comparison to widen the window for a torn read.
    pub fn check<P: Fn()>(&self, pause: &P) -> (n: usize)
        requires
            pause.requires(()),
        ensures
            n == mismatches(self.0@),
    {
        let v = self.0[0];
        let mut n: usize = 0;
        let mut i: usize = 1;
        while i < ARRAY_LEN
            invariant
                1 <= i <= ARRAY_LEN,
                v == self.0@[0],
                n == mismatches(self.0@.subrange(0, i as int)),
                n <= i,
                pause.requires(()),
            decreases ARRAY_LEN - i,
        {
            pause();
            assert(self.0@.subrange(0, i as int + 1).drop_last() =~= self.0@.subrange(0, i as int));
            if self.0[i] != v {
                n = n + 1;
            }
            i = i + 1;
        }
        assert(self.0@.subrange(0, ARRAY_LEN as int) =~= self.0@);
        n
    }

    /// Adds one to every element in turn, calling `pause` after each.
    pub fn frob<P: Fn()>(&mut self, pause: &P)
        requires
            pause.requires(()),
        ensures
            forall|i: int| 0 <= i < ARRAY_LEN ==> final(self).0[i] == bumped(old(self).0[i]),
    {
        let mut i: usize = 0;
        while i < ARRAY_LEN
            invariant
                0 <= i <= ARRAY_LEN,
                pause.requires(()),
                forall|k: int| 0 <= k < i ==> self.0[k] == bumped(old(self).0[k]),
                forall|k: int| i <= k < ARRAY_LEN ==> self.0[k] == old(self).0[k],
            decreases ARRAY_LEN - i,
        {
            let x = self.0[i];
            self.0[i] = if x == u64::MAX { 0 } else { x + 1 };
            pause();
            i = i + 1;
        }
    }
}


/// All elements are equal: what every reader of a sound primitive sees.
pub open spec fn balanced(a: TestArray) -> bool {
    forall|i: int| 0 <= i < ARRAY_LEN ==> #[trigger] a.0[i] == a.0[0]
}

/// `balanced`, as a predicate for a lock.
pub open spec fn balanced_pred() -> spec_fn(TestArray) -> bool {
    |a: TestArray| balanced(a)
}

/// A balanced array has no mismatches.
pub proof fn lemma_balanced_checks_clean(a: TestArray)
    requires
        balanced(a),
    ensures
        mismatches(a.0@) == 0,
{
    reveal_with_fuel(mismatches, 4);
    assert(a.0[1] == a.0[0] && a.0[2] == a.0[0] && a.0[3] == a.0[0]);
    assert(a.0@.subrange(0, 3) =~= a.0@.drop_last());
}

/// Bumping a balanced array keeps it balanced.
pub proof fn lemma_frob_keeps_balance(a: TestArray, b: TestArray)
    requires
        balanced(a),
        forall|i: int| 0 <= i < ARRAY_LEN ==> b.0[i] == bumped(a.0[i]),
    ensures
        balanced(b),
{
    assert forall|i: int| 0 <= i < ARRAY_LEN implies #[trigger] b.0[i] == b.0[0] by {
        assert(a.0[i] == a.0[0]);
    }
}

/// A primitive that the stress test can drive: readers call `check`, writers
/// call `frob`, both on a `TestArray` that it protects.
pub trait TestableMutex: Send + Sync + Sized {
    /// What the primitive keeps true of itself between calls; a primitive
    /// that promises nothing keeps the default.
    open spec fn wf(&self) -> bool {
        true
    }

    /// A primitive around `TestArray::new()`.
    fn create() -> (r: Self)
        ensures
            r.wf(),
    ;

    /// Reads the array and counts its mismatches; a sound primitive always
    /// gives 0.
    fn check<P: Fn()>(&self, pause: &P) -> usize
        requires
            self.wf(),
            pause.requires(()),
    ;

    /// Bumps every element of the array.
    fn frob<P: Fn()>(&self, pause: &P)
        requires
            self.wf(),
            pause.requires(()),
    ;
}

/// A `TestArray` behind a reader-writer lock whose values are all balanced.
pub struct RwLockArray(RwLock<TestArray, spec_fn(TestArray) -> bool>);

impl TestableMutex for RwLockArray {
    closed spec fn wf(&self) -> bool {
        self.0.pred() == balanced_pred()
    }

    fn create() -> (r: RwLockArray) {
        let a = TestArray::new();
        assert(balanced(a));
        RwLockArray(RwLock::new(a, Ghost(balanced_pred())))
    }

    /// Checks under the read lock.
    fn check<P: Fn()>(&self, pause: &P) -> (n: usize)
        ensures
            n == 0,
    {
        let h = self.0.acquire_read();
        let n = h.borrow().check(pause);
        proof {
            lemma_balanced_checks_clean(h.view());
        }
        h.release_read();
        n
    }

    /// Bumps under the write lock.
    fn frob<P: Fn()>(&self, pause: &P) {
        let (mut a, h) = self.0.acquire_write();
        let ghost before = a;
        a.frob(pause);
        proof {
            lemma_frob_keeps_balance(before, a);
        }
        h.release_write(a);
    }
}

impl TestableMutex for Seqloq<TestArray> {
    open spec fn wf(&self) -> bool {
        self.inv() == balanced_pred()
    }

    fn create() -> (r: Seqloq<TestArray>) {
        let a = TestArray::new();
        assert(balanced(a));
        Seqloq::new_with(a, Ghost(balanced_pred()))
    }

    /// Checks a copy taken by `read`.
    fn check<P: Fn()>(&self, pause: &P) -> (n: usize)
        ensures
            n == 0,
    {
        let x = self.read();
        proof {
            lemma_balanced_checks_clean(x);
        }
        x.check(pause)
    }

    /// Bumps a copy under the guard and stores it back.
    fn frob<P: Fn()>(&self, pause: &P) {
        let mut g = self.lock();
        let mut a = g.value();
        let ghost before = a;
        a.frob(pause);
        proof {
            lemma_frob_keeps_balance(before, a);
        }
        g.set_value(a);
        g.release();
    }
}

/// A `Seqloq` whose readers check the array in place, through `peek`.
#[verifier::reject_recursive_types(T)]
pub struct SeqloqPeek<T>(Seqloq<T>);

impl TestableMutex for SeqloqPeek<TestArray> {
    closed spec fn wf(&self) -> bool {
        self.0.wf()
    }

    fn create() -> (r: SeqloqPeek<TestArray>) {
        SeqloqPeek(Seqloq::create())
    }

    /// Checks in place through `peek`.
    fn check<P: Fn()>(&self, pause: &P) -> (n: usize)
        ensures
            n == 0,
    {
        let n = self.0.peek(|x: &TestArray| -> (n: usize)
            requires
                pause.requires(()),
            ensures
                n == mismatches(x.0@),
            { x.check(pause) });
        proof {
            let t = choose|t: TestArray| balanced(t) && n == mismatches(t.0@);
            lemma_balanced_checks_clean(t);
        }
        n
    }

    fn frob<P: Fn()>(&self, pause: &P) {
        self.0.frob(pause);
    }
}

/// How many threads of one role the stress test runs, and how.
#[derive(Clone, Copy)]
pub struct ThreadSpec {
    /// Number of threads to spawn.
    pub qty: u64,
    /// Number of times to operate in each thread.
    pub steps: u64,
    /// Delay on each step of the checking or incrementing operation, in
    /// microseconds.
    pub delay: u64,
    /// Pause between operations, with the lock released, in microseconds.
    pub pause: u64,
}

impl Default for ThreadSpec {
    fn default() -> (r: ThreadSpec)
        ensures
            r.qty == 100,
            r.steps == 100,
            r.delay == 2,
            r.pause == 2000,
    {
        ThreadSpec { qty: 100, steps: 100, delay: 2, pause: 2000 }
    }
}

/// Which operation the foreground thread times.
#[derive(Clone, Copy, Debug, PartialEq, Eq, Structural)]
pub enum BenchMode {
    Reader,
    Writer,
}

/// A request to time `num_samples` operations of one kind, with the elapsed
/// nanoseconds appended to `samples`.
pub struct BenchRequest<'a> {
    pub mode: BenchMode,
    pub num_samples: u64,
    pub samples: &'a mut Vec<u64>,
}

/// Whether a harness thread that has done `steps_done` operations goes on:
/// it stops after `spec.steps` of them, or once it has seen the shutdown
/// flag set after an operation.
pub fn keep_going(spec: &ThreadSpec, steps_done: u64, shutdown: bool) -> (go: bool)
    ensures
        go == (steps_done < spec.steps && !shutdown),
{
    !shutdown && steps_done < spec.steps
}

/// How long the foreground thread pauses after a timed operation: as long as
/// the threads of the role that it times.
pub fn bench_pause(mode: BenchMode, readers: &ThreadSpec, writers: &ThreadSpec) -> (us: u64)
    ensures
        us == (match mode {
            BenchMode::Reader => readers.pause,
            BenchMode::Writer => writers.pause,
        }),
{
    match mode {
        BenchMode::Reader => readers.pause,
        BenchMode::Writer => writers.pause,
    }
}

/// Whether a run with `failures` failed checks passed: one that was meant to
/// catch an inconsistency must have seen one, any other must have seen none.
pub fn verdict(failures: u64, should_fail: bool) -> (ok: bool)
    ensures
        ok == (if should_fail { failures > 0 } else { failures == 0 }),
{
    if should_fail {
        failures > 0
    } else {
        failures == 0
    }
}

/// Appends the time between two readings of a monotonic clock.
pub fn push_sample(samples: &mut Vec<u64>, t0: u64, t1: u64)
    requires
        t0 <= t1,
    ensures
        final(samples)@ == old(samples)@.push((t1 - t0) as u64),
{
    samples.push(t1 - t0);
}

} // verus!
