//! The sequence lock itself.
use vstd::prelude::*;
use vstd::rwlock::{RwLock, WriteHandle};
use std::sync::atomic::{AtomicU64, Ordering};
use crate::protocol::{next_seq, read_is_consistent};

verus! {

/// How many optimistic attempts `peek` makes before it reads under the read
/// lock instead; no realistic run gets that far.
pub const OPTIMISTIC_TRIES: u64 = 0xffff_ffff_ffff_ffff;

/// A sequence lock for a small `Copy` value.
///
/// `seqnum` is odd exactly while a writer holds a guard. Readers read it
/// before and after looking at the value and keep what they saw only when the
/// two reads agree and are even.
///
/// The value lives in vstd's `RwLock`, with a predicate `inv()` that every
/// value stored in the lock meets; that is what lets the contracts speak of
/// what a reader sees. A writer holds the write lock for the whole life of its
/// guard, which also serialises writers. A reader takes the shared side of that
/// lock while it looks, so a writer waits for readers that are looking; no
/// reader ever takes exclusive access. The lock does not poison.
#[verifier::reject_recursive_types(T)]
pub struct Seqloq<T> {
    seqnum: AtomicU64,
    data: RwLock<T, spec_fn(T) -> bool>,
}

/// Exclusive read/write access to the value of a `Seqloq`.
///
/// `value` is the writer's value, moved out of the lock while the guard
/// lives; `release` stores it back and publishes it. Every guard must end in
/// `release`: one that is only dropped leaves the lock held and the counter
/// odd, and readers then never see a consistent value again.
#[verifier::reject_recursive_types(T)]
pub struct SeqloqGuard<'a, T> {
    seqloq: &'a Seqloq<T>,
    handle: WriteHandle<'a, T, spec_fn(T) -> bool>,
    value: T,
}

/// Moves a sequence counter on by one, with a plain load and store. Only the
/// writer that holds the lock calls this, so no other store can interleave.
fn non_atomic_increment(x: &AtomicU64) {
    let v = x.load(Ordering::SeqCst);
    x.store(next_seq(v), Ordering::SeqCst);
}

impl<T> Seqloq<T> {
    /// The predicate that every value this lock holds meets.
    pub closed spec fn inv(&self) -> spec_fn(T) -> bool {
        self.data.pred()
    }
}

impl<T: Copy> Seqloq<T> {
    /// A lock holding `t`, with no writer active, that admits any value.
    pub fn new(t: T) -> (s: Seqloq<T>)
        ensures
            forall|x: T| #[trigger] (s.inv())(x),
    {
        Seqloq::new_with(t, Ghost(|x: T| true))
    }

    /// A lock holding `t`, with no writer active, whose values all meet `inv`.
    pub fn new_with(t: T, Ghost(inv): Ghost<spec_fn(T) -> bool>) -> (s: Seqloq<T>)
        requires
            inv(t),
        ensures
            s.inv() == inv,
    {
        Seqloq { seqnum: AtomicU64::new(0), data: RwLock::new(t, Ghost(inv)) }
    }

    /// Runs `f` on the value without taking exclusive access, and returns
    /// what it gave on a run that no write overlapped: `f` of a value that the
    /// lock held.
    ///
    /// `f` may run more than once: a run that a write overlapped is thrown
    /// away, and one is never started while the counter is odd.
    pub fn peek<F, R>(&self, f: F) -> (r: R)
        where
            F: Fn(&T) -> R,
        requires
            forall|t: &T| f.requires((t,)),
        ensures
            exists|t: T| (self.inv())(t) && f.ensures((&t,), r),
    {
        let mut tries: u64 = 0;
        while tries < OPTIMISTIC_TRIES
            invariant
                forall|t: &T| f.requires((t,)),
            decreases OPTIMISTIC_TRIES - tries,
        {
            let before = self.seqnum.load(Ordering::SeqCst);
            if before % 2 == 0 {
                let h = self.data.acquire_read();
                let v = h.borrow();
                let r = f(v);
                assert((self.inv())(*v) && f.ensures((&*v,), r));
                h.release_read();
                let after = self.seqnum.load(Ordering::SeqCst);
                if read_is_consistent(before, after) {
                    return r;
                }
            }
            tries = tries + 1;
        }
        let h = self.data.acquire_read();
        let v = h.borrow();
        let r = f(v);
        assert((self.inv())(*v) && f.ensures((&*v,), r));
        h.release_read();
        r
    }

    /// A copy of the value, taken by `peek`.
    pub fn read(&self) -> (r: T)
        ensures
            (self.inv())(r),
    {
        self.peek(|x: &T| -> (c: T)
            ensures
                c == *x,
            { *x })
    }

    /// Takes exclusive read/write access; the counter turns odd. Readers go
    /// on seeing a consistent value: they retry until the guard is released.
    pub fn lock(&self) -> (g: SeqloqGuard<'_, T>)
        ensures
            g.inv() == self.inv(),
            (self.inv())(g@),
    {
        let (value, handle) = self.data.acquire_write();
        non_atomic_increment(&self.seqnum);
        SeqloqGuard { seqloq: self, handle, value }
    }
}

impl<'a, T> SeqloqGuard<'a, T> {
    #[verifier::type_invariant]
    spec fn wf(&self) -> bool {
        &&& self.handle.rwlock() == self.seqloq.data
        &&& self.seqloq.data.inv(self.value)
    }

    /// The writer's value.
    pub closed spec fn view(&self) -> T {
        self.value
    }

    /// The predicate of the lock that this guard writes to.
    pub closed spec fn inv(&self) -> spec_fn(T) -> bool {
        self.seqloq.inv()
    }
}

impl<'a, T: Copy> SeqloqGuard<'a, T> {
    /// The value as this writer sees it.
    pub fn value(&self) -> (r: T)
        ensures
            r == self@,
    {
        self.value
    }

    /// Replaces the value. Readers see it once the guard is released.
    pub fn set_value(&mut self, v: T)
        requires
            (old(self).inv())(v),
        ensures
            final(self)@ == v,
            final(self).inv() == old(self).inv(),
    {
        proof {
            use_type_invariant(&*self);
        }
        self.value = v;
    }

    /// Publishes the value: the counter turns even again, then the lock is
    /// released. A guard that is dropped without this keeps the lock held.
    pub fn release(self) {
        proof {
            use_type_invariant(&self);
        }
        let SeqloqGuard { seqloq, handle, value } = self;
        non_atomic_increment(&seqloq.seqnum);
        handle.release_write(value);
    }
}

} // verus!
