//! The sequence-counter discipline, and an abstract model of a lock's life
//! in which the discipline's laws are proved.
//!
//! The lemmas speak of the model (`SeqState`, `step`, `run`), not of a
//! `Seqloq` value: the counter of a `Seqloq` is an atomic whose value the
//! contracts cannot follow. What ties the two together is that `Seqloq` moves
//! its counter only with `next_seq`, once when a writer enters and once when it
//! leaves, and keeps a read only when `read_is_consistent` holds of the
//! counters it saw; `lemma_consistent_read` is why such a read is untorn.
use vstd::prelude::*;

verus! {

/// A sequence number is odd exactly while a writer holds write access.
pub open spec fn writer_active(seq: u64) -> bool {
    seq % 2 == 1
}

/// The number a sequence counter moves to when a writer enters or leaves.
pub open spec fn spec_next_seq(seq: u64) -> u64 {
    ((seq as int + 1) % 0x1_0000_0000_0000_0000) as u64
}

/// Next value of a sequence counter. Wraps at the top of the `u64` range,
/// which keeps the parity alternating.
pub fn next_seq(seq: u64) -> (r: u64)
    ensures
        r == spec_next_seq(seq),
        writer_active(r) == !writer_active(seq),
    opens_invariants none
    no_unwind
{
    if seq == u64::MAX {
        0
    } else {
        seq + 1
    }
}

/// Whether an optimistic read that saw `before` on entry and `after` on exit
/// observed a value that no writer touched.
pub fn read_is_consistent(before: u64, after: u64) -> (r: bool)
    ensures
        r == (!writer_active(before) && before == after),
{
    before % 2 == 0 && before == after
}


/// What the lock holds at one moment: the counter, the value, and whether a
/// writer holds the guard.
pub struct SeqState<T> {
    pub seq: u64,
    pub value: T,
    pub writing: bool,
}

/// A fresh lock around `v`.
pub open spec fn initial<T>(v: T) -> SeqState<T> {
    SeqState { seq: 0, value: v, writing: false }
}

/// The counter matches the writer's presence.
pub open spec fn well_formed<T>(s: SeqState<T>) -> bool {
    writer_active(s.seq) == s.writing
}

/// One step that a lock may take: a writer enters, stores a value, or leaves;
/// or nothing changes (a reader looks).
pub open spec fn step<T>(s: SeqState<T>, t: SeqState<T>) -> bool {
    ||| t == s
    ||| (!s.writing && t == SeqState { seq: spec_next_seq(s.seq), value: s.value, writing: true })
    ||| (s.writing && t == SeqState { seq: s.seq, value: t.value, writing: true })
    ||| (s.writing && t == SeqState { seq: spec_next_seq(s.seq), value: s.value, writing: false })
}

/// A run of a lock from its creation: each state follows from the one before.
pub open spec fn run<T>(h: Seq<SeqState<T>>) -> bool {
    &&& h.len() > 0
    &&& h[0].seq == 0
    &&& !h[0].writing
    &&& forall|k: int| 0 <= k < h.len() - 1 ==> #[trigger] step(h[k], h[k + 1])
}

/// What a reader gets when it looks at the lock: the value, or nothing while
/// a writer is inside.
pub open spec fn observe<T>(s: SeqState<T>) -> Option<T> {
    if writer_active(s.seq) {
        None
    } else {
        Some(s.value)
    }
}

/// The counter never reaches the top of the `u64` range in the run, so it
/// never wraps.
pub open spec fn below_top<T>(h: Seq<SeqState<T>>) -> bool {
    forall|k: int| 0 <= k < h.len() ==> (#[trigger] h[k]).seq < u64::MAX
}

proof fn lemma_step<T>(h: Seq<SeqState<T>>, k: int)
    requires
        run(h),
        0 <= k < h.len() - 1,
    ensures
        step(h[k], h[k + 1]),
{
}

/// The counter is odd exactly while a writer holds the guard, in every state
/// of a run.
pub proof fn lemma_parity<T>(h: Seq<SeqState<T>>, k: int)
    requires
        run(h),
        0 <= k < h.len(),
    ensures
        well_formed(h[k]),
    decreases k,
{
    if k > 0 {
        lemma_parity(h, k - 1);
        lemma_step(h, k - 1);
    }
}

/// The counter never goes down in a run that stays below the top of the
/// `u64` range.
pub proof fn lemma_monotonic<T>(h: Seq<SeqState<T>>, i: int, j: int)
    requires
        run(h),
        0 <= i <= j < h.len(),
        below_top(h),
    ensures
        h[i].seq <= h[j].seq,
        forall|k: int| i <= k <= j ==> h[k].seq <= h[j].seq,
    decreases j - i,
{
    if i < j {
        lemma_step(h, j - 1);
        lemma_monotonic(h, i, j - 1);
    }
}

/// A read that saw the same even counter on entry and on exit saw one value:
/// no store happened between the two looks, and no writer was inside.
pub proof fn lemma_consistent_read<T>(h: Seq<SeqState<T>>, i: int, j: int)
    requires
        run(h),
        0 <= i <= j < h.len(),
        below_top(h),
        !writer_active(h[i].seq),
        h[i].seq == h[j].seq,
    ensures
        forall|k: int| i <= k <= j ==> (#[trigger] h[k]).value == h[i].value && !h[k].writing,
    decreases j - i,
{
    if i < j {
        lemma_monotonic(h, i, j - 1);
        lemma_monotonic(h, j - 1, j);
        lemma_step(h, j - 1);
        lemma_consistent_read(h, i, j - 1);
        assert(h[j - 1].seq == h[i].seq);
        assert(h[j] == h[j - 1]);
    }
    lemma_parity(h, i);
}

/// A writer inside the lock is the only one: until it leaves, no step moves
/// the counter, so no second writer can enter; its leaving makes the counter
/// even again and keeps the value it stored.
pub proof fn lemma_exclusive_writer<T>(s: SeqState<T>, t: SeqState<T>)
    requires
        well_formed(s),
        s.writing,
        step(s, t),
    ensures
        t.writing ==> t.seq == s.seq,
        !t.writing ==> t.seq == spec_next_seq(s.seq) && t.value == s.value && well_formed(t),
{
}

/// A fresh lock shows the value it was made with.
pub proof fn lemma_round_trip<T>(v: T)
    ensures
        observe(initial(v)) == Some(v),
        well_formed(initial(v)),
{
}

/// A write that enters, stores `v` and leaves publishes `v`.
pub proof fn lemma_publish<T>(s: SeqState<T>, v: T)
    requires
        well_formed(s),
        !s.writing,
    ensures
        ({
            let entered = SeqState { seq: spec_next_seq(s.seq), value: s.value, writing: true };
            let stored = SeqState { seq: entered.seq, value: v, writing: true };
            let left = SeqState { seq: spec_next_seq(stored.seq), value: v, writing: false };
            &&& step(s, entered)
            &&& step(entered, stored)
            &&& step(stored, left)
            &&& well_formed(left)
            &&& observe(left) == Some(v)
        }),
{
}

} // verus!
