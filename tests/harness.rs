use seqloq::harness::{
    bench_pause, keep_going, push_sample, verdict, BenchMode, BenchRequest, RwLockArray, SeqloqPeek, TestArray, TestableMutex,
    ThreadSpec,
};
use seqloq::Seqloq;

fn no_pause() {}

#[test]
fn new_array_is_zero() {
    assert_eq!(TestArray::new().0, [0, 0, 0, 0]);
}

#[test]
fn check_counts_elements_unlike_the_first() {
    assert_eq!(TestArray([1, 1, 1, 1]).check(&no_pause), 0);
    assert_eq!(TestArray([1, 1, 2, 3]).check(&no_pause), 2);
    assert_eq!(TestArray([0, 1, 1, 1]).check(&no_pause), 3);
    assert_eq!(TestArray([5, 5, 5, 4]).check(&no_pause), 1);
}

#[test]
fn check_pauses_before_each_comparison() {
    let pauses = std::cell::Cell::new(0u32);
    let pause = || pauses.set(pauses.get() + 1);
    assert_eq!(TestArray([2, 2, 3, 2]).check(&pause), 1);
    assert_eq!(pauses.get(), 3);
}

#[test]
fn frob_bumps_every_element() {
    let mut a = TestArray([0, 7, u64::MAX, 3]);
    let pauses = std::cell::Cell::new(0u32);
    let pause = || pauses.set(pauses.get() + 1);
    a.frob(&pause);
    assert_eq!(a.0, [1, 8, 0, 4]);
    assert_eq!(pauses.get(), 4);
}

#[test]
fn thread_spec_default() {
    let s = ThreadSpec::default();
    assert_eq!((s.qty, s.steps, s.delay, s.pause), (100, 100, 2, 2000));
}

#[test]
fn verdict_follows_expectation() {
    assert!(verdict(0, false));
    assert!(!verdict(3, false));
    assert!(verdict(1, true));
    assert!(!verdict(0, true));
}

#[test]
fn samples_are_elapsed_times() {
    let mut samples = vec![];
    let req = BenchRequest { mode: BenchMode::Reader, num_samples: 2, samples: &mut samples };
    assert_eq!(req.mode, BenchMode::Reader);
    assert_eq!(req.num_samples, 2);
    push_sample(req.samples, 100, 350);
    push_sample(req.samples, 7, 7);
    assert_eq!(samples, vec![250, 0]);
}

fn exercise<M: TestableMutex>() {
    let m = M::create();
    assert_eq!(m.check(&no_pause), 0);
    m.frob(&no_pause);
    m.frob(&no_pause);
    assert_eq!(m.check(&no_pause), 0);
}

#[test]
fn rwlock_primitive_stays_consistent() {
    exercise::<RwLockArray>();
}

#[test]
fn seqloq_primitive_stays_consistent() {
    exercise::<Seqloq<TestArray>>();
    let m = <Seqloq<TestArray> as TestableMutex>::create();
    m.frob(&no_pause);
    m.frob(&no_pause);
    assert_eq!(m.read().0, [2, 2, 2, 2]);
}

#[test]
fn seqloq_peek_primitive_stays_consistent() {
    exercise::<SeqloqPeek<TestArray>>();
}

#[test]
fn workers_stop_after_steps_or_shutdown() {
    let spec = ThreadSpec { qty: 1, steps: 3, delay: 0, pause: 0 };
    assert!(keep_going(&spec, 0, false));
    assert!(keep_going(&spec, 2, false));
    assert!(!keep_going(&spec, 3, false));
    assert!(!keep_going(&spec, 1, true));
    let idle = ThreadSpec { qty: 0, steps: 0, delay: 0, pause: 0 };
    assert!(!keep_going(&idle, 0, false));
}

#[test]
fn bench_pauses_like_the_timed_role() {
    let readers = ThreadSpec { qty: 200, pause: 0, ..ThreadSpec::default() };
    let writers = ThreadSpec { qty: 3, pause: 2000, ..ThreadSpec::default() };
    assert_eq!(bench_pause(BenchMode::Reader, &readers, &writers), 0);
    assert_eq!(bench_pause(BenchMode::Writer, &readers, &writers), 2000);
}
