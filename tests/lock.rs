use seqloq::protocol::{next_seq, read_is_consistent};
use seqloq::{Seqloq, SeqloqGuard};

fn assert_send_sync<T: Send + Sync>(_: &T) {}

#[test]
fn smoke_test() {
    let x: Seqloq<u32> = Seqloq::new(3);
    assert_eq!(x.peek(|v| *v), 3);

    {
        let mut g: SeqloqGuard<u32> = x.lock();
        assert_eq!(g.value(), 3);
        g.set_value(4);
        assert_eq!(g.value(), 4);
        g.release();
    }

    assert_eq!(x.read(), 4);
}

#[test]
fn traits() {
    assert_send_sync(&Seqloq::new('x'));
}

#[test]
fn read_of_fresh_lock_is_initial_value() {
    let s = Seqloq::new((7u64, -2i32));
    assert_eq!(s.read(), (7u64, -2i32));
    assert_eq!(s.read(), (7u64, -2i32));
}

#[test]
fn write_is_published_until_next_write() {
    let s = Seqloq::new(10u64);
    {
        let mut g = s.lock();
        g.set_value(11);
        g.release();
    }
    assert_eq!(s.read(), 11);
    assert_eq!(s.peek(|v| *v + 1), 12);
    {
        let mut g = s.lock();
        assert_eq!(g.value(), 11);
        g.set_value(20);
        g.release();
    }
    assert_eq!(s.read(), 20);
}

#[test]
fn guard_without_store_keeps_value() {
    let s = Seqloq::new(5u8);
    {
        let g = s.lock();
        assert_eq!(g.value(), 5);
        g.release();
    }
    assert_eq!(s.read(), 5);
}

#[test]
fn peek_runs_callback_once_without_writer() {
    let s = Seqloq::new(1u32);
    let runs = std::cell::Cell::new(0u32);
    let r = s.peek(|v| {
        runs.set(runs.get() + 1);
        *v * 10
    });
    assert_eq!(r, 10);
    assert_eq!(runs.get(), 1);
}

#[test]
fn counter_steps_flip_parity() {
    assert_eq!(next_seq(0), 1);
    assert_eq!(next_seq(1), 2);
    assert_eq!(next_seq(u64::MAX), 0);
}

#[test]
fn read_consistency_needs_equal_even_counters() {
    assert!(read_is_consistent(0, 0));
    assert!(read_is_consistent(4, 4));
    assert!(!read_is_consistent(3, 3));
    assert!(!read_is_consistent(2, 4));
    assert!(!read_is_consistent(2, 3));
}

