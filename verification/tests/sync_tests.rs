use kernel::sync::rwlock::{
    after_reader_release, read_step, reader_release_wakes_writer, write_step, writer_should_sleep,
    ReadStep, WriteStep, WRITER_HELD,
};
use kernel::sync::{seqlock, spinlock};

#[test]
fn readers_enter_even_words() {
    assert_eq!(read_step(0), ReadStep::TryAcquire(2));
    assert_eq!(read_step(4), ReadStep::TryAcquire(6));
    assert_eq!(read_step(5), ReadStep::Wait);
    assert_eq!(read_step(WRITER_HELD), ReadStep::Wait);
}

#[test]
fn writers_take_free_lock_or_mark_waiting() {
    assert_eq!(write_step(0), WriteStep::TryAcquire);
    assert_eq!(write_step(1), WriteStep::TryAcquire);
    assert_eq!(write_step(4), WriteStep::MarkWaiting(5));
    assert_eq!(write_step(5), WriteStep::Wait);
    assert_eq!(write_step(WRITER_HELD), WriteStep::Wait);
    assert!(writer_should_sleep(2));
    assert!(!writer_should_sleep(1));
}

#[test]
fn last_reader_wakes_waiting_writer() {
    assert!(reader_release_wakes_writer(3));
    assert!(!reader_release_wakes_writer(5));
    assert!(!reader_release_wakes_writer(2));
    assert_eq!(after_reader_release(5), 3);
    assert_eq!(after_reader_release(1), 0xFFFF_FFFF);
}

#[test]
fn seqlock_steps() {
    assert!(seqlock::may_read(4));
    assert!(!seqlock::may_read(5));
    assert!(seqlock::read_consistent(4, 4));
    assert!(!seqlock::read_consistent(4, 6));
    assert_eq!(seqlock::write_step(4), Some(5));
    assert_eq!(seqlock::write_step(5), None);
    assert_eq!(seqlock::after_write(5), 6);
    assert_eq!(seqlock::after_write(0xFFFF_FFFF), 0);
}

#[test]
fn spinlock_acquired_when_free() {
    assert!(spinlock::acquired(false));
    assert!(!spinlock::acquired(true));
}
