use vstd::prelude::*;

verus! {

/// The lock word while a writer holds the lock.
pub const WRITER_HELD: u32 = 0xFFFF_FFFF;

/// What the lock word says: how many readers hold the lock, whether a
/// writer waits for it, whether a writer holds it.
#[derive(Clone, Copy, Debug, PartialEq, Eq, Structural)]
pub struct RwState {
    pub readers: u32,
    pub writer_waiting: bool,
    pub writer_held: bool,
}

/// The lock word for `st`: `WRITER_HELD` while a writer holds the lock,
/// else two per reader, plus one while a writer waits.
pub open spec fn encode(st: RwState) -> int {
    if st.writer_held {
        WRITER_HELD as int
    } else {
        2 * st.readers + if st.writer_waiting { 1int } else { 0int }
    }
}

/// Whether `st` is a state the lock can be in: a holding writer excludes
/// readers and waiting, and the word fits below `WRITER_HELD`.
pub open spec fn valid(st: RwState) -> bool {
    &&& st.writer_held ==> st.readers == 0 && !st.writer_waiting
    &&& !st.writer_held ==> encode(st) < WRITER_HELD
}

/// What a reader does on seeing the lock word `s`.
#[derive(Clone, Copy, Debug, PartialEq, Eq, Structural)]
pub enum ReadStep {
    /// Try to swap `s` for this word, holding the lock as a reader.
    TryAcquire(u32),
    /// A writer holds or waits for the lock: wait for the word to change.
    Wait,
}

/// What a writer does on seeing the lock word `s`.
#[derive(Clone, Copy, Debug, PartialEq, Eq, Structural)]
pub enum WriteStep {
    /// No reader holds the lock: try to swap `s` for `WRITER_HELD`.
    TryAcquire,
    /// Readers hold the lock: try to swap `s` for this word, marking a
    /// writer as waiting so that no new reader comes in.
    MarkWaiting(u32),
    /// A writer is marked as waiting or holds the lock: wait.
    Wait,
}

/// A reader's step on the lock word `s`: with no writer holding or waiting
/// (an even word) it tries to add itself; else it waits.
pub fn read_step(s: u32) -> (r: ReadStep)
    requires
        s % 2 == 1 || s != WRITER_HELD - 1,
    ensures
        s % 2 == 0 ==> r == ReadStep::TryAcquire((s + 2) as u32),
        s % 2 == 1 ==> r == ReadStep::Wait,
{
    if s % 2 == 0 {
        ReadStep::TryAcquire(s + 2)
    } else {
        ReadStep::Wait
    }
}

/// A writer's step on the lock word `s`: with no reader in (at most the
/// waiting mark) it tries to take the lock; with readers in and no mark it
/// tries to set the mark; else it waits.
pub fn write_step(s: u32) -> (r: WriteStep)
    ensures
        s <= 1 ==> r == WriteStep::TryAcquire,
        s > 1 && s % 2 == 0 ==> r == WriteStep::MarkWaiting((s + 1) as u32),
        s > 1 && s % 2 == 1 ==> r == WriteStep::Wait,
{
    if s <= 1 {
        WriteStep::TryAcquire
    } else if s % 2 == 0 {
        WriteStep::MarkWaiting(s + 1)
    } else {
        WriteStep::Wait
    }
}

/// Whether a waiting writer, seeing the lock word `s`, goes to sleep: while
/// readers hold the lock or a writer does.
pub fn writer_should_sleep(s: u32) -> (r: bool)
    ensures
        r == (s >= 2),
{
    s >= 2
}

/// Whether a reader that leaves when the lock word was `prev` is the last
/// reader before a waiting writer, which it then wakes.
pub fn reader_release_wakes_writer(prev: u32) -> (r: bool)
    ensures
        r == (prev == 3),
{
    prev == 3
}

/// The lock word after a reader leaves a lock whose word was `prev`: two
/// less, wrapping as the atomic subtraction does.
pub fn after_reader_release(prev: u32) -> (r: u32)
    ensures
        r == (if prev >= 2 { prev - 2 } else { prev + 0x1_0000_0000 - 2 }),
{
    prev.wrapping_sub(2)
}

/// A reader that finds no writer holding or waiting and adds itself holds
/// the lock with one reader more, and no writer.
pub proof fn lemma_read_acquire(st: RwState)
    requires
        valid(st),
        encode(st) % 2 == 0,
        encode(st) != WRITER_HELD - 1,
    ensures
        !st.writer_held,
        !st.writer_waiting,
        ({
            let next = RwState { readers: (st.readers + 1) as u32, writer_waiting: false, writer_held: false };
            &&& valid(next)
            &&& encode(next) == encode(st) + 2
        }),
{
}

/// A writer takes the lock only when no reader holds it and no writer does.
pub proof fn lemma_write_acquire_exclusive(st: RwState)
    requires
        valid(st),
        encode(st) <= 1,
    ensures
        st.readers == 0,
        !st.writer_held,
        valid(RwState { readers: 0, writer_waiting: false, writer_held: true }),
        encode(RwState { readers: 0, writer_waiting: false, writer_held: true }) == WRITER_HELD,
{
}

/// Marking a writer as waiting keeps the readers, and bars new readers
/// (with fewer than 2^31 - 1 readers: with that many, the marked word is
/// `WRITER_HELD`).
pub proof fn lemma_mark_waiting(st: RwState)
    requires
        valid(st),
        encode(st) > 1,
        encode(st) % 2 == 0,
        encode(st) != WRITER_HELD - 1,
    ensures
        ({
            let next = RwState { readers: st.readers, writer_waiting: true, writer_held: false };
            &&& valid(next)
            &&& encode(next) == encode(st) + 1
            &&& encode(next) % 2 == 1
        }),
{
}

/// A reader leaving takes two off the word; it wakes the writer exactly
/// when it was the last reader and a writer waits.
pub proof fn lemma_read_release(st: RwState)
    requires
        valid(st),
        st.readers >= 1,
    ensures
        !st.writer_held,
        ({
            let next = RwState { readers: (st.readers - 1) as u32, writer_waiting: st.writer_waiting, writer_held: false };
            &&& valid(next)
            &&& encode(next) == encode(st) - 2
            &&& (encode(st) == 3 <==> (st.readers == 1 && st.writer_waiting))
        }),
{
}

} // verus!
