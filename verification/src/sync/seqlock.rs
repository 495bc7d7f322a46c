use vstd::prelude::*;

verus! {

/// Whether a reader that loaded the sequence number `seq` may read the
/// data: no writer is in (the number is even).
pub fn may_read(seq: u32) -> (r: bool)
    ensures
        r == (seq % 2 == 0),
{
    seq % 2 == 0
}

/// Whether a read between loading the sequence numbers `seq1` and `seq2`
/// saw consistent data: the number did not change.
pub fn read_consistent(seq1: u32, seq2: u32) -> (r: bool)
    ensures
        r == (seq1 == seq2),
{
    seq1 == seq2
}

/// What a writer that loaded the sequence number `s` tries to swap it for:
/// the odd number after it, when no other writer is in; `None` while one is.
pub fn write_step(s: u32) -> (r: Option<u32>)
    ensures
        s % 2 == 0 ==> r == Some((s + 1) as u32),
        s % 2 == 1 ==> r is None,
{
    if s % 2 != 0 {
        None
    } else {
        Some(s + 1)
    }
}

/// The sequence number after a writer leaves: one more, wrapping as the
/// atomic addition does.
pub fn after_write(s: u32) -> (r: u32)
    ensures
        r == (if s < 0xFFFF_FFFF { s + 1 } else { 0 }),
{
    s.wrapping_add(1)
}

/// A writer enters and leaves with the sequence number moving from even to
/// odd and back to even, two further on (modulo 2^32); a reader that saw
/// the even number before and the same number after overlapped no write
/// that completed in between.
pub proof fn lemma_write_cycle(s: u32)
    requires
        s % 2 == 0,
    ensures
        (s + 1) % 2 == 1,
        (s + 1) as u32 == s + 1,
        ({
            let after = if s + 1 < 0xFFFF_FFFF { s + 2 } else { 0 };
            &&& after % 2 == 0
            &&& after != s
        }),
{
}

} // verus!
