use vstd::prelude::*;

verus! {

/// Whether a `try_lock` took the lock, given the flag it swapped out: it
/// did when the lock was free.
pub fn acquired(was_locked: bool) -> (r: bool)
    ensures
        r == !was_locked,
{
    !was_locked
}

} // verus!
