use vstd::prelude::*;
use crate::sys::mem::frame::PhysFrame;
use crate::sys::mem::page::PageSize;

pub mod boot;
pub mod buddy;

verus! {

/// A source of physical frames of size `S`.
///
/// What an allocator hands out depends on its state alone: `next_alloc`
/// says, for a state, which frame the next allocation gives and which state
/// it leaves.
pub trait FrameAllocator<S: PageSize>: Sized {
    /// The state after the next allocation, and the frame it gives.
    spec fn next_alloc(&self) -> (Self, Option<PhysFrame<S>>);

    /// Whether the allocator takes frames back.
    spec fn accepts_dealloc(&self) -> bool;

    /// The state after taking `frame` back.
    spec fn after_dealloc(&self, frame: PhysFrame<S>) -> Self;

    /// Hands out the next frame, if any is left.
    fn alloc_frame(&mut self) -> (r: Option<PhysFrame<S>>)
        ensures
            (*final(self), r) == old(self).next_alloc(),
    ;

    /// Takes `frame` back.
    fn dealloc_frame(&mut self, frame: PhysFrame<S>)
        requires
            old(self).accepts_dealloc(),
        ensures
            *final(self) == old(self).after_dealloc(frame),
    ;
}

/// The state after `n` more allocations from `a`, and `Some(first)` when
/// all of them succeed (`None` at the first that fails).
pub open spec fn alloc_rest<S: PageSize, A: FrameAllocator<S>>(a: A, n: nat, first: PhysFrame<S>) -> (A, Option<PhysFrame<S>>)
    decreases n,
{
    if n == 0 {
        (a, Some(first))
    } else {
        let (a2, f) = a.next_alloc();
        match f {
            Some(_) => alloc_rest(a2, (n - 1) as nat, first),
            None => (a2, None),
        }
    }
}

/// What `alloc_frames(count)` does to the allocator `a` and gives.
pub open spec fn alloc_frames_spec<S: PageSize, A: FrameAllocator<S>>(a: A, count: nat) -> (A, Option<PhysFrame<S>>) {
    let (a1, f) = a.next_alloc();
    match f {
        Some(first) => if count <= 1 {
            (a1, Some(first))
        } else {
            alloc_rest(a1, (count - 1) as nat, first)
        },
        None => (a1, None),
    }
}

/// Allocates `count` frames (at least one), and gives the first of them;
/// `None` as soon as one allocation fails.
pub fn alloc_frames<S: PageSize, A: FrameAllocator<S>>(alloc: &mut A, count: usize) -> (r: Option<PhysFrame<S>>)
    ensures
        (*final(alloc), r) == alloc_frames_spec(*old(alloc), count as nat),
{
    let ghost a0 = *alloc;
    let start = match alloc.alloc_frame() {
        Some(f) => f,
        None => {
            return None;
        },
    };
    let ghost first = start;
    if count <= 1 {
        return Some(start);
    }
    let mut i: usize = 1;
    while i < count
        invariant
            1 <= i <= count,
            a0 == *old(alloc),
            a0.next_alloc().1 == Some(first),
            alloc_frames_spec(a0, count as nat) == alloc_rest(*alloc, (count - i) as nat, first),
        decreases count - i,
    {
        match alloc.alloc_frame() {
            Some(_) => {},
            None => {
                return None;
            },
        }
        i = i + 1;
    }
    Some(start)
}

/// Sets up the physical memory manager. The steps are yet to be written:
/// it does nothing.
pub fn init() {
}

} // verus!
