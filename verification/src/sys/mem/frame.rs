use vstd::prelude::*;
use core::marker::PhantomData;
use crate::sys::mem::addr::PhysAddr;
use crate::sys::mem::page::{AddressNotAligned, PageSize};

verus! {

/// A physical frame: a block of physical memory of the size `S`, starting
/// at a multiple of that size.
#[derive(Debug)]
pub struct PhysFrame<S: PageSize> {
    start: PhysAddr,
    size: PhantomData<S>,
}

impl<S: PageSize> PhysFrame<S> {
    /// The first address of the frame.
    pub closed spec fn start_spec(&self) -> u64 {
        self.start.0
    }

    /// The frame that starts at `start`.
    pub closed spec fn spec_from_start(start: u64) -> Self {
        PhysFrame { start: PhysAddr(start), size: PhantomData }
    }

    /// A frame is the one that starts where it starts.
    pub proof fn lemma_from_start(start: u64)
        ensures
            Self::spec_from_start(start).start_spec() == start,
    {
    }

    /// Two frames that start at the same address are the same frame.
    pub proof fn lemma_ext(a: Self, b: Self)
        requires
            a.start_spec() == b.start_spec(),
        ensures
            a == b,
    {
    }

    /// The frame that starts at `start`, or `AddressNotAligned` when `start`
    /// is not a multiple of the frame size.
    pub fn from_start_address(start: PhysAddr) -> (r: Result<Self, AddressNotAligned>)
        ensures
            r is Ok <==> start.0 % S::spec_size() == 0,
            r matches Ok(f) ==> f.start_spec() == start.0,
    {
        proof {
            S::lemma_size_valid();
        }
        if !start.is_aligned(S::size()) {
            return Err(AddressNotAligned);
        }
        Ok(Self::from_start_address_unchecked(start))
    }

    /// The frame that starts at `start`, which must be a multiple of the
    /// frame size.
    pub fn from_start_address_unchecked(start: PhysAddr) -> (r: Self)
        requires
            start.0 % S::spec_size() == 0,
        ensures
            r.start_spec() == start.0,
            r == Self::spec_from_start(start.0),
    {
        Self { start, size: PhantomData }
    }

    /// The frame that holds `address`.
    pub fn containing_address(address: PhysAddr) -> (r: Self)
        ensures
            r.start_spec() == address.0 - address.0 % S::spec_size(),
            r == Self::spec_from_start((address.0 - address.0 % S::spec_size()) as u64),
    {
        proof {
            S::lemma_size_valid();
        }
        PhysFrame { start: address.align_down(S::size()), size: PhantomData }
    }

    /// The first address of the frame.
    pub fn start_addr(&self) -> (r: PhysAddr)
        ensures
            r.0 == self.start_spec(),
    {
        self.start
    }
}

} // verus!
