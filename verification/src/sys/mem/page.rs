use vstd::prelude::*;
use crate::util::align::{is_power_of_two, lemma_page_sizes_are_powers_of_two};

verus! {

/// A size of page or frame that the x86-64 paging hardware supports.
pub trait PageSize: Copy {
    /// The size in bytes.
    spec fn spec_size() -> u64;

    /// Every page size is a power of two of at least 4 KiB.
    proof fn lemma_size_valid()
        ensures
            is_power_of_two(Self::spec_size() as int),
            Self::spec_size() >= 4096,
            Self::spec_size() % 4096 == 0,
    ;

    /// The size in bytes.
    fn size() -> (r: u64)
        ensures
            r == Self::spec_size(),
    ;

    /// A short human-readable name of the size.
    fn label() -> (r: &'static str);
}

/// A 4 KiB page.
#[derive(Debug, Clone, Copy, PartialEq, Eq, PartialOrd, Ord, Hash)]
pub struct Size4KiB;

impl PageSize for Size4KiB {
    open spec fn spec_size() -> u64 {
        4096
    }

    proof fn lemma_size_valid() {
        lemma_page_sizes_are_powers_of_two();
    }

    fn size() -> (r: u64) {
        4096
    }

    fn label() -> (r: &'static str) {
        "4KiB"
    }
}

/// A 2 MiB page.
#[derive(Debug, Clone, Copy, PartialEq, Eq, PartialOrd, Ord, Hash)]
pub struct Size2MiB;

impl PageSize for Size2MiB {
    open spec fn spec_size() -> u64 {
        0x20_0000
    }

    proof fn lemma_size_valid() {
        lemma_page_sizes_are_powers_of_two();
    }

    fn size() -> (r: u64) {
        4096 * 512
    }

    fn label() -> (r: &'static str) {
        "2MiB"
    }
}

/// A 1 GiB page.
#[derive(Debug, Clone, Copy, PartialEq, Eq, PartialOrd, Ord, Hash)]
pub struct Size1GiB;

impl PageSize for Size1GiB {
    open spec fn spec_size() -> u64 {
        0x4000_0000
    }

    proof fn lemma_size_valid() {
        lemma_page_sizes_are_powers_of_two();
    }

    fn size() -> (r: u64) {
        4096 * 512 * 512
    }

    fn label() -> (r: &'static str) {
        "1GiB"
    }
}

/// The error of a start address that is not a multiple of the page size.
#[derive(Debug)]
pub struct AddressNotAligned;

} // verus!
