use vstd::prelude::*;
use core::marker::PhantomData;
use vstd::arithmetic::power2::pow2;
use crate::allocator::mmio::MappedRegion;

pub use crate::filesystem::drivers::nvme::{CQEntry, SQEntry, Status};

verus! {

/// The size in bytes of a submission queue entry.
pub const SQ_ENTRY_SIZE: u64 = 64;

/// The size in bytes of a completion queue entry.
pub const CQ_ENTRY_SIZE: u64 = 16;

/// The register offset of the doorbell number `n` with the doorbell stride
/// `dstrd`: doorbells start at 0x1000 and lie `4 << dstrd` bytes apart.
pub open spec fn doorbell_offset(n: int, dstrd: u8) -> int {
    0x1000 + n * (4 * pow2(dstrd as nat))
}

/// The kinds of queue: submission or completion.
pub trait QueueKind {
    /// The doorbell number of the queue `queue_id` of this kind.
    spec fn doorbell_index(queue_id: u16) -> int;

    /// The register offset of the doorbell of queue `queue_id`.
    fn doorbell(queue_id: u16, dstrd: u8) -> (r: u32)
        requires
            dstrd < 30,
            doorbell_offset(Self::doorbell_index(queue_id), dstrd) <= u32::MAX,
        ensures
            r == doorbell_offset(Self::doorbell_index(queue_id), dstrd),
    ;
}

/// A submission queue.
pub struct Submission;

/// A completion queue.
pub struct Completion;

proof fn lemma_stride(dstrd: u8)
    requires
        dstrd < 30,
    ensures
        4u32 << dstrd as u32 == 4 * pow2(dstrd as nat),
        4 * pow2(dstrd as nat) <= u32::MAX,
{
    vstd::arithmetic::power2::lemma2_to64();
    if dstrd < 29 {
        vstd::arithmetic::power2::lemma_pow2_strictly_increases(dstrd as nat, 29);
    }
    vstd::bits::lemma_u32_shl_is_mul(4, dstrd as u32);
}

impl QueueKind for Submission {
    open spec fn doorbell_index(queue_id: u16) -> int {
        2 * queue_id
    }

    fn doorbell(queue_id: u16, dstrd: u8) -> (r: u32) {
        proof {
            lemma_stride(dstrd);
            vstd::arithmetic::power2::lemma_pow2_pos(dstrd as nat);
            assert(2 * queue_id * (4 * pow2(dstrd as nat)) >= 0) by (nonlinear_arith)
                requires queue_id >= 0;
        }
        0x1000 + (2 * queue_id as u32) * (4 << dstrd as u32)
    }
}

impl QueueKind for Completion {
    open spec fn doorbell_index(queue_id: u16) -> int {
        2 * queue_id + 1
    }

    fn doorbell(queue_id: u16, dstrd: u8) -> (r: u32) {
        proof {
            lemma_stride(dstrd);
            vstd::arithmetic::power2::lemma_pow2_pos(dstrd as nat);
            assert((2 * queue_id + 1) * (4 * pow2(dstrd as nat)) >= 0) by (nonlinear_arith)
                requires queue_id >= 0;
        }
        0x1000 + (2 * queue_id as u32 + 1) * (4 << dstrd as u32)
    }
}

/// The position of a ring queue: its size field, tail and head indices,
/// and the phase expected of the next completion.
#[derive(Debug, Clone, Copy)]
pub struct RingQueueState {
    pub size: u64,
    pub tail: u16,
    pub head: u16,
    pub phase: bool,
}

/// The state after the head moves one entry on: past the entry at index
/// `size` (taken modulo 2^16) it wraps to 0 and the expected phase flips.
pub open spec fn advance_head_spec(s: RingQueueState) -> RingQueueState {
    if s.head + 1 > (s.size % 0x1_0000) {
        RingQueueState { head: 0, phase: !s.phase, ..s }
    } else {
        RingQueueState { head: (s.head + 1) as u16, ..s }
    }
}

/// The state after `n` moves of the head.
pub open spec fn advance_head_n(s: RingQueueState, n: nat) -> RingQueueState
    decreases n,
{
    if n == 0 {
        s
    } else {
        advance_head_spec(advance_head_n(s, (n - 1) as nat))
    }
}

impl Default for RingQueueState {
    fn default() -> (r: Self)
        ensures
            r.size == 0 && r.tail == 0 && r.head == 0 && r.phase,
    {
        RingQueueState { size: 0, tail: 0, head: 0, phase: true }
    }
}

impl RingQueueState {
    /// A queue of size field `size` at its start, expecting phase 1.
    pub fn new(size: u64) -> (r: Self)
        ensures
            r.size == size && r.tail == 0 && r.head == 0 && r.phase,
    {
        let mut state = RingQueueState::default();
        state.size = size;
        state
    }

    /// Moves the tail on by one after a submission: to `tail + 1` modulo the
    /// size field taken modulo 2^16.
    pub fn advance_tail(&mut self)
        requires
            old(self).size % 0x1_0000 != 0,
            old(self).tail < u16::MAX,
        ensures
            final(self).tail == (old(self).tail + 1) % ((old(self).size % 0x1_0000) as int),
            final(self).head == old(self).head,
            final(self).phase == old(self).phase,
            final(self).size == old(self).size,
    {
        let size16 = (self.size % 0x1_0000) as u16;
        self.tail = (self.tail + 1) % size16;
    }

    /// Moves the head on by one after a completion, as `advance_head_spec`
    /// describes.
    pub fn advance_head(&mut self)
        requires
            old(self).head < u16::MAX,
        ensures
            *final(self) == advance_head_spec(*old(self)),
    {
        let size16 = (self.size % 0x1_0000) as u16;
        self.head = self.head + 1;
        if self.head > size16 {
            self.head = 0;
            self.phase = !self.phase;
        }
    }
}

/// From the start of the ring, `k` moves of the head (up to the size
/// field) keep the phase and reach index `k`; one more move wraps to 0 and
/// flips the phase: a full lap inverts the expected phase exactly once.
pub proof fn lemma_head_lap(s: RingQueueState, k: nat)
    requires
        s.head == 0,
        s.size % 0x1_0000 < u16::MAX,
        k <= s.size % 0x1_0000 + 1,
    ensures
        k <= s.size % 0x1_0000 ==> advance_head_n(s, k).head == k && advance_head_n(s, k).phase == s.phase,
        k == s.size % 0x1_0000 + 1 ==> advance_head_n(s, k).head == 0 && advance_head_n(s, k).phase == !s.phase,
        advance_head_n(s, k).size == s.size,
    decreases k,
{
    if k > 0 {
        lemma_head_lap(s, (k - 1) as nat);
    }
}

/// The I/O queue pairs.
pub struct Io;

/// A queue of kind `K`: its identifier, the memory that holds its entries,
/// its position, and the offset of its doorbell register.
pub struct Queue<K: QueueKind> {
    pub id: u16,
    pub region: Option<MappedRegion>,
    pub state: RingQueueState,
    pub doorbell: u32,
    pub _phantom: PhantomData<K>,
}

impl<K: QueueKind> Queue<K> {
    /// The queue `id` of kind `K` with its doorbell for the stride `dstrd`.
    pub fn new(id: u16, region: Option<MappedRegion>, state: RingQueueState, dstrd: u8) -> (r: Queue<K>)
        requires
            dstrd < 30,
            doorbell_offset(K::doorbell_index(id), dstrd) <= u32::MAX,
        ensures
            r.id == id,
            r.region == region,
            r.state == state,
            r.doorbell == doorbell_offset(K::doorbell_index(id), dstrd),
    {
        let doorbell = K::doorbell(id, dstrd);
        Queue { id, region, state, doorbell, _phantom: PhantomData }
    }

    /// The physical address of the queue's memory, if it has any.
    pub fn phys(&self) -> (r: Option<u64>)
        ensures
            r == (match self.region {
                Some(reg) => Some(reg.phys_spec()),
                None => None::<u64>,
            }),
    {
        match &self.region {
            Some(r) => Some(r.phys().as_u64()),
            None => None,
        }
    }

    /// The virtual address of the queue's memory, if it has any.
    pub fn virt(&self) -> (r: Option<u64>)
        ensures
            r == (match self.region {
                Some(reg) => Some(reg.virt_spec()),
                None => None::<u64>,
            }),
    {
        match &self.region {
            Some(r) => Some(r.virt().as_u64()),
            None => None,
        }
    }

    /// The virtual address of the entry at `index` for entries of
    /// `entry_size` bytes, if the queue has memory.
    pub fn slot(&self, index: u16, entry_size: u64) -> (r: Option<u64>)
        requires
            self.region matches Some(reg) ==> reg.virt_spec() + index * entry_size <= u64::MAX,
        ensures
            r == (match self.region {
                Some(reg) => Some((reg.virt_spec() + index * entry_size) as u64),
                None => None::<u64>,
            }),
    {
        match self.virt() {
            Some(v) => {
                proof {
                    assert(index * entry_size >= 0) by (nonlinear_arith)
                        requires index >= 0, entry_size >= 0;
                }
                Some(v + (index as u64) * entry_size)
            },
            None => None,
        }
    }
}

} // verus!
