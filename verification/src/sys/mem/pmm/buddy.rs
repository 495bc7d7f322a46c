use vstd::prelude::*;
use vstd::arithmetic::power2::{pow2, lemma_pow2_pos, lemma2_to64, lemma_pow2_strictly_increases, lemma_pow2_unfold};
use vstd::arithmetic::div_mod::{lemma_fundamental_div_mod, lemma_mod_multiples_basic};
use vstd::bits::{lemma_usize_shl_is_mul, lemma_usize_shr_is_div, lemma_usize_pow2_no_overflow};
use crate::util::bitmap::Bitmap;
use crate::sys::mem::addr::{PhysAddr, VirtAddr};
use crate::sys::mem::frame::PhysFrame;
use crate::sys::mem::page::Size4KiB;

verus! {

/// The largest block order: a block of order `n` spans `2^n` frames, so the
/// largest block is 4096 * 2^10 bytes (4 MiB).
pub const MAX_ORDER: usize = 10;

/// The size of a frame in bytes.
pub const PAGE_SIZE: u64 = 0x1000;

/// The number of blocks of order `order` that cover `total` frames:
/// `total / 2^order`, rounded up.
pub open spec fn bits_at_order(total: int, order: nat) -> int {
    if total % (pow2(order) as int) == 0 {
        total / (pow2(order) as int)
    } else {
        total / (pow2(order) as int) + 1
    }
}

/// The number of bytes that hold `bits_at_order(total, order)` bits.
pub open spec fn bytes_at_order(total: int, order: nat) -> int {
    let bits = bits_at_order(total, order);
    if bits % 8 == 0 { bits / 8 } else { bits / 8 + 1 }
}

/// The bytes of the bitmaps of the orders below `n`.
pub open spec fn bytes_below_order(total: int, n: nat) -> int
    decreases n,
{
    if n == 0 {
        0
    } else {
        bytes_below_order(total, (n - 1) as nat) + bytes_at_order(total, (n - 1) as nat)
    }
}

/// The index of the lowest clear bit of `b`, if any.
pub open spec fn first_clear(b: Seq<bool>) -> Option<int> {
    if exists|i: int| 0 <= i < b.len() && !#[trigger] b[i] {
        Some(choose|i: int| 0 <= i < b.len() && !b[i] && forall|j: int| 0 <= j < i ==> #[trigger] b[j])
    } else {
        None
    }
}

/// The bitmaps, and the frame index handed out, after allocating a block of
/// order `order`: the lowest clear bit of the order's bitmap gives the block;
/// when there is none, a block of the next order is split, and the upper
/// half (its buddy) is marked in this order's bitmap when it lies below
/// `total` frames.
pub open spec fn alloc_model(bm: Seq<Option<Seq<bool>>>, total: int, order: nat) -> (Seq<Option<Seq<bool>>>, Option<int>)
    decreases MAX_ORDER + 1 - order,
{
    if order > MAX_ORDER {
        (bm, None)
    } else if bm[order as int] is None {
        (bm, None)
    } else {
        let b = bm[order as int].unwrap();
        match first_clear(b) {
            Some(i) => (bm, Some(i * pow2(order))),
            None => {
                let (bm2, parent) = alloc_model(bm, total, order + 1);
                match parent {
                    None => (bm2, None),
                    Some(p) => {
                        let buddy = p + pow2(order);
                        if buddy < total {
                            (bm2.update(order as int, Some(bm2[order as int].unwrap().update(buddy / pow2(order) as int, true))), Some(p))
                        } else {
                            (bm2, Some(p))
                        }
                    },
                }
            },
        }
    }
}

/// The buddy of block `block`: the other half of the block of the next order.
pub open spec fn buddy_of(block: int) -> int {
    if block % 2 == 0 { block + 1 } else { block - 1 }
}

/// The bitmaps after freeing the block of order `order` that holds frame
/// `frame`: when its buddy is marked, the buddy is unmarked and the merged
/// block of the next order is freed; otherwise the block is marked.
pub open spec fn free_model(bm: Seq<Option<Seq<bool>>>, total: int, frame: int, order: nat) -> Seq<Option<Seq<bool>>>
    decreases MAX_ORDER + 1 - order,
{
    if order > MAX_ORDER {
        bm
    } else {
        let block = frame / pow2(order) as int;
        let buddy = buddy_of(block);
        let buddy_free = buddy < bits_at_order(total, order) && match bm[order as int] {
            Some(b) => b[buddy],
            None => false,
        };
        if buddy_free {
            let bm2 = bm.update(order as int, Some(bm[order as int].unwrap().update(buddy, false)));
            free_model(bm2, total, (block - block % 2) * pow2(order), order + 1)
        } else {
            match bm[order as int] {
                Some(b) => bm.update(order as int, Some(b.update(block, true))),
                None => bm,
            }
        }
    }
}

/// `bm` holds one bitmap slot per order, and each present bitmap has one
/// bit per block of its order.
pub open spec fn shapes_ok(bm: Seq<Option<Seq<bool>>>, total: int) -> bool {
    &&& bm.len() == MAX_ORDER + 1
    &&& forall|o: int| 0 <= o <= MAX_ORDER ==> (#[trigger] bm[o] matches Some(b) ==> b.len() == bits_at_order(total, o as nat))
}

/// The bitmaps of a new allocator of `total` frames: one per order that
/// has blocks, every block marked allocated.
pub open spec fn initial_bitmaps(total: int) -> Seq<Option<Seq<bool>>> {
    Seq::new(
        (MAX_ORDER + 1) as nat,
        |o: int|
            if bytes_at_order(total, o as nat) > 0 {
                Some(Seq::new(bits_at_order(total, o as nat) as nat, |i: int| false))
            } else {
                None
            },
    )
}

/// The bitmaps after freeing, one after the other at order 0, the frames of
/// `frames` that lie below `total`.
pub open spec fn free_frames(bm: Seq<Option<Seq<bool>>>, total: int, frames: Seq<usize>) -> Seq<Option<Seq<bool>>>
    decreases frames.len(),
{
    if frames.len() == 0 {
        bm
    } else {
        let before = free_frames(bm, total, frames.drop_last());
        if frames.last() < total {
            free_model(before, total, frames.last() as int, 0)
        } else {
            before
        }
    }
}

/// A buddy allocator of physical frames: for each order, a bitmap with one
/// bit per block of `2^order` frames, a set bit marking a free block.
pub struct BuddyFrameAllocator {
    bitmaps: Vec<Option<Bitmap>>,
    total_frames: usize,
    phys_offset: VirtAddr,
}

impl BuddyFrameAllocator {
    /// The bits of each order's bitmap, or `None` where the order has none.
    pub closed spec fn view(&self) -> Seq<Option<Seq<bool>>> {
        self.bitmaps@.map_values(|o: Option<Bitmap>| match o {
            Some(b) => Some(b@),
            None => None,
        })
    }

    /// The number of frames the allocator manages.
    pub closed spec fn total(&self) -> int {
        self.total_frames as int
    }

    /// The bitmaps have the shape of `total` frames, and frame numbers and
    /// frame addresses of the managed memory fit their integer types.
    pub closed spec fn wf(&self) -> bool {
        &&& self.bitmaps@.len() == MAX_ORDER + 1
        &&& forall|o: int| 0 <= o <= MAX_ORDER ==> (#[trigger] self.bitmaps@[o] matches Some(b) ==> b.wf())
        &&& shapes_ok(self@, self.total_frames as int)
        &&& self.total_frames as int * 4096 <= u64::MAX
        &&& self.total_frames as int + 1024 <= usize::MAX
    }

    /// An allocator of `total_frames` frames whose memory is mapped at
    /// `phys_offset`: a bitmap per order that has blocks, with every block
    /// allocated, and then each usable frame (by index; those at or past
    /// `total_frames` are skipped) freed at order 0.
    pub fn new(total_frames: usize, phys_offset: VirtAddr, usable_frames: &[usize]) -> (r: Self)
        requires
            total_frames as int * 4096 <= u64::MAX,
            total_frames as int + 1024 <= usize::MAX,
        ensures
            r.wf(),
            r.total() == total_frames,
            r@ == free_frames(initial_bitmaps(total_frames as int), total_frames as int, usable_frames@),
    {
        let mut bitmaps: Vec<Option<Bitmap>> = Vec::new();
        let mut order: usize = 0;
        while order <= MAX_ORDER
            invariant
                order <= MAX_ORDER + 1,
                bitmaps@.len() == order,
                total_frames as int + 1024 <= usize::MAX,
                forall|o: int| 0 <= o < order ==> (#[trigger] bitmaps@[o] matches Some(b) ==> b.wf()),
                forall|o: int|
                    0 <= o < order ==> (match #[trigger] bitmaps@[o] {
                        Some(b) => Some(b@),
                        None => None,
                    }) == initial_bitmaps(total_frames as int)[o],
            decreases MAX_ORDER + 1 - order,
        {
            let byte_len = Self::bitmap_bytes_at_order(total_frames, order);
            let blocks = Self::bitmap_bits_at_order(total_frames, order);
            proof {
                lemma_pow2_pos(order as nat);
                assert(blocks <= total_frames) by (nonlinear_arith)
                    requires
                        blocks == bits_at_order(total_frames as int, order as nat),
                        pow2(order as nat) > 0,
                ;
            }
            if byte_len > 0 {
                let b = Bitmap::new(blocks);
                proof {
                    assert(b@ =~= Seq::new(bits_at_order(total_frames as int, order as nat) as nat, |i: int| false));
                }
                bitmaps.push(Some(b));
            } else {
                bitmaps.push(None);
            }
            order = order + 1;
        }
        let mut allocator = BuddyFrameAllocator { bitmaps, phys_offset, total_frames };
        proof {
            assert(allocator@ =~= initial_bitmaps(total_frames as int));
        }
        let mut i: usize = 0;
        while i < usable_frames.len()
            invariant
                i <= usable_frames@.len(),
                allocator.wf(),
                allocator.total() == total_frames,
                allocator@ == free_frames(initial_bitmaps(total_frames as int), total_frames as int, usable_frames@.take(i as int)),
            decreases usable_frames@.len() - i,
        {
            proof {
                assert(usable_frames@.take(i + 1).drop_last() =~= usable_frames@.take(i as int));
            }
            let frame_idx = usable_frames[i];
            if frame_idx < total_frames {
                allocator.free_order(frame_idx, 0);
            }
            i = i + 1;
        }
        proof {
            assert(usable_frames@.take(usable_frames@.len() as int) =~= usable_frames@);
        }
        allocator
    }

    /// The number of blocks of order `order` that cover `total_frames`
    /// frames.
    pub fn bitmap_bits_at_order(total_frames: usize, order: usize) -> (r: usize)
        requires
            order < usize::BITS,
        ensures
            r == bits_at_order(total_frames as int, order as nat),
    {
        proof {
            lemma_pow2_fits(order as nat);
            lemma_usize_shl_is_mul(1, order);
        }
        let d: usize = 1usize << order;
        let q = total_frames / d;
        if total_frames % d == 0 {
            q
        } else {
            proof {
                assert(q < usize::MAX) by (nonlinear_arith)
                    requires q == total_frames / d, total_frames % d != 0, d > 0, total_frames <= usize::MAX;
            }
            q + 1
        }
    }

    /// The number of bytes of the bitmap of order `order`.
    pub fn bitmap_bytes_at_order(total_frames: usize, order: usize) -> (r: usize)
        requires
            order < usize::BITS,
        ensures
            r == bytes_at_order(total_frames as int, order as nat),
    {
        let bits = Self::bitmap_bits_at_order(total_frames, order);
        if bits % 8 == 0 { bits / 8 } else { bits / 8 + 1 }
    }

    /// The bytes of the bitmaps of all orders together.
    pub fn total_bitmap_bytes(total_frames: usize) -> (r: usize)
        requires
            bytes_below_order(total_frames as int, (MAX_ORDER + 1) as nat) <= usize::MAX,
        ensures
            r == bytes_below_order(total_frames as int, (MAX_ORDER + 1) as nat),
    {
        let mut sum: usize = 0;
        let mut o: usize = 0;
        while o <= MAX_ORDER
            invariant
                o <= MAX_ORDER + 1,
                sum == bytes_below_order(total_frames as int, o as nat),
                bytes_below_order(total_frames as int, (MAX_ORDER + 1) as nat) <= usize::MAX,
            decreases MAX_ORDER + 1 - o,
        {
            proof {
                lemma_bytes_below_monotonic(total_frames as int, (o + 1) as nat, (MAX_ORDER + 1) as nat);
            }
            sum = sum + Self::bitmap_bytes_at_order(total_frames, o);
            o = o + 1;
        }
        sum
    }

    /// The bytes of all bitmaps, rounded up to whole frames.
    pub fn bitmap_frames_needed(total_frames: usize) -> (r: usize)
        requires
            bytes_below_order(total_frames as int, (MAX_ORDER + 1) as nat) + 4096 <= usize::MAX,
        ensures
            ({
                let bytes = bytes_below_order(total_frames as int, (MAX_ORDER + 1) as nat);
                r == (if bytes % 4096 == 0 { bytes } else { bytes + 4096 - bytes % 4096 })
            }),
    {
        let bytes = Self::total_bitmap_bytes(total_frames);
        proof {
            crate::util::align::lemma_page_sizes_are_powers_of_two();
        }
        crate::util::align::align_up(bytes, PAGE_SIZE as usize)
    }

    /// Sets bit `bit` of the bitmap of order `order`; nothing else changes.
    fn mark_at(&mut self, order: usize, bit: usize, value: bool)
        requires
            old(self).wf(),
            order <= MAX_ORDER,
            old(self)@[order as int] is Some,
            bit < old(self)@[order as int].unwrap().len(),
        ensures
            final(self).wf(),
            final(self).total() == old(self).total(),
            final(self)@ == old(self)@.update(order as int, Some(old(self)@[order as int].unwrap().update(bit as int, value))),
    {
        let ghost pre = self@;
        proof {
            assert(pre[order as int] == (match self.bitmaps@[order as int] {
                Some(b) => Some(b@),
                None => None,
            }));
        }
        match &mut self.bitmaps[order] {
            Some(b) => {
                if value {
                    b.set(bit);
                } else {
                    b.clear(bit);
                }
            },
            None => {},
        }
        proof {
            let post = pre.update(order as int, Some(pre[order as int].unwrap().update(bit as int, value)));
            assert(self@ =~= post);
            assert forall|o: int| 0 <= o <= MAX_ORDER implies (#[trigger] post[o] matches Some(b) ==> b.len() == bits_at_order(self.total_frames as int, o as nat)) by {
                if o != order as int {
                    assert(post[o] == pre[o]);
                }
            }
        }
    }

    /// Allocates a block of order `order` and returns its first frame, as
    /// `alloc_model` describes; `None` when the order is above `MAX_ORDER`,
    /// has no bitmap, or no block can be found or split off.
    pub fn alloc_order(&mut self, order: usize) -> (r: Option<PhysFrame<Size4KiB>>)
        requires
            old(self).wf(),
        ensures
            final(self).wf(),
            final(self).total() == old(self).total(),
            final(self)@ == alloc_model(old(self)@, old(self).total(), order as nat).0,
            match r {
                Some(f) => f.start_spec() % 4096 == 0
                    && alloc_model(old(self)@, old(self).total(), order as nat).1 == Some(f.start_spec() as int / 4096),
                None => alloc_model(old(self)@, old(self).total(), order as nat).1 is None,
            },
            r matches Some(f) ==> f.start_spec() / 4096 < old(self).total()
                && (f.start_spec() / 4096) as int % (pow2(order as nat) as int) == 0,
        decreases MAX_ORDER + 1 - order,
    {
        proof {
            lemma_alloc_model(self@, self.total(), order as nat);
        }
        if order > MAX_ORDER {
            return None;
        }
        proof {
            lemma_pow2_fits(order as nat);
        }
        let first = match &self.bitmaps[order] {
            None => {
                return None;
            },
            Some(b) => b.first_empty(),
        };
        if let Some(block_idx) = first {
            proof {
                lemma_block_in_range(block_idx as int, self.total(), order as nat);
                lemma_usize_shl_is_mul(block_idx, order);
            }
            let ghost pre = self@;
            self.mark_at(order, block_idx, false);
            proof {
                assert(pre[order as int].unwrap().update(block_idx as int, false) =~= pre[order as int].unwrap());
                assert(self@ =~= pre);
            }
            let frame_idx = block_idx << order;
            let addr = frame_idx as u64 * PAGE_SIZE;
            proof {
                assert(addr % 4096 == 0 && addr / 4096 == frame_idx) by (nonlinear_arith)
                    requires addr == frame_idx * 4096;
            }
            return Some(PhysFrame::containing_address(PhysAddr::new(addr)));
        }
        let ghost pre = self@;
        proof {
            lemma_alloc_model(pre, self.total(), (order + 1) as nat);
            lemma_alloc_split(pre, self.total(), order as nat);
        }
        let parent = match self.alloc_order(order + 1) {
            Some(p) => p,
            None => {
                return None;
            },
        };
        proof {
            assert(alloc_model(pre, self.total(), (order + 1) as nat).1 == Some(parent.start_spec() as int / 4096));
            assert(self@[order as int] == pre[order as int]);
        }
        let parent_frame_idx = (parent.start_addr().as_u64() / PAGE_SIZE) as usize;
        proof {
            lemma_usize_shl_is_mul(1, order);
            assert(parent_frame_idx < self.total_frames);
        }
        let buddy_frame_idx = parent_frame_idx + (1usize << order);
        if buddy_frame_idx < self.total_frames {
            let bitmap_idx = buddy_frame_idx >> order;
            proof {
                lemma_usize_shr_is_div(buddy_frame_idx, order);
                assert(self@[order as int] == (match self.bitmaps@[order as int] {
                    Some(b) => Some(b@),
                    None => None,
                }));
            }
            if self.bitmaps[order].is_none() {
                return None;
            }
            self.mark_at(order, bitmap_idx, true);
        }
        Some(parent)
    }

    /// Frees the block of order `order` that holds frame `frame_idx`, as
    /// `free_model` describes: a free buddy is merged into the block of the
    /// next order.
    pub fn free_order(&mut self, frame_idx: usize, order: usize)
        requires
            old(self).wf(),
            frame_idx < old(self).total(),
        ensures
            final(self).wf(),
            final(self).total() == old(self).total(),
            final(self)@ == free_model(old(self)@, old(self).total(), frame_idx as int, order as nat),
        decreases MAX_ORDER + 1 - order,
    {
        if order > MAX_ORDER {
            return;
        }
        proof {
            lemma_pow2_fits(order as nat);
            lemma_usize_shr_is_div(frame_idx, order);
            lemma_index_below_bits(frame_idx as int, self.total(), order as nat);
        }
        let block_idx = frame_idx >> order;
        let buddy_idx = block_idx ^ 1;
        proof {
            lemma_buddy_bits(block_idx);
            assert(self@[order as int] == (match self.bitmaps@[order as int] {
                Some(b) => Some(b@),
                None => None,
            }));
        }
        let buddy_free = buddy_idx < Self::bitmap_bits_at_order(self.total_frames, order)
            && match &self.bitmaps[order] {
            Some(b) => b.get(buddy_idx),
            None => false,
        };
        if buddy_free {
            self.mark_at(order, buddy_idx, false);
            let parent_idx = (block_idx & !1usize) << order;
            proof {
                lemma_parent_index(block_idx as int, frame_idx as int, order as nat);
                lemma_usize_shl_is_mul((block_idx & !1usize), order);
            }
            self.free_order(parent_idx, order + 1);
        } else {
            if self.bitmaps[order].is_some() {
                self.mark_at(order, block_idx, true);
            }
        }
    }
}

/// A block below `bits_at_order` starts below `total` frames.
proof fn lemma_block_in_range(i: int, total: int, order: nat)
    requires
        0 <= i < bits_at_order(total, order),
        total >= 0,
    ensures
        i * pow2(order) < total,
{
    lemma_pow2_pos(order);
    let d = pow2(order) as int;
    assert(i * d < total) by (nonlinear_arith)
        requires
            d > 0,
            0 <= i,
            i < (if total % d == 0 { total / d } else { total / d + 1 }),
            total >= 0,
    ;
}

/// A frame below `total` lies in a block below `bits_at_order`.
proof fn lemma_index_below_bits(f: int, total: int, order: nat)
    requires
        0 <= f < total,
    ensures
        f / (pow2(order) as int) < bits_at_order(total, order),
{
    lemma_pow2_pos(order);
    let d = pow2(order) as int;
    assert(f / d < (if total % d == 0 { total / d } else { total / d + 1 })) by (nonlinear_arith)
        requires d > 0, 0 <= f < total;
}

proof fn lemma_buddy_bits(b: usize)
    ensures
        b ^ 1usize == buddy_of(b as int),
        b & !1usize == b - b % 2,
{
    assert(b ^ 1usize == (if b % 2 == 0 { b + 1 } else { b - 1 })) by (bit_vector);
    assert(b & !1usize == b - b % 2) by (bit_vector);
}

proof fn lemma_parent_index(block: int, f: int, order: nat)
    requires
        block == f / pow2(order) as int,
        f >= 0,
    ensures
        (block - block % 2) * pow2(order) <= f,
        (block - block % 2) * pow2(order) >= 0,
{
    lemma_pow2_pos(order);
    let d = pow2(order) as int;
    assert((block - block % 2) * d <= f && (block - block % 2) * d >= 0) by (nonlinear_arith)
        requires block == f / d, d > 0, f >= 0;
}

/// Allocation leaves the shapes of the bitmaps and the orders below `order`
/// as they were, and hands out a frame index that is a multiple of the
/// order's block size and lies below `total`.
pub proof fn lemma_alloc_model(bm: Seq<Option<Seq<bool>>>, total: int, order: nat)
    requires
        shapes_ok(bm, total),
        total >= 0,
    ensures
        shapes_ok(alloc_model(bm, total, order).0, total),
        forall|j: int| 0 <= j < order && j <= MAX_ORDER ==> #[trigger] alloc_model(bm, total, order).0[j] == bm[j],
        alloc_model(bm, total, order).1 matches Some(p) ==> 0 <= p < total && p % (pow2(order) as int) == 0,
    decreases MAX_ORDER + 1 - order,
{
    lemma_pow2_pos(order);
    if order > MAX_ORDER || bm[order as int] is None {
    } else {
        let b = bm[order as int].unwrap();
        lemma_first_clear(b);
        match first_clear(b) {
            Some(i) => {
                assert(b.len() == bits_at_order(total, order));
                lemma_block_in_range(i, total, order);
                lemma_multiple(i, pow2(order) as int);
            },
            None => {
                lemma_alloc_model(bm, total, order + 1);
                lemma_alloc_split(bm, total, order);
            },
        }
    }
}

proof fn lemma_alloc_split(bm: Seq<Option<Seq<bool>>>, total: int, order: nat)
    requires
        shapes_ok(bm, total),
        total >= 0,
        order <= MAX_ORDER,
        shapes_ok(alloc_model(bm, total, order + 1).0, total),
        forall|j: int| 0 <= j < order + 1 && j <= MAX_ORDER ==> #[trigger] alloc_model(bm, total, order + 1).0[j] == bm[j],
        alloc_model(bm, total, order + 1).1 matches Some(p) ==> 0 <= p < total && p % (pow2(order + 1) as int) == 0,
    ensures
        alloc_model(bm, total, order + 1).1 matches Some(p) ==> ({
            let buddy = p + pow2(order);
            &&& p % (pow2(order) as int) == 0
            &&& (buddy < total ==> 0 <= buddy / (pow2(order) as int) < bits_at_order(total, order))
        }),
{
    let (bm2, parent) = alloc_model(bm, total, order + 1);
    match parent {
        None => {},
        Some(p) => {
            lemma_pow2_pos(order);
            let d = pow2(order) as int;
            lemma_pow2_unfold(order + 1);
            lemma_mod_double(p, d);
            let buddy = p + d;
            if buddy < total {
                lemma_index_below_bits(buddy, total, order);
            }
        },
    }
}

proof fn lemma_multiple(i: int, d: int)
    requires
        d > 0,
    ensures
        (i * d) % d == 0,
{
    assert((i * d) % d == 0) by (nonlinear_arith) requires d > 0;
}

proof fn lemma_mod_double(p: int, d: int)
    requires
        d > 0,
        p % (2 * d) == 0,
    ensures
        p % d == 0,
{
    let q = p / (2 * d);
    lemma_fundamental_div_mod(p, 2 * d);
    assert(p == d * (2 * q)) by (nonlinear_arith) requires p == (2 * d) * q + p % (2 * d), p % (2 * d) == 0;
    lemma_mod_multiples_basic(2 * q, d);
    assert((2 * q) * d == d * (2 * q)) by (nonlinear_arith);
}

proof fn lemma_first_clear(b: Seq<bool>)
    ensures
        first_clear(b) matches Some(i) ==> 0 <= i < b.len() && !b[i] && forall|j: int| 0 <= j < i ==> #[trigger] b[j],
        first_clear(b) is None ==> forall|j: int| 0 <= j < b.len() ==> #[trigger] b[j],
{
    if exists|i: int| 0 <= i < b.len() && !#[trigger] b[i] {
        let k = choose|i: int| 0 <= i < b.len() && !#[trigger] b[i];
        lemma_least_clear(b, k);
    }
}

proof fn lemma_least_clear(b: Seq<bool>, k: int)
    requires
        0 <= k < b.len(),
        !b[k],
    ensures
        exists|i: int| 0 <= i < b.len() && !b[i] && forall|j: int| 0 <= j < i ==> #[trigger] b[j],
    decreases k,
{
    if forall|j: int| 0 <= j < k ==> #[trigger] b[j] {
    } else {
        let k2 = choose|j: int| 0 <= j < k && !#[trigger] b[j];
        lemma_least_clear(b, k2);
    }
}

proof fn lemma_pow2_fits(n: nat)
    requires
        n < usize::BITS,
    ensures
        0 < pow2(n) < usize::MAX,
        n <= MAX_ORDER ==> pow2(n) <= 1024,
{
    lemma_usize_pow2_no_overflow(n);
    lemma2_to64();
    if n < 10 {
        lemma_pow2_strictly_increases(n, 10);
    }
}

proof fn lemma_bytes_below_monotonic(total: int, a: nat, b: nat)
    requires
        a <= b,
        total >= 0,
    ensures
        bytes_below_order(total, a) <= bytes_below_order(total, b),
    decreases b - a,
{
    if a < b {
        lemma_bytes_below_monotonic(total, a, (b - 1) as nat);
        lemma_bytes_nonneg(total, (b - 1) as nat);
    }
}

proof fn lemma_bytes_nonneg(total: int, o: nat)
    requires
        total >= 0,
    ensures
        bytes_at_order(total, o) >= 0,
        bits_at_order(total, o) >= 0,
{
    lemma_pow2_pos(o);
}

} // verus!
