use vstd::prelude::*;
use vstd::std_specs::bits::{u8_trailing_ones, axiom_u8_trailing_ones};

verus! {

/// Bit `k` (counted from the least significant end) of `byte`.
pub open spec fn byte_bit(byte: u8, k: int) -> bool {
    (byte >> (k as u8)) & 1u8 == 1u8
}

proof fn lemma_byte_set_bit(b: u8, k: u8)
    requires
        k < 8,
    ensures
        forall|j: u8| j < 8 ==> #[trigger] byte_bit(b | (1u8 << k), j as int) == (j == k || byte_bit(b, j as int)),
{
    assert forall|j: u8| j < 8 implies #[trigger] byte_bit(b | (1u8 << k), j as int) == (j == k || byte_bit(b, j as int)) by {
        assert(((b | (1u8 << k)) >> j) & 1u8 == 1u8 <==> (j == k || (b >> j) & 1u8 == 1u8)) by (bit_vector)
            requires k < 8, j < 8;
    }
}

proof fn lemma_byte_clear_bit(b: u8, k: u8)
    requires
        k < 8,
    ensures
        forall|j: u8| j < 8 ==> #[trigger] byte_bit(b & !(1u8 << k), j as int) == (j != k && byte_bit(b, j as int)),
{
    assert forall|j: u8| j < 8 implies #[trigger] byte_bit(b & !(1u8 << k), j as int) == (j != k && byte_bit(b, j as int)) by {
        assert(((b & !(1u8 << k)) >> j) & 1u8 == 1u8 <==> (j != k && (b >> j) & 1u8 == 1u8)) by (bit_vector)
            requires k < 8, j < 8;
    }
}

proof fn lemma_zero_byte_bits()
    ensures
        forall|j: u8| j < 8 ==> !#[trigger] byte_bit(0u8, j as int),
        forall|j: u8| j < 8 ==> #[trigger] byte_bit(0xFFu8, j as int),
{
    assert forall|j: u8| j < 8 implies !#[trigger] byte_bit(0u8, j as int) by {
        assert((0u8 >> j) & 1u8 == 0u8) by (bit_vector);
    }
    assert forall|j: u8| j < 8 implies #[trigger] byte_bit(0xFFu8, j as int) by {
        assert(j < 8 ==> (0xFFu8 >> j) & 1u8 == 1u8) by (bit_vector);
    }
}

/// A fixed-length sequence of bits stored eight to a byte, least
/// significant bit first.
pub struct Bitmap {
    data: Vec<u8>,
    bits: usize,
}

impl Bitmap {
    /// The bits of the map, in order.
    pub closed spec fn view(&self) -> Seq<bool> {
        Seq::new(self.bits as nat, |i: int| byte_bit(self.data@[i / 8], i % 8))
    }

    /// The bytes hold every bit, and bit indices into them do not overflow.
    pub closed spec fn wf(&self) -> bool {
        &&& self.bits <= self.data@.len() * 8
        &&& self.data@.len() * 8 <= usize::MAX
    }

    /// The number of bytes that back the map.
    pub closed spec fn byte_len(&self) -> nat {
        self.data@.len()
    }

    /// A map of `bits` bits, all clear.
    pub fn new(bits: usize) -> (r: Bitmap)
        requires
            bits <= usize::MAX - 7,
        ensures
            r.wf(),
            r@.len() == bits,
            forall|i: int| 0 <= i < bits ==> !#[trigger] r@[i],
            r.byte_len() == bits / 8 + (if bits % 8 == 0 { 0int } else { 1int }),
    {
        let byte_len: usize = if bits % 8 == 0 { bits / 8 } else { bits / 8 + 1 };
        let mut data: Vec<u8> = Vec::new();
        let mut i: usize = 0;
        while i < byte_len
            invariant
                i <= byte_len,
                data@.len() == i,
                forall|j: int| 0 <= j < i ==> data@[j] == 0u8,
            decreases byte_len - i,
        {
            data.push(0u8);
            i = i + 1;
        }
        let r = Bitmap { data, bits };
        proof {
            assert(byte_len * 8 >= bits && byte_len * 8 <= bits + 7) by (nonlinear_arith)
                requires byte_len == (if bits % 8 == 0 { bits as int / 8 } else { bits as int / 8 + 1 });
            lemma_zero_byte_bits();
            assert forall|i: int| 0 <= i < bits implies !#[trigger] r@[i] by {
                assert(r.data@[i / 8] == 0u8);
                assert(!byte_bit(0u8, ((i % 8) as u8) as int));
            }
        }
        r
    }

    /// A map over the given bytes, of which the first `bits` bits count.
    pub fn from_bytes(data: Vec<u8>, bits: usize) -> (r: Bitmap)
        requires
            bits <= data@.len() * 8,
            data@.len() * 8 <= usize::MAX,
        ensures
            r.wf(),
            r@.len() == bits,
            forall|i: int| 0 <= i < bits ==> #[trigger] r@[i] == byte_bit(data@[i / 8], i % 8),
    {
        Bitmap { data, bits }
    }

    /// The number of bits in the map.
    pub fn bit_count(&self) -> (r: usize)
        ensures
            r == self@.len(),
    {
        self.bits
    }

    /// Whether bit `bit` is set.
    pub fn get(&self, bit: usize) -> (r: bool)
        requires
            self.wf(),
            bit < self@.len(),
        ensures
            r == self@[bit as int],
    {
        let byte = self.data[bit / 8];
        let k = (bit % 8) as u8;
        proof {
            assert(((byte >> k) & 1u8 > 0) == ((byte >> k) & 1u8 == 1u8)) by (bit_vector);
        }
        (byte >> k) & 1 > 0
    }

    /// Sets bit `bit`; every other bit stays as it was.
    pub fn set(&mut self, bit: usize)
        requires
            old(self).wf(),
            bit < old(self)@.len(),
        ensures
            final(self).wf(),
            final(self)@ == old(self)@.update(bit as int, true),
            final(self).byte_len() == old(self).byte_len(),
    {
        let idx = bit / 8;
        let k = (bit % 8) as u8;
        let b = self.data[idx];
        proof {
            lemma_byte_set_bit(b, k);
        }
        self.data[idx] = b | (1u8 << k);
        proof {
            assert forall|i: int| 0 <= i < self@.len() implies #[trigger] self@[i] == old(self)@.update(bit as int, true)[i] by {
                if i / 8 == idx as int {
                    assert(byte_bit(b | (1u8 << k), ((i % 8) as u8) as int) == (((i % 8) as u8) == k || byte_bit(b, ((i % 8) as u8) as int)));
                }
            }
            assert(self@ =~= old(self)@.update(bit as int, true));
        }
    }

    /// Clears bit `bit`; every other bit stays as it was.
    pub fn clear(&mut self, bit: usize)
        requires
            old(self).wf(),
            bit < old(self)@.len(),
        ensures
            final(self).wf(),
            final(self)@ == old(self)@.update(bit as int, false),
            final(self).byte_len() == old(self).byte_len(),
    {
        let idx = bit / 8;
        let k = (bit % 8) as u8;
        let b = self.data[idx];
        proof {
            lemma_byte_clear_bit(b, k);
        }
        self.data[idx] = b & !(1u8 << k);
        proof {
            assert forall|i: int| 0 <= i < self@.len() implies #[trigger] self@[i] == old(self)@.update(bit as int, false)[i] by {
                if i / 8 == idx as int {
                    assert(byte_bit(b & !(1u8 << k), ((i % 8) as u8) as int) == (((i % 8) as u8) != k && byte_bit(b, ((i % 8) as u8) as int)));
                }
            }
            assert(self@ =~= old(self)@.update(bit as int, false));
        }
    }

    /// The lowest clear bit, or `None` when every bit is set.
    pub fn first_empty(&self) -> (r: Option<usize>)
        requires
            self.wf(),
        ensures
            match r {
                Some(i) => i < self@.len() && !self@[i as int] && forall|j: int| 0 <= j < i ==> #[trigger] self@[j],
                None => forall|j: int| 0 <= j < self@.len() ==> #[trigger] self@[j],
            },
    {
        let mut byte_idx: usize = 0;
        while byte_idx < self.data.len()
            invariant
                self.wf(),
                byte_idx <= self.data@.len(),
                forall|j: int| 0 <= j < self@.len() && j < byte_idx * 8 ==> #[trigger] self@[j],
            decreases self.data@.len() - byte_idx,
        {
            let byte = self.data[byte_idx];
            if byte != 0xFF {
                let ones = byte.trailing_ones();
                proof {
                    axiom_u8_trailing_ones(byte);
                }
                let bit_idx = ones as usize;
                let idx = byte_idx * 8 + bit_idx;
                if idx < self.bits {
                    proof {
                        assert(idx / 8 == byte_idx as int);
                        assert(idx % 8 == bit_idx as int);
                        assert((byte >> (ones as u8)) & 1u8 == 0u8);
                        assert forall|j: int| 0 <= j < idx implies #[trigger] self@[j] by {
                            if j >= byte_idx * 8 {
                                assert(j / 8 == byte_idx as int);
                                let jj = (j % 8) as u8;
                                assert(jj < u8_trailing_ones(byte));
                                assert((byte >> jj) & 1u8 == 1u8);
                            }
                        }
                    }
                    return Some(idx);
                }
                proof {
                    assert forall|j: int| 0 <= j < self@.len() && j < (byte_idx + 1) * 8 implies #[trigger] self@[j] by {
                        if j >= byte_idx * 8 {
                            assert(j < idx);
                            assert(j / 8 == byte_idx as int);
                            let jj = (j % 8) as u8;
                            assert(jj < u8_trailing_ones(byte));
                            assert((byte >> jj) & 1u8 == 1u8);
                        }
                    }
                }
            } else {
                proof {
                    lemma_zero_byte_bits();
                    assert forall|j: int| 0 <= j < self@.len() && j < (byte_idx + 1) * 8 implies #[trigger] self@[j] by {
                        if j >= byte_idx * 8 {
                            assert(j / 8 == byte_idx as int);
                            assert(byte_bit(0xFFu8, ((j % 8) as u8) as int));
                        }
                    }
                }
            }
            byte_idx = byte_idx + 1;
        }
        None
    }
}

} // verus!
