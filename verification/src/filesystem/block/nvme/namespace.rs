use vstd::prelude::*;
use vstd::arithmetic::power2::pow2;
use crate::io::block::BlockDeviceError;
use crate::filesystem::drivers::nvme::{lba_format_at, read_lba_formats};
use crate::util::le::{le64, read_into, read_le64};

pub use crate::filesystem::drivers::nvme::{IdentifyNamespaceIndependent, IdentifyNamespaceList, LbaFormat, lbaf_index};

verus! {

/// The NVM-specific Identify Namespace data, not yet read field by field.
#[derive(Clone, Copy)]
pub struct IdentifyNamespaceSpecificNvm {
    pub _todo: [u8; 4096],
}

impl IdentifyNamespaceSpecificNvm {
    /// The 4096 bytes of `b`.
    pub fn from_bytes(b: &[u8]) -> (r: Self)
        requires
            b.len() >= 4096,
        ensures
            r._todo@ == b@.subrange(0, 4096),
    {
        let mut data = [0u8; 4096];
        read_into(&mut data, b, 0);
        IdentifyNamespaceSpecificNvm { _todo: data }
    }
}

/// The first fields of the Identify Namespace data structure of the NVM
/// command set.
#[derive(Clone, Copy)]
pub struct IdentifyNamespaceNvm {
    pub nsze: u64,
    pub ncap: u64,
    pub nuse: u64,
    pub nsfeat: u8,
    pub nlbaf: u8,
    pub flbas: u8,
    pub _reserved: [u8; 73],
    pub lbaf: [LbaFormat; 64],
    pub _pad: [u8; 3740],
}

impl IdentifyNamespaceNvm {
    /// The data laid out in the 4096 bytes of `b`: the sizes, features,
    /// format count and formatted size, then the LBA formats from byte 100.
    pub fn from_bytes(b: &[u8]) -> (r: Self)
        requires
            b.len() >= 4096,
        ensures
            r.nsze == le64(b@, 0),
            r.ncap == le64(b@, 8),
            r.nuse == le64(b@, 16),
            r.nsfeat == b@[24],
            r.nlbaf == b@[25],
            r.flbas == b@[26],
            r._reserved@ == b@.subrange(27, 100),
            forall|i: int| 0 <= i < 64 ==> #[trigger] r.lbaf@[i] == lba_format_at(b@, 100 + 4 * i),
            r._pad@ == b@.subrange(356, 4096),
    {
        let mut reserved = [0u8; 73];
        read_into(&mut reserved, b, 27);
        let mut pad = [0u8; 3740];
        read_into(&mut pad, b, 356);
        IdentifyNamespaceNvm {
            nsze: read_le64(b, 0),
            ncap: read_le64(b, 8),
            nuse: read_le64(b, 16),
            nsfeat: b[24],
            nlbaf: b[25],
            flbas: b[26],
            _reserved: reserved,
            lbaf: read_lba_formats(b, 100),
            _pad: pad,
        }
    }

    /// The data size exponent of the LBA format in use.
    pub open spec fn lbads_spec(&self) -> u8 {
        self.lbaf@[lbaf_index(self.flbas)].lbads
    }

    /// The index of the LBA format in use.
    pub fn active_lbaf_idx(&self) -> (r: usize)
        ensures
            r == lbaf_index(self.flbas),
            r < 64,
    {
        let low = (self.flbas & 0xF) as usize;
        let high = ((self.flbas >> 5) & 0x3) as usize;
        proof {
            let f = self.flbas;
            assert(f & 0xFu8 == f % 16 && (f >> 5u8) & 0x3u8 == (f / 32) % 4) by (bit_vector);
            assert((((f / 32) % 4) as usize) << 4usize | ((f % 16) as usize) == ((f / 32) % 4) as int * 16 + (f % 16) as int) by (bit_vector);
        }
        (high << 4) | low
    }

    /// The LBA format in use.
    pub fn active_lbaf(&self) -> (r: LbaFormat)
        ensures
            r == self.lbaf@[lbaf_index(self.flbas)],
    {
        self.lbaf[self.active_lbaf_idx()]
    }

    /// The size of a logical block: 2 to the power of the format's data
    /// size.
    pub fn block_size(&self) -> (r: u32)
        requires
            self.lbads_spec() < 32,
        ensures
            r == pow2(self.lbads_spec() as nat),
    {
        let lbads = self.active_lbaf().lbads;
        proof {
            vstd::bits::lemma_u32_pow2_no_overflow(lbads as nat);
            vstd::bits::lemma_u32_shl_is_mul(1, lbads as u32);
        }
        1u32 << lbads
    }

    /// The number of logical blocks of the namespace.
    pub fn block_count(&self) -> (r: u64)
        ensures
            r == self.nsze,
    {
        self.nsze
    }

    /// The size of the namespace in bytes.
    pub fn size_bytes(&self) -> (r: u64)
        requires
            self.lbads_spec() < 32,
            self.nsze * pow2(self.lbads_spec() as nat) <= u64::MAX,
        ensures
            r == self.nsze * pow2(self.lbads_spec() as nat),
    {
        self.nsze * self.block_size() as u64
    }
}

/// The Identify data of a namespace of the NVM command set.
pub struct NvmNamespaceData {
    pub identify: IdentifyNamespaceNvm,
    pub specific: IdentifyNamespaceSpecificNvm,
}

/// The command set a namespace belongs to, with its data.
pub enum NvmeCommandSet {
    Nvm(NvmNamespaceData),
    KeyValue(),
    Zoned(),
    Computational(),
    SubsystemLocalMemory(),
}

impl NvmeCommandSet {
    /// The logical block size; only NVM namespaces have one.
    pub fn block_size(&self) -> (r: u32)
        requires
            self matches NvmeCommandSet::Nvm(d) && d.identify.lbads_spec() < 32,
        ensures
            self matches NvmeCommandSet::Nvm(d) && r == pow2(d.identify.lbads_spec() as nat),
    {
        match self {
            NvmeCommandSet::Nvm(data) => data.identify.block_size(),
            _ => 0,
        }
    }

    /// The number of logical blocks; only NVM namespaces have one.
    pub fn block_count(&self) -> (r: u64)
        requires
            self is Nvm,
        ensures
            self matches NvmeCommandSet::Nvm(d) && r == d.identify.nsze,
    {
        match self {
            NvmeCommandSet::Nvm(data) => data.identify.block_count(),
            _ => 0,
        }
    }
}

/// A namespace of the controller: the I/O queue pair it uses (by index),
/// its id, its command set with its data, and its command-set-independent
/// data.
pub struct NvmeNamespace {
    pub queue: usize,
    pub nsid: u32,
    pub command_set: NvmeCommandSet,
    pub independent: IdentifyNamespaceIndependent,
}

impl NvmeNamespace {
    /// The logical block size of the namespace, which only NVM namespaces
    /// have.
    pub fn block_size(&self) -> (r: u32)
        requires
            self.command_set matches NvmeCommandSet::Nvm(d) && d.identify.lbads_spec() < 32,
        ensures
            self.command_set matches NvmeCommandSet::Nvm(d) && r == pow2(d.identify.lbads_spec() as nat),
    {
        self.command_set.block_size()
    }

    /// The number of logical blocks of the namespace, which only NVM
    /// namespaces have.
    pub fn block_count(&self) -> (r: u64)
        requires
            self.command_set is Nvm,
        ensures
            self.command_set matches NvmeCommandSet::Nvm(d) && r == d.identify.nsze,
    {
        self.command_set.block_count()
    }

    /// The logical block size of an NVM namespace (0 for others).
    pub open spec fn spec_block_size(&self) -> int {
        match self.command_set {
            NvmeCommandSet::Nvm(d) => pow2(d.identify.lbads_spec() as nat) as int,
            _ => 0,
        }
    }

    /// The number of logical blocks of an NVM namespace (0 for others).
    pub open spec fn spec_block_count(&self) -> int {
        match self.command_set {
            NvmeCommandSet::Nvm(d) => d.identify.nsze as int,
            _ => 0,
        }
    }

    /// The number of blocks a read of `buf_len` bytes at block `lba` covers,
    /// or why the namespace refuses it: past its end, or not whole blocks.
    pub fn read_blocks(&self, lba: u64, buf_len: usize) -> (r: Result<u64, BlockDeviceError>)
        requires
            self.command_set matches NvmeCommandSet::Nvm(d) && d.identify.lbads_spec() < 32,
            lba + (buf_len as int) / self.spec_block_size() <= u64::MAX,
        ensures
            lba + (buf_len as int) / self.spec_block_size() > self.spec_block_count()
                ==> (r matches Err(BlockDeviceError::InvalidRange { lba: l, count: c }) && l == lba
                && c == (buf_len as int) / self.spec_block_size()),
            lba + (buf_len as int) / self.spec_block_size() <= self.spec_block_count()
                && (buf_len as int) % self.spec_block_size() != 0 ==> r matches Err(BlockDeviceError::NotAligned),
            lba + (buf_len as int) / self.spec_block_size() <= self.spec_block_count()
                && (buf_len as int) % self.spec_block_size() == 0
                ==> (r matches Ok(c) && c == (buf_len as int) / self.spec_block_size()),
    {
        proof {
            if let NvmeCommandSet::Nvm(d) = &self.command_set {
                vstd::arithmetic::power2::lemma_pow2_pos(d.identify.lbads_spec() as nat);
            }
        }
        read_block_count(lba, buf_len, self.block_size(), self.block_count())
    }

    /// What a read whose command completed with `status` gives: nothing
    /// on success, else an I/O error.
    pub fn read_result(status: u16) -> (r: Result<(), BlockDeviceError>)
        ensures
            ((status >> 9u16) & 0x7 == 0 && (status >> 1u16) & 0xFF == 0) ==> r is Ok,
            !((status >> 9u16) & 0x7 == 0 && (status >> 1u16) & 0xFF == 0) ==> r matches Err(BlockDeviceError::IoError),
    {
        if !crate::filesystem::drivers::nvme::Status(status).is_success() {
            return Err(BlockDeviceError::IoError);
        }
        Ok(())
    }
}

/// The blocks a read of `buf_len` bytes at block `lba` covers on a
/// namespace of `block_count` blocks of `block_size` bytes: refused with
/// `InvalidRange` when it runs past the end, then with `NotAligned` when the
/// length is not whole blocks.
pub fn read_block_count(lba: u64, buf_len: usize, block_size: u32, block_count: u64) -> (r: Result<u64, BlockDeviceError>)
    requires
        block_size > 0,
        lba + (buf_len as int) / (block_size as int) <= u64::MAX,
    ensures
        lba + (buf_len as int) / (block_size as int) > block_count
            ==> (r matches Err(BlockDeviceError::InvalidRange { lba: l, count: c }) && l == lba && c == (buf_len as int) / (block_size as int)),
        lba + (buf_len as int) / (block_size as int) <= block_count && (buf_len as int) % (block_size as int) != 0
            ==> r matches Err(BlockDeviceError::NotAligned),
        lba + (buf_len as int) / (block_size as int) <= block_count && (buf_len as int) % (block_size as int) == 0
            ==> (r matches Ok(c) && c == (buf_len as int) / (block_size as int)),
{
    let block_size = block_size as u64;
    let count = buf_len as u64 / block_size;
    if lba + count > block_count {
        return Err(BlockDeviceError::InvalidRange { lba, count });
    }
    if buf_len as u64 % block_size != 0 {
        return Err(BlockDeviceError::NotAligned);
    }
    Ok(count)
}

} // verus!
