use vstd::prelude::*;

verus! {

/// The name of a block device, such as `nvme0n1`.
#[derive(Debug, Clone)]
pub struct DeviceId(pub String);

impl DeviceId {
    /// The device named `id`.
    pub fn new(id: String) -> (r: Self)
        ensures
            r.0@ == id@,
    {
        Self(id)
    }
}

/// Why a block device refused a request or failed it.
#[derive(Debug)]
pub enum BlockDeviceError {
    IoError,
    InvalidRange { lba: u64, count: u64 },
    NotAligned,
    DeviceFault(String),
}

/// The capacity in bytes of a device of `block_count` blocks of
/// `block_size` bytes.
pub fn capacity(block_size: u32, block_count: u64) -> (r: u64)
    requires
        block_size * block_count <= u64::MAX,
    ensures
        r == block_size * block_count,
{
    block_size as u64 * block_count
}

/// Checks a transfer of `buf_len` bytes starting at block `lba` on a device
/// of `block_count` blocks of `block_size` bytes: the length must be whole
/// blocks (else `NotAligned`), and the blocks must lie on the device (else
/// `InvalidRange`); returns the number of blocks.
pub fn validate_range(block_size: u32, block_count: u64, lba: u64, buf_len: usize) -> (r: Result<u64, BlockDeviceError>)
    requires
        block_size > 0,
        lba + (buf_len as int) / (block_size as int) <= u64::MAX,
    ensures
        (buf_len as int) % (block_size as int) != 0 ==> r matches Err(BlockDeviceError::NotAligned),
        (buf_len as int) % (block_size as int) == 0 && lba + (buf_len as int) / (block_size as int) > block_count
            ==> (r matches Err(BlockDeviceError::InvalidRange { lba: l, count: c }) && l == lba && c == (buf_len as int) / (block_size as int)),
        (buf_len as int) % (block_size as int) == 0 && lba + (buf_len as int) / (block_size as int) <= block_count
            ==> (r matches Ok(c) && c == (buf_len as int) / (block_size as int)),
{
    let block_size = block_size as u64;
    if buf_len as u64 % block_size != 0 {
        return Err(BlockDeviceError::NotAligned);
    }
    let count = buf_len as u64 / block_size;
    if lba + count > block_count {
        return Err(BlockDeviceError::InvalidRange { lba, count });
    }
    Ok(count)
}

} // verus!
