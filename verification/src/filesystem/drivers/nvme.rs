use vstd::prelude::*;
use crate::util::le::{le16, le32, le64, push_le32, push_le64, read_into, read_le16, read_le32, read_le64};
use crate::util::fmt::{bool_chars, decimal_chars, format_bool, format_decimal, format_padded, padded_digits};

verus! {

/// The value of a `mask`-wide field at `shift` in `raw`.
pub open spec fn field_of(raw: u32, shift: u32, mask: u32) -> u32 {
    (raw >> shift) & mask
}

/// `raw` with its `mask`-wide field at `shift` replaced by `v & mask`.
pub open spec fn with_field(raw: u32, shift: u32, mask: u32, v: u32) -> u32 {
    (raw & !(mask << shift)) | ((v & mask) << shift)
}

/// The arbitration mechanisms of the controller configuration.
#[derive(Clone, Copy, PartialEq, Eq, Structural, Debug)]
pub enum AmsType {
    RoundRobin,
    WeightedRoundRobin,
    Vendor,
}

impl AmsType {
    /// The mechanism's 3-bit code.
    pub open spec fn spec_code(self) -> u32 {
        match self {
            AmsType::RoundRobin => 0b000,
            AmsType::WeightedRoundRobin => 0b001,
            AmsType::Vendor => 0b111,
        }
    }

    /// The mechanism's 3-bit code.
    pub fn code(self) -> (r: u32)
        ensures
            r == self.spec_code(),
    {
        match self {
            AmsType::RoundRobin => 0b000,
            AmsType::WeightedRoundRobin => 0b001,
            AmsType::Vendor => 0b111,
        }
    }
}

/// The command set selector that a controller with the capabilities `cap`
/// is configured with: all-ones when it supports no I/O command set, 0b110
/// when it supports more than one, 0 otherwise.
pub open spec fn css_selector_for(cap: u64) -> u8 {
    let css = ((cap >> 37u64) & 0xFF) as u8;
    if (css >> 7u8) & 1 == 1 {
        0b111
    } else if (css >> 6u8) & 1 == 1 {
        0b110
    } else {
        0b000
    }
}

/// The controller configuration register (CC).
pub struct ControllerConfig(pub u32);

impl ControllerConfig {
    /// The raw register value.
    pub fn raw(&self) -> (r: u32)
        ensures
            r == self.0,
    {
        self.0
    }

    /// Replaces the raw register value.
    pub fn set_raw(&mut self, raw: u32) -> (r: &mut Self)
        ensures
            r.0 == raw,
            final(self).0 == final(r).0,
    {
        self.0 = raw;
        self
    }

    /// Sets the command set selector the capabilities call for.
    pub fn set_css_from_cap(&mut self, cap: &ControllerCap) -> (r: &mut Self)
        ensures
            r.0 == with_field(old(self).0, 4, 0x7, css_selector_for(cap.0) as u32),
            final(self).0 == final(r).0,
    {
        let mut css = 0b000u8;
        if cap.css_none() {
            css = 0b111;
        } else if cap.css_some() {
            css = 0b110;
        }
        self.set_css(css);
        self
    }

    /// Sets the command set selector (bits 4..7).
    pub fn set_css(&mut self, css: u8) -> (r: &mut Self)
        ensures
            r.0 == with_field(old(self).0, 4, 0x7, css as u32),
            final(self).0 == final(r).0,
    {
        self.0 = self.0 & !(0x7 << 4) | ((css as u32 & 0x7) << 4);
        self
    }

    /// The command set selector (bits 4..7).
    pub fn css(&mut self) -> (r: u8)
        ensures
            r == field_of(old(self).0, 4, 0x7),
            final(self).0 == old(self).0,
    {
        proof {
            let v = self.0;
            crate::util::bits::lemma_u32_and_le(v >> 4u32, 0x7u32);
        }
        ((self.0 >> 4) & 0x7) as u8
    }

    /// Sets the enable bit (bit 0).
    pub fn set_enabled(&mut self, en: bool) -> (r: &mut Self)
        ensures
            r.0 == with_field(old(self).0, 0, 0x1, if en { 1u32 } else { 0u32 }),
            final(self).0 == final(r).0,
    {
        let bit: u32 = if en { 1 } else { 0 };
        proof {
            let raw = self.0;
            assert((raw & !0x1u32) | bit == (raw & !(1u32 << 0u32)) | ((bit & 1u32) << 0u32)) by (bit_vector)
                requires bit <= 1;
        }
        self.0 = (self.0 & !0x1) | bit;
        self
    }

    /// Sets the I/O submission queue entry size, as a power of two
    /// (bits 16..20).
    pub fn set_iosqes(&mut self, iosqes: u32) -> (r: &mut Self)
        ensures
            r.0 == with_field(old(self).0, 16, 0xF, iosqes),
            final(self).0 == final(r).0,
    {
        self.0 = (self.0 & !(0xF << 16)) | ((iosqes & 0xF) << 16);
        self
    }

    /// Sets the I/O completion queue entry size, as a power of two
    /// (bits 20..24).
    pub fn set_iocqes(&mut self, iocqes: u32) -> (r: &mut Self)
        ensures
            r.0 == with_field(old(self).0, 20, 0xF, iocqes),
            final(self).0 == final(r).0,
    {
        self.0 = (self.0 & !(0xF << 20)) | ((iocqes & 0xF) << 20);
        self
    }

    /// Sets the arbitration mechanism (bits 11..14).
    pub fn set_ams(&mut self, ams: AmsType) -> (r: &mut Self)
        ensures
            r.0 == with_field(old(self).0, 11, 0b111, ams.spec_code()),
            final(self).0 == final(r).0,
    {
        self.0 = (self.0 & !(0b111 << 11)) | ((ams.code() & 0b111) << 11);
        self
    }

    /// Sets the memory page size, as a power of two above 4 KiB (bits 7..11).
    pub fn set_mps(&mut self, mps: u32) -> (r: &mut Self)
        ensures
            r.0 == with_field(old(self).0, 7, 0xF, mps),
            final(self).0 == final(r).0,
    {
        self.0 = (self.0 & !(0xF << 7)) | ((mps & 0xF) << 7);
        self
    }
}

/// Setting a field of the configuration and reading it back gives the
/// value set (masked to the field's width), and leaves the other fields
/// as they were.
pub proof fn lemma_config_field_round_trip(raw: u32, v: u32)
    by (bit_vector)
    ensures
        field_of(with_field(raw, 4, 0x7, v), 4, 0x7) == v & 0x7,
        field_of(with_field(raw, 4, 0x7, v), 0, 0x1) == field_of(raw, 0, 0x1),
        field_of(with_field(raw, 4, 0x7, v), 16, 0xF) == field_of(raw, 16, 0xF),
        field_of(with_field(raw, 0, 0x1, v), 4, 0x7) == field_of(raw, 4, 0x7),
        field_of(with_field(raw, 16, 0xF, v), 4, 0x7) == field_of(raw, 4, 0x7),
        field_of(with_field(raw, 20, 0xF, v), 4, 0x7) == field_of(raw, 4, 0x7),
        field_of(with_field(raw, 11, 0b111, v), 4, 0x7) == field_of(raw, 4, 0x7),
        field_of(with_field(raw, 7, 0xF, v), 4, 0x7) == field_of(raw, 4, 0x7),
{
}

/// The controller capabilities register (CAP).
pub struct ControllerCap(pub u64);

impl ControllerCap {
    /// The doorbell stride, as a power of two (bits 32..36).
    pub fn dstrd(&self) -> (r: u8)
        ensures
            r == (self.0 >> 32u64) & 0xF,
    {
        proof {
            let v = self.0;
            crate::util::bits::lemma_u64_and_le(v >> 32u64, 0xFu64);
        }
        ((self.0 >> 32) & 0xF) as u8
    }

    /// The maximum queue entries supported, minus one (bits 0..16).
    pub fn mqes(&self) -> (r: u16)
        ensures
            r == self.0 & 0xFFFF,
    {
        proof {
            let v = self.0;
            crate::util::bits::lemma_u64_and_le(v, 0xFFFF);
        }
        (self.0 & 0xFFFF) as u16
    }

    /// The timeout in units of 500 ms (bits 24..32).
    pub fn to(&self) -> (r: u8)
        ensures
            r == (self.0 >> 24u64) & 0xFF,
    {
        proof {
            let v = self.0;
            crate::util::bits::lemma_u64_and_le(v >> 24u64, 0xFFu64);
        }
        ((self.0 >> 24) & 0xFF) as u8
    }

    /// The minimum memory page size, as a power of two above 4 KiB (bits
    /// 48..52).
    pub fn mpsmin(&self) -> (r: u8)
        ensures
            r == (self.0 >> 48u64) & 0xF,
    {
        proof {
            let v = self.0;
            crate::util::bits::lemma_u64_and_le(v >> 48u64, 0xFu64);
        }
        ((self.0 >> 48) & 0xF) as u8
    }

    /// The command sets supported (bits 37..45).
    pub fn css(&self) -> (r: u8)
        ensures
            r == (self.0 >> 37u64) & 0xFF,
    {
        proof {
            let v = self.0;
            crate::util::bits::lemma_u64_and_le(v >> 37u64, 0xFFu64);
        }
        ((self.0 >> 37) & 0xFF) as u8
    }

    /// Whether the NVM command set is supported (bit 0 of CSS).
    pub fn css_nvm(&self) -> (r: bool)
        ensures
            r == (((self.0 >> 37u64) & 0xFF) as u8 & 1 == 1),
    {
        self.css() & 0x1 == 1
    }

    /// Whether no I/O command set is supported (bit 7 of CSS).
    pub fn css_none(&self) -> (r: bool)
        ensures
            r == ((((self.0 >> 37u64) & 0xFF) as u8 >> 7u8) & 1 == 1),
    {
        (self.css() >> 7) & 0x1 == 1
    }

    /// Whether one or more I/O command sets are supported (bit 6 of CSS).
    pub fn css_some(&self) -> (r: bool)
        ensures
            r == ((((self.0 >> 37u64) & 0xFF) as u8 >> 6u8) & 1 == 1),
    {
        (self.css() >> 6) & 0x1 == 1
    }
}

/// The status field of a completion queue entry.
#[derive(Debug, Clone, Copy)]
pub struct Status(pub u16);

impl Status {
    /// The phase tag (bit 0).
    pub fn phase_tag(&self) -> (r: bool)
        ensures
            r == (self.0 & 1 != 0),
    {
        self.0 & 1 != 0
    }

    /// The status code (bits 1..9).
    pub fn code(&self) -> (r: u8)
        ensures
            r == (self.0 >> 1u16) & 0xFF,
    {
        proof {
            let v = self.0;
            crate::util::bits::lemma_u16_and_le(v >> 1u16, 0xFFu16);
        }
        ((self.0 >> 1) & 0xFF) as u8
    }

    /// The status code type (bits 9..12).
    pub fn code_type(&self) -> (r: u8)
        ensures
            r == (self.0 >> 9u16) & 0x7,
    {
        proof {
            let v = self.0;
            crate::util::bits::lemma_u16_and_le(v >> 9u16, 0x7u16);
        }
        ((self.0 >> 9) & 0x7) as u8
    }

    /// The more bit (bit 14).
    pub fn more(&self) -> (r: bool)
        ensures
            r == (self.0 & 0x4000 != 0),
    {
        self.0 & 0x4000 != 0
    }

    /// The do-not-retry bit (bit 15).
    pub fn do_not_retry(&self) -> (r: bool)
        ensures
            r == (self.0 & 0x8000 != 0),
    {
        self.0 & 0x8000 != 0
    }

    /// Whether the command succeeded: code type and code are both 0.
    pub fn is_success(&self) -> (r: bool)
        ensures
            r == ((self.0 >> 9u16) & 0x7 == 0 && (self.0 >> 1u16) & 0xFF == 0),
    {
        self.code_type() == 0 && self.code() == 0
    }

    /// The status as text: its 16 bits in binary, then its code type, code
    /// and whether it is a success.
    pub open spec fn text(&self) -> Seq<char> {
        "0b"@ + padded_digits(self.0 as nat, 2, 16) + " (type="@
            + decimal_chars(((self.0 >> 9u16) & 0x7) as nat) + ", code="@
            + decimal_chars(((self.0 >> 1u16) & 0xFF) as nat) + ", success="@
            + bool_chars((self.0 >> 9u16) & 0x7 == 0 && (self.0 >> 1u16) & 0xFF == 0) + ")"@
    }

    /// The status as `text` gives it.
    pub fn to_string(&self) -> (r: String)
        ensures
            r@ == self.text(),
    {
        let mut s = String::from_str("0b");
        s.append(format_padded(self.0 as u64, 2, 16).as_str());
        s.append(" (type=");
        s.append(format_decimal(self.code_type() as u64).as_str());
        s.append(", code=");
        s.append(format_decimal(self.code() as u64).as_str());
        s.append(", success=");
        s.append(format_bool(self.is_success()));
        s.append(")");
        s
    }
}

/// A submission queue entry.
pub struct SQEntry {
    pub cdw0: u32,
    pub nsid: u32,
    pub reserved: u64,
    pub mptr: u64,
    pub prp1: u64,
    pub prp2: u64,
    pub cdw10: u32,
    pub cdw11: u32,
    pub cdw12: u32,
    pub cdw13: u32,
    pub cdw14: u32,
    pub cdw15: u32,
}

impl SQEntry {
    /// Every field is 0.
    pub open spec fn is_zero(&self) -> bool {
        &&& self.cdw0 == 0 && self.nsid == 0 && self.reserved == 0 && self.mptr == 0
        &&& self.prp1 == 0 && self.prp2 == 0 && self.cdw10 == 0 && self.cdw11 == 0
        &&& self.cdw12 == 0 && self.cdw13 == 0 && self.cdw14 == 0 && self.cdw15 == 0
    }
}

impl SQEntry {
    /// The 64 bytes of the entry, each field little-endian at its offset.
    pub fn to_bytes(&self) -> (r: Vec<u8>)
        ensures
            r@.len() == 64,
            le32(r@, 0) == self.cdw0,
            le32(r@, 4) == self.nsid,
            le64(r@, 8) == self.reserved,
            le64(r@, 16) == self.mptr,
            le64(r@, 24) == self.prp1,
            le64(r@, 32) == self.prp2,
            le32(r@, 40) == self.cdw10,
            le32(r@, 44) == self.cdw11,
            le32(r@, 48) == self.cdw12,
            le32(r@, 52) == self.cdw13,
            le32(r@, 56) == self.cdw14,
            le32(r@, 60) == self.cdw15,
    {
        let mut v: Vec<u8> = Vec::new();
        push_le32(&mut v, self.cdw0);
        push_le32(&mut v, self.nsid);
        push_le64(&mut v, self.reserved);
        push_le64(&mut v, self.mptr);
        push_le64(&mut v, self.prp1);
        push_le64(&mut v, self.prp2);
        push_le32(&mut v, self.cdw10);
        push_le32(&mut v, self.cdw11);
        push_le32(&mut v, self.cdw12);
        push_le32(&mut v, self.cdw13);
        push_le32(&mut v, self.cdw14);
        push_le32(&mut v, self.cdw15);
        v
    }
}

impl Default for SQEntry {
    fn default() -> (r: Self)
        ensures
            r.is_zero(),
    {
        SQEntry {
            cdw0: 0,
            nsid: 0,
            reserved: 0,
            mptr: 0,
            prp1: 0,
            prp2: 0,
            cdw10: 0,
            cdw11: 0,
            cdw12: 0,
            cdw13: 0,
            cdw14: 0,
            cdw15: 0,
        }
    }
}

/// A completion queue entry.
pub struct CQEntry {
    pub dw0: u32,
    pub dw1: u32,
    pub sq_head: u16,
    pub sq_id: u16,
    pub cid: u16,
    pub status: Status,
}

impl CQEntry {
    /// The completion entry laid out in the 16 bytes of `b`.
    pub fn from_bytes(b: &[u8]) -> (r: Self)
        requires
            b.len() >= 16,
        ensures
            r.dw0 == le32(b@, 0),
            r.dw1 == le32(b@, 4),
            r.sq_head == le16(b@, 8),
            r.sq_id == le16(b@, 10),
            r.cid == le16(b@, 12),
            r.status.0 == le16(b@, 14),
    {
        CQEntry {
            dw0: read_le32(b, 0),
            dw1: read_le32(b, 4),
            sq_head: read_le16(b, 8),
            sq_id: read_le16(b, 10),
            cid: read_le16(b, 12),
            status: Status(read_le16(b, 14)),
        }
    }
}

/// The first fields of the Identify Controller data structure.
#[derive(Clone, Copy)]
pub struct IdentifyController {
    pub vid: u16,
    pub ssvid: u16,
    pub sn: [u8; 20],
    pub mn: [u8; 40],
    pub fr: [u8; 8],
    pub rab: u8,
}

impl IdentifyController {
    /// The data laid out in `b`: the vendor ids, the serial and model
    /// numbers, the firmware revision and the arbitration burst.
    pub fn from_bytes(b: &[u8]) -> (r: Self)
        requires
            b.len() >= 73,
        ensures
            r.vid == le16(b@, 0),
            r.ssvid == le16(b@, 2),
            r.sn@ == b@.subrange(4, 24),
            r.mn@ == b@.subrange(24, 64),
            r.fr@ == b@.subrange(64, 72),
            r.rab == b@[72],
    {
        let mut sn = [0u8; 20];
        read_into(&mut sn, b, 4);
        let mut mn = [0u8; 40];
        read_into(&mut mn, b, 24);
        let mut fr = [0u8; 8];
        read_into(&mut fr, b, 64);
        IdentifyController { vid: read_le16(b, 0), ssvid: read_le16(b, 2), sn, mn, fr, rab: b[72] }
    }
}

/// The I/O command set combinations a controller supports.
#[derive(Clone, Copy)]
pub struct IdentifyCommandSet {
    pub iocsc: [u64; 512],
}

impl IdentifyCommandSet {
    /// The 512 combinations laid out in `b`, 8 bytes each.
    pub fn from_bytes(b: &[u8]) -> (r: Self)
        requires
            b.len() >= 4096,
        ensures
            forall|i: int| 0 <= i < 512 ==> #[trigger] r.iocsc@[i] == le64(b@, 8 * i),
    {
        let mut iocsc = [0u64; 512];
        let mut i: usize = 0;
        while i < 512
            invariant
                i <= 512,
                b.len() >= 4096,
                iocsc@.len() == 512,
                forall|j: int| 0 <= j < i ==> #[trigger] iocsc@[j] == le64(b@, 8 * j),
            decreases 512 - i,
        {
            iocsc.set(i, read_le64(b, 8 * i));
            i = i + 1;
        }
        IdentifyCommandSet { iocsc }
    }

    /// Whether the combination `cmd_set` has its NVM bit set.
    pub fn is_nvm_supported(cmd_set: u64) -> (r: bool)
        ensures
            r == (cmd_set & 1 == 1),
    {
        cmd_set & 0x1 == 1
    }

    /// Whether `cmd_set & 0x2` equals 1, which it never does.
    pub fn is_kv_supported(cmd_set: u64) -> (r: bool)
        ensures
            r == (cmd_set & 2 == 1),
            !r,
    {
        proof {
            assert(cmd_set & 2u64 != 1u64) by (bit_vector);
        }
        cmd_set & 0x2 == 1
    }

    /// Whether `cmd_set & 0x4` equals 1, which it never does.
    pub fn is_zns_supported(cmd_set: u64) -> (r: bool)
        ensures
            r == (cmd_set & 4 == 1),
            !r,
    {
        proof {
            assert(cmd_set & 4u64 != 1u64) by (bit_vector);
        }
        cmd_set & 0x4 == 1
    }

    /// The index of the first combination that supports the NVM command
    /// set.
    pub fn first_valid(&self) -> (r: Option<usize>)
        ensures
            match r {
                Some(i) => i < 512 && self.iocsc@[i as int] & 1 == 1
                    && forall|j: int| 0 <= j < i ==> #[trigger] self.iocsc@[j] & 1 != 1,
                None => forall|j: int| 0 <= j < 512 ==> #[trigger] self.iocsc@[j] & 1 != 1,
            },
    {
        let mut i: usize = 0;
        while i < 512
            invariant
                i <= 512,
                forall|j: int| 0 <= j < i ==> #[trigger] self.iocsc@[j] & 1 != 1,
            decreases 512 - i,
        {
            if Self::is_nvm_supported(self.iocsc[i]) {
                return Some(i);
            }
            i = i + 1;
        }
        None
    }

    /// The command set identifiers among 0, 1 and 2 whose test
    /// `entry & (1 << bit) == 1` holds for the combination at `idx`: only
    /// bit 0 can pass it.
    pub fn csi_iter(&self, idx: usize) -> (r: Vec<u8>)
        requires
            idx < 512,
        ensures
            r@ == (if self.iocsc@[idx as int] & 1 == 1 { seq![0u8] } else { Seq::<u8>::empty() }),
    {
        let entry = self.iocsc[idx];
        let mut out: Vec<u8> = Vec::new();
        let mut bit: u8 = 0;
        while bit < 3
            invariant
                bit <= 3,
                entry == self.iocsc@[idx as int],
                out@ == (if bit > 0 && entry & 1 == 1 { seq![0u8] } else { Seq::<u8>::empty() }),
            decreases 3 - bit,
        {
            proof {
                assert(entry & (1u64 << 0u64) == entry & 1u64) by (bit_vector);
                assert(bit > 0 && bit < 64 ==> entry & (1u64 << bit as u64) != 1u64) by (bit_vector);
            }
            if entry & (1u64 << bit) == 1 {
                out.push(bit);
            }
            bit = bit + 1;
        }
        out
    }
}

/// A list of namespace identifiers, ended by the first 0.
#[derive(Clone, Copy)]
pub struct IdentifyNamespaceList {
    pub namespaces: [u32; 1024],
}

impl IdentifyNamespaceList {
    /// The 1024 ids laid out in `b`, 4 bytes each.
    pub fn from_bytes(b: &[u8]) -> (r: Self)
        requires
            b.len() >= 4096,
        ensures
            forall|i: int| 0 <= i < 1024 ==> #[trigger] r.namespaces@[i] == le32(b@, 4 * i),
    {
        let mut namespaces = [0u32; 1024];
        let mut i: usize = 0;
        while i < 1024
            invariant
                i <= 1024,
                b.len() >= 4096,
                namespaces@.len() == 1024,
                forall|j: int| 0 <= j < i ==> #[trigger] namespaces@[j] == le32(b@, 4 * j),
            decreases 1024 - i,
        {
            namespaces.set(i, read_le32(b, 4 * i));
            i = i + 1;
        }
        IdentifyNamespaceList { namespaces }
    }

    /// The identifiers before the first 0.
    pub fn valid(&self) -> (r: Vec<u32>)
        ensures
            r@.len() <= 1024,
            r@ == self.namespaces@.subrange(0, r@.len() as int),
            forall|j: int| 0 <= j < r@.len() ==> #[trigger] r@[j] != 0,
            r@.len() < 1024 ==> self.namespaces@[r@.len() as int] == 0,
    {
        let mut out: Vec<u32> = Vec::new();
        let mut i: usize = 0;
        while i < 1024
            invariant
                i <= 1024,
                out@ == self.namespaces@.subrange(0, i as int),
                forall|j: int| 0 <= j < i ==> #[trigger] self.namespaces@[j] != 0,
            decreases 1024 - i,
        {
            if self.namespaces[i] == 0 {
                return out;
            }
            out.push(self.namespaces[i]);
            i = i + 1;
            proof {
                assert(out@ =~= self.namespaces@.subrange(0, i as int));
            }
        }
        out
    }
}

/// An LBA format: metadata size, data size and relative performance.
#[derive(Clone, Copy, Debug)]
pub struct LbaFormat {
    pub ms: u16,
    pub lbads: u8,
    pub rp: u8,
}

/// The index of the formatted LBA format that the byte `flbas` selects:
/// bits 0..4 are its low part, bits 5..7 its high part.
pub open spec fn lbaf_index(flbas: u8) -> int {
    ((flbas / 32) % 4) as int * 16 + (flbas % 16) as int
}

/// The LBA format laid out at `b[at..at + 4]`.
pub open spec fn lba_format_at(b: Seq<u8>, at: int) -> LbaFormat {
    LbaFormat { ms: le16(b, at) as u16, lbads: b[at + 2], rp: b[at + 3] }
}

/// The 64 LBA formats laid out from `b[at..]`, 4 bytes each.
pub fn read_lba_formats(b: &[u8], at: usize) -> (r: [LbaFormat; 64])
    requires
        at + 256 <= b.len(),
    ensures
        forall|i: int| 0 <= i < 64 ==> #[trigger] r@[i] == lba_format_at(b@, at + 4 * i),
{
    let mut formats = [LbaFormat { ms: 0, lbads: 0, rp: 0 }; 64];
    let mut i: usize = 0;
    while i < 64
        invariant
            i <= 64,
            at + 256 <= b.len(),
            formats@.len() == 64,
            forall|j: int| 0 <= j < i ==> #[trigger] formats@[j] == lba_format_at(b@, at + 4 * j),
        decreases 64 - i,
    {
        let p = at + 4 * i;
        formats.set(i, LbaFormat { ms: read_le16(b, p), lbads: b[p + 2], rp: b[p + 3] });
        i = i + 1;
    }
    formats
}

/// The first fields of the Identify Namespace data structure of the NVM
/// command set.
#[derive(Clone, Copy)]
pub struct IdentifyNamespaceNvm {
    pub nsze: u64,
    pub ncap: u64,
    pub nuse: u64,
    pub nsfeat: u8,
    pub nlbaf: u8,
    pub flbas: u8,
    pub _reserved: [u8; 73],
    pub lbaf: [LbaFormat; 64],
    pub _pad: [u8; 3740],
}

impl IdentifyNamespaceNvm {
    /// The data laid out in the 4096 bytes of `b`: the sizes, features,
    /// format count and formatted size, then the LBA formats from byte 100.
    pub fn from_bytes(b: &[u8]) -> (r: Self)
        requires
            b.len() >= 4096,
        ensures
            r.nsze == le64(b@, 0),
            r.ncap == le64(b@, 8),
            r.nuse == le64(b@, 16),
            r.nsfeat == b@[24],
            r.nlbaf == b@[25],
            r.flbas == b@[26],
            r._reserved@ == b@.subrange(27, 100),
            forall|i: int| 0 <= i < 64 ==> #[trigger] r.lbaf@[i] == lba_format_at(b@, 100 + 4 * i),
            r._pad@ == b@.subrange(356, 4096),
    {
        let mut reserved = [0u8; 73];
        read_into(&mut reserved, b, 27);
        let mut pad = [0u8; 3740];
        read_into(&mut pad, b, 356);
        IdentifyNamespaceNvm {
            nsze: read_le64(b, 0),
            ncap: read_le64(b, 8),
            nuse: read_le64(b, 16),
            nsfeat: b[24],
            nlbaf: b[25],
            flbas: b[26],
            _reserved: reserved,
            lbaf: read_lba_formats(b, 100),
            _pad: pad,
        }
    }

    /// The index of the LBA format in use.
    pub fn active_lbaf_idx(&self) -> (r: usize)
        ensures
            r == lbaf_index(self.flbas),
            r < 64,
    {
        let low = (self.flbas & 0xF) as usize;
        let high = ((self.flbas >> 5) & 0x3) as usize;
        proof {
            let f = self.flbas;
            assert(f & 0xFu8 == f % 16 && (f >> 5u8) & 0x3u8 == (f / 32) % 4) by (bit_vector);
            assert((((f / 32) % 4) as usize) << 4usize | ((f % 16) as usize) == ((f / 32) % 4) as int * 16 + (f % 16) as int) by (bit_vector);
        }
        (high << 4) | low
    }

    /// The LBA format in use.
    pub fn active_lbaf(&self) -> (r: LbaFormat)
        ensures
            r == self.lbaf@[lbaf_index(self.flbas)],
    {
        self.lbaf[self.active_lbaf_idx()]
    }

    /// The size of a logical block: 2 to the power of the format's data
    /// size.
    pub fn block_size(&self) -> (r: u64)
        requires
            self.lbaf@[lbaf_index(self.flbas)].lbads < 64,
        ensures
            r == vstd::arithmetic::power2::pow2(self.lbaf@[lbaf_index(self.flbas)].lbads as nat),
    {
        let lbads = self.active_lbaf().lbads;
        proof {
            vstd::bits::lemma_u64_pow2_no_overflow(lbads as nat);
            vstd::bits::lemma_u64_shl_is_mul(1, lbads as u64);
        }
        1u64 << lbads
    }

    /// The size of the namespace in bytes.
    pub fn size_bytes(&self) -> (r: u64)
        requires
            self.lbaf@[lbaf_index(self.flbas)].lbads < 64,
            self.nsze * vstd::arithmetic::power2::pow2(self.lbaf@[lbaf_index(self.flbas)].lbads as nat) <= u64::MAX,
        ensures
            r == self.nsze * vstd::arithmetic::power2::pow2(self.lbaf@[lbaf_index(self.flbas)].lbads as nat),
    {
        self.nsze * self.block_size()
    }
}

/// The command-set-independent fields of the Identify Namespace data
/// structure.
#[derive(Clone, Copy)]
pub struct IdentifyNamespaceIndependent {
    pub nsfeat: u8,
    pub nmic: u8,
    pub rescap: u8,
    pub fpi: u8,
    pub anagrpid: u32,
    pub nsattr: u8,
    pub _reserved: u8,
    pub nvmsetid: u16,
    pub endgid: u16,
    pub nstat: u8,
    pub _reserved2: [u8; 4081],
}

impl IdentifyNamespaceIndependent {
    /// The data laid out in the 4096 bytes of `b`.
    pub fn from_bytes(b: &[u8]) -> (r: Self)
        requires
            b.len() >= 4096,
        ensures
            r.nsfeat == b@[0],
            r.nmic == b@[1],
            r.rescap == b@[2],
            r.fpi == b@[3],
            r.anagrpid == le32(b@, 4),
            r.nsattr == b@[8],
            r._reserved == b@[9],
            r.nvmsetid == le16(b@, 10),
            r.endgid == le16(b@, 12),
            r.nstat == b@[14],
            r._reserved2@ == b@.subrange(15, 4096),
    {
        let mut reserved2 = [0u8; 4081];
        read_into(&mut reserved2, b, 15);
        IdentifyNamespaceIndependent {
            nsfeat: b[0],
            nmic: b[1],
            rescap: b[2],
            fpi: b[3],
            anagrpid: read_le32(b, 4),
            nsattr: b[8],
            _reserved: b[9],
            nvmsetid: read_le16(b, 10),
            endgid: read_le16(b, 12),
            nstat: b[14],
            _reserved2: reserved2,
        }
    }
}

} // verus!
