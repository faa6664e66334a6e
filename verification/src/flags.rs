//! Flag sets that configure which optional fields are present on the wire.
//!
//! The numeric values mirror the `PERF_SAMPLE_*` and `PERF_FORMAT_*`
//! constants of the kernel ABI.

use vstd::prelude::*;

verus! {

pub const PERF_SAMPLE_IP: u64 = 0x1;
pub const PERF_SAMPLE_TID: u64 = 0x2;
pub const PERF_SAMPLE_TIME: u64 = 0x4;
pub const PERF_SAMPLE_ADDR: u64 = 0x8;
pub const PERF_SAMPLE_READ: u64 = 0x10;
pub const PERF_SAMPLE_CALLCHAIN: u64 = 0x20;
pub const PERF_SAMPLE_ID: u64 = 0x40;
pub const PERF_SAMPLE_CPU: u64 = 0x80;
pub const PERF_SAMPLE_PERIOD: u64 = 0x100;
pub const PERF_SAMPLE_STREAM_ID: u64 = 0x200;
pub const PERF_SAMPLE_RAW: u64 = 0x400;
pub const PERF_SAMPLE_BRANCH_STACK: u64 = 0x800;
pub const PERF_SAMPLE_REGS_USER: u64 = 0x1000;
pub const PERF_SAMPLE_STACK_USER: u64 = 0x2000;
pub const PERF_SAMPLE_WEIGHT: u64 = 0x4000;
pub const PERF_SAMPLE_DATA_SRC: u64 = 0x8000;
pub const PERF_SAMPLE_IDENTIFIER: u64 = 0x10000;
pub const PERF_SAMPLE_TRANSACTION: u64 = 0x20000;
pub const PERF_SAMPLE_REGS_INTR: u64 = 0x40000;
pub const PERF_SAMPLE_PHYS_ADDR: u64 = 0x80000;
pub const PERF_SAMPLE_AUX: u64 = 0x100000;
pub const PERF_SAMPLE_CGROUP: u64 = 0x200000;
pub const PERF_SAMPLE_DATA_PAGE_SIZE: u64 = 0x400000;
pub const PERF_SAMPLE_CODE_PAGE_SIZE: u64 = 0x800000;
pub const PERF_SAMPLE_WEIGHT_STRUCT: u64 = 0x1000000;

pub const PERF_FORMAT_TOTAL_TIME_ENABLED: u64 = 0x1;
pub const PERF_FORMAT_TOTAL_TIME_RUNNING: u64 = 0x2;
pub const PERF_FORMAT_ID: u64 = 0x4;
pub const PERF_FORMAT_GROUP: u64 = 0x8;
pub const PERF_FORMAT_LOST: u64 = 0x10;

/// Every read-format flag this library understands.
pub const PERF_FORMAT_ALL: u64 = 0x1F;

/// Does `bits` contain every bit of `flag`?
pub open spec fn has_flags(bits: u64, flag: u64) -> bool {
    bits & flag == flag
}

/// Specifies which fields to include in a sample.
///
/// The bit values correspond to `PERF_SAMPLE_x` values of the kernel ABI.
#[derive(Copy, Clone, Debug, PartialEq, Eq, Hash, Structural)]
pub struct SampleFlags {
    pub bits: u64,
}

impl SampleFlags {
    /// Interpret a raw bit set as sample flags, keeping every bit.
    pub fn from_bits_retain(bits: u64) -> (r: SampleFlags)
        ensures
            r.bits == bits,
    {
        SampleFlags { bits }
    }

    /// The raw bit set.
    pub fn bits(&self) -> (r: u64)
        ensures
            r == self.bits,
    {
        self.bits
    }

    /// Whether every bit of `other` is set in `self`.
    pub fn contains(&self, other: SampleFlags) -> (r: bool)
        ensures
            r == has_flags(self.bits, other.bits),
    {
        self.bits & other.bits == other.bits
    }

    /// The flags present in either set.
    pub fn union(self, other: SampleFlags) -> (r: SampleFlags)
        ensures
            r.bits == self.bits | other.bits,
    {
        SampleFlags { bits: self.bits | other.bits }
    }
}

/// Flags that control what data is returned when reading from a perf event
/// file descriptor.
///
/// The bit values correspond to `PERF_FORMAT_x` values of the kernel ABI.
#[derive(Copy, Clone, Debug, PartialEq, Eq, Hash, Structural)]
pub struct ReadFormat {
    pub bits: u64,
}

impl ReadFormat {
    /// Interpret a raw bit set as read-format flags, keeping every bit.
    pub fn from_bits_retain(bits: u64) -> (r: ReadFormat)
        ensures
            r.bits == bits,
    {
        ReadFormat { bits }
    }

    /// The raw bit set.
    pub fn bits(&self) -> (r: u64)
        ensures
            r == self.bits,
    {
        self.bits
    }

    /// Whether every bit of `other` is set in `self`.
    pub fn contains(&self, other: ReadFormat) -> (r: bool)
        ensures
            r == has_flags(self.bits, other.bits),
    {
        self.bits & other.bits == other.bits
    }

    /// The flags present in either set.
    pub fn union(self, other: ReadFormat) -> (r: ReadFormat)
        ensures
            r.bits == self.bits | other.bits,
    {
        ReadFormat { bits: self.bits | other.bits }
    }

    /// The flags of `self` that are not in `other`.
    pub fn difference(self, other: ReadFormat) -> (r: ReadFormat)
        ensures
            r.bits == self.bits & !other.bits,
    {
        ReadFormat { bits: self.bits & !other.bits }
    }

    /// Whether no flag at all is set.
    pub fn is_empty(&self) -> (r: bool)
        ensures
            r == (self.bits == 0),
    {
        self.bits == 0
    }

    /// Whether a bit outside the supported read-format flags is set.
    pub fn has_unsupported_bits(&self) -> (r: bool)
        ensures
            r == (self.bits & !PERF_FORMAT_ALL != 0),
    {
        self.bits & !PERF_FORMAT_ALL != 0
    }

    /// The number of 64-bit words each per-counter block occupies when
    /// reading a group: the value itself, plus the optional id and the
    /// optional lost count.
    pub open spec fn spec_element_len(&self) -> int {
        1 + (if has_flags(self.bits, PERF_FORMAT_ID) { 1int } else { 0 })
            + (if has_flags(self.bits, PERF_FORMAT_LOST) { 1int } else { 0 })
    }

    /// The size of each element, in 64-bit words, when reading a group.
    pub fn element_len(&self) -> (r: usize)
        ensures
            r == self.spec_element_len(),
            1 <= r <= 3,
    {
        let mut len: usize = 1;
        if self.bits & PERF_FORMAT_ID == PERF_FORMAT_ID {
            len = len + 1;
        }
        if self.bits & PERF_FORMAT_LOST == PERF_FORMAT_LOST {
            len = len + 1;
        }
        len
    }
}

} // verus!
