//! The compact, immutable snapshot of all decode-relevant configuration.
//!
//! One `ParseConfig` is carried through every single field decode, so the
//! boolean/flag portion is tightly packed into a single 64-bit word using
//! named, non-overlapping bit ranges.

use vstd::prelude::*;
use crate::endian::Endian;
use crate::flags::ReadFormat;
use crate::flags::SampleFlags;

verus! {

/// Bits 0..6 of the packed word hold the read-format flags, with bit 5
/// marking that unsupported read-format bits were present.
pub const CONFIG_READ_FORMAT_MASK: u64 = 0x3F;

/// Bits 6..46 of the packed word hold the sample-type flags.
pub const CONFIG_SAMPLE_TYPE_MASK: u64 = 0x0000_3FFF_FFFF_FFC0;

/// Bit 46 of the packed word holds `sample_id_all`.
pub const CONFIG_SAMPLE_ID_ALL_BIT: u64 = 0x0000_4000_0000_0000;

/// Bit 47 of the packed word holds `branch_hw_index`.
pub const CONFIG_BRANCH_HW_INDEX_BIT: u64 = 0x0000_8000_0000_0000;

/// Bits 48..64 of the packed word hold the per-record `misc` value.
pub const CONFIG_MISC_MASK: u64 = 0xFFFF_0000_0000_0000;

/// How many bits the currently known `PERF_SAMPLE_*` flags occupy. The
/// kernel may define new flags; the packed range reserves spare room, and a
/// test checks that at least 8 spare bits remain.
pub const SAMPLE_TYPE_WIDTH: u32 = 25;

/// How a requested read-format value is stored in the packed word: the five
/// known flag bits are kept, and any higher bit is folded into a single
/// marker bit, so that an unsupported request is still detected later.
pub open spec fn clip_read_format(rf: u64) -> u64 {
    (rf & 0x1F) | (if rf & !0x1F != 0 {
        0x20u64
    } else {
        0u64
    })
}

pub open spec fn spec_cf_read_format(bits: u64) -> u64 {
    bits & CONFIG_READ_FORMAT_MASK
}

pub open spec fn spec_cf_sample_type(bits: u64) -> u64 {
    (bits & CONFIG_SAMPLE_TYPE_MASK) >> 6
}

pub open spec fn spec_cf_sample_id_all(bits: u64) -> bool {
    bits & CONFIG_SAMPLE_ID_ALL_BIT != 0
}

pub open spec fn spec_cf_branch_hw_index(bits: u64) -> bool {
    bits & CONFIG_BRANCH_HW_INDEX_BIT != 0
}

pub open spec fn spec_cf_misc(bits: u64) -> u16 {
    (bits >> 48) as u16
}

/// The packed flag word. See the module documentation: the named ranges
/// must never overlap.
#[derive(Copy, Clone, Debug, PartialEq, Eq, Structural)]
struct ConfigFlags {
    bits: u64,
}

impl ConfigFlags {
    fn new(read_format: u64, sample_type: u64, sample_id_all: bool, branch_hw_index: bool, misc: u16) -> (r:
        ConfigFlags)
        ensures
            spec_cf_read_format(r.bits) == clip_read_format(read_format),
            spec_cf_sample_type(r.bits) == sample_type & 0xFF_FFFF_FFFF,
            spec_cf_sample_id_all(r.bits) == sample_id_all,
            spec_cf_branch_hw_index(r.bits) == branch_hw_index,
            spec_cf_misc(r.bits) == misc,
    {
        let marker: u64 = if read_format & !0x1F != 0 {
            0x20u64
        } else {
            0u64
        };
        let rf_clipped: u64 = (read_format & 0x1F) | marker;
        proof {
            assert(rf_clipped <= 0x3F) by (bit_vector)
                requires
                    rf_clipped == (read_format & 0x1Fu64) | marker,
                    marker == 0x20u64 || marker == 0u64,
            ;
        }
        let sia: u64 = if sample_id_all {
            CONFIG_SAMPLE_ID_ALL_BIT
        } else {
            0
        };
        let bhi: u64 = if branch_hw_index {
            CONFIG_BRANCH_HW_INDEX_BIT
        } else {
            0
        };
        let bits: u64 = rf_clipped | ((sample_type & 0xFF_FFFF_FFFF) << 6u64) | sia | bhi | ((
        misc as u64) << 48u64);
        proof {
            let rf = rf_clipped;
            let sty = sample_type;
            let m = misc;
            assert((bits & 0x3F) == rf && ((bits & 0x0000_3FFF_FFFF_FFC0u64) >> 6) == (sty
                & 0xFF_FFFF_FFFFu64) && ((bits & 0x0000_4000_0000_0000u64 != 0) <==> (sia != 0)) && ((
            bits & 0x0000_8000_0000_0000u64 != 0) <==> (bhi != 0)) && ((bits >> 48) as u16) == m)
                by (bit_vector)
                requires
                    bits == rf | ((sty & 0xFF_FFFF_FFFFu64) << 6u64) | sia | bhi | ((m as u64)
                        << 48u64),
                    rf <= 0x3F,
                    sia == 0 || sia == 0x0000_4000_0000_0000u64,
                    bhi == 0 || bhi == 0x0000_8000_0000_0000u64,
            ;
        }
        ConfigFlags { bits }
    }
}

/// All the configuration data needed to parse any perf record.
#[derive(Copy, Clone, Debug, PartialEq, Eq)]
pub struct ParseConfig<E> {
    flags: ConfigFlags,
    sample_regs_user: u64,
    sample_regs_intr: u64,
    endian: E,
}

impl<E> ParseConfig<E> {
    /// The requested read-format flags, as stored in the packed word.
    pub closed spec fn spec_read_format(&self) -> u64 {
        spec_cf_read_format(self.flags.bits)
    }

    /// The requested sample-type flags, as stored in the packed word.
    pub closed spec fn spec_sample_type(&self) -> u64 {
        spec_cf_sample_type(self.flags.bits)
    }

    /// Whether every record carries a trailing `SampleId`.
    pub closed spec fn spec_sample_id_all(&self) -> bool {
        spec_cf_sample_id_all(self.flags.bits)
    }

    /// Whether a branch-stack record carries the hardware index field.
    pub closed spec fn spec_branch_hw_index(&self) -> bool {
        spec_cf_branch_hw_index(self.flags.bits)
    }

    /// The per-record `misc` value.
    pub closed spec fn spec_misc(&self) -> u16 {
        spec_cf_misc(self.flags.bits)
    }

    /// The mask of requested user-space registers.
    pub closed spec fn spec_regs_user(&self) -> u64 {
        self.sample_regs_user
    }

    /// The mask of requested interrupt-time registers.
    pub closed spec fn spec_regs_intr(&self) -> u64 {
        self.sample_regs_intr
    }

    /// The active endian strategy.
    pub closed spec fn spec_endian(&self) -> E {
        self.endian
    }

    /// A configuration with nothing requested, under the given endian.
    pub fn new(endian: E) -> (r: ParseConfig<E>)
        ensures
            r.spec_read_format() == 0,
            r.spec_sample_type() == 0,
            !r.spec_sample_id_all(),
            !r.spec_branch_hw_index(),
            r.spec_misc() == 0,
            r.spec_regs_user() == 0,
            r.spec_regs_intr() == 0,
            r.spec_endian() == endian,
    {
        proof {
            assert((0u64 & 0x3Fu64) == 0 && ((0u64 & 0x0000_3FFF_FFFF_FFC0u64) >> 6) == 0 && (0u64
                & 0x0000_4000_0000_0000u64) == 0 && (0u64 & 0x0000_8000_0000_0000u64) == 0 && ((0u64
                >> 48) as u16) == 0) by (bit_vector);
        }
        ParseConfig { flags: ConfigFlags { bits: 0 }, sample_regs_user: 0, sample_regs_intr: 0, endian }
    }

    /// Assemble a configuration from its parts: what an `EventAttr`
    /// carries, plus the endian.
    pub fn from_parts(
        endian: E,
        sample_type: SampleFlags,
        read_format: ReadFormat,
        sample_id_all: bool,
        branch_hw_index: bool,
        regs_user: u64,
        regs_intr: u64,
    ) -> (r: ParseConfig<E>)
        ensures
            r.spec_read_format() == clip_read_format(read_format.bits),
            r.spec_sample_type() == sample_type.bits & 0xFF_FFFF_FFFF,
            r.spec_sample_id_all() == sample_id_all,
            r.spec_branch_hw_index() == branch_hw_index,
            r.spec_misc() == 0,
            r.spec_regs_user() == regs_user,
            r.spec_regs_intr() == regs_intr,
            r.spec_endian() == endian,
    {
        ParseConfig {
            flags: ConfigFlags::new(read_format.bits, sample_type.bits, sample_id_all, branch_hw_index, 0),
            sample_regs_user: regs_user,
            sample_regs_intr: regs_intr,
            endian,
        }
    }

    /// Use this `ParseConfig` with a different `Endian`.
    pub fn with_endian<E2: Endian>(self, endian: E2) -> (r: ParseConfig<E2>)
        ensures
            r.spec_read_format() == self.spec_read_format(),
            r.spec_sample_type() == self.spec_sample_type(),
            r.spec_sample_id_all() == self.spec_sample_id_all(),
            r.spec_branch_hw_index() == self.spec_branch_hw_index(),
            r.spec_misc() == self.spec_misc(),
            r.spec_regs_user() == self.spec_regs_user(),
            r.spec_regs_intr() == self.spec_regs_intr(),
            r.spec_endian() == endian,
    {
        ParseConfig {
            flags: self.flags,
            sample_regs_user: self.sample_regs_user,
            sample_regs_intr: self.sample_regs_intr,
            endian,
        }
    }
}

impl<E: Endian> ParseConfig<E> {
    /// Flags controlling what fields are returned by the kernel when
    /// reading from a counter.
    pub fn read_format(&self) -> (r: ReadFormat)
        ensures
            r.bits == self.spec_read_format(),
    {
        ReadFormat::from_bits_retain(self.flags.bits & CONFIG_READ_FORMAT_MASK)
    }

    /// Flags indicating which fields are captured by the kernel when
    /// collecting a sample.
    pub fn sample_type(&self) -> (r: SampleFlags)
        ensures
            r.bits == self.spec_sample_type(),
    {
        SampleFlags::from_bits_retain((self.flags.bits & CONFIG_SAMPLE_TYPE_MASK) >> 6u64)
    }

    /// Bitmask indicating which user-space registers are saved when the
    /// kernel takes a sample.
    pub fn regs_user(&self) -> (r: u64)
        ensures
            r == self.spec_regs_user(),
    {
        self.sample_regs_user
    }

    /// Bitmask indicating which registers are saved when the kernel takes a
    /// sample; the source registers may be in either kernel-space or
    /// user-space depending on where the sampling interrupt occurred.
    pub fn regs_intr(&self) -> (r: u64)
        ensures
            r == self.spec_regs_intr(),
    {
        self.sample_regs_intr
    }

    /// Whether every record carries a trailing `SampleId`.
    pub fn sample_id_all(&self) -> (r: bool)
        ensures
            r == self.spec_sample_id_all(),
    {
        self.flags.bits & CONFIG_SAMPLE_ID_ALL_BIT != 0
    }

    /// Whether a branch-stack record carries the hardware index field.
    pub fn branch_hw_index(&self) -> (r: bool)
        ensures
            r == self.spec_branch_hw_index(),
    {
        self.flags.bits & CONFIG_BRANCH_HW_INDEX_BIT != 0
    }

    /// The `misc` value of the record currently being decoded.
    pub fn misc(&self) -> (r: u16)
        ensures
            r == self.spec_misc(),
    {
        (self.flags.bits >> 48u64) as u16
    }

    /// The [`Endian`] for this `ParseConfig`.
    pub fn endian(&self) -> (r: &E)
        ensures
            *r == self.spec_endian(),
    {
        &self.endian
    }

    /// Replace only the sample-type flags.
    pub fn with_sample_type(self, sample_type: SampleFlags) -> (r: ParseConfig<E>)
        ensures
            r.spec_read_format() == self.spec_read_format(),
            r.spec_sample_type() == sample_type.bits & 0xFF_FFFF_FFFF,
            r.spec_sample_id_all() == self.spec_sample_id_all(),
            r.spec_branch_hw_index() == self.spec_branch_hw_index(),
            r.spec_misc() == self.spec_misc(),
            r.spec_regs_user() == self.spec_regs_user(),
            r.spec_regs_intr() == self.spec_regs_intr(),
            r.spec_endian() == self.spec_endian(),
    {
        proof {
            lemma_config_clip_idempotent(self.flags.bits);
        }
        let rf = self.read_format();
        ParseConfig {
            flags: ConfigFlags::new(
                rf.bits,
                sample_type.bits,
                self.sample_id_all(),
                self.branch_hw_index(),
                self.misc(),
            ),
            sample_regs_user: self.sample_regs_user,
            sample_regs_intr: self.sample_regs_intr,
            endian: self.endian,
        }
    }

    /// Replace only the read-format flags.
    pub fn with_read_format(self, read_format: ReadFormat) -> (r: ParseConfig<E>)
        ensures
            r.spec_read_format() == clip_read_format(read_format.bits),
            r.spec_sample_type() == self.spec_sample_type(),
            r.spec_sample_id_all() == self.spec_sample_id_all(),
            r.spec_branch_hw_index() == self.spec_branch_hw_index(),
            r.spec_misc() == self.spec_misc(),
            r.spec_regs_user() == self.spec_regs_user(),
            r.spec_regs_intr() == self.spec_regs_intr(),
            r.spec_endian() == self.spec_endian(),
    {
        proof {
            lemma_config_clip_idempotent(self.flags.bits);
        }
        ParseConfig {
            flags: ConfigFlags::new(
                read_format.bits,
                self.sample_type().bits,
                self.sample_id_all(),
                self.branch_hw_index(),
                self.misc(),
            ),
            sample_regs_user: self.sample_regs_user,
            sample_regs_intr: self.sample_regs_intr,
            endian: self.endian,
        }
    }

    /// Replace only the register masks.
    pub fn with_regs(self, regs_user: u64, regs_intr: u64) -> (r: ParseConfig<E>)
        ensures
            r.spec_read_format() == self.spec_read_format(),
            r.spec_sample_type() == self.spec_sample_type(),
            r.spec_sample_id_all() == self.spec_sample_id_all(),
            r.spec_branch_hw_index() == self.spec_branch_hw_index(),
            r.spec_misc() == self.spec_misc(),
            r.spec_regs_user() == regs_user,
            r.spec_regs_intr() == regs_intr,
            r.spec_endian() == self.spec_endian(),
    {
        ParseConfig {
            flags: self.flags,
            sample_regs_user: regs_user,
            sample_regs_intr: regs_intr,
            endian: self.endian,
        }
    }

    /// Replace only `sample_id_all`.
    pub fn with_sample_id_all(self, sample_id_all: bool) -> (r: ParseConfig<E>)
        ensures
            r.spec_read_format() == self.spec_read_format(),
            r.spec_sample_type() == self.spec_sample_type(),
            r.spec_sample_id_all() == sample_id_all,
            r.spec_branch_hw_index() == self.spec_branch_hw_index(),
            r.spec_misc() == self.spec_misc(),
            r.spec_regs_user() == self.spec_regs_user(),
            r.spec_regs_intr() == self.spec_regs_intr(),
            r.spec_endian() == self.spec_endian(),
    {
        proof {
            lemma_config_clip_idempotent(self.flags.bits);
        }
        ParseConfig {
            flags: ConfigFlags::new(
                self.read_format().bits,
                self.sample_type().bits,
                sample_id_all,
                self.branch_hw_index(),
                self.misc(),
            ),
            sample_regs_user: self.sample_regs_user,
            sample_regs_intr: self.sample_regs_intr,
            endian: self.endian,
        }
    }

    /// Replace only `branch_hw_index`.
    pub fn with_branch_hw_index(self, branch_hw_index: bool) -> (r: ParseConfig<E>)
        ensures
            r.spec_read_format() == self.spec_read_format(),
            r.spec_sample_type() == self.spec_sample_type(),
            r.spec_sample_id_all() == self.spec_sample_id_all(),
            r.spec_branch_hw_index() == branch_hw_index,
            r.spec_misc() == self.spec_misc(),
            r.spec_regs_user() == self.spec_regs_user(),
            r.spec_regs_intr() == self.spec_regs_intr(),
            r.spec_endian() == self.spec_endian(),
    {
        proof {
            lemma_config_clip_idempotent(self.flags.bits);
        }
        ParseConfig {
            flags: ConfigFlags::new(
                self.read_format().bits,
                self.sample_type().bits,
                self.sample_id_all(),
                branch_hw_index,
                self.misc(),
            ),
            sample_regs_user: self.sample_regs_user,
            sample_regs_intr: self.sample_regs_intr,
            endian: self.endian,
        }
    }

    /// Replace only `misc`; used when entering a record's body, since
    /// `misc` is record-specific but lives in the shared configuration for
    /// compactness.
    pub fn with_misc(self, misc: u16) -> (r: ParseConfig<E>)
        ensures
            r.spec_read_format() == self.spec_read_format(),
            r.spec_sample_type() == self.spec_sample_type(),
            r.spec_sample_id_all() == self.spec_sample_id_all(),
            r.spec_branch_hw_index() == self.spec_branch_hw_index(),
            r.spec_misc() == misc,
            r.spec_regs_user() == self.spec_regs_user(),
            r.spec_regs_intr() == self.spec_regs_intr(),
            r.spec_endian() == self.spec_endian(),
    {
        proof {
            lemma_config_clip_idempotent(self.flags.bits);
        }
        ParseConfig {
            flags: ConfigFlags::new(
                self.read_format().bits,
                self.sample_type().bits,
                self.sample_id_all(),
                self.branch_hw_index(),
                misc,
            ),
            sample_regs_user: self.sample_regs_user,
            sample_regs_intr: self.sample_regs_intr,
            endian: self.endian,
        }
    }
}

/// The stored sample type is already 40 bits wide, so re-clipping it keeps
/// it unchanged; likewise a stored read format is already clipped.
pub proof fn lemma_config_clip_idempotent(bits: u64)
    ensures
        spec_cf_sample_type(bits) & 0xFF_FFFF_FFFF == spec_cf_sample_type(bits),
        clip_read_format(spec_cf_read_format(bits)) == spec_cf_read_format(bits),
{
    assert(((bits & 0x0000_3FFF_FFFF_FFC0u64) >> 6) & 0xFF_FFFF_FFFFu64 == ((bits
        & 0x0000_3FFF_FFFF_FFC0u64) >> 6)) by (bit_vector);
    let rf = bits & 0x3Fu64;
    assert(rf <= 0x3F && (rf & 0x3Fu64) == rf) by (bit_vector)
        requires
            rf == bits & 0x3Fu64,
    ;
    if rf & !0x1F != 0 {
        assert((rf & 0x1Fu64) | 0x20u64 == rf) by (bit_vector)
            requires
                rf <= 0x3F,
                rf & !0x1Fu64 != 0,
        ;
    } else {
        assert((rf & 0x1Fu64) | 0u64 == rf) by (bit_vector)
            requires
                rf <= 0x3F,
                rf & !0x1Fu64 == 0,
        ;
    }
}

} // verus!
