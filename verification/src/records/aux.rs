//! AUX records.

use vstd::prelude::*;
use crate::endian::Endian;
use crate::parse::fail_post;
use crate::parse::lemma_step;
use crate::parse::u64_at;
use crate::parse::Parse;
use crate::parse::ParseBuf;
use crate::parse::ParseConfig;
use crate::parse::ParseResult;
use crate::parse::Parser;

verus! {

/// Flag: the data returned was truncated to fit within the buffer size.
pub const PERF_AUX_FLAG_TRUNCATED: u64 = 0x1;

/// Flag: the data returned overwrote previous data.
pub const PERF_AUX_FLAG_OVERWRITE: u64 = 0x2;

/// Flag: the record contains gaps.
pub const PERF_AUX_FLAG_PARTIAL: u64 = 0x4;

/// Flag: the aux sample collided with another.
pub const PERF_AUX_FLAG_COLLISION: u64 = 0x8;

/// The bits of the aux flags that carry an [`AuxPmuFormatType`].
pub const PERF_AUX_FLAG_PMU_FORMAT_TYPE_MASK: u64 = 0xFF00;

/// Flags describing an aux buffer update.
#[derive(Copy, Clone, Debug, PartialEq, Eq, Hash, Structural)]
pub struct AuxFlags {
    /// The raw bit set.
    pub bits: u64,
}

/// PMU-specific trace format type, carried inside [`AuxFlags`].
#[derive(Copy, Clone, Debug, PartialEq, Eq, Hash, Structural)]
pub struct AuxPmuFormatType {
    /// The raw format type value.
    pub value: u8,
}

impl AuxFlags {
    /// PMU-specific trace format type.
    pub fn pmu_format_type(&self) -> (r: AuxPmuFormatType)
        ensures
            r.value == ((self.bits & PERF_AUX_FLAG_PMU_FORMAT_TYPE_MASK) >> 8) as u8,
    {
        AuxPmuFormatType { value: ((self.bits & PERF_AUX_FLAG_PMU_FORMAT_TYPE_MASK) >> 8u64) as u8 }
    }
}

/// AUX records indicate that new data is available in the aux buffer
/// region.
#[derive(Copy, Clone, Debug, PartialEq, Eq, Structural)]
pub struct Aux {
    /// The offset in the aux mmap region where the new data begins.
    pub aux_offset: u64,
    /// The amount of new data, in bytes.
    pub aux_size: u64,
    /// Flags describing the update.
    pub flags: AuxFlags,
}

/// An AUX body is three 64-bit words, the last carrying the flags.
pub open spec fn aux_post<E: Endian>(
    cfg: ParseConfig<E>,
    pre: Seq<u8>,
    post: Seq<u8>,
    reliable: bool,
    r: ParseResult<Aux>,
) -> bool {
    match r {
        Ok(x) => {
            &&& pre.len() >= 24
            &&& post == pre.skip(24)
            &&& u64_at(cfg.spec_endian(), pre, 0, x.aux_offset)
            &&& u64_at(cfg.spec_endian(), pre, 8, x.aux_size)
            &&& u64_at(cfg.spec_endian(), pre, 16, x.flags.bits)
        },
        Err(e) => fail_post(reliable, e, pre.len() as int, post.len() as int, 24),
    }
}

impl<E: Endian> Parse<E> for Aux {
    open spec fn parse_post(
        cfg: ParseConfig<E>,
        pre: Seq<u8>,
        post: Seq<u8>,
        reliable: bool,
        r: ParseResult<Aux>,
    ) -> bool {
        aux_post(cfg, pre, post, reliable, r)
    }

    fn parse<B: ParseBuf>(p: &mut Parser<B, E>) -> (r: ParseResult<Aux>) {
        let ghost pre = p.bytes();
        let aux_offset = p.parse_u64()?;
        let aux_size = p.parse_u64()?;
        let bits = p.parse_u64()?;
        proof {
            lemma_step(pre, 0, 8);
            lemma_step(pre, 8, 8);
            lemma_step(pre, 16, 8);
        }
        Ok(Aux { aux_offset, aux_size, flags: AuxFlags { bits } })
    }
}

} // verus!
