//! AUX_OUTPUT_HW_ID records.

use vstd::prelude::*;
use crate::endian::Endian;
use crate::parse::fail_post;
use crate::parse::lemma_step;
use crate::parse::u64_at;
use crate::parse::Parse;
use crate::parse::ParseBuf;
use crate::parse::ParseConfig;
use crate::parse::ParseResult;
use crate::parse::Parser;

verus! {

/// AUX_OUTPUT_HW_ID events allow matching data written to the aux area
/// with an architecture-specific hardware ID. This is needed when
/// combining processor-trace data with sampling of multiple events.
#[derive(Copy, Clone, Debug, PartialEq, Eq, Structural)]
pub struct AuxOutputHwId {
    /// An architecture-specific hardware ID.
    pub hw_id: u64,
}

/// An AUX_OUTPUT_HW_ID body is a single 64-bit word.
pub open spec fn aux_output_hw_id_post<E: Endian>(
    cfg: ParseConfig<E>,
    pre: Seq<u8>,
    post: Seq<u8>,
    reliable: bool,
    r: ParseResult<AuxOutputHwId>,
) -> bool {
    match r {
        Ok(x) => {
            &&& pre.len() >= 8
            &&& post == pre.skip(8)
            &&& u64_at(cfg.spec_endian(), pre, 0, x.hw_id)
        },
        Err(e) => fail_post(reliable, e, pre.len() as int, post.len() as int, 8),
    }
}

impl<E: Endian> Parse<E> for AuxOutputHwId {
    open spec fn parse_post(
        cfg: ParseConfig<E>,
        pre: Seq<u8>,
        post: Seq<u8>,
        reliable: bool,
        r: ParseResult<AuxOutputHwId>,
    ) -> bool {
        aux_output_hw_id_post(cfg, pre, post, reliable, r)
    }

    fn parse<B: ParseBuf>(p: &mut Parser<B, E>) -> (r: ParseResult<AuxOutputHwId>) {
        let ghost pre = p.bytes();
        let hw_id = p.parse_u64()?;
        proof {
            lemma_step(pre, 0, 8);
        }
        Ok(AuxOutputHwId { hw_id })
    }
}

} // verus!
