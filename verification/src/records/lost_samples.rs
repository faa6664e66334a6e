//! LOST_SAMPLES records.

use vstd::prelude::*;
use crate::endian::Endian;
use crate::parse::fail_post;
use crate::parse::lemma_step;
use crate::parse::u64_at;
use crate::parse::Parse;
use crate::parse::ParseBuf;
use crate::parse::ParseConfig;
use crate::parse::ParseResult;
use crate::parse::Parser;

verus! {

/// LOST_SAMPLES records indicate that some samples were lost while using
/// hardware sampling.
#[derive(Copy, Clone, Debug, PartialEq, Eq, Structural)]
pub struct LostSamples {
    /// The number of potentially lost samples.
    pub lost: u64,
}

/// A LOST_SAMPLES body is a single 64-bit word.
pub open spec fn lost_samples_post<E: Endian>(
    cfg: ParseConfig<E>,
    pre: Seq<u8>,
    post: Seq<u8>,
    reliable: bool,
    r: ParseResult<LostSamples>,
) -> bool {
    match r {
        Ok(x) => {
            &&& pre.len() >= 8
            &&& post == pre.skip(8)
            &&& u64_at(cfg.spec_endian(), pre, 0, x.lost)
        },
        Err(e) => fail_post(reliable, e, pre.len() as int, post.len() as int, 8),
    }
}

impl<E: Endian> Parse<E> for LostSamples {
    open spec fn parse_post(
        cfg: ParseConfig<E>,
        pre: Seq<u8>,
        post: Seq<u8>,
        reliable: bool,
        r: ParseResult<LostSamples>,
    ) -> bool {
        lost_samples_post(cfg, pre, post, reliable, r)
    }

    fn parse<B: ParseBuf>(p: &mut Parser<B, E>) -> (r: ParseResult<LostSamples>) {
        let ghost pre = p.bytes();
        let lost = p.parse_u64()?;
        proof {
            lemma_step(pre, 0, 8);
        }
        Ok(LostSamples { lost })
    }
}

} // verus!
