//! LOST records.

use vstd::prelude::*;
use crate::endian::Endian;
use crate::parse::fail_post;
use crate::parse::lemma_step;
use crate::parse::u64_at;
use crate::parse::Parse;
use crate::parse::ParseBuf;
use crate::parse::ParseConfig;
use crate::parse::ParseResult;
use crate::parse::Parser;

verus! {

/// LOST records indicate when events are dropped by the kernel, which
/// happens when the sampler ring buffer fills up.
#[derive(Copy, Clone, Debug, PartialEq, Eq, Structural)]
pub struct Lost {
    /// The unique event ID for the samples that were lost.
    pub id: u64,
    /// The number of events that were lost.
    pub lost: u64,
}

/// A LOST body is two 64-bit words.
pub open spec fn lost_post<E: Endian>(
    cfg: ParseConfig<E>,
    pre: Seq<u8>,
    post: Seq<u8>,
    reliable: bool,
    r: ParseResult<Lost>,
) -> bool {
    match r {
        Ok(x) => {
            &&& pre.len() >= 16
            &&& post == pre.skip(16)
            &&& u64_at(cfg.spec_endian(), pre, 0, x.id)
            &&& u64_at(cfg.spec_endian(), pre, 8, x.lost)
        },
        Err(e) => fail_post(reliable, e, pre.len() as int, post.len() as int, 16),
    }
}

impl<E: Endian> Parse<E> for Lost {
    open spec fn parse_post(
        cfg: ParseConfig<E>,
        pre: Seq<u8>,
        post: Seq<u8>,
        reliable: bool,
        r: ParseResult<Lost>,
    ) -> bool {
        lost_post(cfg, pre, post, reliable, r)
    }

    fn parse<B: ParseBuf>(p: &mut Parser<B, E>) -> (r: ParseResult<Lost>) {
        let ghost pre = p.bytes();
        let id = p.parse_u64()?;
        let lost = p.parse_u64()?;
        proof {
            lemma_step(pre, 0, 8);
            lemma_step(pre, 8, 8);
        }
        Ok(Lost { id, lost })
    }
}

} // verus!
