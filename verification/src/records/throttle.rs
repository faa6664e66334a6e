//! THROTTLE and UNTHROTTLE records.

use vstd::prelude::*;
use crate::endian::Endian;
use crate::parse::fail_post;
use crate::parse::lemma_step;
use crate::parse::u64_at;
use crate::parse::Parse;
use crate::parse::ParseBuf;
use crate::parse::ParseConfig;
use crate::parse::ParseResult;
use crate::parse::Parser;

verus! {

/// Record for throttle or unthrottle events.
///
/// These are generated when the sampler generates too many events during a
/// given timer tick: the kernel disables the counter for the rest of the
/// tick and emits a throttle/unthrottle pair around the gap.
#[derive(Copy, Clone, Debug, PartialEq, Eq, Structural)]
pub struct Throttle {
    /// The time the throttling started or ended.
    pub time: u64,
    /// The unique event ID of the counter.
    pub id: u64,
    /// The stream ID of the counter.
    pub stream_id: u64,
}

/// A THROTTLE body is three 64-bit words.
pub open spec fn throttle_post<E: Endian>(
    cfg: ParseConfig<E>,
    pre: Seq<u8>,
    post: Seq<u8>,
    reliable: bool,
    r: ParseResult<Throttle>,
) -> bool {
    match r {
        Ok(x) => {
            &&& pre.len() >= 24
            &&& post == pre.skip(24)
            &&& u64_at(cfg.spec_endian(), pre, 0, x.time)
            &&& u64_at(cfg.spec_endian(), pre, 8, x.id)
            &&& u64_at(cfg.spec_endian(), pre, 16, x.stream_id)
        },
        Err(e) => fail_post(reliable, e, pre.len() as int, post.len() as int, 24),
    }
}

impl<E: Endian> Parse<E> for Throttle {
    open spec fn parse_post(
        cfg: ParseConfig<E>,
        pre: Seq<u8>,
        post: Seq<u8>,
        reliable: bool,
        r: ParseResult<Throttle>,
    ) -> bool {
        throttle_post(cfg, pre, post, reliable, r)
    }

    fn parse<B: ParseBuf>(p: &mut Parser<B, E>) -> (r: ParseResult<Throttle>) {
        let ghost pre = p.bytes();
        let time = p.parse_u64()?;
        let id = p.parse_u64()?;
        let stream_id = p.parse_u64()?;
        proof {
            lemma_step(pre, 0, 8);
            lemma_step(pre, 8, 8);
            lemma_step(pre, 16, 8);
        }
        Ok(Throttle { time, id, stream_id })
    }
}

} // verus!
