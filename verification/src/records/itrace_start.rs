//! ITRACE_START records.

use vstd::prelude::*;
use crate::endian::Endian;
use crate::parse::fail_post;
use crate::parse::lemma_step;
use crate::parse::u32_at;
use crate::parse::Parse;
use crate::parse::ParseBuf;
use crate::parse::ParseConfig;
use crate::parse::ParseResult;
use crate::parse::Parser;

verus! {

/// ITRACE_START records indicate when a process has started an
/// instruction trace.
#[derive(Copy, Clone, Debug, PartialEq, Eq, Structural)]
pub struct ITraceStart {
    /// Process ID of the thread starting an instruction trace.
    pub pid: u32,
    /// Thread ID of the thread starting an instruction trace.
    pub tid: u32,
}

/// An ITRACE_START body is two 32-bit words.
pub open spec fn itrace_start_post<E: Endian>(
    cfg: ParseConfig<E>,
    pre: Seq<u8>,
    post: Seq<u8>,
    reliable: bool,
    r: ParseResult<ITraceStart>,
) -> bool {
    match r {
        Ok(x) => {
            &&& pre.len() >= 8
            &&& post == pre.skip(8)
            &&& u32_at(cfg.spec_endian(), pre, 0, x.pid)
            &&& u32_at(cfg.spec_endian(), pre, 4, x.tid)
        },
        Err(e) => fail_post(reliable, e, pre.len() as int, post.len() as int, 8),
    }
}

impl<E: Endian> Parse<E> for ITraceStart {
    open spec fn parse_post(
        cfg: ParseConfig<E>,
        pre: Seq<u8>,
        post: Seq<u8>,
        reliable: bool,
        r: ParseResult<ITraceStart>,
    ) -> bool {
        itrace_start_post(cfg, pre, post, reliable, r)
    }

    fn parse<B: ParseBuf>(p: &mut Parser<B, E>) -> (r: ParseResult<ITraceStart>) {
        let ghost pre = p.bytes();
        let pid = p.parse_u32()?;
        let tid = p.parse_u32()?;
        proof {
            lemma_step(pre, 0, 4);
            lemma_step(pre, 4, 4);
        }
        Ok(ITraceStart { pid, tid })
    }
}

} // verus!
