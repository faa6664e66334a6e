//! EXIT (and FORK) records.

use vstd::prelude::*;
use crate::endian::Endian;
use crate::parse::fail_post;
use crate::parse::lemma_step;
use crate::parse::u32_at;
use crate::parse::u64_at;
use crate::parse::Parse;
use crate::parse::ParseBuf;
use crate::parse::ParseConfig;
use crate::parse::ParseResult;
use crate::parse::Parser;

verus! {

/// EXIT records indicate that a process has exited; the same layout, under
/// a different type tag, reports that a process called `fork`.
#[derive(Copy, Clone, Debug, PartialEq, Eq, Structural)]
pub struct Exit {
    /// The process ID.
    pub pid: u32,
    /// The parent process ID.
    pub ppid: u32,
    /// The thread ID.
    pub tid: u32,
    /// The parent thread ID.
    pub ptid: u32,
    /// The time the event happened.
    pub time: u64,
}

/// An EXIT body is four 32-bit words followed by one 64-bit word.
pub open spec fn exit_post<E: Endian>(
    cfg: ParseConfig<E>,
    pre: Seq<u8>,
    post: Seq<u8>,
    reliable: bool,
    r: ParseResult<Exit>,
) -> bool {
    match r {
        Ok(x) => {
            &&& pre.len() >= 24
            &&& post == pre.skip(24)
            &&& u32_at(cfg.spec_endian(), pre, 0, x.pid)
            &&& u32_at(cfg.spec_endian(), pre, 4, x.ppid)
            &&& u32_at(cfg.spec_endian(), pre, 8, x.tid)
            &&& u32_at(cfg.spec_endian(), pre, 12, x.ptid)
            &&& u64_at(cfg.spec_endian(), pre, 16, x.time)
        },
        Err(e) => fail_post(reliable, e, pre.len() as int, post.len() as int, 24),
    }
}

impl<E: Endian> Parse<E> for Exit {
    open spec fn parse_post(
        cfg: ParseConfig<E>,
        pre: Seq<u8>,
        post: Seq<u8>,
        reliable: bool,
        r: ParseResult<Exit>,
    ) -> bool {
        exit_post(cfg, pre, post, reliable, r)
    }

    fn parse<B: ParseBuf>(p: &mut Parser<B, E>) -> (r: ParseResult<Exit>) {
        let ghost pre = p.bytes();
        let pid = p.parse_u32()?;
        let ppid = p.parse_u32()?;
        let tid = p.parse_u32()?;
        let ptid = p.parse_u32()?;
        let time = p.parse_u64()?;
        proof {
            lemma_step(pre, 0, 4);
            lemma_step(pre, 4, 4);
            lemma_step(pre, 8, 4);
            lemma_step(pre, 12, 4);
            lemma_step(pre, 16, 8);
        }
        Ok(Exit { pid, ppid, tid, ptid, time })
    }
}

} // verus!
