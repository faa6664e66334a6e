//! COMM records.

use vstd::prelude::*;
use crate::endian::Endian;
use crate::parse::fail_post;
use crate::parse::lemma_step;
use crate::parse::trim_nuls;
use crate::parse::u32_at;
use crate::parse::Parse;
use crate::parse::ParseBuf;
use crate::parse::ParseConfig;
use crate::parse::ParseResult;
use crate::parse::Parser;

verus! {

/// COMM records indicate changes in process names, whether through
/// `execve`, `prctl(PR_SET_NAME)`, or a write to `/proc/self/comm`.
#[derive(Clone, Debug)]
pub struct Comm {
    /// The process ID.
    pub pid: u32,
    /// The thread ID.
    pub tid: u32,
    /// The new name of the process, with padding NUL bytes stripped.
    pub comm: Vec<u8>,
}

impl Comm {
    /// Convert all the borrowed data in this `Comm` into owned data.
    pub fn into_owned(self) -> (r: Comm)
        ensures
            r == self,
    {
        self
    }
}

/// A COMM body is two 32-bit words followed by the NUL-padded name, which
/// runs to the end of the body.
pub open spec fn comm_post<E: Endian>(
    cfg: ParseConfig<E>,
    pre: Seq<u8>,
    post: Seq<u8>,
    reliable: bool,
    r: ParseResult<Comm>,
) -> bool {
    match r {
        Ok(x) => {
            &&& pre.len() >= 8
            &&& post.len() == 0
            &&& u32_at(cfg.spec_endian(), pre, 0, x.pid)
            &&& u32_at(cfg.spec_endian(), pre, 4, x.tid)
            &&& x.comm@ == trim_nuls(pre.skip(8))
        },
        Err(e) => fail_post(reliable, e, pre.len() as int, post.len() as int, 8),
    }
}

impl<E: Endian> Parse<E> for Comm {
    open spec fn parse_post(
        cfg: ParseConfig<E>,
        pre: Seq<u8>,
        post: Seq<u8>,
        reliable: bool,
        r: ParseResult<Comm>,
    ) -> bool {
        comm_post(cfg, pre, post, reliable, r)
    }

    fn parse<B: ParseBuf>(p: &mut Parser<B, E>) -> (r: ParseResult<Comm>) {
        let ghost pre = p.bytes();
        let pid = p.parse_u32()?;
        let tid = p.parse_u32()?;
        let comm = p.parse_rest_trim_nul()?;
        proof {
            lemma_step(pre, 0, 4);
            lemma_step(pre, 4, 4);
        }
        Ok(Comm { pid, tid, comm })
    }
}

} // verus!
