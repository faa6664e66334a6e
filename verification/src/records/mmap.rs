//! MMAP records.

use vstd::prelude::*;
use crate::endian::Endian;
use crate::parse::fail_post;
use crate::parse::lemma_step;
use crate::parse::trim_nuls;
use crate::parse::u32_at;
use crate::parse::u64_at;
use crate::parse::Parse;
use crate::parse::ParseBuf;
use crate::parse::ParseConfig;
use crate::parse::ParseResult;
use crate::parse::Parser;

verus! {

/// MMAP events record memory mappings.
///
/// Not all memory mappings have a path on the file system: where there is
/// no such path, `filename` is a label string from the kernel such as
/// `[stack]` or `[heap]`.
#[derive(Clone, Debug)]
pub struct Mmap {
    /// The process ID.
    pub pid: u32,
    /// The thread ID.
    pub tid: u32,
    /// The address the mapping was placed at in the process address space.
    pub addr: u64,
    /// The length, in bytes, of the allocated memory.
    pub len: u64,
    /// The page offset of the memory mapping.
    pub pgoff: u64,
    /// The path to the file that is being mapped, if there is one, with
    /// padding NUL bytes stripped.
    pub filename: Vec<u8>,
}

impl Mmap {
    /// Convert all the borrowed data in this `Mmap` into owned data.
    pub fn into_owned(self) -> (r: Mmap)
        ensures
            r == self,
    {
        self
    }
}

/// An MMAP body is two 32-bit words, three 64-bit words, and the
/// NUL-padded filename, which runs to the end of the body.
pub open spec fn mmap_post<E: Endian>(
    cfg: ParseConfig<E>,
    pre: Seq<u8>,
    post: Seq<u8>,
    reliable: bool,
    r: ParseResult<Mmap>,
) -> bool {
    match r {
        Ok(x) => {
            &&& pre.len() >= 32
            &&& post.len() == 0
            &&& u32_at(cfg.spec_endian(), pre, 0, x.pid)
            &&& u32_at(cfg.spec_endian(), pre, 4, x.tid)
            &&& u64_at(cfg.spec_endian(), pre, 8, x.addr)
            &&& u64_at(cfg.spec_endian(), pre, 16, x.len)
            &&& u64_at(cfg.spec_endian(), pre, 24, x.pgoff)
            &&& x.filename@ == trim_nuls(pre.skip(32))
        },
        Err(e) => fail_post(reliable, e, pre.len() as int, post.len() as int, 32),
    }
}

impl<E: Endian> Parse<E> for Mmap {
    open spec fn parse_post(
        cfg: ParseConfig<E>,
        pre: Seq<u8>,
        post: Seq<u8>,
        reliable: bool,
        r: ParseResult<Mmap>,
    ) -> bool {
        mmap_post(cfg, pre, post, reliable, r)
    }

    fn parse<B: ParseBuf>(p: &mut Parser<B, E>) -> (r: ParseResult<Mmap>) {
        let ghost pre = p.bytes();
        let pid = p.parse_u32()?;
        let tid = p.parse_u32()?;
        let addr = p.parse_u64()?;
        let len = p.parse_u64()?;
        let pgoff = p.parse_u64()?;
        let filename = p.parse_rest_trim_nul()?;
        proof {
            lemma_step(pre, 0, 4);
            lemma_step(pre, 4, 4);
            lemma_step(pre, 8, 8);
            lemma_step(pre, 16, 8);
            lemma_step(pre, 24, 8);
        }
        Ok(Mmap { pid, tid, addr, len, pgoff, filename })
    }
}

} // verus!
