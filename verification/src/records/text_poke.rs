//! TEXT_POKE records.

use vstd::prelude::*;
use crate::endian::Endian;
use crate::error::ErrorKind;
use crate::parse::lemma_step;
use crate::parse::u16_at;
use crate::parse::u64_at;
use crate::parse::Parse;
use crate::parse::ParseBuf;
use crate::parse::ParseConfig;
use crate::parse::ParseResult;
use crate::parse::Parser;

verus! {

/// The smallest value at least `v` that is congruent to `k` modulo `m`.
pub open spec fn round_up_mod_spec(v: int, k: int, m: int) -> int {
    v + (if v % m <= k {
        k - v % m
    } else {
        k + m - v % m
    })
}

/// Round `v` up so that it is equal to `k` modulo `m`.
pub fn round_up_mod(v: usize, k: usize, m: usize) -> (r: usize)
    requires
        0 < m,
        k < m,
        v + m <= usize::MAX,
        k + m <= usize::MAX,
    ensures
        r == round_up_mod_spec(v as int, k as int, m as int),
        v <= r < v + m,
{
    let vm = v % m;
    if vm <= k {
        v + (k - vm)
    } else {
        v + (k + m - vm)
    }
}

/// TEXT_POKE records indicate a change in the kernel text.
#[derive(Clone, Debug)]
pub struct TextPoke {
    /// The address of the change.
    pub addr: u64,
    /// The old bytes at `addr`.
    pub old_bytes: Vec<u8>,
    /// The new bytes at `addr`.
    pub new_bytes: Vec<u8>,
}

impl TextPoke {
    /// Convert all the borrowed data in this `TextPoke` into owned data.
    pub fn to_owned(self) -> (r: TextPoke)
        ensures
            r == self,
    {
        self
    }
}

/// A TEXT_POKE body is a 64-bit address, two 16-bit byte counts, and the
/// old and new bytes back to back, padded so that the record stays a
/// multiple of eight bytes long.
pub open spec fn text_poke_post<E: Endian>(
    cfg: ParseConfig<E>,
    pre: Seq<u8>,
    post: Seq<u8>,
    reliable: bool,
    r: ParseResult<TextPoke>,
) -> bool {
    match r {
        Ok(x) => {
            &&& pre.len() >= 12
            &&& u64_at(cfg.spec_endian(), pre, 0, x.addr)
            &&& exists|ol: u16, nl: u16|
                {
                    let full = round_up_mod_spec(ol + nl, 4, 8);
                    &&& #[trigger] u16_at(cfg.spec_endian(), pre, 8, ol)
                    &&& #[trigger] u16_at(cfg.spec_endian(), pre, 10, nl)
                    &&& pre.len() >= 12 + full
                    &&& x.old_bytes@ == pre.subrange(12, 12 + ol)
                    &&& x.new_bytes@ == pre.subrange(12 + ol, 12 + ol + nl)
                    &&& post == pre.skip(12 + full)
                }
        },
        Err(e) => {
            &&& e.spec_kind() == ErrorKind::Eof || e.spec_kind() == ErrorKind::External
            &&& (e.spec_kind() == ErrorKind::Eof ==> post.len() == 0)
            &&& (reliable ==> e.spec_kind() == ErrorKind::Eof)
        },
    }
}

impl<E: Endian> Parse<E> for TextPoke {
    open spec fn parse_post(
        cfg: ParseConfig<E>,
        pre: Seq<u8>,
        post: Seq<u8>,
        reliable: bool,
        r: ParseResult<TextPoke>,
    ) -> bool {
        text_poke_post(cfg, pre, post, reliable, r)
    }

    fn parse<B: ParseBuf>(p: &mut Parser<B, E>) -> (r: ParseResult<TextPoke>) {
        let ghost pre = p.bytes();
        let addr = p.parse_u64()?;
        let old_len = p.parse_u16()?;
        let new_len = p.parse_u16()?;
        proof {
            lemma_step(pre, 0, 8);
            lemma_step(pre, 8, 2);
            lemma_step(pre, 10, 2);
        }
        // Records emitted by the kernel keep a length that is a multiple
        // of 8; the old and new bytes are padded out to that boundary.
        let full_len = round_up_mod(old_len as usize + new_len as usize, 4, 8);
        let ghost mid = p.bytes();
        let bytes = p.parse_bytes(full_len)?;
        let mut old_bytes = bytes;
        let rest = old_bytes.split_off(old_len as usize);
        let mut new_bytes = rest;
        new_bytes.truncate(new_len as usize);
        proof {
            let ol = old_len as int;
            let nl = new_len as int;
            assert(mid =~= pre.skip(12));
            assert(mid.take(full_len as int).subrange(0, ol) =~= pre.subrange(12, 12 + ol));
            assert(mid.take(full_len as int).subrange(ol, full_len as int).subrange(0, nl)
                =~= pre.subrange(12 + ol, 12 + ol + nl));
            assert(mid.skip(full_len as int) =~= pre.skip(12 + full_len as int));
            assert(u16_at(old(p).cfg().spec_endian(), pre, 8, old_len) && u16_at(
                old(p).cfg().spec_endian(),
                pre,
                10,
                new_len,
            ) && pre.len() >= 12 + round_up_mod_spec(ol + nl, 4, 8) && old_bytes@ == pre.subrange(
                12,
                12 + ol,
            ) && new_bytes@ == pre.subrange(12 + ol, 12 + ol + nl) && p.bytes() == pre.skip(
                12 + round_up_mod_spec(ol + nl, 4, 8),
            ));
        }
        Ok(TextPoke { addr, old_bytes, new_bytes })
    }
}

} // verus!
