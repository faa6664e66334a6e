//! CGROUP records.

use vstd::prelude::*;
use crate::endian::Endian;
use crate::parse::fail_post;
use crate::parse::lemma_step;
use crate::parse::trim_nuls;
use crate::parse::u64_at;
use crate::parse::Parse;
use crate::parse::ParseBuf;
use crate::parse::ParseConfig;
use crate::parse::ParseResult;
use crate::parse::Parser;

verus! {

/// CGROUP records indicate when a new cgroup is created and activated.
#[derive(Clone, Debug)]
pub struct CGroup {
    /// The cgroup ID.
    pub id: u64,
    /// Path of the cgroup from the root, with padding NUL bytes stripped.
    pub path: Vec<u8>,
}

impl CGroup {
    /// Convert all the borrowed data in this `CGroup` into owned data.
    pub fn into_owned(self) -> (r: CGroup)
        ensures
            r == self,
    {
        self
    }
}

/// A CGROUP body is a 64-bit id followed by the NUL-padded path, which
/// runs to the end of the body.
pub open spec fn cgroup_post<E: Endian>(
    cfg: ParseConfig<E>,
    pre: Seq<u8>,
    post: Seq<u8>,
    reliable: bool,
    r: ParseResult<CGroup>,
) -> bool {
    match r {
        Ok(x) => {
            &&& pre.len() >= 8
            &&& post.len() == 0
            &&& u64_at(cfg.spec_endian(), pre, 0, x.id)
            &&& x.path@ == trim_nuls(pre.skip(8))
        },
        Err(e) => fail_post(reliable, e, pre.len() as int, post.len() as int, 8),
    }
}

impl<E: Endian> Parse<E> for CGroup {
    open spec fn parse_post(
        cfg: ParseConfig<E>,
        pre: Seq<u8>,
        post: Seq<u8>,
        reliable: bool,
        r: ParseResult<CGroup>,
    ) -> bool {
        cgroup_post(cfg, pre, post, reliable, r)
    }

    fn parse<B: ParseBuf>(p: &mut Parser<B, E>) -> (r: ParseResult<CGroup>) {
        let ghost pre = p.bytes();
        let id = p.parse_u64()?;
        let path = p.parse_rest_trim_nul()?;
        proof {
            lemma_step(pre, 0, 8);
        }
        Ok(CGroup { id, path })
    }
}

} // verus!
