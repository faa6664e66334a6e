//! BPF_EVENT records.

use vstd::prelude::*;
use crate::endian::Endian;
use crate::parse::fail_post;
use crate::parse::lemma_step;
use crate::parse::u16_at;
use crate::parse::u32_at;
use crate::parse::Parse;
use crate::parse::ParseBuf;
use crate::parse::ParseConfig;
use crate::parse::ParseResult;
use crate::parse::Parser;

verus! {

/// The BPF event type is unknown.
pub const PERF_BPF_EVENT_UNKNOWN: u16 = 0;

/// A BPF program was loaded.
pub const PERF_BPF_EVENT_PROG_LOAD: u16 = 1;

/// A BPF program was unloaded.
pub const PERF_BPF_EVENT_PROG_UNLOAD: u16 = 2;

/// Indicates the type of a [`BpfEvent`].
#[derive(Copy, Clone, Debug, PartialEq, Eq, Hash, Structural)]
pub struct BpfEventType {
    /// The raw type value.
    pub value: u16,
}

impl BpfEventType {
    /// Create a new `BpfEventType`.
    pub fn new(value: u16) -> (r: BpfEventType)
        ensures
            r.value == value,
    {
        BpfEventType { value }
    }
}

/// BPF_EVENT records indicate when a BPF program is loaded or unloaded.
#[derive(Clone, Debug)]
pub struct BpfEvent {
    /// Whether a program was loaded or unloaded.
    pub ty: BpfEventType,
    /// Flags; none are defined at present.
    pub flags: u16,
    /// The ID of the BPF program.
    pub id: u32,
    /// The tag of the BPF program.
    pub tag: Vec<u8>,
}

/// A BPF_EVENT body is two 16-bit words, one 32-bit word, and an 8-byte
/// program tag.
pub open spec fn bpf_event_post<E: Endian>(
    cfg: ParseConfig<E>,
    pre: Seq<u8>,
    post: Seq<u8>,
    reliable: bool,
    r: ParseResult<BpfEvent>,
) -> bool {
    match r {
        Ok(x) => {
            &&& pre.len() >= 16
            &&& post == pre.skip(16)
            &&& u16_at(cfg.spec_endian(), pre, 0, x.ty.value)
            &&& u16_at(cfg.spec_endian(), pre, 2, x.flags)
            &&& u32_at(cfg.spec_endian(), pre, 4, x.id)
            &&& x.tag@ == pre.subrange(8, 16)
        },
        Err(e) => fail_post(reliable, e, pre.len() as int, post.len() as int, 16),
    }
}

impl<E: Endian> Parse<E> for BpfEvent {
    open spec fn parse_post(
        cfg: ParseConfig<E>,
        pre: Seq<u8>,
        post: Seq<u8>,
        reliable: bool,
        r: ParseResult<BpfEvent>,
    ) -> bool {
        bpf_event_post(cfg, pre, post, reliable, r)
    }

    fn parse<B: ParseBuf>(p: &mut Parser<B, E>) -> (r: ParseResult<BpfEvent>) {
        let ghost pre = p.bytes();
        let ty = p.parse_u16()?;
        let flags = p.parse_u16()?;
        let id = p.parse_u32()?;
        let tag = p.parse_bytes(8)?;
        proof {
            lemma_step(pre, 0, 2);
            lemma_step(pre, 2, 2);
            lemma_step(pre, 4, 4);
            lemma_step(pre, 8, 8);
        }
        Ok(BpfEvent { ty: BpfEventType { value: ty }, flags, id, tag })
    }
}

} // verus!
