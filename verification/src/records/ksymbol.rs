//! KSYMBOL records.

use vstd::prelude::*;
use crate::endian::Endian;
use crate::parse::fail_post;
use crate::parse::lemma_step;
use crate::parse::trim_nuls;
use crate::parse::u16_at;
use crate::parse::u32_at;
use crate::parse::u64_at;
use crate::parse::Parse;
use crate::parse::ParseBuf;
use crate::parse::ParseConfig;
use crate::parse::ParseResult;
use crate::parse::Parser;

verus! {

/// The kernel symbol is of an unknown type.
pub const PERF_RECORD_KSYMBOL_TYPE_UNKNOWN: u16 = 0;

/// The kernel symbol is a BPF function.
pub const PERF_RECORD_KSYMBOL_TYPE_BPF: u16 = 1;

/// The kernel symbol is out-of-line code.
pub const PERF_RECORD_KSYMBOL_TYPE_OOL: u16 = 2;

/// Flag bit: the symbol is being unregistered.
pub const PERF_RECORD_KSYMBOL_FLAGS_UNREGISTER: u16 = 1;

/// The type of a kernel symbol.
#[derive(Copy, Clone, Debug, PartialEq, Eq, Hash, Structural)]
pub struct KSymbolType {
    /// The raw type value.
    pub value: u16,
}

impl KSymbolType {
    /// Create a new `KSymbolType`.
    pub fn new(value: u16) -> (r: KSymbolType)
        ensures
            r.value == value,
    {
        KSymbolType { value }
    }
}

/// Flags for a [`KSymbol`] record.
#[derive(Copy, Clone, Debug, PartialEq, Eq, Hash, Structural)]
pub struct KSymbolFlags {
    /// The raw bit set.
    pub bits: u16,
}

impl KSymbolFlags {
    /// Whether the symbol is being unregistered.
    pub fn unregister(&self) -> (r: bool)
        ensures
            r == (self.bits & PERF_RECORD_KSYMBOL_FLAGS_UNREGISTER != 0),
    {
        self.bits & PERF_RECORD_KSYMBOL_FLAGS_UNREGISTER != 0
    }
}

/// KSYMBOL records indicate symbols being registered or unregistered
/// within the kernel.
#[derive(Clone, Debug)]
pub struct KSymbol {
    /// The address of the symbol.
    pub addr: u64,
    /// The length of the symbol.
    pub len: u32,
    /// The type of the symbol.
    pub ksym_type: KSymbolType,
    /// Flags describing the registration.
    pub flags: KSymbolFlags,
    /// The name of the symbol, with padding NUL bytes stripped.
    pub name: Vec<u8>,
}

impl KSymbol {
    /// Convert all borrowed data in this `KSymbol` into owned data.
    pub fn into_owned(self) -> (r: KSymbol)
        ensures
            r == self,
    {
        self
    }
}

/// A KSYMBOL body is a 64-bit address, a 32-bit length, two 16-bit words,
/// and the NUL-padded name, which runs to the end of the body.
pub open spec fn ksymbol_post<E: Endian>(
    cfg: ParseConfig<E>,
    pre: Seq<u8>,
    post: Seq<u8>,
    reliable: bool,
    r: ParseResult<KSymbol>,
) -> bool {
    match r {
        Ok(x) => {
            &&& pre.len() >= 16
            &&& post.len() == 0
            &&& u64_at(cfg.spec_endian(), pre, 0, x.addr)
            &&& u32_at(cfg.spec_endian(), pre, 8, x.len)
            &&& u16_at(cfg.spec_endian(), pre, 12, x.ksym_type.value)
            &&& u16_at(cfg.spec_endian(), pre, 14, x.flags.bits)
            &&& x.name@ == trim_nuls(pre.skip(16))
        },
        Err(e) => fail_post(reliable, e, pre.len() as int, post.len() as int, 16),
    }
}

impl<E: Endian> Parse<E> for KSymbol {
    open spec fn parse_post(
        cfg: ParseConfig<E>,
        pre: Seq<u8>,
        post: Seq<u8>,
        reliable: bool,
        r: ParseResult<KSymbol>,
    ) -> bool {
        ksymbol_post(cfg, pre, post, reliable, r)
    }

    fn parse<B: ParseBuf>(p: &mut Parser<B, E>) -> (r: ParseResult<KSymbol>) {
        let ghost pre = p.bytes();
        let addr = p.parse_u64()?;
        let len = p.parse_u32()?;
        let ty = p.parse_u16()?;
        let fl = p.parse_u16()?;
        let name = p.parse_rest_trim_nul()?;
        proof {
            lemma_step(pre, 0, 8);
            lemma_step(pre, 8, 4);
            lemma_step(pre, 12, 2);
            lemma_step(pre, 14, 2);
        }
        Ok(
            KSymbol {
                addr,
                len,
                ksym_type: KSymbolType { value: ty },
                flags: KSymbolFlags { bits: fl },
                name,
            },
        )
    }
}

} // verus!
