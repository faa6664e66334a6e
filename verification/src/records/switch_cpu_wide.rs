//! SWITCH_CPU_WIDE records.

use vstd::prelude::*;
use crate::endian::Endian;
use crate::parse::fail_post;
use crate::parse::lemma_step;
use crate::parse::u32_at;
use crate::parse::Parse;
use crate::parse::ParseBuf;
use crate::parse::ParseConfig;
use crate::parse::ParseResult;
use crate::parse::Parser;
use crate::records::PERF_RECORD_MISC_SWITCH_OUT;

verus! {

/// SWITCH_CPU_WIDE records indicate a context switch when profiling in
/// cpu-wide mode, with info on the process being switched that SWITCH
/// does not provide.
///
/// Whether the switch goes into or away from the current process is
/// carried by a bit of the record's misc flags.
#[derive(Copy, Clone, Debug, PartialEq, Eq, Structural)]
pub enum SwitchCpuWide {
    /// A context switch into the current process.
    In {
        /// The process ID of the process being switched into.
        pid: u32,
        /// The thread ID of the thread being switched into.
        tid: u32,
    },
    /// A context switch away from the current process.
    Out {
        /// The process ID of the process being switched away from.
        pid: u32,
        /// The thread ID of the thread being switched away from.
        tid: u32,
    },
}

impl SwitchCpuWide {
    /// The process ID associated with the switch.
    pub fn pid(&self) -> (r: u32)
        ensures
            r == match *self {
                SwitchCpuWide::In { pid, .. } => pid,
                SwitchCpuWide::Out { pid, .. } => pid,
            },
    {
        match *self {
            SwitchCpuWide::In { pid, .. } => pid,
            SwitchCpuWide::Out { pid, .. } => pid,
        }
    }

    /// The thread ID associated with the switch.
    pub fn tid(&self) -> (r: u32)
        ensures
            r == match *self {
                SwitchCpuWide::In { tid, .. } => tid,
                SwitchCpuWide::Out { tid, .. } => tid,
            },
    {
        match *self {
            SwitchCpuWide::In { tid, .. } => tid,
            SwitchCpuWide::Out { tid, .. } => tid,
        }
    }
}

/// A SWITCH_CPU_WIDE body is two 32-bit words; the direction of the
/// switch comes from the misc flags of the enclosing record, not from the
/// body.
pub open spec fn switch_cpu_wide_post<E: Endian>(
    cfg: ParseConfig<E>,
    pre: Seq<u8>,
    post: Seq<u8>,
    reliable: bool,
    r: ParseResult<SwitchCpuWide>,
) -> bool {
    match r {
        Ok(x) => {
            &&& pre.len() >= 8
            &&& post == pre.skip(8)
            &&& match x {
                SwitchCpuWide::In { pid, tid } => {
                    &&& cfg.spec_misc() & PERF_RECORD_MISC_SWITCH_OUT == 0
                    &&& u32_at(cfg.spec_endian(), pre, 0, pid)
                    &&& u32_at(cfg.spec_endian(), pre, 4, tid)
                },
                SwitchCpuWide::Out { pid, tid } => {
                    &&& cfg.spec_misc() & PERF_RECORD_MISC_SWITCH_OUT != 0
                    &&& u32_at(cfg.spec_endian(), pre, 0, pid)
                    &&& u32_at(cfg.spec_endian(), pre, 4, tid)
                },
            }
        },
        Err(e) => fail_post(reliable, e, pre.len() as int, post.len() as int, 8),
    }
}

impl<E: Endian> Parse<E> for SwitchCpuWide {
    open spec fn parse_post(
        cfg: ParseConfig<E>,
        pre: Seq<u8>,
        post: Seq<u8>,
        reliable: bool,
        r: ParseResult<SwitchCpuWide>,
    ) -> bool {
        switch_cpu_wide_post(cfg, pre, post, reliable, r)
    }

    fn parse<B: ParseBuf>(p: &mut Parser<B, E>) -> (r: ParseResult<SwitchCpuWide>) {
        let ghost pre = p.bytes();
        let pid = p.parse_u32()?;
        let tid = p.parse_u32()?;
        proof {
            lemma_step(pre, 0, 4);
            lemma_step(pre, 4, 4);
        }
        if p.config().misc() & PERF_RECORD_MISC_SWITCH_OUT != 0 {
            Ok(SwitchCpuWide::Out { pid, tid })
        } else {
            Ok(SwitchCpuWide::In { pid, tid })
        }
    }
}

} // verus!
