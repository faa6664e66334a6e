//! The kernel's versioned counter-configuration descriptor, as this
//! library models it: the plain values a decode configuration is built
//! from.

use vstd::prelude::*;
use crate::config::clip_read_format;
use crate::config::ParseConfig;
use crate::endian::Endian;
use crate::error::ErrorKind;
use crate::error::ParseError;
use crate::flags::ReadFormat;
use crate::flags::SampleFlags;
use crate::parse::lemma_step;
use crate::parse::u32_at;
use crate::parse::u64_at;
use crate::parse::Parse;
use crate::parse::ParseBuf;
use crate::parse::ParseResult;
use crate::parse::Parser;

verus! {

/// The size of the first published layout of the descriptor.
pub const PERF_ATTR_SIZE_VER0: u32 = 64;

/// The size of the second published layout of the descriptor.
pub const PERF_ATTR_SIZE_VER1: u32 = 72;

/// The size of the third published layout of the descriptor.
pub const PERF_ATTR_SIZE_VER2: u32 = 80;

/// The size of the fourth published layout of the descriptor.
pub const PERF_ATTR_SIZE_VER3: u32 = 96;

/// The size of the fifth published layout of the descriptor.
pub const PERF_ATTR_SIZE_VER4: u32 = 104;

/// The size of the sixth published layout of the descriptor.
pub const PERF_ATTR_SIZE_VER5: u32 = 112;

/// The size of the seventh published layout of the descriptor.
pub const PERF_ATTR_SIZE_VER6: u32 = 120;

/// The size of the eighth published layout of the descriptor.
pub const PERF_ATTR_SIZE_VER7: u32 = 128;

/// The size of the ninth published layout of the descriptor, the
/// largest this library understands.
pub const PERF_ATTR_SIZE_VER8: u32 = 136;

/// Bit of the descriptor's flag word asking for a `SampleId` trailer on
/// every record.
pub const ATTR_FLAG_BIT_SAMPLE_ID_ALL: u64 = 0x40000;

/// Bit of `branch_sample_type` asking for the branch-stack hardware
/// index field.
pub const PERF_SAMPLE_BRANCH_HW_INDEX: u64 = 0x20000;

/// A declared descriptor size this library accepts: any of the eight
/// known fixed layouts, or anything larger than the largest known one
/// (whose tail must then be all-zero padding).
pub open spec fn attr_size_ok(size: u32) -> bool {
    ||| size == PERF_ATTR_SIZE_VER0
    ||| size == PERF_ATTR_SIZE_VER1
    ||| size == PERF_ATTR_SIZE_VER2
    ||| size == PERF_ATTR_SIZE_VER3
    ||| size == PERF_ATTR_SIZE_VER4
    ||| size == PERF_ATTR_SIZE_VER5
    ||| size == PERF_ATTR_SIZE_VER6
    ||| size == PERF_ATTR_SIZE_VER7
    ||| size >= PERF_ATTR_SIZE_VER8
}

/// The decode-relevant contents of the kernel's counter-configuration
/// descriptor, held as plain values. Fields a shorter layout does not
/// carry are zero.
#[derive(Copy, Clone, Debug, PartialEq, Eq, Structural)]
pub struct EventAttr {
    /// The major type of the counter.
    pub ty: u32,
    /// The declared size of the descriptor.
    pub size: u32,
    /// The type-specific configuration value.
    pub config: u64,
    /// The sampling period, or the sampling frequency when the flag word
    /// says so.
    pub sample_period: u64,
    /// Which optional sample fields are captured.
    pub sample_type: u64,
    /// Which optional counter-read fields are emitted.
    pub read_format: u64,
    /// The packed boolean flag word of the descriptor.
    pub flags: u64,
    /// The wakeup threshold.
    pub wakeup_events: u32,
    /// The breakpoint type.
    pub bp_type: u32,
    /// The first extension configuration value.
    pub config1: u64,
    /// The second extension configuration value.
    pub config2: u64,
    /// Which branch types are sampled.
    pub branch_sample_type: u64,
    /// Which user-space registers are captured on samples.
    pub sample_regs_user: u64,
    /// How many bytes of user stack are captured on samples.
    pub sample_stack_user: u32,
    /// The clock the times are taken from.
    pub clockid: u32,
    /// Which registers are captured at interrupt time.
    pub sample_regs_intr: u64,
    /// The aux buffer wakeup watermark.
    pub aux_watermark: u32,
    /// The deepest call chain to capture.
    pub sample_max_stack: u16,
    /// How many bytes of aux data to capture on samples.
    pub aux_sample_size: u32,
    /// The data delivered with synchronous signals.
    pub sig_data: u64,
    /// The third extension configuration value.
    pub config3: u64,
}

/// A descriptor is a `{type, size}` prefix followed by `size - 8` bytes
/// of versioned fields. Only the known sizes, or a larger size whose
/// bytes beyond the largest known layout are all zero, are accepted; the
/// fields that shorter layouts do not carry come out zero.
pub open spec fn event_attr_post<E: Endian>(
    cfg: ParseConfig<E>,
    pre: Seq<u8>,
    post: Seq<u8>,
    reliable: bool,
    r: ParseResult<EventAttr>,
) -> bool {
    let e = cfg.spec_endian();
    match r {
        Ok(a) => {
            &&& attr_size_ok(a.size)
            &&& pre.len() >= a.size
            &&& post == pre.skip(a.size as int)
            &&& u32_at(e, pre, 0, a.ty)
            &&& u32_at(e, pre, 4, a.size)
            &&& u64_at(e, pre, 8, a.config)
            &&& u64_at(e, pre, 16, a.sample_period)
            &&& u64_at(e, pre, 24, a.sample_type)
            &&& u64_at(e, pre, 32, a.read_format)
            &&& u64_at(e, pre, 40, a.flags)
            &&& if a.size >= PERF_ATTR_SIZE_VER2 {
                u64_at(e, pre, 72, a.branch_sample_type)
            } else {
                a.branch_sample_type == 0
            }
            &&& if a.size >= PERF_ATTR_SIZE_VER3 {
                u64_at(e, pre, 80, a.sample_regs_user)
            } else {
                a.sample_regs_user == 0
            }
            &&& if a.size >= PERF_ATTR_SIZE_VER4 {
                u64_at(e, pre, 96, a.sample_regs_intr)
            } else {
                a.sample_regs_intr == 0
            }
            &&& (a.size > PERF_ATTR_SIZE_VER8 ==> forall|i: int|
                PERF_ATTR_SIZE_VER8 <= i < a.size ==> pre[i] == 0)
        },
        Err(err) => {
            &&& (err.spec_kind() == ErrorKind::Eof || err.spec_kind() == ErrorKind::External
                || err.spec_kind() == ErrorKind::InvalidRecord)
            &&& (err.spec_kind() == ErrorKind::Eof ==> post.len() == 0 && (pre.len() < 8
                || exists|sz: u32|
                #[trigger] u32_at(e, pre, 4, sz) && attr_size_ok(sz) && pre.len() < sz))
            &&& (err.spec_kind() == ErrorKind::InvalidRecord ==> pre.len() >= 8 && exists|sz: u32|
                #[trigger] u32_at(e, pre, 4, sz) && (!attr_size_ok(sz) || (sz
                    > PERF_ATTR_SIZE_VER8 && pre.len() >= sz && exists|j: int|
                    PERF_ATTR_SIZE_VER8 <= j < sz && pre[j] != 0)))
            &&& (reliable ==> err.spec_kind() == ErrorKind::Eof || err.spec_kind()
                == ErrorKind::InvalidRecord)
        },
    }
}

impl<E: Endian> Parse<E> for EventAttr {
    open spec fn parse_post(
        cfg: ParseConfig<E>,
        pre: Seq<u8>,
        post: Seq<u8>,
        reliable: bool,
        r: ParseResult<EventAttr>,
    ) -> bool {
        event_attr_post(cfg, pre, post, reliable, r)
    }

    #[verifier::rlimit(100)]
    fn parse<B: ParseBuf>(p: &mut Parser<B, E>) -> (r: ParseResult<EventAttr>) {
        let ghost pre = p.bytes();
        let ty = p.parse_u32()?;
        let size = match p.parse_u32() {
            Ok(s) => s,
            Err(e) => {
                proof {
                    if e.spec_kind() == ErrorKind::Eof {
                        assert(pre.skip(4).len() < 4);
                    }
                }
                return Err(e);
            },
        };
        proof {
            lemma_step(pre, 0, 4);
            lemma_step(pre, 4, 4);
            assert(pre.take(4) =~= pre.subrange(0, 4));
            assert(u32_at(p.cfg().spec_endian(), pre, 4, size));
        }
        let known = size == PERF_ATTR_SIZE_VER0 || size == PERF_ATTR_SIZE_VER1 || size
            == PERF_ATTR_SIZE_VER2 || size == PERF_ATTR_SIZE_VER3 || size == PERF_ATTR_SIZE_VER4
            || size == PERF_ATTR_SIZE_VER5 || size == PERF_ATTR_SIZE_VER6 || size
            == PERF_ATTR_SIZE_VER7 || size >= PERF_ATTR_SIZE_VER8;
        if !known {
            // Sizes below or between the published layouts belong to no
            // kernel version.
            return Err(ParseError::new(ErrorKind::InvalidRecord));
        }
        let mut rp = p.split_at((size - 8) as usize)?;
        let ghost body = rp.bytes();
        proof {
            assert(body =~= pre.subrange(8, size as int));
        }

        let config = rp.parse_u64()?;
        let sample_period = rp.parse_u64()?;
        let sample_type = rp.parse_u64()?;
        let read_format = rp.parse_u64()?;
        let flags = rp.parse_u64()?;
        let wakeup_events = rp.parse_u32()?;
        let bp_type = rp.parse_u32()?;
        let config1 = rp.parse_u64()?;
        proof {
            lemma_step(body, 0, 8);
            lemma_step(body, 8, 8);
            lemma_step(body, 16, 8);
            lemma_step(body, 24, 8);
            lemma_step(body, 32, 8);
            lemma_step(body, 40, 4);
            lemma_step(body, 44, 4);
            lemma_step(body, 48, 8);
        }

        let mut config2: u64 = 0;
        if size >= PERF_ATTR_SIZE_VER1 {
            config2 = rp.parse_u64()?;
            proof {
                lemma_step(body, 56, 8);
            }
        }
        let mut branch_sample_type: u64 = 0;
        if size >= PERF_ATTR_SIZE_VER2 {
            branch_sample_type = rp.parse_u64()?;
            proof {
                lemma_step(body, 64, 8);
            }
        }
        let mut sample_regs_user: u64 = 0;
        let mut sample_stack_user: u32 = 0;
        let mut clockid: u32 = 0;
        if size >= PERF_ATTR_SIZE_VER3 {
            sample_regs_user = rp.parse_u64()?;
            sample_stack_user = rp.parse_u32()?;
            clockid = rp.parse_u32()?;
            proof {
                lemma_step(body, 72, 8);
                lemma_step(body, 80, 4);
                lemma_step(body, 84, 4);
            }
        }
        let mut sample_regs_intr: u64 = 0;
        if size >= PERF_ATTR_SIZE_VER4 {
            sample_regs_intr = rp.parse_u64()?;
            proof {
                lemma_step(body, 88, 8);
            }
        }
        let mut aux_watermark: u32 = 0;
        let mut sample_max_stack: u16 = 0;
        if size >= PERF_ATTR_SIZE_VER5 {
            aux_watermark = rp.parse_u32()?;
            sample_max_stack = rp.parse_u16()?;
            let _ = rp.parse_u16()?;
            proof {
                lemma_step(body, 96, 4);
                lemma_step(body, 100, 2);
                lemma_step(body, 102, 2);
            }
        }
        let mut aux_sample_size: u32 = 0;
        if size >= PERF_ATTR_SIZE_VER6 {
            aux_sample_size = rp.parse_u32()?;
            let _ = rp.parse_u32()?;
            proof {
                lemma_step(body, 104, 4);
                lemma_step(body, 108, 4);
            }
        }
        let mut sig_data: u64 = 0;
        if size >= PERF_ATTR_SIZE_VER7 {
            sig_data = rp.parse_u64()?;
            proof {
                lemma_step(body, 112, 8);
            }
        }
        let mut config3: u64 = 0;
        if size >= PERF_ATTR_SIZE_VER8 {
            config3 = rp.parse_u64()?;
            proof {
                lemma_step(body, 120, 8);
            }
        }
        if size > PERF_ATTR_SIZE_VER8 {
            let rest = rp.parse_rest()?;
            let mut i: usize = 0;
            while i < rest.len()
                invariant
                    i <= rest@.len(),
                    forall|j: int| 0 <= j < i ==> rest@[j] == 0,
                    pre == old(p).bytes(),
                    size > PERF_ATTR_SIZE_VER8,
                    pre.len() >= size,
                    u32_at(old(p).cfg().spec_endian(), pre, 4, size),
                    rest@ == pre.subrange(136, size as int),
                    p.cfg() == old(p).cfg(),
                    p.reliable() == old(p).reliable(),
                    p.bytes().len() <= old(p).bytes().len(),
                decreases rest@.len() - i,
            {
                if rest[i] != 0 {
                    // A tail the largest known layout does not cover must
                    // be zero padding.
                    proof {
                        assert(rest@ =~= pre.subrange(136, size as int));
                        assert(pre[136 + i] != 0);
                    }
                    return Err(ParseError::new(ErrorKind::InvalidRecord));
                }
                i = i + 1;
            }
            proof {
                assert forall|k: int| PERF_ATTR_SIZE_VER8 <= k < size implies pre[k] == 0 by {
                    assert(rest@[k - 136] == pre[k]);
                }
            }
        }
        proof {
            assert(p.bytes() == pre.skip(size as int)) by {
                assert(pre.skip(8).take(size - 8) =~= pre.subrange(8, size as int));
                assert(pre.skip(8).skip(size - 8) =~= pre.skip(size as int));
            }
            assert(body.subrange(0, 8) =~= pre.subrange(8, 16));
            assert(body.subrange(8, 16) =~= pre.subrange(16, 24));
            assert(body.subrange(16, 24) =~= pre.subrange(24, 32));
            assert(body.subrange(24, 32) =~= pre.subrange(32, 40));
            assert(body.subrange(32, 40) =~= pre.subrange(40, 48));
            if size >= PERF_ATTR_SIZE_VER2 {
                assert(body.subrange(64, 72) =~= pre.subrange(72, 80));
            }
            if size >= PERF_ATTR_SIZE_VER3 {
                assert(body.subrange(72, 80) =~= pre.subrange(80, 88));
            }
            if size >= PERF_ATTR_SIZE_VER4 {
                assert(body.subrange(88, 96) =~= pre.subrange(96, 104));
            }
        }
        Ok(
            EventAttr {
                ty,
                size,
                config,
                sample_period,
                sample_type,
                read_format,
                flags,
                wakeup_events,
                bp_type,
                config1,
                config2,
                branch_sample_type,
                sample_regs_user,
                sample_stack_user,
                clockid,
                sample_regs_intr,
                aux_watermark,
                sample_max_stack,
                aux_sample_size,
                sig_data,
                config3,
            },
        )
    }
}

impl EventAttr {
    /// Whether the descriptor asks for a `SampleId` trailer on every
    /// record.
    pub fn sample_id_all(&self) -> (r: bool)
        ensures
            r == (self.flags & ATTR_FLAG_BIT_SAMPLE_ID_ALL != 0),
    {
        self.flags & ATTR_FLAG_BIT_SAMPLE_ID_ALL != 0
    }

    /// Whether the descriptor asks for the branch-stack hardware index
    /// field.
    pub fn branch_hw_index(&self) -> (r: bool)
        ensures
            r == (self.branch_sample_type & PERF_SAMPLE_BRANCH_HW_INDEX != 0),
    {
        self.branch_sample_type & PERF_SAMPLE_BRANCH_HW_INDEX != 0
    }
}

impl<E: Endian> ParseConfig<E> {
    /// Build the decode configuration a counter descriptor implies, under
    /// the given endian.
    pub fn from_attr(attr: &EventAttr, endian: E) -> (r: ParseConfig<E>)
        ensures
            r.spec_read_format() == clip_read_format(attr.read_format),
            r.spec_sample_type() == attr.sample_type & 0xFF_FFFF_FFFF,
            r.spec_sample_id_all() == (attr.flags & ATTR_FLAG_BIT_SAMPLE_ID_ALL != 0),
            r.spec_branch_hw_index() == (attr.branch_sample_type & PERF_SAMPLE_BRANCH_HW_INDEX
                != 0),
            r.spec_misc() == 0,
            r.spec_regs_user() == attr.sample_regs_user,
            r.spec_regs_intr() == attr.sample_regs_intr,
            r.spec_endian() == endian,
    {
        ParseConfig::from_parts(
            endian,
            SampleFlags::from_bits_retain(attr.sample_type),
            ReadFormat::from_bits_retain(attr.read_format),
            attr.sample_id_all(),
            attr.branch_hw_index(),
            attr.sample_regs_user,
            attr.sample_regs_intr,
        )
    }
}

} // verus!
