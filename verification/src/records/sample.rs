//! SAMPLE records: the bitmask-driven, strictly-ordered optional-field
//! decode that is the one genuinely intricate layout in the stream.

use vstd::prelude::*;
use crate::endian::Endian;
use crate::error::ErrorKind;
use crate::error::ParseError;
use crate::flags::has_flags;
use crate::flags::SampleFlags;
use crate::flags::PERF_SAMPLE_ADDR;
use crate::flags::PERF_SAMPLE_AUX;
use crate::flags::PERF_SAMPLE_BRANCH_STACK;
use crate::flags::PERF_SAMPLE_CALLCHAIN;
use crate::flags::PERF_SAMPLE_CODE_PAGE_SIZE;
use crate::flags::PERF_SAMPLE_CPU;
use crate::flags::PERF_SAMPLE_DATA_PAGE_SIZE;
use crate::flags::PERF_SAMPLE_DATA_SRC;
use crate::flags::PERF_SAMPLE_ID;
use crate::flags::PERF_SAMPLE_IDENTIFIER;
use crate::flags::PERF_SAMPLE_IP;
use crate::flags::PERF_SAMPLE_PERIOD;
use crate::flags::PERF_SAMPLE_PHYS_ADDR;
use crate::flags::PERF_SAMPLE_RAW;
use crate::flags::PERF_SAMPLE_READ;
use crate::flags::PERF_SAMPLE_REGS_INTR;
use crate::flags::PERF_SAMPLE_REGS_USER;
use crate::flags::PERF_SAMPLE_STACK_USER;
use crate::flags::PERF_SAMPLE_STREAM_ID;
use crate::flags::PERF_SAMPLE_TID;
use crate::flags::PERF_SAMPLE_TIME;
use crate::flags::PERF_SAMPLE_TRANSACTION;
use crate::flags::PERF_SAMPLE_WEIGHT;
use crate::parse::fail_post;
use crate::parse::lemma_step;
use crate::parse::u32_at;
use crate::parse::u64_at;
use crate::parse::Parse;
use crate::parse::ParseBuf;
use crate::parse::ParseConfig;
use crate::parse::ParseResult;
use crate::parse::Parser;
use crate::records::read::group_head_len;
use crate::records::read::read_data_post;
use crate::records::read::single_read_len;
use crate::records::read::read_format_unsupported;
use crate::records::read::ReadData;

verus! {

/// The number of set bits among the low `n` bits of `x`.
pub open spec fn popcnt_rec(x: u64, n: int) -> nat
    decreases n,
{
    if n <= 0 {
        0
    } else {
        popcnt_rec(x, n - 1) + (if x & (1u64 << ((n - 1) as u64)) != 0 {
            1nat
        } else {
            0nat
        })
    }
}

/// The number of set bits of `x`: for a register mask, how many register
/// values the kernel writes out.
pub open spec fn popcnt64(x: u64) -> nat {
    popcnt_rec(x, 64)
}

/// Count the set bits of `x`.
pub fn popcount64(x: u64) -> (r: u32)
    ensures
        r == popcnt64(x),
        r <= 64,
{
    let mut count: u32 = 0;
    let mut i: u32 = 0;
    while i < 64
        invariant
            i <= 64,
            count == popcnt_rec(x, i as int),
            count <= i,
        decreases 64 - i,
    {
        if x & (1u64 << (i as u64)) != 0 {
            count = count + 1;
        }
        i = i + 1;
    }
    count
}

/// No registers were sampled.
pub const PERF_SAMPLE_REGS_ABI_NONE: u64 = 0;

/// Registers were sampled from a 32-bit program.
pub const PERF_SAMPLE_REGS_ABI_32: u64 = 1;

/// Registers were sampled from a 64-bit program.
pub const PERF_SAMPLE_REGS_ABI_64: u64 = 2;

/// ABI of the program when sampling registers.
#[derive(Copy, Clone, Debug, PartialEq, Eq, Hash, Structural)]
pub struct SampleRegsAbi {
    /// The raw ABI value.
    pub value: u64,
}

impl SampleRegsAbi {
    /// Create a new `SampleRegsAbi`.
    pub fn new(value: u64) -> (r: SampleRegsAbi)
        ensures
            r.value == value,
    {
        SampleRegsAbi { value }
    }
}

/// Describes the captured subset of registers when a sample was taken.
#[derive(Clone, Debug)]
pub struct Registers {
    /// The ABI of the program from which the sample was taken.
    pub abi: SampleRegsAbi,
    /// A bitmask indicating which registers were recorded; it comes from
    /// the configuration, not from the wire.
    pub mask: u64,
    /// The recorded values of the registers, one per set mask bit.
    pub regs: Vec<u64>,
}

/// A register snapshot is an ABI tag followed by as many 64-bit words as
/// there are set bits in the configured register mask.
pub open spec fn registers_post<E: Endian>(
    cfg: ParseConfig<E>,
    mask: u64,
    pre: Seq<u8>,
    post: Seq<u8>,
    reliable: bool,
    r: ParseResult<Registers>,
) -> bool {
    let e = cfg.spec_endian();
    let total = 8 + 8 * popcnt64(mask) as int;
    match r {
        Ok(x) => {
            &&& pre.len() >= total
            &&& post == pre.skip(total)
            &&& u64_at(e, pre, 0, x.abi.value)
            &&& x.mask == mask
            &&& x.regs@.len() == popcnt64(mask)
            &&& forall|i: int|
                0 <= i < x.regs@.len() ==> u64_at(e, pre, 8 + 8 * i, #[trigger] x.regs@[i])
        },
        Err(e) => fail_post(reliable, e, pre.len() as int, post.len() as int, total),
    }
}

impl Registers {
    /// Parse a register snapshot under the given configured mask.
    pub fn parse_from<B: ParseBuf, E: Endian>(p: &mut Parser<B, E>, mask: u64) -> (r: ParseResult<
        Registers,
    >)
        ensures
            final(p).cfg() == old(p).cfg(),
            final(p).reliable() == old(p).reliable(),
            final(p).bytes().len() <= old(p).bytes().len(),
            registers_post(
                old(p).cfg(),
                mask,
                old(p).bytes(),
                final(p).bytes(),
                old(p).reliable(),
                r,
            ),
    {
        let ghost pre = p.bytes();
        let abi = p.parse_u64()?;
        proof {
            lemma_step(pre, 0, 8);
        }
        let count = popcount64(mask);
        let ghost mid = p.bytes();
        let regs = p.parse_u64_vec(count as usize)?;
        proof {
            assert forall|i: int| 0 <= i < regs@.len() implies u64_at(
                old(p).cfg().spec_endian(),
                pre,
                8 + 8 * i,
                #[trigger] regs@[i],
            ) by {
                assert(mid.subrange(8 * i, 8 * i + 8) =~= pre.subrange(8 + 8 * i, 8 + 8 * i + 8));
            }
            assert(mid.skip(8 * (count as usize) as int) =~= pre.skip(8 + 8 * popcnt64(mask) as int));
        }
        Ok(Registers { abi: SampleRegsAbi { value: abi }, mask, regs })
    }
}

/// Record of a branch taken by the hardware: two addresses and a word of
/// flag bits, interpreted least-significant bit first.
#[derive(Copy, Clone, Debug, PartialEq, Eq, Structural)]
pub struct BranchEntry {
    from: u64,
    to: u64,
    flags: u64,
}

/// Branch type as used by the last branch record.
#[derive(Copy, Clone, Debug, PartialEq, Eq, Hash, Structural)]
pub struct BranchType {
    /// The raw branch type value.
    pub value: u8,
}

/// An unknown branch type.
pub const PERF_BR_UNKNOWN: u8 = 0;

/// A conditional branch.
pub const PERF_BR_COND: u8 = 1;

/// An unconditional branch.
pub const PERF_BR_UNCOND: u8 = 2;

/// An indirect branch.
pub const PERF_BR_IND: u8 = 3;

/// A function call.
pub const PERF_BR_CALL: u8 = 4;

/// An indirect function call.
pub const PERF_BR_IND_CALL: u8 = 5;

/// A function return.
pub const PERF_BR_RET: u8 = 6;

/// A syscall.
pub const PERF_BR_SYSCALL: u8 = 7;

/// A conditional function call.
pub const PERF_BR_COND_CALL: u8 = 9;

/// A conditional function return.
pub const PERF_BR_COND_RET: u8 = 10;

impl BranchEntry {
    /// The raw flags word.
    pub closed spec fn spec_flags(&self) -> u64 {
        self.flags
    }

    /// The source address, as a spec value.
    pub closed spec fn spec_from(&self) -> u64 {
        self.from
    }

    /// The target address, as a spec value.
    pub closed spec fn spec_to(&self) -> u64 {
        self.to
    }

    /// Address of the source instruction, which may not always be a
    /// branch instruction.
    pub fn from(&self) -> (r: u64)
        ensures
            r == self.spec_from(),
    {
        self.from
    }

    /// Address of the branch target.
    pub fn to(&self) -> (r: u64)
        ensures
            r == self.spec_to(),
    {
        self.to
    }

    /// Whether the branch was mispredicted.
    pub fn mispred(&self) -> (r: bool)
        ensures
            r == (self.spec_flags() & 0x1 != 0),
    {
        self.flags & 0x1 != 0
    }

    /// Whether the branch was predicted correctly.
    pub fn predicted(&self) -> (r: bool)
        ensures
            r == (self.spec_flags() & 0x2 != 0),
    {
        self.flags & 0x2 != 0
    }

    /// Whether the branch occurred within a transaction.
    pub fn in_tx(&self) -> (r: bool)
        ensures
            r == (self.spec_flags() & 0x4 != 0),
    {
        self.flags & 0x4 != 0
    }

    /// Whether the branch was due to a transaction abort.
    pub fn abort(&self) -> (r: bool)
        ensures
            r == (self.spec_flags() & 0x8 != 0),
    {
        self.flags & 0x8 != 0
    }

    /// The cycle count since the last branch.
    pub fn cycles(&self) -> (r: u16)
        ensures
            r == ((self.spec_flags() >> 4) & 0xFFFF) as u16,
    {
        ((self.flags >> 4u64) & 0xFFFF) as u16
    }

    /// Branch type.
    pub fn ty(&self) -> (r: BranchType)
        ensures
            r.value == ((self.spec_flags() >> 20) & 0xF) as u8,
    {
        BranchType { value: ((self.flags >> 20u64) & 0xF) as u8 }
    }
}

/// A branch entry is three 64-bit words: source, target, flags.
pub open spec fn branch_entry_post<E: Endian>(
    cfg: ParseConfig<E>,
    pre: Seq<u8>,
    post: Seq<u8>,
    reliable: bool,
    r: ParseResult<BranchEntry>,
) -> bool {
    match r {
        Ok(x) => {
            &&& pre.len() >= 24
            &&& post == pre.skip(24)
            &&& u64_at(cfg.spec_endian(), pre, 0, x.spec_from())
            &&& u64_at(cfg.spec_endian(), pre, 8, x.spec_to())
            &&& u64_at(cfg.spec_endian(), pre, 16, x.spec_flags())
        },
        Err(e) => fail_post(reliable, e, pre.len() as int, post.len() as int, 24),
    }
}

impl<E: Endian> Parse<E> for BranchEntry {
    open spec fn parse_post(
        cfg: ParseConfig<E>,
        pre: Seq<u8>,
        post: Seq<u8>,
        reliable: bool,
        r: ParseResult<BranchEntry>,
    ) -> bool {
        branch_entry_post(cfg, pre, post, reliable, r)
    }

    fn parse<B: ParseBuf>(p: &mut Parser<B, E>) -> (r: ParseResult<BranchEntry>) {
        let ghost pre = p.bytes();
        let from = p.parse_u64()?;
        let to = p.parse_u64()?;
        let flags = p.parse_u64()?;
        proof {
            lemma_step(pre, 0, 8);
            lemma_step(pre, 8, 8);
            lemma_step(pre, 16, 8);
        }
        Ok(BranchEntry { from, to, flags })
    }
}

/// Describes where in the memory hierarchy the sampled instruction came
/// from. The accessors carve the named bit ranges out of one 64-bit
/// descriptor word.
#[derive(Copy, Clone, Debug, PartialEq, Eq, Structural)]
pub struct DataSource {
    /// The raw descriptor word.
    pub val: u64,
}

/// Memory operation bits, used by [`DataSource`].
#[derive(Copy, Clone, Debug, PartialEq, Eq, Hash, Structural)]
pub struct MemOp {
    /// The raw bit set.
    pub bits: u64,
}

/// Memory hierarchy level bits, used by [`DataSource`].
#[derive(Copy, Clone, Debug, PartialEq, Eq, Hash, Structural)]
pub struct MemLevel {
    /// The raw bit set.
    pub bits: u64,
}

/// Snoop mode bits, used by [`DataSource`].
#[derive(Copy, Clone, Debug, PartialEq, Eq, Hash, Structural)]
pub struct MemSnoop {
    /// The raw bit set.
    pub bits: u64,
}

/// Lock instruction bits, used by [`DataSource`].
#[derive(Copy, Clone, Debug, PartialEq, Eq, Hash, Structural)]
pub struct MemLock {
    /// The raw bit set.
    pub bits: u64,
}

/// TLB access bits, used by [`DataSource`].
#[derive(Copy, Clone, Debug, PartialEq, Eq, Hash, Structural)]
pub struct MemDtlb {
    /// The raw bit set.
    pub bits: u64,
}

/// Access-was-blocked bits, used by [`DataSource`].
#[derive(Copy, Clone, Debug, PartialEq, Eq, Hash, Structural)]
pub struct MemBlk {
    /// The raw bit set.
    pub bits: u64,
}

/// Memory hierarchy level number, used by [`DataSource`].
#[derive(Copy, Clone, Debug, PartialEq, Eq, Hash, Structural)]
pub struct MemLevelNum {
    /// The raw level number.
    pub value: u8,
}

/// The snoop bits this library knows, the extended ones shifted up next
/// to the basic ones.
pub const MEM_SNOOP_KNOWN_MASK: u64 = 0x7F;

impl MemSnoop {
    /// Combine the basic and extended snoop bit ranges of the descriptor
    /// word into one flag set, keeping only the known bits.
    pub fn new(mem_snoop: u64, mem_snoopx: u64) -> (r: MemSnoop)
        ensures
            r.bits == ((mem_snoop & 0x1F) | (mem_snoopx << 5)) & MEM_SNOOP_KNOWN_MASK,
    {
        MemSnoop { bits: ((mem_snoop & 0x1F) | (mem_snoopx << 5u64)) & MEM_SNOOP_KNOWN_MASK }
    }
}

impl DataSource {
    /// Type of opcode: bits 0..5 of the descriptor.
    pub fn mem_op(&self) -> (r: MemOp)
        ensures
            r.bits == self.val & 0x1F,
    {
        MemOp { bits: self.val & 0x1F }
    }

    /// Memory hierarchy level hit or miss: bits 5..19.
    pub fn mem_lvl(&self) -> (r: MemLevel)
        ensures
            r.bits == (self.val >> 5) & 0x3FFF,
    {
        MemLevel { bits: (self.val >> 5u64) & 0x3FFF }
    }

    /// Snoop mode: the basic bits 19..24 combined with the extended bits
    /// 38..40.
    pub fn mem_snoop(&self) -> (r: MemSnoop)
        ensures
            r.bits == ((((self.val >> 19) & 0x1F) & 0x1F) | (((self.val >> 38) & 0x3) << 5))
                & MEM_SNOOP_KNOWN_MASK,
    {
        MemSnoop::new((self.val >> 19u64) & 0x1F, (self.val >> 38u64) & 0x3)
    }

    /// Lock instruction: bits 24..26.
    pub fn mem_lock(&self) -> (r: MemLock)
        ensures
            r.bits == (self.val >> 24) & 0x3,
    {
        MemLock { bits: (self.val >> 24u64) & 0x3 }
    }

    /// TLB access hit or miss: bits 26..33.
    pub fn mem_dtlb(&self) -> (r: MemDtlb)
        ensures
            r.bits == (self.val >> 26) & 0x7F,
    {
        MemDtlb { bits: (self.val >> 26u64) & 0x7F }
    }

    /// Memory hierarchy level number: bits 33..37.
    pub fn mem_lvl_num(&self) -> (r: MemLevelNum)
        ensures
            r.value == ((self.val >> 33) & 0xF) as u8,
    {
        MemLevelNum { value: ((self.val >> 33u64) & 0xF) as u8 }
    }

    /// Whether the memory access was remote: bit 37.
    pub fn mem_remote(&self) -> (r: bool)
        ensures
            r == ((self.val >> 37) & 0x1 != 0),
    {
        (self.val >> 37u64) & 0x1 != 0
    }

    /// Access was blocked: bits 40..43.
    pub fn mem_blk(&self) -> (r: MemBlk)
        ensures
            r.bits == (self.val >> 40) & 0x7,
    {
        MemBlk { bits: (self.val >> 40u64) & 0x7 }
    }

    /// Hop level: bits 43..46.
    pub fn mem_hops(&self) -> (r: u8)
        ensures
            r == ((self.val >> 43) & 0x7) as u8,
    {
        ((self.val >> 43u64) & 0x7) as u8
    }
}

/// How far the abort code is shifted within a transaction word.
pub const PERF_TXN_ABORT_SHIFT: u64 = 32;

/// Info about a transactional memory event.
#[derive(Copy, Clone, Debug, PartialEq, Eq, Hash, Structural)]
pub struct Txn {
    /// The raw bit set.
    pub bits: u64,
}

impl Txn {
    /// A user-specified abort code: the upper half of the word.
    pub fn abort(&self) -> (r: u32)
        ensures
            r == (self.bits >> PERF_TXN_ABORT_SHIFT) as u32,
    {
        (self.bits >> PERF_TXN_ABORT_SHIFT) as u32
    }
}

/// Byte offset of the `ip` field of a sample body.
#[verifier::opaque]
pub open spec fn sample_off_ip(sty: u64) -> int {
    if has_flags(sty, PERF_SAMPLE_IDENTIFIER) {
        8int
    } else {
        0int
    }
}

/// Byte offset of the `pid` field of a sample body.
#[verifier::opaque]
pub open spec fn sample_off_pid(sty: u64) -> int {
    sample_off_ip(sty) + if has_flags(sty, PERF_SAMPLE_IP) {
        8int
    } else {
        0int
    }
}

/// Byte offset of the `time` field of a sample body.
#[verifier::opaque]
pub open spec fn sample_off_time(sty: u64) -> int {
    sample_off_pid(sty) + if has_flags(sty, PERF_SAMPLE_TID) {
        8int
    } else {
        0int
    }
}

/// Byte offset of the `addr` field of a sample body.
#[verifier::opaque]
pub open spec fn sample_off_addr(sty: u64) -> int {
    sample_off_time(sty) + if has_flags(sty, PERF_SAMPLE_TIME) {
        8int
    } else {
        0int
    }
}

/// Byte offset of the late `id` field of a sample body.
#[verifier::opaque]
pub open spec fn sample_off_id(sty: u64) -> int {
    sample_off_addr(sty) + if has_flags(sty, PERF_SAMPLE_ADDR) {
        8int
    } else {
        0int
    }
}

/// Byte offset of the `stream_id` field of a sample body.
#[verifier::opaque]
pub open spec fn sample_off_stream_id(sty: u64) -> int {
    sample_off_id(sty) + if has_flags(sty, PERF_SAMPLE_ID) {
        8int
    } else {
        0int
    }
}

/// Byte offset of the `cpu` field of a sample body.
#[verifier::opaque]
pub open spec fn sample_off_cpu(sty: u64) -> int {
    sample_off_stream_id(sty) + if has_flags(sty, PERF_SAMPLE_STREAM_ID) {
        8int
    } else {
        0int
    }
}

/// Byte offset of the `period` field of a sample body.
#[verifier::opaque]
pub open spec fn sample_off_period(sty: u64) -> int {
    sample_off_cpu(sty) + if has_flags(sty, PERF_SAMPLE_CPU) {
        8int
    } else {
        0int
    }
}

/// Total size of the fixed-width head of a sample body; the
/// variable-length fields follow it.
#[verifier::opaque]
pub open spec fn sample_head_len(sty: u64) -> int {
    sample_off_period(sty) + if has_flags(sty, PERF_SAMPLE_PERIOD) {
        8int
    } else {
        0int
    }
}


/// How the sample head offsets chain: each field sits right after the
/// previous one, eight bytes per present field (the pid/tid pair shares
/// one eight-byte slot).
pub proof fn lemma_sample_offsets(sty: u64)
    ensures
        sample_off_ip(sty) == if has_flags(sty, PERF_SAMPLE_IDENTIFIER) {
            8int
        } else {
            0int
        },
        sample_off_pid(sty) == sample_off_ip(sty) + if has_flags(sty, PERF_SAMPLE_IP) {
            8int
        } else {
            0int
        },
        sample_off_time(sty) == sample_off_pid(sty) + if has_flags(sty, PERF_SAMPLE_TID) {
            8int
        } else {
            0int
        },
        sample_off_addr(sty) == sample_off_time(sty) + if has_flags(sty, PERF_SAMPLE_TIME) {
            8int
        } else {
            0int
        },
        sample_off_id(sty) == sample_off_addr(sty) + if has_flags(sty, PERF_SAMPLE_ADDR) {
            8int
        } else {
            0int
        },
        sample_off_stream_id(sty) == sample_off_id(sty) + if has_flags(sty, PERF_SAMPLE_ID) {
            8int
        } else {
            0int
        },
        sample_off_cpu(sty) == sample_off_stream_id(sty) + if has_flags(
            sty,
            PERF_SAMPLE_STREAM_ID,
        ) {
            8int
        } else {
            0int
        },
        sample_off_period(sty) == sample_off_cpu(sty) + if has_flags(sty, PERF_SAMPLE_CPU) {
            8int
        } else {
            0int
        },
        sample_head_len(sty) == sample_off_period(sty) + if has_flags(sty, PERF_SAMPLE_PERIOD) {
            8int
        } else {
            0int
        },
{
    reveal(sample_off_ip);
    reveal(sample_off_pid);
    reveal(sample_off_time);
    reveal(sample_off_addr);
    reveal(sample_off_id);
    reveal(sample_off_stream_id);
    reveal(sample_off_cpu);
    reveal(sample_off_period);
    reveal(sample_head_len);
}

/// The richest record kind: a large set of independently-optional
/// fields, each present exactly when the corresponding sample-type flag
/// was requested.
///
/// Every accessor returns `None` when the field was not selected by the
/// configuration the record was decoded under.
#[derive(Clone, Debug)]
pub struct Sample {
    ip: Option<u64>,
    pid: Option<u32>,
    tid: Option<u32>,
    time: Option<u64>,
    addr: Option<u64>,
    id: Option<u64>,
    stream_id: Option<u64>,
    cpu: Option<u32>,
    period: Option<u64>,
    values: Option<ReadData>,
    callchain: Option<Vec<u64>>,
    raw: Option<Vec<u8>>,
    lbr_hw_index: Option<u64>,
    lbr: Option<Vec<BranchEntry>>,
    regs_user: Option<Registers>,
    stack_user: Option<Vec<u8>>,
    weight: Option<u64>,
    data_src: Option<DataSource>,
    transaction: Option<Txn>,
    regs_intr: Option<Registers>,
    phys_addr: Option<u64>,
    aux: Option<Vec<u8>>,
    data_page_size: Option<u64>,
    code_page_size: Option<u64>,
}

impl Sample {
    /// The instruction pointer, if sampled.
    pub closed spec fn spec_ip(&self) -> Option<u64> {
        self.ip
    }

    /// The process ID, if sampled.
    pub closed spec fn spec_pid(&self) -> Option<u32> {
        self.pid
    }

    /// The thread ID, if sampled.
    pub closed spec fn spec_tid(&self) -> Option<u32> {
        self.tid
    }

    /// The timestamp, if sampled.
    pub closed spec fn spec_time(&self) -> Option<u64> {
        self.time
    }

    /// The address, if sampled.
    pub closed spec fn spec_addr(&self) -> Option<u64> {
        self.addr
    }

    /// The counter id, if sampled.
    pub closed spec fn spec_id(&self) -> Option<u64> {
        self.id
    }

    /// The stream id, if sampled.
    pub closed spec fn spec_stream_id(&self) -> Option<u64> {
        self.stream_id
    }

    /// The CPU number, if sampled.
    pub closed spec fn spec_cpu(&self) -> Option<u32> {
        self.cpu
    }

    /// The sampling period, if sampled.
    pub closed spec fn spec_period(&self) -> Option<u64> {
        self.period
    }

    /// The counter-read data, if sampled.
    pub closed spec fn spec_values(&self) -> Option<ReadData> {
        self.values
    }

    /// The call chain, if sampled.
    pub closed spec fn spec_callchain(&self) -> Option<Seq<u64>> {
        match self.callchain {
            Some(v) => Some(v@),
            None => None,
        }
    }

    /// The raw bytes, if sampled.
    pub closed spec fn spec_raw(&self) -> Option<Seq<u8>> {
        match self.raw {
            Some(v) => Some(v@),
            None => None,
        }
    }

    /// The branch-stack hardware index, if sampled.
    pub closed spec fn spec_lbr_hw_index(&self) -> Option<u64> {
        self.lbr_hw_index
    }

    /// The last branch records, if sampled.
    pub closed spec fn spec_lbr(&self) -> Option<Seq<BranchEntry>> {
        match self.lbr {
            Some(v) => Some(v@),
            None => None,
        }
    }

    /// The user register snapshot, if sampled.
    pub closed spec fn spec_regs_user(&self) -> Option<Registers> {
        self.regs_user
    }

    /// The user stack bytes, if sampled.
    pub closed spec fn spec_stack_user(&self) -> Option<Seq<u8>> {
        match self.stack_user {
            Some(v) => Some(v@),
            None => None,
        }
    }

    /// The weight, if sampled.
    pub closed spec fn spec_weight(&self) -> Option<u64> {
        self.weight
    }

    /// The data source descriptor, if sampled.
    pub closed spec fn spec_data_src(&self) -> Option<DataSource> {
        self.data_src
    }

    /// The transaction info, if sampled.
    pub closed spec fn spec_transaction(&self) -> Option<Txn> {
        self.transaction
    }

    /// The interrupt-time register snapshot, if sampled.
    pub closed spec fn spec_regs_intr(&self) -> Option<Registers> {
        self.regs_intr
    }

    /// The physical address, if sampled.
    pub closed spec fn spec_phys_addr(&self) -> Option<u64> {
        self.phys_addr
    }

    /// The aux bytes, if sampled.
    pub closed spec fn spec_aux(&self) -> Option<Seq<u8>> {
        match self.aux {
            Some(v) => Some(v@),
            None => None,
        }
    }

    /// The data page size, if sampled.
    pub closed spec fn spec_data_page_size(&self) -> Option<u64> {
        self.data_page_size
    }

    /// The code page size, if sampled.
    pub closed spec fn spec_code_page_size(&self) -> Option<u64> {
        self.code_page_size
    }

    /// The unique kernel-assigned id of the counter.
    pub fn id(&self) -> (r: Option<u64>)
        ensures
            r == self.spec_id(),
    {
        self.id
    }

    /// The instruction pointer at sample time.
    pub fn ip(&self) -> (r: Option<u64>)
        ensures
            r == self.spec_ip(),
    {
        self.ip
    }

    /// The process ID.
    pub fn pid(&self) -> (r: Option<u32>)
        ensures
            r == self.spec_pid(),
    {
        self.pid
    }

    /// The thread ID.
    pub fn tid(&self) -> (r: Option<u32>)
        ensures
            r == self.spec_tid(),
    {
        self.tid
    }

    /// The time at which the sample was taken.
    pub fn time(&self) -> (r: Option<u64>)
        ensures
            r == self.spec_time(),
    {
        self.time
    }

    /// The sampled address.
    pub fn addr(&self) -> (r: Option<u64>)
        ensures
            r == self.spec_addr(),
    {
        self.addr
    }

    /// The stream id of the counter.
    pub fn stream_id(&self) -> (r: Option<u64>)
        ensures
            r == self.spec_stream_id(),
    {
        self.stream_id
    }

    /// The CPU the sample was taken on.
    pub fn cpu(&self) -> (r: Option<u32>)
        ensures
            r == self.spec_cpu(),
    {
        self.cpu
    }

    /// The sampling period.
    pub fn period(&self) -> (r: Option<u64>)
        ensures
            r == self.spec_period(),
    {
        self.period
    }

    /// The counter-read data.
    pub fn values(&self) -> (r: Option<&ReadData>)
        ensures
            match r {
                Some(v) => self.spec_values() == Some(*v),
                None => self.spec_values() is None,
            },
    {
        self.values.as_ref()
    }

    /// The sampled call chain.
    pub fn callchain(&self) -> (r: Option<&Vec<u64>>)
        ensures
            match r {
                Some(v) => self.spec_callchain() == Some(v@),
                None => self.spec_callchain() is None,
            },
    {
        self.callchain.as_ref()
    }

    /// The raw sample bytes.
    pub fn raw(&self) -> (r: Option<&Vec<u8>>)
        ensures
            match r {
                Some(v) => self.spec_raw() == Some(v@),
                None => self.spec_raw() is None,
            },
    {
        self.raw.as_ref()
    }

    /// The hardware index going with the last branch records.
    pub fn lbr_hw_index(&self) -> (r: Option<u64>)
        ensures
            r == self.spec_lbr_hw_index(),
    {
        self.lbr_hw_index
    }

    /// The last branch records.
    pub fn lbr(&self) -> (r: Option<&Vec<BranchEntry>>)
        ensures
            match r {
                Some(v) => self.spec_lbr() == Some(v@),
                None => self.spec_lbr() is None,
            },
    {
        self.lbr.as_ref()
    }

    /// The user register snapshot.
    pub fn regs_user(&self) -> (r: Option<&Registers>)
        ensures
            match r {
                Some(v) => self.spec_regs_user() == Some(*v),
                None => self.spec_regs_user() is None,
            },
    {
        self.regs_user.as_ref()
    }

    /// The user stack bytes, truncated to their dynamic size.
    pub fn stack_user(&self) -> (r: Option<&Vec<u8>>)
        ensures
            match r {
                Some(v) => self.spec_stack_user() == Some(v@),
                None => self.spec_stack_user() is None,
            },
    {
        self.stack_user.as_ref()
    }

    /// The weight given to the sample.
    pub fn weight(&self) -> (r: Option<u64>)
        ensures
            r == self.spec_weight(),
    {
        self.weight
    }

    /// The data source descriptor.
    pub fn data_src(&self) -> (r: Option<DataSource>)
        ensures
            r == self.spec_data_src(),
    {
        self.data_src
    }

    /// The transaction info.
    pub fn transaction(&self) -> (r: Option<Txn>)
        ensures
            r == self.spec_transaction(),
    {
        self.transaction
    }

    /// The interrupt-time register snapshot.
    pub fn regs_intr(&self) -> (r: Option<&Registers>)
        ensures
            match r {
                Some(v) => self.spec_regs_intr() == Some(*v),
                None => self.spec_regs_intr() is None,
            },
    {
        self.regs_intr.as_ref()
    }

    /// The sampled physical address.
    pub fn phys_addr(&self) -> (r: Option<u64>)
        ensures
            r == self.spec_phys_addr(),
    {
        self.phys_addr
    }

    /// The sampled aux bytes.
    pub fn aux(&self) -> (r: Option<&Vec<u8>>)
        ensures
            match r {
                Some(v) => self.spec_aux() == Some(v@),
                None => self.spec_aux() is None,
            },
    {
        self.aux.as_ref()
    }

    /// The page size of the sampled data address.
    pub fn data_page_size(&self) -> (r: Option<u64>)
        ensures
            r == self.spec_data_page_size(),
    {
        self.data_page_size
    }

    /// The page size of the sampled instruction address.
    pub fn code_page_size(&self) -> (r: Option<u64>)
        ensures
            r == self.spec_code_page_size(),
    {
        self.code_page_size
    }
}

/// The layout of a sample body: a run of fixed-width fields at computable
/// offsets, then the variable-length fields in their fixed order. Each
/// field is present exactly when its sample-type flag is set; the `id`
/// slot can be fed by the early `identifier` position or the late `id`
/// position, and the late one never overwrites an already-obtained value.
///
/// The fixed head is pinned byte-exactly; of the variable tail this
/// relation states presence, the configured register masks and counts,
/// and which error kinds each tail field can raise.
pub open spec fn sample_post<E: Endian>(
    cfg: ParseConfig<E>,
    pre: Seq<u8>,
    post: Seq<u8>,
    reliable: bool,
    r: ParseResult<Sample>,
) -> bool {
    let e = cfg.spec_endian();
    let sty = cfg.spec_sample_type();
    match r {
        Ok(s) => {
            &&& pre.len() >= sample_head_len(sty)
            &&& post.len() <= pre.len() - sample_head_len(sty)
            &&& match s.spec_ip() {
                Some(v) => has_flags(sty, PERF_SAMPLE_IP) && u64_at(e, pre, sample_off_ip(sty), v),
                None => !has_flags(sty, PERF_SAMPLE_IP),
            }
            &&& match s.spec_pid() {
                Some(v) => has_flags(sty, PERF_SAMPLE_TID) && u32_at(
                    e,
                    pre,
                    sample_off_pid(sty),
                    v,
                ),
                None => !has_flags(sty, PERF_SAMPLE_TID),
            }
            &&& match s.spec_tid() {
                Some(v) => has_flags(sty, PERF_SAMPLE_TID) && u32_at(
                    e,
                    pre,
                    sample_off_pid(sty) + 4,
                    v,
                ),
                None => !has_flags(sty, PERF_SAMPLE_TID),
            }
            &&& match s.spec_time() {
                Some(v) => has_flags(sty, PERF_SAMPLE_TIME) && u64_at(
                    e,
                    pre,
                    sample_off_time(sty),
                    v,
                ),
                None => !has_flags(sty, PERF_SAMPLE_TIME),
            }
            &&& match s.spec_addr() {
                Some(v) => has_flags(sty, PERF_SAMPLE_ADDR) && u64_at(
                    e,
                    pre,
                    sample_off_addr(sty),
                    v,
                ),
                None => !has_flags(sty, PERF_SAMPLE_ADDR),
            }
            &&& match s.spec_id() {
                Some(v) => if has_flags(sty, PERF_SAMPLE_IDENTIFIER) {
                    u64_at(e, pre, 0, v)
                } else {
                    has_flags(sty, PERF_SAMPLE_ID) && u64_at(e, pre, sample_off_id(sty), v)
                },
                None => !has_flags(sty, PERF_SAMPLE_ID) && !has_flags(sty, PERF_SAMPLE_IDENTIFIER),
            }
            &&& match s.spec_stream_id() {
                Some(v) => has_flags(sty, PERF_SAMPLE_STREAM_ID) && u64_at(
                    e,
                    pre,
                    sample_off_stream_id(sty),
                    v,
                ),
                None => !has_flags(sty, PERF_SAMPLE_STREAM_ID),
            }
            &&& match s.spec_cpu() {
                Some(v) => has_flags(sty, PERF_SAMPLE_CPU) && u32_at(
                    e,
                    pre,
                    sample_off_cpu(sty),
                    v,
                ),
                None => !has_flags(sty, PERF_SAMPLE_CPU),
            }
            &&& match s.spec_period() {
                Some(v) => has_flags(sty, PERF_SAMPLE_PERIOD) && u64_at(
                    e,
                    pre,
                    sample_off_period(sty),
                    v,
                ),
                None => !has_flags(sty, PERF_SAMPLE_PERIOD),
            }
            &&& match s.spec_values() {
                Some(d) => has_flags(sty, PERF_SAMPLE_READ) && exists|rest: Seq<u8>|
                    #[trigger] read_data_post(
                        cfg,
                        pre.skip(sample_head_len(sty)),
                        rest,
                        reliable,
                        Ok(d),
                    ),
                None => !has_flags(sty, PERF_SAMPLE_READ),
            }
            &&& (s.spec_callchain() is Some <==> has_flags(sty, PERF_SAMPLE_CALLCHAIN))
            &&& (s.spec_raw() is Some <==> has_flags(sty, PERF_SAMPLE_RAW))
            &&& (s.spec_lbr() is Some <==> has_flags(sty, PERF_SAMPLE_BRANCH_STACK))
            &&& (s.spec_lbr_hw_index() is Some <==> has_flags(sty, PERF_SAMPLE_BRANCH_STACK)
                && cfg.spec_branch_hw_index())
            &&& match s.spec_regs_user() {
                Some(rg) => has_flags(sty, PERF_SAMPLE_REGS_USER) && exists|j: int|
                    0 <= j <= pre.skip(sample_head_len(sty)).len() && regs_block_at(
                        cfg,
                        pre.skip(sample_head_len(sty)),
                        #[trigger] pre.skip(sample_head_len(sty)).skip(j),
                        j,
                        cfg.spec_regs_user(),
                        rg,
                        reliable,
                    ),
                None => !has_flags(sty, PERF_SAMPLE_REGS_USER),
            }
            &&& match s.spec_stack_user() {
                Some(st) => has_flags(sty, PERF_SAMPLE_STACK_USER) && exists|
                    j: int,
                    size: u64,
                    dsz: u64,
                |
                    {
                        &&& #[trigger] stack_block_at(
                            cfg.spec_endian(),
                            pre.skip(sample_head_len(sty)),
                            j,
                            size,
                            dsz,
                        )
                        &&& dsz as int <= (size as usize) as int
                        &&& st == pre.skip(sample_head_len(sty)).subrange(
                            j + 8,
                            j + 8 + (size as usize) as int,
                        ).take(dsz as int)
                    },
                None => !has_flags(sty, PERF_SAMPLE_STACK_USER),
            }
            &&& exists|j: int|
                0 <= j <= pre.skip(sample_head_len(sty)).len() && tail2_fields_at(
                    cfg,
                    #[trigger] pre.skip(sample_head_len(sty)).skip(j),
                    s.spec_weight(),
                    s.spec_data_src(),
                    s.spec_transaction(),
                    s.spec_regs_intr(),
                    s.spec_phys_addr(),
                    reliable,
                )
            &&& (s.spec_aux() is Some <==> has_flags(sty, PERF_SAMPLE_AUX))
            &&& (s.spec_data_page_size() is Some <==> has_flags(sty, PERF_SAMPLE_DATA_PAGE_SIZE))
            &&& (s.spec_code_page_size() is Some <==> has_flags(sty, PERF_SAMPLE_CODE_PAGE_SIZE))
        },
        Err(err) => {
            &&& (err.spec_kind() == ErrorKind::Eof || err.spec_kind() == ErrorKind::External
                || err.spec_kind() == ErrorKind::UnsupportedConfig || err.spec_kind()
                == ErrorKind::InvalidRecord)
            &&& (err.spec_kind() == ErrorKind::Eof ==> post.len() == 0)
            &&& (reliable ==> err.spec_kind() != ErrorKind::External)
            &&& (err.spec_kind() == ErrorKind::UnsupportedConfig ==> has_flags(
                sty,
                PERF_SAMPLE_READ,
            ) && read_format_unsupported(cfg.spec_read_format()))
            &&& (reliable && has_flags(sty, PERF_SAMPLE_READ) && read_format_unsupported(
                cfg.spec_read_format(),
            ) && pre.len() >= sample_head_len(sty) ==> err.spec_kind()
                == ErrorKind::UnsupportedConfig)
            &&& (err.spec_kind() == ErrorKind::InvalidRecord ==> has_flags(sty, PERF_SAMPLE_READ)
                || (has_flags(sty, PERF_SAMPLE_STACK_USER) && exists|j: int, size: u64, dsz: u64|
                    #[trigger] stack_block_at(
                        cfg.spec_endian(),
                        pre.skip(sample_head_len(sty)),
                        j,
                        size,
                        dsz,
                    ) && dsz as int > (size as usize) as int))
        },
    }
}


/// The decoded front half of a sample body's fixed-width head.
struct SampleHeadA {
    identifier: Option<u64>,
    ip: Option<u64>,
    pid: Option<u32>,
    tid: Option<u32>,
    time: Option<u64>,
}

/// The decoded back half of a sample body's fixed-width head.
struct SampleHeadB {
    addr: Option<u64>,
    id_late: Option<u64>,
    stream_id: Option<u64>,
    cpu: Option<u32>,
    period: Option<u64>,
}

/// The front half of the fixed-width head, pinned byte-exactly.
spec fn sample_head_a_post<E: Endian>(
    cfg: ParseConfig<E>,
    pre: Seq<u8>,
    post: Seq<u8>,
    reliable: bool,
    r: ParseResult<SampleHeadA>,
) -> bool {
    let e = cfg.spec_endian();
    let sty = cfg.spec_sample_type();
    match r {
        Ok(h) => {
            &&& pre.len() >= sample_off_addr(sty)
            &&& post == pre.skip(sample_off_addr(sty))
            &&& match h.identifier {
                Some(v) => has_flags(sty, PERF_SAMPLE_IDENTIFIER) && u64_at(e, pre, 0, v),
                None => !has_flags(sty, PERF_SAMPLE_IDENTIFIER),
            }
            &&& match h.ip {
                Some(v) => has_flags(sty, PERF_SAMPLE_IP) && u64_at(e, pre, sample_off_ip(sty), v),
                None => !has_flags(sty, PERF_SAMPLE_IP),
            }
            &&& match h.pid {
                Some(v) => has_flags(sty, PERF_SAMPLE_TID) && u32_at(e, pre, sample_off_pid(sty), v),
                None => !has_flags(sty, PERF_SAMPLE_TID),
            }
            &&& match h.tid {
                Some(v) => has_flags(sty, PERF_SAMPLE_TID) && u32_at(
                    e,
                    pre,
                    sample_off_pid(sty) + 4,
                    v,
                ),
                None => !has_flags(sty, PERF_SAMPLE_TID),
            }
            &&& match h.time {
                Some(v) => has_flags(sty, PERF_SAMPLE_TIME) && u64_at(
                    e,
                    pre,
                    sample_off_time(sty),
                    v,
                ),
                None => !has_flags(sty, PERF_SAMPLE_TIME),
            }
        },
        Err(e) => fail_post(reliable, e, pre.len() as int, post.len() as int, sample_off_addr(sty)),
    }
}

/// The back half of the fixed-width head, pinned byte-exactly against
/// the head's start.
spec fn sample_head_b_post<E: Endian>(
    cfg: ParseConfig<E>,
    pre: Seq<u8>,
    post: Seq<u8>,
    reliable: bool,
    r: ParseResult<SampleHeadB>,
) -> bool {
    let e = cfg.spec_endian();
    let sty = cfg.spec_sample_type();
    match r {
        Ok(h) => {
            &&& pre.len() >= sample_head_len(sty)
            &&& post == pre.skip(sample_head_len(sty))
            &&& match h.addr {
                Some(v) => has_flags(sty, PERF_SAMPLE_ADDR) && u64_at(
                    e,
                    pre,
                    sample_off_addr(sty),
                    v,
                ),
                None => !has_flags(sty, PERF_SAMPLE_ADDR),
            }
            &&& match h.id_late {
                Some(v) => has_flags(sty, PERF_SAMPLE_ID) && u64_at(e, pre, sample_off_id(sty), v),
                None => !has_flags(sty, PERF_SAMPLE_ID),
            }
            &&& match h.stream_id {
                Some(v) => has_flags(sty, PERF_SAMPLE_STREAM_ID) && u64_at(
                    e,
                    pre,
                    sample_off_stream_id(sty),
                    v,
                ),
                None => !has_flags(sty, PERF_SAMPLE_STREAM_ID),
            }
            &&& match h.cpu {
                Some(v) => has_flags(sty, PERF_SAMPLE_CPU) && u32_at(
                    e,
                    pre,
                    sample_off_cpu(sty),
                    v,
                ),
                None => !has_flags(sty, PERF_SAMPLE_CPU),
            }
            &&& match h.period {
                Some(v) => has_flags(sty, PERF_SAMPLE_PERIOD) && u64_at(
                    e,
                    pre,
                    sample_off_period(sty),
                    v,
                ),
                None => !has_flags(sty, PERF_SAMPLE_PERIOD),
            }
        },
        Err(e) => fail_post(reliable, e, pre.len() as int, post.len() as int, sample_head_len(sty)),
    }
}

/// Parse the front half of the fixed-width head of a sample body.
#[verifier::rlimit(100)]
fn parse_sample_head_a<B: ParseBuf, E: Endian>(p: &mut Parser<B, E>) -> (r: ParseResult<
    SampleHeadA,
>)
    ensures
        final(p).cfg() == old(p).cfg(),
        final(p).reliable() == old(p).reliable(),
        final(p).bytes().len() <= old(p).bytes().len(),
        sample_head_a_post(old(p).cfg(), old(p).bytes(), final(p).bytes(), old(p).reliable(), r),
{
    let sty = p.config().sample_type();
    let ghost styg = p.cfg().spec_sample_type();
    let ghost pre = p.bytes();
    proof {
        lemma_sample_offsets(styg);
    }
    let identifier: Option<u64> = if sty.contains(SampleFlags { bits: PERF_SAMPLE_IDENTIFIER }) {
        Some(p.parse_u64()?)
    } else {
        None
    };
    proof {
        if has_flags(styg, PERF_SAMPLE_IDENTIFIER) {
            lemma_step(pre, 0, 8);
        }
        assert(p.bytes() == pre.skip(sample_off_ip(styg)));
    }
    let ip: Option<u64> = if sty.contains(SampleFlags { bits: PERF_SAMPLE_IP }) {
        Some(p.parse_u64()?)
    } else {
        None
    };
    proof {
        if has_flags(styg, PERF_SAMPLE_IP) {
            lemma_step(pre, sample_off_ip(styg), 8);
        }
        assert(p.bytes() == pre.skip(sample_off_pid(styg)));
    }
    let has_tid = sty.contains(SampleFlags { bits: PERF_SAMPLE_TID });
    let pid: Option<u32> = if has_tid {
        Some(p.parse_u32()?)
    } else {
        None
    };
    proof {
        if has_flags(styg, PERF_SAMPLE_TID) {
            lemma_step(pre, sample_off_pid(styg), 4);
        }
    }
    let tid: Option<u32> = if has_tid {
        Some(p.parse_u32()?)
    } else {
        None
    };
    proof {
        if has_flags(styg, PERF_SAMPLE_TID) {
            lemma_step(pre, sample_off_pid(styg) + 4, 4);
        }
        assert(p.bytes() == pre.skip(sample_off_time(styg)));
    }
    let time: Option<u64> = if sty.contains(SampleFlags { bits: PERF_SAMPLE_TIME }) {
        Some(p.parse_u64()?)
    } else {
        None
    };
    proof {
        if has_flags(styg, PERF_SAMPLE_TIME) {
            lemma_step(pre, sample_off_time(styg), 8);
        }
        assert(p.bytes() == pre.skip(sample_off_addr(styg)));
    }
    Ok(SampleHeadA { identifier, ip, pid, tid, time })
}

/// Parse the back half of the fixed-width head of a sample body, where
/// `pre0` is the head's start and the parser stands at its `addr` field.
#[verifier::rlimit(100)]
fn parse_sample_head_b<B: ParseBuf, E: Endian>(
    p: &mut Parser<B, E>,
    Ghost(pre0): Ghost<Seq<u8>>,
) -> (r: ParseResult<SampleHeadB>)
    requires
        old(p).bytes() == pre0.skip(sample_off_addr(old(p).cfg().spec_sample_type())),
        0 <= sample_off_addr(old(p).cfg().spec_sample_type()) <= pre0.len(),
    ensures
        final(p).cfg() == old(p).cfg(),
        final(p).reliable() == old(p).reliable(),
        final(p).bytes().len() <= old(p).bytes().len(),
        sample_head_b_post(old(p).cfg(), pre0, final(p).bytes(), old(p).reliable(), r),
{
    let sty = p.config().sample_type();
    let ghost styg = p.cfg().spec_sample_type();
    let ghost pre = pre0;
    proof {
        lemma_sample_offsets(styg);
    }
    let addr: Option<u64> = if sty.contains(SampleFlags { bits: PERF_SAMPLE_ADDR }) {
        Some(p.parse_u64()?)
    } else {
        None
    };
    proof {
        if has_flags(styg, PERF_SAMPLE_ADDR) {
            lemma_step(pre, sample_off_addr(styg), 8);
        }
        assert(p.bytes() == pre.skip(sample_off_id(styg)));
    }
    let id_late: Option<u64> = if sty.contains(SampleFlags { bits: PERF_SAMPLE_ID }) {
        Some(p.parse_u64()?)
    } else {
        None
    };
    proof {
        if has_flags(styg, PERF_SAMPLE_ID) {
            lemma_step(pre, sample_off_id(styg), 8);
        }
        assert(p.bytes() == pre.skip(sample_off_stream_id(styg)));
    }
    let stream_id: Option<u64> = if sty.contains(SampleFlags { bits: PERF_SAMPLE_STREAM_ID }) {
        Some(p.parse_u64()?)
    } else {
        None
    };
    proof {
        if has_flags(styg, PERF_SAMPLE_STREAM_ID) {
            lemma_step(pre, sample_off_stream_id(styg), 8);
        }
        assert(p.bytes() == pre.skip(sample_off_cpu(styg)));
    }
    let mut cpu: Option<u32> = None;
    if sty.contains(SampleFlags { bits: PERF_SAMPLE_CPU }) {
        let c = p.parse_u32()?;
        proof {
            lemma_step(pre, sample_off_cpu(styg), 4);
        }
        let _reserved = p.parse_u32()?;
        proof {
            lemma_step(pre, sample_off_cpu(styg) + 4, 4);
        }
        cpu = Some(c);
    }
    proof {
        assert(p.bytes() == pre.skip(sample_off_period(styg)));
    }
    let period: Option<u64> = if sty.contains(SampleFlags { bits: PERF_SAMPLE_PERIOD }) {
        Some(p.parse_u64()?)
    } else {
        None
    };
    proof {
        if has_flags(styg, PERF_SAMPLE_PERIOD) {
            lemma_step(pre, sample_off_period(styg), 8);
        }
        assert(p.bytes() == pre.skip(sample_head_len(styg)));
    }
    Ok(SampleHeadB { addr, id_late, stream_id, cpu, period })
}

/// Whether `cur` is what remains of `pre` after some consumption.
pub open spec fn is_suffix_of(cur: Seq<u8>, pre: Seq<u8>) -> bool {
    exists|j: int| 0 <= j <= pre.len() && cur == #[trigger] pre.skip(j)
}

pub proof fn lemma_suffix_refl(pre: Seq<u8>)
    ensures
        is_suffix_of(pre, pre),
{
    assert(pre.skip(0) =~= pre);
}

pub proof fn lemma_suffix_step(pre: Seq<u8>, mid: Seq<u8>, cur: Seq<u8>, m: int)
    requires
        is_suffix_of(mid, pre),
        0 <= m <= mid.len(),
        cur == mid.skip(m),
    ensures
        is_suffix_of(cur, pre),
{
    let j = choose|j: int| 0 <= j <= pre.len() && mid == #[trigger] pre.skip(j);
    assert(pre.skip(j).skip(m) =~= pre.skip(j + m));
}

/// A register snapshot decoded at offset `j` of `pre` under `mask`;
/// `at` is the bytes from that offset on.
pub open spec fn regs_block_at<E: Endian>(
    cfg: ParseConfig<E>,
    pre: Seq<u8>,
    at: Seq<u8>,
    j: int,
    mask: u64,
    rg: Registers,
    reliable: bool,
) -> bool {
    &&& at == pre.skip(j)
    &&& registers_post(cfg, mask, at, at.skip(8 + 8 * popcnt64(mask) as int), reliable, Ok(rg))
}

/// A user-stack block at offset `j` of `pre`: a 64-bit byte count, that
/// many payload bytes, and the trailing 64-bit dynamic size.
pub open spec fn stack_block_at<E: Endian>(
    e: E,
    pre: Seq<u8>,
    j: int,
    size: u64,
    dsz: u64,
) -> bool {
    &&& 0 <= j
    &&& j + 16 + (size as usize) as int <= pre.len()
    &&& u64_at(e, pre, j, size)
    &&& u64_at(e, pre, j + 8 + (size as usize) as int, dsz)
}

/// The decoded length-prefixed payload fields of a sample body.
struct SampleTail1A {
    values: Option<ReadData>,
    callchain: Option<Vec<u64>>,
    raw: Option<Vec<u8>>,
}

/// The decoded branch-stack, register and user-stack fields of a sample
/// body.
struct SampleTail1B {
    lbr_hw_index: Option<u64>,
    lbr: Option<Vec<BranchEntry>>,
    regs_user: Option<Registers>,
    stack_user: Option<Vec<u8>>,
}

/// The length-prefixed payload fields of a sample body: each present
/// exactly when its flag is set, the counter-read data pinned through
/// its own decode relation at the run's start. A read format this
/// library does not support makes the whole decode fail with
/// `UnsupportedConfig` rather than being silently ignored.
spec fn sample_tail1a_post<E: Endian>(
    cfg: ParseConfig<E>,
    pre: Seq<u8>,
    post: Seq<u8>,
    reliable: bool,
    r: ParseResult<SampleTail1A>,
) -> bool {
    let sty = cfg.spec_sample_type();
    match r {
        Ok(t) => {
            &&& post.len() <= pre.len()
            &&& is_suffix_of(post, pre)
            &&& match t.values {
                Some(d) => has_flags(sty, PERF_SAMPLE_READ) && exists|rest: Seq<u8>|
                    #[trigger] read_data_post(cfg, pre, rest, reliable, Ok(d)),
                None => !has_flags(sty, PERF_SAMPLE_READ),
            }
            &&& (t.callchain is Some <==> has_flags(sty, PERF_SAMPLE_CALLCHAIN))
            &&& (t.raw is Some <==> has_flags(sty, PERF_SAMPLE_RAW))
        },
        Err(err) => {
            &&& (err.spec_kind() == ErrorKind::Eof || err.spec_kind() == ErrorKind::External
                || err.spec_kind() == ErrorKind::UnsupportedConfig || err.spec_kind()
                == ErrorKind::InvalidRecord)
            &&& (err.spec_kind() == ErrorKind::Eof ==> post.len() == 0)
            &&& (reliable ==> err.spec_kind() != ErrorKind::External)
            &&& (err.spec_kind() == ErrorKind::UnsupportedConfig ==> has_flags(
                sty,
                PERF_SAMPLE_READ,
            ) && read_format_unsupported(cfg.spec_read_format()))
            &&& (reliable && has_flags(sty, PERF_SAMPLE_READ) && read_format_unsupported(
                cfg.spec_read_format(),
            ) ==> err.spec_kind() == ErrorKind::UnsupportedConfig)
            &&& (err.spec_kind() == ErrorKind::InvalidRecord ==> has_flags(sty, PERF_SAMPLE_READ))
        },
    }
}

/// The branch-stack, register-snapshot and user-stack fields of a
/// sample body, anchored against `pre0`, the start of the body's
/// variable-length run: the register snapshot and the user-stack block
/// stand at some offset of it, pinned byte-exactly there; the stack
/// payload is truncated to its trailing dynamic size, and a dynamic
/// size exceeding the payload is an invalid record.
spec fn sample_tail1b_post<E: Endian>(
    cfg: ParseConfig<E>,
    pre0: Seq<u8>,
    post: Seq<u8>,
    reliable: bool,
    r: ParseResult<SampleTail1B>,
) -> bool {
    let sty = cfg.spec_sample_type();
    match r {
        Ok(t) => {
            &&& is_suffix_of(post, pre0)
            &&& (t.lbr is Some <==> has_flags(sty, PERF_SAMPLE_BRANCH_STACK))
            &&& (t.lbr_hw_index is Some <==> has_flags(sty, PERF_SAMPLE_BRANCH_STACK)
                && cfg.spec_branch_hw_index())
            &&& match t.regs_user {
                Some(rg) => has_flags(sty, PERF_SAMPLE_REGS_USER) && exists|j: int|
                    0 <= j <= pre0.len() && regs_block_at(
                        cfg,
                        pre0,
                        #[trigger] pre0.skip(j),
                        j,
                        cfg.spec_regs_user(),
                        rg,
                        reliable,
                    ),
                None => !has_flags(sty, PERF_SAMPLE_REGS_USER),
            }
            &&& match t.stack_user {
                Some(st) => has_flags(sty, PERF_SAMPLE_STACK_USER) && exists|
                    j: int,
                    size: u64,
                    dsz: u64,
                |
                    {
                        &&& #[trigger] stack_block_at(cfg.spec_endian(), pre0, j, size, dsz)
                        &&& dsz as int <= (size as usize) as int
                        &&& st@ == pre0.subrange(j + 8, j + 8 + (size as usize) as int).take(
                            dsz as int,
                        )
                    },
                None => !has_flags(sty, PERF_SAMPLE_STACK_USER),
            }
        },
        Err(err) => {
            &&& (err.spec_kind() == ErrorKind::Eof || err.spec_kind() == ErrorKind::External
                || err.spec_kind() == ErrorKind::InvalidRecord)
            &&& (err.spec_kind() == ErrorKind::Eof ==> post.len() == 0)
            &&& (reliable ==> err.spec_kind() != ErrorKind::External)
            &&& (err.spec_kind() == ErrorKind::InvalidRecord ==> has_flags(
                sty,
                PERF_SAMPLE_STACK_USER,
            ) && exists|j: int, size: u64, dsz: u64|
                #[trigger] stack_block_at(cfg.spec_endian(), pre0, j, size, dsz) && dsz as int > (
                size as usize) as int)
        },
    }
}

/// Parse the length-prefixed payload fields of a sample body.
#[verifier::rlimit(100)]
fn parse_sample_tail1a<B: ParseBuf, E: Endian>(p: &mut Parser<B, E>) -> (r: ParseResult<
    SampleTail1A,
>)
    ensures
        final(p).cfg() == old(p).cfg(),
        final(p).reliable() == old(p).reliable(),
        final(p).bytes().len() <= old(p).bytes().len(),
        sample_tail1a_post(old(p).cfg(), old(p).bytes(), final(p).bytes(), old(p).reliable(), r),
{
    let sty = p.config().sample_type();
    let ghost pre = p.bytes();
    proof {
        lemma_suffix_refl(pre);
    }

    let ghost at_values = p.bytes();
    let values = p.parse_if::<ReadData>(sty.contains(SampleFlags { bits: PERF_SAMPLE_READ }))?;
    proof {
        assert(match values {
            Some(d) => read_data_post(p.cfg(), at_values, p.bytes(), p.reliable(), Ok(d)),
            None => true,
        });
        let ghost rf = p.cfg().spec_read_format();
        let ghost m = match &values {
            Some(d) => match d {
                ReadData::Single(_) => single_read_len(rf),
                ReadData::Group(g) => group_head_len(rf) + 8 * g.spec_data().len(),
            },
            None => 0int,
        };
        assert(pre.skip(0) =~= pre);
        lemma_suffix_step(pre, at_values, p.bytes(), m);
    }

    let mut callchain: Option<Vec<u64>> = None;
    if sty.contains(SampleFlags { bits: PERF_SAMPLE_CALLCHAIN }) {
        let ghost before = p.bytes();
        let nr = p.parse_u64()?;
        proof {
            lemma_suffix_step(pre, before, p.bytes(), 8);
        }
        let ghost mid = p.bytes();
        let chain = p.parse_u64_vec(nr as usize)?;
        proof {
            lemma_suffix_step(pre, mid, p.bytes(), 8 * (nr as usize) as int);
        }
        callchain = Some(chain);
    }

    let mut raw: Option<Vec<u8>> = None;
    if sty.contains(SampleFlags { bits: PERF_SAMPLE_RAW }) {
        let ghost before = p.bytes();
        let size = p.parse_u64()?;
        proof {
            lemma_suffix_step(pre, before, p.bytes(), 8);
        }
        let ghost mid = p.bytes();
        let bytes = p.parse_bytes(size as usize)?;
        proof {
            lemma_suffix_step(pre, mid, p.bytes(), (size as usize) as int);
        }
        raw = Some(bytes);
    }

    Ok(SampleTail1A { values, callchain, raw })
}

/// Parse the optional user register snapshot of a sample body, where
/// `pre0` is the start of the body's variable-length run.
fn parse_sample_regs_user<B: ParseBuf, E: Endian>(
    p: &mut Parser<B, E>,
    Ghost(pre0): Ghost<Seq<u8>>,
) -> (r: ParseResult<Option<Registers>>)
    requires
        is_suffix_of(old(p).bytes(), pre0),
    ensures
        final(p).cfg() == old(p).cfg(),
        final(p).reliable() == old(p).reliable(),
        final(p).bytes().len() <= old(p).bytes().len(),
        match r {
            Ok(opt) => {
                &&& is_suffix_of(final(p).bytes(), pre0)
                &&& match opt {
                    Some(rg) => has_flags(
                        old(p).cfg().spec_sample_type(),
                        PERF_SAMPLE_REGS_USER,
                    ) && exists|j: int|
                        0 <= j <= pre0.len() && regs_block_at(
                            old(p).cfg(),
                            pre0,
                            #[trigger] pre0.skip(j),
                            j,
                            old(p).cfg().spec_regs_user(),
                            rg,
                            old(p).reliable(),
                        ),
                    None => !has_flags(old(p).cfg().spec_sample_type(), PERF_SAMPLE_REGS_USER),
                }
            },
            Err(e) => fail_post(
                old(p).reliable(),
                e,
                old(p).bytes().len() as int,
                final(p).bytes().len() as int,
                8 + 8 * popcnt64(old(p).cfg().spec_regs_user()) as int,
            ),
        },
{
    let sty = p.config().sample_type();
    let mask_user = p.config().regs_user();
    let ghost pre = pre0;
    if !sty.contains(SampleFlags { bits: PERF_SAMPLE_REGS_USER }) {
        return Ok(None);
    }
    let ghost at_regs = p.bytes();
    let rg = Registers::parse_from(p, mask_user)?;
    proof {
        let j = choose|j: int| 0 <= j <= pre.len() && at_regs == #[trigger] pre.skip(j);
        assert(pre.skip(j).skip(8 + 8 * popcnt64(mask_user) as int) == p.bytes());
        assert(regs_block_at(
            old(p).cfg(),
            pre,
            pre.skip(j),
            j,
            old(p).cfg().spec_regs_user(),
            rg,
            old(p).reliable(),
        ));
        lemma_suffix_step(pre, at_regs, p.bytes(), 8 + 8 * popcnt64(mask_user) as int);
    }
    Ok(Some(rg))
}

/// Parse the optional user stack block of a sample body, where `pre0`
/// is the start of the body's variable-length run: a byte count, that
/// many payload bytes, and a trailing dynamic size the payload is
/// truncated to. A dynamic size exceeding the payload is an invalid
/// record.
fn parse_sample_stack_user<B: ParseBuf, E: Endian>(
    p: &mut Parser<B, E>,
    Ghost(pre0): Ghost<Seq<u8>>,
) -> (r: ParseResult<Option<Vec<u8>>>)
    requires
        is_suffix_of(old(p).bytes(), pre0),
    ensures
        final(p).cfg() == old(p).cfg(),
        final(p).reliable() == old(p).reliable(),
        final(p).bytes().len() <= old(p).bytes().len(),
        match r {
            Ok(opt) => {
                &&& is_suffix_of(final(p).bytes(), pre0)
                &&& match opt {
                    Some(st) => has_flags(
                        old(p).cfg().spec_sample_type(),
                        PERF_SAMPLE_STACK_USER,
                    ) && exists|j: int, size: u64, dsz: u64|
                        {
                            &&& #[trigger] stack_block_at(
                                old(p).cfg().spec_endian(),
                                pre0,
                                j,
                                size,
                                dsz,
                            )
                            &&& dsz as int <= (size as usize) as int
                            &&& st@ == pre0.subrange(j + 8, j + 8 + (size as usize) as int).take(
                                dsz as int,
                            )
                        },
                    None => !has_flags(old(p).cfg().spec_sample_type(), PERF_SAMPLE_STACK_USER),
                }
            },
            Err(e) => {
                &&& (e.spec_kind() == ErrorKind::Eof || e.spec_kind() == ErrorKind::External
                    || e.spec_kind() == ErrorKind::InvalidRecord)
                &&& (e.spec_kind() == ErrorKind::Eof ==> final(p).bytes().len() == 0)
                &&& (old(p).reliable() ==> e.spec_kind() != ErrorKind::External)
                &&& (e.spec_kind() == ErrorKind::InvalidRecord ==> has_flags(
                    old(p).cfg().spec_sample_type(),
                    PERF_SAMPLE_STACK_USER,
                ) && exists|j: int, size: u64, dsz: u64|
                    #[trigger] stack_block_at(old(p).cfg().spec_endian(), pre0, j, size, dsz)
                        && dsz as int > (size as usize) as int)
            },
        },
{
    let sty = p.config().sample_type();
    let ghost pre = pre0;
    if !sty.contains(SampleFlags { bits: PERF_SAMPLE_STACK_USER }) {
        return Ok(None);
    }
    let ghost at_stack = p.bytes();
    let ghost j = choose|j: int| 0 <= j <= pre.len() && at_stack == #[trigger] pre.skip(j);
    let size = p.parse_u64()?;
    proof {
        lemma_step(pre, j, 8);
    }
    let mut data = p.parse_bytes(size as usize)?;
    proof {
        lemma_step(pre, j + 8, (size as usize) as int);
    }
    let dyn_size = p.parse_u64()?;
    proof {
        lemma_step(pre, j + 8 + (size as usize) as int, 8);
        assert(stack_block_at(old(p).cfg().spec_endian(), pre, j, size, dyn_size));
        assert(p.bytes() == pre.skip(j + 16 + (size as usize) as int));
    }
    if dyn_size > data.len() as u64 {
        // The stack's dynamic size can never exceed the payload actually
        // written for it.
        return Err(ParseError::new(ErrorKind::InvalidRecord));
    }
    data.truncate(dyn_size as usize);
    proof {
        assert(data@ =~= pre.subrange(j + 8, j + 8 + (size as usize) as int).take(
            dyn_size as int,
        ));
    }
    Ok(Some(data))
}

/// Parse the branch-stack, register-snapshot and user-stack fields of a
/// sample body, where `pre0` is the start of the body's variable-length
/// run and the parser stands somewhere within it.
#[verifier::rlimit(100)]
fn parse_sample_tail1b<B: ParseBuf, E: Endian>(
    p: &mut Parser<B, E>,
    Ghost(pre0): Ghost<Seq<u8>>,
) -> (r: ParseResult<SampleTail1B>)
    requires
        is_suffix_of(old(p).bytes(), pre0),
    ensures
        final(p).cfg() == old(p).cfg(),
        final(p).reliable() == old(p).reliable(),
        final(p).bytes().len() <= old(p).bytes().len(),
        sample_tail1b_post(old(p).cfg(), pre0, final(p).bytes(), old(p).reliable(), r),
{
    let sty = p.config().sample_type();
    let branch_hw_index = p.config().branch_hw_index();
    let ghost pre = pre0;

    let mut lbr: Option<Vec<BranchEntry>> = None;
    let mut lbr_hw_index: Option<u64> = None;
    if sty.contains(SampleFlags { bits: PERF_SAMPLE_BRANCH_STACK }) {
        let ghost before = p.bytes();
        let nr = p.parse_u64()?;
        proof {
            lemma_suffix_step(pre, before, p.bytes(), 8);
        }
        let ghost mid = p.bytes();
        lbr_hw_index = p.parse_if::<u64>(branch_hw_index)?;
        proof {
            assert(mid.skip(0) =~= mid);
            lemma_suffix_step(
                pre,
                mid,
                p.bytes(),
                if lbr_hw_index is Some {
                    8int
                } else {
                    0int
                },
            );
        }
        let count = nr as usize;
        let mut entries: Vec<BranchEntry> = Vec::new();
        let mut i: usize = 0;
        while i < count
            invariant
                i <= count,
                entries@.len() == i,
                is_suffix_of(p.bytes(), pre),
                p.cfg() == old(p).cfg(),
                p.reliable() == old(p).reliable(),
                p.bytes().len() <= old(p).bytes().len(),
            decreases count - i,
        {
            let ghost at_entry = p.bytes();
            let entry = BranchEntry::parse(p)?;
            proof {
                lemma_suffix_step(pre, at_entry, p.bytes(), 24);
            }
            entries.push(entry);
            i = i + 1;
        }
        lbr = Some(entries);
    }

    let regs_user = parse_sample_regs_user(p, Ghost(pre0))?;
    let stack_user = parse_sample_stack_user(p, Ghost(pre0))?;

    Ok(SampleTail1B { lbr_hw_index, lbr, regs_user, stack_user })
}

/// Byte offset of the `data_src` field within a sample body's trailing
/// fields.
pub open spec fn sample_t2_off_data_src(sty: u64) -> int {
    if has_flags(sty, PERF_SAMPLE_WEIGHT) {
        8int
    } else {
        0int
    }
}

/// Byte offset of the `transaction` field within a sample body's
/// trailing fields.
pub open spec fn sample_t2_off_txn(sty: u64) -> int {
    sample_t2_off_data_src(sty) + if has_flags(sty, PERF_SAMPLE_DATA_SRC) {
        8int
    } else {
        0int
    }
}

/// Byte offset of the interrupt register snapshot within a sample body's
/// trailing fields.
pub open spec fn sample_t2_off_regs_intr(sty: u64) -> int {
    sample_t2_off_txn(sty) + if has_flags(sty, PERF_SAMPLE_TRANSACTION) {
        8int
    } else {
        0int
    }
}

/// Byte offset of the `phys_addr` field within a sample body's trailing
/// fields.
pub open spec fn sample_t2_off_phys_addr<E: Endian>(cfg: ParseConfig<E>) -> int {
    sample_t2_off_regs_intr(cfg.spec_sample_type()) + if has_flags(
        cfg.spec_sample_type(),
        PERF_SAMPLE_REGS_INTR,
    ) {
        8 + 8 * popcnt64(cfg.spec_regs_intr()) as int
    } else {
        0int
    }
}

/// The fixed-width trailing run of a sample body decoded at the start
/// of `at`: the weight, data source, transaction and physical address
/// words at their computable offsets, and the interrupt register
/// snapshot between them, each present exactly when its flag is set.
pub open spec fn tail2_fields_at<E: Endian>(
    cfg: ParseConfig<E>,
    at: Seq<u8>,
    weight: Option<u64>,
    data_src: Option<DataSource>,
    transaction: Option<Txn>,
    regs_intr: Option<Registers>,
    phys_addr: Option<u64>,
    reliable: bool,
) -> bool {
    let e = cfg.spec_endian();
    let sty = cfg.spec_sample_type();
    &&& match weight {
        Some(v) => has_flags(sty, PERF_SAMPLE_WEIGHT) && u64_at(e, at, 0, v),
        None => !has_flags(sty, PERF_SAMPLE_WEIGHT),
    }
    &&& match data_src {
        Some(d) => has_flags(sty, PERF_SAMPLE_DATA_SRC) && u64_at(
            e,
            at,
            sample_t2_off_data_src(sty),
            d.val,
        ),
        None => !has_flags(sty, PERF_SAMPLE_DATA_SRC),
    }
    &&& match transaction {
        Some(x) => has_flags(sty, PERF_SAMPLE_TRANSACTION) && u64_at(
            e,
            at,
            sample_t2_off_txn(sty),
            x.bits,
        ),
        None => !has_flags(sty, PERF_SAMPLE_TRANSACTION),
    }
    &&& match regs_intr {
        Some(rg) => has_flags(sty, PERF_SAMPLE_REGS_INTR) && registers_post(
            cfg,
            cfg.spec_regs_intr(),
            at.skip(sample_t2_off_regs_intr(sty)),
            at.skip(sample_t2_off_phys_addr(cfg)),
            reliable,
            Ok(rg),
        ),
        None => !has_flags(sty, PERF_SAMPLE_REGS_INTR),
    }
    &&& match phys_addr {
        Some(v) => has_flags(sty, PERF_SAMPLE_PHYS_ADDR) && u64_at(
            e,
            at,
            sample_t2_off_phys_addr(cfg),
            v,
        ),
        None => !has_flags(sty, PERF_SAMPLE_PHYS_ADDR),
    }
}

/// The decoded trailing fields of a sample body.
struct SampleTail2 {
    weight: Option<u64>,
    data_src: Option<DataSource>,
    transaction: Option<Txn>,
    regs_intr: Option<Registers>,
    phys_addr: Option<u64>,
    aux: Option<Vec<u8>>,
    data_page_size: Option<u64>,
    code_page_size: Option<u64>,
}

/// The trailing fields of a sample body: each present exactly when its
/// flag is set; the register snapshot is shaped by the configured
/// interrupt register mask.
spec fn sample_tail2_post<E: Endian>(
    cfg: ParseConfig<E>,
    pre: Seq<u8>,
    post: Seq<u8>,
    reliable: bool,
    r: ParseResult<SampleTail2>,
) -> bool {
    let sty = cfg.spec_sample_type();
    match r {
        Ok(t) => {
            &&& post.len() <= pre.len()
            &&& tail2_fields_at(
                cfg,
                pre,
                t.weight,
                t.data_src,
                t.transaction,
                t.regs_intr,
                t.phys_addr,
                reliable,
            )
            &&& (t.aux is Some <==> has_flags(sty, PERF_SAMPLE_AUX))
            &&& (t.data_page_size is Some <==> has_flags(sty, PERF_SAMPLE_DATA_PAGE_SIZE))
            &&& (t.code_page_size is Some <==> has_flags(sty, PERF_SAMPLE_CODE_PAGE_SIZE))
        },
        Err(err) => {
            &&& (err.spec_kind() == ErrorKind::Eof || err.spec_kind() == ErrorKind::External)
            &&& (err.spec_kind() == ErrorKind::Eof ==> post.len() == 0)
            &&& (reliable ==> err.spec_kind() == ErrorKind::Eof)
        },
    }
}

/// Parse the trailing fields of a sample body.
#[verifier::rlimit(100)]
fn parse_sample_tail2<B: ParseBuf, E: Endian>(p: &mut Parser<B, E>) -> (r: ParseResult<
    SampleTail2,
>)
    ensures
        final(p).cfg() == old(p).cfg(),
        final(p).reliable() == old(p).reliable(),
        final(p).bytes().len() <= old(p).bytes().len(),
        sample_tail2_post(old(p).cfg(), old(p).bytes(), final(p).bytes(), old(p).reliable(), r),
{
    let sty = p.config().sample_type();
    let mask_intr = p.config().regs_intr();
    let ghost styg = p.cfg().spec_sample_type();
    let ghost pre = p.bytes();

    let weight = p.parse_if::<u64>(sty.contains(SampleFlags { bits: PERF_SAMPLE_WEIGHT }))?;
    proof {
        if has_flags(styg, PERF_SAMPLE_WEIGHT) {
            lemma_step(pre, 0, 8);
        }
        assert(p.bytes() == pre.skip(sample_t2_off_data_src(styg)));
    }
    let data_src_word = p.parse_if::<u64>(sty.contains(SampleFlags { bits: PERF_SAMPLE_DATA_SRC }))?;
    proof {
        if has_flags(styg, PERF_SAMPLE_DATA_SRC) {
            lemma_step(pre, sample_t2_off_data_src(styg), 8);
        }
        assert(p.bytes() == pre.skip(sample_t2_off_txn(styg)));
    }
    let data_src = match data_src_word {
        Some(v) => Some(DataSource { val: v }),
        None => None,
    };
    let txn_word = p.parse_if::<u64>(sty.contains(SampleFlags { bits: PERF_SAMPLE_TRANSACTION }))?;
    proof {
        if has_flags(styg, PERF_SAMPLE_TRANSACTION) {
            lemma_step(pre, sample_t2_off_txn(styg), 8);
        }
        assert(p.bytes() == pre.skip(sample_t2_off_regs_intr(styg)));
    }
    let transaction = match txn_word {
        Some(v) => Some(Txn { bits: v }),
        None => None,
    };

    let mut regs_intr: Option<Registers> = None;
    if sty.contains(SampleFlags { bits: PERF_SAMPLE_REGS_INTR }) {
        let ghost at_regs = p.bytes();
        let rg = Registers::parse_from(p, mask_intr)?;
        proof {
            lemma_step(pre, sample_t2_off_regs_intr(styg), 8 + 8 * popcnt64(mask_intr) as int);
            assert(registers_post(
                old(p).cfg(),
                old(p).cfg().spec_regs_intr(),
                pre.skip(sample_t2_off_regs_intr(styg)),
                pre.skip(sample_t2_off_phys_addr(old(p).cfg())),
                old(p).reliable(),
                Ok(rg),
            ));
        }
        regs_intr = Some(rg);
    }
    proof {
        assert(p.bytes() == pre.skip(sample_t2_off_phys_addr(old(p).cfg())));
    }
    let phys_addr = p.parse_if::<u64>(sty.contains(SampleFlags { bits: PERF_SAMPLE_PHYS_ADDR }))?;
    proof {
        if has_flags(styg, PERF_SAMPLE_PHYS_ADDR) {
            lemma_step(pre, sample_t2_off_phys_addr(old(p).cfg()), 8);
        }
    }

    let mut aux: Option<Vec<u8>> = None;
    if sty.contains(SampleFlags { bits: PERF_SAMPLE_AUX }) {
        let size = p.parse_u64()?;
        let bytes = p.parse_bytes(size as usize)?;
        aux = Some(bytes);
    }

    let data_page_size = p.parse_if::<u64>(
        sty.contains(SampleFlags { bits: PERF_SAMPLE_DATA_PAGE_SIZE }),
    )?;
    let code_page_size = p.parse_if::<u64>(
        sty.contains(SampleFlags { bits: PERF_SAMPLE_CODE_PAGE_SIZE }),
    )?;

    Ok(
        SampleTail2 {
            weight,
            data_src,
            transaction,
            regs_intr,
            phys_addr,
            aux,
            data_page_size,
            code_page_size,
        },
    )
}

impl<E: Endian> Parse<E> for Sample {
    open spec fn parse_post(
        cfg: ParseConfig<E>,
        pre: Seq<u8>,
        post: Seq<u8>,
        reliable: bool,
        r: ParseResult<Sample>,
    ) -> bool {
        sample_post(cfg, pre, post, reliable, r)
    }

    #[verifier::rlimit(100)]
    fn parse<B: ParseBuf>(p: &mut Parser<B, E>) -> (r: ParseResult<Sample>) {
        let sty = p.config().sample_type();
        let branch_hw_index = p.config().branch_hw_index();
        let mask_user = p.config().regs_user();
        let mask_intr = p.config().regs_intr();
        let ghost styg = p.cfg().spec_sample_type();
        let ghost pre = p.bytes();
        proof {
            lemma_sample_offsets(styg);
        }
        let head_a = parse_sample_head_a(p)?;
        let SampleHeadA { identifier, ip, pid, tid, time } = head_a;
        let head_b = parse_sample_head_b(p, Ghost(pre))?;
        let SampleHeadB { addr, id_late, stream_id, cpu, period } = head_b;
        // Both positions are consumed when both flags are set, but the
        // early identifier value must not be overwritten by the late one.
        let id = match identifier {
            Some(v) => Some(v),
            None => id_late,
        };

        let ghost base = p.bytes();
        proof {
            assert(base == pre.skip(sample_head_len(styg)));
        }
        let tail1a = parse_sample_tail1a(p)?;
        let SampleTail1A { values, callchain, raw } = tail1a;
        let tail1b = parse_sample_tail1b(p, Ghost(base))?;
        let SampleTail1B { lbr_hw_index, lbr, regs_user, stack_user } = tail1b;

        let ghost at_tail2 = p.bytes();
        let tail2 = parse_sample_tail2(p)?;
        proof {
            let j = choose|j: int| 0 <= j <= base.len() && at_tail2 == #[trigger] base.skip(j);
            assert(at_tail2 == pre.skip(sample_head_len(styg)).skip(j));
        }
        let SampleTail2 {
            weight,
            data_src,
            transaction,
            regs_intr,
            phys_addr,
            aux,
            data_page_size,
            code_page_size,
        } = tail2;

        Ok(
            Sample {
                ip,
                pid,
                tid,
                time,
                addr,
                id,
                stream_id,
                cpu,
                period,
                values,
                callchain,
                raw,
                lbr_hw_index,
                lbr,
                regs_user,
                stack_user,
                weight,
                data_src,
                transaction,
                regs_intr,
                phys_addr,
                aux,
                data_page_size,
                code_page_size,
            },
        )
    }
}

} // verus!
