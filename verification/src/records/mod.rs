//! The record kinds of the perf byte stream.

use vstd::prelude::*;
use crate::endian::Endian;
use crate::flags::has_flags;
use crate::flags::SampleFlags;
use crate::flags::PERF_SAMPLE_CPU;
use crate::flags::PERF_SAMPLE_ID;
use crate::flags::PERF_SAMPLE_IDENTIFIER;
use crate::flags::PERF_SAMPLE_STREAM_ID;
use crate::flags::PERF_SAMPLE_TID;
use crate::flags::PERF_SAMPLE_TIME;
use crate::parse::fail_post;
use crate::parse::lemma_step;
use crate::parse::u32_at;
use crate::parse::u64_at;
use crate::error::ErrorKind;
use crate::parse::Parse;
use crate::parse::ParseBuf;
use crate::parse::ParseConfig;
use crate::parse::ParseResult;
use crate::parse::Parser;
use crate::parse::record_header_post;
use crate::parse::RecordHeader;
use crate::error::ParseError;
use crate::visitor::RecordMetadata;
use crate::visitor::Visitor;

mod aux;
mod aux_output_hw_id;
mod bpf_event;
mod cgroup;
mod comm;
mod exit;
mod itrace_start;
mod ksymbol;
mod lost;
mod lost_samples;
mod mmap;
mod mmap2;
mod namespaces;
mod read;
mod sample;
mod switch_cpu_wide;
mod text_poke;
mod throttle;

pub use self::aux::Aux;
pub use self::aux::AuxFlags;
pub use self::aux::AuxPmuFormatType;
pub use self::aux::aux_post;
pub use self::aux::PERF_AUX_FLAG_TRUNCATED;
pub use self::aux::PERF_AUX_FLAG_OVERWRITE;
pub use self::aux::PERF_AUX_FLAG_PARTIAL;
pub use self::aux::PERF_AUX_FLAG_COLLISION;
pub use self::aux::PERF_AUX_FLAG_PMU_FORMAT_TYPE_MASK;
pub use self::aux_output_hw_id::AuxOutputHwId;
pub use self::aux_output_hw_id::aux_output_hw_id_post;
pub use self::bpf_event::BpfEvent;
pub use self::bpf_event::BpfEventType;
pub use self::bpf_event::bpf_event_post;
pub use self::bpf_event::PERF_BPF_EVENT_UNKNOWN;
pub use self::bpf_event::PERF_BPF_EVENT_PROG_LOAD;
pub use self::bpf_event::PERF_BPF_EVENT_PROG_UNLOAD;
pub use self::cgroup::CGroup;
pub use self::cgroup::cgroup_post;
pub use self::comm::Comm;
pub use self::comm::comm_post;
pub use self::exit::Exit;
pub use self::exit::exit_post;
pub use self::itrace_start::ITraceStart;
pub use self::itrace_start::itrace_start_post;
pub use self::ksymbol::KSymbol;
pub use self::ksymbol::KSymbolType;
pub use self::ksymbol::KSymbolFlags;
pub use self::ksymbol::ksymbol_post;
pub use self::ksymbol::PERF_RECORD_KSYMBOL_TYPE_UNKNOWN;
pub use self::ksymbol::PERF_RECORD_KSYMBOL_TYPE_BPF;
pub use self::ksymbol::PERF_RECORD_KSYMBOL_TYPE_OOL;
pub use self::ksymbol::PERF_RECORD_KSYMBOL_FLAGS_UNREGISTER;
pub use self::lost::Lost;
pub use self::lost::lost_post;
pub use self::lost_samples::LostSamples;
pub use self::lost_samples::lost_samples_post;
pub use self::mmap::Mmap;
pub use self::mmap::mmap_post;
pub use self::mmap2::Mmap2;
pub use self::mmap2::MmapDetail;
pub use self::mmap2::mmap2_post;
pub use self::namespaces::Namespaces;
pub use self::namespaces::NamespaceEntry;
pub use self::namespaces::namespaces_post;
pub use self::namespaces::namespace_entry_post;
pub use self::namespaces::NET_NS_INDEX;
pub use self::namespaces::UTS_NS_INDEX;
pub use self::namespaces::IPC_NS_INDEX;
pub use self::namespaces::PID_NS_INDEX;
pub use self::namespaces::USER_NS_INDEX;
pub use self::namespaces::MNT_NS_INDEX;
pub use self::namespaces::CGROUP_NS_INDEX;
pub use self::read::Read;
pub use self::read::ReadData;
pub use self::read::ReadValue;
pub use self::read::ReadGroup;
pub use self::read::GroupEntry;
pub use self::read::TryFromGroupError;
pub use self::read::read_post;
pub use self::read::read_data_post;
pub use self::read::read_value_post;
pub use self::read::read_group_post;
pub use self::read::read_format_unsupported;
pub use self::read::single_read_len;
pub use self::sample::Sample;
pub use self::sample::sample_post;
pub use self::sample::sample_head_len;
pub use self::sample::Registers;
pub use self::sample::registers_post;
pub use self::sample::SampleRegsAbi;
pub use self::sample::BranchEntry;
pub use self::sample::branch_entry_post;
pub use self::sample::BranchType;
pub use self::sample::DataSource;
pub use self::sample::MemOp;
pub use self::sample::MemLevel;
pub use self::sample::MemSnoop;
pub use self::sample::MemLock;
pub use self::sample::MemDtlb;
pub use self::sample::MemBlk;
pub use self::sample::MemLevelNum;
pub use self::sample::Txn;
pub use self::sample::popcnt64;
pub use self::sample::popcount64;
pub use self::sample::PERF_SAMPLE_REGS_ABI_NONE;
pub use self::sample::PERF_SAMPLE_REGS_ABI_32;
pub use self::sample::PERF_SAMPLE_REGS_ABI_64;
pub use self::switch_cpu_wide::SwitchCpuWide;
pub use self::switch_cpu_wide::switch_cpu_wide_post;
pub use self::text_poke::TextPoke;
pub use self::text_poke::text_poke_post;
pub use self::text_poke::round_up_mod;
pub use self::text_poke::round_up_mod_spec;
pub use self::throttle::Throttle;
pub use self::throttle::throttle_post;

verus! {

/// Byte offset of the `time` field of a `SampleId` trailer.
pub open spec fn sid_off_time(sty: u64) -> int {
    if has_flags(sty, PERF_SAMPLE_TID) {
        8int
    } else {
        0int
    }
}

/// Byte offset of the `id` field of a `SampleId` trailer.
pub open spec fn sid_off_id(sty: u64) -> int {
    sid_off_time(sty) + if has_flags(sty, PERF_SAMPLE_TIME) {
        8int
    } else {
        0int
    }
}

/// Byte offset of the `stream_id` field of a `SampleId` trailer.
pub open spec fn sid_off_stream_id(sty: u64) -> int {
    sid_off_id(sty) + if has_flags(sty, PERF_SAMPLE_ID) {
        8int
    } else {
        0int
    }
}

/// Byte offset of the `cpu` field of a `SampleId` trailer.
pub open spec fn sid_off_cpu(sty: u64) -> int {
    sid_off_stream_id(sty) + if has_flags(sty, PERF_SAMPLE_STREAM_ID) {
        8int
    } else {
        0int
    }
}

/// Byte offset of the `identifier` field of a `SampleId` trailer.
pub open spec fn sid_off_identifier(sty: u64) -> int {
    sid_off_cpu(sty) + if has_flags(sty, PERF_SAMPLE_CPU) {
        8int
    } else {
        0int
    }
}

/// The width in bytes of a `SampleId` trailer under the given
/// configuration: zero unless `sample_id_all` was requested, else eight
/// bytes for each participating sample flag. It is computed purely from
/// the configuration, never read from the stream.
pub open spec fn sample_id_len<E: Endian>(cfg: ParseConfig<E>) -> int {
    if !cfg.spec_sample_id_all() {
        0
    } else {
        sid_off_identifier(cfg.spec_sample_type()) + if has_flags(
            cfg.spec_sample_type(),
            PERF_SAMPLE_IDENTIFIER,
        ) {
            8int
        } else {
            0int
        }
    }
}

/// A subset of the sample fields that can be recorded in non-SAMPLE
/// records, appended as a trailer when `sample_id_all` is configured.
#[derive(Copy, Clone, Debug)]
pub struct SampleId {
    pid: Option<u32>,
    tid: Option<u32>,
    time: Option<u64>,
    id: Option<u64>,
    stream_id: Option<u64>,
    cpu: Option<u32>,
}

impl SampleId {
    /// The process ID, if recorded.
    pub closed spec fn spec_pid(&self) -> Option<u32> {
        self.pid
    }

    /// The thread ID, if recorded.
    pub closed spec fn spec_tid(&self) -> Option<u32> {
        self.tid
    }

    /// The timestamp, if recorded.
    pub closed spec fn spec_time(&self) -> Option<u64> {
        self.time
    }

    /// The counter id, if recorded.
    pub closed spec fn spec_id(&self) -> Option<u64> {
        self.id
    }

    /// The stream id, if recorded.
    pub closed spec fn spec_stream_id(&self) -> Option<u64> {
        self.stream_id
    }

    /// The CPU number, if recorded.
    pub closed spec fn spec_cpu(&self) -> Option<u32> {
        self.cpu
    }

    /// The process ID that generated the event.
    pub fn pid(&self) -> (r: Option<u32>)
        ensures
            r == self.spec_pid(),
    {
        self.pid
    }

    /// The thread ID that generated the event.
    pub fn tid(&self) -> (r: Option<u32>)
        ensures
            r == self.spec_tid(),
    {
        self.tid
    }

    /// The time at which the event was recorded.
    pub fn time(&self) -> (r: Option<u64>)
        ensures
            r == self.spec_time(),
    {
        self.time
    }

    /// The unique kernel-assigned ID for the leader of the counter group.
    pub fn id(&self) -> (r: Option<u64>)
        ensures
            r == self.spec_id(),
    {
        self.id
    }

    /// The unique kernel-assigned ID for the counter that generated the
    /// event.
    pub fn stream_id(&self) -> (r: Option<u64>)
        ensures
            r == self.spec_stream_id(),
    {
        self.stream_id
    }

    /// The CPU on which the event was recorded.
    pub fn cpu(&self) -> (r: Option<u32>)
        ensures
            r == self.spec_cpu(),
    {
        self.cpu
    }

    /// The length in bytes that this struct would occupy on the wire
    /// under the provided configuration.
    pub fn estimate_len<E: Endian>(config: &ParseConfig<E>) -> (r: usize)
        ensures
            r == sample_id_len(*config),
            r <= 48,
    {
        if !config.sample_id_all() {
            return 0;
        }
        let sty = config.sample_type();
        let mut len: usize = 0;
        if sty.contains(SampleFlags { bits: PERF_SAMPLE_TID }) {
            len = len + 8;
        }
        if sty.contains(SampleFlags { bits: PERF_SAMPLE_TIME }) {
            len = len + 8;
        }
        if sty.contains(SampleFlags { bits: PERF_SAMPLE_ID }) {
            len = len + 8;
        }
        if sty.contains(SampleFlags { bits: PERF_SAMPLE_STREAM_ID }) {
            len = len + 8;
        }
        if sty.contains(SampleFlags { bits: PERF_SAMPLE_CPU }) {
            len = len + 8;
        }
        if sty.contains(SampleFlags { bits: PERF_SAMPLE_IDENTIFIER }) {
            len = len + 8;
        }
        len
    }
}

impl Default for SampleId {
    /// The empty trailer: no field recorded.
    fn default() -> (r: SampleId)
        ensures
            sample_id_is_empty(r),
    {
        SampleId { pid: None, tid: None, time: None, id: None, stream_id: None, cpu: None }
    }
}

/// Whether no field at all was recorded in this trailer.
pub open spec fn sample_id_is_empty(s: SampleId) -> bool {
    &&& s.spec_pid() is None
    &&& s.spec_tid() is None
    &&& s.spec_time() is None
    &&& s.spec_id() is None
    &&& s.spec_stream_id() is None
    &&& s.spec_cpu() is None
}

/// What a decoded trailer holds of the bytes it was decoded from: each
/// field present exactly when its flag participates, at its computable
/// offset; the `id` slot is fed by the `id` position when the ID flag is
/// set, and otherwise by the trailing `identifier` position.
pub open spec fn sample_id_fields_ok<E: Endian>(
    cfg: ParseConfig<E>,
    pre: Seq<u8>,
    s: SampleId,
) -> bool {
    let e = cfg.spec_endian();
    let sty = cfg.spec_sample_type();
    &&& match s.spec_pid() {
        Some(v) => has_flags(sty, PERF_SAMPLE_TID) && u32_at(e, pre, 0, v),
        None => !has_flags(sty, PERF_SAMPLE_TID),
    }
    &&& match s.spec_tid() {
        Some(v) => has_flags(sty, PERF_SAMPLE_TID) && u32_at(e, pre, 4, v),
        None => !has_flags(sty, PERF_SAMPLE_TID),
    }
    &&& match s.spec_time() {
        Some(v) => has_flags(sty, PERF_SAMPLE_TIME) && u64_at(e, pre, sid_off_time(sty), v),
        None => !has_flags(sty, PERF_SAMPLE_TIME),
    }
    &&& match s.spec_id() {
        Some(v) => if has_flags(sty, PERF_SAMPLE_ID) {
            u64_at(e, pre, sid_off_id(sty), v)
        } else {
            has_flags(sty, PERF_SAMPLE_IDENTIFIER) && u64_at(e, pre, sid_off_identifier(sty), v)
        },
        None => !has_flags(sty, PERF_SAMPLE_ID) && !has_flags(sty, PERF_SAMPLE_IDENTIFIER),
    }
    &&& match s.spec_stream_id() {
        Some(v) => has_flags(sty, PERF_SAMPLE_STREAM_ID) && u64_at(
            e,
            pre,
            sid_off_stream_id(sty),
            v,
        ),
        None => !has_flags(sty, PERF_SAMPLE_STREAM_ID),
    }
    &&& match s.spec_cpu() {
        Some(v) => has_flags(sty, PERF_SAMPLE_CPU) && u32_at(e, pre, sid_off_cpu(sty), v),
        None => !has_flags(sty, PERF_SAMPLE_CPU),
    }
}

/// A `SampleId` trailer occupies nothing unless `sample_id_all` is
/// configured; under it, the participating fields stand in their fixed
/// order, and the whole trailer is exactly `sample_id_len` bytes.
pub open spec fn sample_id_post<E: Endian>(
    cfg: ParseConfig<E>,
    pre: Seq<u8>,
    post: Seq<u8>,
    reliable: bool,
    r: ParseResult<SampleId>,
) -> bool {
    match r {
        Ok(s) => if !cfg.spec_sample_id_all() {
            sample_id_is_empty(s) && post == pre
        } else {
            &&& pre.len() >= sample_id_len(cfg)
            &&& post == pre.skip(sample_id_len(cfg))
            &&& sample_id_fields_ok(cfg, pre, s)
        },
        Err(e) => cfg.spec_sample_id_all() && fail_post(
            reliable,
            e,
            pre.len() as int,
            post.len() as int,
            sample_id_len(cfg),
        ),
    }
}

impl<E: Endian> Parse<E> for SampleId {
    open spec fn parse_post(
        cfg: ParseConfig<E>,
        pre: Seq<u8>,
        post: Seq<u8>,
        reliable: bool,
        r: ParseResult<SampleId>,
    ) -> bool {
        sample_id_post(cfg, pre, post, reliable, r)
    }

    #[verifier::rlimit(100)]
    fn parse<B: ParseBuf>(p: &mut Parser<B, E>) -> (r: ParseResult<SampleId>) {
        if !p.config().sample_id_all() {
            return Ok(SampleId::default());
        }
        let sty = p.config().sample_type();
        let ghost styg = p.cfg().spec_sample_type();
        let ghost pre = p.bytes();
        let has_tid = sty.contains(SampleFlags { bits: PERF_SAMPLE_TID });
        let pid: Option<u32> = if has_tid {
            Some(p.parse_u32()?)
        } else {
            None
        };
        proof {
            if has_flags(styg, PERF_SAMPLE_TID) {
                lemma_step(pre, 0, 4);
            }
        }
        let tid: Option<u32> = if has_tid {
            Some(p.parse_u32()?)
        } else {
            None
        };
        proof {
            if has_flags(styg, PERF_SAMPLE_TID) {
                lemma_step(pre, 4, 4);
            }
            assert(p.bytes() == pre.skip(sid_off_time(styg)));
        }
        let time: Option<u64> = if sty.contains(SampleFlags { bits: PERF_SAMPLE_TIME }) {
            Some(p.parse_u64()?)
        } else {
            None
        };
        proof {
            if has_flags(styg, PERF_SAMPLE_TIME) {
                lemma_step(pre, sid_off_time(styg), 8);
            }
            assert(p.bytes() == pre.skip(sid_off_id(styg)));
        }
        let id_early: Option<u64> = if sty.contains(SampleFlags { bits: PERF_SAMPLE_ID }) {
            Some(p.parse_u64()?)
        } else {
            None
        };
        proof {
            if has_flags(styg, PERF_SAMPLE_ID) {
                lemma_step(pre, sid_off_id(styg), 8);
            }
            assert(p.bytes() == pre.skip(sid_off_stream_id(styg)));
        }
        let stream_id: Option<u64> = if sty.contains(SampleFlags { bits: PERF_SAMPLE_STREAM_ID }) {
            Some(p.parse_u64()?)
        } else {
            None
        };
        proof {
            if has_flags(styg, PERF_SAMPLE_STREAM_ID) {
                lemma_step(pre, sid_off_stream_id(styg), 8);
            }
            assert(p.bytes() == pre.skip(sid_off_cpu(styg)));
        }
        let mut cpu: Option<u32> = None;
        if sty.contains(SampleFlags { bits: PERF_SAMPLE_CPU }) {
            let c = p.parse_u32()?;
            proof {
                lemma_step(pre, sid_off_cpu(styg), 4);
            }
            let _reserved = p.parse_u32()?;
            proof {
                lemma_step(pre, sid_off_cpu(styg) + 4, 4);
            }
            cpu = Some(c);
        }
        proof {
            assert(p.bytes() == pre.skip(sid_off_identifier(styg)));
        }
        let identifier: Option<u64> = if sty.contains(
            SampleFlags { bits: PERF_SAMPLE_IDENTIFIER },
        ) {
            Some(p.parse_u64()?)
        } else {
            None
        };
        proof {
            if has_flags(styg, PERF_SAMPLE_IDENTIFIER) {
                lemma_step(pre, sid_off_identifier(styg), 8);
            }
            assert(p.bytes() == pre.skip(sample_id_len(p.cfg())));
        }
        let id = match id_early {
            Some(v) => Some(v),
            None => identifier,
        };
        Ok(SampleId { pid, tid, time, id, stream_id, cpu })
    }
}


/// FORK records indicate that a process called `fork` successfully; they
/// share their layout with EXIT records.
pub type Fork = Exit;

/// The record type tag of an MMAP record.
pub const PERF_RECORD_MMAP: u32 = 1;

/// The record type tag of a LOST record.
pub const PERF_RECORD_LOST: u32 = 2;

/// The record type tag of a COMM record.
pub const PERF_RECORD_COMM: u32 = 3;

/// The record type tag of an EXIT record.
pub const PERF_RECORD_EXIT: u32 = 4;

/// The record type tag of a THROTTLE record.
pub const PERF_RECORD_THROTTLE: u32 = 5;

/// The record type tag of an UNTHROTTLE record.
pub const PERF_RECORD_UNTHROTTLE: u32 = 6;

/// The record type tag of a FORK record.
pub const PERF_RECORD_FORK: u32 = 7;

/// The record type tag of a READ record.
pub const PERF_RECORD_READ: u32 = 8;

/// The record type tag of a SAMPLE record.
pub const PERF_RECORD_SAMPLE: u32 = 9;

/// The record type tag of an MMAP2 record.
pub const PERF_RECORD_MMAP2: u32 = 10;

/// The record type tag of an AUX record.
pub const PERF_RECORD_AUX: u32 = 11;

/// The record type tag of an ITRACE_START record.
pub const PERF_RECORD_ITRACE_START: u32 = 12;

/// The record type tag of a LOST_SAMPLES record.
pub const PERF_RECORD_LOST_SAMPLES: u32 = 13;

/// The record type tag of a SWITCH record.
pub const PERF_RECORD_SWITCH: u32 = 14;

/// The record type tag of a SWITCH_CPU_WIDE record.
pub const PERF_RECORD_SWITCH_CPU_WIDE: u32 = 15;

/// The record type tag of a NAMESPACES record.
pub const PERF_RECORD_NAMESPACES: u32 = 16;

/// The record type tag of a KSYMBOL record.
pub const PERF_RECORD_KSYMBOL: u32 = 17;

/// The record type tag of a BPF_EVENT record.
pub const PERF_RECORD_BPF_EVENT: u32 = 18;

/// The record type tag of a CGROUP record.
pub const PERF_RECORD_CGROUP: u32 = 19;

/// The record type tag of a TEXT_POKE record.
pub const PERF_RECORD_TEXT_POKE: u32 = 20;

/// The record type tag of an AUX_OUTPUT_HW_ID record.
pub const PERF_RECORD_AUX_OUTPUT_HW_ID: u32 = 21;

/// Misc bit: this record is a context switch away from the process.
pub const PERF_RECORD_MISC_SWITCH_OUT: u16 = 0x2000;

/// Misc bit: an MMAP2 record carries a build id instead of device/inode.
pub const PERF_RECORD_MISC_MMAP_BUILD_ID: u16 = 0x4000;


/// A record emitted by the kernel: every supported record kind under one
/// tagged union. Depending on how the counter was configured only a few
/// of these will ever be produced by one counter.
#[derive(Clone, Debug)]
pub enum Record {
    /// A memory mapping.
    Mmap(Mmap),
    /// Dropped events.
    Lost(Lost),
    /// A process name change.
    Comm(Comm),
    /// A process exit.
    Exit(Exit),
    /// The start of a throttled stretch.
    Throttle(Throttle),
    /// The end of a throttled stretch.
    Unthrottle(Throttle),
    /// A process fork.
    Fork(Fork),
    /// A counter read.
    Read(Read),
    /// A sample.
    Sample(Box<Sample>),
    /// A memory mapping with extra info.
    Mmap2(Mmap2),
    /// New data in the aux buffer region.
    Aux(Aux),
    /// The start of an instruction trace.
    ITraceStart(ITraceStart),
    /// Samples lost by hardware sampling.
    LostSamples(LostSamples),
    /// A context switch.
    Switch,
    /// A cpu-wide context switch.
    SwitchCpuWide(SwitchCpuWide),
    /// Namespace info of a process.
    Namespaces(Namespaces),
    /// A kernel symbol registration change.
    KSymbol(KSymbol),
    /// A BPF program load or unload.
    BpfEvent(BpfEvent),
    /// A new cgroup.
    CGroup(CGroup),
    /// A change in the kernel text.
    TextPoke(TextPoke),
    /// An aux output hardware ID.
    AuxOutputHwId(AuxOutputHwId),
    /// A record type unknown to this library, with its raw body bytes.
    Unknown {
        /// The type tag of the record.
        ty: u32,
        /// The raw bytes of the record body.
        data: Vec<u8>,
    },
}

/// The visitor that builds the canonical [`Record`] union: each decoded
/// value is stored into the matching union case, and an unknown tag keeps
/// its raw bytes.
pub struct RecordVisitor;

impl Visitor for RecordVisitor {
    type Output = Record;

    /// Every record kind is handled, so the catch-all can only be
    /// reached through a handler that was overridden away; it reports
    /// the record as unknown with an empty body.
    fn visit_unimplemented(self, metadata: RecordMetadata) -> Record {
        Record::Unknown { ty: metadata.ty(), data: Vec::new() }
    }

    fn visit_mmap(self, record: Mmap, metadata: RecordMetadata) -> Record {
        Record::Mmap(record)
    }

    fn visit_lost(self, record: Lost, metadata: RecordMetadata) -> Record {
        Record::Lost(record)
    }

    fn visit_comm(self, record: Comm, metadata: RecordMetadata) -> Record {
        Record::Comm(record)
    }

    fn visit_exit(self, record: Exit, metadata: RecordMetadata) -> Record {
        Record::Exit(record)
    }

    fn visit_throttle(self, record: Throttle, metadata: RecordMetadata) -> Record {
        Record::Throttle(record)
    }

    fn visit_unthrottle(self, record: Throttle, metadata: RecordMetadata) -> Record {
        Record::Unthrottle(record)
    }

    fn visit_fork(self, record: Fork, metadata: RecordMetadata) -> Record {
        Record::Fork(record)
    }

    fn visit_read(self, record: Read, metadata: RecordMetadata) -> Record {
        Record::Read(record)
    }

    fn visit_sample(self, record: Sample, metadata: RecordMetadata) -> Record {
        Record::Sample(Box::new(record))
    }

    fn visit_mmap2(self, record: Mmap2, metadata: RecordMetadata) -> Record {
        Record::Mmap2(record)
    }

    fn visit_aux(self, record: Aux, metadata: RecordMetadata) -> Record {
        Record::Aux(record)
    }

    fn visit_itrace_start(self, record: ITraceStart, metadata: RecordMetadata) -> Record {
        Record::ITraceStart(record)
    }

    fn visit_lost_samples(self, record: LostSamples, metadata: RecordMetadata) -> Record {
        Record::LostSamples(record)
    }

    fn visit_switch(self, metadata: RecordMetadata) -> Record {
        Record::Switch
    }

    fn visit_switch_cpu_wide(self, record: SwitchCpuWide, metadata: RecordMetadata) -> Record {
        Record::SwitchCpuWide(record)
    }

    fn visit_namespaces(self, record: Namespaces, metadata: RecordMetadata) -> Record {
        Record::Namespaces(record)
    }

    fn visit_ksymbol(self, record: KSymbol, metadata: RecordMetadata) -> Record {
        Record::KSymbol(record)
    }

    fn visit_bpf_event(self, record: BpfEvent, metadata: RecordMetadata) -> Record {
        Record::BpfEvent(record)
    }

    fn visit_cgroup(self, record: CGroup, metadata: RecordMetadata) -> Record {
        Record::CGroup(record)
    }

    fn visit_text_poke(self, record: TextPoke, metadata: RecordMetadata) -> Record {
        Record::TextPoke(record)
    }

    fn visit_aux_output_hw_id(self, record: AuxOutputHwId, metadata: RecordMetadata) -> Record {
        Record::AuxOutputHwId(record)
    }

    fn visit_unknown(self, data: Vec<u8>, metadata: RecordMetadata) -> Record {
        Record::Unknown { ty: metadata.ty(), data }
    }
}

/// Whether a second configuration is the first with only the per-record
/// `misc` value replaced: what entering a record body does to the
/// configuration it is decoded under.
pub open spec fn cfg_like_with_misc<E: Endian>(
    cfg: ParseConfig<E>,
    cfg2: ParseConfig<E>,
    misc: u16,
) -> bool {
    &&& cfg2.spec_read_format() == cfg.spec_read_format()
    &&& cfg2.spec_sample_type() == cfg.spec_sample_type()
    &&& cfg2.spec_sample_id_all() == cfg.spec_sample_id_all()
    &&& cfg2.spec_branch_hw_index() == cfg.spec_branch_hw_index()
    &&& cfg2.spec_misc() == misc
    &&& cfg2.spec_regs_user() == cfg.spec_regs_user()
    &&& cfg2.spec_regs_intr() == cfg.spec_regs_intr()
    &&& cfg2.spec_endian() == cfg.spec_endian()
}

/// The record type tags this library dispatches on.
pub open spec fn known_record_tag(ty: u32) -> bool {
    ||| ty == PERF_RECORD_MMAP
    ||| ty == PERF_RECORD_LOST
    ||| ty == PERF_RECORD_COMM
    ||| ty == PERF_RECORD_EXIT
    ||| ty == PERF_RECORD_THROTTLE
    ||| ty == PERF_RECORD_UNTHROTTLE
    ||| ty == PERF_RECORD_FORK
    ||| ty == PERF_RECORD_READ
    ||| ty == PERF_RECORD_SAMPLE
    ||| ty == PERF_RECORD_MMAP2
    ||| ty == PERF_RECORD_AUX
    ||| ty == PERF_RECORD_ITRACE_START
    ||| ty == PERF_RECORD_LOST_SAMPLES
    ||| ty == PERF_RECORD_SWITCH
    ||| ty == PERF_RECORD_SWITCH_CPU_WIDE
    ||| ty == PERF_RECORD_NAMESPACES
    ||| ty == PERF_RECORD_KSYMBOL
    ||| ty == PERF_RECORD_BPF_EVENT
    ||| ty == PERF_RECORD_CGROUP
    ||| ty == PERF_RECORD_TEXT_POKE
    ||| ty == PERF_RECORD_AUX_OUTPUT_HW_ID
}

/// How many bytes of a record's declared body belong to the `SampleId`
/// trailer: none for MMAP and SAMPLE records, else what the
/// configuration implies.
pub open spec fn record_trailer_len<E: Endian>(cfg: ParseConfig<E>, ty: u32) -> int {
    if ty == PERF_RECORD_MMAP || ty == PERF_RECORD_SAMPLE {
        0
    } else {
        sample_id_len(cfg)
    }
}

/// The decoded union payload stands in the matching record kind's own
/// decode relation to the record's body bytes: `cfg2` is the
/// configuration the body was decoded under and `rest` what that decode
/// left of the body.
pub open spec fn record_body_ok<E: Endian>(
    cfg2: ParseConfig<E>,
    rest: Seq<u8>,
    ty: u32,
    body: Seq<u8>,
    rec: Record,
) -> bool {
    match rec {
        Record::Mmap(x) => ty == PERF_RECORD_MMAP && mmap_post(cfg2, body, rest, true, Ok(x)),
        Record::Lost(x) => ty == PERF_RECORD_LOST && lost_post(cfg2, body, rest, true, Ok(x)),
        Record::Comm(x) => ty == PERF_RECORD_COMM && comm_post(cfg2, body, rest, true, Ok(x)),
        Record::Exit(x) => ty == PERF_RECORD_EXIT && exit_post(cfg2, body, rest, true, Ok(x)),
        Record::Throttle(x) => ty == PERF_RECORD_THROTTLE && throttle_post(
            cfg2,
            body,
            rest,
            true,
            Ok(x),
        ),
        Record::Unthrottle(x) => ty == PERF_RECORD_UNTHROTTLE && throttle_post(
            cfg2,
            body,
            rest,
            true,
            Ok(x),
        ),
        Record::Fork(x) => ty == PERF_RECORD_FORK && exit_post(cfg2, body, rest, true, Ok(x)),
        Record::Read(x) => ty == PERF_RECORD_READ && read_post(cfg2, body, rest, true, Ok(x)),
        Record::Sample(x) => ty == PERF_RECORD_SAMPLE && sample_post(
            cfg2,
            body,
            rest,
            true,
            Ok(*x),
        ),
        Record::Mmap2(x) => ty == PERF_RECORD_MMAP2 && mmap2_post(cfg2, body, rest, true, Ok(x)),
        Record::Aux(x) => ty == PERF_RECORD_AUX && aux_post(cfg2, body, rest, true, Ok(x)),
        Record::ITraceStart(x) => ty == PERF_RECORD_ITRACE_START && itrace_start_post(
            cfg2,
            body,
            rest,
            true,
            Ok(x),
        ),
        Record::LostSamples(x) => ty == PERF_RECORD_LOST_SAMPLES && lost_samples_post(
            cfg2,
            body,
            rest,
            true,
            Ok(x),
        ),
        Record::Switch => ty == PERF_RECORD_SWITCH,
        Record::SwitchCpuWide(x) => ty == PERF_RECORD_SWITCH_CPU_WIDE && switch_cpu_wide_post(
            cfg2,
            body,
            rest,
            true,
            Ok(x),
        ),
        Record::Namespaces(x) => ty == PERF_RECORD_NAMESPACES && namespaces_post(
            cfg2,
            body,
            rest,
            true,
            Ok(x),
        ),
        Record::KSymbol(x) => ty == PERF_RECORD_KSYMBOL && ksymbol_post(
            cfg2,
            body,
            rest,
            true,
            Ok(x),
        ),
        Record::BpfEvent(x) => ty == PERF_RECORD_BPF_EVENT && bpf_event_post(
            cfg2,
            body,
            rest,
            true,
            Ok(x),
        ),
        Record::CGroup(x) => ty == PERF_RECORD_CGROUP && cgroup_post(cfg2, body, rest, true, Ok(x)),
        Record::TextPoke(x) => ty == PERF_RECORD_TEXT_POKE && text_poke_post(
            cfg2,
            body,
            rest,
            true,
            Ok(x),
        ),
        Record::AuxOutputHwId(x) => ty == PERF_RECORD_AUX_OUTPUT_HW_ID && aux_output_hw_id_post(
            cfg2,
            body,
            rest,
            true,
            Ok(x),
        ),
        Record::Unknown { ty: t, data } => t == ty && !known_record_tag(ty) && data@ == body,
    }
}

/// The decoded union value matches the record's type tag, and its
/// payload stands in the matching record kind's own decode relation to
/// the record's body bytes, under some configuration that is the active
/// one with this record's `misc` value injected.
pub open spec fn record_decodes<E: Endian>(
    cfg: ParseConfig<E>,
    ty: u32,
    misc: u16,
    body: Seq<u8>,
    rec: Record,
) -> bool {
    exists|cfg2: ParseConfig<E>, rest: Seq<u8>|
        cfg_like_with_misc(cfg, cfg2, misc) && #[trigger] record_body_ok(cfg2, rest, ty, body, rec)
}

/// What decoding a whole record yields, its frame already parsed: on
/// success exactly `size - 8` bytes were consumed and the union value
/// stands in [`record_decodes`] to the body bytes (the trailer split
/// off); every failure kind is tied to its cause, so on an in-memory
/// source a record with a well-formed frame and enough data behind it
/// can only be refused for a reason the clauses name.
pub open spec fn record_with_header_post<E: Endian>(
    cfg: ParseConfig<E>,
    header: RecordHeader,
    pre: Seq<u8>,
    post: Seq<u8>,
    reliable: bool,
    r: ParseResult<Record>,
) -> bool {
    let bl = header.size as int - 8;
    let tlen = record_trailer_len(cfg, header.ty);
    match r {
        Ok(rec) => {
            &&& header.size >= 8
            &&& pre.len() >= bl
            &&& post == pre.skip(bl)
            &&& bl >= tlen
            &&& record_decodes(cfg, header.ty, header.misc, pre.subrange(0, bl - tlen), rec)
        },
        Err(e) => {
            &&& (e.spec_kind() == ErrorKind::Eof || e.spec_kind() == ErrorKind::External
                || e.spec_kind() == ErrorKind::InvalidRecord || e.spec_kind()
                == ErrorKind::UnsupportedConfig)
            &&& (header.size < 8 ==> e.spec_kind() == ErrorKind::InvalidRecord)
            &&& (reliable && header.size >= 8 && pre.len() < bl ==> e.spec_kind()
                == ErrorKind::Eof)
            &&& (e.spec_kind() == ErrorKind::UnsupportedConfig ==> header.ty == PERF_RECORD_READ
                || header.ty == PERF_RECORD_SAMPLE)
            &&& (e.spec_kind() == ErrorKind::InvalidRecord ==> header.size < 8 || (header.ty
                != PERF_RECORD_MMAP && header.ty != PERF_RECORD_SAMPLE && bl < sample_id_len(cfg))
                || header.ty == PERF_RECORD_MMAP2 || header.ty == PERF_RECORD_SAMPLE)
            &&& (reliable ==> e.spec_kind() != ErrorKind::External)
        },
    }
}

impl Record {
    /// Parse a `Record` using a [`RecordHeader`] that has already been
    /// parsed.
    pub fn parse_with_header<B: ParseBuf, E: Endian>(
        p: &mut Parser<B, E>,
        header: RecordHeader,
    ) -> (r: ParseResult<Record>)
        ensures
            final(p).cfg() == old(p).cfg(),
            final(p).reliable() == old(p).reliable(),
            final(p).bytes().len() <= old(p).bytes().len(),
            record_with_header_post(
                old(p).cfg(),
                header,
                old(p).bytes(),
                final(p).bytes(),
                old(p).reliable(),
                r,
            ),
    {
        let ghost pre = p.bytes();
        let ghost cfg = p.cfg();
        let (p2, metadata) = p.parse_metadata_with_header(header)?;
        let ghost body = p2.bytes();
        proof {
            assert(body =~= pre.subrange(
                0,
                header.size - 8 - record_trailer_len(cfg, header.ty),
            ));
        }
        let mut q = p2.enter_record(metadata.misc());
        proof {
            assert(cfg_like_with_misc(cfg, q.cfg(), header.misc));
        }
        let ty = metadata.ty();
        if ty == PERF_RECORD_MMAP {
            let rec = Mmap::parse(&mut q)?;
            proof {
                assert(record_body_ok(q.cfg(), q.bytes(), ty, body, Record::Mmap(rec)));
            }
            Ok(Record::Mmap(rec))
        } else if ty == PERF_RECORD_LOST {
            let rec = Lost::parse(&mut q)?;
            proof {
                assert(record_body_ok(q.cfg(), q.bytes(), ty, body, Record::Lost(rec)));
            }
            Ok(Record::Lost(rec))
        } else if ty == PERF_RECORD_COMM {
            let rec = Comm::parse(&mut q)?;
            proof {
                assert(record_body_ok(q.cfg(), q.bytes(), ty, body, Record::Comm(rec)));
            }
            Ok(Record::Comm(rec))
        } else if ty == PERF_RECORD_EXIT {
            let rec = Exit::parse(&mut q)?;
            proof {
                assert(record_body_ok(q.cfg(), q.bytes(), ty, body, Record::Exit(rec)));
            }
            Ok(Record::Exit(rec))
        } else if ty == PERF_RECORD_THROTTLE {
            let rec = Throttle::parse(&mut q)?;
            proof {
                assert(record_body_ok(q.cfg(), q.bytes(), ty, body, Record::Throttle(rec)));
            }
            Ok(Record::Throttle(rec))
        } else if ty == PERF_RECORD_UNTHROTTLE {
            let rec = Throttle::parse(&mut q)?;
            proof {
                assert(record_body_ok(q.cfg(), q.bytes(), ty, body, Record::Unthrottle(rec)));
            }
            Ok(Record::Unthrottle(rec))
        } else if ty == PERF_RECORD_FORK {
            let rec = Exit::parse(&mut q)?;
            proof {
                assert(record_body_ok(q.cfg(), q.bytes(), ty, body, Record::Fork(rec)));
            }
            Ok(Record::Fork(rec))
        } else if ty == PERF_RECORD_READ {
            let rec = Read::parse(&mut q)?;
            proof {
                assert(record_body_ok(q.cfg(), q.bytes(), ty, body, Record::Read(rec)));
            }
            Ok(Record::Read(rec))
        } else if ty == PERF_RECORD_SAMPLE {
            let rec = Sample::parse(&mut q)?;
            proof {
                assert(record_body_ok(
                    q.cfg(),
                    q.bytes(),
                    ty,
                    body,
                    Record::Sample(Box::new(rec)),
                ));
            }
            Ok(Record::Sample(Box::new(rec)))
        } else if ty == PERF_RECORD_MMAP2 {
            let rec = Mmap2::parse(&mut q)?;
            proof {
                assert(record_body_ok(q.cfg(), q.bytes(), ty, body, Record::Mmap2(rec)));
            }
            Ok(Record::Mmap2(rec))
        } else if ty == PERF_RECORD_AUX {
            let rec = Aux::parse(&mut q)?;
            proof {
                assert(record_body_ok(q.cfg(), q.bytes(), ty, body, Record::Aux(rec)));
            }
            Ok(Record::Aux(rec))
        } else if ty == PERF_RECORD_ITRACE_START {
            let rec = ITraceStart::parse(&mut q)?;
            proof {
                assert(record_body_ok(q.cfg(), q.bytes(), ty, body, Record::ITraceStart(rec)));
            }
            Ok(Record::ITraceStart(rec))
        } else if ty == PERF_RECORD_LOST_SAMPLES {
            let rec = LostSamples::parse(&mut q)?;
            proof {
                assert(record_body_ok(q.cfg(), q.bytes(), ty, body, Record::LostSamples(rec)));
            }
            Ok(Record::LostSamples(rec))
        } else if ty == PERF_RECORD_SWITCH {
            proof {
                assert(record_body_ok(q.cfg(), q.bytes(), ty, body, Record::Switch));
            }
            Ok(Record::Switch)
        } else if ty == PERF_RECORD_SWITCH_CPU_WIDE {
            let rec = SwitchCpuWide::parse(&mut q)?;
            proof {
                assert(record_body_ok(q.cfg(), q.bytes(), ty, body, Record::SwitchCpuWide(rec)));
            }
            Ok(Record::SwitchCpuWide(rec))
        } else if ty == PERF_RECORD_NAMESPACES {
            let rec = Namespaces::parse(&mut q)?;
            proof {
                assert(record_body_ok(q.cfg(), q.bytes(), ty, body, Record::Namespaces(rec)));
            }
            Ok(Record::Namespaces(rec))
        } else if ty == PERF_RECORD_KSYMBOL {
            let rec = KSymbol::parse(&mut q)?;
            proof {
                assert(record_body_ok(q.cfg(), q.bytes(), ty, body, Record::KSymbol(rec)));
            }
            Ok(Record::KSymbol(rec))
        } else if ty == PERF_RECORD_BPF_EVENT {
            let rec = BpfEvent::parse(&mut q)?;
            proof {
                assert(record_body_ok(q.cfg(), q.bytes(), ty, body, Record::BpfEvent(rec)));
            }
            Ok(Record::BpfEvent(rec))
        } else if ty == PERF_RECORD_CGROUP {
            let rec = CGroup::parse(&mut q)?;
            proof {
                assert(record_body_ok(q.cfg(), q.bytes(), ty, body, Record::CGroup(rec)));
            }
            Ok(Record::CGroup(rec))
        } else if ty == PERF_RECORD_TEXT_POKE {
            let rec = TextPoke::parse(&mut q)?;
            proof {
                assert(record_body_ok(q.cfg(), q.bytes(), ty, body, Record::TextPoke(rec)));
            }
            Ok(Record::TextPoke(rec))
        } else if ty == PERF_RECORD_AUX_OUTPUT_HW_ID {
            let rec = AuxOutputHwId::parse(&mut q)?;
            proof {
                assert(record_body_ok(q.cfg(), q.bytes(), ty, body, Record::AuxOutputHwId(rec)));
            }
            Ok(Record::AuxOutputHwId(rec))
        } else {
            let data = q.parse_rest()?;
            let rec = Record::Unknown { ty, data };
            proof {
                assert(record_body_ok(q.cfg(), q.bytes(), ty, body, rec));
            }
            Ok(rec)
        }
    }
}

/// The decode relation of a whole record including its frame: the frame
/// decodes to some header, and the rest stands in the with-header
/// relation to it.
pub open spec fn record_post<E: Endian>(
    cfg: ParseConfig<E>,
    pre: Seq<u8>,
    post: Seq<u8>,
    reliable: bool,
    r: ParseResult<Record>,
) -> bool {
    match r {
        Ok(_) => pre.len() >= 8 && exists|h: RecordHeader|
            #[trigger] record_header_post(cfg, pre, pre.skip(8), reliable, Ok(h))
                && record_with_header_post(cfg, h, pre.skip(8), post, reliable, r),
        Err(e) => {
            &&& (e.spec_kind() == ErrorKind::Eof || e.spec_kind() == ErrorKind::External
                || e.spec_kind() == ErrorKind::InvalidRecord || e.spec_kind()
                == ErrorKind::UnsupportedConfig)
            &&& (fail_post(reliable, e, pre.len() as int, post.len() as int, 8) || (pre.len() >= 8
                && exists|h: RecordHeader|
                #[trigger] record_header_post(cfg, pre, pre.skip(8), reliable, Ok(h))
                    && record_with_header_post(cfg, h, pre.skip(8), post, reliable, r)))
        },
    }
}

impl<E: Endian> Parse<E> for Record {
    open spec fn parse_post(
        cfg: ParseConfig<E>,
        pre: Seq<u8>,
        post: Seq<u8>,
        reliable: bool,
        r: ParseResult<Record>,
    ) -> bool {
        record_post(cfg, pre, post, reliable, r)
    }

    fn parse<B: ParseBuf>(p: &mut Parser<B, E>) -> (r: ParseResult<Record>) {
        let ghost pre = p.bytes();
        let header = RecordHeader::parse(p)?;
        proof {
            assert(record_header_post(old(p).cfg(), pre, pre.skip(8), old(p).reliable(), Ok(
            header)));
        }
        let rec = match Record::parse_with_header(p, header) {
            Ok(rec) => rec,
            Err(e) => {
                proof {
                    assert(record_with_header_post(
                        old(p).cfg(),
                        header,
                        pre.skip(8),
                        p.bytes(),
                        old(p).reliable(),
                        Err::<Record, ParseError>(e),
                    ));
                }
                return Err(e);
            },
        };
        proof {
            assert(record_with_header_post(
                old(p).cfg(),
                header,
                pre.skip(8),
                p.bytes(),
                old(p).reliable(),
                Ok::<Record, ParseError>(rec),
            ));
        }
        Ok(rec)
    }
}

} // verus!
