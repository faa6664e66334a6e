//! Decoding of the binary record stream produced by the Linux
//! `perf_event_open` facility.
//!
//! Records are variable-length, self-describing only by a small fixed
//! header, and their internal field layout depends on a side-channel
//! configuration (which fields were requested when the underlying kernel
//! counter was created) and on the byte endianness of the producer.
//!
//! The important entry points are:
//! - [`Record`], the tagged union of every known record kind;
//! - [`parse::Parser`] and [`parse::ParseConfig`], which drive decoding;
//! - [`Visitor`], for consumers that only care about a few record kinds.

pub mod endian;
mod attr;
mod config;
mod error;
mod flags;
mod parsebuf;
pub mod parse;
mod records;
mod visitor;

pub use crate::attr::EventAttr;
pub use crate::attr::attr_size_ok;
pub use crate::attr::event_attr_post;
pub use crate::attr::ATTR_FLAG_BIT_SAMPLE_ID_ALL;
pub use crate::attr::PERF_SAMPLE_BRANCH_HW_INDEX;
pub use crate::attr::PERF_ATTR_SIZE_VER0;
pub use crate::attr::PERF_ATTR_SIZE_VER1;
pub use crate::attr::PERF_ATTR_SIZE_VER2;
pub use crate::attr::PERF_ATTR_SIZE_VER3;
pub use crate::attr::PERF_ATTR_SIZE_VER4;
pub use crate::attr::PERF_ATTR_SIZE_VER5;
pub use crate::attr::PERF_ATTR_SIZE_VER6;
pub use crate::attr::PERF_ATTR_SIZE_VER7;
pub use crate::attr::PERF_ATTR_SIZE_VER8;
pub use crate::config::clip_read_format;
pub use crate::config::CONFIG_READ_FORMAT_MASK;
pub use crate::config::CONFIG_SAMPLE_TYPE_MASK;
pub use crate::config::CONFIG_SAMPLE_ID_ALL_BIT;
pub use crate::config::CONFIG_BRANCH_HW_INDEX_BIT;
pub use crate::config::CONFIG_MISC_MASK;
pub use crate::config::SAMPLE_TYPE_WIDTH;
pub use crate::flags::has_flags;
pub use crate::flags::SampleFlags;
pub use crate::flags::ReadFormat;
pub use crate::flags::PERF_SAMPLE_IP;
pub use crate::flags::PERF_SAMPLE_TID;
pub use crate::flags::PERF_SAMPLE_TIME;
pub use crate::flags::PERF_SAMPLE_ADDR;
pub use crate::flags::PERF_SAMPLE_READ;
pub use crate::flags::PERF_SAMPLE_CALLCHAIN;
pub use crate::flags::PERF_SAMPLE_ID;
pub use crate::flags::PERF_SAMPLE_CPU;
pub use crate::flags::PERF_SAMPLE_PERIOD;
pub use crate::flags::PERF_SAMPLE_STREAM_ID;
pub use crate::flags::PERF_SAMPLE_RAW;
pub use crate::flags::PERF_SAMPLE_BRANCH_STACK;
pub use crate::flags::PERF_SAMPLE_REGS_USER;
pub use crate::flags::PERF_SAMPLE_STACK_USER;
pub use crate::flags::PERF_SAMPLE_WEIGHT;
pub use crate::flags::PERF_SAMPLE_DATA_SRC;
pub use crate::flags::PERF_SAMPLE_IDENTIFIER;
pub use crate::flags::PERF_SAMPLE_TRANSACTION;
pub use crate::flags::PERF_SAMPLE_REGS_INTR;
pub use crate::flags::PERF_SAMPLE_PHYS_ADDR;
pub use crate::flags::PERF_SAMPLE_AUX;
pub use crate::flags::PERF_SAMPLE_CGROUP;
pub use crate::flags::PERF_SAMPLE_DATA_PAGE_SIZE;
pub use crate::flags::PERF_SAMPLE_CODE_PAGE_SIZE;
pub use crate::flags::PERF_SAMPLE_WEIGHT_STRUCT;
pub use crate::flags::PERF_FORMAT_TOTAL_TIME_ENABLED;
pub use crate::flags::PERF_FORMAT_TOTAL_TIME_RUNNING;
pub use crate::flags::PERF_FORMAT_ID;
pub use crate::flags::PERF_FORMAT_GROUP;
pub use crate::flags::PERF_FORMAT_LOST;
pub use crate::flags::PERF_FORMAT_ALL;
pub use crate::records::Aux;
pub use crate::records::AuxFlags;
pub use crate::records::AuxPmuFormatType;
pub use crate::records::AuxOutputHwId;
pub use crate::records::BpfEvent;
pub use crate::records::BpfEventType;
pub use crate::records::BranchEntry;
pub use crate::records::BranchType;
pub use crate::records::CGroup;
pub use crate::records::Comm;
pub use crate::records::DataSource;
pub use crate::records::Exit;
pub use crate::records::Fork;
pub use crate::records::GroupEntry;
pub use crate::records::ITraceStart;
pub use crate::records::KSymbol;
pub use crate::records::KSymbolFlags;
pub use crate::records::KSymbolType;
pub use crate::records::Lost;
pub use crate::records::LostSamples;
pub use crate::records::MemBlk;
pub use crate::records::MemDtlb;
pub use crate::records::MemLevel;
pub use crate::records::MemLevelNum;
pub use crate::records::MemLock;
pub use crate::records::MemOp;
pub use crate::records::MemSnoop;
pub use crate::records::Mmap;
pub use crate::records::Mmap2;
pub use crate::records::MmapDetail;
pub use crate::records::NamespaceEntry;
pub use crate::records::Namespaces;
pub use crate::records::Read;
pub use crate::records::ReadData;
pub use crate::records::ReadGroup;
pub use crate::records::ReadValue;
pub use crate::records::Record;
pub use crate::records::RecordVisitor;
pub use crate::records::Registers;
pub use crate::records::Sample;
pub use crate::records::SampleId;
pub use crate::records::SampleRegsAbi;
pub use crate::records::SwitchCpuWide;
pub use crate::records::TextPoke;
pub use crate::records::Throttle;
pub use crate::records::TryFromGroupError;
pub use crate::records::Txn;
pub use crate::records::popcount64;
pub use crate::records::popcnt64;
pub use crate::records::round_up_mod;
pub use crate::records::round_up_mod_spec;
pub use crate::records::sample_id_len;
pub use crate::records::sample_id_is_empty;
pub use crate::records::sample_id_fields_ok;
pub use crate::records::sample_head_len;
pub use crate::records::PERF_RECORD_MMAP;
pub use crate::records::PERF_RECORD_LOST;
pub use crate::records::PERF_RECORD_COMM;
pub use crate::records::PERF_RECORD_EXIT;
pub use crate::records::PERF_RECORD_THROTTLE;
pub use crate::records::PERF_RECORD_UNTHROTTLE;
pub use crate::records::PERF_RECORD_FORK;
pub use crate::records::PERF_RECORD_READ;
pub use crate::records::PERF_RECORD_SAMPLE;
pub use crate::records::PERF_RECORD_MMAP2;
pub use crate::records::PERF_RECORD_AUX;
pub use crate::records::PERF_RECORD_ITRACE_START;
pub use crate::records::PERF_RECORD_LOST_SAMPLES;
pub use crate::records::PERF_RECORD_SWITCH;
pub use crate::records::PERF_RECORD_SWITCH_CPU_WIDE;
pub use crate::records::PERF_RECORD_NAMESPACES;
pub use crate::records::PERF_RECORD_KSYMBOL;
pub use crate::records::PERF_RECORD_BPF_EVENT;
pub use crate::records::PERF_RECORD_CGROUP;
pub use crate::records::PERF_RECORD_TEXT_POKE;
pub use crate::records::PERF_RECORD_AUX_OUTPUT_HW_ID;
pub use crate::records::PERF_RECORD_MISC_SWITCH_OUT;
pub use crate::records::PERF_RECORD_MISC_MMAP_BUILD_ID;
pub use crate::visitor::RecordMetadata;
pub use crate::visitor::Visitor;
