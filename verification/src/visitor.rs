//! The record-dispatch protocol: a handler with one method per known
//! record kind, each defaulted to a single required catch-all.

use vstd::prelude::*;
use crate::parse::RecordHeader;
use crate::records::Aux;
use crate::records::AuxOutputHwId;
use crate::records::BpfEvent;
use crate::records::CGroup;
use crate::records::Comm;
use crate::records::Exit;
use crate::records::Fork;
use crate::records::ITraceStart;
use crate::records::KSymbol;
use crate::records::Lost;
use crate::records::LostSamples;
use crate::records::Mmap;
use crate::records::Mmap2;
use crate::records::Namespaces;
use crate::records::Read;
use crate::records::Sample;
use crate::records::SampleId;
use crate::records::SwitchCpuWide;
use crate::records::TextPoke;
use crate::records::Throttle;

verus! {

/// Extra record data emitted by the kernel that is common to all
/// records: the type tag, the per-record misc flags, and the decoded
/// `SampleId` trailer where the record kind carries one.
#[derive(Clone, Debug)]
pub struct RecordMetadata {
    ty: u32,
    misc: u16,
    sample_id: SampleId,
}

impl RecordMetadata {
    /// The type tag, as a spec value.
    pub closed spec fn spec_ty(&self) -> u32 {
        self.ty
    }

    /// The misc flags, as a spec value.
    pub closed spec fn spec_misc(&self) -> u16 {
        self.misc
    }

    /// The decoded trailer, as a spec value.
    pub closed spec fn spec_sample_id(&self) -> SampleId {
        self.sample_id
    }

    /// Assemble the metadata of a record from its header and its decoded
    /// trailer.
    pub(crate) fn new(header: RecordHeader, sample_id: SampleId) -> (r: RecordMetadata)
        ensures
            r.spec_ty() == header.ty,
            r.spec_misc() == header.misc,
            r.spec_sample_id() == sample_id,
    {
        RecordMetadata { ty: header.ty, misc: header.misc, sample_id }
    }

    /// The type of this record, as emitted by the kernel.
    pub fn ty(&self) -> (r: u32)
        ensures
            r == self.spec_ty(),
    {
        self.ty
    }

    /// Miscellaneous flags set by the kernel.
    pub fn misc(&self) -> (r: u16)
        ensures
            r == self.spec_misc(),
    {
        self.misc
    }

    /// The decoded `SampleId` trailer. Even when `sample_id_all` is
    /// configured, MMAP and SAMPLE records always carry an empty one.
    pub fn sample_id(&self) -> (r: &SampleId)
        ensures
            *r == self.spec_sample_id(),
    {
        &self.sample_id
    }
}

/// A visitor for parsed records, used with
/// [`Parser::parse_record`](crate::parse::Parser::parse_record) to handle
/// only the record kinds a consumer cares about.
///
/// Implementations define an output type and the required catch-all
/// [`visit_unimplemented`](Visitor::visit_unimplemented); every other
/// method defaults to forwarding there, except that an MMAP2 record
/// defaults to the MMAP handler after lossy conversion.
#[allow(unused_variables)]
pub trait Visitor: Sized {
    /// The output type for this visitor.
    type Output;

    /// Called by the other `visit_*` methods if they are not implemented.
    fn visit_unimplemented(self, metadata: RecordMetadata) -> Self::Output;

    /// Visit an [`Mmap`] record.
    fn visit_mmap(self, record: Mmap, metadata: RecordMetadata) -> Self::Output {
        self.visit_unimplemented(metadata)
    }

    /// Visit a [`Lost`] record.
    fn visit_lost(self, record: Lost, metadata: RecordMetadata) -> Self::Output {
        self.visit_unimplemented(metadata)
    }

    /// Visit a [`Comm`] record.
    fn visit_comm(self, record: Comm, metadata: RecordMetadata) -> Self::Output {
        self.visit_unimplemented(metadata)
    }

    /// Visit an [`Exit`] record.
    fn visit_exit(self, record: Exit, metadata: RecordMetadata) -> Self::Output {
        self.visit_unimplemented(metadata)
    }

    /// Visit a THROTTLE record.
    fn visit_throttle(self, record: Throttle, metadata: RecordMetadata) -> Self::Output {
        self.visit_unimplemented(metadata)
    }

    /// Visit an UNTHROTTLE record.
    fn visit_unthrottle(self, record: Throttle, metadata: RecordMetadata) -> Self::Output {
        self.visit_unimplemented(metadata)
    }

    /// Visit a [`Fork`] record.
    fn visit_fork(self, record: Fork, metadata: RecordMetadata) -> Self::Output {
        self.visit_unimplemented(metadata)
    }

    /// Visit a [`Read`] record.
    fn visit_read(self, record: Read, metadata: RecordMetadata) -> Self::Output {
        self.visit_unimplemented(metadata)
    }

    /// Visit a [`Sample`] record.
    fn visit_sample(self, record: Sample, metadata: RecordMetadata) -> Self::Output {
        self.visit_unimplemented(metadata)
    }

    /// Visit an [`Mmap2`] record. If not implemented, this forwards to
    /// [`visit_mmap`](Visitor::visit_mmap).
    fn visit_mmap2(self, record: Mmap2, metadata: RecordMetadata) -> Self::Output {
        self.visit_mmap(record.into_mmap(), metadata)
    }

    /// Visit an [`Aux`] record.
    fn visit_aux(self, record: Aux, metadata: RecordMetadata) -> Self::Output {
        self.visit_unimplemented(metadata)
    }

    /// Visit an [`ITraceStart`] record.
    fn visit_itrace_start(self, record: ITraceStart, metadata: RecordMetadata) -> Self::Output {
        self.visit_unimplemented(metadata)
    }

    /// Visit a [`LostSamples`] record.
    fn visit_lost_samples(self, record: LostSamples, metadata: RecordMetadata) -> Self::Output {
        self.visit_unimplemented(metadata)
    }

    /// Visit a SWITCH record.
    fn visit_switch(self, metadata: RecordMetadata) -> Self::Output {
        self.visit_unimplemented(metadata)
    }

    /// Visit a [`SwitchCpuWide`] record.
    fn visit_switch_cpu_wide(self, record: SwitchCpuWide, metadata: RecordMetadata) -> Self::Output {
        self.visit_unimplemented(metadata)
    }

    /// Visit a [`Namespaces`] record.
    fn visit_namespaces(self, record: Namespaces, metadata: RecordMetadata) -> Self::Output {
        self.visit_unimplemented(metadata)
    }

    /// Visit a [`KSymbol`] record.
    fn visit_ksymbol(self, record: KSymbol, metadata: RecordMetadata) -> Self::Output {
        self.visit_unimplemented(metadata)
    }

    /// Visit a [`BpfEvent`] record.
    fn visit_bpf_event(self, record: BpfEvent, metadata: RecordMetadata) -> Self::Output {
        self.visit_unimplemented(metadata)
    }

    /// Visit a [`CGroup`] record.
    fn visit_cgroup(self, record: CGroup, metadata: RecordMetadata) -> Self::Output {
        self.visit_unimplemented(metadata)
    }

    /// Visit a [`TextPoke`] record.
    fn visit_text_poke(self, record: TextPoke, metadata: RecordMetadata) -> Self::Output {
        self.visit_unimplemented(metadata)
    }

    /// Visit an [`AuxOutputHwId`] record.
    fn visit_aux_output_hw_id(self, record: AuxOutputHwId, metadata: RecordMetadata) -> Self::Output {
        self.visit_unimplemented(metadata)
    }

    /// Visit a record not supported by this library: its raw body bytes
    /// are handed over unparsed.
    fn visit_unknown(self, data: Vec<u8>, metadata: RecordMetadata) -> Self::Output {
        self.visit_unimplemented(metadata)
    }
}

} // verus!
