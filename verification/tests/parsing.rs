//! Decoding single record bodies with a parser scoped to them.

use perf_event_data::endian::{Big, Little};
use perf_event_data::parse::{ParseConfig, Parser, SliceBuf};
use perf_event_data::{
    Aux, AuxOutputHwId, BpfEvent, CGroup, ITraceStart, KSymbol, LostSamples, NamespaceEntry,
    Namespaces, PERF_SAMPLE_TIME,
    Comm, Exit, Lost, Mmap, Mmap2, Read, ReadData, ReadFormat, ReadValue, Sample, SampleFlags,
    TextPoke, Throttle, PERF_FORMAT_GROUP, PERF_FORMAT_ID, PERF_FORMAT_TOTAL_TIME_ENABLED,
    PERF_RECORD_MISC_MMAP_BUILD_ID, PERF_SAMPLE_ADDR, PERF_SAMPLE_CALLCHAIN, PERF_SAMPLE_ID,
    PERF_SAMPLE_REGS_USER, PERF_SAMPLE_TID,
};

fn parser_for(bytes: &[u8]) -> Parser<SliceBuf, Little> {
    Parser::new(SliceBuf::new(bytes.to_vec()), ParseConfig::new(Little))
}

#[test]
fn comm_test_parse() {
    let bytes: &[u8] = &[
        0x10, 0x10, 0x00, 0x00, 0x00, 0x05, 0x00, 0x00,
        b't', b'e', b's', b't', 0x00, 0x00, 0x00, 0x00,
    ];

    let mut parser = parser_for(bytes);
    let comm: Comm = parser.parse().unwrap();

    assert_eq!(comm.pid, 0x1010);
    assert_eq!(comm.tid, 0x0500);
    assert_eq!(&*comm.comm, b"test");
}

#[test]
fn exit_test_parse() {
    let bytes: &[u8] = &[
        0x10, 0x10, 0x00, 0x00, 0x00, 0x05, 0x00, 0x00,
        0x01, 0x00, 0x00, 0x00, 0x02, 0x00, 0x00, 0x00,
        0x03, 0x00, 0x00, 0x00, 0x04, 0x00, 0x00, 0x00,
    ];

    let mut parser = parser_for(bytes);
    let exit: Exit = parser.parse().unwrap();

    assert_eq!(exit.pid, 0x1010);
    assert_eq!(exit.ppid, 0x0500);
    assert_eq!(exit.tid, 0x01);
    assert_eq!(exit.ptid, 0x02);
    assert_eq!(exit.time, 0x0400000003);
}

#[test]
fn lost_test_parse() {
    let bytes: &[u8] = &[
        0x10, 0x00, 0x99, 0x00, 0x00, 0x00, 0x00, 0x00,
        0x00, 0xAF, 0x00, 0x00, 0x00, 0x7B, 0x00, 0x00,
    ];

    let mut parser = parser_for(bytes);
    let lost: Lost = parser.parse().unwrap();

    assert_eq!(lost.id, 0x990010);
    assert_eq!(lost.lost, 0x7B000000AF00);
}

#[test]
fn mmap_test_parse() {
    let bytes: &[u8] = &[
        10, 100, 0, 0, 11, 100, 0, 0, 0, 160, 118, 129, 189, 127, 0, 0, 0, 16, 0, 0, 0, 0, 0, 0,
        0, 160, 118, 129, 189, 127, 0, 0, 47, 47, 97, 110, 111, 110, 0, 0,
    ];

    let mut parser = parser_for(bytes);
    let mmap: Mmap = parser.parse().unwrap();

    assert_eq!(mmap.pid, 25610);
    assert_eq!(mmap.tid, 25611);
    assert_eq!(mmap.addr, 0x7FBD8176A000);
    assert_eq!(mmap.len, 4096);
    assert_eq!(mmap.pgoff, 0x7FBD8176A000);
    assert_eq!(&*mmap.filename, b"//anon");
}

#[test]
fn throttle_test_parse() {
    let bytes: &[u8] = &[
        0x10, 0x20, 0x30, 0x40, 0x50, 0x60, 0x70, 0x80,
        0x90, 0xA0, 0xB0, 0xC0, 0xD0, 0xE0, 0xF0, 0x00,
        0xEF, 0xBE, 0xAD, 0xDE, 0xFE, 0xCA, 0xEF, 0xBE,
    ];

    let mut parser = parser_for(bytes);
    let throttle: Throttle = parser.parse().unwrap();

    assert_eq!(throttle.time, 0x8070605040302010);
    assert_eq!(throttle.id, 0x00F0E0D0C0B0A090);
    assert_eq!(throttle.stream_id, 0xBEEFCAFEDEADBEEF);
}

#[test]
fn simple_parse_sample() {
    let data: &[u8] = &[
        0x00, 0x01, 0x02, 0x03, 0x04, 0x05, 0x06, 0x07,
        0x08, 0x09, 0x0A, 0x0B, 0x0C, 0x0D, 0x0E, 0x0F,
    ];

    let config = ParseConfig::new(Little)
        .with_sample_type(SampleFlags::from_bits_retain(PERF_SAMPLE_ADDR | PERF_SAMPLE_ID));
    let mut parser = Parser::new(SliceBuf::new(data.to_vec()), config);
    let sample: Sample = parser.parse().unwrap();

    assert_eq!(sample.addr(), Some(0x0706050403020100));
    assert_eq!(sample.id(), Some(0x0F0E0D0C0B0A0908));
    assert_eq!(sample.cpu(), None);
    assert_eq!(sample.time(), None);
}

#[test]
fn mmap2_build_id_parse() {
    let mut bytes = Vec::new();
    bytes.extend_from_slice(&25610u32.to_le_bytes()); // pid
    bytes.extend_from_slice(&25611u32.to_le_bytes()); // tid
    bytes.extend_from_slice(&0x1000u64.to_le_bytes()); // addr
    bytes.extend_from_slice(&4096u64.to_le_bytes()); // len
    bytes.extend_from_slice(&0u64.to_le_bytes()); // pgoff
    bytes.push(3); // build id length
    bytes.push(0);
    bytes.extend_from_slice(&0u16.to_le_bytes());
    let mut build_id = [0u8; 20];
    build_id[0] = 0xAA;
    build_id[1] = 0xBB;
    build_id[2] = 0xCC;
    bytes.extend_from_slice(&build_id);
    bytes.extend_from_slice(&5u32.to_le_bytes()); // prot
    bytes.extend_from_slice(&2u32.to_le_bytes()); // flags
    bytes.extend_from_slice(b"/bin/true\0\0\0");

    let config = ParseConfig::new(Little).with_misc(PERF_RECORD_MISC_MMAP_BUILD_ID);
    let mut parser = Parser::new(SliceBuf::new(bytes), config);
    let mmap2: Mmap2 = parser.parse().unwrap();

    assert_eq!(mmap2.pid, 25610);
    assert_eq!(mmap2.build_id().map(|v| v.as_slice()), Some(&[0xAA, 0xBB, 0xCC][..]));
    assert_eq!(mmap2.maj(), None);
    assert_eq!(mmap2.prot, 5);
    assert_eq!(mmap2.flags, 2);
    assert_eq!(&*mmap2.filename, b"/bin/true");
}

#[test]
fn mmap2_device_parse() {
    let mut bytes = Vec::new();
    bytes.extend_from_slice(&1u32.to_le_bytes()); // pid
    bytes.extend_from_slice(&2u32.to_le_bytes()); // tid
    bytes.extend_from_slice(&3u64.to_le_bytes()); // addr
    bytes.extend_from_slice(&4u64.to_le_bytes()); // len
    bytes.extend_from_slice(&5u64.to_le_bytes()); // pgoff
    bytes.extend_from_slice(&6u32.to_le_bytes()); // maj
    bytes.extend_from_slice(&7u32.to_le_bytes()); // min
    bytes.extend_from_slice(&8u64.to_le_bytes()); // ino
    bytes.extend_from_slice(&9u64.to_le_bytes()); // ino_generation
    bytes.extend_from_slice(&10u32.to_le_bytes()); // prot
    bytes.extend_from_slice(&11u32.to_le_bytes()); // flags
    bytes.extend_from_slice(b"x\0");

    let mut parser = parser_for(&bytes);
    let mmap2: Mmap2 = parser.parse().unwrap();

    assert_eq!(mmap2.maj(), Some(6));
    assert_eq!(mmap2.min(), Some(7));
    assert_eq!(mmap2.ino(), Some(8));
    assert_eq!(mmap2.ino_generation(), Some(9));
    assert_eq!(mmap2.build_id(), None);
    let as_mmap = mmap2.to_mmap();
    assert_eq!(as_mmap.pid, 1);
    assert_eq!(&*as_mmap.filename, b"x");
}

#[test]
fn text_poke_parse() {
    let mut bytes = Vec::new();
    bytes.extend_from_slice(&0xFFFF_1234u64.to_le_bytes()); // addr
    bytes.extend_from_slice(&3u16.to_le_bytes()); // old_len
    bytes.extend_from_slice(&2u16.to_le_bytes()); // new_len
    // old + new bytes padded out so the total record length stays a
    // multiple of eight: round_up_mod(5, 4, 8) = 12 payload bytes.
    bytes.extend_from_slice(&[1, 2, 3, 4, 5, 0, 0, 0, 0, 0, 0, 0]);

    let mut parser = parser_for(&bytes);
    let poke: TextPoke = parser.parse().unwrap();

    assert_eq!(poke.addr, 0xFFFF_1234);
    assert_eq!(&*poke.old_bytes, &[1, 2, 3]);
    assert_eq!(&*poke.new_bytes, &[4, 5]);
}

#[test]
fn read_single_parse() {

    let mut bytes = Vec::new();
    bytes.extend_from_slice(&77u32.to_le_bytes()); // pid
    bytes.extend_from_slice(&78u32.to_le_bytes()); // tid
    bytes.extend_from_slice(&1000u64.to_le_bytes()); // value
    bytes.extend_from_slice(&2000u64.to_le_bytes()); // time_enabled
    bytes.extend_from_slice(&42u64.to_le_bytes()); // id

    let config = ParseConfig::new(Little).with_read_format(ReadFormat::from_bits_retain(
        PERF_FORMAT_ID | PERF_FORMAT_TOTAL_TIME_ENABLED,
    ));
    let mut parser = Parser::new(SliceBuf::new(bytes), config);
    let read: Read = parser.parse().unwrap();

    assert_eq!(read.pid, 77);
    assert_eq!(read.tid, 78);
    assert_eq!(read.values.value(), 1000);
    assert_eq!(read.values.time_enabled(), Some(2000));
    assert_eq!(read.values.time_running(), None);
    assert_eq!(read.values.id(), Some(42));
    assert_eq!(read.values.lost(), None);
}

#[test]
fn read_group_entries() {

    let mut bytes = Vec::new();
    bytes.extend_from_slice(&2u64.to_le_bytes()); // nr
    bytes.extend_from_slice(&100u64.to_le_bytes()); // value 0
    bytes.extend_from_slice(&7u64.to_le_bytes()); // id 0
    bytes.extend_from_slice(&200u64.to_le_bytes()); // value 1
    bytes.extend_from_slice(&8u64.to_le_bytes()); // id 1

    let config = ParseConfig::new(Little)
        .with_read_format(ReadFormat::from_bits_retain(PERF_FORMAT_GROUP | PERF_FORMAT_ID));
    let mut parser = Parser::new(SliceBuf::new(bytes), config);
    let data: ReadData = parser.parse().unwrap();

    let group = match data {
        ReadData::Group(g) => g,
        ReadData::Single(_) => panic!("expected a group read"),
    };
    assert_eq!(group.len(), 2);
    assert!(!group.is_empty());
    let entries = group.entries();
    assert_eq!(entries[0].value(), 100);
    assert_eq!(entries[0].id(), Some(7));
    assert_eq!(entries[1].value(), 200);
    assert_eq!(entries[1].id(), Some(8));
    let by_id = group.get_by_id(8).unwrap();
    assert_eq!(by_id.value(), 200);
    assert!(group.get_by_id(9).is_none());
    let single = group.try_into_single();
    assert!(single.is_err());

    let lone = ReadValue::from_group_and_entry(&group, &entries[0]);
    assert_eq!(lone.value(), 100);
    assert_eq!(lone.id(), Some(7));

    let rewrapped = perf_event_data::ReadGroup::from_single(&lone);
    assert_eq!(rewrapped.len(), 1);
    assert_eq!(rewrapped.entries()[0].value(), 100);
    assert_eq!(rewrapped.entries()[0].id(), Some(7));
}

#[test]
fn sample_with_callchain_and_regs() {

    let mut bytes = Vec::new();
    bytes.extend_from_slice(&31u32.to_le_bytes()); // pid
    bytes.extend_from_slice(&32u32.to_le_bytes()); // tid
    bytes.extend_from_slice(&2u64.to_le_bytes()); // callchain length
    bytes.extend_from_slice(&0xAAu64.to_le_bytes());
    bytes.extend_from_slice(&0xBBu64.to_le_bytes());
    bytes.extend_from_slice(&2u64.to_le_bytes()); // regs abi
    bytes.extend_from_slice(&11u64.to_le_bytes()); // first masked register
    bytes.extend_from_slice(&22u64.to_le_bytes()); // second masked register

    let config = ParseConfig::new(Little)
        .with_sample_type(SampleFlags::from_bits_retain(
            PERF_SAMPLE_TID | PERF_SAMPLE_CALLCHAIN | PERF_SAMPLE_REGS_USER,
        ))
        .with_regs(0b101, 0);
    let mut parser = Parser::new(SliceBuf::new(bytes), config);
    let sample: Sample = parser.parse().unwrap();

    assert_eq!(sample.pid(), Some(31));
    assert_eq!(sample.tid(), Some(32));
    assert_eq!(sample.callchain().map(|v| v.as_slice()), Some(&[0xAA, 0xBB][..]));
    let regs = sample.regs_user().unwrap();
    assert_eq!(regs.abi.value, 2);
    assert_eq!(regs.mask, 0b101);
    assert_eq!(regs.regs.as_slice(), &[11, 22]);
    assert!(sample.regs_intr().is_none());
    assert_eq!(sample.ip(), None);
}

#[test]
fn small_records_parse() {

    let mut bytes = Vec::new();
    bytes.extend_from_slice(&0x100u64.to_le_bytes());
    bytes.extend_from_slice(&0x200u64.to_le_bytes());
    bytes.extend_from_slice(&0x0301u64.to_le_bytes());
    let mut parser = parser_for(&bytes);
    let aux: Aux = parser.parse().unwrap();
    assert_eq!(aux.aux_offset, 0x100);
    assert_eq!(aux.aux_size, 0x200);
    assert_eq!(aux.flags.bits, 0x0301);
    assert_eq!(aux.flags.pmu_format_type().value, 3);

    let mut parser = parser_for(&0xFEEDu64.to_le_bytes());
    let hw: AuxOutputHwId = parser.parse().unwrap();
    assert_eq!(hw.hw_id, 0xFEED);

    let mut parser = parser_for(&0x77u64.to_le_bytes());
    let lost: LostSamples = parser.parse().unwrap();
    assert_eq!(lost.lost, 0x77);

    let mut bytes = Vec::new();
    bytes.extend_from_slice(&5u32.to_le_bytes());
    bytes.extend_from_slice(&6u32.to_le_bytes());
    let mut parser = parser_for(&bytes);
    let itrace: ITraceStart = parser.parse().unwrap();
    assert_eq!(itrace.pid, 5);
    assert_eq!(itrace.tid, 6);

    let mut bytes = Vec::new();
    bytes.extend_from_slice(&0xC0FFEEu64.to_le_bytes());
    bytes.extend_from_slice(b"user.slice\0\0");
    let mut parser = parser_for(&bytes);
    let cgroup: CGroup = parser.parse().unwrap();
    assert_eq!(cgroup.id, 0xC0FFEE);
    assert_eq!(&*cgroup.path, b"user.slice");

    let mut bytes = Vec::new();
    bytes.extend_from_slice(&0xFFFF_AAAAu64.to_le_bytes()); // addr
    bytes.extend_from_slice(&64u32.to_le_bytes()); // len
    bytes.extend_from_slice(&1u16.to_le_bytes()); // type: BPF
    bytes.extend_from_slice(&1u16.to_le_bytes()); // flags: unregister
    bytes.extend_from_slice(b"bpf_prog_1234\0\0\0");
    let mut parser = parser_for(&bytes);
    let ksym: KSymbol = parser.parse().unwrap();
    assert_eq!(ksym.addr, 0xFFFF_AAAA);
    assert_eq!(ksym.len, 64);
    assert_eq!(ksym.ksym_type.value, 1);
    assert!(ksym.flags.unregister());
    assert_eq!(&*ksym.name, b"bpf_prog_1234");

    let mut bytes = Vec::new();
    bytes.extend_from_slice(&2u16.to_le_bytes()); // type: PROG_UNLOAD
    bytes.extend_from_slice(&0u16.to_le_bytes()); // flags
    bytes.extend_from_slice(&9u32.to_le_bytes()); // id
    bytes.extend_from_slice(&[1, 2, 3, 4, 5, 6, 7, 8]); // tag
    let mut parser = parser_for(&bytes);
    let bpf: BpfEvent = parser.parse().unwrap();
    assert_eq!(bpf.ty.value, 2);
    assert_eq!(bpf.id, 9);
    assert_eq!(bpf.tag, vec![1, 2, 3, 4, 5, 6, 7, 8]);

    let mut bytes = Vec::new();
    bytes.extend_from_slice(&41u32.to_le_bytes()); // pid
    bytes.extend_from_slice(&42u32.to_le_bytes()); // tid
    bytes.extend_from_slice(&2u64.to_le_bytes()); // entry count
    bytes.extend_from_slice(&100u64.to_le_bytes()); // dev 0
    bytes.extend_from_slice(&200u64.to_le_bytes()); // inode 0
    bytes.extend_from_slice(&101u64.to_le_bytes()); // dev 1
    bytes.extend_from_slice(&201u64.to_le_bytes()); // inode 1
    let mut parser = parser_for(&bytes);
    let ns: Namespaces = parser.parse().unwrap();
    assert_eq!(ns.pid, 41);
    assert_eq!(ns.tid, 42);
    assert_eq!(ns.namespaces.len(), 2);
    assert_eq!(ns.network(), Some(&NamespaceEntry { dev: 100, inode: 200 }));
    assert_eq!(ns.uts(), None);
    assert_eq!(ns.get(1), Some(&NamespaceEntry { dev: 101, inode: 201 }));
    assert_eq!(ns.get(2), None);
}

#[test]
fn big_endian_comm_parse() {

    let bytes: &[u8] = &[
        0x00, 0x00, 0x10, 0x10, 0x00, 0x00, 0x05, 0x00, b't', b'e', b's', b't', 0x00, 0x00,
    ];

    let mut parser = Parser::new(SliceBuf::new(bytes.to_vec()), ParseConfig::new(Big));
    let comm: Comm = parser.parse().unwrap();
    assert_eq!(comm.pid, 0x1010);
    assert_eq!(comm.tid, 0x0500);
    assert_eq!(&*comm.comm, b"test");
}

#[test]
fn mmap_record_has_empty_trailer() {

    // Even with `sample_id_all` configured, an MMAP record body carries
    // no trailer.
    let config = ParseConfig::new(Little)
        .with_sample_id_all(true)
        .with_sample_type(SampleFlags::from_bits_retain(PERF_SAMPLE_TID | PERF_SAMPLE_TIME));

    let mut bytes = Vec::new();
    bytes.extend_from_slice(&1u32.to_le_bytes()); // type: MMAP
    bytes.extend_from_slice(&0u16.to_le_bytes()); // misc
    bytes.extend_from_slice(&48u16.to_le_bytes()); // size
    bytes.extend_from_slice(&7u32.to_le_bytes()); // pid
    bytes.extend_from_slice(&8u32.to_le_bytes()); // tid
    bytes.extend_from_slice(&0x1000u64.to_le_bytes()); // addr
    bytes.extend_from_slice(&0x2000u64.to_le_bytes()); // len
    bytes.extend_from_slice(&0u64.to_le_bytes()); // pgoff
    bytes.extend_from_slice(b"[stack]\0");

    let mut parser = Parser::new(SliceBuf::new(bytes), config);
    let (mut body, metadata) = parser.parse_metadata().unwrap();
    assert_eq!(metadata.ty(), 1);
    assert_eq!(metadata.sample_id().pid(), None);
    assert_eq!(metadata.sample_id().time(), None);
    let mmap: Mmap = body.parse().unwrap();
    assert_eq!(mmap.pid, 7);
    assert_eq!(&*mmap.filename, b"[stack]");
}

#[test]
fn sample_with_read_group() {
    let mut bytes = Vec::new();
    bytes.extend_from_slice(&0x9999u64.to_le_bytes()); // ip
    bytes.extend_from_slice(&1u64.to_le_bytes()); // nr
    bytes.extend_from_slice(&700u64.to_le_bytes()); // time_enabled
    bytes.extend_from_slice(&350u64.to_le_bytes()); // value of the lone counter

    let config = ParseConfig::new(Little)
        .with_sample_type(SampleFlags::from_bits_retain(
            perf_event_data::PERF_SAMPLE_IP | perf_event_data::PERF_SAMPLE_READ,
        ))
        .with_read_format(ReadFormat::from_bits_retain(
            PERF_FORMAT_GROUP | perf_event_data::PERF_FORMAT_TOTAL_TIME_ENABLED,
        ));
    let mut parser = Parser::new(SliceBuf::new(bytes), config);
    let sample: Sample = parser.parse().unwrap();

    assert_eq!(sample.ip(), Some(0x9999));
    let group = match sample.values().unwrap() {
        ReadData::Group(g) => g,
        ReadData::Single(_) => panic!("expected a group read"),
    };
    assert_eq!(group.len(), 1);
    assert_eq!(group.time_enabled(), Some(700));
    assert_eq!(group.time_running(), None);
    let value = group.try_into_single().unwrap();
    assert_eq!(value.value(), 350);
    assert_eq!(value.time_enabled(), Some(700));
    assert_eq!(value.id(), None);
}
