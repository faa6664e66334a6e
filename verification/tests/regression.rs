//! Whole-record decoding at its boundaries: malformed headers, truncated
//! streams, and oversized declared lengths must come back as typed
//! errors, never as panics or runaway allocations.

use perf_event_data::endian::Little;
use perf_event_data::parse::{ErrorKind, ParseConfig, ParseError, Parser, RecordHeader, SliceBuf};
use perf_event_data::NamespaceEntry;
use perf_event_data::{
    EventAttr, Read, ReadData, ReadFormat, Record, RecordVisitor, Sample, SampleFlags, SampleId,
    SwitchCpuWide, PERF_ATTR_SIZE_VER0, PERF_FORMAT_GROUP, PERF_FORMAT_ID,
    PERF_RECORD_MISC_SWITCH_OUT, PERF_SAMPLE_CPU, PERF_SAMPLE_IDENTIFIER, PERF_SAMPLE_STACK_USER,
    PERF_SAMPLE_TID, PERF_SAMPLE_TIME,
};

fn fuzz_test(data: &[u8]) {
    let config = ParseConfig::new(Little);
    let mut parser = Parser::new(SliceBuf::new(data.to_vec()), config);
    let _ = parser.parse_record(RecordVisitor);
}

#[test]
fn zero_header_size() {
    fuzz_test(&[0, 0, 0, 0, 0, 0, 0, 0]);
}

#[test]
fn overlarge_header_size() {
    fuzz_test(&[9, 0, 0, 0, 0, 251, 85, 182, 246]);
}

#[test]
fn enormous_slice() {
    fuzz_test(&[16, 0, 0, 0, 0, 180, 8, 69, 86, 81, 0, 180, 180, 8]);
}

#[test]
fn zero_header_size_is_invalid_record() {
    let mut parser = Parser::new(
        SliceBuf::new(vec![0, 0, 0, 0, 0, 0, 0, 0]),
        ParseConfig::new(Little),
    );
    let err = parser.parse_record(RecordVisitor).unwrap_err();
    assert_eq!(err.kind(), ErrorKind::InvalidRecord);
}

#[test]
fn oversized_header_is_eof() {
    // A header declaring more bytes than the stream holds must fail
    // with end-of-input, not yield a truncated record.
    let mut bytes = vec![4u8, 0, 0, 0, 0, 0, 0x30, 0];
    bytes.extend_from_slice(&[1, 2, 3, 4]);
    let mut parser = Parser::new(SliceBuf::new(bytes), ParseConfig::new(Little));
    let err = parser.parse_record(RecordVisitor).unwrap_err();
    assert_eq!(err.kind(), ErrorKind::Eof);
}

#[test]
fn truncated_trailer_is_invalid_record() {
    // An EXIT record whose declared body cannot hold the trailer the
    // configuration implies.
    let config = ParseConfig::new(Little)
        .with_sample_id_all(true)
        .with_sample_type(SampleFlags::from_bits_retain(PERF_SAMPLE_TID | PERF_SAMPLE_TIME));
    let mut bytes = vec![4u8, 0, 0, 0, 0, 0, 12, 0];
    bytes.extend_from_slice(&[0; 4]);
    let mut parser = Parser::new(SliceBuf::new(bytes), config);
    let err = parser.parse_record(RecordVisitor).unwrap_err();
    assert_eq!(err.kind(), ErrorKind::InvalidRecord);
}

#[test]
fn fork_record_with_trailer() {
    let config = ParseConfig::new(Little)
        .with_sample_id_all(true)
        .with_sample_type(SampleFlags::from_bits_retain(PERF_SAMPLE_TID | PERF_SAMPLE_TIME));

    let mut bytes = Vec::new();
    bytes.extend_from_slice(&7u32.to_le_bytes()); // type: FORK
    bytes.extend_from_slice(&0u16.to_le_bytes()); // misc
    bytes.extend_from_slice(&48u16.to_le_bytes()); // size: 8 + 24 + 16
    bytes.extend_from_slice(&1u32.to_le_bytes()); // pid
    bytes.extend_from_slice(&2u32.to_le_bytes()); // ppid
    bytes.extend_from_slice(&3u32.to_le_bytes()); // tid
    bytes.extend_from_slice(&4u32.to_le_bytes()); // ptid
    bytes.extend_from_slice(&5u64.to_le_bytes()); // time
    bytes.extend_from_slice(&9u32.to_le_bytes()); // trailer pid
    bytes.extend_from_slice(&10u32.to_le_bytes()); // trailer tid
    bytes.extend_from_slice(&11u64.to_le_bytes()); // trailer time

    let mut parser = Parser::new(SliceBuf::new(bytes.clone()), config);
    let (mut body, metadata) = parser.parse_metadata().unwrap();
    assert_eq!(metadata.ty(), 7);
    assert_eq!(metadata.misc(), 0);
    assert_eq!(metadata.sample_id().pid(), Some(9));
    assert_eq!(metadata.sample_id().tid(), Some(10));
    assert_eq!(metadata.sample_id().time(), Some(11));
    assert_eq!(metadata.sample_id().cpu(), None);
    let fork: perf_event_data::Fork = body.parse().unwrap();
    assert_eq!(fork.pid, 1);
    assert_eq!(fork.time, 5);

    // The same bytes through the canonical union.
    let mut parser = Parser::new(SliceBuf::new(bytes), config);
    let record: Record = parser.parse().unwrap();
    match record {
        Record::Fork(f) => {
            assert_eq!(f.pid, 1);
            assert_eq!(f.ppid, 2);
            assert_eq!(f.tid, 3);
            assert_eq!(f.ptid, 4);
            assert_eq!(f.time, 5);
        }
        _ => panic!("expected a FORK record"),
    }
}

#[test]
fn sample_id_estimate_len() {

    let config = ParseConfig::new(Little);
    assert_eq!(SampleId::estimate_len(&config), 0);

    let config = config.with_sample_type(SampleFlags::from_bits_retain(
        PERF_SAMPLE_TID | PERF_SAMPLE_TIME | PERF_SAMPLE_CPU | PERF_SAMPLE_IDENTIFIER,
    ));
    // The flags are set but the trailer is off.
    assert_eq!(SampleId::estimate_len(&config), 0);

    let config = config.with_sample_id_all(true);
    assert_eq!(SampleId::estimate_len(&config), 32);
}

#[test]
fn unsupported_read_format_is_refused() {

    let config =
        ParseConfig::new(Little).with_read_format(ReadFormat::from_bits_retain(0x1F | 0x40));
    let mut parser = Parser::new(SliceBuf::new(vec![0u8; 64]), config);
    let err = parser.parse::<Read>().unwrap_err();
    assert_eq!(err.kind(), ErrorKind::UnsupportedConfig);
}

#[test]
fn oversize_group_count_is_invalid() {

    let mut bytes = Vec::new();
    bytes.extend_from_slice(&u64::MAX.to_le_bytes()); // nr
    bytes.extend_from_slice(&[0u8; 32]);

    let config = ParseConfig::new(Little)
        .with_read_format(ReadFormat::from_bits_retain(PERF_FORMAT_GROUP | PERF_FORMAT_ID));
    let mut parser = Parser::new(SliceBuf::new(bytes), config);
    let err = parser.parse::<ReadData>().unwrap_err();
    assert_eq!(err.kind(), ErrorKind::InvalidRecord);
}

#[test]
fn stack_dyn_size_too_large_is_invalid() {

    let mut bytes = Vec::new();
    bytes.extend_from_slice(&8u64.to_le_bytes()); // stack size
    bytes.extend_from_slice(&[1, 2, 3, 4, 5, 6, 7, 8]); // stack payload
    bytes.extend_from_slice(&16u64.to_le_bytes()); // dynamic size, too big

    let config = ParseConfig::new(Little)
        .with_sample_type(SampleFlags::from_bits_retain(PERF_SAMPLE_STACK_USER));
    let mut parser = Parser::new(SliceBuf::new(bytes.clone()), config);
    let err = parser.parse::<Sample>().unwrap_err();
    assert_eq!(err.kind(), ErrorKind::InvalidRecord);

    // With a fitting dynamic size the payload is truncated to it.
    let fit = 3u64.to_le_bytes();
    let pos = bytes.len() - 8;
    bytes[pos..].copy_from_slice(&fit);
    let mut parser = Parser::new(SliceBuf::new(bytes), config);
    let sample: Sample = parser.parse().unwrap();
    assert_eq!(sample.stack_user().map(|v| v.as_slice()), Some(&[1, 2, 3][..]));
}

#[test]
fn event_attr_round_trip() {

    let mut bytes = Vec::new();
    bytes.extend_from_slice(&1u32.to_le_bytes()); // type
    bytes.extend_from_slice(&PERF_ATTR_SIZE_VER0.to_le_bytes()); // size
    bytes.extend_from_slice(&0x11u64.to_le_bytes()); // config
    bytes.extend_from_slice(&4000u64.to_le_bytes()); // sample_period
    bytes.extend_from_slice(&0x86u64.to_le_bytes()); // sample_type
    bytes.extend_from_slice(&0x5u64.to_le_bytes()); // read_format
    bytes.extend_from_slice(&0x40000u64.to_le_bytes()); // flags: sample_id_all
    bytes.extend_from_slice(&3u32.to_le_bytes()); // wakeup_events
    bytes.extend_from_slice(&0u32.to_le_bytes()); // bp_type
    bytes.extend_from_slice(&0u64.to_le_bytes()); // config1

    let mut parser = Parser::new(SliceBuf::new(bytes), ParseConfig::new(Little));
    let attr: EventAttr = parser.parse().unwrap();
    assert_eq!(attr.ty, 1);
    assert_eq!(attr.size, 64);
    assert_eq!(attr.sample_type, 0x86);
    assert_eq!(attr.read_format, 0x5);
    assert!(attr.sample_id_all());
    assert!(!attr.branch_hw_index());
    assert_eq!(attr.sample_regs_user, 0);

    let config = ParseConfig::from_attr(&attr, Little);
    assert_eq!(config.sample_type().bits(), 0x86);
    assert_eq!(config.read_format().bits(), 0x5);
    assert!(config.sample_id_all());
    assert_eq!(config.misc(), 0);
}

#[test]
fn event_attr_bad_sizes() {

    // A size between the published layouts belongs to no version.
    let mut bytes = Vec::new();
    bytes.extend_from_slice(&0u32.to_le_bytes());
    bytes.extend_from_slice(&70u32.to_le_bytes());
    bytes.extend_from_slice(&[0u8; 70]);
    let mut parser = Parser::new(SliceBuf::new(bytes), ParseConfig::new(Little));
    let err = parser.parse::<EventAttr>().unwrap_err();
    assert_eq!(err.kind(), ErrorKind::InvalidRecord);

    // A larger size is fine while the unknown tail is all zeros.
    let mut bytes = Vec::new();
    bytes.extend_from_slice(&0u32.to_le_bytes());
    bytes.extend_from_slice(&144u32.to_le_bytes());
    bytes.extend_from_slice(&[0u8; 136]);
    let mut parser = Parser::new(SliceBuf::new(bytes.clone()), ParseConfig::new(Little));
    let attr = parser.parse::<EventAttr>().unwrap();
    assert_eq!(attr.size, 144);

    // ... and an invalid record once that tail holds anything else.
    let last = bytes.len() - 1;
    bytes[last] = 1;
    let mut parser = Parser::new(SliceBuf::new(bytes), ParseConfig::new(Little));
    let err = parser.parse::<EventAttr>().unwrap_err();
    assert_eq!(err.kind(), ErrorKind::InvalidRecord);
}

#[test]
fn switch_direction_follows_misc() {

    let mut bytes = Vec::new();
    bytes.extend_from_slice(&21u32.to_le_bytes());
    bytes.extend_from_slice(&22u32.to_le_bytes());

    let mut parser = Parser::new(SliceBuf::new(bytes.clone()), ParseConfig::new(Little));
    let switch: SwitchCpuWide = parser.parse().unwrap();
    assert!(matches!(switch, SwitchCpuWide::In { .. }));
    assert_eq!(switch.pid(), 21);
    assert_eq!(switch.tid(), 22);

    let config = ParseConfig::new(Little).with_misc(PERF_RECORD_MISC_SWITCH_OUT);
    let mut parser = Parser::new(SliceBuf::new(bytes), config);
    let switch: SwitchCpuWide = parser.parse().unwrap();
    assert!(matches!(switch, SwitchCpuWide::Out { .. }));
}

#[test]
fn unknown_record_keeps_raw_bytes() {
    let mut bytes = Vec::new();
    bytes.extend_from_slice(&999u32.to_le_bytes()); // unknown type tag
    bytes.extend_from_slice(&0u16.to_le_bytes());
    bytes.extend_from_slice(&12u16.to_le_bytes()); // size: 8 + 4
    bytes.extend_from_slice(&[0xDE, 0xAD, 0xBE, 0xEF]);

    let mut parser = Parser::new(SliceBuf::new(bytes), ParseConfig::new(Little));
    let record: Record = parser.parse().unwrap();
    match record {
        Record::Unknown { ty, data } => {
            assert_eq!(ty, 999);
            assert_eq!(data, vec![0xDE, 0xAD, 0xBE, 0xEF]);
        }
        _ => panic!("expected an unknown record"),
    }
}

#[test]
fn parse_with_header_roundtrip() {

    let mut bytes = Vec::new();
    bytes.extend_from_slice(&2u32.to_le_bytes()); // type: LOST
    bytes.extend_from_slice(&0u16.to_le_bytes()); // misc
    bytes.extend_from_slice(&24u16.to_le_bytes()); // size
    bytes.extend_from_slice(&5u64.to_le_bytes()); // id
    bytes.extend_from_slice(&6u64.to_le_bytes()); // lost

    let mut parser = Parser::new(SliceBuf::new(bytes), ParseConfig::new(Little));
    let header: RecordHeader = parser.parse().unwrap();
    assert_eq!(header.ty, 2);
    assert_eq!(header.misc, 0);
    assert_eq!(header.size, 24);
    let record = Record::parse_with_header(&mut parser, header).unwrap();
    match record {
        Record::Lost(l) => {
            assert_eq!(l.id, 5);
            assert_eq!(l.lost, 6);
        }
        _ => panic!("expected a LOST record"),
    }
}

#[test]
fn parse_helpers() {

    let mut bytes = Vec::new();
    for i in 0u64..4 {
        bytes.extend_from_slice(&i.to_le_bytes());
    }
    let mut parser = Parser::new(SliceBuf::new(bytes), ParseConfig::new(Little));
    let entries: Vec<NamespaceEntry> = parser.parse_repeated(2).unwrap();
    assert_eq!(entries[0], NamespaceEntry { dev: 0, inode: 1 });
    assert_eq!(entries[1], NamespaceEntry { dev: 2, inode: 3 });

    let mut parser = Parser::new(
        SliceBuf::new(vec![0xAB, 0xCD]),
        ParseConfig::new(Little),
    );
    let skipped: Option<u16> = parser.parse_if(false).unwrap();
    assert_eq!(skipped, None);
    let taken: Option<u16> = parser.parse_if(true).unwrap();
    assert_eq!(taken, Some(0xCDAB));

    let eof = ParseError::eof();
    assert_eq!(eof.kind(), ErrorKind::Eof);
    assert_eq!(ParseError::new(ErrorKind::External).kind(), ErrorKind::External);
    assert_eq!(eof.description(), "unexpected EOF during parsing");
}

#[test]
fn switch_record_dispatch() {
    // A SWITCH record has no body fields; the misc bit says which way
    // the switch went.
    let mut bytes = Vec::new();
    bytes.extend_from_slice(&14u32.to_le_bytes()); // type: SWITCH
    bytes.extend_from_slice(&PERF_RECORD_MISC_SWITCH_OUT.to_le_bytes()); // misc
    bytes.extend_from_slice(&8u16.to_le_bytes()); // size

    let mut parser = Parser::new(SliceBuf::new(bytes), ParseConfig::new(Little));
    let record: Record = parser.parse().unwrap();
    assert!(matches!(record, Record::Switch));
}

#[test]
fn sample_identifier_position_wins() {
    // When both id-bearing flags are set, both wire positions are
    // consumed, and the early identifier value is kept.
    let mut bytes = Vec::new();
    bytes.extend_from_slice(&0xAAAAu64.to_le_bytes()); // identifier position
    bytes.extend_from_slice(&0xBBBBu64.to_le_bytes()); // id position

    let config = ParseConfig::new(Little)
        .with_sample_type(SampleFlags::from_bits_retain(0x40 | 0x10000));
    let mut parser = Parser::new(SliceBuf::new(bytes), config);
    let sample: Sample = parser.parse().unwrap();
    assert_eq!(sample.id(), Some(0xAAAA));
    assert_eq!(sample.time(), None);
}
