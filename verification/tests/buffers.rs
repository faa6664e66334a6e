//! The buffer abstraction: chunks, cursors, and the packed
//! configuration word.

use perf_event_data::endian::{Big, Dynamic, Endian, Little, Native};
use perf_event_data::parse::{
    ChunkBuf, ErrorKind, ParseBuf, ParseBufChunk, ParseBufCursor, ParseConfig, Parser, SliceBuf,
};
use perf_event_data::{
    popcount64, round_up_mod, BranchEntry, DataSource, ReadFormat, SampleFlags, Txn,
    CONFIG_SAMPLE_TYPE_MASK, PERF_FORMAT_GROUP, PERF_FORMAT_ID, PERF_FORMAT_LOST,
    PERF_FORMAT_TOTAL_TIME_ENABLED, SAMPLE_TYPE_WIDTH,
};

#[test]
fn truncate_owned() {
    let mut chunk = ParseBufChunk::Temporary(vec![0u8, 1, 2, 3, 4, 5]);
    chunk.truncate(4);

    assert_eq!(&chunk.into_vec()[..], &[0, 1, 2, 3]);
}

#[test]
fn truncate_borrowed() {
    let mut chunk = ParseBufChunk::External(vec![0u8, 1, 2, 3, 4, 5]);
    chunk.truncate(4);

    assert_eq!(&chunk.into_vec()[..], &[0, 1, 2, 3]);
}

#[test]
fn parse_rest() {
    let data: &[u8] = &[1, 2, 3, 4, 5];
    let mut parser = Parser::new(SliceBuf::new(data.to_vec()), ParseConfig::new(Native));
    let rest = parser.parse_rest().unwrap();

    assert_eq!(data, &*rest);
}

#[test]
fn cursor_over_split() {
    let mut buf = ChunkBuf::new(vec![b"abcdef".to_vec(), b"012456789".to_vec()]);
    let _cursor = ParseBufCursor::new(&mut buf, 8);
}

#[test]
fn cursor_zero_split() {
    let mut buf = ChunkBuf::new(vec![Vec::new(), b"01234".to_vec()]);
    let _cursor = ParseBufCursor::new(&mut buf, 4);
}

#[test]
fn assert_sufficient_spare_sample_type_bits() {
    assert!(CONFIG_SAMPLE_TYPE_MASK.count_ones() >= SAMPLE_TYPE_WIDTH + 8)
}

#[test]
fn chunk_is_never_empty_on_success() {
    let mut empty = SliceBuf::new(Vec::new());
    let err = empty.chunk().unwrap_err();
    assert_eq!(err.kind(), ErrorKind::Eof);

    let mut buf = SliceBuf::new(vec![9, 8, 7]);
    let chunk = buf.chunk().unwrap();
    assert!(chunk.len() > 0);
    assert_eq!(chunk.into_vec(), vec![9, 8, 7]);

    let mut chunks = ChunkBuf::new(vec![Vec::new(), Vec::new()]);
    let err = chunks.chunk().unwrap_err();
    assert_eq!(err.kind(), ErrorKind::Eof);
}

#[test]
fn cursor_consumes_exactly_its_length() {
    let mut buf = SliceBuf::new(vec![0, 1, 2, 3, 4, 5, 6, 7, 8, 9]);
    let mut cursor = ParseBufCursor::new(&mut buf, 6).unwrap();

    assert_eq!(cursor.remaining_hint(), Some(6));
    let inside = cursor.chunk().unwrap().into_vec();
    assert_eq!(inside, vec![0, 1, 2, 3, 4, 5]);

    // The source stands exactly past the carved bytes.
    assert_eq!(buf.remaining_hint(), Some(4));
    let rest = buf.chunk().unwrap().into_vec();
    assert_eq!(rest, vec![6, 7, 8, 9]);
}

#[test]
fn cursor_runs_short() {
    let mut buf = SliceBuf::new(vec![0, 1, 2]);
    let err = ParseBufCursor::new(&mut buf, 9).unwrap_err();
    assert_eq!(err.kind(), ErrorKind::Eof);
}

#[test]
fn cursor_advance_across_chunks() {
    let mut buf = ChunkBuf::new(vec![vec![1, 2, 3], vec![4, 5], vec![6, 7, 8]]);
    let mut cursor = ParseBufCursor::new(&mut buf, 7).unwrap();
    cursor.advance(4);
    assert_eq!(cursor.remaining_hint(), Some(3));
    let chunk = cursor.chunk().unwrap().into_vec();
    assert_eq!(chunk, vec![5]);
    cursor.advance(3);
    assert_eq!(cursor.remaining_hint(), Some(0));
    assert_eq!(cursor.chunk().unwrap_err().kind(), ErrorKind::Eof);
}

#[test]
fn endian_conversions() {
    assert_eq!(Little.convert_u16([0x34, 0x12]), 0x1234);
    assert_eq!(Big.convert_u16([0x12, 0x34]), 0x1234);
    assert_eq!(Little.convert_u32([4, 3, 2, 1]), 0x01020304);
    assert_eq!(Big.convert_u32([1, 2, 3, 4]), 0x01020304);
    assert_eq!(
        Little.convert_u64([8, 7, 6, 5, 4, 3, 2, 1]),
        0x0102030405060708
    );
    assert_eq!(
        Big.convert_u64([1, 2, 3, 4, 5, 6, 7, 8]),
        0x0102030405060708
    );
    assert_eq!(Dynamic::Little.convert_u32([4, 3, 2, 1]), 0x01020304);
    assert_eq!(Dynamic::Big.convert_u32([1, 2, 3, 4]), 0x01020304);
    let native = Native.convert_u16([0x34, 0x12]);
    assert!(native == 0x1234 || native == 0x3412);
    assert!(Native.is_native());
    assert_ne!(Little.is_native(), Big.is_native());
}

#[test]
fn config_round_trips_every_field() {

    let config = ParseConfig::new(Little)
        .with_sample_type(SampleFlags::from_bits_retain(0x1234))
        .with_read_format(ReadFormat::from_bits_retain(0x15))
        .with_sample_id_all(true)
        .with_branch_hw_index(true)
        .with_regs(0xF0F0, 0x0F0F)
        .with_misc(0xABCD);

    assert_eq!(config.sample_type().bits(), 0x1234);
    assert_eq!(config.read_format().bits(), 0x15);
    assert!(config.sample_id_all());
    assert!(config.branch_hw_index());
    assert_eq!(config.regs_user(), 0xF0F0);
    assert_eq!(config.regs_intr(), 0x0F0F);
    assert_eq!(config.misc(), 0xABCD);

    // An unsupported read-format request keeps a marker bit so that the
    // decode later refuses it instead of misreading fields.
    let odd = config.with_read_format(ReadFormat::from_bits_retain(0x1F | 0x40));
    assert_eq!(odd.read_format().bits(), 0x3F);
    assert!(odd.read_format().has_unsupported_bits());
    assert_eq!(odd.sample_type().bits(), 0x1234);

    let big = config.with_endian(Big);
    assert_eq!(big.misc(), 0xABCD);
}

#[test]
fn flags_operations() {

    let rf = ReadFormat::from_bits_retain(PERF_FORMAT_ID | PERF_FORMAT_LOST);
    assert_eq!(rf.element_len(), 3);
    assert_eq!(ReadFormat::from_bits_retain(PERF_FORMAT_ID).element_len(), 2);
    assert_eq!(ReadFormat::from_bits_retain(0).element_len(), 1);
    assert!(rf.contains(ReadFormat::from_bits_retain(PERF_FORMAT_ID)));
    assert!(!rf.contains(ReadFormat::from_bits_retain(PERF_FORMAT_GROUP)));
    let more = rf.union(ReadFormat::from_bits_retain(PERF_FORMAT_TOTAL_TIME_ENABLED));
    assert!(more.contains(rf));
    let less = more.difference(ReadFormat::from_bits_retain(PERF_FORMAT_ID));
    assert!(!less.contains(ReadFormat::from_bits_retain(PERF_FORMAT_ID)));
    assert!(!less.is_empty());
}

#[test]
fn misc_helpers() {

    assert_eq!(popcount64(0), 0);
    assert_eq!(popcount64(u64::MAX), 64);
    assert_eq!(popcount64(0b1011), 3);

    assert_eq!(round_up_mod(5, 4, 8), 12);
    assert_eq!(round_up_mod(4, 4, 8), 4);
    assert_eq!(round_up_mod(13, 4, 8), 20);

    let src = DataSource { val: (2u64) | (0x8 << 5) | (0x10 << 19) | (0x2 << 24) };
    assert_eq!(src.mem_op().bits, 2);
    assert_eq!(src.mem_lvl().bits, 0x8);
    assert_eq!(src.mem_snoop().bits, 0x10);
    assert_eq!(src.mem_lock().bits, 0x2);
    assert!(!src.mem_remote());

    let txn = Txn { bits: 0x7F00_0000_0000_0002 };
    assert_eq!(txn.abort(), 0x7F000000);

    // Branch flag bits are read least-significant first.
    let entry_flags: u64 = 0b0101 | (500 << 4) | (3 << 20);
    let mut bytes = Vec::new();
    bytes.extend_from_slice(&0x4000u64.to_le_bytes());
    bytes.extend_from_slice(&0x5000u64.to_le_bytes());
    bytes.extend_from_slice(&entry_flags.to_le_bytes());
    let mut parser = Parser::new(SliceBuf::new(bytes), ParseConfig::new(Little));
    let entry: BranchEntry = parser.parse().unwrap();
    assert_eq!(entry.from(), 0x4000);
    assert_eq!(entry.to(), 0x5000);
    assert!(entry.mispred());
    assert!(!entry.predicted());
    assert!(entry.in_tx());
    assert!(!entry.abort());
    assert_eq!(entry.cycles(), 500);
    assert_eq!(entry.ty().value, 3);
}
