use fanotify::decode::{decode_events, decode_events_partial, DecodeError, EVENT_METADATA_LEN};
use fanotify::event::FAN_NOFD;
use fanotify::flags::{FAN_OPEN, FAN_Q_OVERFLOW, MaskFlags, MASK_ALL};

/// Build one record: a 24-byte header holding `total_len`, `mask`,
/// `fd` and `pid`, padded with 0xAA up to `total_len` bytes.
fn record(total_len: u32, mask: u64, fd: i32, pid: i32) -> Vec<u8> {
    let mut v = vec![0xAAu8; total_len as usize];
    v[0..4].copy_from_slice(&total_len.to_le_bytes());
    v[4] = 3; // version marker, ignored by the decoder
    v[5] = 0; // reserved
    v[6..8].copy_from_slice(&24u16.to_le_bytes());
    v[8..16].copy_from_slice(&mask.to_le_bytes());
    v[16..20].copy_from_slice(&fd.to_le_bytes());
    v[20..24].copy_from_slice(&pid.to_le_bytes());
    v
}

#[test]
fn empty_buffer_decodes_empty() {
    let events = decode_events(&[]).unwrap();
    assert_eq!(events.len(), 0);
}

#[test]
fn short_buffer_yields_no_events() {
    // Trailing data below one header length is silently ignored.
    let buf = vec![0xFFu8; EVENT_METADATA_LEN - 1];
    let events = decode_events(&buf).unwrap();
    assert_eq!(events.len(), 0);
}

#[test]
fn single_record_decodes() {
    let buf = record(24, FAN_OPEN, 5, 1234);
    let events = decode_events(&buf).unwrap();
    assert_eq!(events.len(), 1);
    assert_eq!(events[0].mask.bits(), FAN_OPEN);
    assert_eq!(events[0].file.as_ref().unwrap().raw(), 5);
    assert_eq!(events[0].pid, 1234);
    assert!(!events[0].overflowed());
}

#[test]
fn three_records_round_trip() {
    // Three well-formed records of different lengths; the middle one
    // has an odd length, so the later headers are unaligned.
    let mut buf = record(24, FAN_OPEN, 3, 100);
    buf.extend(record(29, fanotify::flags::FAN_MODIFY, 4, 200));
    buf.extend(record(32, fanotify::flags::FAN_ACCESS, FAN_NOFD, 300));
    let events = decode_events(&buf).unwrap();
    assert_eq!(events.len(), 3);
    assert_eq!(events[0].pid, 100);
    assert_eq!(events[1].pid, 200);
    assert_eq!(events[2].pid, 300);
    assert_eq!(events[0].file.as_ref().unwrap().raw(), 3);
    assert_eq!(events[1].file.as_ref().unwrap().raw(), 4);
    assert!(events[2].file.is_none());
}

#[test]
fn trailing_record_data_is_skipped() {
    // A record longer than its header carries data the decoder does
    // not interpret; the next record still decodes.
    let mut buf = record(40, FAN_OPEN, 7, 1);
    buf.extend(record(24, FAN_OPEN, 8, 2));
    let events = decode_events(&buf).unwrap();
    assert_eq!(events.len(), 2);
    assert_eq!(events[0].file.as_ref().unwrap().raw(), 7);
    assert_eq!(events[1].file.as_ref().unwrap().raw(), 8);
}

#[test]
fn sentinel_record_has_no_file() {
    let buf = record(24, FAN_OPEN, FAN_NOFD, 42);
    let events = decode_events(&buf).unwrap();
    assert_eq!(events.len(), 1);
    assert!(events[0].file.is_none());
    assert!(events[0].overflowed());
}

#[test]
fn overflow_bit_sets_overflowed() {
    // The overflow bit alone reports overflow, descriptor or not.
    let buf = record(24, FAN_Q_OVERFLOW, 9, 42);
    let events = decode_events(&buf).unwrap();
    assert_eq!(events.len(), 1);
    assert!(events[0].file.is_some());
    assert!(events[0].overflowed());
}

#[test]
fn unknown_mask_bits_dropped() {
    let unknown = 0x8000_0000_0000_0000u64 | 0x0400;
    let buf = record(24, FAN_OPEN | unknown, 5, 7);
    let events = decode_events(&buf).unwrap();
    assert_eq!(events.len(), 1);
    assert_eq!(events[0].mask.bits(), FAN_OPEN);
    assert!(events[0].mask.contains(MaskFlags::from_bits_truncate(FAN_OPEN)));
    assert_eq!(events[0].mask.bits() & !MASK_ALL, 0);
}

#[test]
fn zero_length_record_is_error() {
    // A declared length of zero would never advance the offset.
    let mut buf = record(24, FAN_OPEN, 5, 7);
    buf[0..4].copy_from_slice(&0u32.to_le_bytes());
    assert_eq!(
        decode_events(&buf).unwrap_err(),
        DecodeError::RecordLengthTooSmall
    );
}

#[test]
fn undersized_record_length_is_error() {
    let mut buf = record(24, FAN_OPEN, 5, 7);
    buf[0..4].copy_from_slice(&16u32.to_le_bytes());
    assert_eq!(
        decode_events(&buf).unwrap_err(),
        DecodeError::RecordLengthTooSmall
    );
}

#[test]
fn record_overrun_is_error() {
    // The record declares more bytes than the buffer holds.
    let mut buf = record(24, FAN_OPEN, 5, 7);
    buf[0..4].copy_from_slice(&64u32.to_le_bytes());
    assert_eq!(
        decode_events(&buf).unwrap_err(),
        DecodeError::RecordLengthOverrunsBuffer
    );
}

#[test]
fn partial_decode_keeps_events_before_corruption() {
    let mut buf = record(24, FAN_OPEN, 11, 1);
    buf.extend(record(24, FAN_OPEN, 12, 2));
    let last = buf.len() - 24;
    buf[last..last + 4].copy_from_slice(&99u32.to_le_bytes());
    let (events, err) = decode_events_partial(&buf);
    assert_eq!(err, Some(DecodeError::RecordLengthOverrunsBuffer));
    assert_eq!(events.len(), 1);
    assert_eq!(events[0].file.as_ref().unwrap().raw(), 11);
}
