//! Decoder for the kernel's packed stream of event records.
//!
//! A read from the notification channel returns zero or more whole
//! records packed contiguously, each framed by a self-describing
//! total-length field and beginning with a fixed-size header: total
//! length, version marker, header length, a 64-bit event mask, a
//! signed 32-bit descriptor (or the "no descriptor" sentinel) and a
//! signed 32-bit process id. Records may carry trailing data beyond
//! the header, which the decoder skips; record boundaries carry no
//! alignment guarantee.

use vstd::prelude::*;

use crate::event::EventFd;
use crate::event::EventModel;
use crate::event::FAN_NOFD;
use crate::event::FanotifyEvent;
use crate::flags::MASK_ALL;
use crate::flags::MaskFlags;
use crate::wire::spec_i32_at;
use crate::wire::spec_u32_at;
use crate::wire::spec_u64_at;
use crate::wire::i32_at;
use crate::wire::u32_at;
use crate::wire::u64_at;

verus! {

/// Number of bytes in one record header.
pub const EVENT_METADATA_LEN: usize = 24;

/// A malformed record stream. Decoding stops at the offending record;
/// against a correct kernel neither case occurs, so a caller should
/// treat the channel as desynchronized rather than retry.
#[derive(Clone, Copy, PartialEq, Eq, Structural, Debug)]
pub enum DecodeError {
    /// A record declared a total length shorter than one header, so
    /// the stream cannot advance past it.
    RecordLengthTooSmall,
    /// A record declared a total length running past the end of the
    /// buffer.
    RecordLengthOverrunsBuffer,
}

/// The total length the record at offset `i` declares for itself.
pub open spec fn spec_record_len(b: Seq<u8>, i: int) -> int
    recommends
        0 <= i,
        i + 4 <= b.len(),
{
    spec_u32_at(b, i) as int
}

/// The event described by the record header at offset `i`: the mask
/// truncated to the known bits, the descriptor unless it is the
/// sentinel, and the process id.
pub open spec fn spec_event_at(b: Seq<u8>, i: int) -> EventModel
    recommends
        0 <= i,
        i + EVENT_METADATA_LEN <= b.len(),
{
    EventModel {
        mask: spec_u64_at(b, i + 8) & MASK_ALL,
        fd: if spec_i32_at(b, i + 16) == FAN_NOFD {
            None
        } else {
            Some(spec_i32_at(b, i + 16))
        },
        pid: spec_i32_at(b, i + 20),
    }
}

/// The events encoded in `b` from offset `i` on, in delivery order,
/// paired with the error that stopped decoding, if any.
///
/// While at least one header fits in the remaining bytes, one event
/// is taken from the record at the current offset, and the offset
/// advances by the record's declared total length; remaining bytes
/// shorter than one header are ignored. A declared length shorter
/// than one header or running past the end of the buffer is a fatal
/// decode error: the events before the offending record are kept and
/// the corrupt remainder is discarded.
pub open spec fn spec_decode_from(b: Seq<u8>, i: int) -> (Seq<EventModel>, Option<DecodeError>)
    recommends
        0 <= i <= b.len(),
    decreases b.len() - i,
    when 0 <= i <= b.len()
{
    if b.len() - i < EVENT_METADATA_LEN {
        (Seq::empty(), None)
    } else {
        let len = spec_record_len(b, i);
        if len < EVENT_METADATA_LEN {
            (Seq::empty(), Some(DecodeError::RecordLengthTooSmall))
        } else if i + len > b.len() {
            (Seq::empty(), Some(DecodeError::RecordLengthOverrunsBuffer))
        } else {
            let rest = spec_decode_from(b, i + len);
            (seq![spec_event_at(b, i)] + rest.0, rest.1)
        }
    }
}

/// The events encoded in the whole of `b`, in delivery order, paired
/// with the error that stopped decoding, if any.
pub open spec fn spec_decode(b: Seq<u8>) -> (Seq<EventModel>, Option<DecodeError>) {
    spec_decode_from(b, 0)
}

/// The models of the decoded events, in order.
pub open spec fn spec_models_of(events: Seq<FanotifyEvent>) -> Seq<EventModel> {
    events.map_values(|e: FanotifyEvent| e@)
}

/// Decode one buffer read from the notification channel into the
/// sequence of events it carries, in delivery order.
///
/// Every non-sentinel descriptor in the buffer becomes a live,
/// caller-owned handle. On a malformed stream the error names the
/// offending record; a caller that must not leak the descriptors of
/// the events decoded before the corrupt remainder uses
/// [`decode_events_partial`], which returns those events as well.
pub fn decode_events(buf: &[u8]) -> (r: Result<Vec<FanotifyEvent>, DecodeError>)
    ensures
        r is Ok <==> spec_decode(buf@).1 is None,
        match r {
            Ok(events) => spec_models_of(events@) == spec_decode(buf@).0,
            Err(e) => spec_decode(buf@).1 == Some(e),
        },
{
    let (events, err) = decode_events_partial(buf);
    match err {
        None => Ok(events),
        Some(e) => Err(e),
    }
}

/// Decode as [`decode_events`] does, but on a malformed stream also
/// hand back the events decoded before the offending record, so that
/// the descriptors already taken from the buffer are not leaked; only
/// the corrupt trailing remainder is discarded.
pub fn decode_events_partial(buf: &[u8]) -> (r: (Vec<FanotifyEvent>, Option<DecodeError>))
    ensures
        spec_models_of(r.0@) == spec_decode(buf@).0,
        r.1 == spec_decode(buf@).1,
{
    let n: usize = buf.len();
    let mut events: Vec<FanotifyEvent> = Vec::new();
    let mut offset: usize = 0;
    while n - offset >= EVENT_METADATA_LEN
        invariant
            offset <= n,
            n == buf@.len(),
            spec_decode(buf@).0 =~= spec_models_of(events@) + spec_decode_from(
                buf@,
                offset as int,
            ).0,
            spec_decode(buf@).1 == spec_decode_from(buf@, offset as int).1,
        decreases n - offset,
    {
        let len32: u32 = u32_at(buf, offset);
        let len: usize = len32 as usize;
        if len < EVENT_METADATA_LEN {
            proof {
                assert(spec_models_of(events@) + Seq::<EventModel>::empty() =~= spec_models_of(
                    events@,
                ));
            }
            return (events, Some(DecodeError::RecordLengthTooSmall));
        }
        if len > n - offset {
            proof {
                assert(spec_models_of(events@) + Seq::<EventModel>::empty() =~= spec_models_of(
                    events@,
                ));
            }
            return (events, Some(DecodeError::RecordLengthOverrunsBuffer));
        }
        let mask_raw: u64 = u64_at(buf, offset + 8);
        let fd: i32 = i32_at(buf, offset + 16);
        let pid: i32 = i32_at(buf, offset + 20);
        let file: Option<EventFd> = if fd == FAN_NOFD {
            None
        } else {
            Some(EventFd::from_raw(fd))
        };
        let ev = FanotifyEvent { mask: MaskFlags::from_bits_truncate(mask_raw), file, pid };
        proof {
            assert(ev@ == spec_event_at(buf@, offset as int));
        }
        let ghost old_events = events@;
        let ghost old_offset = offset as int;
        events.push(ev);
        offset = offset + len;
        proof {
            assert(spec_decode_from(buf@, old_offset).0 == seq![spec_event_at(buf@, old_offset)]
                + spec_decode_from(buf@, offset as int).0);
            assert(spec_models_of(old_events) + (seq![ev@] + spec_decode_from(
                buf@,
                offset as int,
            ).0) =~= spec_models_of(events@) + spec_decode_from(buf@, offset as int).0);
        }
    }
    proof {
        assert(spec_models_of(events@) + Seq::<EventModel>::empty() =~= spec_models_of(events@));
    }
    (events, None)
}

/// A well-formed record: long enough to hold one header, and
/// declaring its own exact length in its total-length field.
pub open spec fn spec_wf_record(r: Seq<u8>) -> bool {
    r.len() >= EVENT_METADATA_LEN && spec_record_len(r, 0) == r.len()
}

/// The records of `rs` packed contiguously, with no padding.
pub open spec fn spec_concat_records(rs: Seq<Seq<u8>>) -> Seq<u8>
    decreases rs.len(),
{
    if rs.len() == 0 {
        Seq::empty()
    } else {
        rs[0] + spec_concat_records(rs.skip(1))
    }
}

/// A header read lying inside the prefix of a concatenation sees
/// only the prefix.
proof fn lemma_event_at_prefix(s: Seq<u8>, t: Seq<u8>, i: int)
    requires
        0 <= i,
        i + EVENT_METADATA_LEN <= s.len(),
    ensures
        spec_event_at(s + t, i) == spec_event_at(s, i),
{
    crate::wire::lemma_u64_at_prefix(s, t, i + 8);
    crate::wire::lemma_u32_at_prefix(s, t, i + 16);
    crate::wire::lemma_u32_at_prefix(s, t, i + 20);
}

/// A header read lying inside the suffix of a concatenation sees
/// only the suffix, shifted by the prefix length.
proof fn lemma_event_at_shift(s: Seq<u8>, t: Seq<u8>, i: int)
    requires
        0 <= i,
        i + EVENT_METADATA_LEN <= t.len(),
    ensures
        spec_event_at(s + t, s.len() + i) == spec_event_at(t, i),
{
    crate::wire::lemma_u64_at_shift(s, t, i + 8);
    crate::wire::lemma_u32_at_shift(s, t, i + 16);
    crate::wire::lemma_u32_at_shift(s, t, i + 20);
    assert(s.len() + (i + 8) == (s.len() + i) + 8);
    assert(s.len() + (i + 16) == (s.len() + i) + 16);
    assert(s.len() + (i + 20) == (s.len() + i) + 20);
}

/// Decoding a suffix of a concatenation is decoding the suffix alone:
/// the bytes before it play no part.
proof fn lemma_decode_from_shift(s: Seq<u8>, t: Seq<u8>, i: int)
    requires
        0 <= i <= t.len(),
    ensures
        spec_decode_from(s + t, s.len() + i) == spec_decode_from(t, i),
    decreases t.len() - i,
{
    let b = s + t;
    if t.len() - i < EVENT_METADATA_LEN {
        assert(b.len() - (s.len() + i) < EVENT_METADATA_LEN);
    } else {
        crate::wire::lemma_u32_at_shift(s, t, i);
        let len = spec_record_len(t, i);
        if len < EVENT_METADATA_LEN {
        } else if i + len > t.len() {
            assert(s.len() + i + len > b.len());
        } else {
            lemma_event_at_shift(s, t, i);
            lemma_decode_from_shift(s, t, i + len);
            assert(s.len() + (i + len) == (s.len() + i) + len);
        }
    }
}

/// Round-trip framing: a buffer that is exactly `k` well-formed
/// records packed contiguously decodes without error to exactly `k`
/// events, in the original record order, the `k`-th event read from
/// the `k`-th record's header.
pub proof fn lemma_round_trip_framing(rs: Seq<Seq<u8>>)
    requires
        forall|k: int| 0 <= k < rs.len() ==> spec_wf_record(#[trigger] rs[k]),
    ensures
        spec_decode(spec_concat_records(rs)).1 is None,
        spec_decode(spec_concat_records(rs)).0 == Seq::new(
            rs.len(),
            |k: int| spec_event_at(rs[k], 0),
        ),
    decreases rs.len(),
{
    let b = spec_concat_records(rs);
    let expected = Seq::new(rs.len(), |k: int| spec_event_at(rs[k], 0));
    if rs.len() == 0 {
        assert(b.len() == 0);
        assert(spec_decode(b).0 =~= expected);
    } else {
        let head = rs[0];
        let tail = spec_concat_records(rs.skip(1));
        assert(spec_wf_record(head));
        assert(b == head + tail);
        assert(b.len() - 0 >= EVENT_METADATA_LEN);
        crate::wire::lemma_u32_at_prefix(head, tail, 0);
        assert(spec_record_len(b, 0) == head.len());
        lemma_event_at_prefix(head, tail, 0);
        lemma_decode_from_shift(head, tail, 0);
        assert(spec_decode_from(b, head.len() as int) == spec_decode_from(tail, 0));
        assert(forall|k: int|
            0 <= k < rs.skip(1).len() ==> spec_wf_record(#[trigger] rs.skip(1)[k]));
        lemma_round_trip_framing(rs.skip(1));
        let rest = Seq::new(rs.skip(1).len(), |k: int| spec_event_at(rs.skip(1)[k], 0));
        assert(spec_decode_from(b, 0).0 == seq![spec_event_at(head, 0)] + rest);
        assert(seq![spec_event_at(head, 0)] + rest =~= expected);
    }
}

/// Sentinel handling: a record whose descriptor field holds the
/// reserved "no descriptor" value decodes to an event with no file
/// handle, and that event reports overflow.
pub proof fn lemma_sentinel_record(b: Seq<u8>, i: int)
    requires
        0 <= i,
        i + EVENT_METADATA_LEN <= b.len(),
        spec_i32_at(b, i + 16) == FAN_NOFD,
    ensures
        spec_event_at(b, i).fd is None,
        crate::event::spec_overflowed(spec_event_at(b, i)),
{
}

/// A decoded event never carries the sentinel as a live descriptor:
/// the descriptor is absent exactly when the record's descriptor
/// field held the sentinel, and otherwise it is that field's value.
pub proof fn lemma_fd_absent_iff_sentinel(b: Seq<u8>, i: int)
    requires
        0 <= i,
        i + EVENT_METADATA_LEN <= b.len(),
    ensures
        spec_event_at(b, i).fd is None <==> spec_i32_at(b, i + 16) == FAN_NOFD,
        spec_i32_at(b, i + 16) != FAN_NOFD ==> spec_event_at(b, i).fd == Some(
            spec_i32_at(b, i + 16),
        ),
{
}

/// Overflow detection: a record whose mask field carries the
/// overflow bit decodes to an event that reports overflow, whether
/// or not a descriptor accompanies it.
pub proof fn lemma_overflow_bit(b: Seq<u8>, i: int)
    requires
        0 <= i,
        i + EVENT_METADATA_LEN <= b.len(),
        spec_u64_at(b, i + 8) & crate::flags::FAN_Q_OVERFLOW != 0,
    ensures
        crate::event::spec_overflowed(spec_event_at(b, i)),
{
    let m = spec_u64_at(b, i + 8);
    assert((m & MASK_ALL) & crate::flags::FAN_Q_OVERFLOW != 0) by (bit_vector)
        requires
            m & crate::flags::FAN_Q_OVERFLOW != 0,
    ;
}

/// Truncation tolerance: a buffer shorter than one header, the empty
/// buffer included, decodes to no events and no error.
pub proof fn lemma_short_buffer(b: Seq<u8>)
    requires
        b.len() < EVENT_METADATA_LEN,
    ensures
        spec_decode(b).0 == Seq::<EventModel>::empty(),
        spec_decode(b).1 is None,
{
}

/// Truncation rejection: a record declaring a length shorter than
/// one header, zero included, is a fatal decode error at its offset,
/// never an endless loop over a record that cannot advance.
pub proof fn lemma_record_too_small(b: Seq<u8>, i: int)
    requires
        0 <= i <= b.len(),
        b.len() - i >= EVENT_METADATA_LEN,
        spec_record_len(b, i) < EVENT_METADATA_LEN,
    ensures
        spec_decode_from(b, i).1 == Some(DecodeError::RecordLengthTooSmall),
        spec_decode_from(b, i).0 == Seq::<EventModel>::empty(),
{
}

/// Truncation rejection: a record declaring a length past the end
/// of the buffer is a fatal decode error at its offset, never a
/// read out of bounds.
pub proof fn lemma_record_overrun(b: Seq<u8>, i: int)
    requires
        0 <= i <= b.len(),
        b.len() - i >= EVENT_METADATA_LEN,
        spec_record_len(b, i) >= EVENT_METADATA_LEN,
        i + spec_record_len(b, i) > b.len(),
    ensures
        spec_decode_from(b, i).1 == Some(DecodeError::RecordLengthOverrunsBuffer),
        spec_decode_from(b, i).0 == Seq::<EventModel>::empty(),
{
}

} // verus!
