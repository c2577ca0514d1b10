//! Decoded filesystem events and the owned descriptors they carry.

use vstd::prelude::*;

use crate::flags::FAN_Q_OVERFLOW;
use crate::flags::MaskFlags;

verus! {

/// Reserved descriptor value meaning "no descriptor accompanies this
/// record"; the kernel sends it for overflow records and for marks
/// configured without a directory-descriptor class.
pub const FAN_NOFD: i32 = -1;

/// An open kernel descriptor whose ownership the decoder transferred
/// to the caller. The caller must eventually release it exactly once:
/// it counts against the process descriptor limit until closed. This
/// crate only carries the numeric value; the host environment turns
/// it into a closable handle.
#[derive(Debug)]
pub struct EventFd {
    raw: i32,
}

impl EventFd {
    /// The descriptor value.
    pub closed spec fn spec_raw(self) -> i32 {
        self.raw
    }

    /// Take ownership of an open descriptor value. The sentinel is
    /// not a descriptor and may not be wrapped.
    pub fn from_raw(raw: i32) -> (r: EventFd)
        requires
            raw != FAN_NOFD,
        ensures
            r.spec_raw() == raw,
    {
        EventFd { raw }
    }

    /// The descriptor value, without giving up ownership.
    pub fn raw(&self) -> (r: i32)
        ensures
            r == self.spec_raw(),
    {
        self.raw
    }

    /// Consume the handle and hand the descriptor value to the
    /// caller, who becomes responsible for closing it.
    pub fn into_raw(self) -> (r: i32)
        ensures
            r == self.spec_raw(),
    {
        self.raw
    }
}

/// Mathematical image of one decoded event: the truncated mask bits,
/// the descriptor value if one was delivered, and the originating
/// process id.
pub ghost struct EventModel {
    pub mask: u64,
    pub fd: Option<i32>,
    pub pid: i32,
}

/// The event signals queue overflow: either its mask carries the
/// overflow bit, or it arrived without a usable descriptor.
pub open spec fn spec_overflowed(m: EventModel) -> bool {
    m.fd is None || m.mask & FAN_Q_OVERFLOW != 0
}

/// One filesystem event delivered by the kernel: an event mask, an
/// optional owned descriptor for the file concerned, and the id of
/// the process that triggered the event.
#[derive(Debug)]
pub struct FanotifyEvent {
    /// Flags describing what happened.
    pub mask: MaskFlags,
    /// The file concerned, absent exactly when the kernel supplied
    /// the reserved "no descriptor" sentinel for this record.
    pub file: Option<EventFd>,
    /// Id of the process that triggered the event.
    pub pid: i32,
}

impl View for FanotifyEvent {
    type V = EventModel;

    open spec fn view(&self) -> EventModel {
        EventModel {
            mask: self.mask.spec_bits(),
            fd: match self.file {
                Some(f) => Some(f.spec_raw()),
                None => None,
            },
            pid: self.pid,
        }
    }
}

impl FanotifyEvent {
    /// True when this event signals that the kernel dropped records
    /// due to backpressure: its mask carries the overflow bit, or it
    /// arrived without a usable descriptor. Callers poll this to
    /// detect lost events and must not assume every event has a file.
    pub fn overflowed(&self) -> (r: bool)
        ensures
            r == spec_overflowed(self@),
    {
        let overflow_flag = MaskFlags::from_bits_truncate(FAN_Q_OVERFLOW);
        proof {
            assert(FAN_Q_OVERFLOW & crate::flags::MASK_ALL == FAN_Q_OVERFLOW) by (bit_vector);
        }
        let has_bit = self.mask.contains(overflow_flag);
        proof {
            let b = self.mask.spec_bits();
            assert((b & FAN_Q_OVERFLOW == FAN_Q_OVERFLOW) == (b & FAN_Q_OVERFLOW != 0))
                by (bit_vector);
        }
        self.file.is_none() || has_bit
    }
}

} // verus!
