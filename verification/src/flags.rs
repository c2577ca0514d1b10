//! Bit-set flag vocabularies of the kernel notification interface.
//!
//! Each flag group is a fixed-width integer wrapped in a small
//! boolean-algebra API: named bit constants, union, intersection and
//! containment. The numeric values are the kernel's ABI and are
//! passed through to it unmodified.

use vstd::prelude::*;

verus! {

/// Event happened on a file that was accessed (read).
pub const FAN_ACCESS: u64 = 0x0000_0001;

/// Event happened on a file that was modified (write).
pub const FAN_MODIFY: u64 = 0x0000_0002;

/// A writable file was closed.
pub const FAN_CLOSE_WRITE: u64 = 0x0000_0008;

/// A read-only file or directory was closed.
pub const FAN_CLOSE_NOWRITE: u64 = 0x0000_0010;

/// A file or directory was opened.
pub const FAN_OPEN: u64 = 0x0000_0020;

/// The event queue overflowed and events were dropped.
pub const FAN_Q_OVERFLOW: u64 = 0x0000_4000;

/// A permission to open a file was requested.
pub const FAN_OPEN_PERM: u64 = 0x0001_0000;

/// A permission to read a file was requested.
pub const FAN_ACCESS_PERM: u64 = 0x0002_0000;

/// The event concerned a child of a marked directory.
pub const FAN_EVENT_ON_CHILD: u64 = 0x0800_0000;

/// The event subject is a directory.
pub const FAN_ONDIR: u64 = 0x4000_0000;

/// A file was closed, writable or not: the union of
/// `FAN_CLOSE_WRITE` and `FAN_CLOSE_NOWRITE`.
pub const FAN_CLOSE: u64 = 0x0000_0018;

/// Union of every event-mask bit this crate knows; decoding discards
/// the rest.
pub const MASK_ALL: u64 = 0x4803_403B;

/// Set of filesystem-event flags carried by one kernel record,
/// packed into a 64-bit mask.
#[derive(Clone, Copy, PartialEq, Eq, Structural, Debug)]
pub struct MaskFlags {
    bits: u64,
}

impl MaskFlags {
    /// The underlying bit pattern.
    pub closed spec fn spec_bits(self) -> u64 {
        self.bits
    }

    /// `self` holds every flag of `other`.
    pub open spec fn spec_contains(self, other: MaskFlags) -> bool {
        self.spec_bits() & other.spec_bits() == other.spec_bits()
    }

    /// The empty flag set.
    pub fn empty() -> (r: MaskFlags)
        ensures
            r.spec_bits() == 0u64,
    {
        MaskFlags { bits: 0 }
    }

    /// Keep the bits of `bits` that name known flags and discard the
    /// rest, never rejecting unknown bits.
    pub fn from_bits_truncate(bits: u64) -> (r: MaskFlags)
        ensures
            r.spec_bits() == bits & MASK_ALL,
    {
        MaskFlags { bits: bits & MASK_ALL }
    }

    /// The underlying bit pattern.
    pub fn bits(&self) -> (r: u64)
        ensures
            r == self.spec_bits(),
    {
        self.bits
    }

    /// True when `self` holds every flag of `other`.
    pub fn contains(&self, other: MaskFlags) -> (r: bool)
        ensures
            r == self.spec_contains(other),
    {
        self.bits & other.bits == other.bits
    }

    /// The flags of `self` together with those of `other`.
    pub fn union(self, other: MaskFlags) -> (r: MaskFlags)
        ensures
            r.spec_bits() == self.spec_bits() | other.spec_bits(),
    {
        MaskFlags { bits: self.bits | other.bits }
    }

    /// The flags held by both `self` and `other`.
    pub fn intersection(self, other: MaskFlags) -> (r: MaskFlags)
        ensures
            r.spec_bits() == self.spec_bits() & other.spec_bits(),
    {
        MaskFlags { bits: self.bits & other.bits }
    }
}

/// Idempotent mask truncation: discarding unknown mask bits leaves
/// every containment query for a known flag unchanged, and
/// truncating a second time changes nothing.
pub proof fn lemma_mask_truncation(raw: u64, flag: u64)
    requires
        flag & MASK_ALL == flag,
    ensures
        (raw & MASK_ALL) & flag == raw & flag,
        (raw & MASK_ALL) & MASK_ALL == raw & MASK_ALL,
{
    assert((raw & MASK_ALL) & flag == raw & flag && (raw & MASK_ALL) & MASK_ALL == raw & MASK_ALL)
        by (bit_vector)
        requires
            flag & MASK_ALL == flag,
    ;
}

/// Receive notification-only events for this channel.
pub const FAN_CLASS_NOTIF: u32 = 0x0000_0000;

/// Receive events that allow inspecting file content.
pub const FAN_CLASS_CONTENT: u32 = 0x0000_0004;

/// Receive events that allow acting before file content is final.
pub const FAN_CLASS_PRE_CONTENT: u32 = 0x0000_0008;

/// Set the close-on-exec flag on the channel descriptor.
pub const FAN_CLOEXEC: u32 = 0x0000_0001;

/// Put the channel descriptor in non-blocking mode.
pub const FAN_NONBLOCK: u32 = 0x0000_0002;

/// Remove the limit on the length of the event queue.
pub const FAN_UNLIMITED_QUEUE: u32 = 0x0000_0010;

/// Remove the limit on the number of marks.
pub const FAN_UNLIMITED_MARKS: u32 = 0x0000_0020;

/// Set of options for creating a notification channel, packed into a
/// 32-bit mask.
#[derive(Clone, Copy, PartialEq, Eq, Structural, Debug)]
pub struct InitFlags {
    bits: u32,
}

impl InitFlags {
    /// The underlying bit pattern.
    pub closed spec fn spec_bits(self) -> u32 {
        self.bits
    }

    /// The empty flag set.
    pub fn empty() -> (r: InitFlags)
        ensures
            r.spec_bits() == 0u32,
    {
        InitFlags { bits: 0 }
    }

    /// Wrap a raw bit pattern unmodified; the kernel validates it.
    pub fn from_bits_retain(bits: u32) -> (r: InitFlags)
        ensures
            r.spec_bits() == bits,
    {
        InitFlags { bits }
    }

    /// The underlying bit pattern.
    pub fn bits(&self) -> (r: u32)
        ensures
            r == self.spec_bits(),
    {
        self.bits
    }

    /// The flags of `self` together with those of `other`.
    pub fn union(self, other: InitFlags) -> (r: InitFlags)
        ensures
            r.spec_bits() == self.spec_bits() | other.spec_bits(),
    {
        InitFlags { bits: self.bits | other.bits }
    }

    /// True when `self` holds every flag of `other`.
    pub fn contains(&self, other: InitFlags) -> (r: bool)
        ensures
            r == (self.spec_bits() & other.spec_bits() == other.spec_bits()),
    {
        self.bits & other.bits == other.bits
    }
}

/// Open the notified files read-only.
pub const O_RDONLY: u32 = 0x0000_0000;

/// Open the notified files write-only.
pub const O_WRONLY: u32 = 0x0000_0001;

/// Open the notified files for reading and writing.
pub const O_RDWR: u32 = 0x0000_0002;

/// Allow the notified files to exceed the small-file size limit.
pub const O_LARGEFILE: u32 = 0x0000_0000;

/// Set the close-on-exec flag on the notified files' descriptors.
pub const O_CLOEXEC: u32 = 0x0008_0000;

/// Set of open-mode options for the descriptors delivered with
/// events, packed into a 32-bit mask.
#[derive(Clone, Copy, PartialEq, Eq, Structural, Debug)]
pub struct EventFlags {
    bits: u32,
}

impl EventFlags {
    /// The underlying bit pattern.
    pub closed spec fn spec_bits(self) -> u32 {
        self.bits
    }

    /// The empty flag set.
    pub fn empty() -> (r: EventFlags)
        ensures
            r.spec_bits() == 0u32,
    {
        EventFlags { bits: 0 }
    }

    /// Wrap a raw bit pattern unmodified; the kernel validates it.
    pub fn from_bits_retain(bits: u32) -> (r: EventFlags)
        ensures
            r.spec_bits() == bits,
    {
        EventFlags { bits }
    }

    /// The underlying bit pattern.
    pub fn bits(&self) -> (r: u32)
        ensures
            r == self.spec_bits(),
    {
        self.bits
    }

    /// The flags of `self` together with those of `other`.
    pub fn union(self, other: EventFlags) -> (r: EventFlags)
        ensures
            r.spec_bits() == self.spec_bits() | other.spec_bits(),
    {
        EventFlags { bits: self.bits | other.bits }
    }

    /// True when `self` holds every flag of `other`.
    pub fn contains(&self, other: EventFlags) -> (r: bool)
        ensures
            r == (self.spec_bits() & other.spec_bits() == other.spec_bits()),
    {
        self.bits & other.bits == other.bits
    }
}

/// Attach a new mark.
pub const FAN_MARK_ADD: u32 = 0x0000_0001;

/// Remove an existing mark.
pub const FAN_MARK_REMOVE: u32 = 0x0000_0002;

/// Do not follow a symbolic link at the marked path.
pub const FAN_MARK_DONT_FOLLOW: u32 = 0x0000_0004;

/// Fail unless the marked path is a directory.
pub const FAN_MARK_ONLYDIR: u32 = 0x0000_0008;

/// Interpret the mask as events to ignore rather than report.
pub const FAN_MARK_IGNORED_MASK: u32 = 0x0000_0020;

/// Keep the ignore mask across modification of the marked file.
pub const FAN_MARK_IGNORED_SURV_MODIFY: u32 = 0x0000_0040;

/// Remove all marks of the chosen granularity.
pub const FAN_MARK_FLUSH: u32 = 0x0000_0080;

/// Mark a single filesystem object.
pub const FAN_MARK_INODE: u32 = 0x0000_0000;

/// Mark a whole mount point.
pub const FAN_MARK_MOUNT: u32 = 0x0000_0010;

/// Mark a whole filesystem.
pub const FAN_MARK_FILESYSTEM: u32 = 0x0000_0100;

/// Set of options for attaching, removing or flushing watches,
/// packed into a 32-bit mask.
#[derive(Clone, Copy, PartialEq, Eq, Structural, Debug)]
pub struct MarkFlags {
    bits: u32,
}

impl MarkFlags {
    /// The underlying bit pattern.
    pub closed spec fn spec_bits(self) -> u32 {
        self.bits
    }

    /// The empty flag set.
    pub fn empty() -> (r: MarkFlags)
        ensures
            r.spec_bits() == 0u32,
    {
        MarkFlags { bits: 0 }
    }

    /// Wrap a raw bit pattern unmodified; the kernel validates it.
    pub fn from_bits_retain(bits: u32) -> (r: MarkFlags)
        ensures
            r.spec_bits() == bits,
    {
        MarkFlags { bits }
    }

    /// The underlying bit pattern.
    pub fn bits(&self) -> (r: u32)
        ensures
            r == self.spec_bits(),
    {
        self.bits
    }

    /// The flags of `self` together with those of `other`.
    pub fn union(self, other: MarkFlags) -> (r: MarkFlags)
        ensures
            r.spec_bits() == self.spec_bits() | other.spec_bits(),
    {
        MarkFlags { bits: self.bits | other.bits }
    }

    /// True when `self` holds every flag of `other`.
    pub fn contains(&self, other: MarkFlags) -> (r: bool)
        ensures
            r == (self.spec_bits() & other.spec_bits() == other.spec_bits()),
    {
        self.bits & other.bits == other.bits
    }
}

} // verus!
