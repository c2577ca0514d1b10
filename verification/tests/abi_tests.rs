//! The numeric values this crate writes out as its own constants are
//! the kernel's ABI; hold each one against the values libc ships for
//! this target.

use fanotify::decode::EVENT_METADATA_LEN;
use fanotify::event::FAN_NOFD;
use fanotify::flags;
use fanotify::response;

#[test]
fn mask_constants_match_libc() {
    assert_eq!(flags::FAN_ACCESS, libc::FAN_ACCESS);
    assert_eq!(flags::FAN_MODIFY, libc::FAN_MODIFY);
    assert_eq!(flags::FAN_CLOSE_WRITE, libc::FAN_CLOSE_WRITE);
    assert_eq!(flags::FAN_CLOSE_NOWRITE, libc::FAN_CLOSE_NOWRITE);
    assert_eq!(flags::FAN_OPEN, libc::FAN_OPEN);
    assert_eq!(flags::FAN_Q_OVERFLOW, libc::FAN_Q_OVERFLOW);
    assert_eq!(flags::FAN_OPEN_PERM, libc::FAN_OPEN_PERM);
    assert_eq!(flags::FAN_ACCESS_PERM, libc::FAN_ACCESS_PERM);
    assert_eq!(flags::FAN_ONDIR, libc::FAN_ONDIR);
    assert_eq!(flags::FAN_EVENT_ON_CHILD, libc::FAN_EVENT_ON_CHILD);
    assert_eq!(flags::FAN_CLOSE, libc::FAN_CLOSE);
}

#[test]
fn mask_all_covers_exactly_the_known_bits() {
    let all = libc::FAN_ACCESS
        | libc::FAN_MODIFY
        | libc::FAN_CLOSE_WRITE
        | libc::FAN_CLOSE_NOWRITE
        | libc::FAN_OPEN
        | libc::FAN_Q_OVERFLOW
        | libc::FAN_OPEN_PERM
        | libc::FAN_ACCESS_PERM
        | libc::FAN_ONDIR
        | libc::FAN_EVENT_ON_CHILD
        | libc::FAN_CLOSE;
    assert_eq!(flags::MASK_ALL, all);
}

#[test]
fn init_constants_match_libc() {
    assert_eq!(flags::FAN_CLASS_NOTIF, libc::FAN_CLASS_NOTIF);
    assert_eq!(flags::FAN_CLASS_CONTENT, libc::FAN_CLASS_CONTENT);
    assert_eq!(flags::FAN_CLASS_PRE_CONTENT, libc::FAN_CLASS_PRE_CONTENT);
    assert_eq!(flags::FAN_CLOEXEC, libc::FAN_CLOEXEC);
    assert_eq!(flags::FAN_NONBLOCK, libc::FAN_NONBLOCK);
    assert_eq!(flags::FAN_UNLIMITED_QUEUE, libc::FAN_UNLIMITED_QUEUE);
    assert_eq!(flags::FAN_UNLIMITED_MARKS, libc::FAN_UNLIMITED_MARKS);
}

#[test]
fn event_open_constants_match_libc() {
    assert_eq!(flags::O_RDONLY, libc::O_RDONLY as u32);
    assert_eq!(flags::O_WRONLY, libc::O_WRONLY as u32);
    assert_eq!(flags::O_RDWR, libc::O_RDWR as u32);
    assert_eq!(flags::O_LARGEFILE, libc::O_LARGEFILE as u32);
    assert_eq!(flags::O_CLOEXEC, libc::O_CLOEXEC as u32);
}

#[test]
fn mark_constants_match_libc() {
    assert_eq!(flags::FAN_MARK_ADD, libc::FAN_MARK_ADD);
    assert_eq!(flags::FAN_MARK_REMOVE, libc::FAN_MARK_REMOVE);
    assert_eq!(flags::FAN_MARK_DONT_FOLLOW, libc::FAN_MARK_DONT_FOLLOW);
    assert_eq!(flags::FAN_MARK_ONLYDIR, libc::FAN_MARK_ONLYDIR);
    assert_eq!(flags::FAN_MARK_IGNORED_MASK, libc::FAN_MARK_IGNORED_MASK);
    assert_eq!(
        flags::FAN_MARK_IGNORED_SURV_MODIFY,
        libc::FAN_MARK_IGNORED_SURV_MODIFY
    );
    assert_eq!(flags::FAN_MARK_FLUSH, libc::FAN_MARK_FLUSH);
    assert_eq!(flags::FAN_MARK_INODE, libc::FAN_MARK_INODE);
    assert_eq!(flags::FAN_MARK_MOUNT, libc::FAN_MARK_MOUNT);
    assert_eq!(flags::FAN_MARK_FILESYSTEM, libc::FAN_MARK_FILESYSTEM);
}

#[test]
fn response_constants_match_libc() {
    assert_eq!(response::FAN_ALLOW, libc::FAN_ALLOW);
    assert_eq!(response::FAN_DENY, libc::FAN_DENY);
    assert_eq!(FAN_NOFD, libc::FAN_NOFD);
}

#[test]
fn header_length_matches_libc_layout() {
    assert_eq!(
        EVENT_METADATA_LEN,
        std::mem::size_of::<libc::fanotify_event_metadata>()
    );
}
