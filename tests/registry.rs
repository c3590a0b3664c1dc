use nulldm::registry::{add_utmpx_entry, drop_utmpx_entry, EntryKind, Registry, RegistryError};

#[test]
fn live_record_layout() {
    let e = add_utmpx_entry("alice", 2, 4242, 1_700_000_000_123_456).unwrap();
    assert_eq!(e.kind, EntryKind::Live);
    assert_eq!(e.pid, 4242);
    assert_eq!(&e.user[..6], b"alice\0");
    assert!(e.user[5..].iter().all(|b| *b == 0));
    assert_eq!(&e.line[..5], b"tty2\0");
    assert!(e.line[4..].iter().all(|b| *b == 0));
    assert_eq!(e.id, [b'2', 0, 0, 0]);
    assert_eq!(e.tv_sec, 1_700_000_000);
    assert_eq!(e.tv_usec, 123_456);
}

#[test]
fn long_username_is_truncated() {
    let name = "abcdefghijklmnopqrstuvwxyz0123456789";
    let e = add_utmpx_entry(name, 0, 1, 0).unwrap();
    assert_eq!(&e.user[..], &name.as_bytes()[..32]);
    assert_eq!(e.line[3], b'0');
}

#[test]
fn console_thirteen_is_rejected() {
    assert_eq!(add_utmpx_entry("alice", 13, 1, 0), Err(RegistryError::InvalidTty));
    assert_eq!(add_utmpx_entry("alice", 10, 1, 0), Err(RegistryError::InvalidTty));
    assert!(add_utmpx_entry("alice", 9, 1, 0).is_ok());
}

#[test]
fn clock_past_seconds_field_is_rejected() {
    let too_late = (i32::MAX as u128 + 1) * 1_000_000;
    assert_eq!(add_utmpx_entry("alice", 1, 1, too_late), Err(RegistryError::ClockOverflow));
    assert!(add_utmpx_entry("alice", 1, 1, too_late - 1).is_ok());
}

#[test]
fn retired_record_is_cleared() {
    let e = add_utmpx_entry("alice", 3, 77, 5_000_001).unwrap();
    let d = drop_utmpx_entry(e);
    assert_eq!(d.kind, EntryKind::Dead);
    assert_eq!(d.pid, 77);
    assert_eq!(d.id, e.id);
    assert_eq!(d.user, [0u8; 32]);
    assert_eq!(d.line, [0u8; 32]);
    assert_eq!((d.tv_sec, d.tv_usec), (0, 0));
}

#[test]
fn record_then_clear_leaves_no_live_entry() {
    let mut reg = Registry::new();
    let other = add_utmpx_entry("bob", 1, 10, 1_000_000).unwrap();
    reg.put(other);
    let e = add_utmpx_entry("alice", 2, 11, 2_000_000).unwrap();
    reg.put(e);
    assert_eq!(reg.get(&e.id), Some(e));
    reg.put(drop_utmpx_entry(e));
    let after = reg.get(&e.id).unwrap();
    assert_eq!(after.kind, EntryKind::Dead);
    assert_eq!(reg.entries.len(), 2);
    assert!(reg.entries.iter().all(|x| x.id != e.id || x.kind == EntryKind::Dead));
    assert_eq!(reg.get(&other.id), Some(other));
    assert_eq!(reg.get(&[b'7', 0, 0, 0]), None);
}
