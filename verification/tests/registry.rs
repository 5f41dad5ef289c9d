//! Exercises the session registry lifecycle: create-if-absent, lookup,
//! removal, and the session values themselves.
use tftp_libs::registry::SessionRegistry;
use tftp_libs::session::{
    expected_final_block, read_block, Direction, SessionState, TftpSessionInfo, DEFAULT_RETRIES,
};

#[test]
fn new_session_is_empty() {
    let s = TftpSessionInfo::new();
    assert!(s.file_name.is_empty());
    assert!(s.mode.is_empty());
    assert!(matches!(s.direction, Direction::Get));
    assert!(matches!(s.state, SessionState::Requesting));
    assert!(s.content.is_empty());
    assert_eq!(s.byte_cursor, 0);
    assert_eq!(s.last_block_number, 0);
    assert_eq!(s.block_count, 0);
    assert_eq!(s.retries_remaining, DEFAULT_RETRIES);
}

#[test]
fn register_is_idempotent() {
    let mut registry = SessionRegistry::new();
    let mut first = TftpSessionInfo::new();
    first.file_name = b"first".to_vec();
    registry.register(7, first);

    let mut second = TftpSessionInfo::new();
    second.file_name = b"second".to_vec();
    registry.register(7, second);

    let held = registry.get_session(7).expect("the session must be tracked");
    assert_eq!(held.file_name, b"first".to_vec());
}

#[test]
fn deregister_removes_and_tolerates_absence() {
    let mut registry = SessionRegistry::new();
    registry.register(7, TftpSessionInfo::new());
    assert!(registry.get_session(7).is_some());
    registry.deregister(7);
    assert!(registry.get_session(7).is_none());
    // Removing an absent key is a no-op, not an error.
    registry.deregister(7);
    assert!(registry.get_session(7).is_none());
}

#[test]
fn sessions_are_kept_per_peer() {
    let mut registry = SessionRegistry::new();
    let mut a = TftpSessionInfo::new();
    a.file_name = b"a".to_vec();
    let mut b = TftpSessionInfo::new();
    b.file_name = b"b".to_vec();
    registry.register(1, a);
    registry.register(2, b);
    assert_eq!(registry.get_session(1).unwrap().file_name, b"a".to_vec());
    assert_eq!(registry.get_session(2).unwrap().file_name, b"b".to_vec());
    registry.deregister(1);
    assert!(registry.get_session(1).is_none());
    assert_eq!(registry.get_session(2).unwrap().file_name, b"b".to_vec());
}

#[test]
fn take_session_hands_the_value_out() {
    let mut registry = SessionRegistry::new();
    let mut s = TftpSessionInfo::new();
    s.file_name = b"mine".to_vec();
    registry.register(9, s);
    let taken = registry.take_session(9).expect("the session must be there");
    assert_eq!(taken.file_name, b"mine".to_vec());
    assert!(registry.get_session(9).is_none());
    assert!(registry.take_session(9).is_none());
}

#[test]
fn expected_final_block_values() {
    assert_eq!(expected_final_block(0), 1);
    assert_eq!(expected_final_block(1), 1);
    assert_eq!(expected_final_block(511), 1);
    assert_eq!(expected_final_block(512), 2);
    assert_eq!(expected_final_block(1000), 2);
    assert_eq!(expected_final_block(1023), 2);
    assert_eq!(expected_final_block(1024), 3);
}

#[test]
fn read_block_cuts_the_file() {
    let content: Vec<u8> = (0..1000).map(|i| (i % 251) as u8).collect();
    let b1 = read_block(&content, 1);
    let b2 = read_block(&content, 2);
    assert_eq!(b1, content[..512].to_vec());
    assert_eq!(b2, content[512..].to_vec());
    assert_eq!(b2.len(), 488);
}
