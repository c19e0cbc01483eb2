use seele_syscalls::error::SyscallError;
use seele_syscalls::keyring::{
    bytes_equal, contains_serial, copy_bytes, copy_keyctl_bytes_to_user, copy_serials,
    current_process_keyring, current_session_keyring, current_thread_keyring,
    current_user_keyring, ensure_keyring_entry, key_user_payload_bytes, keyctl_key_serial,
    keyctl_keyring_serial, keyctl_unlink_target, keyring_type_bytes, links_without,
    read_keyctl_iovec_payload, resolve_existing_keyring, resolve_key_serial, resolve_keyring,
    serial_list_bytes, KeyEntry, KeyQuotaLimits, KeyRegistry, KeySerials, KeyctlCopy,
    KeyctlIovec, KeyringState, ProcessKeyrings, UserKeyringKind, KEY_SPEC_PROCESS_KEYRING,
    KEY_SPEC_SESSION_KEYRING, KEY_SPEC_THREAD_KEYRING, KEY_SPEC_USER_KEYRING,
    KEY_SPEC_USER_SESSION_KEYRING, KEY_USER_DEFAULT_MAX_BYTES, KEY_USER_DEFAULT_MAX_KEYS,
};

fn registry_with_keyring_and_key() -> KeyRegistry {
    let mut registry = KeyRegistry::new();
    registry.ensure_keyring_entry_with_owner(1, b"_ses", 0, 0);
    registry.ensure_key_entry(1024, b"user", b"demo", b"secret".to_vec(), 0, 0);
    registry
}

fn process() -> ProcessKeyrings {
    ProcessKeyrings {
        thread_keyring: 0,
        process_keyring: 0,
        session_keyring: 0,
        effective_uid: 1000,
        effective_gid: 100,
    }
}

#[test]
fn key_user_quota_proc_format_matches_linux() {
    let mut registry = KeyRegistry::new();
    let uid = 60_001;
    let mut expected_bytes = 0usize;
    for index in 0..KEY_USER_DEFAULT_MAX_KEYS {
        let description = format!("abc{index}");
        expected_bytes += description.len() + 1 + 64;
        assert_eq!(registry.reserve_user_key_quota(uid, description.as_bytes(), 64), Ok(()));
    }
    let text = String::from_utf8(registry.proc_key_users_bytes()).unwrap();
    let line = text
        .lines()
        .find(|line| line.trim_start().starts_with(&format!("{uid}:")))
        .unwrap();
    let fields = line.split_whitespace().collect::<Vec<_>>();
    assert_eq!(fields[0], format!("{uid}:"));
    assert_eq!(fields[1], "0");
    assert_eq!(fields[3], format!("{0}/{0}", KEY_USER_DEFAULT_MAX_KEYS));
    assert_eq!(fields[4], format!("{expected_bytes}/{KEY_USER_DEFAULT_MAX_BYTES}"));
    assert_eq!(
        registry.reserve_user_key_quota(uid, b"overflow", 64),
        Err(SyscallError::QuotaExceeded)
    );

    let bytes_uid = uid + 1;
    assert_eq!(
        registry.reserve_user_key_quota(bytes_uid, b"near_limit", KEY_USER_DEFAULT_MAX_BYTES - 11),
        Ok(())
    );
    assert_eq!(registry.reserve_user_key_quota(bytes_uid, b"x", 0), Err(SyscallError::QuotaExceeded));
}

#[test]
fn proc_key_users_lines_are_sorted_and_padded() {
    let mut registry = KeyRegistry::new();
    assert_eq!(registry.reserve_user_key_quota(7, b"ab", 3), Ok(()));
    assert_eq!(registry.reserve_user_key_quota(0, b"k", 1), Ok(()));
    let text = String::from_utf8(registry.proc_key_users_bytes()).unwrap();
    assert_eq!(
        text,
        "    0:     0 1/1 1/1000000 3/25000000\n    7:     0 1/1 1/200 6/200000\n"
    );
}

#[test]
fn release_gives_back_a_reserved_charge() {
    let mut registry = KeyRegistry::new();
    assert_eq!(registry.reserve_user_key_quota(5, b"key", 10), Ok(()));
    assert_eq!(registry.quotas.get(&5).map(|q| (q.keys, q.bytes)), Some((1, 14)));
    let mut entry = KeyEntry::empty();
    entry.uid = 5;
    entry.quota_bytes = 14;
    registry.release_key_quota(&entry);
    assert_eq!(registry.quotas.get(&5).map(|q| (q.keys, q.bytes)), Some((0, 0)));
    assert_eq!(key_user_payload_bytes(b"key", 10), 14);
    assert_eq!(key_user_payload_bytes(b"key", usize::MAX), usize::MAX);
    let limits = KeyQuotaLimits::defaults();
    assert_eq!(limits.limits(0), (1_000_000, 25_000_000));
    assert_eq!(limits.limits(1), (200, 200_000));
}

#[test]
fn a_revoked_key_can_no_longer_be_linked() {
    let mut registry = registry_with_keyring_and_key();
    assert_eq!(registry.link_key_into_keyring(1024, 1), Ok(()));
    assert_eq!(registry.entries.get(&1).unwrap().links, vec![1024]);
    assert_eq!(registry.revoke_key(1024), Ok(()));
    assert!(registry.entries.get(&1024).is_none());
    assert!(registry.entries.get(&1).unwrap().links.is_empty());
    assert_eq!(registry.link_key_into_keyring(1024, 1), Err(SyscallError::NoKey));
    assert_eq!(registry.revoke_key(1024), Err(SyscallError::NoKey));
}

#[test]
fn a_revoked_keyring_stays_but_refuses_links() {
    let mut registry = registry_with_keyring_and_key();
    assert_eq!(registry.link_key_into_keyring(1024, 1), Ok(()));
    assert_eq!(registry.revoke_key(1), Ok(()));
    let keyring = registry.entries.get(&1).unwrap();
    assert!(keyring.revoked);
    assert!(keyring.links.is_empty());
    assert!(!registry.keyring_exists(1));
    assert_eq!(registry.link_key_into_keyring(1024, 1), Err(SyscallError::NoKey));
    assert_eq!(registry.set_key_permissions(1, 0), Err(SyscallError::KeyRevoked));
    assert_eq!(registry.chown_key(1, 1, 1), Err(SyscallError::KeyRevoked));
    assert_eq!(registry.clear_keyring(1), Err(SyscallError::KeyRevoked));
}

#[test]
fn search_finds_a_linked_key_and_reports_why_not() {
    let mut registry = registry_with_keyring_and_key();
    assert_eq!(registry.search_keyring(1, b"user", b"demo", 0), Err(SyscallError::NoKey));
    assert_eq!(registry.link_key_into_keyring(1024, 1), Ok(()));
    assert_eq!(registry.search_keyring(1, b"user", b"demo", 0), Ok(1024));
    assert_eq!(registry.search_keyring(1, b"user", b"other", 0), Err(SyscallError::NoKey));
    assert_eq!(registry.search_keyring(1024, b"user", b"demo", 0), Err(SyscallError::InvalidArguments));
    assert_eq!(registry.search_keyring(5, b"user", b"demo", 0), Err(SyscallError::NoKey));
    assert_eq!(registry.set_key_timeout(1024, 10, 100), Ok(()));
    assert_eq!(registry.search_keyring(1, b"user", b"demo", 109), Ok(1024));
    // The search itself does not look at a linked key's expiry; using the key does.
    assert_eq!(registry.search_keyring(1, b"user", b"demo", 110), Ok(1024));
    assert_eq!(registry.get_live_key(1024, 110).map(|e| e.uid), Err(SyscallError::KeyExpired));
    assert_eq!(registry.set_key_timeout(1, 5, 100), Ok(()));
    assert_eq!(registry.search_keyring(1, b"user", b"demo", 105), Err(SyscallError::KeyExpired));
}

#[test]
fn linking_a_same_named_key_replaces_the_old_one() {
    let mut registry = registry_with_keyring_and_key();
    registry.ensure_key_entry(1025, b"user", b"demo", b"newer".to_vec(), 0, 0);
    assert_eq!(registry.link_key_into_keyring(1024, 1), Ok(()));
    assert_eq!(registry.link_key_into_keyring(1025, 1), Ok(()));
    assert!(registry.entries.get(&1024).is_none());
    assert_eq!(registry.entries.get(&1).unwrap().links, vec![1025]);
    assert_eq!(registry.search_keyring(1, b"user", b"demo", 0), Ok(1025));
    assert_eq!(registry.link_key_into_keyring(1025, 1), Ok(()));
    assert_eq!(registry.entries.get(&1).unwrap().links, vec![1025]);
}

#[test]
fn unlink_and_clear() {
    let mut registry = registry_with_keyring_and_key();
    assert_eq!(registry.link_key_into_keyring(1024, 1), Ok(()));
    assert_eq!(registry.unlink_key_from_keyring(1024, 1), Ok(()));
    assert!(registry.entries.get(&1).unwrap().links.is_empty());
    assert_eq!(registry.unlink_key_from_keyring(1024, 1024), Err(SyscallError::InvalidArguments));
    assert_eq!(registry.unlink_key_from_keyring(9, 1), Err(SyscallError::NoKey));
    assert_eq!(registry.link_key_into_keyring(1024, 1), Ok(()));
    assert_eq!(registry.clear_keyring(1), Ok(()));
    assert!(registry.entries.get(&1).unwrap().links.is_empty());
    assert_eq!(registry.clear_keyring(1024), Err(SyscallError::InvalidArguments));
    assert_eq!(registry.clear_keyring(77), Err(SyscallError::NoKey));
}

#[test]
fn describe_and_read() {
    let mut registry = registry_with_keyring_and_key();
    assert_eq!(registry.describe_key(1024, 0), Ok(b"user;0;0;3f3f0000;demo".to_vec()));
    assert_eq!(registry.set_key_permissions(1024, 0x0101_0000), Ok(()));
    assert_eq!(registry.chown_key(1024, 1000, 100), Ok(()));
    assert_eq!(registry.describe_key(1024, 0), Ok(b"user;1000;100;01010000;demo".to_vec()));
    assert_eq!(registry.read_key(1024, 0), Ok(b"secret".to_vec()));
    assert_eq!(registry.link_key_into_keyring(1024, 1), Ok(()));
    assert_eq!(registry.read_key(1, 0), Ok(vec![0x00, 0x04, 0x00, 0x00]));
    assert_eq!(registry.describe_key(3, 0), Err(SyscallError::NoKey));
    assert_eq!(registry.keyring_allows_write(1, 0), Ok(true));
    assert_eq!(registry.keyring_allows_write(1024, 0), Err(SyscallError::InvalidArguments));
    assert_eq!(registry.invalidate_key(1024), Ok(()));
    assert_eq!(registry.read_key(1024, 0), Err(SyscallError::NoKey));
    assert_eq!(registry.invalidate_key(1024), Err(SyscallError::NoKey));
}

#[test]
fn negative_keys_are_not_usable() {
    let mut registry = KeyRegistry::new();
    registry.ensure_negative_key_entry(2000, b"user", b"missing", 0, 0);
    assert_eq!(registry.get_live_key(2000, 0).map(|e| e.uid), Err(SyscallError::NoKey));
    assert_eq!(registry.describe_key(2000, 0), Err(SyscallError::NoKey));
}

#[test]
fn user_key_updates_respect_payload_and_quota() {
    let mut registry = KeyRegistry::new();
    registry.ensure_key_entry(1024, b"user", b"demo", b"x".to_vec(), 1000, 100);
    assert_eq!(registry.update_key_payload(1024, b"abc".to_vec()), Ok(()));
    assert_eq!(registry.read_key(1024, 0), Ok(b"abc".to_vec()));
    assert_eq!(registry.entries.get(&1024).unwrap().quota_bytes, 8);
    assert_eq!(registry.update_key_payload(1024, vec![0; 32_768]), Err(SyscallError::InvalidArguments));
    assert_eq!(registry.update_key_payload(1024, vec![0; 32_767]), Ok(()));
    assert_eq!(registry.update_key_payload(99, vec![]), Err(SyscallError::NoKey));
    registry.ensure_keyring_entry_with_owner(1, b"ring", 0, 0);
    assert_eq!(registry.update_key_payload(1, vec![]), Err(SyscallError::InvalidArguments));
}

#[test]
fn serials_count_up() {
    let mut serials = KeySerials::new();
    assert_eq!(serials.next_keyring_id(), 1);
    assert_eq!(serials.next_keyring_id(), 2);
    assert_eq!(serials.next_key_serial(), 1024);
    assert_eq!(serials.next_key_serial(), 1025);
}

#[test]
fn process_keyrings_are_created_on_demand() {
    let mut state = KeyringState::new();
    let mut p = process();
    assert_eq!(current_thread_keyring(&mut state, &mut p, false), Err(SyscallError::NoData));
    assert_eq!(current_thread_keyring(&mut state, &mut p, true), Ok(1));
    assert_eq!(p.thread_keyring, 1);
    assert_eq!(current_thread_keyring(&mut state, &mut p, true), Ok(1));
    assert_eq!(current_process_keyring(&mut state, &mut p, true), Ok(2));
    assert_eq!(current_session_keyring(&mut state, &mut p, true), Ok(3));
    let ring = state.registry.entries.get(&2).unwrap();
    assert!(ring.is_keyring);
    assert_eq!((ring.uid, ring.gid), (1000, 100));
    assert_eq!(ring.key_type, b"keyring".to_vec());
    assert_eq!(
        current_user_keyring(&mut state, 1000, 100, UserKeyringKind::User, false),
        Err(SyscallError::NoData)
    );
    let user = current_user_keyring(&mut state, 1000, 100, UserKeyringKind::User, true).unwrap();
    let user_session = current_user_keyring(&mut state, 1000, 100, UserKeyringKind::UserSession, true).unwrap();
    assert_ne!(user, user_session);
    assert_eq!(current_user_keyring(&mut state, 1000, 100, UserKeyringKind::User, false), Ok(user));
}

#[test]
fn special_serials_resolve_to_the_callers_keyrings() {
    let mut state = KeyringState::new();
    let mut p = process();
    assert_eq!(resolve_keyring(&mut state, &mut p, KEY_SPEC_USER_KEYRING, false), Err(SyscallError::NoData));
    let session = resolve_keyring(&mut state, &mut p, KEY_SPEC_SESSION_KEYRING, true).unwrap();
    assert_eq!(resolve_keyring(&mut state, &mut p, KEY_SPEC_SESSION_KEYRING, false), Ok(session));
    let thread = resolve_key_serial(&mut state, &mut p, KEY_SPEC_THREAD_KEYRING).unwrap();
    assert_ne!(thread, session);
    assert_eq!(resolve_key_serial(&mut state, &mut p, 1024), Ok(1024));
    assert_eq!(resolve_key_serial(&mut state, &mut p, 0), Err(SyscallError::NoKey));
    assert_eq!(resolve_existing_keyring(&mut state, &mut p, session), Ok(session));
    assert_eq!(resolve_existing_keyring(&mut state, &mut p, 4242), Err(SyscallError::NoKey));
    let process_ring = keyctl_keyring_serial(&mut state, &mut p, KEY_SPEC_PROCESS_KEYRING as u64, true).unwrap();
    assert_eq!(keyctl_keyring_serial(&mut state, &mut p, process_ring as u64, false), Ok(process_ring));
    assert_eq!(keyctl_key_serial(&mut state, &mut p, 1024), Ok(1024));
    assert_eq!(keyctl_unlink_target(&mut state, &mut p, KEY_SPEC_PROCESS_KEYRING as u64), Ok(process_ring));
    let user_session = resolve_keyring(&mut state, &mut p, KEY_SPEC_USER_SESSION_KEYRING, true).unwrap();
    let user = resolve_keyring(&mut state, &mut p, KEY_SPEC_USER_KEYRING, true).unwrap();
    assert_ne!(user, user_session);
    state.registry.ensure_key_entry(5000, b"user", b"k", vec![], 0, 0);
    assert_eq!(resolve_existing_keyring(&mut state, &mut p, 5000), Err(SyscallError::InvalidArguments));
    let mut registry = KeyRegistry::new();
    ensure_keyring_entry(&mut registry, &p, 9, b"named");
    assert_eq!(registry.entries.get(&9).unwrap().description, b"named".to_vec());
    assert_eq!(p.current_key_owner(), (1000, 100));
}

#[test]
fn keyctl_buffers_and_iovecs() {
    assert_eq!(copy_keyctl_bytes_to_user(10, true, 0), Ok(KeyctlCopy { copied: 0, returned: 10 }));
    assert_eq!(copy_keyctl_bytes_to_user(10, true, 4), Err(SyscallError::BadAddress));
    assert_eq!(copy_keyctl_bytes_to_user(10, false, 4), Ok(KeyctlCopy { copied: 4, returned: 10 }));
    assert_eq!(copy_keyctl_bytes_to_user(3, false, 4), Ok(KeyctlCopy { copied: 3, returned: 3 }));
    let iovs = vec![KeyctlIovec { iov_base: 0x1000, iov_len: 4 }];
    assert_eq!(read_keyctl_iovec_payload(false, 1, Ok(iovs.clone())), Ok(iovs.clone()));
    assert_eq!(
        read_keyctl_iovec_payload(false, 1, Err(SyscallError::BadAddress)),
        Err(SyscallError::BadAddress)
    );
}

#[test]
fn byte_helpers() {
    assert_eq!(copy_bytes(b"abc"), b"abc".to_vec());
    assert_eq!(copy_serials(&[1, 2]), vec![1, 2]);
    assert!(bytes_equal(b"ab", b"ab"));
    assert!(!bytes_equal(b"ab", b"abc"));
    assert!(contains_serial(&[3, 4], 4));
    assert!(!contains_serial(&[3, 4], 5));
    assert_eq!(links_without(&[1, 2, 1, 3], 1), vec![2, 3]);
    assert_eq!(serial_list_bytes(&[1, -1]), vec![1, 0, 0, 0, 0xff, 0xff, 0xff, 0xff]);
    assert_eq!(keyring_type_bytes(), b"keyring".to_vec());
    let e = KeyEntry::empty();
    assert_eq!(e.duplicate().links, e.links);
}
