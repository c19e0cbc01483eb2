use seele_syscalls::access::{
    check_access_mode, check_access_path_search_permissions, check_access_target, check_access_permissions_for_ids,
    check_access_permissions_for_ids_with_options, check_chdir_target, check_open_permissions,
    chmod_at, chmod_file_like, chown_at, chown_file_like, clear_chown_mode_bits,
    ensure_file_like_writable, faccessat_impl, strip_sgid_for_create, AtTarget, DirectoryProbe,
    FileOwnership,
};
use seele_syscalls::credentials::{
    access_credentials, fs_access_credentials, fs_gid, fs_uid, groups_contain, has_capability,
    is_group_member, AccessCredentials, ProcessCredentials,
};
use seele_syscalls::error::SyscallError;

fn user(uid: u32, gid: u32, groups: Vec<u32>, caps: [u32; 2]) -> AccessCredentials {
    AccessCredentials { uid, gid, supplementary_groups: groups, capability_effective: caps }
}

fn file(mode: u32, uid: u32, gid: u32) -> FileOwnership {
    FileOwnership { st_mode: mode, st_uid: uid, st_gid: gid }
}

fn process() -> ProcessCredentials {
    ProcessCredentials {
        real_uid: 1000,
        real_gid: 100,
        effective_uid: 0,
        effective_gid: 0,
        fs_uid: 2000,
        fs_gid: 200,
        supplementary_groups: vec![5, 6],
        capability_effective: [0xffff_ffff, 0x1ff],
        capability_permitted: [0xffff_ffff, 0x1ff],
        capability_inheritable: [0, 0],
        capability_bounding: [0xffff_ffff, 0x1ff],
    }
}

#[test]
fn access_mode_accepts_only_rwx_bits() {
    assert_eq!(check_access_mode(0), Ok(()));
    assert_eq!(check_access_mode(7), Ok(()));
    assert_eq!(check_access_mode(8), Err(SyscallError::InvalidArguments));
    assert_eq!(check_access_mode(-1), Err(SyscallError::InvalidArguments));
}

#[test]
fn owner_group_and_other_classes_decide_access() {
    let f = file(0o100640, 1000, 100);
    let owner = user(1000, 1, vec![], [0, 0]);
    let member = user(1001, 7, vec![100], [0, 0]);
    let other = user(1002, 7, vec![], [0, 0]);
    assert_eq!(check_access_permissions_for_ids(&f, 6, &owner), Ok(()));
    assert_eq!(check_access_permissions_for_ids(&f, 1, &owner), Err(SyscallError::AccessDenied));
    assert_eq!(check_access_permissions_for_ids(&f, 4, &member), Ok(()));
    assert_eq!(check_access_permissions_for_ids(&f, 2, &member), Err(SyscallError::AccessDenied));
    assert_eq!(check_access_permissions_for_ids(&f, 4, &other), Err(SyscallError::AccessDenied));
    assert_eq!(check_access_permissions_for_ids(&f, 0, &other), Ok(()));
}

#[test]
fn root_may_not_execute_a_file_nobody_may_execute() {
    let root = user(0, 0, vec![], [0, 0]);
    let f = file(0o100600, 1000, 100);
    assert_eq!(check_access_permissions_for_ids(&f, 6, &root), Ok(()));
    assert_eq!(check_access_permissions_for_ids(&f, 1, &root), Err(SyscallError::AccessDenied));
    assert_eq!(check_access_permissions_for_ids(&file(0o100610, 1, 1), 1, &root), Ok(()));
    let dir = file(0o040600, 1000, 100);
    assert_eq!(
        check_access_permissions_for_ids_with_options(&dir, 1, &root, true),
        Ok(())
    );
    assert_eq!(
        check_access_permissions_for_ids_with_options(&dir, 1, &root, false),
        Err(SyscallError::AccessDenied)
    );
}

#[test]
fn dac_capabilities_override_read_and_write() {
    let f = file(0o100000, 1000, 100);
    let reader = user(1002, 7, vec![], [1 << 2, 0]);
    let writer = user(1002, 7, vec![], [1 << 1, 0]);
    assert_eq!(check_access_permissions_for_ids(&f, 4, &reader), Ok(()));
    assert_eq!(check_access_permissions_for_ids(&f, 2, &reader), Err(SyscallError::AccessDenied));
    assert_eq!(check_access_permissions_for_ids(&f, 2, &writer), Ok(()));
    assert_eq!(check_access_permissions_for_ids(&f, 5, &reader), Err(SyscallError::AccessDenied));
}

#[test]
fn access_is_monotone_in_the_mode_for_matching_capabilities() {
    let f = file(0o100754, 1000, 100);
    let member = user(1001, 100, vec![], [0, 0]);
    assert_eq!(check_access_permissions_for_ids(&f, 5, &member), Ok(()));
    assert_eq!(check_access_permissions_for_ids(&f, 4, &member), Ok(()));
    assert_eq!(check_access_permissions_for_ids(&f, 1, &member), Ok(()));
    assert_eq!(check_access_permissions_for_ids(&f, 0, &member), Ok(()));
}

#[test]
fn open_permissions_follow_the_access_mode() {
    let f = file(0o100644, 1000, 100);
    let other = user(1002, 7, vec![], [0, 0]);
    assert_eq!(check_open_permissions(&f, 0, &other), Ok(()));
    assert_eq!(check_open_permissions(&f, 1, &other), Err(SyscallError::AccessDenied));
    assert_eq!(check_open_permissions(&f, 2, &other), Err(SyscallError::AccessDenied));
    assert_eq!(check_open_permissions(&f, 3, &other), Err(SyscallError::InvalidArguments));
    assert_eq!(check_open_permissions(&f, 0o10000000 | 3, &other), Ok(()));
}

#[test]
fn sgid_is_stripped_for_outsiders_without_fsetid() {
    let outsider = user(1000, 7, vec![], [0, 0]);
    assert_eq!(strip_sgid_for_create(&outsider, 0o2755, 100), 0o0755);
    let member = user(1000, 7, vec![100], [0, 0]);
    assert_eq!(strip_sgid_for_create(&member, 0o2755, 100), 0o2755);
    let fsetid = user(1000, 7, vec![], [1 << 4, 0]);
    assert_eq!(strip_sgid_for_create(&fsetid, 0o2755, 100), 0o2755);
    assert_eq!(strip_sgid_for_create(&outsider, 0o0755, 100), 0o0755);
}

#[test]
fn path_search_checks_every_directory() {
    let cred = user(1000, 100, vec![], [0, 0]);
    let searchable = DirectoryProbe { is_directory: true, stat: file(0o040711, 0, 0) };
    let closed = DirectoryProbe { is_directory: true, stat: file(0o040700, 0, 0) };
    let plain = DirectoryProbe { is_directory: false, stat: file(0o100777, 0, 0) };
    assert_eq!(
        check_access_path_search_permissions(&cred, 2, &vec![Ok(searchable), Ok(searchable)]),
        Ok(())
    );
    assert_eq!(
        check_access_path_search_permissions(&cred, 2, &vec![Ok(searchable), Ok(closed)]),
        Err(SyscallError::AccessDenied)
    );
    assert_eq!(
        check_access_path_search_permissions(&cred, 2, &vec![Ok(searchable), Ok(plain)]),
        Err(SyscallError::NotADirectory)
    );
    assert_eq!(
        check_access_path_search_permissions(
            &cred,
            2,
            &vec![Ok(searchable), Err(SyscallError::FileNotFound)]
        ),
        Err(SyscallError::FileNotFound)
    );
    let root = user(0, 0, vec![], [0, 0]);
    assert_eq!(check_access_path_search_permissions(&root, 1, &vec![Ok(closed)]), Ok(()));
    assert_eq!(check_access_path_search_permissions(&cred, 0, &vec![]), Ok(()));
}

#[test]
fn chdir_needs_search_on_the_target() {
    let cred = user(1000, 100, vec![], [0, 0]);
    let searchable = DirectoryProbe { is_directory: true, stat: file(0o040755, 0, 0) };
    assert_eq!(
        check_chdir_target(&cred, 1, &vec![Ok(searchable)], &file(0o040700, 0, 0)),
        Err(SyscallError::AccessDenied)
    );
    assert_eq!(
        check_chdir_target(&cred, 1, &vec![Ok(searchable)], &file(0o040755, 0, 0)),
        Ok(())
    );
    let root = user(0, 0, vec![], [0, 0]);
    assert_eq!(check_chdir_target(&root, 0, &vec![], &file(0o040700, 5, 5)), Ok(()));
}

#[test]
fn read_only_mounts_refuse_changes() {
    assert_eq!(ensure_file_like_writable(1), Err(SyscallError::ReadOnlyFileSystem));
    assert_eq!(ensure_file_like_writable(2), Ok(()));
    let owner = user(1000, 100, vec![], [0, 0]);
    let f = file(0o100644, 1000, 100);
    assert_eq!(chmod_file_like(&owner, &f, 1, 0o600), Err(SyscallError::ReadOnlyFileSystem));
    assert_eq!(chown_file_like(&owner, &f, 1, 1000, 100), Err(SyscallError::ReadOnlyFileSystem));
}

#[test]
fn chmod_needs_ownership_and_masks_the_mode() {
    let f = file(0o100644, 1000, 100);
    let owner = user(1000, 7, vec![], [0, 0]);
    let stranger = user(1001, 7, vec![], [0, 0]);
    let fowner = user(1001, 7, vec![], [1 << 3, 0]);
    assert_eq!(chmod_file_like(&owner, &f, 0, 0o170600), Ok(0o600));
    assert_eq!(chmod_file_like(&owner, &f, 0, 0o2755), Ok(0o0755));
    assert_eq!(chmod_file_like(&stranger, &f, 0, 0o600), Err(SyscallError::PermissionDenied));
    assert_eq!(chmod_file_like(&fowner, &f, 0, 0o600), Ok(0o600));
}

#[test]
fn chown_needs_cap_chown_to_give_files_away() {
    let f = file(0o100644, 1000, 100);
    let owner = user(1000, 100, vec![101], [0, 0]);
    assert_eq!(chown_file_like(&owner, &f, 0, u32::MAX, 101), Ok(()));
    assert_eq!(chown_file_like(&owner, &f, 0, 1000, u32::MAX), Ok(()));
    assert_eq!(chown_file_like(&owner, &f, 0, 1001, u32::MAX), Err(SyscallError::PermissionDenied));
    assert_eq!(chown_file_like(&owner, &f, 0, u32::MAX, 300), Err(SyscallError::PermissionDenied));
    let chowner = user(5, 5, vec![], [1, 0]);
    assert_eq!(chown_file_like(&chowner, &f, 0, 1001, 300), Ok(()));
}

#[test]
fn chown_clears_setuid_on_regular_files() {
    let plain = user(1000, 100, vec![], [0, 0]);
    assert_eq!(clear_chown_mode_bits(0o104755, &plain), Some(0o0755));
    assert_eq!(clear_chown_mode_bits(0o106755, &plain), Some(0o0755));
    assert_eq!(clear_chown_mode_bits(0o100755, &plain), None);
    assert_eq!(clear_chown_mode_bits(0o044755, &plain), None);
    let fsetid = user(1000, 100, vec![], [1 << 4, 0]);
    assert_eq!(clear_chown_mode_bits(0o102755, &fsetid), Some(0o0755));
    assert_eq!(clear_chown_mode_bits(0o102745, &fsetid), None);
}

#[test]
fn at_flags_choose_the_target() {
    assert_eq!(faccessat_impl(0, 4, false), Ok(AtTarget::Path));
    assert_eq!(faccessat_impl(0x1000, 4, true), Ok(AtTarget::Descriptor));
    assert_eq!(faccessat_impl(0, 4, true), Err(SyscallError::InvalidArguments));
    assert_eq!(faccessat_impl(0x2, 4, false), Err(SyscallError::InvalidArguments));
    assert_eq!(faccessat_impl(0, 8, false), Err(SyscallError::InvalidArguments));
    assert_eq!(chmod_at(0, 0o100644, false), Ok((AtTarget::Path, 0o644)));
    assert_eq!(chmod_at(0x1000, 0o644, true), Ok((AtTarget::Descriptor, 0o644)));
    assert_eq!(chmod_at(0, 0o644, true), Err(SyscallError::FileNotFound));
    assert_eq!(chmod_at(0x200, 0o644, false), Err(SyscallError::InvalidArguments));
    assert_eq!(chown_at(0x800, false), Ok(AtTarget::Path));
    assert_eq!(chown_at(0x1000, true), Ok(AtTarget::Descriptor));
    assert_eq!(chown_at(0, true), Err(SyscallError::FileNotFound));
    assert_eq!(chown_at(0x400, false), Err(SyscallError::InvalidArguments));
}

#[test]
fn credentials_pick_real_effective_or_fs_ids() {
    let p = process();
    let real = access_credentials(&p, false);
    assert_eq!((real.uid, real.gid), (1000, 100));
    assert_eq!(real.capability_effective, [0, 0]);
    let effective = access_credentials(&p, true);
    assert_eq!((effective.uid, effective.gid), (0, 0));
    assert_eq!(effective.capability_effective, [0xffff_ffff, 0x1ff]);
    let fs = fs_access_credentials(&p);
    assert_eq!((fs.uid, fs.gid), (2000, 200));
    assert_eq!(fs.supplementary_groups, vec![5, 6]);
    assert_eq!(fs_uid(&p), 2000);
    assert_eq!(fs_gid(&p), 200);
    assert!(groups_contain(&vec![1, 2, 3], 2));
    assert!(!groups_contain(&vec![1, 2, 3], 4));
    assert!(has_capability(&fs, 40));
    assert!(!has_capability(&fs, 41));
    assert!(!has_capability(&fs, 64));
    assert!(is_group_member(&fs, 200));
    assert!(is_group_member(&fs, 6));
    assert!(!is_group_member(&fs, 7));
}

#[test]
fn access_target_checks_run_in_order() {
    let cred = user(1000, 100, vec![], [0, 0]);
    let f = file(0o100644, 1000, 100);
    assert_eq!(check_access_target(Ok(()), Ok(f), Ok(()), 6, &cred), Ok(()));
    assert_eq!(
        check_access_target(Err(SyscallError::AccessDenied), Err(SyscallError::FileNotFound), Ok(()), 4, &cred),
        Err(SyscallError::AccessDenied)
    );
    assert_eq!(
        check_access_target(Ok(()), Err(SyscallError::FileNotFound), Ok(()), 4, &cred),
        Err(SyscallError::FileNotFound)
    );
    assert_eq!(
        check_access_target(Ok(()), Ok(f), Err(SyscallError::ReadOnlyFileSystem), 2, &cred),
        Err(SyscallError::ReadOnlyFileSystem)
    );
    assert_eq!(check_access_target(Ok(()), Ok(f), Err(SyscallError::ReadOnlyFileSystem), 4, &cred), Ok(()));
    assert_eq!(check_access_target(Ok(()), Ok(f), Ok(()), 1, &cred), Err(SyscallError::AccessDenied));
}
