use seele_syscalls::directory_ops::{
    getcwd_reply, is_within, keeps_current_directory, link_dirfd_check, link_source_route,
    link_target_check, linkat_flags_check, mknod_create_mode, pivot_root_check,
    removal_kind_check, unlinkat_flags_check, LinkSource,
};
use seele_syscalls::error::SyscallError;

#[test]
fn unlink_and_rmdir() {
    assert_eq!(unlinkat_flags_check(0), Ok(false));
    assert_eq!(unlinkat_flags_check(0x200), Ok(true));
    assert_eq!(unlinkat_flags_check(0x100), Err(SyscallError::InvalidArguments));
    assert_eq!(removal_kind_check(true, true), Ok(()));
    assert_eq!(removal_kind_check(true, false), Err(SyscallError::NotADirectory));
    assert_eq!(removal_kind_check(false, true), Err(SyscallError::IsADirectory));
    assert_eq!(removal_kind_check(false, false), Ok(()));
}

#[test]
fn hard_links() {
    assert_eq!(linkat_flags_check(0x1000 | 0x400), Ok(()));
    assert_eq!(linkat_flags_check(0x100), Err(SyscallError::InvalidArguments));
    assert_eq!(link_source_route(3, None, 0), Err(SyscallError::BadAddress));
    assert_eq!(link_source_route(3, Some(b""), 0x1000), Ok(LinkSource::Descriptor));
    assert_eq!(link_source_route(3, Some(b""), 0), Err(SyscallError::InvalidArguments));
    assert_eq!(link_source_route(3, Some(b"a/b"), 0), Ok(LinkSource::Path { check_dirfd: true }));
    assert_eq!(link_source_route(3, Some(b"/a/b"), 0), Ok(LinkSource::Path { check_dirfd: false }));
    assert_eq!(link_source_route(-100, Some(b"a"), 0), Ok(LinkSource::Path { check_dirfd: false }));
    assert_eq!(link_target_check(true), Err(SyscallError::PermissionDenied));
    assert_eq!(link_target_check(false), Ok(()));
    assert_eq!(link_dirfd_check(true, true, true), Ok(()));
    assert_eq!(link_dirfd_check(false, true, true), Err(SyscallError::NotADirectory));
    assert_eq!(link_dirfd_check(true, false, true), Err(SyscallError::NotADirectory));
    assert_eq!(link_dirfd_check(true, true, false), Err(SyscallError::FileNotFound));
}

#[test]
fn mknod_modes() {
    assert_eq!(mknod_create_mode(0o010666, 0o022), Ok(0o010644));
    assert_eq!(mknod_create_mode(0o020600, 0o077), Ok(0o020600));
    assert_eq!(mknod_create_mode(0o644, 0o022), Ok(0o644));
    assert_eq!(mknod_create_mode(0o140777, 0), Ok(0o140777));
    assert_eq!(mknod_create_mode(0o040755, 0), Err(SyscallError::NoSyscall));
    assert_eq!(mknod_create_mode(0o120777, 0), Err(SyscallError::NoSyscall));
}

#[test]
fn getcwd_replies() {
    assert_eq!(getcwd_reply(b"/home/user", 64, false), Ok(b"/home/user\0".to_vec()));
    assert_eq!(getcwd_reply(b"/home/user", 11, false), Ok(b"/home/user\0".to_vec()));
    assert_eq!(getcwd_reply(b"/home/user", 10, false), Err(SyscallError::RangeError));
    assert_eq!(getcwd_reply(b"/", 64, true), Err(SyscallError::BadAddress));
}

#[test]
fn paths_within_a_root() {
    assert!(is_within(b"/srv/root/a", b"/srv/root"));
    assert!(is_within(b"/srv/root", b"/srv/root"));
    assert!(!is_within(b"/srv/rootless", b"/srv/root"));
    assert!(!is_within(b"/srv", b"/srv/root"));
    assert!(is_within(b"/anything", b"/"));
    assert!(keeps_current_directory(b"/jail/home", b"/jail"));
    assert!(!keeps_current_directory(b"/home", b"/jail"));
}

#[test]
fn pivot_root_needs_mount_points() {
    assert_eq!(pivot_root_check(b"/new", b"/new/old", b"/", b"/new", b"/new"), Ok(()));
    assert_eq!(
        pivot_root_check(b"/new", b"/old", b"/", b"/new", b"/new"),
        Err(SyscallError::InvalidArguments)
    );
    assert_eq!(
        pivot_root_check(b"/new", b"/new/old", b"/", b"/", b"/"),
        Err(SyscallError::DeviceOrResourceBusy)
    );
    assert_eq!(
        pivot_root_check(b"/new", b"/new/old", b"/new", b"/new", b"/new"),
        Err(SyscallError::DeviceOrResourceBusy)
    );
    assert_eq!(
        pivot_root_check(b"/new", b"/new/old", b"/", b"/new", b"/new/old"),
        Err(SyscallError::DeviceOrResourceBusy)
    );
}
