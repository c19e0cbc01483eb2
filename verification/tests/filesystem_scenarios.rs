use seele_syscalls::access::{
    check_access_mode, check_access_permissions_for_ids, chmod_at, chmod_file_like, faccessat_impl,
    AtTarget, FileOwnership,
};
use seele_syscalls::fs_info::{at_path_is_empty, newfstatat_flags_check};
use seele_syscalls::path_at::{path_lookup_route, PathLookupRoute};
use seele_syscalls::credentials::AccessCredentials;
use seele_syscalls::directory_ops::{
    getcwd_reply, keeps_current_directory, link_source_route, link_target_check, linkat_flags_check,
    removal_kind_check, unlinkat_flags_check, LinkSource,
};
use seele_syscalls::error::SyscallError;
use seele_syscalls::fs_info::readlink_copy_len;
use seele_syscalls::futex_ops::LinuxTimespec;
use seele_syscalls::mount_calls::{file_handle_reply, name_to_handle_args};
use seele_syscalls::utime::{requested_times_from_timespecs, utimensat_target, RequestedTime, UtimeTarget};

const AT_FDCWD: i32 = -100;
const AT_EMPTY_PATH: i32 = 0x1000;
const UTIME_NOW: i64 = 0x3fff_ffff;

fn ts(tv_sec: i64, tv_nsec: i64) -> LinuxTimespec {
    LinuxTimespec { tv_sec, tv_nsec }
}

#[test]
fn filesystem_name_to_handle_short_buffer_syscalls_follow_linux_rules() {
    assert_eq!(name_to_handle_args(0, false, false, false), Ok(true));
    let (mount_id, bytes) = file_handle_reply(1, 4, 77).unwrap();
    assert!(mount_id >= 1);
    assert_eq!(bytes, None);
}

#[test]
fn filesystem_name_to_handle_success_syscalls_follow_linux_rules() {
    assert_eq!(name_to_handle_args(0, false, false, false), Ok(true));
    let inode: u64 = 0x1234_5678;
    let (_, bytes) = file_handle_reply(1, 8, inode).unwrap();
    assert_eq!(u64::from_le_bytes(bytes.unwrap()), inode);
}

#[test]
fn filesystem_name_to_handle_null_handle_syscalls_follow_linux_rules() {
    assert_eq!(name_to_handle_args(0, true, false, false), Err(SyscallError::BadAddress));
}

#[test]
fn filesystem_name_to_handle_null_mount_id_syscalls_follow_linux_rules() {
    assert_eq!(name_to_handle_args(0, false, true, false), Err(SyscallError::BadAddress));
}

#[test]
fn filesystem_name_to_handle_bad_flag_syscalls_follow_linux_rules() {
    assert_eq!(name_to_handle_args(0x4000_0000, false, false, false), Err(SyscallError::InvalidArguments));
}

#[test]
fn filesystem_utimensat_success_syscalls_follow_linux_rules() {
    let times = requested_times_from_timespecs(Some(Ok([ts(0, 0), ts(0, UTIME_NOW)])));
    assert_eq!(times, Ok([RequestedTime::At { sec: 0, nsec: 0 }, RequestedTime::Now]));
    assert_eq!(utimensat_target(3, 0, times, true, false), Ok(UtimeTarget::Descriptor));
    assert_eq!(
        utimensat_target(3, 0, times, false, false),
        Ok(UtimeTarget::Path { follow_symlink: true })
    );
    assert_eq!(utimensat_target(3, AT_EMPTY_PATH, times, false, true), Ok(UtimeTarget::Descriptor));
}

#[test]
fn filesystem_utimensat_negative_nsec_syscalls_follow_linux_rules() {
    let times = requested_times_from_timespecs(Some(Ok([ts(0, 0), ts(0, -1)])));
    assert_eq!(times, Err(SyscallError::InvalidArguments));
    assert_eq!(utimensat_target(3, 0, times, false, false), Err(SyscallError::InvalidArguments));
    let times = requested_times_from_timespecs(Some(Ok([ts(-1, -1), ts(0, 0)])));
    assert_eq!(utimensat_target(3, 0, times, false, false), Err(SyscallError::InvalidArguments));
}

#[test]
fn filesystem_utimensat_null_path_empty_path_syscalls_follow_linux_rules() {
    let times = requested_times_from_timespecs(Some(Ok([ts(0, 0), ts(0, 0)])));
    assert_eq!(utimensat_target(3, AT_EMPTY_PATH, times, true, false), Err(SyscallError::InvalidArguments));
}

#[test]
fn filesystem_utimensat_empty_path_without_flag_syscalls_follow_linux_rules() {
    let times = requested_times_from_timespecs(Some(Ok([ts(0, 0), ts(0, 0)])));
    assert_eq!(utimensat_target(3, 0, times, false, true), Err(SyscallError::FileNotFound));
}

#[test]
fn filesystem_utimensat_at_fdcwd_null_path_syscalls_follow_linux_rules() {
    let times = requested_times_from_timespecs(Some(Ok([ts(0, 0), ts(0, 0)])));
    assert_eq!(utimensat_target(AT_FDCWD, 0, times, true, false), Err(SyscallError::BadAddress));
}

#[test]
fn filesystem_utimensat_invalid_flag_syscalls_follow_linux_rules() {
    let times = requested_times_from_timespecs(Some(Ok([ts(0, 0), ts(0, 0)])));
    assert_eq!(utimensat_target(AT_FDCWD, 0x200, times, false, false), Err(SyscallError::InvalidArguments));
}

#[test]
fn filesystem_path_state_syscalls_follow_linux_rules() {
    let owner = AccessCredentials { uid: 1000, gid: 1000, supplementary_groups: vec![], capability_effective: [0, 0] };
    let locked = FileOwnership { st_mode: 0o100000, st_uid: 1000, st_gid: 1000 };
    assert_eq!(check_access_mode(0), Ok(()));
    assert_eq!(check_access_permissions_for_ids(&locked, 4, &owner), Err(SyscallError::AccessDenied));
    assert_eq!(check_access_mode(8), Err(SyscallError::InvalidArguments));

    assert_eq!(faccessat_impl(AT_EMPTY_PATH, 0, true), Ok(AtTarget::Descriptor));
    assert_eq!(faccessat_impl(AT_EMPTY_PATH | 0x200, 0, true), Ok(AtTarget::Descriptor));
    assert_eq!(faccessat_impl(0, 0, true), Err(SyscallError::InvalidArguments));

    let cwd: &[u8] = b"/tmp/syscall-path-state-test/subdir";
    let reply = getcwd_reply(cwd, 64, false).unwrap();
    assert_eq!(reply, b"/tmp/syscall-path-state-test/subdir\0".to_vec());
    assert_eq!(reply.len(), b"/tmp/syscall-path-state-test/subdir\0".len());
    assert_eq!(getcwd_reply(cwd, 4, false), Err(SyscallError::RangeError));
    assert_eq!(getcwd_reply(cwd, 64, true), Err(SyscallError::BadAddress));

    assert!(keeps_current_directory(cwd, b"/tmp"));
}

#[test]
fn filesystem_create_link_syscalls_follow_linux_rules() {
    assert_eq!(removal_kind_check(true, false), Err(SyscallError::NotADirectory));
    assert_eq!(unlinkat_flags_check(0), Ok(false));
    assert_eq!(removal_kind_check(false, true), Err(SyscallError::IsADirectory));
    assert_eq!(unlinkat_flags_check(0x200), Ok(true));
    assert_eq!(removal_kind_check(true, true), Ok(()));

    assert_eq!(linkat_flags_check(0), Ok(()));
    assert_eq!(
        link_source_route(AT_FDCWD, Some(b"/tmp/syscall-create-link-test/src"), 0),
        Ok(LinkSource::Path { check_dirfd: false })
    );
    assert_eq!(link_target_check(false), Ok(()));
    assert_eq!(linkat_flags_check(AT_EMPTY_PATH), Ok(()));
    assert_eq!(link_source_route(4, Some(b""), AT_EMPTY_PATH), Ok(LinkSource::Descriptor));

    assert_eq!(readlink_copy_len(b"/target/without/nul".len(), 7), 7);
    assert_eq!(readlink_copy_len(b"relative-target".len(), 64), b"relative-target".len());
    assert_eq!(unlinkat_flags_check(0x8000_0000u32 as i32), Err(SyscallError::InvalidArguments));
}

#[test]
fn filesystem_metadata_syscalls_follow_linux_rules() {
    let owner = AccessCredentials { uid: 1000, gid: 1000, supplementary_groups: vec![], capability_effective: [0, 0] };
    let file = FileOwnership { st_mode: 0o100644, st_uid: 1000, st_gid: 1000 };
    assert_eq!(chmod_at(0, 0o640, false), Ok((AtTarget::Path, 0o640)));
    assert_eq!(chmod_file_like(&owner, &file, 0, 0o640), Ok(0o640));
    assert_eq!(chmod_file_like(&owner, &file, 0, 0o600), Ok(0o600));
    assert_eq!(chmod_at(AT_EMPTY_PATH, 0o644, true), Ok((AtTarget::Descriptor, 0o644)));
    assert_eq!(at_path_is_empty(true, 0), Err(SyscallError::BadAddress));
    assert_eq!(chmod_at(0x4000_0000, 0o644, true), Err(SyscallError::InvalidArguments));
    assert_eq!(chmod_at(0, 0o700, false), Ok((AtTarget::Path, 0o700)));

    assert_eq!(newfstatat_flags_check(AT_EMPTY_PATH | 0x800), Ok(()));
    assert_eq!(at_path_is_empty(false, AT_EMPTY_PATH | 0x800), Ok(false));
    assert_eq!(path_lookup_route(4, true, true, false), PathLookupRoute::ByDescriptor(4));
    assert_eq!(path_lookup_route(AT_FDCWD, false, false, false), PathLookupRoute::ByPath { follow: true });
    assert_eq!(path_lookup_route(AT_FDCWD, false, false, true), PathLookupRoute::ByPath { follow: false });
    assert_eq!(at_path_is_empty(true, 0), Err(SyscallError::BadAddress));
}
