use seele_syscalls::credentials::{AccessCredentials, ProcessCredentials};
use seele_syscalls::error::SyscallError;
use seele_syscalls::futex_ops::LinuxTimespec;
use seele_syscalls::mount_flags::{
    initial_mount_flag_update,
    is_char_device_mode, mount_attr_flag_update, mount_flags_from_mount_bits,
    mount_propagation_from_mount_flags, remount_bind_flag_update, require_cap_sys_admin,
    validate_umount_flags, LinuxMountAttr, MountPropagationUpdate,
};
use seele_syscalls::utime::{
    all_omit, build_file_times, times_after_write, check_utime_permissions, check_write_permission,
    current_credentials, requested_times_from_timespecs, utimensat_target, FileIds, FileTimes,
    LinuxTimeval, RequestedTime, UtimeCredentials, UtimeTarget,
};
use seele_syscalls::xattr::{
    validate_file_attr_args, validate_xattr_flags, xattr_not_found, write_xattr_list, write_xattr_value,
    xattr_flag_modes, xattr_name_from_raw, LinuxFileAttr,
};

#[test]
fn cap_sys_admin_is_required_for_mounts() {
    let admin = AccessCredentials {
        uid: 5,
        gid: 5,
        supplementary_groups: vec![],
        capability_effective: [1 << 21, 0],
    };
    let user = AccessCredentials {
        uid: 0,
        gid: 0,
        supplementary_groups: vec![],
        capability_effective: [0, 0],
    };
    assert_eq!(require_cap_sys_admin(&admin), Ok(()));
    assert_eq!(require_cap_sys_admin(&user), Err(SyscallError::PermissionDenied));
}

#[test]
fn char_device_modes() {
    assert!(is_char_device_mode(0o020644));
    assert!(!is_char_device_mode(0o060644));
    assert!(!is_char_device_mode(0o100644));
    assert!(!is_char_device_mode(0));
}

#[test]
fn mount_flags_keep_known_bits_and_translate_nosymfollow() {
    assert_eq!(mount_flags_from_mount_bits(1 | 8), 1 | 8);
    assert_eq!(mount_flags_from_mount_bits(1 << 8), 1 << 26);
    assert_eq!(mount_flags_from_mount_bits(1 << 40), 0);
    let (flags, mask) = remount_bind_flag_update(1 | (1 << 21));
    assert_eq!(flags, 1 | (1 << 21));
    assert_eq!(mask, 15 | (1 << 21));
    let (flags, mask) = remount_bind_flag_update(1 << 8);
    assert_eq!(flags, 1 << 26);
    assert_eq!(mask, 15 | (1 << 26));
}

#[test]
fn exactly_one_propagation_type_is_accepted() {
    assert_eq!(mount_propagation_from_mount_flags(1 << 18), Some(MountPropagationUpdate::Private));
    assert_eq!(mount_propagation_from_mount_flags(1 << 20), Some(MountPropagationUpdate::Shared));
    assert_eq!(mount_propagation_from_mount_flags(1 << 19), Some(MountPropagationUpdate::Slave));
    assert_eq!(mount_propagation_from_mount_flags(1 << 17), Some(MountPropagationUpdate::Unbindable));
    assert_eq!(mount_propagation_from_mount_flags((1 << 18) | (1 << 20)), None);
    assert_eq!(mount_propagation_from_mount_flags(0), None);
}

#[test]
fn mount_setattr_translates_attributes() {
    let attr = LinuxMountAttr { attr_set: 0x1 | 0x10, attr_clr: 0x2, propagation: 0, userns_fd: 0 };
    // Set read-only and no-atime; clear no-setuid. The atime flags are all decided.
    let (flags, mask, propagation) = mount_attr_flag_update(&attr).unwrap();
    assert_eq!(flags, 1 | 1024);
    assert_eq!(mask, 1 | 2 | 1024 | (1 << 21) | (1 << 24));
    assert_eq!(flags & !mask, 0);
    assert_eq!(propagation, None);
    let relatime = LinuxMountAttr { attr_set: 0, attr_clr: 0x70, propagation: 1 << 20, userns_fd: 0 };
    assert_eq!(
        mount_attr_flag_update(&relatime),
        Ok((1 << 21, 1024 | (1 << 21) | (1 << 24), Some(MountPropagationUpdate::Shared)))
    );
    let bad_propagation = LinuxMountAttr { attr_set: 0, attr_clr: 0, propagation: 3, userns_fd: 0 };
    assert_eq!(mount_attr_flag_update(&bad_propagation), Err(SyscallError::InvalidArguments));
    let idmap = LinuxMountAttr { attr_set: 0x0010_0000, attr_clr: 0, propagation: 0, userns_fd: 0 };
    assert_eq!(mount_attr_flag_update(&idmap), Err(SyscallError::OperationNotSupported));
    let clear_nodiratime = LinuxMountAttr { attr_set: 0, attr_clr: 0x80, propagation: 0, userns_fd: 0 };
    assert_eq!(mount_attr_flag_update(&clear_nodiratime), Err(SyscallError::OperationNotSupported));
}

#[test]
fn umount_flags_are_checked() {
    assert_eq!(validate_umount_flags(0xf), Ok(0xf));
    assert_eq!(validate_umount_flags(0x10), Err(SyscallError::InvalidArguments));
}

#[test]
fn requested_times_decode_special_values() {
    let now = LinuxTimespec { tv_sec: 0, tv_nsec: 0x3fff_ffff };
    let omit = LinuxTimespec { tv_sec: 9, tv_nsec: 0x3fff_fffe };
    let at = LinuxTimespec { tv_sec: 5, tv_nsec: 6 };
    assert_eq!(RequestedTime::from_timespec(now), Ok(RequestedTime::Now));
    assert_eq!(RequestedTime::from_timespec(omit), Ok(RequestedTime::Omit));
    assert_eq!(RequestedTime::from_timespec(at), Ok(RequestedTime::At { sec: 5, nsec: 6 }));
    assert_eq!(
        RequestedTime::from_timespec(LinuxTimespec { tv_sec: 1, tv_nsec: 1_000_000_000 }),
        Err(SyscallError::InvalidArguments)
    );
    assert_eq!(RequestedTime::from_seconds(-1), Err(SyscallError::InvalidArguments));
    assert_eq!(RequestedTime::from_seconds(3), Ok(RequestedTime::At { sec: 3, nsec: 0 }));
    assert_eq!(
        RequestedTime::from_timeval(LinuxTimeval { tv_sec: 1, tv_usec: 2 }),
        Ok(RequestedTime::At { sec: 1, nsec: 2000 })
    );
    assert_eq!(
        RequestedTime::from_timeval(LinuxTimeval { tv_sec: 1, tv_usec: 1_000_000 }),
        Err(SyscallError::InvalidArguments)
    );
    assert!(RequestedTime::At { sec: 0, nsec: 0 }.needs_owner());
    assert!(!RequestedTime::Now.needs_owner());
    assert!(RequestedTime::Omit.is_omit());
    assert_eq!(
        requested_times_from_timespecs(None),
        Ok([RequestedTime::Now, RequestedTime::Now])
    );
    assert_eq!(
        requested_times_from_timespecs(Some(Ok([omit, at]))),
        Ok([RequestedTime::Omit, RequestedTime::At { sec: 5, nsec: 6 }])
    );
    assert_eq!(
        requested_times_from_timespecs(Some(Err(SyscallError::BadAddress))),
        Err(SyscallError::BadAddress)
    );
    assert!(all_omit([RequestedTime::Omit, RequestedTime::Omit]));
    assert!(!all_omit([RequestedTime::Omit, RequestedTime::Now]));
}

#[test]
fn utime_permissions() {
    let info = FileIds { uid: 1000, gid: 100, permission: 0o664 };
    let owner = UtimeCredentials { uid: 1000, gid: 1, supplementary_groups: vec![] };
    let member = UtimeCredentials { uid: 1001, gid: 1, supplementary_groups: vec![100] };
    let other = UtimeCredentials { uid: 1002, gid: 1, supplementary_groups: vec![] };
    let now = [RequestedTime::Now, RequestedTime::Omit];
    let explicit = [RequestedTime::At { sec: 1, nsec: 0 }, RequestedTime::Now];
    assert!(check_write_permission(&info, &member));
    assert!(!check_write_permission(&info, &other));
    assert_eq!(check_utime_permissions(&info, explicit, &owner), Ok(()));
    assert_eq!(check_utime_permissions(&info, now, &member), Ok(()));
    assert_eq!(check_utime_permissions(&info, now, &other), Err(SyscallError::AccessDenied));
    assert_eq!(check_utime_permissions(&info, explicit, &member), Err(SyscallError::PermissionDenied));
    let p = ProcessCredentials {
        real_uid: 1,
        real_gid: 2,
        effective_uid: 3,
        effective_gid: 4,
        fs_uid: 5,
        fs_gid: 6,
        supplementary_groups: vec![7],
        capability_effective: [0, 0],
        capability_permitted: [0, 0],
        capability_inheritable: [0, 0],
        capability_bounding: [0, 0],
    };
    let c = current_credentials(&p);
    assert_eq!((c.uid, c.gid, c.supplementary_groups), (3, 4, vec![7]));
}

#[test]
fn file_times_follow_the_request() {
    let current = FileTimes {
        atime_sec: 1,
        atime_nsec: 2,
        mtime_sec: 3,
        mtime_nsec: 4,
        ctime_sec: 5,
        ctime_nsec: 6,
    };
    let now = FileTimes {
        atime_sec: 10,
        atime_nsec: 20,
        mtime_sec: 30,
        mtime_nsec: 40,
        ctime_sec: 50,
        ctime_nsec: 60,
    };
    let t = build_file_times(current, [RequestedTime::Omit, RequestedTime::At { sec: 7, nsec: 8 }], now);
    assert_eq!(t, FileTimes { atime_sec: 1, atime_nsec: 2, mtime_sec: 7, mtime_nsec: 8, ctime_sec: 50, ctime_nsec: 60 });
    let t = build_file_times(current, [RequestedTime::Now, RequestedTime::Omit], now);
    assert_eq!(t, FileTimes { atime_sec: 10, atime_nsec: 20, mtime_sec: 3, mtime_nsec: 4, ctime_sec: 50, ctime_nsec: 60 });
}

#[test]
fn utimensat_chooses_its_target() {
    let ok = Ok([RequestedTime::Now, RequestedTime::Now]);
    assert_eq!(utimensat_target(3, 0, ok, false, false), Ok(UtimeTarget::Path { follow_symlink: true }));
    assert_eq!(utimensat_target(3, 0x100, ok, false, false), Ok(UtimeTarget::Path { follow_symlink: false }));
    assert_eq!(utimensat_target(3, 0, ok, true, false), Ok(UtimeTarget::Descriptor));
    assert_eq!(utimensat_target(-100, 0, ok, true, false), Err(SyscallError::BadAddress));
    assert_eq!(utimensat_target(3, 0x1000, ok, true, false), Err(SyscallError::InvalidArguments));
    assert_eq!(utimensat_target(3, 0x1000, ok, false, true), Ok(UtimeTarget::Descriptor));
    assert_eq!(utimensat_target(3, 0, ok, false, true), Err(SyscallError::FileNotFound));
    assert_eq!(utimensat_target(3, 0x2, ok, false, false), Err(SyscallError::InvalidArguments));
    assert_eq!(
        utimensat_target(3, 0, Err(SyscallError::InvalidArguments), false, false),
        Err(SyscallError::InvalidArguments)
    );
}

#[test]
fn xattr_flags_names_and_buffers() {
    assert_eq!(validate_xattr_flags(0), Ok(()));
    assert_eq!(validate_xattr_flags(1), Ok(()));
    assert_eq!(validate_xattr_flags(2), Ok(()));
    assert_eq!(validate_xattr_flags(3), Err(SyscallError::InvalidArguments));
    assert_eq!(validate_xattr_flags(4), Err(SyscallError::InvalidArguments));
    assert_eq!(xattr_flag_modes(1), (true, false));
    assert_eq!(xattr_flag_modes(2), (false, true));
    assert_eq!(xattr_name_from_raw(b"user.a".to_vec()), Ok(b"user.a".to_vec()));
    assert_eq!(xattr_name_from_raw(vec![]), Err(SyscallError::InvalidArguments));
    assert_eq!(xattr_name_from_raw(vec![b'a', 0]), Err(SyscallError::InvalidArguments));
    assert_eq!(write_xattr_value(0, 5), Ok((5, false)));
    assert_eq!(write_xattr_value(4, 5), Err(SyscallError::RangeError));
    assert_eq!(write_xattr_value(5, 5), Ok((5, true)));
    let names = vec![b"user.a".to_vec(), b"user.bb".to_vec()];
    assert_eq!(write_xattr_list(0, &names), Ok((15, None)));
    assert_eq!(write_xattr_list(14, &names), Err(SyscallError::RangeError));
    assert_eq!(write_xattr_list(15, &names), Ok((15, Some(b"user.a\0user.bb\0".to_vec()))));
}

#[test]
fn file_attr_translation() {
    let attr = LinuxFileAttr::from_vfs(0x10);
    assert_eq!(attr.fa_xflags, 0x10);
    assert_eq!(attr.vfs_attributes(), Ok(0x10));
    assert!(!attr.has_unsupported_fsx_fields());
    let extsize = LinuxFileAttr { fa_xflags: 0x800, fa_extsize: 0, fa_nextents: 0, fa_projid: 0, fa_cowextsize: 0 };
    assert!(extsize.has_unsupported_fsx_fields());
    assert_eq!(extsize.vfs_attributes(), Err(SyscallError::OperationNotSupported));
    let unknown = LinuxFileAttr { fa_xflags: 0x40, fa_extsize: 0, fa_nextents: 3, fa_projid: 0, fa_cowextsize: 0 };
    assert!(!unknown.has_unsupported_fsx_fields());
    assert_eq!(unknown.vfs_attributes(), Err(SyscallError::OperationNotSupported));
    assert_eq!(validate_file_attr_args(true, false, 24, 0), Err(SyscallError::BadAddress));
    assert_eq!(validate_file_attr_args(false, false, 23, 0), Err(SyscallError::InvalidArguments));
    assert_eq!(validate_file_attr_args(false, false, 4097, 0), Err(SyscallError::ArgumentListTooLong));
    assert_eq!(validate_file_attr_args(false, false, 24, 0x200), Err(SyscallError::InvalidArguments));
    assert_eq!(validate_file_attr_args(false, false, 24, 0x1100), Ok(()));
}

#[test]
fn initial_mount_flags_decide_the_basic_and_atime_flags() {
    let all = 1 | 2 | 4 | 8 | (1 << 21) | 1024 | (1 << 24) | 2048 | (1 << 26);
    assert_eq!(initial_mount_flag_update(1), (1, all));
}

#[test]
fn missing_attributes_are_no_data() {
    assert_eq!(xattr_not_found(SyscallError::FileNotFound), SyscallError::NoData);
    assert_eq!(xattr_not_found(SyscallError::AccessDenied), SyscallError::AccessDenied);
}

#[test]
fn copied_into_files_get_new_modification_times() {
    let current = FileTimes { atime_sec: 1, atime_nsec: 2, mtime_sec: 3, mtime_nsec: 4, ctime_sec: 5, ctime_nsec: 6 };
    let now = FileTimes { atime_sec: 10, atime_nsec: 20, mtime_sec: 30, mtime_nsec: 40, ctime_sec: 50, ctime_nsec: 60 };
    assert_eq!(
        times_after_write(current, now),
        FileTimes { atime_sec: 1, atime_nsec: 2, mtime_sec: 30, mtime_nsec: 40, ctime_sec: 50, ctime_nsec: 60 }
    );
}
