use seele_syscalls::error::SyscallError;
use seele_syscalls::mount_calls::{
    empty_path_source, file_handle_reply, fsmount_attr_update, fsopen_check, mount_root_check,
    mount_route, mount_setattr_args, move_mount_source, name_to_handle_args, open_tree_attr_args,
    open_tree_plan, open_tree_source, umount_expire_check, OpenTreePlan, umount_plan, MountPathSource, MountRequest, MountRoute,
    MoveSource, NewMountKind, UmountPlan,
};
use seele_syscalls::mount_flags::MountPropagationUpdate;
use seele_syscalls::mount_options::tmpfs_root_mode_from_mount_data;

fn request(mountflags: u64) -> MountRequest {
    MountRequest {
        mountflags,
        has_source: true,
        source_is_proc_fd: false,
        target_is_proc_fd: false,
        target_is_directory: true,
        user_namespace_mapped: true,
    }
}

#[test]
fn bind_mounts_and_bind_remounts() {
    let bind = 4096u64;
    let remount = 32u64;
    let rec = 16384u64;
    assert_eq!(
        mount_route(&request(bind | remount | 1), None, None),
        Ok(MountRoute::BindRemount { flags: 1, mask: 15, recursive: false })
    );
    assert_eq!(
        mount_route(&request(bind | remount | rec | (1 << 8)), None, None),
        Ok(MountRoute::BindRemount { flags: 1 << 26, mask: 15 | (1 << 26), recursive: true })
    );
    assert_eq!(
        mount_route(&request(bind | rec), None, None),
        Ok(MountRoute::Bind { recursive: true })
    );
    let mut no_source = request(bind);
    no_source.has_source = false;
    assert_eq!(mount_route(&no_source, None, None), Err(SyscallError::BadAddress));
    let mut proc_fd = request(bind);
    proc_fd.source_is_proc_fd = true;
    assert_eq!(mount_route(&proc_fd, None, None), Err(SyscallError::FileNotFound));
}

#[test]
fn move_and_remount() {
    let mv = 8192u64;
    assert_eq!(mount_route(&request(mv), None, None), Ok(MountRoute::Move));
    let mut no_source = request(mv);
    no_source.has_source = false;
    assert_eq!(mount_route(&no_source, None, None), Err(SyscallError::InvalidArguments));
    assert_eq!(
        mount_route(&request(32 | 1 | (1 << 21)), Some(b"ext4"), None),
        Ok(MountRoute::Remount { flags: 1 | (1 << 21), mask: 15 | (1 << 21), recursive: false })
    );
}

#[test]
fn propagation_changes() {
    assert_eq!(
        mount_route(&request(1 << 18), None, None),
        Ok(MountRoute::Propagation {
            update: MountPropagationUpdate::Private,
            recursive: false,
            share_with_parent: false,
        })
    );
    assert_eq!(
        mount_route(&request((1 << 20) | 16384), Some(b"none"), None),
        Ok(MountRoute::Propagation {
            update: MountPropagationUpdate::Shared,
            recursive: true,
            share_with_parent: false,
        })
    );
    let mut unmapped = request(1 << 20);
    unmapped.user_namespace_mapped = false;
    assert_eq!(
        mount_route(&unmapped, Some(b""), None),
        Ok(MountRoute::Propagation {
            update: MountPropagationUpdate::Shared,
            recursive: false,
            share_with_parent: true,
        })
    );
    assert_eq!(
        mount_route(&request(1 << 18), Some(b"tmpfs"), None),
        Err(SyscallError::InvalidArguments)
    );
    assert_eq!(
        mount_route(&request((1 << 18) | (1 << 19)), None, None),
        Err(SyscallError::InvalidArguments)
    );
}

#[test]
fn fuse_mounts_need_a_descriptor() {
    assert_eq!(
        mount_route(&request(0), Some(b"fuse"), Some(b"rootmode=40000,fd=3,user_id=0")),
        Ok(MountRoute::Fuse { fd: 3 })
    );
    assert_eq!(
        mount_route(&request(0), Some(b"fuse.sshfs"), Some(b"fd=7")),
        Ok(MountRoute::Fuse { fd: 7 })
    );
    assert_eq!(
        mount_route(&request(0), Some(b"fuse"), None),
        Err(SyscallError::InvalidArguments)
    );
    assert_eq!(
        mount_route(&request(0), Some(b"fuse"), Some(b"fd=x")),
        Err(SyscallError::InvalidArguments)
    );
    let mut file_target = request(0);
    file_target.target_is_directory = false;
    assert_eq!(
        mount_route(&file_target, Some(b"fuse"), Some(b"fd=3")),
        Err(SyscallError::NotADirectory)
    );
}

#[test]
fn new_file_systems() {
    assert_eq!(
        mount_route(&request(1 | 2), Some(b"tmpfs"), Some(b"mode=755")),
        Ok(MountRoute::NewFilesystem { kind: NewMountKind::Tmpfs, flags: 3 })
    );
    assert_eq!(
        mount_route(&request(0), Some(b"ext4"), None),
        Ok(MountRoute::NewFilesystem { kind: NewMountKind::Ext, flags: 0 })
    );
    assert_eq!(
        mount_route(&request(8), Some(b"proc"), None),
        Ok(MountRoute::NewFilesystem { kind: NewMountKind::Other, flags: 8 })
    );
    assert_eq!(mount_route(&request(0), Some(b"nfs"), None), Err(SyscallError::NoDevice));
    assert_eq!(mount_route(&request(0), None, None), Err(SyscallError::InvalidArguments));
    assert_eq!(mount_route(&request(0), Some(b""), None), Err(SyscallError::InvalidArguments));
    let mut file_target = request(0);
    file_target.target_is_directory = false;
    assert_eq!(mount_route(&file_target, Some(b"tmpfs"), None), Err(SyscallError::NotADirectory));
}

#[test]
fn umount_flags_and_plans() {
    assert_eq!(umount_plan(0x10, false), Err(SyscallError::InvalidArguments));
    assert_eq!(umount_plan(0, true), Err(SyscallError::DeviceOrResourceBusy));
    assert_eq!(
        umount_plan(0x2 | 0x8, false),
        Ok(UmountPlan { open_target: Some(false), expire: false, detach: true })
    );
    assert_eq!(
        umount_plan(0, false),
        Ok(UmountPlan { open_target: Some(true), expire: false, detach: false })
    );
    assert_eq!(
        umount_plan(0x4, false),
        Ok(UmountPlan { open_target: None, expire: true, detach: false })
    );
    assert_eq!(umount_expire_check(0x4 | 0x1), Err(SyscallError::InvalidArguments));
    assert_eq!(umount_expire_check(0x4 | 0x2), Err(SyscallError::InvalidArguments));
    assert_eq!(umount_expire_check(0x4 | 0x8), Ok(()));
    assert_eq!(umount_expire_check(0x1 | 0x2), Ok(()));
}

#[test]
fn fsopen_and_fsmount() {
    assert_eq!(fsopen_check(b"tmpfs", 1), Ok(true));
    assert_eq!(fsopen_check(b"ext4", 0), Ok(false));
    assert_eq!(fsopen_check(b"nfs", 0), Err(SyscallError::NoDevice));
    assert_eq!(fsmount_attr_update(0x1 | 0x8), Ok((1 | 8, 1 | 8)));
    assert_eq!(
        fsmount_attr_update(0x10),
        Ok((1024, 1024 | (1 << 21) | (1 << 24)))
    );
    assert_eq!(fsmount_attr_update(0x80), Ok((2048, 2048)));
    assert_eq!(fsmount_attr_update(0x40), Err(SyscallError::InvalidArguments));
    assert_eq!(fsmount_attr_update(0x100), Err(SyscallError::InvalidArguments));
}

#[test]
fn mount_api_path_arguments() {
    assert_eq!(empty_path_source(true, false, false), Err(SyscallError::BadAddress));
    assert_eq!(empty_path_source(true, false, true), Ok(MountPathSource::Descriptor));
    assert_eq!(empty_path_source(false, true, false), Err(SyscallError::InvalidArguments));
    assert_eq!(empty_path_source(false, true, true), Ok(MountPathSource::Descriptor));
    assert_eq!(empty_path_source(false, false, false), Ok(MountPathSource::Path));
    assert_eq!(open_tree_source(true, false, 0), Err(SyscallError::BadAddress));
    assert_eq!(open_tree_source(true, false, 0x1000), Ok(MountPathSource::Descriptor));
    assert_eq!(open_tree_source(false, true, 0x1000), Ok(MountPathSource::Descriptor));
    assert_eq!(open_tree_source(false, true, 0), Ok(MountPathSource::Path));
    assert_eq!(move_mount_source(None, 0), Err(SyscallError::BadAddress));
    assert_eq!(move_mount_source(None, 0x4), Ok(MoveSource::Descriptor));
    assert_eq!(move_mount_source(Some(b""), 0), Err(SyscallError::InvalidArguments));
    assert_eq!(move_mount_source(Some(b"/mnt/a"), 0), Ok(MoveSource::Absolute));
    assert_eq!(move_mount_source(Some(b"sub"), 0), Ok(MoveSource::Relative));
    assert_eq!(mount_root_check(b"/mnt", b"/mnt"), Ok(()));
    assert_eq!(mount_root_check(b"/mnt/sub", b"/mnt"), Err(SyscallError::InvalidArguments));
}

#[test]
fn mount_attr_arguments() {
    assert_eq!(open_tree_attr_args(0x1 | 0x8000, 32, false), Ok((0x1, true)));
    assert_eq!(open_tree_attr_args(0x8_0000 | 0x100 | 0x40, 32, false), Ok((0x8_0100, false)));
    assert_eq!(open_tree_attr_args(0, 24, false), Err(SyscallError::InvalidArguments));
    assert_eq!(open_tree_attr_args(0, 32, true), Err(SyscallError::BadAddress));
    assert_eq!(mount_setattr_args(0x8000 | 0x1000, 32, false), Ok(true));
    assert_eq!(mount_setattr_args(0x100, 40, false), Ok(false));
    assert_eq!(mount_setattr_args(0x800, 32, false), Err(SyscallError::InvalidArguments));
    assert_eq!(mount_setattr_args(0, 16, false), Err(SyscallError::InvalidArguments));
    assert_eq!(mount_setattr_args(0, 32, true), Err(SyscallError::BadAddress));
}

#[test]
fn file_handles_carry_the_inode() {
    assert_eq!(name_to_handle_args(0x1000 | 0x100 | 0x800, false, false, true), Ok(false));
    assert_eq!(name_to_handle_args(0, false, false, false), Ok(true));
    assert_eq!(name_to_handle_args(0x400, false, false, false), Err(SyscallError::InvalidArguments));
    assert_eq!(name_to_handle_args(0, true, false, false), Err(SyscallError::BadAddress));
    assert_eq!(name_to_handle_args(0, false, true, false), Err(SyscallError::BadAddress));
    assert_eq!(name_to_handle_args(0, false, false, true), Err(SyscallError::BadAddress));
    assert_eq!(
        file_handle_reply(3, 8, 0x0102_0304_0506_0708),
        Ok((3, Some([8, 7, 6, 5, 4, 3, 2, 1])))
    );
    assert_eq!(file_handle_reply(3, 128, 42), Ok((3, Some([42, 0, 0, 0, 0, 0, 0, 0]))));
    assert_eq!(file_handle_reply(3, 4, 42), Ok((3, None)));
    assert_eq!(file_handle_reply(1 << 31, 8, 42), Err(SyscallError::InvalidArguments));
}

#[test]
fn mount_api_syscalls_follow_linux_rules() {
    let mut no_source = request(0);
    no_source.has_source = false;
    assert_eq!(
        mount_route(&no_source, Some(b"tmpfs"), Some(b"mode=700")),
        Ok(MountRoute::NewFilesystem { kind: NewMountKind::Tmpfs, flags: 0 })
    );
    assert_eq!(tmpfs_root_mode_from_mount_data(Some(b"mode=700")), Ok(Some(0o700)));
    assert_eq!(mount_route(&request(4096), None, None), Ok(MountRoute::Bind { recursive: false }));
    assert_eq!(
        umount_plan(0, false),
        Ok(UmountPlan { open_target: Some(true), expire: false, detach: false })
    );
    assert_eq!(umount_plan(16, false), Err(SyscallError::InvalidArguments));

    assert_eq!(fsopen_check(b"tmpfs", 1), Ok(true));
    assert_eq!(fsmount_attr_update(0), Ok((0, 0)));
    assert_eq!(
        open_tree_plan(0x0008_0000),
        Ok(OpenTreePlan { clone: false, nofollow: false, cloexec: true })
    );
    assert_eq!(open_tree_source(false, false, 0x0008_0000), Ok(MountPathSource::Path));
    assert_eq!(move_mount_source(Some(b""), 0x4), Ok(MoveSource::Descriptor));
    assert_eq!(empty_path_source(false, false, false), Ok(MountPathSource::Path));
    assert_eq!(
        open_tree_plan(0x1 | 0x0008_0000),
        Ok(OpenTreePlan { clone: true, nofollow: false, cloexec: true })
    );
    assert_eq!(fsopen_check(b"proc", 0), Ok(false));

    assert_eq!(mount_route(&request(0), Some(b"sysfs"), None), Ok(MountRoute::NewFilesystem { kind: NewMountKind::Other, flags: 0 }));
    assert_eq!(mount_route(&request(0), Some(b"devtmpfs"), None), Ok(MountRoute::NewFilesystem { kind: NewMountKind::Other, flags: 0 }));
    assert_eq!(mount_route(&request(0), Some(b"devpts"), None), Ok(MountRoute::NewFilesystem { kind: NewMountKind::Other, flags: 0 }));
    assert_eq!(mount_route(&request(0), Some(b"cgroup2"), None), Ok(MountRoute::NewFilesystem { kind: NewMountKind::Other, flags: 0 }));
    assert_eq!(mount_route(&request(0), Some(b"missingfs"), None), Err(SyscallError::NoDevice));

    assert_eq!(mount_setattr_args(0x8000, 32, false), Ok(true));
    assert_eq!(mount_setattr_args(0, 1, false), Err(SyscallError::InvalidArguments));
    assert_eq!(mount_setattr_args(0, 32, true), Err(SyscallError::BadAddress));
    assert_eq!(open_tree_plan(2), Err(SyscallError::InvalidArguments));
}
