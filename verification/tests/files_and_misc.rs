use seele_syscalls::aio::{
    check_iocb, completion_event, context_ring_header, io_getevents_check, io_setup_check,
    io_submit_check, record_submit_outcome, wants_eventfd_signal, AioContexts, LinuxIocb,
    LinuxIoEvent, SubmitStep,
};
use seele_syscalls::anon_fd::{eventfd_plan, inotify_init1_plan, EventFdPlan};
use seele_syscalls::bpf::{
    bpf_command, bpf_fd_number, check_attr_size, map_create_check, prog_load_check,
    user_bytes_check, BpfCommand, BpfMapCreateAttr, BpfProgLoadAttr,
};
use seele_syscalls::dirents::{
    directory_contents_with_dot_entries, dirent_type_code, fallback_dirent_inode, write_dirents,
    write_dirents64, write_dirents_records, DirEntry, DirectoryContentType,
};
use seele_syscalls::error::SyscallError;
use seele_syscalls::fs_info::{
    at_path_is_empty, check_syncable_file, filesystem_magic_for_object, linux_major, linux_minor,
    linux_statfs_with_flags, mount_id_for_object, mount_root_for_object, newfstatat_flags_check,
    pseudo_mount_id, readlink_copy_len, renameat2_mode, statx_flags_check, statx_from_stat,
    FileSystemStats, LinuxStat, LinuxStatFs, ObjectClass, RenameMode, StatxTimestamp,
    PIPEFS_MAGIC, SOCKFS_MAGIC,
};
use seele_syscalls::mount_options::{
    create_api_filesystem, ApiFilesystemKind, find_bytes, is_api_mount_path, is_proc_fd_path, is_supported_api_mount,
    is_supported_fs_context_type, next_api_mount_path, next_tmpfile_path,
    parse_fuse_mount_options, parse_unsigned_bytes, proc_self_fd_number, split_bytes,
    tmpfs_root_mode_from_mount_data, FuseMountOptions,
};
use seele_syscalls::open_path::{
    all_zero, ensure_open_writable_mount, file_flags_from_open_flags, has_dotdot_component,
    is_proc_sysctl_path, memfd_name_from_raw, path_from_raw, read_open_how, sanitize_memfd_name,
    starts_with, validate_openat2_resolve, LinuxOpenHow,
};
use seele_syscalls::path_at::{
    exchange_candidate_path, exchange_candidate_step, ExchangeStep, descriptor_base_check, fifo_open_plan, inherited_create_gid, mount_setattr_target_route,
    path_base, path_lookup_route, tmpfile_attempt_step, FifoEnd, PathBase, PathLookupRoute,
    TargetRoute, TmpfileStep,
};
use seele_syscalls::prctl::{
    current_thread_name, last_path_segment, prctl, prctl_name_from_bytes, PrctlEffect,
    PrctlOption, PrctlState,
};
use seele_syscalls::rseq::{
    apply_rseq_request, rseq_check, set_robust_list, RobustList, RseqRegistration, RseqRequest,
};
use seele_syscalls::text::{decimal_bytes, push_all, push_decimal, push_hex8, push_padded};

fn entry(name: &[u8], content_type: DirectoryContentType, inode: u64) -> DirEntry {
    DirEntry { name: name.to_vec(), content_type, inode }
}

fn fnv(name: &[u8]) -> u64 {
    let mut h = 0xcbf2_9ce4_8422_2325u64;
    for b in name {
        h ^= *b as u64;
        h = h.wrapping_mul(0x100_0000_01b3);
    }
    h
}

fn record(inode: u64, next: u64, name: &[u8], t: u8, wide: bool) -> Vec<u8> {
    let mut r = Vec::new();
    r.extend_from_slice(&inode.to_le_bytes());
    r.extend_from_slice(&next.to_le_bytes());
    r.extend_from_slice(&24u16.to_le_bytes());
    if wide {
        r.push(t);
    }
    r.extend_from_slice(name);
    let target = if wide { 24 } else { 23 };
    while r.len() != target {
        r.push(0);
    }
    if !wide {
        r.push(t);
    }
    r
}

fn two_entries() -> Vec<DirEntry> {
    vec![entry(b"a", DirectoryContentType::File, 7), entry(b"bb", DirectoryContentType::Directory, 9)]
}

#[test]
fn dirent_records_have_the_linux_layout() {
    let both = Ok(vec![record(7, 1, b"a", 8, true), record(9, 2, b"bb", 4, true)]);
    assert_eq!(write_dirents64(false, Ok((two_entries(), 0)), 100), both);
    let symlink = vec![entry(b"a", DirectoryContentType::Symlink, 7)];
    assert_eq!(write_dirents(false, Ok((symlink, 0)), 24), Ok(vec![record(7, 1, b"a", 10, false)]));
    let second = Ok(vec![record(9, 2, b"bb", 4, true)]);
    assert_eq!(write_dirents_records(false, Ok((two_entries(), 1)), 24, true), second);
    // Only what fits is written; at the end nothing is; a buffer too small for one record is invalid.
    let fitting = write_dirents64(false, Ok((two_entries(), 0)), 47);
    assert_eq!(fitting.map(|r| r.len()), Ok(1));
    assert_eq!(write_dirents64(false, Ok((two_entries(), 2)), 100), Ok(vec![]));
    assert_eq!(write_dirents64(false, Ok((two_entries(), 0)), 23), Err(SyscallError::InvalidArguments));
    assert_eq!(write_dirents64(true, Ok((vec![], 0)), 100), Err(SyscallError::BadAddress));
    let failed = write_dirents64(false, Err(SyscallError::NotADirectory), 100);
    assert_eq!(failed, Err(SyscallError::NotADirectory));
    // An entry without an inode gets the FNV-1a based one.
    let hashed = fnv(b"a") ^ 8 ^ 0;
    let no_inode = vec![entry(b"a", DirectoryContentType::File, 0)];
    assert_eq!(write_dirents64(false, Ok((no_inode, 0)), 24), Ok(vec![record(hashed, 1, b"a", 8, true)]));
}

#[test]
fn fallback_inodes_hash_name_type_and_offset() {
    assert_eq!(fallback_dirent_inode(&entry(b"abc", DirectoryContentType::Directory, 0), 5), fnv(b"abc") ^ 4 ^ 5);
    assert_eq!(dirent_type_code(DirectoryContentType::Symlink), 10);
}

#[test]
fn listings_get_dot_entries() {
    let out = directory_contents_with_dot_entries(vec![entry(b"x", DirectoryContentType::File, 3)]);
    let names: Vec<Vec<u8>> = out.iter().map(|e| e.name.clone()).collect();
    assert_eq!(names, vec![b".".to_vec(), b"..".to_vec(), b"x".to_vec()]);
    assert_eq!(out[0].content_type, DirectoryContentType::Directory);
    let out = directory_contents_with_dot_entries(vec![entry(b".", DirectoryContentType::Directory, 1)]);
    let names: Vec<Vec<u8>> = out.iter().map(|e| e.name.clone()).collect();
    assert_eq!(names, vec![b"..".to_vec(), b".".to_vec()]);
}

#[test]
fn mount_data_options() {
    assert_eq!(parse_fuse_mount_options(None), Ok(FuseMountOptions { fd: None }));
    assert_eq!(parse_fuse_mount_options(Some(b"fd=5,rootmode=40000")), Ok(FuseMountOptions { fd: Some(5) }));
    assert_eq!(parse_fuse_mount_options(Some(b"fd=1,fd=2")), Ok(FuseMountOptions { fd: Some(2) }));
    assert_eq!(parse_fuse_mount_options(Some(b"fd=x")), Err(SyscallError::InvalidArguments));
    assert_eq!(tmpfs_root_mode_from_mount_data(Some(b"size=1m,mode=1777")), Ok(Some(0o1777)));
    assert_eq!(tmpfs_root_mode_from_mount_data(Some(b"mode=700,mode=8")), Ok(Some(0o700)));
    assert_eq!(tmpfs_root_mode_from_mount_data(Some(b"mode=8")), Err(SyscallError::InvalidArguments));
    assert_eq!(tmpfs_root_mode_from_mount_data(None), Ok(None));
    assert_eq!(parse_unsigned_bytes(b"777", 8, u32::MAX as u64), Some(511));
    assert_eq!(parse_unsigned_bytes(b"+12", 10, 100), Some(12));
    assert_eq!(parse_unsigned_bytes(b"", 10, 100), None);
    assert_eq!(parse_unsigned_bytes(b"101", 10, 100), None);
    assert_eq!(split_bytes(b"a,,b", b','), vec![b"a".to_vec(), vec![], b"b".to_vec()]);
}

#[test]
fn mount_api_names_and_paths() {
    assert!(is_supported_fs_context_type(b"tmpfs"));
    assert!(!is_supported_fs_context_type(b"fuse"));
    assert!(is_supported_api_mount(b"fuse"));
    assert!(is_supported_api_mount(b"ext4"));
    assert!(!is_supported_api_mount(b"nfs"));
    assert_eq!(proc_self_fd_number(b"/proc/self/fd/12"), Ok(Some(12)));
    assert_eq!(proc_self_fd_number(b"/proc/self/fd/x"), Err(SyscallError::FileNotFound));
    assert_eq!(proc_self_fd_number(b"/proc/self/fd/1/a"), Ok(None));
    assert_eq!(proc_self_fd_number(b"/proc/self/fd/"), Ok(None));
    assert_eq!(proc_self_fd_number(b"/tmp"), Ok(None));
    assert!(is_api_mount_path(b"/run/.api-mounts/3"));
    assert!(!is_api_mount_path(b"/run/.api-mounts"));
    assert_eq!(next_api_mount_path(7), b"/run/.api-mounts/7".to_vec());
    assert!(find_bytes(b"abcdef", b"cd"));
    assert!(!find_bytes(b"abc", b"abcd"));
    assert!(is_proc_fd_path(b"/proc/12/fd/3"));
    assert!(!is_proc_fd_path(b"/proc/12/status"));
    assert_eq!(next_tmpfile_path(b"/", 3), b"/.tmpfile-3".to_vec());
    assert_eq!(next_tmpfile_path(b"/tmp", 4), b"/tmp/.tmpfile-4".to_vec());
}

fn stat() -> LinuxStat {
    LinuxStat {
        st_dev: 0x0803,
        st_ino: 12,
        st_nlink: 2,
        st_mode: 0o100644,
        st_uid: 1,
        st_gid: 2,
        st_rdev: 0,
        st_size: 100,
        st_blksize: 4096,
        st_blocks: 8,
        st_atime: 1,
        st_atime_nsec: 2,
        st_mtime: 3,
        st_mtime_nsec: 4,
        st_ctime: 5,
        st_ctime_nsec: 6,
    }
}

#[test]
fn file_system_information() {
    assert_eq!(linux_major(0x0803), 8);
    assert_eq!(linux_minor(0x0803), 3);
    assert_eq!(linux_major((0x1234u64 << 32) | 0x0805), (0x1234u32 & !0xfff) | 8);
    let stats = FileSystemStats {
        block_size: 4096,
        blocks: 10,
        blocks_free: 5,
        blocks_available: 4,
        files: 3,
        files_free: 2,
        max_name_len: 255,
        fragment_size: 4096,
    };
    assert_eq!(
        linux_statfs_with_flags(0xef53, stats, 1),
        LinuxStatFs {
            f_type: 0xef53,
            f_bsize: 4096,
            f_blocks: 10,
            f_bfree: 5,
            f_bavail: 4,
            f_files: 3,
            f_ffree: 2,
            f_fsid: 1,
            f_namelen: 255,
            f_frsize: 4096,
            f_flags: 1,
        }
    );
    assert_eq!(filesystem_magic_for_object(ObjectClass::Socket, Err(SyscallError::BadFileDescriptor)), Ok(SOCKFS_MAGIC));
    assert_eq!(filesystem_magic_for_object(ObjectClass::FileLike, Ok(0xef53)), Ok(0xef53));
    assert_eq!(filesystem_magic_for_object(ObjectClass::Other, Ok(1)), Err(SyscallError::BadFileDescriptor));
    assert_eq!(pseudo_mount_id(SOCKFS_MAGIC, 10), Some(11));
    assert_eq!(pseudo_mount_id(PIPEFS_MAGIC, 10), Some(13));
    assert_eq!(pseudo_mount_id(1, 10), None);
    assert_eq!(mount_id_for_object(ObjectClass::FileLike, 5, 10), Ok(5));
    assert_eq!(mount_id_for_object(ObjectClass::AnonInode, 5, 10), Ok(12));
    assert_eq!(mount_id_for_object(ObjectClass::Other, 5, 10), Err(SyscallError::BadFileDescriptor));
    assert_eq!(mount_root_for_object(ObjectClass::FileLike, true), Ok(true));
    assert_eq!(mount_root_for_object(ObjectClass::Pipe, true), Ok(false));
    assert_eq!(mount_root_for_object(ObjectClass::Other, true), Err(SyscallError::BadFileDescriptor));
    assert_eq!(newfstatat_flags_check(0x1900), Ok(()));
    assert_eq!(newfstatat_flags_check(0x2000), Err(SyscallError::InvalidArguments));
    assert_eq!(statx_flags_check(0x2000), Ok(()));
    assert_eq!(statx_flags_check(0x6000), Err(SyscallError::InvalidArguments));
    assert_eq!(statx_flags_check(0x8000), Err(SyscallError::InvalidArguments));
    assert_eq!(at_path_is_empty(false, 0), Ok(false));
    assert_eq!(at_path_is_empty(true, 0x1000), Ok(true));
    assert_eq!(at_path_is_empty(true, 0), Err(SyscallError::BadAddress));
    assert_eq!(renameat2_mode(0), Ok(RenameMode::Plain));
    assert_eq!(renameat2_mode(1), Ok(RenameMode::NoReplace));
    assert_eq!(renameat2_mode(2), Ok(RenameMode::Exchange));
    assert_eq!(renameat2_mode(3), Err(SyscallError::InvalidArguments));
    assert_eq!(renameat2_mode(4), Err(SyscallError::InvalidArguments));
    assert_eq!(renameat2_mode(8), Err(SyscallError::InvalidArguments));
    assert_eq!(readlink_copy_len(5, 3), 3);
    assert_eq!(readlink_copy_len(2, 3), 2);
}

#[test]
fn statx_reports_stat_fields_and_mount_information() {
    let x = statx_from_stat(stat(), 9, true);
    assert_eq!(x.stx_mask, 0x7ff | 0x1000);
    assert_eq!(x.stx_attributes, 0x2000);
    assert_eq!(x.stx_attributes_mask, 0x2000);
    assert_eq!(x.stx_mode, 0o100644);
    assert_eq!((x.stx_ino, x.stx_size, x.stx_blocks, x.stx_blksize, x.stx_nlink), (12, 100, 8, 4096, 2));
    assert_eq!((x.stx_dev_major, x.stx_dev_minor), (8, 3));
    assert_eq!(x.stx_mtime, StatxTimestamp { tv_sec: 3, tv_nsec: 4 });
    assert_eq!(x.stx_mnt_id, 9);
    assert_eq!(statx_from_stat(stat(), 9, false).stx_attributes, 0);
}

fn prctl_state() -> PrctlState {
    PrctlState {
        parent_death_signal: 0,
        dumpable: true,
        child_subreaper: false,
        no_new_privs: false,
        keep_capabilities: false,
        secure_bits: 0,
        capability_bounding: [u32::MAX, 0x1ff],
        capability_ambient: [0, 0],
    }
}

#[test]
fn prctl_options() {
    let mut s = prctl_state();
    assert_eq!(PrctlOption::try_from_i32(15), Some(PrctlOption::SetName));
    assert_eq!(PrctlOption::try_from_i32(5), None);
    assert_eq!(prctl(&mut s, 4, 0, 0, true), Ok((0, PrctlEffect::Nothing)));
    assert!(!s.dumpable);
    assert_eq!(prctl(&mut s, 3, 0, 0, true), Ok((0, PrctlEffect::Nothing)));
    assert_eq!(prctl(&mut s, 4, 2, 0, true), Err(SyscallError::InvalidArguments));
    assert_eq!(prctl(&mut s, 1, 9, 0, true), Ok((0, PrctlEffect::Nothing)));
    assert_eq!(prctl(&mut s, 2, 0x100, 0, true), Ok((0, PrctlEffect::WriteI32 { addr: 0x100, value: 9 })));
    assert_eq!(prctl(&mut s, 1, 99, 0, false), Err(SyscallError::InvalidArguments));
    assert_eq!(prctl(&mut s, 15, 0x200, 0, true), Ok((0, PrctlEffect::SetThreadName { addr: 0x200 })));
    assert_eq!(prctl(&mut s, 16, 0, 0, true), Err(SyscallError::BadAddress));
    assert_eq!(prctl(&mut s, 16, 0x300, 0, true), Ok((0, PrctlEffect::WriteThreadName { addr: 0x300 })));
    assert_eq!(prctl(&mut s, 38, 1, 1, true), Err(SyscallError::InvalidArguments));
    assert_eq!(prctl(&mut s, 38, 1, 0, true), Ok((0, PrctlEffect::Nothing)));
    assert_eq!(prctl(&mut s, 39, 0, 0, true), Ok((1, PrctlEffect::Nothing)));
    assert_eq!(prctl(&mut s, 23, 40, 0, true), Ok((1, PrctlEffect::Nothing)));
    assert_eq!(prctl(&mut s, 24, 40, 0, true), Ok((0, PrctlEffect::Nothing)));
    assert_eq!(prctl(&mut s, 23, 40, 0, true), Ok((0, PrctlEffect::Nothing)));
    assert_eq!(s.capability_bounding, [u32::MAX, 0xff]);
    assert_eq!(prctl(&mut s, 23, 64, 0, true), Err(SyscallError::InvalidArguments));
    assert_eq!(prctl(&mut s, 22, 0, 0, true), Err(SyscallError::InvalidArguments));
    assert_eq!(prctl(&mut s, 999, 0, 0, true), Err(SyscallError::InvalidArguments));
}

#[test]
fn thread_names() {
    let mut expected = [0u8; 16];
    expected[..3].copy_from_slice(b"abc");
    assert_eq!(prctl_name_from_bytes(false, b"abc"), Ok(expected));
    let long = prctl_name_from_bytes(false, b"0123456789abcdef").unwrap();
    assert_eq!(&long[..15], b"0123456789abcde");
    assert_eq!(long[15], 0);
    assert_eq!(prctl_name_from_bytes(true, b""), Err(SyscallError::BadAddress));
    assert_eq!(last_path_segment(b"/usr/bin/ls"), b"ls".to_vec());
    assert_eq!(last_path_segment(b"dir/"), Vec::<u8>::new());
    let mut sh = [0u8; 16];
    sh[..2].copy_from_slice(b"sh");
    assert_eq!(current_thread_name([0; 16], Some(b"/bin/sh")), sh);
    let mut main = [0u8; 16];
    main[..4].copy_from_slice(b"main");
    assert_eq!(current_thread_name([0; 16], None), main);
    let mut named = [0u8; 16];
    named[0] = b'x';
    assert_eq!(current_thread_name(named, Some(b"/bin/sh")), named);
}

#[test]
fn text_helpers() {
    assert_eq!(decimal_bytes(0), b"0".to_vec());
    assert_eq!(decimal_bytes(1234), b"1234".to_vec());
    let mut out = b"x".to_vec();
    push_decimal(&mut out, 56);
    push_hex8(&mut out, 0xdead_beef);
    push_padded(&mut out, b"7", 3);
    push_padded(&mut out, b"1234", 3);
    push_all(&mut out, b"!");
    assert_eq!(out, b"x56deadbeef  71234!".to_vec());
}

#[test]
fn open_flags_and_open_how() {
    assert_eq!(file_flags_from_open_flags(2 | 0o2000 | 0o4000), Ok(2 | 0o2000 | 0o4000));
    assert_eq!(file_flags_from_open_flags(0o100), Ok(0));
    assert_eq!(file_flags_from_open_flags(3), Err(SyscallError::InvalidArguments));
    let how = LinuxOpenHow { flags: 0x40, mode: 0o644, resolve: 0x08 };
    assert_eq!(read_open_how(false, 24, Ok(how), Ok(vec![])), Ok((0x40, 0o644, 0x08)));
    assert_eq!(read_open_how(true, 24, Ok(how), Ok(vec![])), Err(SyscallError::BadAddress));
    assert_eq!(read_open_how(false, 23, Ok(how), Ok(vec![])), Err(SyscallError::InvalidArguments));
    assert_eq!(read_open_how(false, 24, Err(SyscallError::BadAddress), Ok(vec![])), Err(SyscallError::BadAddress));
    assert_eq!(read_open_how(false, 32, Ok(how), Ok(vec![0; 8])), Ok((0x40, 0o644, 0x08)));
    assert_eq!(read_open_how(false, 32, Ok(how), Ok(vec![0, 1])), Err(SyscallError::ArgumentListTooLong));
    assert_eq!(read_open_how(false, 32, Ok(how), Err(SyscallError::BadAddress)), Err(SyscallError::BadAddress));
    let no_create = LinuxOpenHow { flags: 0, mode: 0o644, resolve: 0 };
    assert_eq!(read_open_how(false, 24, Ok(no_create), Ok(vec![])), Err(SyscallError::InvalidArguments));
    let bad_mode = LinuxOpenHow { flags: 0x40, mode: 0o10000, resolve: 0 };
    assert_eq!(read_open_how(false, 24, Ok(bad_mode), Ok(vec![])), Err(SyscallError::InvalidArguments));
    let bad_resolve = LinuxOpenHow { flags: 0, mode: 0, resolve: 0x40 };
    assert_eq!(read_open_how(false, 24, Ok(bad_resolve), Ok(vec![])), Err(SyscallError::InvalidArguments));
    let huge = LinuxOpenHow { flags: 1 << 40, mode: 0, resolve: 0 };
    assert_eq!(read_open_how(false, 24, Ok(huge), Ok(vec![])), Err(SyscallError::InvalidArguments));
    assert!(all_zero(&vec![0, 0]));
    assert!(!all_zero(&vec![0, 1]));
}

#[test]
fn openat2_resolve_restrictions() {
    assert!(starts_with(b"/proc/1", b"/proc"));
    assert!(has_dotdot_component(b"a/../b"));
    assert!(has_dotdot_component(b".."));
    assert!(!has_dotdot_component(b"a/..b"));
    assert_eq!(validate_openat2_resolve(b"/etc", 0, Ok(true)), Ok(()));
    assert_eq!(validate_openat2_resolve(b"/etc", 0x08, Ok(false)), Err(SyscallError::CrossDeviceLink));
    assert_eq!(validate_openat2_resolve(b"a/../b", 0x08, Ok(false)), Err(SyscallError::CrossDeviceLink));
    assert_eq!(validate_openat2_resolve(b"/etc", 0x10, Ok(false)), Err(SyscallError::FileNotFound));
    assert_eq!(validate_openat2_resolve(b"/proc/1", 0x01, Ok(false)), Err(SyscallError::CrossDeviceLink));
    assert_eq!(validate_openat2_resolve(b"/proc/self/exe", 0x02, Ok(false)), Err(SyscallError::TooManySymbolicLinks));
    assert_eq!(validate_openat2_resolve(b"x", 0x04, Ok(true)), Err(SyscallError::TooManySymbolicLinks));
    assert_eq!(validate_openat2_resolve(b"x", 0x04, Ok(false)), Ok(()));
    assert_eq!(validate_openat2_resolve(b"x", 0x04, Err(SyscallError::FileNotFound)), Err(SyscallError::FileNotFound));
}

#[test]
fn writable_opens_on_read_only_mounts() {
    assert!(is_proc_sysctl_path(b"/proc/sys/kernel/x"));
    assert!(is_proc_sysctl_path(b"/sys/x"));
    assert!(!is_proc_sysctl_path(b"/etc"));
    assert_eq!(ensure_open_writable_mount(b"/proc/sys/x", 1, Err(SyscallError::ReadOnlyFileSystem)), Ok(()));
    assert_eq!(ensure_open_writable_mount(b"/etc/x", 1, Err(SyscallError::ReadOnlyFileSystem)), Err(SyscallError::ReadOnlyFileSystem));
    assert_eq!(ensure_open_writable_mount(b"/etc/x", 0, Err(SyscallError::ReadOnlyFileSystem)), Ok(()));
    assert_eq!(ensure_open_writable_mount(b"/etc/x", 0x200, Err(SyscallError::ReadOnlyFileSystem)), Err(SyscallError::ReadOnlyFileSystem));
    assert_eq!(ensure_open_writable_mount(b"/etc/x", 0o10000001, Err(SyscallError::ReadOnlyFileSystem)), Ok(()));
    assert_eq!(ensure_open_writable_mount(b"/etc/x", 2, Err(SyscallError::FileNotFound)), Err(SyscallError::FileNotFound));
}

#[test]
fn user_paths_and_memfd_names() {
    assert_eq!(path_from_raw(b"/a/b\0junk"), Ok(b"/a/b".to_vec()));
    assert_eq!(path_from_raw(b"abc"), Err(SyscallError::BadAddress));
    let mut long_component = vec![b'x'; 256];
    long_component.push(0);
    assert_eq!(path_from_raw(&long_component), Err(SyscallError::PathTooLong));
    assert_eq!(path_from_raw(&vec![b'/'; 5000]), Err(SyscallError::PathTooLong));
    let mut max_component = vec![b'x'; 255];
    max_component.push(0);
    assert_eq!(path_from_raw(&max_component).map(|p| p.len()), Ok(255));
    assert_eq!(memfd_name_from_raw(b"demo/memfd\0"), Ok(b"demo/memfd".to_vec()));
    assert_eq!(memfd_name_from_raw(&vec![b'm'; 300]), Err(SyscallError::InvalidArguments));
    assert_eq!(memfd_name_from_raw(b"mem"), Err(SyscallError::BadAddress));
    assert_eq!(sanitize_memfd_name(&b"demo/memfd".to_vec()), b"demo_memfd".to_vec());
    assert_eq!(sanitize_memfd_name(&vec![]), b"anon".to_vec());
}

fn event(data: u64) -> LinuxIoEvent {
    LinuxIoEvent { data, obj: 0x10, res: 1, res2: 0 }
}

#[test]
fn aio_context_syscalls_follow_linux_lifecycle_rules() {
    assert_eq!(io_setup_check(1, true), Err(SyscallError::BadAddress));
    assert_eq!(io_setup_check(0, false), Err(SyscallError::InvalidArguments));
    assert_eq!(io_setup_check(16, false), Ok(()));
    assert_eq!(
        context_ring_header(0x7000),
        vec![(0x7008, 0), (0x700c, 0), (0x7010, 0xa10a_10a1)]
    );
    let mut contexts = AioContexts::new();
    assert_eq!(contexts.create(0x7000, 16), Ok(()));
    assert!(contexts.contains(0x7000));
    assert_eq!(contexts.create(0x7000, 16), Err(SyscallError::InvalidArguments));
    assert_eq!(contexts.create(0, 16), Err(SyscallError::InvalidArguments));
    assert_eq!(contexts.create(0x8000, 0), Err(SyscallError::InvalidArguments));
    assert_eq!(contexts.destroy(0x7000), Ok(()));
    assert_eq!(contexts.destroy(0x7000), Err(SyscallError::InvalidArguments));
    assert_eq!(contexts.destroy(0), Err(SyscallError::InvalidArguments));
    assert!(!contexts.contains(0x7000));
}

#[test]
fn aio_completions_come_out_oldest_first() {
    let mut contexts = AioContexts::new();
    assert_eq!(contexts.create(0x7000, 3), Ok(()));
    assert_eq!(contexts.commit_completions(0x7000, vec![event(1), event(2)]), Ok(2));
    assert_eq!(contexts.commit_completions(0x7000, vec![event(3), event(4)]), Err(SyscallError::TryAgain));
    assert_eq!(contexts.commit_completions(0x7000, vec![event(3)]), Ok(1));
    assert_eq!(contexts.commit_completions(0x9000, vec![event(5)]), Err(SyscallError::InvalidArguments));
    assert_eq!(contexts.take_completions(0x7000, 2, 1), Ok(vec![event(1), event(2)]));
    // Fewer than asked for: what was there is taken and the call fails.
    assert_eq!(contexts.take_completions(0x7000, 5, 2), Err(SyscallError::TryAgain));
    assert_eq!(contexts.take_completions(0x7000, 5, 0), Ok(vec![]));
    assert_eq!(contexts.take_completions(0x9000, 5, 0), Err(SyscallError::InvalidArguments));
}

#[test]
fn aio_submission_checks() {
    let iocb = LinuxIocb {
        aio_data: 9,
        aio_key: 0,
        aio_rw_flags: 0,
        aio_lio_opcode: 1,
        aio_reqprio: 0,
        aio_fildes: 3,
        aio_buf: 0x1000,
        aio_nbytes: 12,
        aio_offset: 0,
        aio_reserved2: 0,
        aio_flags: 1,
        aio_resfd: 4,
    };
    assert_eq!(check_iocb(true, &iocb), Err(SyscallError::BadAddress));
    assert_eq!(check_iocb(false, &iocb), Ok(()));
    assert_eq!(check_iocb(false, &LinuxIocb { aio_lio_opcode: 0, ..iocb }), Err(SyscallError::InvalidArguments));
    assert!(wants_eventfd_signal(&iocb));
    assert!(!wants_eventfd_signal(&LinuxIocb { aio_flags: 0, ..iocb }));
    assert_eq!(completion_event(&iocb, 0x500, 12), LinuxIoEvent { data: 9, obj: 0x500, res: 12, res2: 0 });
    assert_eq!(io_submit_check(-1, false), Err(SyscallError::InvalidArguments));
    assert_eq!(io_submit_check(0, true), Ok(0));
    assert_eq!(io_submit_check(2, true), Err(SyscallError::BadAddress));
    assert_eq!(io_submit_check(2, false), Ok(2));
    let mut done = Vec::new();
    assert_eq!(record_submit_outcome(&mut done, Err(SyscallError::BadFileDescriptor)), SubmitStep::Fail(SyscallError::BadFileDescriptor));
    assert_eq!(record_submit_outcome(&mut done, Ok(event(1))), SubmitStep::Continue);
    assert_eq!(record_submit_outcome(&mut done, Err(SyscallError::BadFileDescriptor)), SubmitStep::Stop);
    assert_eq!(done, vec![event(1)]);
    assert_eq!(io_getevents_check(1, 0, false), Err(SyscallError::InvalidArguments));
    assert_eq!(io_getevents_check(-1, 2, false), Err(SyscallError::InvalidArguments));
    assert_eq!(io_getevents_check(0, 0, true), Ok((0, 0)));
    assert_eq!(io_getevents_check(0, 2, true), Err(SyscallError::BadAddress));
    assert_eq!(io_getevents_check(1, 2, false), Ok((1, 2)));
}

#[test]
fn rseq_registration_round_trip() {
    let mut list = RobustList { head: 0, len: 0 };
    assert_eq!(set_robust_list(&mut list, 0x10, 23), Err(SyscallError::InvalidArguments));
    assert_eq!(list, RobustList { head: 0, len: 0 });
    assert_eq!(set_robust_list(&mut list, 0x10, 24), Ok(()));
    assert_eq!(list, RobustList { head: 0x10, len: 24 });
    let mut r = RseqRegistration { area: 0, len: 0, flags: 0, sig: 0 };
    assert_eq!(rseq_check(&r, 0x1000, 32, 0, 0x53), Ok(RseqRequest::Register));
    apply_rseq_request(&mut r, RseqRequest::Register, 0x1000, 32, 0, 0x53);
    assert_eq!(r, RseqRegistration { area: 0x1000, len: 32, flags: 0, sig: 0x53 });
    assert_eq!(rseq_check(&r, 0x2000, 32, 0, 0x53), Err(SyscallError::DeviceOrResourceBusy));
    assert_eq!(rseq_check(&r, 0x1000, 32, 1, 0x54), Err(SyscallError::InvalidArguments));
    assert_eq!(rseq_check(&r, 0x1000, 32, 1, 0x53), Ok(RseqRequest::Unregister));
    apply_rseq_request(&mut r, RseqRequest::Unregister, 0x1000, 32, 1, 0x53);
    assert_eq!(r, RseqRegistration { area: 0, len: 0, flags: 0, sig: 0 });
    assert_eq!(rseq_check(&r, 0x1000, 32, 2, 0), Err(SyscallError::InvalidArguments));
    assert_eq!(rseq_check(&r, 0x1000, 31, 0, 0), Err(SyscallError::InvalidArguments));
    assert_eq!(rseq_check(&r, 0, 32, 0, 0), Err(SyscallError::InvalidArguments));
}

#[test]
fn eventfd_syscalls_follow_linux_flag_rules() {
    assert_eq!(
        eventfd_plan(7, 0),
        Ok(EventFdPlan { initial_value: 7, semaphore: false, nonblock: false, cloexec: false })
    );
    assert_eq!(
        eventfd_plan(0, 0x1 | 0o4_000 | 0o2_000_000),
        Ok(EventFdPlan { initial_value: 0, semaphore: true, nonblock: true, cloexec: true })
    );
    assert_eq!(eventfd_plan(0, 0x8000_0000), Err(SyscallError::InvalidArguments));
}

#[test]
fn inotify_init_syscalls_follow_linux_flag_rules() {
    assert_eq!(inotify_init1_plan(0), Ok((false, false)));
    assert_eq!(inotify_init1_plan(0o4_000 | 0o2_000_000), Ok((true, true)));
    assert_eq!(inotify_init1_plan(i32::MIN), Err(SyscallError::InvalidArguments));
}

#[test]
fn bpf_commands_and_attributes() {
    assert_eq!(BpfCommand::try_from_u32(5), Some(BpfCommand::ProgLoad));
    assert_eq!(BpfCommand::try_from_u32(3), None);
    assert_eq!(bpf_command(0, true), Err(SyscallError::BadAddress));
    assert_eq!(bpf_command(3, false), Err(SyscallError::InvalidArguments));
    assert_eq!(bpf_command(9, false), Ok(BpfCommand::ProgDetach));
    assert_eq!(check_attr_size(BpfCommand::MapCreate, 43), Err(SyscallError::InvalidArguments));
    assert_eq!(check_attr_size(BpfCommand::MapCreate, 44), Ok(()));
    assert_eq!(BpfCommand::ProgLoad.attr_size(), 64);
    assert_eq!(BpfCommand::MapLookupElem.attr_size(), 32);
    let map = BpfMapCreateAttr {
        map_type: 2,
        key_size: 4,
        value_size: 8,
        max_entries: 1,
        map_flags: 0,
        inner_map_fd: 0,
        numa_node: 0,
        map_name: [0; 16],
    };
    assert_eq!(map_create_check(&map), Ok(()));
    assert_eq!(map_create_check(&BpfMapCreateAttr { key_size: 0, ..map }), Err(SyscallError::InvalidArguments));
    let prog = BpfProgLoadAttr {
        prog_type: 1,
        insn_cnt: 2,
        insns: 0x1000,
        license: 0x2000,
        log_level: 0,
        log_size: 0,
        log_buf: 0,
        kern_version: 0,
        prog_flags: 0,
        prog_name: [0; 16],
    };
    assert_eq!(prog_load_check(&prog), Ok(()));
    assert_eq!(prog_load_check(&BpfProgLoadAttr { prog_type: 0, ..prog }), Err(SyscallError::InvalidArguments));
    assert_eq!(prog_load_check(&BpfProgLoadAttr { license: 0, ..prog }), Err(SyscallError::BadAddress));
    assert_eq!(bpf_fd_number(u32::MAX), Err(SyscallError::BadFileDescriptor));
    assert_eq!(bpf_fd_number(3), Ok(3));
    assert_eq!(user_bytes_check(true, 0), Ok(false));
    assert_eq!(user_bytes_check(true, 4), Err(SyscallError::BadAddress));
    assert_eq!(user_bytes_check(false, 4), Ok(true));
}

#[test]
fn path_resolution_decisions() {
    assert_eq!(path_base(b"", 3), Err(SyscallError::FileNotFound));
    assert_eq!(path_base(b"/x", 3), Ok(PathBase::Root));
    assert_eq!(path_base(b"x", -100), Ok(PathBase::CurrentDirectory));
    assert_eq!(path_base(b"x", 3), Ok(PathBase::Descriptor(3)));
    assert_eq!(descriptor_base_check(true, true), Ok(()));
    assert_eq!(descriptor_base_check(true, false), Err(SyscallError::NotADirectory));
    assert_eq!(descriptor_base_check(false, true), Err(SyscallError::NotADirectory));
    assert_eq!(inherited_create_gid(0o2775, 50, 10), 50);
    assert_eq!(inherited_create_gid(0o775, 50, 10), 10);
    assert_eq!(tmpfile_attempt_step(0, Ok(())), TmpfileStep::Created);
    assert_eq!(tmpfile_attempt_step(0, Err(SyscallError::FileAlreadyExists)), TmpfileStep::Retry);
    assert_eq!(
        tmpfile_attempt_step(127, Err(SyscallError::FileAlreadyExists)),
        TmpfileStep::Fail(SyscallError::FileAlreadyExists)
    );
    assert_eq!(tmpfile_attempt_step(3, Err(SyscallError::NoSpaceLeft)), TmpfileStep::Fail(SyscallError::NoSpaceLeft));
    assert_eq!(mount_setattr_target_route(3, true, false, 0), Err(SyscallError::BadAddress));
    assert_eq!(mount_setattr_target_route(3, true, false, 0x1000), Ok(TargetRoute::Descriptor(3)));
    assert_eq!(mount_setattr_target_route(3, false, true, 0), Err(SyscallError::InvalidArguments));
    assert_eq!(mount_setattr_target_route(3, false, true, 0x1000), Ok(TargetRoute::Descriptor(3)));
    assert_eq!(mount_setattr_target_route(3, false, false, 0), Ok(TargetRoute::Path));
    assert_eq!(path_lookup_route(3, true, true, false), PathLookupRoute::ByDescriptor(3));
    assert_eq!(path_lookup_route(3, true, false, true), PathLookupRoute::ByPath { follow: false });
    assert_eq!(path_lookup_route(3, false, true, false), PathLookupRoute::ByPath { follow: true });
    assert_eq!(fifo_open_plan(0), Ok((FifoEnd::Read, false)));
    assert_eq!(fifo_open_plan(1 | 0o4000), Ok((FifoEnd::Write, true)));
    assert_eq!(fifo_open_plan(2), Ok((FifoEnd::ReadWrite, false)));
    assert_eq!(fifo_open_plan(3), Err(SyscallError::InvalidArguments));
}

#[test]
fn sync_needs_a_file_directory_or_block_device() {
    assert_eq!(check_syncable_file(0o100644), Ok(()));
    assert_eq!(check_syncable_file(0o040755), Ok(()));
    assert_eq!(check_syncable_file(0o060660), Ok(()));
    assert_eq!(check_syncable_file(0o020666), Err(SyscallError::InvalidArguments));
    assert_eq!(check_syncable_file(0o010600), Err(SyscallError::InvalidArguments));
}

#[test]
fn mount_api_file_system_kinds() {
    assert_eq!(create_api_filesystem(b"proc"), Ok(ApiFilesystemKind::Proc));
    assert_eq!(create_api_filesystem(b"sysfs"), Ok(ApiFilesystemKind::Sys));
    assert_eq!(create_api_filesystem(b"devtmpfs"), Ok(ApiFilesystemKind::DevTmp));
    assert_eq!(create_api_filesystem(b"tmpfs"), Ok(ApiFilesystemKind::Tmp));
    assert_eq!(create_api_filesystem(b"devpts"), Ok(ApiFilesystemKind::DevPts));
    assert_eq!(create_api_filesystem(b"cgroup2"), Ok(ApiFilesystemKind::Cgroup2));
    assert_eq!(create_api_filesystem(b"securityfs"), Ok(ApiFilesystemKind::Tmp));
    assert_eq!(create_api_filesystem(b"ext4"), Err(SyscallError::NoDevice));
    assert_eq!(create_api_filesystem(b"fuse"), Err(SyscallError::NoDevice));
}

#[test]
fn rename_exchange_probes_for_a_free_name() {
    assert_eq!(exchange_candidate_step(0, Err(SyscallError::FileNotFound)), ExchangeStep::Use);
    assert_eq!(exchange_candidate_step(0, Ok(())), ExchangeStep::Next);
    assert_eq!(exchange_candidate_step(255, Ok(())), ExchangeStep::Fail(SyscallError::FileAlreadyExists));
    assert_eq!(exchange_candidate_step(3, Err(SyscallError::AccessDenied)), ExchangeStep::Fail(SyscallError::AccessDenied));
}

#[test]
fn exchange_candidates_are_hidden_names_in_the_parent() {
    assert_eq!(exchange_candidate_path(b"/tmp", 0), b"/tmp/.seele-rename-exchange-0".to_vec());
    assert_eq!(exchange_candidate_path(b"/", 17), b"/.seele-rename-exchange-17".to_vec());
    assert_eq!(exchange_candidate_path(b"/a/b", 255), b"/a/b/.seele-rename-exchange-255".to_vec());
}
