use seele_syscalls::chunked_io::{
    advance_offset, check_iovec_count, iovec_total_len, read_scratch_len,
    validate_iovecs_readable, CopyAction, CopyTransfer, IovecAction, IovecTransfer,
    LinearTransfer, LinuxIovec,
};
use seele_syscalls::error::SyscallError;
use seele_syscalls::object_io::{
    check_positioned_io_flags, fionbio_flags, ioctl_route, IoctlRoute, decode_preadv2_args, ensure_object_readable,
    ensure_object_writable, positioned_io_flags_from_raw, positioned_io_offset, ranges_overlap,
    validate_copy_file_range, CopyDestination, CopySource, FileIdentity, FileLikeType,
    PositionedIoOffset,
};
use seele_syscalls::process_clone::{
    clone3_route, clone_cleared_signal_actions, clone_process, clone_route, contains_flag,
    kcmp_check, kcmp_order, pidfd_open_check, setns_flags_check, unshare_decision,
    CloneProcessArgs, CloneRoute, LinuxCloneArgs, SignalAction, SignalHandlingType,
    CLONE_CHILD_CLEARTID, CLONE_FILES, CLONE_FS, CLONE_NEWNET, CLONE_PARENT_SETTID, CLONE_PIDFD,
    CLONE_SETTLS, CLONE_SIGHAND, CLONE_THREAD, CLONE_VFORK, CLONE_VM,
};

fn process_args(flags: u64) -> CloneProcessArgs {
    CloneProcessArgs {
        clone_flags: flags,
        raw_flags: flags,
        exit_signal: 17,
        stack_pointer: 0,
        parent_tid: 0x100,
        child_tid: 0x200,
        tls: 0x300,
        pidfd_ptr: 0,
        cgroup_fd: 0,
    }
}

fn clone_args(flags: u64) -> LinuxCloneArgs {
    LinuxCloneArgs {
        flags,
        pidfd: 0,
        child_tid: 0x200,
        parent_tid: 0x100,
        exit_signal: 17,
        stack: 0,
        stack_size: 0,
        tls: 0,
        set_tid: 0,
        set_tid_size: 0,
        cgroup: 0,
    }
}

#[test]
fn fork_like_clone_plans_a_new_process() {
    let plan = clone_process(process_args(17)).unwrap();
    assert!(!plan.vfork);
    assert!(!plan.share_addrspace);
    assert_eq!(plan.exit_signal, 17);
    assert_eq!(plan.child_stack, None);
    assert_eq!(plan.parent_tid_at, None);
    let vfork = clone_process(process_args(CLONE_VM | CLONE_VFORK | CLONE_PARENT_SETTID | 17)).unwrap();
    assert!(vfork.vfork && vfork.share_addrspace && vfork.prefault_parent_tid);
    assert_eq!(vfork.parent_tid_at, Some(0x100));
    assert!(vfork.parent_tid_in_child);
    let mut pidfd = process_args(CLONE_PIDFD | 17);
    assert_eq!(clone_process(pidfd), Err(SyscallError::BadAddress));
    pidfd.pidfd_ptr = 0x400;
    assert_eq!(clone_process(pidfd).unwrap().pidfd_at, Some(0x400));
    let mut same = process_args(CLONE_PIDFD | CLONE_PARENT_SETTID);
    same.pidfd_ptr = 0x100;
    assert_eq!(clone_process(same), Err(SyscallError::NoSyscall));
    let thread_bit = process_args(CLONE_THREAD);
    assert_eq!(clone_process(thread_bit), Err(SyscallError::NoSyscall));
    assert!(contains_flag(CLONE_VM | CLONE_FS, CLONE_FS));
    assert!(!contains_flag(CLONE_VM, CLONE_FS | CLONE_VM));
}

#[test]
fn clone_routes_threads_and_processes() {
    let thread_flags = CLONE_VM | CLONE_FS | CLONE_FILES | CLONE_SIGHAND | CLONE_THREAD | CLONE_SETTLS
        | CLONE_CHILD_CLEARTID;
    match clone_route(thread_flags, 0x9000, 0x100, 0x200, 0x300).unwrap() {
        CloneRoute::Thread(plan) => {
            assert_eq!(plan.child_stack, Some(0x9000));
            assert_eq!(plan.child_tls, Some(0x300));
            assert_eq!(plan.clear_child_tid, Some(0x200));
            assert_eq!(plan.parent_tid_at, None);
        }
        CloneRoute::Process(_) => panic!("a thread was expected"),
    }
    assert_eq!(clone_route(CLONE_THREAD | CLONE_VM, 0, 0, 0, 0).err(), Some(SyscallError::NoSyscall));
    assert_eq!(
        clone_route(thread_flags | CLONE_NEWNET, 0, 0, 0, 0).err(),
        Some(SyscallError::InvalidArguments)
    );
    assert_eq!(clone_route(CLONE_VFORK, 0, 0, 0, 0).err(), Some(SyscallError::NoSyscall));
    assert_eq!(clone_route(CLONE_VM, 0, 0, 0, 0).err(), Some(SyscallError::NoSyscall));
    match clone_route(CLONE_PIDFD | 17, 0, 0x100, 0x200, 0).unwrap() {
        CloneRoute::Process(args) => {
            assert_eq!(args.exit_signal, 17);
            assert_eq!(args.pidfd_ptr, 0x100);
            assert_eq!(args.clone_flags, CLONE_PIDFD);
        }
        CloneRoute::Thread(_) => panic!("a process was expected"),
    }
}

#[test]
fn clone3_checks_its_arguments() {
    assert_eq!(clone3_route(87, false, Ok(clone_args(0))).err(), Some(SyscallError::InvalidArguments));
    assert_eq!(clone3_route(88, true, Ok(clone_args(0))).err(), Some(SyscallError::BadAddress));
    assert_eq!(clone3_route(88, false, Err(SyscallError::BadAddress)).err(), Some(SyscallError::BadAddress));
    let mut set_tid = clone_args(0);
    set_tid.set_tid = 1;
    assert_eq!(clone3_route(88, false, Ok(set_tid)).err(), Some(SyscallError::NoSyscall));
    assert_eq!(clone3_route(88, false, Ok(clone_args(CLONE_PIDFD))).err(), Some(SyscallError::InvalidArguments));
    let mut stack = clone_args(0);
    stack.stack = 0x1000;
    stack.stack_size = 0x2000;
    match clone3_route(88, false, Ok(stack)).unwrap() {
        CloneRoute::Process(args) => {
            assert_eq!(args.stack_pointer, 0x3000);
            assert_eq!(args.exit_signal, 17);
        }
        CloneRoute::Thread(_) => panic!("a process was expected"),
    }
}

#[test]
fn unshare_setns_pidfd_and_kcmp() {
    assert_eq!(unshare_decision(CLONE_NEWNET), Ok(true));
    assert_eq!(unshare_decision(CLONE_FS | CLONE_FILES), Ok(false));
    assert_eq!(unshare_decision(0x8000_0000), Err(SyscallError::InvalidArguments));
    assert_eq!(unshare_decision(0x20000), Err(SyscallError::OperationNotSupported));
    assert_eq!(unshare_decision(CLONE_VM), Err(SyscallError::InvalidArguments));
    assert_eq!(setns_flags_check(0), Ok(()));
    assert_eq!(setns_flags_check(0x4000_0000), Ok(()));
    assert_eq!(setns_flags_check(0x2000_0000), Err(SyscallError::InvalidArguments));
    assert_eq!(pidfd_open_check(5, 0), Ok(5));
    assert_eq!(pidfd_open_check(0, 0), Err(SyscallError::InvalidArguments));
    assert_eq!(pidfd_open_check(5, 1), Err(SyscallError::InvalidArguments));
    assert_eq!(kcmp_check(3, 3, 3, 0), Ok(()));
    assert_eq!(kcmp_check(0, 3, 3, 0), Err(SyscallError::InvalidArguments));
    assert_eq!(kcmp_check(4, 3, 3, 0), Err(SyscallError::PermissionDenied));
    assert_eq!(kcmp_check(3, 3, 3, 1), Err(SyscallError::InvalidArguments));
    assert_eq!(kcmp_order(true, 1, 2), 0);
    assert_eq!(kcmp_order(false, 1, 2), 1);
    assert_eq!(kcmp_order(false, 2, 1), 2);
    assert_eq!(kcmp_order(false, 2, 2), 0);
}

#[test]
fn clear_sighand_keeps_only_ignored_signals() {
    let default = SignalAction { handling_type: SignalHandlingType::Default, mask: 0, flags: 0 };
    let ignore = SignalAction { handling_type: SignalHandlingType::Ignore, mask: 1, flags: 2 };
    let handler = SignalAction { handling_type: SignalHandlingType::Function1(0x400), mask: 3, flags: 4 };
    let out = clone_cleared_signal_actions(&[ignore, handler, default], &[default, default, default]);
    assert_eq!(out, vec![ignore, default, default]);
}

fn file(kind: FileLikeType, inode: u64) -> Result<FileIdentity, SyscallError> {
    Ok(FileIdentity { kind, inode })
}

fn source(inode: u64, offset: i64) -> CopySource {
    CopySource {
        is_file_like: true,
        info: file(FileLikeType::File, inode),
        device_backed: false,
        flags: Ok(0),
        mount_id: 1,
        offset: Ok(offset),
    }
}

fn destination(inode: u64, offset: i64) -> CopyDestination {
    CopyDestination {
        is_file_like: true,
        info: file(FileLikeType::File, inode),
        device_backed: false,
        flags: Ok(2),
        attributes: Ok(0),
        mount_id: 1,
        offset: Ok(offset),
    }
}

#[test]
fn copy_file_range_checks() {
    assert_eq!(validate_copy_file_range(source(1, 0), destination(2, 0), 10), Ok(()));
    assert_eq!(validate_copy_file_range(source(1, 0), destination(1, 10), 10), Ok(()));
    assert_eq!(validate_copy_file_range(source(1, 0), destination(1, 5), 10), Err(SyscallError::InvalidArguments));
    let mut dir = destination(2, 0);
    dir.info = file(FileLikeType::Directory, 2);
    assert_eq!(validate_copy_file_range(source(1, 0), dir, 1), Err(SyscallError::IsADirectory));
    let mut append = destination(2, 0);
    append.flags = Ok(2 | 0o2000);
    assert_eq!(validate_copy_file_range(source(1, 0), append, 1), Err(SyscallError::BadFileDescriptor));
    let mut immutable = destination(2, 0);
    immutable.attributes = Ok(0x10);
    assert_eq!(validate_copy_file_range(source(1, 0), immutable, 1), Err(SyscallError::PermissionDenied));
    let mut write_only = source(1, 0);
    write_only.flags = Ok(1);
    assert_eq!(validate_copy_file_range(write_only, destination(2, 0), 1), Err(SyscallError::BadFileDescriptor));
    assert_eq!(validate_copy_file_range(source(1, 0), destination(2, -1), 1), Err(SyscallError::InvalidArguments));
    assert_eq!(
        validate_copy_file_range(source(1, 0), destination(2, i64::MAX), 1),
        Err(SyscallError::FileTooLarge)
    );
    assert_eq!(
        validate_copy_file_range(source(1, 0), destination(2, 0), usize::MAX),
        Err(SyscallError::ValueTooLarge)
    );
    assert!(ranges_overlap(0, 5, 10));
    assert!(!ranges_overlap(0, 10, 10));
    assert!(!ranges_overlap(0, 0, 0));
    assert!(ranges_overlap(i64::MAX, 0, 1));
}

#[test]
fn object_access_and_positioned_io() {
    assert_eq!(ensure_object_readable(true, Ok(1)), Err(SyscallError::BadFileDescriptor));
    assert_eq!(ensure_object_readable(true, Ok(2)), Ok(()));
    assert_eq!(ensure_object_readable(false, Err(SyscallError::BadFileDescriptor)), Ok(()));
    assert_eq!(ensure_object_writable(true, Ok(0)), Err(SyscallError::BadFileDescriptor));
    assert_eq!(ensure_object_writable(true, Ok(1)), Ok(()));
    assert_eq!(ensure_object_writable(true, Err(SyscallError::NoDevice)), Err(SyscallError::NoDevice));
    assert_eq!(positioned_io_offset(-1), Ok(PositionedIoOffset::Current));
    assert_eq!(positioned_io_offset(-2), Err(SyscallError::InvalidArguments));
    assert_eq!(positioned_io_offset(7), Ok(PositionedIoOffset::Explicit(7)));
    assert_eq!(check_positioned_io_flags(0x1e), Ok(()));
    assert_eq!(check_positioned_io_flags(0x01), Err(SyscallError::OperationNotSupported));
    assert_eq!(check_positioned_io_flags(0x20), Err(SyscallError::OperationNotSupported));
    assert_eq!(positioned_io_flags_from_raw(0x1_0000_0004), Ok(4));
    assert_eq!(decode_preadv2_args(0x04, 0), Ok(4));
    assert_eq!(decode_preadv2_args(0, 0x02), Ok(2));
    assert_eq!(decode_preadv2_args(0x40, 0x08), Ok(8));
}

#[test]
fn linear_transfers_stop_short() {
    let mut t = LinearTransfer::start(10, 4);
    assert_eq!(t.next_chunk(), Some(4));
    t.record_read(4, 4);
    assert_eq!(t.next_chunk(), Some(4));
    t.record_read(4, 2);
    assert!(t.done);
    assert_eq!(t.total, 6);
    assert_eq!(t.next_chunk(), None);
    let mut w = LinearTransfer::start(5, 4);
    assert_eq!(w.record_write(4, 0), Err(SyscallError::NoSpaceLeft));
    assert_eq!(w.record_write(4, 4), Ok(()));
    assert_eq!(w.next_chunk(), Some(1));
    assert_eq!(w.record_write(1, 1), Ok(()));
    assert!(w.done);
    assert_eq!(w.total, 5);
    assert!(LinearTransfer::start(0, 4).done);
    assert_eq!(read_scratch_len(10, 4), 10);
    assert_eq!(read_scratch_len(1 << 20, 100), 64 * 1024);
    assert_eq!(read_scratch_len(10, 100), 100);
}

#[test]
fn copy_transfers_alternate_reads_and_writes() {
    let mut t = CopyTransfer::start(20_000);
    assert_eq!(t.next_action(), CopyAction::Read(16 * 1024));
    assert_eq!(t.record_read(16 * 1024, 100, Some(5)), Ok(Some(105)));
    assert_eq!(t.next_action(), CopyAction::Write { start: 0, end: 100 });
    assert_eq!(t.record_write(0, None), Err(SyscallError::BrokenPipe));
    assert_eq!(t.record_write(60, Some(0)), Ok(Some(60)));
    assert_eq!(t.next_action(), CopyAction::Write { start: 60, end: 100 });
    assert_eq!(t.record_write(40, None), Ok(None));
    // A short read ends the copy once it is written.
    assert_eq!(t.next_action(), CopyAction::Finished(100));
    assert_eq!(advance_offset(i64::MAX, 1), Err(SyscallError::ValueTooLarge));
    assert_eq!(advance_offset(1, 2), Ok(3));
    let mut empty = CopyTransfer::start(10);
    assert_eq!(empty.record_read(10, 0, None), Ok(None));
    assert_eq!(empty.next_action(), CopyAction::Finished(0));
}

#[test]
fn iovec_transfers_walk_the_buffers() {
    let iovs = vec![
        LinuxIovec { iov_base: 0x1000, iov_len: 3 },
        LinuxIovec { iov_base: 0, iov_len: 0 },
        LinuxIovec { iov_base: 0x2000, iov_len: 5 },
    ];
    assert_eq!(iovec_total_len(&iovs), Ok(8));
    assert_eq!(
        iovec_total_len(&[LinuxIovec { iov_base: 1, iov_len: usize::MAX }]),
        Err(SyscallError::InvalidArguments)
    );
    assert_eq!(check_iovec_count(true, 0), Ok(()));
    assert_eq!(check_iovec_count(true, 1), Err(SyscallError::BadAddress));
    assert_eq!(check_iovec_count(false, 1025), Err(SyscallError::InvalidArguments));
    assert_eq!(check_iovec_count(false, -1), Err(SyscallError::InvalidArguments));
    let mut t = IovecTransfer::start(iovs, 4).unwrap();
    assert_eq!(t.next_action(), IovecAction::Transfer { addr: 0x1000, len: 3, at: 0 });
    t.record_read(3, 3);
    assert_eq!(t.next_action(), IovecAction::Transfer { addr: 0x2000, len: 4, at: 3 });
    assert_eq!(t.record_write(4, 4), Ok(()));
    assert_eq!(t.next_action(), IovecAction::Transfer { addr: 0x2004, len: 1, at: 7 });
    assert_eq!(t.record_write(1, 1), Ok(()));
    assert_eq!(t.next_action(), IovecAction::Finished(8));
    let mut faulty = IovecTransfer::start(vec![LinuxIovec { iov_base: 0, iov_len: 2 }], 4).unwrap();
    assert_eq!(faulty.next_action(), IovecAction::Fault);
}

#[test]
fn readability_checks_read_each_buffer_in_chunks() {
    let iovs = [
        LinuxIovec { iov_base: 0x1000, iov_len: 70_000 },
        LinuxIovec { iov_base: 0, iov_len: 0 },
        LinuxIovec { iov_base: 0x100000, iov_len: 10 },
    ];
    assert_eq!(
        validate_iovecs_readable(&iovs),
        (vec![(0x1000, 65_536), (0x11000, 4_464), (0x100000, 10)], false)
    );
    let with_null = [
        LinuxIovec { iov_base: 0x1000, iov_len: 1 },
        LinuxIovec { iov_base: 0, iov_len: 1 },
        LinuxIovec { iov_base: 0x2000, iov_len: 1 },
    ];
    assert_eq!(validate_iovecs_readable(&with_null), (vec![(0x1000, 1)], true));
    assert_eq!(validate_iovecs_readable(&[]), (vec![], false));
}

#[test]
fn generic_ioctl_requests() {
    assert_eq!(ioctl_route(0x5421), IoctlRoute::SetNonblocking);
    assert_eq!(ioctl_route(0x5451), IoctlRoute::SetCloseOnExec);
    assert_eq!(ioctl_route(0x5401), IoctlRoute::Configure);
    assert_eq!(fionbio_flags(0o2 | 0o2000, 1), 0o2 | 0o2000 | 0o4000);
    assert_eq!(fionbio_flags(0o2 | 0o4000, 0), 0o2);
    assert_eq!(fionbio_flags(0o4000, -5), 0o4000);
}
