use seele_syscalls::descriptors::{
    close_range_apply, close_range_check, dup2_plan, dup3_plan, fadvise_check, fallocate_check,
    ftruncate_check, lseek_check, memfd_flags_check, memfd_path, CloseRangeMode, DupPlan, FdEntry,
};
use seele_syscalls::error::SyscallError;

fn open(object: u64) -> Option<FdEntry> {
    Some(FdEntry { object, cloexec: false })
}

fn table() -> Vec<Option<FdEntry>> {
    vec![open(10), open(11), None, open(13), open(14)]
}

#[test]
fn close_range_arguments() {
    assert_eq!(close_range_check(3, 1, 0), Err(SyscallError::InvalidArguments));
    assert_eq!(close_range_check(0, 5, 0x1), Err(SyscallError::InvalidArguments));
    assert_eq!(close_range_check(0, 5, 0x2), Ok(CloseRangeMode { unshare: true, cloexec: false }));
    assert_eq!(close_range_check(4, 4, 0x4), Ok(CloseRangeMode { unshare: false, cloexec: true }));
}

#[test]
fn close_range_closes_only_its_range() {
    let mut t = table();
    let closed = close_range_apply(&mut t, 1, 3, false);
    assert_eq!(closed, vec![FdEntry { object: 11, cloexec: false }, FdEntry { object: 13, cloexec: false }]);
    assert_eq!(t, vec![open(10), None, None, None, open(14)]);

    let mut t = table();
    let closed = close_range_apply(&mut t, 3, usize::MAX, false);
    assert_eq!(closed, vec![FdEntry { object: 13, cloexec: false }, FdEntry { object: 14, cloexec: false }]);
    assert_eq!(t, vec![open(10), open(11), None, None, None]);

    let mut t = table();
    let closed = close_range_apply(&mut t, 7, 9, false);
    assert!(closed.is_empty());
    assert_eq!(t, table());
}

#[test]
fn close_range_can_mark_close_on_exec() {
    let mut t = table();
    let closed = close_range_apply(&mut t, 0, 2, true);
    assert!(closed.is_empty());
    assert_eq!(
        t,
        vec![
            Some(FdEntry { object: 10, cloexec: true }),
            Some(FdEntry { object: 11, cloexec: true }),
            None,
            open(13),
            open(14),
        ]
    );
}

#[test]
fn dup_plans() {
    assert_eq!(dup2_plan(3, 3, Ok(()), true), Ok(DupPlan::Keep));
    assert_eq!(dup2_plan(3, 5, Ok(()), true), Ok(DupPlan::Replace));
    assert_eq!(dup2_plan(3, 5, Ok(()), false), Err(SyscallError::BadFileDescriptor));
    assert_eq!(
        dup2_plan(3, 3, Err(SyscallError::BadFileDescriptor), true),
        Err(SyscallError::BadFileDescriptor)
    );
    assert_eq!(dup3_plan(3, 3, 0, Ok(()), true), Err(SyscallError::InvalidArguments));
    assert_eq!(dup3_plan(3, 4, 0o2000000, Ok(()), true), Ok(DupPlan::ReplaceWithFlags { cloexec: true }));
    assert_eq!(dup3_plan(3, 4, 0, Ok(()), true), Ok(DupPlan::ReplaceWithFlags { cloexec: false }));
    assert_eq!(dup3_plan(3, 4, 0, Ok(()), false), Err(SyscallError::BadFileDescriptor));
    assert_eq!(
        dup3_plan(3, 4, 0, Err(SyscallError::BadFileDescriptor), true),
        Err(SyscallError::BadFileDescriptor)
    );
}

#[test]
fn truncate_allocate_advise_seek() {
    assert_eq!(ftruncate_check(10, Ok(0o100644), Ok(0o2), true), Ok(10));
    assert_eq!(ftruncate_check(-1, Ok(0o100644), Ok(0o2), true), Err(SyscallError::InvalidArguments));
    assert_eq!(ftruncate_check(10, Ok(0o040755), Ok(0o2), true), Err(SyscallError::InvalidArguments));
    assert_eq!(ftruncate_check(10, Ok(0o100644), Ok(0), true), Err(SyscallError::InvalidArguments));
    assert_eq!(ftruncate_check(10, Ok(0o100644), Ok(1), false), Err(SyscallError::InvalidArguments));
    assert_eq!(
        ftruncate_check(10, Err(SyscallError::BadFileDescriptor), Ok(1), true),
        Err(SyscallError::BadFileDescriptor)
    );
    assert_eq!(fallocate_check(0, 0, 4096), Ok((0, 0, 4096)));
    assert_eq!(fallocate_check(3, 512, 4096), Ok((3, 512, 4096)));
    assert_eq!(fallocate_check(1, 0, 4096), Err(SyscallError::OperationNotSupported));
    assert_eq!(fallocate_check(0, -1, 4096), Err(SyscallError::InvalidArguments));
    assert_eq!(fadvise_check(4, true, false), Ok(()));
    assert_eq!(fadvise_check(6, true, true), Err(SyscallError::InvalidArguments));
    assert_eq!(fadvise_check(0, false, false), Err(SyscallError::IllegalSeek));
    assert_eq!(lseek_check(0, -1), Err(SyscallError::InvalidArguments));
    assert_eq!(lseek_check(1, -1), Ok(()));
    assert_eq!(lseek_check(0, 0), Ok(()));
}

#[test]
fn memfd_flags_and_names() {
    assert_eq!(memfd_flags_check(0x1 | 0x2), Ok((true, true)));
    assert_eq!(memfd_flags_check(0x8), Ok((true, false)));
    assert_eq!(memfd_flags_check(0), Ok((false, false)));
    assert_eq!(memfd_flags_check(0x8 | 0x10), Err(SyscallError::InvalidArguments));
    assert_eq!(memfd_flags_check(0x0400_0000), Err(SyscallError::InvalidArguments));
    assert_eq!(memfd_flags_check(0x4 | 0x0400_0000), Err(SyscallError::NoDevice));
    assert_eq!(memfd_path(42, 7, b"anon"), b"/memfd/42-7-anon".to_vec());
}

fn occupied(t: &[Option<FdEntry>]) -> usize {
    t.iter().filter(|slot| slot.is_some()).count()
}

#[test]
fn close_range_syscalls_follow_linux_rules() {
    let mut t: Vec<Option<FdEntry>> = vec![open(0), open(1), open(2)];
    let base_count = occupied(&t);
    let (fd0, fd1, fd2, fd3) = (3usize, 4usize, 5usize, 6usize);
    t.extend([open(100), open(101), open(102), open(103)]);

    let mode = close_range_check(fd1, fd2, 0x4).unwrap();
    assert!(mode.cloexec);
    assert!(close_range_apply(&mut t, fd1, fd2, mode.cloexec).is_empty());
    assert_eq!(t[fd0], Some(FdEntry { object: 100, cloexec: false }));
    assert_eq!(t[fd1], Some(FdEntry { object: 101, cloexec: true }));
    assert_eq!(t[fd2], Some(FdEntry { object: 102, cloexec: true }));
    assert_eq!(t[fd3], Some(FdEntry { object: 103, cloexec: false }));
    assert_eq!(occupied(&t), base_count + 4);

    let mode = close_range_check(fd1, fd2, 0).unwrap();
    let closed = close_range_apply(&mut t, fd1, fd2, mode.cloexec);
    assert_eq!(closed.len(), 2);
    assert_eq!(t[fd1], None);
    assert_eq!(t[fd2], None);
    assert_eq!(occupied(&t), base_count + 2);

    assert_eq!(close_range_check(fd0, fd3, 1), Err(SyscallError::InvalidArguments));
    assert_eq!(close_range_check(fd3, fd0, 0), Err(SyscallError::InvalidArguments));
    let before = t.clone();
    let mode = close_range_check(4096, 8192, 0).unwrap();
    assert!(close_range_apply(&mut t, 4096, 8192, mode.cloexec).is_empty());
    assert_eq!(t, before);
}
