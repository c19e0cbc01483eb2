use seele_syscalls::access::FileOwnership;
use seele_syscalls::credentials::AccessCredentials;
use seele_syscalls::descriptors::lseek_check;
use seele_syscalls::error::SyscallError;
use seele_syscalls::object_io::FileLikeType;
use seele_syscalls::openat::{
    create_file_attributes, openat_create_mode, openat_finish, openat_start, openat_step, OpenAtAction, OpenFinish,
    OpenedObject,
};
use seele_syscalls::path_at::FifoEnd;

const O_WRONLY: i32 = 1;
const O_RDWR: i32 = 2;
const O_CREAT: i32 = 0x40;
const O_EXCL: i32 = 0x80;
const O_TRUNC: i32 = 0x200;
const O_NONBLOCK: i32 = 0o4000;
const O_DIRECTORY: i32 = 0o200000;
const O_NOFOLLOW: i32 = 0o400000;
const O_NOATIME: i32 = 0o1000000;
const O_CLOEXEC: i32 = 0o2000000;
const O_PATH: i32 = 0o10000000;
const O_TMPFILE: i32 = 0o20200000;

fn user(uid: u32) -> AccessCredentials {
    AccessCredentials { uid, gid: uid, supplementary_groups: vec![], capability_effective: [0, 0] }
}

fn file(kind: FileLikeType, mode: u32, uid: u32) -> OpenedObject {
    OpenedObject {
        kind,
        mode,
        ownership: FileOwnership { st_mode: mode, st_uid: uid, st_gid: uid },
        device_backed: false,
    }
}

#[test]
fn create_mode_applies_the_mask() {
    assert_eq!(openat_create_mode(0o100666, 0o022), 0o644);
    assert_eq!(openat_create_mode(0o4777, 0o077), 0o4700);
}

#[test]
fn openat_starts_with_a_lookup() {
    assert_eq!(openat_start(0), Ok(OpenAtAction::Lookup { follow: true }));
    assert_eq!(openat_start(O_NOFOLLOW), Ok(OpenAtAction::Lookup { follow: false }));
    assert_eq!(openat_start(O_TMPFILE | O_RDWR), Ok(OpenAtAction::OpenTmpfile));
    assert_eq!(openat_start(O_CREAT | O_DIRECTORY), Err(SyscallError::InvalidArguments));
}

#[test]
fn missing_files_are_created_only_with_o_creat() {
    let follow = OpenAtAction::Lookup { follow: true };
    let nofollow = OpenAtAction::Lookup { follow: false };
    assert_eq!(openat_step(0, follow, Ok(true)), Ok(OpenAtAction::Inspect));
    assert_eq!(openat_step(0, follow, Ok(false)), Ok(OpenAtAction::CheckProcSelfFd));
    assert_eq!(openat_step(0, OpenAtAction::CheckProcSelfFd, Ok(false)), Err(SyscallError::FileNotFound));
    assert_eq!(openat_step(0, OpenAtAction::CheckProcSelfFd, Ok(true)), Ok(OpenAtAction::Inspect));
    assert_eq!(
        openat_step(O_CREAT, OpenAtAction::CheckProcSelfFd, Ok(false)),
        Ok(OpenAtAction::OpenSymlinkTarget)
    );
    assert_eq!(openat_step(O_CREAT, OpenAtAction::OpenSymlinkTarget, Ok(false)), Ok(OpenAtAction::Create));
    assert_eq!(openat_step(O_CREAT, OpenAtAction::OpenSymlinkTarget, Ok(true)), Ok(OpenAtAction::Inspect));
    assert_eq!(openat_step(O_CREAT, OpenAtAction::Create, Ok(true)), Ok(OpenAtAction::Reopen));
    assert_eq!(openat_step(O_CREAT, OpenAtAction::Reopen, Ok(true)), Ok(OpenAtAction::Inspect));
    assert_eq!(openat_step(O_CREAT, OpenAtAction::Reopen, Ok(false)), Err(SyscallError::FileNotFound));
    assert_eq!(openat_step(O_NOFOLLOW, nofollow, Ok(false)), Err(SyscallError::FileNotFound));
    assert_eq!(openat_step(O_CREAT | O_NOFOLLOW, nofollow, Ok(false)), Ok(OpenAtAction::Create));
    assert_eq!(
        openat_step(O_CREAT | O_EXCL, follow, Ok(true)),
        Err(SyscallError::FileAlreadyExists)
    );
    assert_eq!(
        openat_step(O_CREAT, follow, Err(SyscallError::AccessDenied)),
        Err(SyscallError::AccessDenied)
    );
    assert_eq!(
        openat_step(O_CREAT, OpenAtAction::Create, Err(SyscallError::NoSpaceLeft)),
        Err(SyscallError::NoSpaceLeft)
    );
}

#[test]
fn finishing_an_open() {
    let owner = user(1000);
    let regular = file(FileLikeType::File, 0o100644, 1000);
    assert_eq!(
        openat_finish(O_RDWR | O_TRUNC | O_CLOEXEC, &regular, &owner, b"/tmp/a", Ok(())),
        Ok(OpenFinish::Object { truncate: true, file_flags: 0o2, cloexec: true })
    );
    assert_eq!(
        openat_finish(O_WRONLY | O_NONBLOCK, &regular, &owner, b"/tmp/a", Ok(())),
        Ok(OpenFinish::Object { truncate: false, file_flags: 0o1 | 0o4000, cloexec: false })
    );
    assert_eq!(
        openat_finish(O_WRONLY, &regular, &user(7), b"/tmp/a", Ok(())),
        Err(SyscallError::AccessDenied)
    );
    assert_eq!(
        openat_finish(3, &regular, &owner, b"/tmp/a", Ok(())),
        Err(SyscallError::InvalidArguments)
    );
    assert_eq!(
        openat_finish(O_WRONLY, &regular, &owner, b"/mnt/ro", Err(SyscallError::ReadOnlyFileSystem)),
        Err(SyscallError::ReadOnlyFileSystem)
    );
    assert_eq!(
        openat_finish(O_WRONLY, &regular, &owner, b"/proc/sys/kernel/x", Err(SyscallError::ReadOnlyFileSystem)),
        Ok(OpenFinish::Object { truncate: false, file_flags: 1, cloexec: false })
    );
    assert_eq!(
        openat_finish(0, &regular, &owner, b"/mnt/ro", Err(SyscallError::ReadOnlyFileSystem)),
        Ok(OpenFinish::Object { truncate: false, file_flags: 0, cloexec: false })
    );
}

#[test]
fn kinds_of_objects() {
    let owner = user(1000);
    let link = file(FileLikeType::Symlink, 0o120777, 1000);
    assert_eq!(
        openat_finish(O_NOFOLLOW, &link, &owner, b"/l", Ok(())),
        Err(SyscallError::TooManySymbolicLinks)
    );
    assert_eq!(
        openat_finish(O_NOFOLLOW | O_PATH, &link, &owner, b"/l", Ok(())),
        Ok(OpenFinish::Object { truncate: false, file_flags: 0, cloexec: false })
    );
    let regular = file(FileLikeType::File, 0o100644, 1000);
    assert_eq!(
        openat_finish(O_DIRECTORY, &regular, &owner, b"/f", Ok(())),
        Err(SyscallError::NotADirectory)
    );
    let dir = file(FileLikeType::Directory, 0o040755, 1000);
    assert_eq!(
        openat_finish(O_RDWR | O_TRUNC, &dir, &owner, b"/d", Ok(())),
        Err(SyscallError::IsADirectory)
    );
    let fifo = file(FileLikeType::File, 0o010666, 1000);
    assert_eq!(
        openat_finish(O_WRONLY | O_NONBLOCK, &fifo, &owner, b"/p", Ok(())),
        Ok(OpenFinish::Fifo { end: FifoEnd::Write, nonblock: true, cloexec: false })
    );
    let mut device = file(FileLikeType::File, 0o020666, 0);
    device.device_backed = true;
    assert_eq!(
        openat_finish(O_WRONLY | O_TRUNC, &device, &owner, b"/dev/null", Ok(())),
        Ok(OpenFinish::Object { truncate: false, file_flags: 1, cloexec: false })
    );
    assert_eq!(
        openat_finish(O_NOATIME, &regular, &user(7), b"/f", Ok(())),
        Err(SyscallError::PermissionDenied)
    );
    assert_eq!(
        openat_finish(O_NOATIME, &regular, &owner, b"/f", Ok(())),
        Ok(OpenFinish::Object { truncate: false, file_flags: 0, cloexec: false })
    );
}

#[test]
fn created_files_take_owner_group_and_mode() {
    let creds = user(1000);
    let plain_dir = FileOwnership { st_mode: 0o040755, st_uid: 0, st_gid: 50 };
    let sgid_dir = FileOwnership { st_mode: 0o042775, st_uid: 0, st_gid: 50 };
    assert_eq!(create_file_attributes(b"/tmp/f", &plain_dir, &creds, 0o644), Ok((1000, 1000, 0o644)));
    assert_eq!(create_file_attributes(b"/srv/f", &sgid_dir, &creds, 0o644), Ok((1000, 50, 0o644)));
    assert_eq!(create_file_attributes(b"/srv/f", &sgid_dir, &creds, 0o2755), Ok((1000, 50, 0o755)));
    assert_eq!(create_file_attributes(b"/tmp/f", &plain_dir, &creds, 0o2755), Ok((1000, 1000, 0o2755)));
    assert_eq!(create_file_attributes(b"/tmp/d/", &plain_dir, &creds, 0o644), Err(SyscallError::NotADirectory));
}

#[test]
fn filesystem_fd_state_syscalls_follow_linux_rules() {
    let creator = user(1000);
    let umask = 0o022;
    let flags = O_WRONLY | O_CREAT | O_EXCL;
    let lookup = openat_start(flags).unwrap();
    assert_eq!(lookup, OpenAtAction::Lookup { follow: true });
    let next = openat_step(flags, lookup, Ok(false)).unwrap();
    assert_eq!(next, OpenAtAction::CheckProcSelfFd);
    let next = openat_step(flags, next, Ok(false)).unwrap();
    assert_eq!(next, OpenAtAction::OpenSymlinkTarget);
    let next = openat_step(flags, next, Ok(false)).unwrap();
    assert_eq!(next, OpenAtAction::Create);
    assert_eq!(openat_create_mode(0o640, umask), 0o640);
    let dir = FileOwnership { st_mode: 0o040755, st_uid: 1000, st_gid: 1000 };
    assert_eq!(
        create_file_attributes(b"/tmp/syscall-fd-state-test/file", &dir, &creator, 0o640),
        Ok((1000, 1000, 0o640))
    );
    let next = openat_step(flags, next, Ok(true)).unwrap();
    assert_eq!(next, OpenAtAction::Reopen);
    let next = openat_step(flags, next, Ok(true)).unwrap();
    assert_eq!(next, OpenAtAction::Inspect);
    let created = file(FileLikeType::File, 0o100640, 1000);
    assert_eq!(
        openat_finish(flags, &created, &creator, b"/tmp/syscall-fd-state-test/file", Ok(())),
        Ok(OpenFinish::Object { truncate: false, file_flags: 1, cloexec: false })
    );

    assert_eq!(
        openat_step(flags, OpenAtAction::Lookup { follow: true }, Ok(true)),
        Err(SyscallError::FileAlreadyExists)
    );

    assert_eq!(lseek_check(0, 0), Ok(()));
    assert_eq!(lseek_check(1, 0), Ok(()));
    assert_eq!(lseek_check(2, 0), Ok(()));
    assert_eq!(lseek_check(0, -1), Err(SyscallError::InvalidArguments));

    assert_eq!(openat_start(O_CREAT | O_DIRECTORY), Err(SyscallError::InvalidArguments));
    let directory = file(FileLikeType::Directory, 0o040755, 1000);
    assert_eq!(
        openat_finish(O_WRONLY | O_TRUNC, &directory, &creator, b"/tmp/syscall-fd-state-test/dir", Ok(())),
        Err(SyscallError::IsADirectory)
    );
    assert_eq!(
        openat_finish(O_DIRECTORY, &directory, &creator, b"/tmp/syscall-fd-state-test/dir", Ok(())),
        Ok(OpenFinish::Object { truncate: false, file_flags: 0, cloexec: false })
    );
    assert_eq!(
        openat_finish(O_DIRECTORY, &created, &creator, b"/tmp/syscall-fd-state-test/file", Ok(())),
        Err(SyscallError::NotADirectory)
    );
}

#[test]
fn steps_that_end_the_call_have_no_successor() {
    assert_eq!(openat_step(0, OpenAtAction::Inspect, Ok(true)), Err(SyscallError::InvalidArguments));
    assert_eq!(openat_step(0, OpenAtAction::OpenTmpfile, Ok(true)), Err(SyscallError::InvalidArguments));
}
