use vstd::prelude::*;
use crate::access::{
    access_allowed, check_open_permissions, open_access_mode, strip_sgid_for_create, CAP_FOWNER,
    CAP_FSETID, FileOwnership,
};
use crate::credentials::{has_capability, AccessCredentials};
use crate::error::SyscallError;
use crate::flags::{
    O_CLOEXEC, O_CREAT, O_DIRECTORY, O_EXCL, O_NOATIME, O_NOFOLLOW, O_PATH, O_TMPFILE, O_TRUNC,
    S_IFIFO, S_IFMT,
};
use crate::object_io::FileLikeType;
use crate::open_path::{
    ensure_open_writable_mount, file_flags_from_open_flags, file_flags_spec, has_prefix,
    proc_sys_prefix, sys_prefix,
};
use crate::path_at::{fifo_open_plan, inherited_create_gid, FifoEnd, S_ISGID};

verus! {

/// The work `openat` asks for next; each step but the last two reports back.
#[derive(Clone, Copy, Debug, PartialEq, Eq, Structural)]
pub enum OpenAtAction {
    /// Create an unnamed file in the directory that the path names (`O_TMPFILE`).
    OpenTmpfile,
    /// Open the resolved path, following a final symbolic link or not.
    Lookup { follow: bool },
    /// The path was not found: see whether it names an entry of `/proc/self/fd/`.
    CheckProcSelfFd,
    /// Still not found: open the target of a symbolic link at the path, if there is one.
    OpenSymlinkTarget,
    /// Create a regular file at the path.
    Create,
    /// Open the file that was just created.
    Reopen,
    /// Look at what was opened (see `openat_finish`).
    Inspect,
}

/// The mode a file created by `open` gets: the permission bits that the creation mask lets
/// through.
pub open spec fn create_mode_spec(mode: u32, creation_mask: u32) -> u32 {
    mode & 0o7777 & !creation_mask
}

pub fn openat_create_mode(mode: u32, creation_mask: u32) -> (r: u32)
    ensures
        r == create_mode_spec(mode, creation_mask),
{
    mode & 0o7777 & !creation_mask
}

/// The first decision of `openat` on its flags.
pub open spec fn openat_start_spec(flags: i32) -> Result<OpenAtAction, SyscallError> {
    if flags & O_TMPFILE == O_TMPFILE {
        Ok(OpenAtAction::OpenTmpfile)
    } else if flags & O_CREAT != 0 && flags & O_DIRECTORY != 0 {
        Err(SyscallError::InvalidArguments)
    } else {
        Ok(OpenAtAction::Lookup { follow: flags & O_NOFOLLOW == 0 })
    }
}

pub fn openat_start(flags: i32) -> (r: Result<OpenAtAction, SyscallError>)
    ensures
        r == openat_start_spec(flags),
{
    if flags & O_TMPFILE == O_TMPFILE {
        Ok(OpenAtAction::OpenTmpfile)
    } else if flags & O_CREAT != 0 && flags & O_DIRECTORY != 0 {
        Err(SyscallError::InvalidArguments)
    } else {
        Ok(OpenAtAction::Lookup { follow: flags & O_NOFOLLOW == 0 })
    }
}

/// The next step of `openat` after `done` reported `outcome`: `Ok(true)` where it found (or,
/// for `Create`, made) something, `Ok(false)` where it found nothing, `Err` where it failed
/// otherwise.
pub open spec fn openat_step_spec(flags: i32, done: OpenAtAction, outcome: Result<bool, SyscallError>) -> Result<
    OpenAtAction,
    SyscallError,
> {
    let create = flags & O_CREAT != 0;
    match outcome {
        Err(e) => Err(e),
        Ok(found) => match done {
            OpenAtAction::Lookup { follow } => if found {
                if create && flags & O_EXCL != 0 {
                    Err(SyscallError::FileAlreadyExists)
                } else {
                    Ok(OpenAtAction::Inspect)
                }
            } else if follow {
                Ok(OpenAtAction::CheckProcSelfFd)
            } else if create {
                Ok(OpenAtAction::Create)
            } else {
                Err(SyscallError::FileNotFound)
            },
            OpenAtAction::CheckProcSelfFd => if found {
                Ok(OpenAtAction::Inspect)
            } else if create {
                Ok(OpenAtAction::OpenSymlinkTarget)
            } else {
                Err(SyscallError::FileNotFound)
            },
            OpenAtAction::OpenSymlinkTarget => if found {
                Ok(OpenAtAction::Inspect)
            } else {
                Ok(OpenAtAction::Create)
            },
            OpenAtAction::Create => Ok(OpenAtAction::Reopen),
            OpenAtAction::Reopen => if found {
                Ok(OpenAtAction::Inspect)
            } else {
                Err(SyscallError::FileNotFound)
            },
            _ => Err(SyscallError::InvalidArguments),
        },
    }
}

/// One step of `openat`. The steps that do not report back (`OpenTmpfile`, `Inspect`) have
/// no next step: reporting one is invalid.
pub fn openat_step(flags: i32, done: OpenAtAction, outcome: Result<bool, SyscallError>) -> (r: Result<
    OpenAtAction,
    SyscallError,
>)
    ensures
        r == openat_step_spec(flags, done, outcome),
{
    let create = flags & O_CREAT != 0;
    let found = match outcome {
        Err(e) => return Err(e),
        Ok(found) => found,
    };
    match done {
        OpenAtAction::Lookup { follow } => {
            if found {
                if create && flags & O_EXCL != 0 {
                    Err(SyscallError::FileAlreadyExists)
                } else {
                    Ok(OpenAtAction::Inspect)
                }
            } else if follow {
                Ok(OpenAtAction::CheckProcSelfFd)
            } else if create {
                Ok(OpenAtAction::Create)
            } else {
                Err(SyscallError::FileNotFound)
            }
        },
        OpenAtAction::CheckProcSelfFd => {
            if found {
                Ok(OpenAtAction::Inspect)
            } else if create {
                Ok(OpenAtAction::OpenSymlinkTarget)
            } else {
                Err(SyscallError::FileNotFound)
            }
        },
        OpenAtAction::OpenSymlinkTarget => {
            if found {
                Ok(OpenAtAction::Inspect)
            } else {
                Ok(OpenAtAction::Create)
            }
        },
        OpenAtAction::Create => Ok(OpenAtAction::Reopen),
        OpenAtAction::Reopen => {
            if found {
                Ok(OpenAtAction::Inspect)
            } else {
                Err(SyscallError::FileNotFound)
            }
        },
        _ => Err(SyscallError::InvalidArguments),
    }
}

/// What `openat` learned of the object it opened.
#[derive(Clone, Copy, Debug, PartialEq, Eq, Structural)]
pub struct OpenedObject {
    pub kind: FileLikeType,
    /// Its mode, type bits included.
    pub mode: u32,
    pub ownership: FileOwnership,
    /// A device node (`O_TRUNC` leaves those alone).
    pub device_backed: bool,
}

/// How `openat` ends once the object passed its checks.
#[derive(Clone, Copy, Debug, PartialEq, Eq, Structural)]
pub enum OpenFinish {
    /// A named pipe: install this end of it (non-blocking if asked).
    Fifo { end: FifoEnd, nonblock: bool, cloexec: bool },
    /// Truncate the file first if asked, give it these status flags where there are any, and
    /// install it.
    Object { truncate: bool, file_flags: u32, cloexec: bool },
}

/// The checks of `openat` on what it opened, in their order. `mount_check` is what asking the
/// path's mount whether it is writable gave.
pub open spec fn openat_finish_spec(
    flags: i32,
    opened: OpenedObject,
    credentials: AccessCredentials,
    path: Seq<u8>,
    mount_check: Result<(), SyscallError>,
) -> Result<OpenFinish, SyscallError> {
    let path_only = flags & O_PATH != 0;
    let cloexec = flags & O_CLOEXEC != 0;
    if flags & O_NOFOLLOW != 0 && !path_only && opened.kind == FileLikeType::Symlink {
        Err(SyscallError::TooManySymbolicLinks)
    } else if flags & O_DIRECTORY != 0 && opened.kind != FileLikeType::Directory {
        Err(SyscallError::NotADirectory)
    } else if !path_only && open_access_mode(flags) is None {
        Err(SyscallError::InvalidArguments)
    } else if !path_only && !access_allowed(
        opened.ownership,
        open_access_mode(flags)->0,
        credentials,
        false,
    ) {
        Err(SyscallError::AccessDenied)
    } else if opened.mode & S_IFMT == S_IFIFO && !path_only {
        Ok(
            OpenFinish::Fifo {
                end: if flags & 3 == 0 {
                    FifoEnd::Read
                } else if flags & 3 == 1 {
                    FifoEnd::Write
                } else {
                    FifoEnd::ReadWrite
                },
                nonblock: flags & 0o4000 != 0,
                cloexec,
            },
        )
    } else if flags & O_NOATIME != 0 && credentials.uid != opened.ownership.st_uid
        && !credentials.has_cap(CAP_FOWNER) {
        Err(SyscallError::PermissionDenied)
    } else if !path_only && (flags & 3 == 1 || flags & 3 == 2 || flags & O_TRUNC == O_TRUNC)
        && mount_check is Err && !(mount_check == Err::<(), SyscallError>(
        SyscallError::ReadOnlyFileSystem,
    ) && (has_prefix(path, proc_sys_prefix()) || has_prefix(path, sys_prefix()))) {
        Err(mount_check->Err_0)
    } else if flags & O_TRUNC != 0 && !path_only && !opened.device_backed && opened.kind
        == FileLikeType::Directory {
        Err(SyscallError::IsADirectory)
    } else if flags & 3 == 3 {
        Err(SyscallError::InvalidArguments)
    } else {
        Ok(
            OpenFinish::Object {
                truncate: flags & O_TRUNC != 0 && !path_only && !opened.device_backed
                    && opened.kind == FileLikeType::File,
                file_flags: file_flags_spec(flags),
                cloexec,
            },
        )
    }
}

/// The checks of `openat` on the object it opened, and how the call ends.
pub fn openat_finish(
    flags: i32,
    opened: &OpenedObject,
    credentials: &AccessCredentials,
    path: &[u8],
    mount_check: Result<(), SyscallError>,
) -> (r: Result<OpenFinish, SyscallError>)
    ensures
        r == openat_finish_spec(flags, *opened, *credentials, path@, mount_check),
{
    let path_only = flags & O_PATH != 0;
    let cloexec = flags & O_CLOEXEC != 0;
    if flags & O_NOFOLLOW != 0 && !path_only && opened.kind == FileLikeType::Symlink {
        return Err(SyscallError::TooManySymbolicLinks);
    }
    if flags & O_DIRECTORY != 0 && opened.kind != FileLikeType::Directory {
        return Err(SyscallError::NotADirectory);
    }
    check_open_permissions(&opened.ownership, flags, credentials)?;
    if opened.mode & S_IFMT == S_IFIFO && !path_only {
        let (end, nonblock) = fifo_open_plan(flags)?;
        return Ok(OpenFinish::Fifo { end, nonblock, cloexec });
    }
    if flags & O_NOATIME != 0 && credentials.uid != opened.ownership.st_uid && !has_capability(
        credentials,
        CAP_FOWNER,
    ) {
        return Err(SyscallError::PermissionDenied);
    }
    ensure_open_writable_mount(path, flags, mount_check)?;
    let mut truncate = false;
    if flags & O_TRUNC != 0 && !path_only && !opened.device_backed {
        match opened.kind {
            FileLikeType::File => {
                truncate = true;
            },
            FileLikeType::Directory => {
                return Err(SyscallError::IsADirectory);
            },
            FileLikeType::Symlink => {},
        }
    }
    let file_flags = file_flags_from_open_flags(flags)?;
    Ok(OpenFinish::Object { truncate, file_flags, cloexec })
}

/// The owner, group and mode of a regular file that `open` creates at `normalized` in a
/// directory owned as `parent`, by a process with file-system credentials `credentials`. A
/// path that ends in `/` names a directory and cannot be created as a file.
pub open spec fn create_file_attributes_spec(
    normalized: Seq<u8>,
    parent: FileOwnership,
    credentials: AccessCredentials,
    mode: u32,
) -> Result<(u32, u32, u32), SyscallError> {
    if normalized.len() > 0 && normalized.last() == 0x2f {
        Err(SyscallError::NotADirectory)
    } else {
        let gid = if parent.st_mode & S_ISGID != 0 {
            parent.st_gid
        } else {
            credentials.gid
        };
        Ok(
            (
                credentials.uid,
                gid,
                if mode & S_ISGID != 0 && !credentials.has_cap(CAP_FSETID) && !credentials.in_group(
                    gid,
                ) {
                    mode & !S_ISGID
                } else {
                    mode
                },
            ),
        )
    }
}

pub fn create_file_attributes(
    normalized: &[u8],
    parent: &FileOwnership,
    credentials: &AccessCredentials,
    mode: u32,
) -> (r: Result<(u32, u32, u32), SyscallError>)
    ensures
        r == create_file_attributes_spec(normalized@, *parent, *credentials, mode),
{
    if normalized.len() > 0 && normalized[normalized.len() - 1] == 0x2f {
        return Err(SyscallError::NotADirectory);
    }
    let gid = inherited_create_gid(parent.st_mode, parent.st_gid, credentials.gid);
    let mode = strip_sgid_for_create(credentials, mode, gid);
    Ok((credentials.uid, gid, mode))
}

/// An open without `O_CREAT` creates nothing: it starts with a lookup (or `O_TMPFILE`), and
/// neither a lookup nor the `/proc/self/fd/` check that may follow it leads to creating a
/// file or to looking for a dangling symbolic link.
pub proof fn lemma_no_create_without_o_creat(
    flags: i32,
    done: OpenAtAction,
    outcome: Result<bool, SyscallError>,
)
    requires
        flags & O_CREAT == 0,
        done is Lookup || done == OpenAtAction::CheckProcSelfFd,
    ensures
        openat_start_spec(flags) != Ok::<OpenAtAction, SyscallError>(OpenAtAction::Create),
        openat_step_spec(flags, done, outcome) != Ok::<OpenAtAction, SyscallError>(
            OpenAtAction::Create,
        ),
        openat_step_spec(flags, done, outcome) != Ok::<OpenAtAction, SyscallError>(
            OpenAtAction::OpenSymlinkTarget,
        ),
{
}

/// `O_CREAT | O_EXCL` never opens a file that its lookup found.
pub proof fn lemma_exclusive_create_refuses_existing(flags: i32, follow: bool)
    requires
        flags & O_CREAT != 0,
        flags & O_EXCL != 0,
    ensures
        openat_step_spec(flags, OpenAtAction::Lookup { follow }, Ok(true)) == Err::<
            OpenAtAction,
            SyscallError,
        >(SyscallError::FileAlreadyExists),
{
}

} // verus!
