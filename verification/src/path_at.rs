use vstd::prelude::*;
use crate::error::SyscallError;
use crate::fs_info::AT_EMPTY_PATH;
use crate::keyring::bytes_equal;
use crate::text::{decimal, push_all, push_decimal};

verus! {

/// The `dirfd` that names the current directory.
pub const AT_FDCWD: i32 = -100;
/// The set-group-id bit of a directory's mode: new entries take the directory's group.
pub const S_ISGID: u32 = 0o2000;
/// How many names `O_TMPFILE` tries before it gives up.
pub const TMPFILE_ATTEMPTS: u32 = 128;

/// Where a `*at` path is resolved from.
#[derive(Clone, Copy, Debug, PartialEq, Eq, Structural)]
pub enum PathBase {
    /// An absolute path, under the process's root.
    Root,
    /// A relative path with `AT_FDCWD`.
    CurrentDirectory,
    /// A relative path under the directory that this descriptor holds.
    Descriptor(u64),
}

/// The first step of resolving `path` against `dirfd`: an empty path names nothing.
pub fn path_base(path: &[u8], dirfd: i32) -> (r: Result<PathBase, SyscallError>)
    ensures
        path@.len() == 0 ==> r == Err::<PathBase, SyscallError>(SyscallError::FileNotFound),
        path@.len() > 0 && path@[0] == 0x2f ==> r == Ok::<PathBase, SyscallError>(PathBase::Root),
        path@.len() > 0 && path@[0] != 0x2f && dirfd == AT_FDCWD ==> r == Ok::<
            PathBase,
            SyscallError,
        >(PathBase::CurrentDirectory),
        path@.len() > 0 && path@[0] != 0x2f && dirfd != AT_FDCWD ==> r == Ok::<
            PathBase,
            SyscallError,
        >(PathBase::Descriptor(dirfd as u64)),
{
    if path.len() == 0 {
        return Err(SyscallError::FileNotFound);
    }
    if path[0] == 0x2f {
        return Ok(PathBase::Root);
    }
    if dirfd == AT_FDCWD {
        return Ok(PathBase::CurrentDirectory);
    }
    Ok(PathBase::Descriptor(dirfd as u64))
}

/// A descriptor that a relative path is resolved under must hold a directory.
pub fn descriptor_base_check(is_file_like: bool, is_directory: bool) -> (r: Result<
    (),
    SyscallError,
>)
    ensures
        r is Ok <==> (is_file_like && is_directory),
        r is Err ==> r == Err::<(), SyscallError>(SyscallError::NotADirectory),
{
    if !is_file_like || !is_directory {
        return Err(SyscallError::NotADirectory);
    }
    Ok(())
}

/// The group of a new file: the parent's where the parent is set-group-id, the
/// creator's file-system group otherwise.
pub fn inherited_create_gid(parent_mode: u32, parent_gid: u32, fs_gid: u32) -> (r: u32)
    ensures
        r == if parent_mode & S_ISGID != 0 {
            parent_gid
        } else {
            fs_gid
        },
{
    if parent_mode & S_ISGID != 0 {
        parent_gid
    } else {
        fs_gid
    }
}

/// What `O_TMPFILE` does after one try to create a hidden name.
#[derive(Clone, Copy, Debug, PartialEq, Eq, Structural)]
pub enum TmpfileStep {
    /// The name was created: open, chown, chmod and unlink it.
    Created,
    /// The name was taken: try the next one.
    Retry,
    /// Give up with this error.
    Fail(SyscallError),
}

/// The decision after try number `attempt` (from 0): a taken name is retried while
/// tries are left, any other failure ends the call.
pub fn tmpfile_attempt_step(attempt: u32, created: Result<(), SyscallError>) -> (r: TmpfileStep)
    requires
        attempt < TMPFILE_ATTEMPTS,
    ensures
        created is Ok ==> r == TmpfileStep::Created,
        created == Err::<(), SyscallError>(SyscallError::FileAlreadyExists) ==> r == if attempt
            + 1 < TMPFILE_ATTEMPTS {
            TmpfileStep::Retry
        } else {
            TmpfileStep::Fail(SyscallError::FileAlreadyExists)
        },
        created matches Err(e) ==> (e != SyscallError::FileAlreadyExists ==> r
            == TmpfileStep::Fail(e)),
{
    match created {
        Ok(()) => TmpfileStep::Created,
        Err(SyscallError::FileAlreadyExists) => {
            if attempt + 1 < TMPFILE_ATTEMPTS {
                TmpfileStep::Retry
            } else {
                TmpfileStep::Fail(SyscallError::FileAlreadyExists)
            }
        },
        Err(e) => TmpfileStep::Fail(e),
    }
}

/// Where `mount_setattr` finds its target.
#[derive(Clone, Copy, Debug, PartialEq, Eq, Structural)]
pub enum TargetRoute {
    /// The object that `dirfd` holds (`AT_EMPTY_PATH`).
    Descriptor(u64),
    /// The path, resolved against `dirfd`.
    Path,
}

/// The target of `mount_setattr`: a null or empty path needs `AT_EMPTY_PATH`.
pub fn mount_setattr_target_route(
    dirfd: i32,
    path_is_null: bool,
    path_is_empty: bool,
    flags: i32,
) -> (r: Result<TargetRoute, SyscallError>)
    ensures
        path_is_null && flags & AT_EMPTY_PATH == 0 ==> r == Err::<TargetRoute, SyscallError>(
            SyscallError::BadAddress,
        ),
        !path_is_null && path_is_empty && flags & AT_EMPTY_PATH == 0 ==> r == Err::<
            TargetRoute,
            SyscallError,
        >(SyscallError::InvalidArguments),
        (path_is_null || path_is_empty) && flags & AT_EMPTY_PATH != 0 ==> r == Ok::<
            TargetRoute,
            SyscallError,
        >(TargetRoute::Descriptor(dirfd as u64)),
        !path_is_null && !path_is_empty ==> r == Ok::<TargetRoute, SyscallError>(
            TargetRoute::Path,
        ),
{
    if path_is_null {
        if flags & AT_EMPTY_PATH == 0 {
            return Err(SyscallError::BadAddress);
        }
        return Ok(TargetRoute::Descriptor(dirfd as u64));
    }
    if path_is_empty {
        if flags & AT_EMPTY_PATH == 0 {
            return Err(SyscallError::InvalidArguments);
        }
        return Ok(TargetRoute::Descriptor(dirfd as u64));
    }
    Ok(TargetRoute::Path)
}

/// Where a path metadata lookup (`stat`, `statx` and the like) goes.
#[derive(Clone, Copy, Debug, PartialEq, Eq, Structural)]
pub enum PathLookupRoute {
    /// The object that the descriptor holds.
    ByDescriptor(u64),
    /// The path, resolved against `dirfd`, following a final symlink or not.
    ByPath { follow: bool },
}

/// An empty path looks at `dirfd` itself where the caller allows it; otherwise the path is
/// resolved.
pub fn path_lookup_route(dirfd: i32, path_is_empty: bool, allow_empty_path: bool, nofollow: bool) -> (r:
    PathLookupRoute)
    ensures
        r == if path_is_empty && allow_empty_path {
            PathLookupRoute::ByDescriptor(dirfd as u64)
        } else {
            PathLookupRoute::ByPath { follow: !nofollow }
        },
{
    if path_is_empty && allow_empty_path {
        PathLookupRoute::ByDescriptor(dirfd as u64)
    } else {
        PathLookupRoute::ByPath { follow: !nofollow }
    }
}

/// Which end of a named pipe an `open` gets.
#[derive(Clone, Copy, Debug, PartialEq, Eq, Structural)]
pub enum FifoEnd {
    Read,
    Write,
    ReadWrite,
}

/// The end that `open` with `flags` gets of a named pipe, and whether it does not block;
/// the access mode 3 is refused.
pub fn fifo_open_plan(flags: i32) -> (r: Result<(FifoEnd, bool), SyscallError>)
    ensures
        flags & 3 == 3 ==> r == Err::<(FifoEnd, bool), SyscallError>(
            SyscallError::InvalidArguments,
        ),
        flags & 3 == 0 ==> r == Ok::<(FifoEnd, bool), SyscallError>(
            (FifoEnd::Read, flags & 0o4000 != 0),
        ),
        flags & 3 == 1 ==> r == Ok::<(FifoEnd, bool), SyscallError>(
            (FifoEnd::Write, flags & 0o4000 != 0),
        ),
        flags & 3 == 2 ==> r == Ok::<(FifoEnd, bool), SyscallError>(
            (FifoEnd::ReadWrite, flags & 0o4000 != 0),
        ),
{
    let access_mode = flags & 3;
    assert(0 <= flags & 3 <= 3) by (bit_vector);
    let nonblock = flags & 0o4000 != 0;
    if access_mode == 3 {
        Err(SyscallError::InvalidArguments)
    } else if access_mode == 0 {
        Ok((FifoEnd::Read, nonblock))
    } else if access_mode == 1 {
        Ok((FifoEnd::Write, nonblock))
    } else {
        Ok((FifoEnd::ReadWrite, nonblock))
    }
}

/// How many hidden names `renameat2` with `RENAME_EXCHANGE` tries for the swap.
pub const EXCHANGE_ATTEMPTS: u32 = 256;

/// What the swap of `RENAME_EXCHANGE` does after probing candidate number `index` (from 0).
#[derive(Clone, Copy, Debug, PartialEq, Eq, Structural)]
pub enum ExchangeStep {
    /// The name is free: move the target there.
    Use,
    /// The name is taken: probe the next one.
    Next,
    /// Give up with this error.
    Fail(SyscallError),
}

/// The decision after opening candidate `index`: a name that is not found is free, one
/// that opens is taken, any other failure ends the call, and so does running out of names.
pub fn exchange_candidate_step(index: u32, opened: Result<(), SyscallError>) -> (r: ExchangeStep)
    requires
        index < EXCHANGE_ATTEMPTS,
    ensures
        opened == Err::<(), SyscallError>(SyscallError::FileNotFound) ==> r == ExchangeStep::Use,
        opened is Ok ==> r == if index + 1 < EXCHANGE_ATTEMPTS {
            ExchangeStep::Next
        } else {
            ExchangeStep::Fail(SyscallError::FileAlreadyExists)
        },
        opened matches Err(e) ==> (e != SyscallError::FileNotFound ==> r == ExchangeStep::Fail(e)),
{
    match opened {
        Err(SyscallError::FileNotFound) => ExchangeStep::Use,
        Err(e) => ExchangeStep::Fail(e),
        Ok(()) => {
            if index + 1 < EXCHANGE_ATTEMPTS {
                ExchangeStep::Next
            } else {
                ExchangeStep::Fail(SyscallError::FileAlreadyExists)
            }
        },
    }
}

/// `.seele-rename-exchange-`
pub open spec fn exchange_stem() -> Seq<u8> {
    seq![
        0x2eu8, 0x73u8, 0x65u8, 0x65u8, 0x6cu8, 0x65u8, 0x2du8, 0x72u8, 0x65u8, 0x6eu8, 0x61u8,
        0x6du8, 0x65u8, 0x2du8, 0x65u8, 0x78u8, 0x63u8, 0x68u8, 0x61u8, 0x6eu8, 0x67u8, 0x65u8,
        0x2du8,
    ]
}

/// Candidate `index` for the hidden name that a `RENAME_EXCHANGE` swap parks a file under,
/// in the directory `parent` (a normalized path).
pub open spec fn exchange_candidate_spec(parent: Seq<u8>, index: u32) -> Seq<u8> {
    if parent == seq![0x2fu8] {
        seq![0x2fu8] + exchange_stem() + decimal(index as nat)
    } else {
        parent + seq![0x2fu8] + exchange_stem() + decimal(index as nat)
    }
}

/// The path of exchange candidate `index` in `parent`.
pub fn exchange_candidate_path(parent: &[u8], index: u32) -> (r: Vec<u8>)
    ensures
        r@ == exchange_candidate_spec(parent@, index),
{
    let root: [u8; 1] = [0x2f];
    let stem: [u8; 23] = [
        0x2e, 0x73, 0x65, 0x65, 0x6c, 0x65, 0x2d, 0x72, 0x65, 0x6e, 0x61, 0x6d, 0x65, 0x2d, 0x65,
        0x78, 0x63, 0x68, 0x61, 0x6e, 0x67, 0x65, 0x2d,
    ];
    assert(stem@ =~= exchange_stem());
    assert(root@ =~= seq![0x2fu8]);
    let mut out: Vec<u8> = Vec::new();
    if !bytes_equal(parent, &root) {
        push_all(&mut out, parent);
    }
    out.push(0x2f);
    push_all(&mut out, &stem);
    push_decimal(&mut out, index as u64);
    assert(out@ =~= exchange_candidate_spec(parent@, index));
    out
}

} // verus!
