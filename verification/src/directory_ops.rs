use vstd::prelude::*;
use crate::error::SyscallError;
use crate::flags::{
    AT_EMPTY_PATH, AT_FDCWD, AT_REMOVEDIR, AT_SYMLINK_FOLLOW, S_IFBLK, S_IFCHR, S_IFIFO, S_IFMT,
    S_IFREG, S_IFSOCK,
};
use crate::open_path::{has_prefix, starts_with};
use crate::keyring::bytes_equal;

verus! {

/// `unlinkat` takes no flag but `AT_REMOVEDIR`; the answer is whether it removes a
/// directory.
pub fn unlinkat_flags_check(flags: i32) -> (r: Result<bool, SyscallError>)
    ensures
        r == if flags & !AT_REMOVEDIR != 0 {
            Err::<bool, SyscallError>(SyscallError::InvalidArguments)
        } else {
            Ok(flags & AT_REMOVEDIR != 0)
        },
{
    if flags & !AT_REMOVEDIR != 0 {
        return Err(SyscallError::InvalidArguments);
    }
    Ok(flags & AT_REMOVEDIR != 0)
}

/// A directory is removed only as one (`rmdir`, `AT_REMOVEDIR`), anything else only as a
/// file.
pub fn removal_kind_check(remove_directory: bool, is_directory: bool) -> (r: Result<
    (),
    SyscallError,
>)
    ensures
        r == if remove_directory && !is_directory {
            Err::<(), SyscallError>(SyscallError::NotADirectory)
        } else if !remove_directory && is_directory {
            Err(SyscallError::IsADirectory)
        } else {
            Ok(())
        },
{
    if remove_directory {
        if !is_directory {
            return Err(SyscallError::NotADirectory);
        }
    } else if is_directory {
        return Err(SyscallError::IsADirectory);
    }
    Ok(())
}

/// `linkat` takes `AT_EMPTY_PATH` and `AT_SYMLINK_FOLLOW` only.
pub fn linkat_flags_check(flags: i32) -> (r: Result<(), SyscallError>)
    ensures
        r == if flags & !(AT_EMPTY_PATH | AT_SYMLINK_FOLLOW) != 0 {
            Err::<(), SyscallError>(SyscallError::InvalidArguments)
        } else {
            Ok(())
        },
{
    if flags & !(AT_EMPTY_PATH | AT_SYMLINK_FOLLOW) != 0 {
        return Err(SyscallError::InvalidArguments);
    }
    Ok(())
}

/// Where `linkat` finds the file it links.
#[derive(Clone, Copy, Debug, PartialEq, Eq, Structural)]
pub enum LinkSource {
    /// The object that descriptor `old_dirfd` holds (an empty path with `AT_EMPTY_PATH`).
    Descriptor,
    /// The old path; where it is relative to a descriptor, that descriptor must hold a
    /// directory that still opens.
    Path { check_dirfd: bool },
}

/// The source of `linkat(old_dirfd, old_path, ..., flags)`, once the new path resolved.
/// `old_path` is `None` where the pointer is null.
pub fn link_source_route(old_dirfd: i32, old_path: Option<&[u8]>, flags: i32) -> (r: Result<
    LinkSource,
    SyscallError,
>)
    ensures
        r == match old_path {
            None => Err::<LinkSource, SyscallError>(SyscallError::BadAddress),
            Some(p) => if p@.len() == 0 {
                if flags & AT_EMPTY_PATH != 0 {
                    Ok(LinkSource::Descriptor)
                } else {
                    Err(SyscallError::InvalidArguments)
                }
            } else {
                Ok(LinkSource::Path { check_dirfd: old_dirfd != AT_FDCWD && p@[0] != 0x2f })
            },
        },
{
    let path = match old_path {
        None => return Err(SyscallError::BadAddress),
        Some(p) => p,
    };
    if path.len() == 0 {
        if flags & AT_EMPTY_PATH != 0 {
            return Ok(LinkSource::Descriptor);
        }
        return Err(SyscallError::InvalidArguments);
    }
    Ok(LinkSource::Path { check_dirfd: old_dirfd != AT_FDCWD && path[0] != 0x2f })
}

/// A directory cannot be hard-linked.
pub fn link_target_check(is_directory: bool) -> (r: Result<(), SyscallError>)
    ensures
        r == if is_directory {
            Err::<(), SyscallError>(SyscallError::PermissionDenied)
        } else {
            Ok(())
        },
{
    if is_directory {
        return Err(SyscallError::PermissionDenied);
    }
    Ok(())
}

/// The descriptor a relative old path of `linkat` is taken under: a file-like directory
/// whose own path still opens.
pub fn link_dirfd_check(is_file_like: bool, is_directory: bool, path_opens: bool) -> (r: Result<
    (),
    SyscallError,
>)
    ensures
        r == if !is_file_like || !is_directory {
            Err::<(), SyscallError>(SyscallError::NotADirectory)
        } else if !path_opens {
            Err(SyscallError::FileNotFound)
        } else {
            Ok(())
        },
{
    if !is_file_like || !is_directory {
        return Err(SyscallError::NotADirectory);
    }
    if !path_opens {
        return Err(SyscallError::FileNotFound);
    }
    Ok(())
}

/// The mode `mknodat` creates a node with: its type, and the permission bits that the
/// creation mask lets through. Types other than regular files, pipes, devices and sockets
/// are not supported.
pub fn mknod_create_mode(mode: u32, creation_mask: u32) -> (r: Result<u32, SyscallError>)
    ensures
        r == {
            let file_type = mode & S_IFMT;
            if file_type == 0 || file_type == S_IFREG || file_type == S_IFIFO || file_type
                == S_IFCHR || file_type == S_IFBLK || file_type == S_IFSOCK {
                Ok::<u32, SyscallError>(file_type | (mode & 0o7777 & !creation_mask))
            } else {
                Err(SyscallError::NoSyscall)
            }
        },
{
    let file_type = mode & S_IFMT;
    if file_type == 0 || file_type == S_IFREG || file_type == S_IFIFO || file_type == S_IFCHR
        || file_type == S_IFBLK || file_type == S_IFSOCK {
        Ok(file_type | (mode & 0o7777 & !creation_mask))
    } else {
        Err(SyscallError::NoSyscall)
    }
}

/// What `getcwd` writes for the directory shown as `path`: the path and a NUL, where the
/// buffer of `len` bytes holds both.
pub fn getcwd_reply(path: &[u8], len: usize, buf_is_null: bool) -> (r: Result<
    Vec<u8>,
    SyscallError,
>)
    ensures
        match r {
            Ok(v) => len > path@.len() && !buf_is_null && v@ == path@.push(0u8),
            Err(e) => if len <= path@.len() {
                e == SyscallError::RangeError
            } else {
                buf_is_null && e == SyscallError::BadAddress
            },
        },
{
    if len <= path.len() {
        return Err(SyscallError::RangeError);
    }
    if buf_is_null {
        return Err(SyscallError::BadAddress);
    }
    let mut out: Vec<u8> = Vec::new();
    let mut i: usize = 0;
    while i < path.len()
        invariant
            i <= path@.len(),
            out@ == path@.take(i as int),
        decreases path@.len() - i,
    {
        out.push(path[i]);
        assert(path@.take(i + 1) =~= path@.take(i as int).push(path@[i as int]));
        i += 1;
    }
    out.push(0);
    assert(path@.take(i as int) =~= path@);
    Ok(out)
}

/// Whether the normalized absolute path `path` lies in the tree at `root` (itself
/// included): a whole-component prefix.
pub open spec fn path_within(path: Seq<u8>, root: Seq<u8>) -> bool {
    root == seq![0x2fu8] || path == root || has_prefix(path, root.push(0x2fu8))
}

pub fn is_within(path: &[u8], root: &[u8]) -> (r: bool)
    ensures
        r == path_within(path@, root@),
{
    let slash: [u8; 1] = [0x2f];
    assert(slash@ =~= seq![0x2fu8]);
    if bytes_equal(root, &slash) || bytes_equal(path, root) {
        return true;
    }
    if path.len() <= root.len() || !starts_with(path, root) {
        proof {
            if has_prefix(path@, root@.push(0x2fu8)) {
                assert(path@.take(root@.len() as int) =~= root@.push(0x2fu8).take(
                    root@.len() as int,
                ));
                assert(root@.push(0x2fu8).take(root@.len() as int) =~= root@);
            }
        }
        return false;
    }
    let r = path[root.len()] == 0x2f;
    proof {
        let n = root@.len() as int;
        if r {
            assert(path@.take(n + 1) =~= root@.push(0x2fu8)) by {
                assert(path@.take(n) =~= root@);
            }
        } else if has_prefix(path@, root@.push(0x2fu8)) {
            assert(root@.push(0x2fu8)[n] == 0x2fu8);
            assert(path@.take(n + 1)[n] == path@[n]);
        }
    }
    r
}

/// `pivot_root`: the old root goes under the new one; the new root must be a mount point
/// of its own, other than the current root's mount, and the old root's place must lie on
/// that mount. `*_mount` are the mount points that the paths lie on.
pub fn pivot_root_check(
    new_root: &[u8],
    put_old: &[u8],
    old_root_mount: &[u8],
    new_root_mount: &[u8],
    put_old_mount: &[u8],
) -> (r: Result<(), SyscallError>)
    ensures
        r == if !path_within(put_old@, new_root@) {
            Err::<(), SyscallError>(SyscallError::InvalidArguments)
        } else if new_root_mount@ != new_root@ || new_root_mount@ == old_root_mount@
            || put_old_mount@ != new_root@ {
            Err(SyscallError::DeviceOrResourceBusy)
        } else {
            Ok(())
        },
{
    if !is_within(put_old, new_root) {
        return Err(SyscallError::InvalidArguments);
    }
    if !bytes_equal(new_root_mount, new_root) || bytes_equal(new_root_mount, old_root_mount)
        || !bytes_equal(put_old_mount, new_root) {
        return Err(SyscallError::DeviceOrResourceBusy);
    }
    Ok(())
}

/// After the root changed to `new_root` (`chroot`, `pivot_root`), the current directory
/// stays where it lies in the new tree; elsewhere it is replaced.
pub fn keeps_current_directory(cwd: &[u8], new_root: &[u8]) -> (r: bool)
    ensures
        r == path_within(cwd@, new_root@),
{
    is_within(cwd, new_root)
}

/// After a change of root, the current directory lies in the new tree: it is kept where it
/// already did and becomes the new root otherwise.
pub proof fn lemma_root_change_keeps_cwd_inside(cwd: Seq<u8>, new_root: Seq<u8>)
    ensures
        path_within(if path_within(cwd, new_root) { cwd } else { new_root }, new_root),
{
}

} // verus!
