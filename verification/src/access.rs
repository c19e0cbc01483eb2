use vstd::prelude::*;
use crate::credentials::{has_capability, is_group_member, AccessCredentials};
use crate::error::SyscallError;
use crate::flags::{
    AT_EACCESS, AT_EMPTY_PATH, AT_NO_AUTOMOUNT, AT_SYMLINK_NOFOLLOW, MS_RDONLY, O_PATH, S_IFDIR,
    S_IFMT, S_IFREG, S_ISGID, S_ISUID, S_IXGRP,
};

verus! {

pub const CAP_CHOWN: u64 = 0;
pub const CAP_DAC_OVERRIDE: u64 = 1;
pub const CAP_DAC_READ_SEARCH: u64 = 2;
pub const CAP_FOWNER: u64 = 3;
pub const CAP_FSETID: u64 = 4;

/// The mode and owner of a file, as the permission checks read them from its stat.
#[derive(Clone, Copy, Debug, PartialEq, Eq, Structural)]
pub struct FileOwnership {
    pub st_mode: u32,
    pub st_uid: u32,
    pub st_gid: u32,
}

/// `access` modes are a subset of read (4), write (2) and execute (1).
pub fn check_access_mode(mode: i32) -> (r: Result<(), SyscallError>)
    ensures
        r == if mode & !7i32 != 0 {
            Err::<(), SyscallError>(SyscallError::InvalidArguments)
        } else {
            Ok(())
        },
{
    if (mode & !7) != 0 {
        return Err(SyscallError::InvalidArguments);
    }
    Ok(())
}

/// The three permission bits that apply to the caller: the owner's, the group's or the others'.
pub open spec fn class_bits(stat: FileOwnership, credentials: AccessCredentials) -> u32 {
    let permission = stat.st_mode & 0o777;
    let shift: u32 = if credentials.uid == stat.st_uid {
        6
    } else if credentials.in_group(stat.st_gid) {
        3
    } else {
        0
    };
    (permission >> shift) & 0o7
}

/// Whether `credentials` may access the file in `mode`.
/// Root may do anything but execute a file that nobody may execute (with
/// `allow_root_directory_search`, root may also search any directory). Others need
/// `CAP_DAC_READ_SEARCH` for a read or `CAP_DAC_OVERRIDE` for a write that asks no
/// execute, or else every requested bit in the permission class that applies to them.
pub open spec fn access_allowed(
    stat: FileOwnership,
    mode: i32,
    credentials: AccessCredentials,
    allow_root_directory_search: bool,
) -> bool {
    if credentials.uid == 0 {
        (allow_root_directory_search && stat.st_mode & S_IFMT == S_IFDIR)
            || mode & 1 == 0
            || stat.st_mode & 0o777 & 0o111 != 0
    } else if mode & 1 == 0 && ((mode & 4 != 0 && credentials.has_cap(CAP_DAC_READ_SEARCH)) || (
    mode & 2 != 0 && credentials.has_cap(CAP_DAC_OVERRIDE))) {
        true
    } else {
        let bits = class_bits(stat, credentials);
        &&& (mode & 4 != 0 ==> bits & 4 != 0)
        &&& (mode & 2 != 0 ==> bits & 2 != 0)
        &&& (mode & 1 != 0 ==> bits & 1 != 0)
    }
}

/// Checks `mode` access to a file for `credentials`; a refusal is `AccessDenied`.
pub fn check_access_permissions_for_ids_with_options(
    stat: &FileOwnership,
    mode: i32,
    credentials: &AccessCredentials,
    allow_root_directory_search: bool,
) -> (r: Result<(), SyscallError>)
    ensures
        r == if access_allowed(*stat, mode, *credentials, allow_root_directory_search) {
            Ok::<(), SyscallError>(())
        } else {
            Err(SyscallError::AccessDenied)
        },
{
    let permission = stat.st_mode & 0o777;
    if credentials.uid == 0 {
        if allow_root_directory_search && (stat.st_mode & S_IFMT) == S_IFDIR {
            return Ok(());
        }
        if (mode & 1) != 0 && permission & 0o111 == 0 {
            return Err(SyscallError::AccessDenied);
        }
        return Ok(());
    }
    if mode & 1 == 0 {
        if mode & 4 != 0 && has_capability(credentials, CAP_DAC_READ_SEARCH) {
            return Ok(());
        }
        if mode & 2 != 0 && has_capability(credentials, CAP_DAC_OVERRIDE) {
            return Ok(());
        }
    }
    let permission_shift: u32 = if credentials.uid == stat.st_uid {
        6
    } else if is_group_member(credentials, stat.st_gid) {
        3
    } else {
        0
    };
    let permission = (permission >> permission_shift) & 0o7;
    if (mode & 4) != 0 && permission & 0o4 == 0 {
        return Err(SyscallError::AccessDenied);
    }
    if (mode & 2) != 0 && permission & 0o2 == 0 {
        return Err(SyscallError::AccessDenied);
    }
    if (mode & 1) != 0 && permission & 0o1 == 0 {
        return Err(SyscallError::AccessDenied);
    }
    Ok(())
}

/// Checks `mode` access to a file for `credentials`.
pub fn check_access_permissions_for_ids(
    stat: &FileOwnership,
    mode: i32,
    credentials: &AccessCredentials,
) -> (r: Result<(), SyscallError>)
    ensures
        r == if access_allowed(*stat, mode, *credentials, false) {
            Ok::<(), SyscallError>(())
        } else {
            Err(SyscallError::AccessDenied)
        },
{
    check_access_permissions_for_ids_with_options(stat, mode, credentials, false)
}

/// The access an `open` asks for: read for `O_RDONLY`, write for `O_WRONLY`, both for `O_RDWR`.
pub open spec fn open_access_mode(flags: i32) -> Option<i32> {
    if flags & 3 == 0 {
        Some(4)
    } else if flags & 3 == 1 {
        Some(2)
    } else if flags & 3 == 2 {
        Some(6)
    } else {
        None
    }
}

/// The permission check of `open`: `O_PATH` opens need none; the access mode `3` is invalid.
pub fn check_open_permissions(
    stat: &FileOwnership,
    flags: i32,
    credentials: &AccessCredentials,
) -> (r: Result<(), SyscallError>)
    ensures
        r == if flags & O_PATH != 0 {
            Ok::<(), SyscallError>(())
        } else {
            match open_access_mode(flags) {
                None => Err(SyscallError::InvalidArguments),
                Some(m) => if access_allowed(*stat, m, *credentials, false) {
                    Ok(())
                } else {
                    Err(SyscallError::AccessDenied)
                },
            }
        },
{
    if flags & O_PATH != 0 {
        return Ok(());
    }
    let bits = flags & 3;
    let mode: i32 = if bits == 0 {
        4
    } else if bits == 1 {
        2
    } else if bits == 2 {
        6
    } else {
        return Err(SyscallError::InvalidArguments);
    };
    assert(open_access_mode(flags) == Some(mode));
    check_access_permissions_for_ids(stat, mode, credentials)
}

/// The mode a file is created with: the set-group-id bit is dropped unless the creator
/// has `CAP_FSETID` or belongs to the file's group.
pub fn strip_sgid_for_create(credentials: &AccessCredentials, mode: u32, gid: u32) -> (r: u32)
    ensures
        r == if mode & S_ISGID != 0 && !credentials.has_cap(CAP_FSETID) && !credentials.in_group(gid) {
            mode & !S_ISGID
        } else {
            mode
        },
{
    if (mode & S_ISGID) != 0 && !has_capability(credentials, CAP_FSETID) && !is_group_member(
        credentials,
        gid,
    ) {
        mode & !S_ISGID
    } else {
        mode
    }
}

/// A directory met while walking a path: whether it is one, and its stat.
#[derive(Clone, Copy, Debug, PartialEq, Eq, Structural)]
pub struct DirectoryProbe {
    pub is_directory: bool,
    pub stat: FileOwnership,
}

/// Whether the walk over `lookups` (the root, then each directory above the last path
/// component) meets a failure; `Ok` when every directory can be searched.
pub open spec fn search_result(
    lookups: Seq<Result<DirectoryProbe, SyscallError>>,
    credentials: AccessCredentials,
) -> Result<(), SyscallError>
    decreases lookups.len(),
{
    if lookups.len() == 0 {
        Ok(())
    } else {
        let first = search_step(lookups[0], credentials, true);
        if first is Err {
            first
        } else {
            search_result_rest(lookups.skip(1), credentials)
        }
    }
}

pub open spec fn search_result_rest(
    lookups: Seq<Result<DirectoryProbe, SyscallError>>,
    credentials: AccessCredentials,
) -> Result<(), SyscallError>
    decreases lookups.len(),
{
    if lookups.len() == 0 {
        Ok(())
    } else {
        let first = search_step(lookups[0], credentials, false);
        if first is Err {
            first
        } else {
            search_result_rest(lookups.skip(1), credentials)
        }
    }
}

/// One directory of the walk: the lookup must succeed, be a directory (the root is not
/// asked), and allow searching.
pub open spec fn search_step(
    lookup: Result<DirectoryProbe, SyscallError>,
    credentials: AccessCredentials,
    is_root: bool,
) -> Result<(), SyscallError> {
    match lookup {
        Err(e) => Err(e),
        Ok(p) => if !is_root && !p.is_directory {
            Err(SyscallError::NotADirectory)
        } else if access_allowed(p.stat, 1, credentials, false) {
            Ok(())
        } else {
            Err(SyscallError::AccessDenied)
        },
    }
}

/// Checks that every directory on the way to a path may be searched. `component_count` is
/// the number of normal components of the normalized path; `lookups` holds what looking
/// up the root and each directory above the last component gave, in order.
pub fn check_access_path_search_permissions(
    credentials: &AccessCredentials,
    component_count: usize,
    lookups: &Vec<Result<DirectoryProbe, SyscallError>>,
) -> (r: Result<(), SyscallError>)
    requires
        component_count > 0 ==> lookups.len() == component_count,
    ensures
        r == if credentials.uid == 0 || component_count == 0 {
            Ok::<(), SyscallError>(())
        } else {
            search_result(lookups@, *credentials)
        },
{
    if credentials.uid == 0 {
        return Ok(());
    }
    if component_count == 0 {
        return Ok(());
    }
    let root = match lookups[0] {
        Ok(p) => p,
        Err(e) => return Err(e),
    };
    check_access_permissions_for_ids(&root.stat, 1, credentials)?;
    let ghost all = lookups@;
    let mut i: usize = 1;
    assert(all.skip(1).skip(0) =~= all.skip(1));
    while i < lookups.len()
        invariant
            1 <= i <= lookups.len(),
            credentials.uid != 0,
            component_count != 0,
            lookups@ == all,
            all.len() > 0,
            search_result(all, *credentials) == search_result_rest(all.skip(i as int), *credentials),
        decreases lookups.len() - i,
    {
        assert(all.skip(i as int).skip(1) =~= all.skip(i + 1));
        assert(all.skip(i as int)[0] == all[i as int]);
        let directory = match lookups[i] {
            Ok(p) => p,
            Err(e) => return Err(e),
        };
        if !directory.is_directory {
            return Err(SyscallError::NotADirectory);
        }
        check_access_permissions_for_ids(&directory.stat, 1, credentials)?;
        i += 1;
    }
    Ok(())
}

/// The permission check of `chdir`: every directory on the way may be searched, and so
/// may the target, which root may always enter.
pub fn check_chdir_target(
    credentials: &AccessCredentials,
    component_count: usize,
    lookups: &Vec<Result<DirectoryProbe, SyscallError>>,
    stat: &FileOwnership,
) -> (r: Result<(), SyscallError>)
    requires
        component_count > 0 ==> lookups.len() == component_count,
    ensures
        r == if !(credentials.uid == 0 || component_count == 0) && search_result(lookups@, *credentials) is Err {
            search_result(lookups@, *credentials)
        } else if access_allowed(*stat, 1, *credentials, true) {
            Ok::<(), SyscallError>(())
        } else {
            Err(SyscallError::AccessDenied)
        },
{
    check_access_path_search_permissions(credentials, component_count, lookups)?;
    check_access_permissions_for_ids_with_options(stat, 1, credentials, true)
}

/// Writes need a mount that is not read-only.
pub fn ensure_file_like_writable(mount_flags: u64) -> (r: Result<(), SyscallError>)
    ensures
        r == if mount_flags & MS_RDONLY != 0 {
            Err::<(), SyscallError>(SyscallError::ReadOnlyFileSystem)
        } else {
            Ok(())
        },
{
    if mount_flags & MS_RDONLY != 0 {
        return Err(SyscallError::ReadOnlyFileSystem);
    }
    Ok(())
}

/// The mode `chmod` sets: on a writable mount, by the owner or with `CAP_FOWNER`; the
/// set-group-id bit survives only with `CAP_FSETID` or membership in the file's group.
pub fn chmod_file_like(
    credentials: &AccessCredentials,
    stat: &FileOwnership,
    mount_flags: u64,
    mode: u32,
) -> (r: Result<u32, SyscallError>)
    ensures
        r == if mount_flags & MS_RDONLY != 0 {
            Err::<u32, SyscallError>(SyscallError::ReadOnlyFileSystem)
        } else if credentials.uid != stat.st_uid && !credentials.has_cap(CAP_FOWNER) {
            Err(SyscallError::PermissionDenied)
        } else if (mode & 0o7777) & S_ISGID != 0 && !credentials.has_cap(CAP_FSETID)
            && !credentials.in_group(stat.st_gid) {
            Ok((mode & 0o7777) & !S_ISGID)
        } else {
            Ok(mode & 0o7777)
        },
{
    ensure_file_like_writable(mount_flags)?;
    if credentials.uid != stat.st_uid && !has_capability(credentials, CAP_FOWNER) {
        return Err(SyscallError::PermissionDenied);
    }
    let mut mode = mode & 0o7777;
    if (mode & S_ISGID) != 0 && !has_capability(credentials, CAP_FSETID) && !is_group_member(
        credentials,
        stat.st_gid,
    ) {
        mode = mode & !S_ISGID;
    }
    Ok(mode)
}

/// Whether `chown` may change the owner to `uid` and the group to `gid` (`u32::MAX`
/// keeps either): on a writable mount; without `CAP_CHOWN` only the owner may act, may not
/// give the file away, and may only pick a group it belongs to.
pub fn chown_file_like(
    credentials: &AccessCredentials,
    stat: &FileOwnership,
    mount_flags: u64,
    uid: u32,
    gid: u32,
) -> (r: Result<(), SyscallError>)
    ensures
        r == if mount_flags & MS_RDONLY != 0 {
            Err::<(), SyscallError>(SyscallError::ReadOnlyFileSystem)
        } else if !credentials.has_cap(CAP_CHOWN) && ((uid != u32::MAX && uid != stat.st_uid)
            || credentials.uid != stat.st_uid || (gid != u32::MAX && !credentials.in_group(gid))) {
            Err(SyscallError::PermissionDenied)
        } else {
            Ok(())
        },
{
    let has_chown = has_capability(credentials, CAP_CHOWN);
    ensure_file_like_writable(mount_flags)?;
    if !has_chown {
        if uid != u32::MAX && uid != stat.st_uid {
            return Err(SyscallError::PermissionDenied);
        }
        if credentials.uid != stat.st_uid {
            return Err(SyscallError::PermissionDenied);
        }
        if gid != u32::MAX && !is_group_member(credentials, gid) {
            return Err(SyscallError::PermissionDenied);
        }
    }
    Ok(())
}

/// The mode a regular file keeps after a change of owner: set-user-id is always dropped;
/// set-group-id too, unless the changer has `CAP_FSETID` and group execute is off.
/// `None` when nothing changes.
pub open spec fn chown_cleared_mode(old_mode: u32, credentials: AccessCredentials) -> u32 {
    let mode = (old_mode & 0o7777) & !S_ISUID;
    if !credentials.has_cap(CAP_FSETID) || mode & S_IXGRP != 0 {
        mode & !S_ISGID
    } else {
        mode
    }
}

/// After a change of owner: the mode to set on a regular file, when it changes.
pub fn clear_chown_mode_bits(old_mode: u32, credentials: &AccessCredentials) -> (r: Option<u32>)
    ensures
        r == if old_mode & S_IFMT != S_IFREG || chown_cleared_mode(old_mode, *credentials) == old_mode
            & 0o7777 {
            None
        } else {
            Some(chown_cleared_mode(old_mode, *credentials))
        },
{
    if old_mode & S_IFMT != S_IFREG {
        return None;
    }
    let mut mode = old_mode & 0o7777;
    mode = mode & !S_ISUID;
    if !has_capability(credentials, CAP_FSETID) || (mode & S_IXGRP) != 0 {
        mode = mode & !S_ISGID;
    }
    if mode != (old_mode & 0o7777) {
        Some(mode)
    } else {
        None
    }
}

/// What an `*at` call acts on once its flags and path are checked.
#[derive(Clone, Copy, Debug, PartialEq, Eq, Structural)]
pub enum AtTarget {
    /// The object behind `dirfd` itself (an empty path with `AT_EMPTY_PATH`).
    Descriptor,
    /// The path, resolved against `dirfd`.
    Path,
}

/// `faccessat`: only `AT_EMPTY_PATH`, `AT_SYMLINK_NOFOLLOW` and `AT_EACCESS` are allowed,
/// the mode must be valid, and an empty path needs `AT_EMPTY_PATH`.
pub fn faccessat_impl(flags: i32, mode: i32, path_is_empty: bool) -> (r: Result<AtTarget, SyscallError>)
    ensures
        r == if flags & !(AT_EMPTY_PATH | AT_SYMLINK_NOFOLLOW | AT_EACCESS) != 0 || mode & !7i32 != 0 {
            Err::<AtTarget, SyscallError>(SyscallError::InvalidArguments)
        } else if path_is_empty {
            if flags & AT_EMPTY_PATH == 0 {
                Err(SyscallError::InvalidArguments)
            } else {
                Ok(AtTarget::Descriptor)
            }
        } else {
            Ok(AtTarget::Path)
        },
{
    let allowed = AT_EMPTY_PATH | AT_SYMLINK_NOFOLLOW | AT_EACCESS;
    if flags != flags & allowed {
        assert(flags & !allowed != 0) by (bit_vector)
            requires
                flags != flags & allowed,
        ;
        return Err(SyscallError::InvalidArguments);
    }
    assert(flags & !allowed == 0) by (bit_vector)
        requires
            flags == flags & allowed,
    ;
    check_access_mode(mode)?;
    if path_is_empty {
        if flags & AT_EMPTY_PATH == 0 {
            return Err(SyscallError::InvalidArguments);
        }
        return Ok(AtTarget::Descriptor);
    }
    Ok(AtTarget::Path)
}

/// `fchmodat`: only `AT_EMPTY_PATH` and `AT_SYMLINK_NOFOLLOW` are allowed, an empty path
/// needs `AT_EMPTY_PATH`; the file type bits of the mode are dropped.
pub fn chmod_at(flags: i32, mode: u32, path_is_empty: bool) -> (r: Result<(AtTarget, u32), SyscallError>)
    ensures
        r == if flags & !(AT_EMPTY_PATH | AT_SYMLINK_NOFOLLOW) != 0 {
            Err::<(AtTarget, u32), SyscallError>(SyscallError::InvalidArguments)
        } else if path_is_empty {
            if flags & AT_EMPTY_PATH == 0 {
                Err(SyscallError::FileNotFound)
            } else {
                Ok((AtTarget::Descriptor, mode & !S_IFMT))
            }
        } else {
            Ok((AtTarget::Path, mode & !S_IFMT))
        },
{
    let allowed = AT_EMPTY_PATH | AT_SYMLINK_NOFOLLOW;
    if flags != flags & allowed {
        assert(flags & !allowed != 0) by (bit_vector)
            requires
                flags != flags & allowed,
        ;
        return Err(SyscallError::InvalidArguments);
    }
    assert(flags & !allowed == 0) by (bit_vector)
        requires
            flags == flags & allowed,
    ;
    let mode = mode & !S_IFMT;
    if path_is_empty {
        if flags & AT_EMPTY_PATH == 0 {
            return Err(SyscallError::FileNotFound);
        }
        return Ok((AtTarget::Descriptor, mode));
    }
    Ok((AtTarget::Path, mode))
}

/// `fchownat`: only `AT_EMPTY_PATH`, `AT_SYMLINK_NOFOLLOW` and `AT_NO_AUTOMOUNT` are
/// allowed, and an empty path needs `AT_EMPTY_PATH`.
pub fn chown_at(flags: i32, path_is_empty: bool) -> (r: Result<AtTarget, SyscallError>)
    ensures
        r == if flags & !(AT_EMPTY_PATH | AT_SYMLINK_NOFOLLOW | AT_NO_AUTOMOUNT) != 0 {
            Err::<AtTarget, SyscallError>(SyscallError::InvalidArguments)
        } else if path_is_empty {
            if flags & AT_EMPTY_PATH == 0 {
                Err(SyscallError::FileNotFound)
            } else {
                Ok(AtTarget::Descriptor)
            }
        } else {
            Ok(AtTarget::Path)
        },
{
    let allowed = AT_EMPTY_PATH | AT_SYMLINK_NOFOLLOW | AT_NO_AUTOMOUNT;
    if flags != flags & allowed {
        assert(flags & !allowed != 0) by (bit_vector)
            requires
                flags != flags & allowed,
        ;
        return Err(SyscallError::InvalidArguments);
    }
    assert(flags & !allowed == 0) by (bit_vector)
        requires
            flags == flags & allowed,
    ;
    if path_is_empty {
        if flags & AT_EMPTY_PATH == 0 {
            return Err(SyscallError::FileNotFound);
        }
        return Ok(AtTarget::Descriptor);
    }
    Ok(AtTarget::Path)
}

} // verus!

verus! {

/// Each permission bit of a mode, as the class test reads it.
proof fn lemma_class_bits(p: u32)
    by (bit_vector)
    ensures
        ((((p & 0o777) >> 6u32) & 0o7) & 4 != 0) == (p & 0o400 != 0),
        ((((p & 0o777) >> 6u32) & 0o7) & 2 != 0) == (p & 0o200 != 0),
        ((((p & 0o777) >> 6u32) & 0o7) & 1 != 0) == (p & 0o100 != 0),
        ((((p & 0o777) >> 3u32) & 0o7) & 4 != 0) == (p & 0o040 != 0),
        ((((p & 0o777) >> 3u32) & 0o7) & 2 != 0) == (p & 0o020 != 0),
        ((((p & 0o777) >> 3u32) & 0o7) & 1 != 0) == (p & 0o010 != 0),
        ((((p & 0o777) >> 0u32) & 0o7) & 4 != 0) == (p & 0o004 != 0),
        ((((p & 0o777) >> 0u32) & 0o7) & 2 != 0) == (p & 0o002 != 0),
        ((((p & 0o777) >> 0u32) & 0o7) & 1 != 0) == (p & 0o001 != 0),
        4i32 & 1 == 0 && 4i32 & 2 == 0 && 4i32 & 4 != 0,
        2i32 & 1 == 0 && 2i32 & 2 != 0 && 2i32 & 4 == 0,
        1i32 & 1 != 0 && 1i32 & 2 == 0 && 1i32 & 4 == 0,
{
}

/// For a caller other than root without the DAC capabilities, a read (4), write (2) or
/// execute (1) request is judged by one bit of the mode: the owner's (0o400, 0o200, 0o100)
/// for the owner; the group's (0o040, 0o020, 0o010) for a non-owner whose primary or
/// supplementary group is the file's; the others' (0o004, 0o002, 0o001) for anyone else.
pub proof fn lemma_access_classes(stat: FileOwnership, credentials: AccessCredentials)
    requires
        credentials.uid != 0,
        !credentials.has_cap(CAP_DAC_READ_SEARCH),
        !credentials.has_cap(CAP_DAC_OVERRIDE),
    ensures
        credentials.uid == stat.st_uid ==> {
            &&& access_allowed(stat, 4, credentials, false) == (stat.st_mode & 0o400 != 0)
            &&& access_allowed(stat, 2, credentials, false) == (stat.st_mode & 0o200 != 0)
            &&& access_allowed(stat, 1, credentials, false) == (stat.st_mode & 0o100 != 0)
        },
        credentials.uid != stat.st_uid && (credentials.gid == stat.st_gid
            || credentials.supplementary_groups@.contains(stat.st_gid)) ==> {
            &&& access_allowed(stat, 4, credentials, false) == (stat.st_mode & 0o040 != 0)
            &&& access_allowed(stat, 2, credentials, false) == (stat.st_mode & 0o020 != 0)
            &&& access_allowed(stat, 1, credentials, false) == (stat.st_mode & 0o010 != 0)
        },
        credentials.uid != stat.st_uid && credentials.gid != stat.st_gid
            && !credentials.supplementary_groups@.contains(stat.st_gid) ==> {
            &&& access_allowed(stat, 4, credentials, false) == (stat.st_mode & 0o004 != 0)
            &&& access_allowed(stat, 2, credentials, false) == (stat.st_mode & 0o002 != 0)
            &&& access_allowed(stat, 1, credentials, false) == (stat.st_mode & 0o001 != 0)
        },
{
    lemma_class_bits(stat.st_mode);
    let p = stat.st_mode & 0o777;
    if credentials.uid == stat.st_uid {
        assert(class_bits(stat, credentials) == (p >> 6u32) & 0o7);
    } else if credentials.in_group(stat.st_gid) {
        assert(class_bits(stat, credentials) == (p >> 3u32) & 0o7);
    } else {
        assert(class_bits(stat, credentials) == (p >> 0u32) & 0o7);
    }
}

/// Asking for less never turns a granted access into a refused one, as long as the caller
/// holds both DAC capabilities or neither (with just one of them, a read-and-write request
/// can pass on that capability while the write or the read alone does not).
pub proof fn lemma_access_monotone(
    stat: FileOwnership,
    mode: i32,
    fewer: i32,
    credentials: AccessCredentials,
    allow_root_directory_search: bool,
)
    requires
        0 <= mode <= 7,
        0 <= fewer <= 7,
        fewer & !mode == 0,
        credentials.has_cap(CAP_DAC_READ_SEARCH) == credentials.has_cap(CAP_DAC_OVERRIDE),
        access_allowed(stat, mode, credentials, allow_root_directory_search),
    ensures
        access_allowed(stat, fewer, credentials, allow_root_directory_search),
{
    assert((fewer & 4 != 0 ==> mode & 4 != 0) && (fewer & 2 != 0 ==> mode & 2 != 0) && (fewer & 1
        != 0 ==> mode & 1 != 0)) by (bit_vector)
        requires
            fewer & !mode == 0,
    ;
    assert(fewer & 1 == 0 || fewer & 1 != 0);
    assert((fewer & 6 == 0) ==> (fewer & 4 == 0 && fewer & 2 == 0)) by (bit_vector);
    assert((fewer & 1 == 0 && fewer & 4 == 0 && fewer & 2 == 0) ==> fewer == 0) by (bit_vector)
        requires
            0 <= fewer <= 7,
    ;
}

/// Root may always read and write; only execute can be refused to it.
pub proof fn lemma_root_reads_and_writes(stat: FileOwnership, mode: i32, credentials: AccessCredentials, allow: bool)
    requires
        credentials.uid == 0,
        mode & 1 == 0,
    ensures
        access_allowed(stat, mode, credentials, allow),
{
}

/// A change of owner never leaves a regular file set-user-id.
pub proof fn lemma_chown_clears_setuid(old_mode: u32, credentials: AccessCredentials)
    ensures
        chown_cleared_mode(old_mode, credentials) & S_ISUID == 0,
{
    let m = (old_mode & 0o7777) & !S_ISUID;
    assert(m & S_ISUID == 0 && (m & !S_ISGID) & S_ISUID == 0) by (bit_vector)
        requires
            m == (old_mode & 0o7777u32) & !0o4000u32,
    ;
}

/// The check of `faccessat` on a resolved path: every directory on the way may be
/// searched, the file opens, a write test needs a writable mount, and the mode is allowed.
/// `search`, `opened` and `mount_writable` are what those steps gave.
pub fn check_access_target(
    search: Result<(), SyscallError>,
    opened: Result<FileOwnership, SyscallError>,
    mount_writable: Result<(), SyscallError>,
    mode: i32,
    credentials: &AccessCredentials,
) -> (r: Result<(), SyscallError>)
    ensures
        r == match search {
            Err(e) => Err(e),
            Ok(()) => match opened {
                Err(e) => Err(e),
                Ok(stat) => if mode & 2 != 0 && mount_writable is Err {
                    mount_writable
                } else if access_allowed(stat, mode, *credentials, false) {
                    Ok(())
                } else {
                    Err(SyscallError::AccessDenied)
                },
            },
        },
{
    search?;
    let stat = opened?;
    if mode & 2 != 0 {
        mount_writable?;
    }
    check_access_permissions_for_ids(&stat, mode, credentials)
}

} // verus!
