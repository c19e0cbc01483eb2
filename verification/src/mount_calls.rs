use vstd::prelude::*;
use crate::error::SyscallError;
use crate::keyring::bytes_equal;
use crate::mount_flags::{
    mount_attr_flag_update, mount_flags_from_mount_bits, mount_flags_spec,
    mount_propagation_from_mount_flags, propagation_spec, remount_bind_flag_update, attr_flags_spec,
    attr_mask_spec, supported_clr, supported_set, LinuxMountAttr, MountPropagationUpdate,
    LEGACY_MS_NOSYMFOLLOW, MS_PRIVATE, MS_SHARED, MS_SLAVE, MS_UNBINDABLE, UMOUNT_DETACH,
    UMOUNT_EXPIRE, UMOUNT_FORCE, UMOUNT_NOFOLLOW,
};
use crate::mount_options::{
    fs_context_types, fuse_types, fuse_fd_option, is_supported_api_mount,
    is_supported_fs_context_type, parse_fuse_mount_options, split_pieces,
};
use crate::flags::{MS_NOSYMFOLLOW, MS_RELATIME};
use crate::open_path::{has_prefix, starts_with};

verus! {

/// The operation bits of `mount`.
pub const MS_REMOUNT: u64 = 32;
pub const MS_BIND: u64 = 4096;
pub const MS_MOVE: u64 = 8192;
pub const MS_REC: u64 = 16384;

/// What a `mount` call does.
#[derive(Clone, Copy, Debug, PartialEq, Eq, Structural)]
pub enum NewMountKind {
    /// A fresh tmpfs (the data may give its root mode).
    Tmpfs,
    /// An ext2/3/4 file system on the block device that the source names.
    Ext,
    /// Another file system of the mount API.
    Other,
}

/// What a `mount` call does, after its checks.
#[derive(Clone, Copy, Debug, PartialEq, Eq, Structural)]
pub enum MountRoute {
    /// Change the flags of a bind mount at its root.
    BindRemount { flags: u64, mask: u64, recursive: bool },
    /// Bind the source at the target.
    Bind { recursive: bool },
    /// Move the mount at the source to the target.
    Move,
    /// Change the flags of the mount at the target's root.
    Remount { flags: u64, mask: u64, recursive: bool },
    /// Change the propagation type; a shared mount in an unmapped process also makes its
    /// mount namespace shared with the parent's.
    Propagation { update: MountPropagationUpdate, recursive: bool, share_with_parent: bool },
    /// Mount a FUSE file system served through descriptor `fd`.
    Fuse { fd: u64 },
    /// Mount a new file system of `kind` with `flags`.
    NewFilesystem { kind: NewMountKind, flags: u64 },
}

/// What `mount` knows before it decides: its flags, whether a source was given (and,
/// where it was resolved, whether it names a `/proc/<pid>/fd/` entry), what the target is.
#[derive(Clone, Copy, Debug, PartialEq, Eq, Structural)]
pub struct MountRequest {
    pub mountflags: u64,
    pub has_source: bool,
    pub source_is_proc_fd: bool,
    pub target_is_proc_fd: bool,
    pub target_is_directory: bool,
    pub user_namespace_mapped: bool,
}

/// A string argument that is absent or empty counts as not given.
pub open spec fn given(s: Option<Seq<u8>>) -> Option<Seq<u8>> {
    match s {
        Some(v) => if v.len() == 0 {
            None
        } else {
            Some(v)
        },
        None => None,
    }
}

/// `none`
pub open spec fn none_name() -> Seq<u8> {
    seq![0x6eu8, 0x6fu8, 0x6eu8, 0x65u8]
}

/// `fuse.`
pub open spec fn fuse_subtype_prefix() -> Seq<u8> {
    seq![0x66u8, 0x75u8, 0x73u8, 0x65u8, 0x2eu8]
}

/// Whether a file system type names FUSE: `fuse` or `fuse.<subtype>`.
pub open spec fn is_fuse_name(s: Seq<u8>) -> bool {
    s == fuse_types()[0] || has_prefix(s, fuse_subtype_prefix())
}

/// The kind of a new mount of a supported type.
pub open spec fn new_mount_kind(s: Seq<u8>) -> NewMountKind {
    if s == fs_context_types()[3] {
        NewMountKind::Tmpfs
    } else if s == fs_context_types()[9] || s == fs_context_types()[10] || s
        == fs_context_types()[11] {
        NewMountKind::Ext
    } else {
        NewMountKind::Other
    }
}

/// The decision of `mount`.
pub open spec fn mount_route_spec(
    req: MountRequest,
    fstype: Option<Seq<u8>>,
    data: Option<Seq<u8>>,
) -> Result<MountRoute, SyscallError> {
    let f = req.mountflags;
    let recursive = f & MS_REC != 0;
    let fs = given(fstype);
    if f & MS_BIND != 0 {
        if f & MS_REMOUNT != 0 {
            Ok(
                MountRoute::BindRemount {
                    flags: mount_flags_spec(f),
                    mask: remount_mask_spec(f),
                    recursive,
                },
            )
        } else if !req.has_source {
            Err(SyscallError::BadAddress)
        } else if req.target_is_proc_fd || req.source_is_proc_fd {
            Err(SyscallError::FileNotFound)
        } else {
            Ok(MountRoute::Bind { recursive })
        }
    } else if f & MS_MOVE != 0 {
        if !req.has_source {
            Err(SyscallError::InvalidArguments)
        } else {
            Ok(MountRoute::Move)
        }
    } else if f & MS_REMOUNT != 0 {
        Ok(MountRoute::Remount { flags: mount_flags_spec(f), mask: remount_mask_spec(f), recursive })
    } else if f & (MS_PRIVATE | MS_SLAVE | MS_SHARED | MS_UNBINDABLE) != 0 {
        if fs is Some && fs->0 != none_name() {
            Err(SyscallError::InvalidArguments)
        } else {
            match propagation_spec(f) {
                None => Err(SyscallError::InvalidArguments),
                Some(u) => Ok(
                    MountRoute::Propagation {
                        update: u,
                        recursive,
                        share_with_parent: u == MountPropagationUpdate::Shared
                            && !req.user_namespace_mapped,
                    },
                ),
            }
        }
    } else if fs is None {
        Err(SyscallError::InvalidArguments)
    } else if is_fuse_name(fs->0) {
        if !req.target_is_directory {
            Err(SyscallError::NotADirectory)
        } else {
            match (match given(data) {
                None => Ok(None),
                Some(d) => fuse_fd_option(split_pieces(d, 0x2c)),
            }) {
                Err(e) => Err(e),
                Ok(None) => Err(SyscallError::InvalidArguments),
                Ok(Some(fd)) => Ok(MountRoute::Fuse { fd }),
            }
        }
    } else if !(fs_context_types().contains(fs->0) || fuse_types().contains(fs->0)) {
        Err(SyscallError::NoDevice)
    } else if !req.target_is_directory {
        Err(SyscallError::NotADirectory)
    } else {
        Ok(MountRoute::NewFilesystem { kind: new_mount_kind(fs->0), flags: mount_flags_spec(f) })
    }
}

/// The mask of a flag-changing remount.
pub open spec fn remount_mask_spec(bits: u64) -> u64 {
    (crate::flags::MS_RDONLY | crate::flags::MS_NOSUID | crate::flags::MS_NODEV | crate::flags::MS_NOEXEC)
        | (if mount_flags_spec(bits) & MS_RELATIME != 0 { MS_RELATIME } else { 0 })
        | (if bits & LEGACY_MS_NOSYMFOLLOW != 0 { MS_NOSYMFOLLOW } else { 0 })
}

/// A string argument as given: `None` where it is absent or empty.
fn given_bytes(s: Option<&[u8]>) -> (r: Option<&[u8]>)
    ensures
        match r {
            Some(v) => given(match s { Some(x) => Some(x@), None => None }) == Some(v@),
            None => given(match s { Some(x) => Some(x@), None => None }) is None,
        },
{
    match s {
        Some(v) => if v.len() == 0 {
            None
        } else {
            Some(v)
        },
        None => None,
    }
}

/// Decides what `mount(source, target, fstype, flags, data)` does. The caller has
/// checked `CAP_SYS_ADMIN`, read the strings, and opened the target.
pub fn mount_route(req: &MountRequest, fstype: Option<&[u8]>, data: Option<&[u8]>) -> (r: Result<
    MountRoute,
    SyscallError,
>)
    ensures
        r == mount_route_spec(
            *req,
            match fstype {
                Some(x) => Some(x@),
                None => None,
            },
            match data {
                Some(x) => Some(x@),
                None => None,
            },
        ),
{
    let f = req.mountflags;
    let recursive = f & MS_REC != 0;
    if f & MS_BIND != 0 {
        if f & MS_REMOUNT != 0 {
            let (flags, mask) = remount_bind_flag_update(f);
            return Ok(MountRoute::BindRemount { flags, mask, recursive });
        }
        if !req.has_source {
            return Err(SyscallError::BadAddress);
        }
        if req.target_is_proc_fd || req.source_is_proc_fd {
            return Err(SyscallError::FileNotFound);
        }
        return Ok(MountRoute::Bind { recursive });
    }
    if f & MS_MOVE != 0 {
        if !req.has_source {
            return Err(SyscallError::InvalidArguments);
        }
        return Ok(MountRoute::Move);
    }
    if f & MS_REMOUNT != 0 {
        let (flags, mask) = remount_bind_flag_update(f);
        return Ok(MountRoute::Remount { flags, mask, recursive });
    }
    let fs = given_bytes(fstype);
    if f & (MS_PRIVATE | MS_SLAVE | MS_SHARED | MS_UNBINDABLE) != 0 {
        if let Some(name) = fs {
            let none: [u8; 4] = [0x6e, 0x6f, 0x6e, 0x65];
            assert(none@ =~= none_name());
            if !bytes_equal(name, &none) {
                return Err(SyscallError::InvalidArguments);
            }
        }
        return match mount_propagation_from_mount_flags(f) {
            None => Err(SyscallError::InvalidArguments),
            Some(u) => Ok(
                MountRoute::Propagation {
                    update: u,
                    recursive,
                    share_with_parent: u == MountPropagationUpdate::Shared
                        && !req.user_namespace_mapped,
                },
            ),
        };
    }
    let name = match fs {
        None => return Err(SyscallError::InvalidArguments),
        Some(n) => n,
    };
    let fuse: [u8; 4] = [0x66, 0x75, 0x73, 0x65];
    let fuse_dot: [u8; 5] = [0x66, 0x75, 0x73, 0x65, 0x2e];
    assert(fuse@ =~= fuse_types()[0]);
    assert(fuse_dot@ =~= fuse_subtype_prefix());
    if bytes_equal(name, &fuse) || starts_with(name, &fuse_dot) {
        if !req.target_is_directory {
            return Err(SyscallError::NotADirectory);
        }
        let options = parse_fuse_mount_options(given_bytes(data))?;
        return match options.fd {
            None => Err(SyscallError::InvalidArguments),
            Some(fd) => Ok(MountRoute::Fuse { fd }),
        };
    }
    if !is_supported_api_mount(name) {
        return Err(SyscallError::NoDevice);
    }
    if !req.target_is_directory {
        return Err(SyscallError::NotADirectory);
    }
    let tmpfs: [u8; 5] = [0x74, 0x6d, 0x70, 0x66, 0x73];
    let ext2: [u8; 4] = [0x65, 0x78, 0x74, 0x32];
    let ext3: [u8; 4] = [0x65, 0x78, 0x74, 0x33];
    let ext4: [u8; 4] = [0x65, 0x78, 0x74, 0x34];
    assert(tmpfs@ =~= fs_context_types()[3]);
    assert(ext2@ =~= fs_context_types()[9]);
    assert(ext3@ =~= fs_context_types()[10]);
    assert(ext4@ =~= fs_context_types()[11]);
    let kind = if bytes_equal(name, &tmpfs) {
        NewMountKind::Tmpfs
    } else if bytes_equal(name, &ext2) || bytes_equal(name, &ext3) || bytes_equal(name, &ext4) {
        NewMountKind::Ext
    } else {
        NewMountKind::Other
    };
    Ok(MountRoute::NewFilesystem { kind, flags: mount_flags_from_mount_bits(f) })
}

/// How `umount2` proceeds once its flags and target were accepted.
#[derive(Clone, Copy, Debug, PartialEq, Eq, Structural)]
pub struct UmountPlan {
    /// Whether the target is opened first, and if so whether a final symlink is followed.
    pub open_target: Option<bool>,
    /// Expire the mount (fails with `TryAgain` the first time).
    pub expire: bool,
    /// Detach the mount lazily instead of unmounting it.
    pub detach: bool,
}

/// The first checks of `umount2`: known flags, and not the root.
pub fn umount_plan(flags: i32, target_is_root: bool) -> (r: Result<UmountPlan, SyscallError>)
    ensures
        r == if flags & !(UMOUNT_FORCE | UMOUNT_DETACH | UMOUNT_EXPIRE | UMOUNT_NOFOLLOW) != 0 {
            Err::<UmountPlan, SyscallError>(SyscallError::InvalidArguments)
        } else if target_is_root {
            Err(SyscallError::DeviceOrResourceBusy)
        } else {
            Ok(
                UmountPlan {
                    open_target: if flags & UMOUNT_EXPIRE != 0 {
                        None
                    } else {
                        Some(flags & UMOUNT_NOFOLLOW == 0)
                    },
                    expire: flags & UMOUNT_EXPIRE != 0,
                    detach: flags & UMOUNT_DETACH != 0,
                },
            )
        },
{
    if flags & !(UMOUNT_FORCE | UMOUNT_DETACH | UMOUNT_EXPIRE | UMOUNT_NOFOLLOW) != 0 {
        return Err(SyscallError::InvalidArguments);
    }
    if target_is_root {
        return Err(SyscallError::DeviceOrResourceBusy);
    }
    Ok(
        UmountPlan {
            open_target: if flags & UMOUNT_EXPIRE != 0 {
                None
            } else {
                Some(flags & UMOUNT_NOFOLLOW == 0)
            },
            expire: flags & UMOUNT_EXPIRE != 0,
            detach: flags & UMOUNT_DETACH != 0,
        },
    )
}

/// Expiring a mount cannot be forced or detached.
pub fn umount_expire_check(flags: i32) -> (r: Result<(), SyscallError>)
    ensures
        r == if flags & UMOUNT_EXPIRE != 0 && flags & (UMOUNT_FORCE | UMOUNT_DETACH) != 0 {
            Err::<(), SyscallError>(SyscallError::InvalidArguments)
        } else {
            Ok(())
        },
{
    if flags & UMOUNT_EXPIRE != 0 && flags & (UMOUNT_FORCE | UMOUNT_DETACH) != 0 {
        return Err(SyscallError::InvalidArguments);
    }
    Ok(())
}

/// `fsopen`: a known file system type; the answer is whether the descriptor is closed on
/// exec.
pub fn fsopen_check(fs_name: &[u8], flags: u32) -> (r: Result<bool, SyscallError>)
    ensures
        r == if !fs_context_types().contains(fs_name@) {
            Err::<bool, SyscallError>(SyscallError::NoDevice)
        } else {
            Ok(flags & 1 != 0)
        },
{
    if !is_supported_fs_context_type(fs_name) {
        return Err(SyscallError::NoDevice);
    }
    Ok(flags & 1 != 0)
}

/// The attributes `fsmount` accepts.
pub const FSMOUNT_SUPPORTED_ATTRS: u32 = 0xbf;

/// `fsmount`: the attributes become the new mount's flags and the mask they decide.
pub fn fsmount_attr_update(mount_attrs: u32) -> (r: Result<(u64, u64), SyscallError>)
    ensures
        r == if mount_attrs & !FSMOUNT_SUPPORTED_ATTRS != 0 {
            Err::<(u64, u64), SyscallError>(SyscallError::InvalidArguments)
        } else {
            let attr = LinuxMountAttr {
                attr_set: mount_attrs as u64,
                attr_clr: 0,
                propagation: 0,
                userns_fd: 0,
            };
            Ok((attr_flags_spec(attr), attr_mask_spec(attr)))
        },
{
    if mount_attrs & !FSMOUNT_SUPPORTED_ATTRS != 0 {
        return Err(SyscallError::InvalidArguments);
    }
    let set = mount_attrs as u64;
    let attr = LinuxMountAttr { attr_set: set, attr_clr: 0, propagation: 0, userns_fd: 0 };
    assert(set & !0x2000bfu64 == 0 && set & 0x0010_0000u64 == 0) by (bit_vector)
        requires
            set == mount_attrs as u64,
            mount_attrs & !0xbfu32 == 0,
    ;
    assert(supported_set() == 0x2000bfu64 && 0u64 & !supported_clr() == 0) by (bit_vector);
    match mount_attr_flag_update(&attr) {
        Ok((flags, mask, _)) => Ok((flags, mask)),
        Err(e) => Err(e),
    }
}

/// Where a mount call finds a path argument.
#[derive(Clone, Copy, Debug, PartialEq, Eq, Structural)]
pub enum MountPathSource {
    /// The path of the object that the descriptor holds.
    Descriptor,
    /// The path, resolved.
    Path,
}

/// A path argument of `fspick` and `move_mount`: a null pointer or an empty path names the
/// descriptor, where the call's empty-path flag allows it.
pub open spec fn empty_path_source_spec(path_is_null: bool, path_is_empty: bool, allow_empty: bool) -> Result<
    MountPathSource,
    SyscallError,
> {
    if path_is_null {
        if allow_empty {
            Ok(MountPathSource::Descriptor)
        } else {
            Err(SyscallError::BadAddress)
        }
    } else if path_is_empty {
        if allow_empty {
            Ok(MountPathSource::Descriptor)
        } else {
            Err(SyscallError::InvalidArguments)
        }
    } else {
        Ok(MountPathSource::Path)
    }
}

pub fn empty_path_source(path_is_null: bool, path_is_empty: bool, allow_empty: bool) -> (r: Result<
    MountPathSource,
    SyscallError,
>)
    ensures
        r == empty_path_source_spec(path_is_null, path_is_empty, allow_empty),
{
    if path_is_null {
        if allow_empty {
            Ok(MountPathSource::Descriptor)
        } else {
            Err(SyscallError::BadAddress)
        }
    } else if path_is_empty {
        if allow_empty {
            Ok(MountPathSource::Descriptor)
        } else {
            Err(SyscallError::InvalidArguments)
        }
    } else {
        Ok(MountPathSource::Path)
    }
}

/// The flags of `fspick`.
pub const FSPICK_CLOEXEC: u32 = 0x1;
pub const FSPICK_SYMLINK_NOFOLLOW: u32 = 0x2;
pub const FSPICK_EMPTY_PATH: u32 = 0x8;

/// The flags of `move_mount`.
pub const MOVE_MOUNT_F_EMPTY_PATH: u32 = 0x4;
pub const MOVE_MOUNT_T_EMPTY_PATH: u32 = 0x40;
pub const MOVE_MOUNT_BENEATH: u32 = 0x200;

/// How `move_mount` finds the mount it moves, given a non-null source path.
#[derive(Clone, Copy, Debug, PartialEq, Eq, Structural)]
pub enum MoveSource {
    /// The path of the object that `from_dirfd` holds.
    Descriptor,
    /// An absolute path (`from_dirfd` must still hold an object).
    Absolute,
    /// A path relative to the path of the object that `from_dirfd` holds, which must open.
    Relative,
}

/// The source of `move_mount`; `from_path` is `None` where the pointer is null.
pub fn move_mount_source(from_path: Option<&[u8]>, flags: u32) -> (r: Result<MoveSource, SyscallError>)
    ensures
        r == match from_path {
            None => if flags & MOVE_MOUNT_F_EMPTY_PATH != 0 {
                Ok::<MoveSource, SyscallError>(MoveSource::Descriptor)
            } else {
                Err(SyscallError::BadAddress)
            },
            Some(p) => if p@.len() == 0 {
                if flags & MOVE_MOUNT_F_EMPTY_PATH != 0 {
                    Ok(MoveSource::Descriptor)
                } else {
                    Err(SyscallError::InvalidArguments)
                }
            } else if p@[0] == 0x2f {
                Ok(MoveSource::Absolute)
            } else {
                Ok(MoveSource::Relative)
            },
        },
{
    let allow_empty = flags & MOVE_MOUNT_F_EMPTY_PATH != 0;
    match from_path {
        None => if allow_empty {
            Ok(MoveSource::Descriptor)
        } else {
            Err(SyscallError::BadAddress)
        },
        Some(p) => {
            if p.len() == 0 {
                if allow_empty {
                    Ok(MoveSource::Descriptor)
                } else {
                    Err(SyscallError::InvalidArguments)
                }
            } else if p[0] == 0x2f {
                Ok(MoveSource::Absolute)
            } else {
                Ok(MoveSource::Relative)
            }
        },
    }
}

/// A path that a mount call takes as a mount must be the root of its mount: `mount_path` is
/// the mount point that the path lies on.
pub fn mount_root_check(path: &[u8], mount_path: &[u8]) -> (r: Result<(), SyscallError>)
    ensures
        r == if mount_path@ != path@ {
            Err::<(), SyscallError>(SyscallError::InvalidArguments)
        } else {
            Ok(())
        },
{
    if !bytes_equal(mount_path, path) {
        return Err(SyscallError::InvalidArguments);
    }
    Ok(())
}

/// The flags of `open_tree`.
pub const OPEN_TREE_CLONE: u32 = 0x1;
pub const OPEN_TREE_CLOEXEC: u32 = 0x0008_0000;
/// `AT_*` flags as `open_tree` and `mount_setattr` take them.
pub const AT_SYMLINK_NOFOLLOW: u32 = 0x100;
pub const AT_NO_AUTOMOUNT: u32 = 0x800;
pub const AT_EMPTY_PATH: u32 = 0x1000;
pub const AT_RECURSIVE: u32 = 0x8000;

/// Where `open_tree` finds its tree: a null pointer needs `AT_EMPTY_PATH`; an empty path
/// with it names the descriptor, without it is resolved (and so not found).
pub fn open_tree_source(path_is_null: bool, path_is_empty: bool, flags: u32) -> (r: Result<
    MountPathSource,
    SyscallError,
>)
    ensures
        r == if path_is_null {
            if flags & AT_EMPTY_PATH != 0 {
                Ok::<MountPathSource, SyscallError>(MountPathSource::Descriptor)
            } else {
                Err(SyscallError::BadAddress)
            }
        } else if path_is_empty && flags & AT_EMPTY_PATH != 0 {
            Ok(MountPathSource::Descriptor)
        } else {
            Ok(MountPathSource::Path)
        },
{
    if path_is_null {
        if flags & AT_EMPTY_PATH != 0 {
            return Ok(MountPathSource::Descriptor);
        }
        return Err(SyscallError::BadAddress);
    }
    if path_is_empty && flags & AT_EMPTY_PATH != 0 {
        return Ok(MountPathSource::Descriptor);
    }
    Ok(MountPathSource::Path)
}

/// The flags `open_tree_attr` hands on to `open_tree`: `OPEN_TREE_CLONE`,
/// `AT_SYMLINK_NOFOLLOW`, `AT_NO_AUTOMOUNT`, `AT_EMPTY_PATH` and `OPEN_TREE_CLOEXEC`.
pub const OPEN_TREE_KNOWN_FLAGS: u64 = 0x0008_1901;

/// What `open_tree` does with the tree it found.
#[derive(Clone, Copy, Debug, PartialEq, Eq, Structural)]
pub struct OpenTreePlan {
    /// Attach a copy of the mount at a hidden place and open that (`OPEN_TREE_CLONE`);
    /// otherwise open the tree itself as an `O_PATH` descriptor.
    pub clone: bool,
    /// Do not follow a final symbolic link of the path.
    pub nofollow: bool,
    /// The new descriptor is closed on exec.
    pub cloexec: bool,
}

/// The flags of `open_tree`: a bit it does not know is refused.
pub fn open_tree_plan(flags: u32) -> (r: Result<OpenTreePlan, SyscallError>)
    ensures
        r == if flags as u64 & !OPEN_TREE_KNOWN_FLAGS != 0 {
            Err::<OpenTreePlan, SyscallError>(SyscallError::InvalidArguments)
        } else {
            Ok(
                OpenTreePlan {
                    clone: flags & OPEN_TREE_CLONE != 0,
                    nofollow: flags & AT_SYMLINK_NOFOLLOW != 0,
                    cloexec: flags & OPEN_TREE_CLOEXEC != 0,
                },
            )
        },
{
    if flags as u64 & !OPEN_TREE_KNOWN_FLAGS != 0 {
        return Err(SyscallError::InvalidArguments);
    }
    Ok(
        OpenTreePlan {
            clone: flags & OPEN_TREE_CLONE != 0,
            nofollow: flags & AT_SYMLINK_NOFOLLOW != 0,
            cloexec: flags & OPEN_TREE_CLOEXEC != 0,
        },
    )
}

/// The size of `struct mount_attr`.
pub const MOUNT_ATTR_SIZE: usize = 32;

/// The arguments of `open_tree_attr`: a whole `mount_attr` at a valid pointer. The answer is
/// the flags handed to `open_tree` (the ones it knows) and whether the attributes apply
/// recursively.
pub fn open_tree_attr_args(flags: u64, size: usize, attr_is_null: bool) -> (r: Result<
    (u32, bool),
    SyscallError,
>)
    ensures
        r == if size < MOUNT_ATTR_SIZE {
            Err::<(u32, bool), SyscallError>(SyscallError::InvalidArguments)
        } else if attr_is_null {
            Err(SyscallError::BadAddress)
        } else {
            Ok(
                (
                    (flags & OPEN_TREE_KNOWN_FLAGS) as u32,
                    flags & 0x8000 != 0,
                ),
            )
        },
{
    if size < MOUNT_ATTR_SIZE {
        return Err(SyscallError::InvalidArguments);
    }
    if attr_is_null {
        return Err(SyscallError::BadAddress);
    }
    let known = flags & OPEN_TREE_KNOWN_FLAGS;
    assert(flags & 0x0008_1901u64 <= 0xffff_ffffu64) by (bit_vector);
    Ok((known as u32, flags & 0x8000 != 0))
}

/// The arguments of `mount_setattr`: only `AT_SYMLINK_NOFOLLOW`, `AT_EMPTY_PATH` and
/// `AT_RECURSIVE`, and a whole `mount_attr` at a valid pointer. The answer is whether the
/// change is recursive.
pub fn mount_setattr_args(flags: u32, size: usize, attr_is_null: bool) -> (r: Result<
    bool,
    SyscallError,
>)
    ensures
        r == if flags & !(AT_SYMLINK_NOFOLLOW | AT_EMPTY_PATH | AT_RECURSIVE) != 0
            || size < MOUNT_ATTR_SIZE {
            Err::<bool, SyscallError>(SyscallError::InvalidArguments)
        } else if attr_is_null {
            Err(SyscallError::BadAddress)
        } else {
            Ok(flags & AT_RECURSIVE != 0)
        },
{
    if flags & !(AT_SYMLINK_NOFOLLOW | AT_EMPTY_PATH | AT_RECURSIVE) != 0 {
        return Err(SyscallError::InvalidArguments);
    }
    if size < MOUNT_ATTR_SIZE {
        return Err(SyscallError::InvalidArguments);
    }
    if attr_is_null {
        return Err(SyscallError::BadAddress);
    }
    Ok(flags & AT_RECURSIVE != 0)
}

/// The handle type of this kernel's file handles: the inode number.
pub const FILE_HANDLE_TYPE_INODE: i32 = 1;
/// The bytes of such a handle.
pub const FILE_HANDLE_BYTES: u32 = 8;

/// The flags `name_to_handle_at` knows: `AT_EMPTY_PATH`, `AT_SYMLINK_NOFOLLOW` and
/// `AT_NO_AUTOMOUNT`.
pub const NAME_TO_HANDLE_FLAGS: i32 = 0x1900;

/// The checks of `name_to_handle_at` before it looks the path up: known flags, and valid
/// pointers. The answer is whether a path was given (a null one needs `AT_EMPTY_PATH`).
pub fn name_to_handle_args(
    flags: i32,
    handle_is_null: bool,
    mount_id_is_null: bool,
    path_is_null: bool,
) -> (r: Result<bool, SyscallError>)
    ensures
        r == if flags & !NAME_TO_HANDLE_FLAGS != 0 {
            Err::<bool, SyscallError>(SyscallError::InvalidArguments)
        } else if handle_is_null || mount_id_is_null {
            Err(SyscallError::BadAddress)
        } else if path_is_null && flags & 0x1000 == 0 {
            Err(SyscallError::BadAddress)
        } else {
            Ok(!path_is_null)
        },
{
    if flags & !NAME_TO_HANDLE_FLAGS != 0 {
        return Err(SyscallError::InvalidArguments);
    }
    if handle_is_null || mount_id_is_null {
        return Err(SyscallError::BadAddress);
    }
    if path_is_null && flags & 0x1000 == 0 {
        return Err(SyscallError::BadAddress);
    }
    Ok(!path_is_null)
}

/// What `name_to_handle_at` writes back for a file with `inode` on mount `mount_id`, to a
/// caller whose handle has room for `caller_bytes`: the mount id, and the handle's bytes
/// (the inode number, little-endian) where they fit. A mount id beyond `i32` is invalid.
pub fn file_handle_reply(mount_id: u64, caller_bytes: u32, inode: u64) -> (r: Result<
    (i32, Option<[u8; 8]>),
    SyscallError,
>)
    ensures
        match r {
            Err(e) => mount_id > i32::MAX && e == SyscallError::InvalidArguments,
            Ok((id, bytes)) => mount_id <= i32::MAX && id == mount_id && match bytes {
                None => caller_bytes < FILE_HANDLE_BYTES,
                Some(b) => caller_bytes >= FILE_HANDLE_BYTES && forall|i: int|
                    0 <= i < 8 ==> #[trigger] b@[i] == ((inode >> (8 * i as u64)) & 0xff) as u8,
            },
        },
{
    if mount_id > i32::MAX as u64 {
        return Err(SyscallError::InvalidArguments);
    }
    let id = mount_id as i32;
    if FILE_HANDLE_BYTES > caller_bytes {
        return Ok((id, None));
    }
    let b: [u8; 8] = [
        ((inode >> 0u64) & 0xff) as u8,
        ((inode >> 8u64) & 0xff) as u8,
        ((inode >> 16u64) & 0xff) as u8,
        ((inode >> 24u64) & 0xff) as u8,
        ((inode >> 32u64) & 0xff) as u8,
        ((inode >> 40u64) & 0xff) as u8,
        ((inode >> 48u64) & 0xff) as u8,
        ((inode >> 56u64) & 0xff) as u8,
    ];
    Ok((id, Some(b)))
}

} // verus!
