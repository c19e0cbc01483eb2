use vstd::prelude::*;
use crate::error::SyscallError;

verus! {

/// The major number of a device id.
pub open spec fn major_of(dev: u64) -> u32 {
    (((dev >> 8u64) & 0xfff) | ((dev >> 32u64) & !0xfffu64)) as u32
}

/// The minor number of a device id.
pub open spec fn minor_of(dev: u64) -> u32 {
    ((dev & 0xff) | ((dev >> 12u64) & !0xffu64)) as u32
}

/// The major number of a device id.
pub fn linux_major(dev: u64) -> (r: u32)
    ensures
        r == major_of(dev),
{
    (((dev >> 8) & 0xfff) | ((dev >> 32) & !0xfffu64)) as u32
}

/// The minor number of a device id.
pub fn linux_minor(dev: u64) -> (r: u32)
    ensures
        r == minor_of(dev),
{
    ((dev & 0xff) | ((dev >> 12) & !0xffu64)) as u32
}

/// What a file system reports of its size and limits.
#[derive(Clone, Copy, Debug, PartialEq, Eq, Structural)]
pub struct FileSystemStats {
    pub block_size: u64,
    pub blocks: u64,
    pub blocks_free: u64,
    pub blocks_available: u64,
    pub files: u64,
    pub files_free: u64,
    pub max_name_len: u64,
    pub fragment_size: u64,
}

/// The `statfs` structure.
#[derive(Clone, Copy, Debug, PartialEq, Eq, Structural)]
pub struct LinuxStatFs {
    pub f_type: i64,
    pub f_bsize: i64,
    pub f_blocks: u64,
    pub f_bfree: u64,
    pub f_bavail: u64,
    pub f_files: u64,
    pub f_ffree: u64,
    pub f_fsid: i64,
    pub f_namelen: i64,
    pub f_frsize: i64,
    pub f_flags: i64,
}

/// The `statfs` answer for a file system of type `f_type` mounted with `mount_flags`.
pub fn linux_statfs_with_flags(f_type: i64, stats: FileSystemStats, mount_flags: u64) -> (r: LinuxStatFs)
    ensures
        r == (LinuxStatFs {
            f_type,
            f_bsize: stats.block_size as i64,
            f_blocks: stats.blocks,
            f_bfree: stats.blocks_free,
            f_bavail: stats.blocks_available,
            f_files: stats.files,
            f_ffree: stats.files_free,
            f_fsid: 1,
            f_namelen: stats.max_name_len as i64,
            f_frsize: stats.fragment_size as i64,
            f_flags: mount_flags as i64,
        }),
{
    LinuxStatFs {
        f_type,
        f_bsize: stats.block_size as i64,
        f_blocks: stats.blocks,
        f_bfree: stats.blocks_free,
        f_bavail: stats.blocks_available,
        f_files: stats.files,
        f_ffree: stats.files_free,
        f_fsid: 1,
        f_namelen: stats.max_name_len as i64,
        f_frsize: stats.fragment_size as i64,
        f_flags: mount_flags as i64,
    }
}

/// File system magics of the pseudo file systems.
pub const ANON_INODE_FS_MAGIC: i64 = 0x0904_1934;
pub const SOCKFS_MAGIC: i64 = 0x534f_434b;
pub const PIPEFS_MAGIC: i64 = 0x5049_5045;

/// What kind of object a descriptor holds, as far as its file system goes.
#[derive(Clone, Copy, Debug, PartialEq, Eq, Structural)]
pub enum ObjectClass {
    /// A file, directory or link of a mounted file system.
    FileLike,
    /// A pidfd, eventfd, inotify, epoll, signalfd or timerfd.
    AnonInode,
    /// An inet, netlink or unix socket.
    Socket,
    Pipe,
    Other,
}

/// The file system magic of an object; `file_magic` is what the mount of a file-like
/// object's path reports.
pub open spec fn object_magic(class: ObjectClass, file_magic: Result<i64, SyscallError>) -> Result<
    i64,
    SyscallError,
> {
    match class {
        ObjectClass::FileLike => file_magic,
        ObjectClass::AnonInode => Ok(ANON_INODE_FS_MAGIC),
        ObjectClass::Socket => Ok(SOCKFS_MAGIC),
        ObjectClass::Pipe => Ok(PIPEFS_MAGIC),
        ObjectClass::Other => Err(SyscallError::BadFileDescriptor),
    }
}

/// The file system magic of an object.
pub fn filesystem_magic_for_object(class: ObjectClass, file_magic: Result<i64, SyscallError>) -> (r:
    Result<i64, SyscallError>)
    ensures
        r == object_magic(class, file_magic),
{
    match class {
        ObjectClass::FileLike => file_magic,
        ObjectClass::AnonInode => Ok(ANON_INODE_FS_MAGIC),
        ObjectClass::Socket => Ok(SOCKFS_MAGIC),
        ObjectClass::Pipe => Ok(PIPEFS_MAGIC),
        ObjectClass::Other => Err(SyscallError::BadFileDescriptor),
    }
}

/// The mount id a pseudo file system reports: one past the real mounts, sockets first,
/// then anonymous inodes, then pipes.
pub open spec fn pseudo_mount_id_spec(magic: i64, mount_count: u64) -> Option<u64> {
    if magic == SOCKFS_MAGIC {
        Some((mount_count + 1) as u64)
    } else if magic == ANON_INODE_FS_MAGIC {
        Some((mount_count + 2) as u64)
    } else if magic == PIPEFS_MAGIC {
        Some((mount_count + 3) as u64)
    } else {
        None
    }
}

/// The mount id a pseudo file system reports, given how many mounts there are.
pub fn pseudo_mount_id(magic: i64, mount_count: u64) -> (r: Option<u64>)
    requires
        mount_count + 3 <= u64::MAX,
    ensures
        r == pseudo_mount_id_spec(magic, mount_count),
{
    let offset: u64 = if magic == SOCKFS_MAGIC {
        0
    } else if magic == ANON_INODE_FS_MAGIC {
        1
    } else if magic == PIPEFS_MAGIC {
        2
    } else {
        return None;
    };
    Some(mount_count + 1 + offset)
}

/// The mount id of an object: its mount's for a file, a pseudo file system's otherwise.
pub fn mount_id_for_object(
    class: ObjectClass,
    file_mount_id: u64,
    mount_count: u64,
) -> (r: Result<u64, SyscallError>)
    requires
        mount_count + 3 <= u64::MAX,
    ensures
        r == match class {
            ObjectClass::FileLike => Ok::<u64, SyscallError>(file_mount_id),
            _ => match object_magic(class, Err(SyscallError::BadFileDescriptor)) {
                Err(e) => Err(e),
                Ok(m) => match pseudo_mount_id_spec(m, mount_count) {
                    Some(id) => Ok(id),
                    None => Err(SyscallError::BadFileDescriptor),
                },
            },
        },
{
    if let ObjectClass::FileLike = class {
        return Ok(file_mount_id);
    }
    let magic = filesystem_magic_for_object(class, Err(SyscallError::BadFileDescriptor))?;
    match pseudo_mount_id(magic, mount_count) {
        Some(id) => Ok(id),
        None => Err(SyscallError::BadFileDescriptor),
    }
}

/// Whether an object is the root of its mount: a file says so itself, a pseudo file system
/// object never is.
pub fn mount_root_for_object(class: ObjectClass, file_mount_root: bool) -> (r: Result<bool, SyscallError>)
    ensures
        r == match class {
            ObjectClass::FileLike => Ok::<bool, SyscallError>(file_mount_root),
            ObjectClass::Other => Err(SyscallError::BadFileDescriptor),
            _ => Ok(false),
        },
{
    match class {
        ObjectClass::FileLike => Ok(file_mount_root),
        ObjectClass::Other => Err(SyscallError::BadFileDescriptor),
        _ => Ok(false),
    }
}

/// `AT_*` flags of the stat family.
pub const AT_SYMLINK_NOFOLLOW: i32 = 0x100;
pub const AT_NO_AUTOMOUNT: i32 = 0x800;
pub const AT_EMPTY_PATH: i32 = 0x1000;
pub const AT_STATX_FORCE_SYNC: i32 = 0x2000;
pub const AT_STATX_DONT_SYNC: i32 = 0x4000;

/// `newfstatat` takes no flags but these three.
pub fn newfstatat_flags_check(flags: i32) -> (r: Result<(), SyscallError>)
    ensures
        r == if flags & !(AT_SYMLINK_NOFOLLOW | AT_NO_AUTOMOUNT | AT_EMPTY_PATH) != 0 {
            Err::<(), SyscallError>(SyscallError::InvalidArguments)
        } else {
            Ok(())
        },
{
    if flags & !(AT_SYMLINK_NOFOLLOW | AT_NO_AUTOMOUNT | AT_EMPTY_PATH) != 0 {
        Err(SyscallError::InvalidArguments)
    } else {
        Ok(())
    }
}

/// `statx` takes the `newfstatat` flags and one of the two sync flags.
pub fn statx_flags_check(flags: i32) -> (r: Result<(), SyscallError>)
    ensures
        r == if flags & !(AT_SYMLINK_NOFOLLOW | AT_NO_AUTOMOUNT | AT_EMPTY_PATH | AT_STATX_FORCE_SYNC
            | AT_STATX_DONT_SYNC) != 0 {
            Err::<(), SyscallError>(SyscallError::InvalidArguments)
        } else if flags & AT_STATX_FORCE_SYNC != 0 && flags & AT_STATX_DONT_SYNC != 0 {
            Err(SyscallError::InvalidArguments)
        } else {
            Ok(())
        },
{
    if flags & !(AT_SYMLINK_NOFOLLOW | AT_NO_AUTOMOUNT | AT_EMPTY_PATH | AT_STATX_FORCE_SYNC
        | AT_STATX_DONT_SYNC) != 0 {
        return Err(SyscallError::InvalidArguments);
    }
    if flags & AT_STATX_FORCE_SYNC != 0 && flags & AT_STATX_DONT_SYNC != 0 {
        return Err(SyscallError::InvalidArguments);
    }
    Ok(())
}

/// The path argument of the `*at` calls that take `AT_EMPTY_PATH`: a null pointer counts as
/// the empty path with that flag and is `BadAddress` without it. `Ok(true)` means the call
/// works on the empty path (the descriptor itself), `Ok(false)` that the path is read.
pub fn at_path_is_empty(path_is_null: bool, flags: i32) -> (r: Result<bool, SyscallError>)
    ensures
        r == if !path_is_null {
            Ok::<bool, SyscallError>(false)
        } else if flags & AT_EMPTY_PATH != 0 {
            Ok(true)
        } else {
            Err(SyscallError::BadAddress)
        },
{
    if !path_is_null {
        Ok(false)
    } else if flags & AT_EMPTY_PATH != 0 {
        Ok(true)
    } else {
        Err(SyscallError::BadAddress)
    }
}

/// What `stat` reports of a file (the x86-64 layout's fields).
#[derive(Clone, Copy, Debug, PartialEq, Eq, Structural)]
pub struct LinuxStat {
    pub st_dev: u64,
    pub st_ino: u64,
    pub st_nlink: u64,
    pub st_mode: u32,
    pub st_uid: u32,
    pub st_gid: u32,
    pub st_rdev: u64,
    pub st_size: i64,
    pub st_blksize: i64,
    pub st_blocks: i64,
    pub st_atime: i64,
    pub st_atime_nsec: i64,
    pub st_mtime: i64,
    pub st_mtime_nsec: i64,
    pub st_ctime: i64,
    pub st_ctime_nsec: i64,
}

/// A `statx` timestamp.
#[derive(Clone, Copy, Debug, PartialEq, Eq, Structural)]
pub struct StatxTimestamp {
    pub tv_sec: i64,
    pub tv_nsec: u32,
}

/// The fields of `statx` this kernel fills (the rest are zero).
#[derive(Clone, Copy, Debug, PartialEq, Eq, Structural)]
pub struct LinuxStatx {
    pub stx_mask: u32,
    pub stx_blksize: u32,
    pub stx_attributes: u64,
    pub stx_nlink: u32,
    pub stx_uid: u32,
    pub stx_gid: u32,
    pub stx_mode: u16,
    pub stx_ino: u64,
    pub stx_size: u64,
    pub stx_blocks: u64,
    pub stx_attributes_mask: u64,
    pub stx_atime: StatxTimestamp,
    pub stx_ctime: StatxTimestamp,
    pub stx_mtime: StatxTimestamp,
    pub stx_rdev_major: u32,
    pub stx_rdev_minor: u32,
    pub stx_dev_major: u32,
    pub stx_dev_minor: u32,
    pub stx_mnt_id: u64,
}

/// `statx` mask bits and the mount-root attribute.
pub const STATX_BASIC_STATS: u32 = 0x0000_07ff;
pub const STATX_MNT_ID: u32 = 0x0000_1000;
pub const STATX_ATTR_MOUNT_ROOT: u64 = 0x0000_2000;

/// The `statx` answer for a file's `stat`, its mount id and whether it is a mount's root.
pub open spec fn statx_of(stat: LinuxStat, mount_id: u64, mount_root: bool) -> LinuxStatx {
    LinuxStatx {
        stx_mask: STATX_BASIC_STATS | STATX_MNT_ID,
        stx_blksize: stat.st_blksize as u32,
        stx_attributes: if mount_root {
            STATX_ATTR_MOUNT_ROOT
        } else {
            0
        },
        stx_nlink: stat.st_nlink as u32,
        stx_uid: stat.st_uid,
        stx_gid: stat.st_gid,
        stx_mode: stat.st_mode as u16,
        stx_ino: stat.st_ino,
        stx_size: stat.st_size as u64,
        stx_blocks: stat.st_blocks as u64,
        stx_attributes_mask: STATX_ATTR_MOUNT_ROOT,
        stx_atime: StatxTimestamp { tv_sec: stat.st_atime, tv_nsec: stat.st_atime_nsec as u32 },
        stx_ctime: StatxTimestamp { tv_sec: stat.st_ctime, tv_nsec: stat.st_ctime_nsec as u32 },
        stx_mtime: StatxTimestamp { tv_sec: stat.st_mtime, tv_nsec: stat.st_mtime_nsec as u32 },
        stx_rdev_major: major_of(stat.st_rdev),
        stx_rdev_minor: minor_of(stat.st_rdev),
        stx_dev_major: major_of(stat.st_dev),
        stx_dev_minor: minor_of(stat.st_dev),
        stx_mnt_id: mount_id,
    }
}

/// The `statx` answer for a file's `stat`, its mount id and whether it is a mount's root.
pub fn statx_from_stat(stat: LinuxStat, mount_id: u64, mount_root: bool) -> (r: LinuxStatx)
    ensures
        r == statx_of(stat, mount_id, mount_root),
{
    LinuxStatx {
        stx_mask: STATX_BASIC_STATS | STATX_MNT_ID,
        stx_blksize: stat.st_blksize as u32,
        stx_attributes: if mount_root {
            STATX_ATTR_MOUNT_ROOT
        } else {
            0
        },
        stx_nlink: stat.st_nlink as u32,
        stx_uid: stat.st_uid,
        stx_gid: stat.st_gid,
        stx_mode: stat.st_mode as u16,
        stx_ino: stat.st_ino,
        stx_size: stat.st_size as u64,
        stx_blocks: stat.st_blocks as u64,
        stx_attributes_mask: STATX_ATTR_MOUNT_ROOT,
        stx_atime: StatxTimestamp { tv_sec: stat.st_atime, tv_nsec: stat.st_atime_nsec as u32 },
        stx_ctime: StatxTimestamp { tv_sec: stat.st_ctime, tv_nsec: stat.st_ctime_nsec as u32 },
        stx_mtime: StatxTimestamp { tv_sec: stat.st_mtime, tv_nsec: stat.st_mtime_nsec as u32 },
        stx_rdev_major: linux_major(stat.st_rdev),
        stx_rdev_minor: linux_minor(stat.st_rdev),
        stx_dev_major: linux_major(stat.st_dev),
        stx_dev_minor: linux_minor(stat.st_dev),
        stx_mnt_id: mount_id,
    }
}

/// `renameat2` flags.
pub const RENAME_NOREPLACE: u32 = 1;
pub const RENAME_EXCHANGE: u32 = 2;
pub const RENAME_WHITEOUT: u32 = 4;
/// The three flags together.
pub const RENAME_KNOWN_FLAGS: u32 = 7;

/// What `renameat2` does.
#[derive(Clone, Copy, Debug, PartialEq, Eq, Structural)]
pub enum RenameMode {
    Plain,
    NoReplace,
    Exchange,
}

/// The mode of `renameat2`: at most one known flag, and no whiteouts.
pub fn renameat2_mode(flags: u32) -> (r: Result<RenameMode, SyscallError>)
    ensures
        r == if flags & !RENAME_KNOWN_FLAGS != 0 {
            Err::<RenameMode, SyscallError>(SyscallError::InvalidArguments)
        } else if flags == 3 || flags == 5 || flags == 6 || flags == 7 {
            Err(SyscallError::InvalidArguments)
        } else if flags == RENAME_WHITEOUT {
            Err(SyscallError::InvalidArguments)
        } else if flags == RENAME_EXCHANGE {
            Ok(RenameMode::Exchange)
        } else if flags == RENAME_NOREPLACE {
            Ok(RenameMode::NoReplace)
        } else {
            Ok(RenameMode::Plain)
        },
{
    if flags & !RENAME_KNOWN_FLAGS != 0 {
        return Err(SyscallError::InvalidArguments);
    }
    assert(flags <= 7) by (bit_vector)
        requires
            flags & !7u32 == 0,
    ;
    let ones: u32 = (if flags & 1 != 0 {
        1
    } else {
        0
    }) + (if flags & 2 != 0 {
        1
    } else {
        0
    }) + (if flags & 4 != 0 {
        1
    } else {
        0
    });
    assert(ones == (if flags == 0 {
        0u32
    } else if flags == 1 || flags == 2 || flags == 4 {
        1u32
    } else if flags == 7 {
        3u32
    } else {
        2u32
    })) by (bit_vector)
        requires
            flags <= 7,
            ones == (if flags & 1 != 0 {
                1u32
            } else {
                0u32
            }) + (if flags & 2 != 0 {
                1u32
            } else {
                0u32
            }) + (if flags & 4 != 0 {
                1u32
            } else {
                0u32
            }),
    ;
    if ones > 1 {
        return Err(SyscallError::InvalidArguments);
    }
    if flags == RENAME_WHITEOUT {
        return Err(SyscallError::InvalidArguments);
    }
    if flags == RENAME_EXCHANGE {
        return Ok(RenameMode::Exchange);
    }
    if flags == RENAME_NOREPLACE {
        return Ok(RenameMode::NoReplace);
    }
    Ok(RenameMode::Plain)
}

/// How many bytes of a link target `readlink` copies: as many as fit.
pub fn readlink_copy_len(target_len: usize, out_len: usize) -> (r: usize)
    ensures
        r == if target_len < out_len {
            target_len
        } else {
            out_len
        },
{
    if target_len < out_len {
        target_len
    } else {
        out_len
    }
}

/// `fsync` and `fdatasync` take regular files, directories and block devices.
pub fn check_syncable_file(st_mode: u32) -> (r: Result<(), SyscallError>)
    ensures
        r is Ok <==> (st_mode & 0o170000 == 0o100000 || st_mode & 0o170000 == 0o040000 || st_mode
            & 0o170000 == 0o060000),
        r is Err ==> r == Err::<(), SyscallError>(SyscallError::InvalidArguments),
{
    let kind = st_mode & 0o170000;
    if kind == 0o100000 || kind == 0o040000 || kind == 0o060000 {
        Ok(())
    } else {
        Err(SyscallError::InvalidArguments)
    }
}

} // verus!
