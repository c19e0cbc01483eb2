use vstd::prelude::*;

verus! {

/// `AT_SYMLINK_NOFOLLOW`: act on a symbolic link itself.
pub const AT_SYMLINK_NOFOLLOW: i32 = 0x100;
/// `AT_EACCESS`: check with the effective ids.
pub const AT_EACCESS: i32 = 0x200;
/// `AT_REMOVEDIR`.
pub const AT_REMOVEDIR: i32 = 0x200;
/// `AT_SYMLINK_FOLLOW`.
pub const AT_SYMLINK_FOLLOW: i32 = 0x400;
/// `AT_NO_AUTOMOUNT`.
pub const AT_NO_AUTOMOUNT: i32 = 0x800;
/// `AT_EMPTY_PATH`: an empty path names the descriptor itself.
pub const AT_EMPTY_PATH: i32 = 0x1000;
/// The `dirfd` that stands for the current directory.
pub const AT_FDCWD: i32 = -100;

/// `open` flags.
pub const O_CREAT: i32 = 0x40;
pub const O_EXCL: i32 = 0x80;
pub const O_NOCTTY: i32 = 0x100;
pub const O_TRUNC: i32 = 0x200;
pub const O_APPEND: i32 = 0o2_000;
pub const O_NONBLOCK: i32 = 0o4_000;
pub const O_DSYNC: i32 = 0o10_000;
pub const O_DIRECT: i32 = 0o40_000;
pub const O_LARGEFILE: i32 = 0o100_000;
pub const O_DIRECTORY: i32 = 0o200000;
pub const O_NOFOLLOW: i32 = 0o400000;
pub const O_NOATIME: i32 = 0o1000000;
pub const O_CLOEXEC: i32 = 0o2000000;
pub const O_SYNC: i32 = 0x101000;
pub const O_PATH: i32 = 0o10000000;
pub const O_TMPFILE: i32 = 0o20200000;
/// Every `open` flag the kernel knows, the access mode aside.
pub const OPEN_FLAGS_ALL: i32 = 0o37757700;

/// File type bits of a mode.
pub const S_IFMT: u32 = 0o170000;
pub const S_IFDIR: u32 = 0o040000;
pub const S_IFREG: u32 = 0o100000;
pub const S_IFIFO: u32 = 0o010000;
pub const S_IFCHR: u32 = 0o020000;
pub const S_IFBLK: u32 = 0o060000;
pub const S_IFSOCK: u32 = 0o140000;
pub const S_ISUID: u32 = 0o4000;
pub const S_ISGID: u32 = 0o2000;
pub const S_IXGRP: u32 = 0o010;

/// Mount flags (`MS_*`), as `mount` takes them.
pub const MS_RDONLY: u64 = 1;
pub const MS_NOSUID: u64 = 2;
pub const MS_NODEV: u64 = 4;
pub const MS_NOEXEC: u64 = 8;
pub const MS_SYNCHRONOUS: u64 = 16;
pub const MS_MANDLOCK: u64 = 64;
pub const MS_DIRSYNC: u64 = 128;
pub const MS_NOATIME: u64 = 1024;
pub const MS_NODIRATIME: u64 = 2048;
pub const MS_SILENT: u64 = 32768;
pub const MS_RELATIME: u64 = 1 << 21;
pub const MS_STRICTATIME: u64 = 1 << 24;
pub const MS_LAZYTIME: u64 = 1 << 25;
/// `MS_NOSYMFOLLOW` as the mount table keeps it.
pub const MS_NOSYMFOLLOW: u64 = 1 << 26;
/// Every flag the mount table keeps.
pub const MOUNT_FLAGS_ALL: u64 = 0x0720_8cdf;

} // verus!
