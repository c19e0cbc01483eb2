use vstd::prelude::*;
use crate::error::SyscallError;
use crate::open_path::{FILE_APPEND, FILE_NONBLOCK, FILE_RDWR, FILE_WRONLY};
use crate::xattr::FS_IMMUTABLE_FL;

verus! {

/// What kind of file-like object a descriptor names.
#[derive(Clone, Copy, Debug, PartialEq, Eq, Structural)]
pub enum FileLikeType {
    File,
    Directory,
    Symlink,
}

/// `read` refuses a file opened write-only. `flags` is what asking the object for its status
/// flags gave (asked only of file-like objects).
pub fn ensure_object_readable(is_file_like: bool, flags: Result<u32, SyscallError>) -> (r: Result<
    (),
    SyscallError,
>)
    ensures
        r == if !is_file_like {
            Ok::<(), SyscallError>(())
        } else {
            match flags {
                Err(e) => Err(e),
                Ok(f) => if f & FILE_WRONLY == FILE_WRONLY {
                    Err(SyscallError::BadFileDescriptor)
                } else {
                    Ok(())
                },
            }
        },
{
    if !is_file_like {
        return Ok(());
    }
    let f = flags?;
    if f & FILE_WRONLY == FILE_WRONLY {
        Err(SyscallError::BadFileDescriptor)
    } else {
        Ok(())
    }
}

/// `write` needs a file opened for writing (objects that are not files always take writes).
pub fn ensure_object_writable(is_file_like: bool, flags: Result<u32, SyscallError>) -> (r: Result<
    (),
    SyscallError,
>)
    ensures
        r == if !is_file_like {
            Ok::<(), SyscallError>(())
        } else {
            match flags {
                Err(e) => Err(e),
                Ok(f) => if f & FILE_WRONLY == FILE_WRONLY || f & FILE_RDWR == FILE_RDWR {
                    Ok(())
                } else {
                    Err(SyscallError::BadFileDescriptor)
                },
            }
        },
{
    if !is_file_like {
        return Ok(());
    }
    let f = flags?;
    if f & FILE_WRONLY == FILE_WRONLY || f & FILE_RDWR == FILE_RDWR {
        Ok(())
    } else {
        Err(SyscallError::BadFileDescriptor)
    }
}

/// Whether `[a, a + len)` and `[b, b + len)` meet, counting a range that does not fit in
/// `i64` as meeting everything.
pub open spec fn ranges_overlap_spec(start_a: i64, start_b: i64, len: usize) -> bool {
    if len == 0 {
        false
    } else if len > i64::MAX || start_a + len > i64::MAX || start_b + len > i64::MAX {
        true
    } else {
        start_a < start_b + len && start_b < start_a + len
    }
}

/// Whether two equally long ranges of one file meet.
pub fn ranges_overlap(start_a: i64, start_b: i64, len: usize) -> (r: bool)
    ensures
        r == ranges_overlap_spec(start_a, start_b, len),
{
    if len == 0 {
        return false;
    }
    if len as u64 > i64::MAX as u64 {
        return true;
    }
    let len = len as i64;
    let end_a = match start_a.checked_add(len) {
        Some(e) => e,
        None => return true,
    };
    let end_b = match start_b.checked_add(len) {
        Some(e) => e,
        None => return true,
    };
    start_a < end_b && start_b < end_a
}

/// The kind and inode of a file, as asking the file for its information gave them.
#[derive(Clone, Copy, Debug, PartialEq, Eq, Structural)]
pub struct FileIdentity {
    pub kind: FileLikeType,
    pub inode: u64,
}

/// What `copy_file_range` learns of its destination, in the order it asks.
#[derive(Clone, Copy, Debug)]
pub struct CopyDestination {
    pub is_file_like: bool,
    pub info: Result<FileIdentity, SyscallError>,
    pub device_backed: bool,
    /// The status flags.
    pub flags: Result<u32, SyscallError>,
    /// The inode attribute flags (`FS_*_FL`).
    pub attributes: Result<u32, SyscallError>,
    pub mount_id: u64,
    /// The offset the copy writes at: the one the caller passed, or the file's own.
    pub offset: Result<i64, SyscallError>,
}

/// What `copy_file_range` learns of its source, in the order it asks.
#[derive(Clone, Copy, Debug)]
pub struct CopySource {
    pub is_file_like: bool,
    pub info: Result<FileIdentity, SyscallError>,
    pub device_backed: bool,
    pub flags: Result<u32, SyscallError>,
    pub mount_id: u64,
    pub offset: Result<i64, SyscallError>,
}

/// The checks of `copy_file_range` before it copies.
pub open spec fn copy_file_range_check(input: CopySource, output: CopyDestination, len: usize) -> Result<
    (),
    SyscallError,
> {
    if !output.is_file_like {
        Err(SyscallError::InvalidArguments)
    } else if output.info is Err {
        Err(output.info->Err_0)
    } else if output.info->Ok_0.kind == FileLikeType::Directory {
        Err(SyscallError::IsADirectory)
    } else if output.info->Ok_0.kind == FileLikeType::Symlink {
        Err(SyscallError::InvalidArguments)
    } else if output.device_backed {
        Err(SyscallError::InvalidArguments)
    } else if output.flags is Err {
        Err(output.flags->Err_0)
    } else if !(output.flags->Ok_0 & FILE_WRONLY == FILE_WRONLY || output.flags->Ok_0 & FILE_RDWR
        == FILE_RDWR) {
        Err(SyscallError::BadFileDescriptor)
    } else if output.flags->Ok_0 & FILE_APPEND == FILE_APPEND {
        Err(SyscallError::BadFileDescriptor)
    } else if output.attributes is Err {
        Err(output.attributes->Err_0)
    } else if output.attributes->Ok_0 & FS_IMMUTABLE_FL == FS_IMMUTABLE_FL {
        Err(SyscallError::PermissionDenied)
    } else if !input.is_file_like {
        Err(SyscallError::InvalidArguments)
    } else if input.info is Err {
        Err(input.info->Err_0)
    } else if input.info->Ok_0.kind != FileLikeType::File || input.device_backed {
        Err(SyscallError::InvalidArguments)
    } else if input.flags is Err {
        Err(input.flags->Err_0)
    } else if input.flags->Ok_0 & FILE_WRONLY == FILE_WRONLY {
        Err(SyscallError::BadFileDescriptor)
    } else if output.offset is Err {
        Err(output.offset->Err_0)
    } else if output.offset->Ok_0 < 0 {
        Err(SyscallError::InvalidArguments)
    } else if len > i64::MAX {
        Err(SyscallError::ValueTooLarge)
    } else if output.offset->Ok_0 + len > i64::MAX {
        Err(SyscallError::FileTooLarge)
    } else if input.mount_id == output.mount_id && input.info->Ok_0.inode == output.info->Ok_0.inode {
        if input.offset is Err {
            Err(input.offset->Err_0)
        } else if input.offset->Ok_0 < 0 {
            Err(SyscallError::InvalidArguments)
        } else if ranges_overlap_spec(input.offset->Ok_0, output.offset->Ok_0, len) {
            Err(SyscallError::InvalidArguments)
        } else {
            Ok(())
        }
    } else {
        Ok(())
    }
}

/// The checks of `copy_file_range`: a writable regular destination that is not appended to
/// or immutable, a readable regular source, a destination range that fits in a file, and,
/// within one file, source and destination ranges that do not meet.
pub fn validate_copy_file_range(input: CopySource, output: CopyDestination, len: usize) -> (r: Result<
    (),
    SyscallError,
>)
    ensures
        r == copy_file_range_check(input, output, len),
{
    if !output.is_file_like {
        return Err(SyscallError::InvalidArguments);
    }
    let output_info = output.info?;
    match output_info.kind {
        FileLikeType::Directory => return Err(SyscallError::IsADirectory),
        FileLikeType::Symlink => return Err(SyscallError::InvalidArguments),
        FileLikeType::File => {},
    }
    if output.device_backed {
        return Err(SyscallError::InvalidArguments);
    }
    ensure_object_writable(true, output.flags)?;
    let output_flags = output.flags?;
    if output_flags & FILE_APPEND == FILE_APPEND {
        return Err(SyscallError::BadFileDescriptor);
    }
    let attributes = output.attributes?;
    if attributes & FS_IMMUTABLE_FL == FS_IMMUTABLE_FL {
        return Err(SyscallError::PermissionDenied);
    }
    if !input.is_file_like {
        return Err(SyscallError::InvalidArguments);
    }
    let input_info = input.info?;
    if !matches!(input_info.kind, FileLikeType::File) || input.device_backed {
        return Err(SyscallError::InvalidArguments);
    }
    ensure_object_readable(true, input.flags)?;
    let output_start = output.offset?;
    if output_start < 0 {
        return Err(SyscallError::InvalidArguments);
    }
    if len as u64 > i64::MAX as u64 {
        return Err(SyscallError::ValueTooLarge);
    }
    match output_start.checked_add(len as i64) {
        None => return Err(SyscallError::FileTooLarge),
        Some(end) => {
            if end < 0 {
                return Err(SyscallError::FileTooLarge);
            }
        },
    }
    if input.mount_id == output.mount_id && input_info.inode == output_info.inode {
        let input_start = input.offset?;
        if input_start < 0 {
            return Err(SyscallError::InvalidArguments);
        }
        if ranges_overlap(input_start, output_start, len) {
            return Err(SyscallError::InvalidArguments);
        }
    }
    Ok(())
}

/// Where a positioned read or write happens.
#[derive(Clone, Copy, Debug, PartialEq, Eq, Structural)]
pub enum PositionedIoOffset {
    Explicit(u64),
    /// `-1`: at the file's own offset.
    Current,
}

/// The offset of `preadv2`/`pwritev2`: `-1` means the current one, other negatives are
/// invalid.
pub fn positioned_io_offset(offset: i64) -> (r: Result<PositionedIoOffset, SyscallError>)
    ensures
        r == if offset == -1 {
            Ok::<PositionedIoOffset, SyscallError>(PositionedIoOffset::Current)
        } else if offset < 0 {
            Err(SyscallError::InvalidArguments)
        } else {
            Ok(PositionedIoOffset::Explicit(offset as u64))
        },
{
    if offset == -1 {
        return Ok(PositionedIoOffset::Current);
    }
    if offset < 0 {
        return Err(SyscallError::InvalidArguments);
    }
    Ok(PositionedIoOffset::Explicit(offset as u64))
}

/// Flags of `preadv2`/`pwritev2`.
pub const RWF_HIPRI: i32 = 0x01;
pub const RWF_DSYNC: i32 = 0x02;
pub const RWF_SYNC: i32 = 0x04;
pub const RWF_NOWAIT: i32 = 0x08;
pub const RWF_APPEND: i32 = 0x10;
pub const RWF_ALL: i32 = 0x1f;

/// Unknown flags and `RWF_HIPRI` are not supported.
pub fn check_positioned_io_flags(flags: i32) -> (r: Result<(), SyscallError>)
    ensures
        r == if flags & !RWF_ALL != 0 || flags & RWF_HIPRI == RWF_HIPRI {
            Err::<(), SyscallError>(SyscallError::OperationNotSupported)
        } else {
            Ok(())
        },
{
    if flags & !RWF_ALL != 0 {
        return Err(SyscallError::OperationNotSupported);
    }
    if flags & RWF_HIPRI == RWF_HIPRI {
        return Err(SyscallError::OperationNotSupported);
    }
    Ok(())
}

/// The flags in the low 32 bits of a raw argument, checked.
pub fn positioned_io_flags_from_raw(raw: u64) -> (r: Result<i32, SyscallError>)
    ensures
        r == if (raw as i32) & !RWF_ALL != 0 || (raw as i32) & RWF_HIPRI == RWF_HIPRI {
            Err::<i32, SyscallError>(SyscallError::OperationNotSupported)
        } else {
            Ok(raw as i32)
        },
{
    let flags = raw as i32;
    check_positioned_io_flags(flags)?;
    Ok(flags)
}

/// The flags of `preadv2`: the fifth argument where it holds nothing but known flags, else
/// the sixth (the split offset puts them there on some ABIs).
pub fn decode_preadv2_args(raw_arg5: u64, raw_arg6: u64) -> (r: Result<i32, SyscallError>)
    ensures
        ({
            let a5 = raw_arg5 as i32;
            let chosen = if a5 != 0 && a5 & !RWF_ALL == 0 {
                raw_arg5
            } else {
                raw_arg6
            };
            r == if (chosen as i32) & !RWF_ALL != 0 || (chosen as i32) & RWF_HIPRI == RWF_HIPRI {
                Err::<i32, SyscallError>(SyscallError::OperationNotSupported)
            } else {
                Ok(chosen as i32)
            }
        }),
{
    let a5 = raw_arg5 as i32;
    if a5 != 0 && a5 & !RWF_ALL == 0 {
        return positioned_io_flags_from_raw(raw_arg5);
    }
    positioned_io_flags_from_raw(raw_arg6)
}

/// The generic `ioctl` requests that the system call layer handles itself.
pub const FIONBIO: u64 = 0x5421;
pub const FIOCLEX: u64 = 0x5451;

/// Who answers an `ioctl` request.
#[derive(Clone, Copy, Debug, PartialEq, Eq, Structural)]
pub enum IoctlRoute {
    /// Read an `int` from the argument and switch non-blocking mode by it.
    SetNonblocking,
    /// Set close-on-exec on the descriptor.
    SetCloseOnExec,
    /// Hand the request to the object.
    Configure,
}

pub fn ioctl_route(request: u64) -> (r: IoctlRoute)
    ensures
        r == if request == FIONBIO {
            IoctlRoute::SetNonblocking
        } else if request == FIOCLEX {
            IoctlRoute::SetCloseOnExec
        } else {
            IoctlRoute::Configure
        },
{
    if request == FIONBIO {
        IoctlRoute::SetNonblocking
    } else if request == FIOCLEX {
        IoctlRoute::SetCloseOnExec
    } else {
        IoctlRoute::Configure
    }
}

/// The status flags after `FIONBIO` with the value `nonblocking`: non-blocking on where it is
/// not zero, off where it is; the other flags stay.
pub fn fionbio_flags(flags: u32, nonblocking: i32) -> (r: u32)
    ensures
        r == if nonblocking != 0 {
            flags | FILE_NONBLOCK
        } else {
            flags & !FILE_NONBLOCK
        },
        r & !FILE_NONBLOCK == flags & !FILE_NONBLOCK,
        (r & FILE_NONBLOCK != 0) == (nonblocking != 0),
{
    let r = if nonblocking != 0 {
        flags | FILE_NONBLOCK
    } else {
        flags & !FILE_NONBLOCK
    };
    assert((flags | 0o4000u32) & !0o4000u32 == flags & !0o4000u32 && (flags & !0o4000u32) & !0o4000u32
        == flags & !0o4000u32 && (flags | 0o4000u32) & 0o4000u32 != 0 && (flags & !0o4000u32)
        & 0o4000u32 == 0) by (bit_vector);
    r
}

} // verus!
