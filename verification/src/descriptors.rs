use vstd::prelude::*;
use crate::error::SyscallError;
use crate::flags::{O_CLOEXEC, S_IFMT, S_IFREG};
use crate::open_path::{FILE_RDWR, FILE_WRONLY};
use crate::text::{decimal, push_all, push_decimal};

verus! {

/// A slot of a descriptor table that holds an open object.
#[derive(Clone, Copy, Debug, PartialEq, Eq, Structural)]
pub struct FdEntry {
    /// The object the descriptor refers to.
    pub object: u64,
    /// Whether the descriptor is closed on `execve`.
    pub cloexec: bool,
}

/// The flags of `close_range`.
pub const CLOSE_RANGE_UNSHARE: u32 = 0x2;
pub const CLOSE_RANGE_CLOEXEC: u32 = 0x4;

/// What `close_range` does once its arguments were accepted.
#[derive(Clone, Copy, Debug, PartialEq, Eq, Structural)]
pub struct CloseRangeMode {
    /// Give the process a descriptor table of its own first.
    pub unshare: bool,
    /// Mark the descriptors close-on-exec instead of closing them.
    pub cloexec: bool,
}

pub fn close_range_check(first: usize, last: usize, flags: u32) -> (r: Result<
    CloseRangeMode,
    SyscallError,
>)
    ensures
        r == if first > last || flags & !(CLOSE_RANGE_UNSHARE | CLOSE_RANGE_CLOEXEC) != 0 {
            Err::<CloseRangeMode, SyscallError>(SyscallError::InvalidArguments)
        } else {
            Ok(
                CloseRangeMode {
                    unshare: flags & CLOSE_RANGE_UNSHARE != 0,
                    cloexec: flags & CLOSE_RANGE_CLOEXEC != 0,
                },
            )
        },
{
    if first > last || flags & !(CLOSE_RANGE_UNSHARE | CLOSE_RANGE_CLOEXEC) != 0 {
        return Err(SyscallError::InvalidArguments);
    }
    Ok(
        CloseRangeMode {
            unshare: flags & CLOSE_RANGE_UNSHARE != 0,
            cloexec: flags & CLOSE_RANGE_CLOEXEC != 0,
        },
    )
}

/// A slot in the range after `close_range`: emptied, or marked close-on-exec.
pub open spec fn slot_after_close(slot: Option<FdEntry>, cloexec: bool) -> Option<FdEntry> {
    if cloexec {
        match slot {
            Some(e) => Some(FdEntry { object: e.object, cloexec: true }),
            None => None,
        }
    } else {
        None
    }
}

/// The entries of the occupied slots, in order.
pub open spec fn present_entries(slots: Seq<Option<FdEntry>>) -> Seq<FdEntry>
    decreases slots.len(),
{
    if slots.len() == 0 {
        Seq::empty()
    } else {
        let rest = present_entries(slots.drop_last());
        match slots.last() {
            Some(e) => rest.push(e),
            None => rest,
        }
    }
}

/// Applies `close_range(first, last)` to a descriptor table: every slot from `first` to `last`
/// is emptied (or, with `cloexec`, marked close-on-exec); the entries it closed come back in
/// order, for their locks to be released.
pub fn close_range_apply(table: &mut Vec<Option<FdEntry>>, first: usize, last: usize, cloexec: bool) -> (closed:
    Vec<FdEntry>)
    requires
        first <= last,
    ensures
        final(table)@.len() == old(table)@.len(),
        forall|i: int|
            0 <= i < old(table)@.len() ==> #[trigger] final(table)@[i] == if first <= i <= last {
                slot_after_close(old(table)@[i], cloexec)
            } else {
                old(table)@[i]
            },
        closed@ == if cloexec || first >= old(table)@.len() {
            Seq::<FdEntry>::empty()
        } else {
            present_entries(
                old(table)@.subrange(
                    first as int,
                    if last < old(table)@.len() {
                        last + 1
                    } else {
                        old(table)@.len() as int
                    },
                ),
            )
        },
{
    let mut closed: Vec<FdEntry> = Vec::new();
    let len = table.len();
    if first >= len {
        return closed;
    }
    let end = if last < len {
        last
    } else {
        len - 1
    };
    let ghost original = table@;
    let mut fd = first;
    while fd <= end
        invariant
            first <= fd <= end + 1,
            end < len,
            len == original.len(),
            end == if last < len {
                last
            } else {
                (len - 1) as usize
            },
            table@.len() == original.len(),
            forall|i: int|
                0 <= i < original.len() ==> #[trigger] table@[i] == if first <= i < fd {
                    slot_after_close(original[i], cloexec)
                } else {
                    original[i]
                },
            closed@ == if cloexec {
                Seq::<FdEntry>::empty()
            } else {
                present_entries(original.subrange(first as int, fd as int))
            },
        decreases end + 1 - fd,
    {
        assert(original.subrange(first as int, fd + 1).drop_last() =~= original.subrange(
            first as int,
            fd as int,
        ));
        match table[fd] {
            Some(e) => {
                if cloexec {
                    table.set(fd, Some(FdEntry { object: e.object, cloexec: true }));
                } else {
                    closed.push(e);
                    table.set(fd, None);
                }
            },
            None => {},
        }
        fd += 1;
    }
    closed
}

/// What `dup2` and `dup3` do with the destination slot.
#[derive(Clone, Copy, Debug, PartialEq, Eq, Structural)]
pub enum DupPlan {
    /// `dup2` onto itself: nothing changes, the answer is the descriptor.
    Keep,
    /// Put the source's object in the destination slot, closing what was there.
    Replace,
    /// The same, with these descriptor flags (`dup3`).
    ReplaceWithFlags { cloexec: bool },
}

/// `dup2(source_fd, dest)`. `source` is what looking the source up gave; `dest_within_limit`
/// whether `dest` is below the process's descriptor limit.
pub fn dup2_plan(
    source_fd: usize,
    dest: usize,
    source: Result<(), SyscallError>,
    dest_within_limit: bool,
) -> (r: Result<DupPlan, SyscallError>)
    ensures
        r == match source {
            Err(e) => Err::<DupPlan, SyscallError>(e),
            Ok(()) => if !dest_within_limit {
                Err(SyscallError::BadFileDescriptor)
            } else if source_fd == dest {
                Ok(DupPlan::Keep)
            } else {
                Ok(DupPlan::Replace)
            },
        },
{
    if let Err(e) = source {
        return Err(e);
    }
    if !dest_within_limit {
        return Err(SyscallError::BadFileDescriptor);
    }
    if source_fd == dest {
        return Ok(DupPlan::Keep);
    }
    Ok(DupPlan::Replace)
}

/// `dup3(source_fd, dest, flags)`: the two descriptors must differ.
pub fn dup3_plan(
    source_fd: usize,
    dest: usize,
    flags: i32,
    source: Result<(), SyscallError>,
    dest_within_limit: bool,
) -> (r: Result<DupPlan, SyscallError>)
    ensures
        r == if source_fd == dest {
            Err::<DupPlan, SyscallError>(SyscallError::InvalidArguments)
        } else if !dest_within_limit {
            Err(SyscallError::BadFileDescriptor)
        } else {
            match source {
                Err(e) => Err(e),
                Ok(()) => Ok(DupPlan::ReplaceWithFlags { cloexec: flags & O_CLOEXEC != 0 }),
            }
        },
{
    if source_fd == dest {
        return Err(SyscallError::InvalidArguments);
    }
    if !dest_within_limit {
        return Err(SyscallError::BadFileDescriptor);
    }
    if let Err(e) = source {
        return Err(e);
    }
    Ok(DupPlan::ReplaceWithFlags { cloexec: flags & O_CLOEXEC != 0 })
}

/// `ftruncate(fd, length)`: a non-negative length, a regular file, opened for writing.
/// `st_mode` and `status_flags` are what asking the object for them gave.
pub fn ftruncate_check(
    length: i64,
    st_mode: Result<u32, SyscallError>,
    status_flags: Result<u32, SyscallError>,
    is_file_like: bool,
) -> (r: Result<u64, SyscallError>)
    ensures
        r == if length < 0 {
            Err::<u64, SyscallError>(SyscallError::InvalidArguments)
        } else {
            match st_mode {
                Err(e) => Err(e),
                Ok(m) => if m & S_IFMT != S_IFREG {
                    Err(SyscallError::InvalidArguments)
                } else {
                    match status_flags {
                        Err(e) => Err(e),
                        Ok(f) => if f & (FILE_WRONLY | FILE_RDWR) == 0 || !is_file_like {
                            Err(SyscallError::InvalidArguments)
                        } else {
                            Ok(length as u64)
                        },
                    }
                },
            }
        },
{
    if length < 0 {
        return Err(SyscallError::InvalidArguments);
    }
    let mode = st_mode?;
    if mode & S_IFMT != S_IFREG {
        return Err(SyscallError::InvalidArguments);
    }
    let flags = status_flags?;
    if flags & (FILE_WRONLY | FILE_RDWR) == 0 || !is_file_like {
        return Err(SyscallError::InvalidArguments);
    }
    Ok(length as u64)
}

/// The `fallocate` modes this kernel carries out: a plain allocation, and punching a hole
/// that keeps the size.
pub const FALLOC_FL_KEEP_SIZE: i32 = 0x01;
pub const FALLOC_FL_PUNCH_HOLE: i32 = 0x02;

/// `fallocate(fd, mode, offset, len)`: the arguments the file is asked with.
pub fn fallocate_check(mode: i32, offset: i64, len: i64) -> (r: Result<(u32, u64, u64), SyscallError>)
    ensures
        r == if offset < 0 || len < 0 {
            Err::<(u32, u64, u64), SyscallError>(SyscallError::InvalidArguments)
        } else if mode != 0 && mode != (FALLOC_FL_KEEP_SIZE | FALLOC_FL_PUNCH_HOLE) {
            Err(SyscallError::OperationNotSupported)
        } else {
            Ok((mode as u32, offset as u64, len as u64))
        },
{
    if offset < 0 || len < 0 {
        return Err(SyscallError::InvalidArguments);
    }
    if mode != 0 && mode != (FALLOC_FL_KEEP_SIZE | FALLOC_FL_PUNCH_HOLE) {
        return Err(SyscallError::OperationNotSupported);
    }
    Ok((mode as u32, offset as u64, len as u64))
}

/// `posix_fadvise`: a known advice (0 to 5) on something that has an offset.
pub fn fadvise_check(advice: i32, seekable: bool, file_like: bool) -> (r: Result<(), SyscallError>)
    ensures
        r == if !(0 <= advice <= 5) {
            Err::<(), SyscallError>(SyscallError::InvalidArguments)
        } else if !seekable && !file_like {
            Err(SyscallError::IllegalSeek)
        } else {
            Ok(())
        },
{
    if !(0 <= advice && advice <= 5) {
        return Err(SyscallError::InvalidArguments);
    }
    if !seekable && !file_like {
        return Err(SyscallError::IllegalSeek);
    }
    Ok(())
}

/// `lseek` from the start of the file refuses a negative offset.
pub const SEEK_SET: i32 = 0;

pub fn lseek_check(whence: i32, offset: i64) -> (r: Result<(), SyscallError>)
    ensures
        r == if whence == SEEK_SET && offset < 0 {
            Err::<(), SyscallError>(SyscallError::InvalidArguments)
        } else {
            Ok(())
        },
{
    if whence == SEEK_SET && offset < 0 {
        return Err(SyscallError::InvalidArguments);
    }
    Ok(())
}

/// The flags of `memfd_create`.
pub const MFD_CLOEXEC: u32 = 0x0001;
pub const MFD_ALLOW_SEALING: u32 = 0x0002;
pub const MFD_HUGETLB: u32 = 0x0004;
pub const MFD_NOEXEC_SEAL: u32 = 0x0008;
pub const MFD_EXEC: u32 = 0x0010;
/// The huge page size bits, meaningful only with `MFD_HUGETLB`.
pub const MFD_HUGE_MASK: u32 = 0xfc00_0000;

/// `memfd_create` flags: whether the file can be sealed, and whether its descriptor is
/// closed on exec. Huge pages are not supported.
pub fn memfd_flags_check(flags: u32) -> (r: Result<(bool, bool), SyscallError>)
    ensures
        r == if flags & MFD_NOEXEC_SEAL != 0 && flags & MFD_EXEC != 0 {
            Err::<(bool, bool), SyscallError>(SyscallError::InvalidArguments)
        } else if flags & MFD_HUGE_MASK != 0 && flags & MFD_HUGETLB == 0 {
            Err(SyscallError::InvalidArguments)
        } else if flags & MFD_HUGETLB != 0 {
            Err(SyscallError::NoDevice)
        } else {
            Ok(
                (
                    flags & (MFD_ALLOW_SEALING | MFD_NOEXEC_SEAL) != 0,
                    flags & MFD_CLOEXEC != 0,
                ),
            )
        },
{
    if flags & MFD_NOEXEC_SEAL != 0 && flags & MFD_EXEC != 0 {
        return Err(SyscallError::InvalidArguments);
    }
    if flags & MFD_HUGE_MASK != 0 && flags & MFD_HUGETLB == 0 {
        return Err(SyscallError::InvalidArguments);
    }
    if flags & MFD_HUGETLB != 0 {
        return Err(SyscallError::NoDevice);
    }
    Ok((flags & (MFD_ALLOW_SEALING | MFD_NOEXEC_SEAL) != 0, flags & MFD_CLOEXEC != 0))
}

/// `/memfd/`
pub open spec fn memfd_dir() -> Seq<u8> {
    seq![0x2fu8, 0x6du8, 0x65u8, 0x6du8, 0x66u8, 0x64u8, 0x2fu8]
}

/// The path of memfd number `id` of process `pid`, with the (sanitized) name `name`:
/// `/memfd/<pid>-<id>-<name>`.
pub open spec fn memfd_path_spec(pid: u64, id: u64, name: Seq<u8>) -> Seq<u8> {
    memfd_dir() + decimal(pid as nat) + seq![0x2du8] + decimal(id as nat) + seq![0x2du8] + name
}

pub fn memfd_path(pid: u64, id: u64, name: &[u8]) -> (r: Vec<u8>)
    ensures
        r@ == memfd_path_spec(pid, id, name@),
{
    let dir: [u8; 7] = [0x2f, 0x6d, 0x65, 0x6d, 0x66, 0x64, 0x2f];
    assert(dir@ =~= memfd_dir());
    let mut out: Vec<u8> = Vec::new();
    push_all(&mut out, &dir);
    push_decimal(&mut out, pid);
    out.push(0x2d);
    push_decimal(&mut out, id);
    out.push(0x2d);
    push_all(&mut out, name);
    assert(out@ =~= memfd_path_spec(pid, id, name@));
    out
}

} // verus!
