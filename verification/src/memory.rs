use vstd::prelude::*;
use crate::error::SyscallError;
use x86_64::structures::paging::PageSize;

verus! {

/// The size of a page.
pub const PAGE_SIZE: u64 = 4096;

/// The size of a standard page, `Size4KiB::SIZE` of the `x86_64` crate's `PageSize` trait,
/// which that crate defines as 4096.
#[verifier::external_body]
fn standard_page_size() -> (r: u64)
    ensures
        r == PAGE_SIZE,
{
    x86_64::structures::paging::Size4KiB::SIZE
}

/// Protection bits of a mapping (`PROT_*`).
pub const PROT_READ: i32 = 0x1;
pub const PROT_WRITE: i32 = 0x2;
pub const PROT_EXEC: i32 = 0x4;

/// `mmap` flags.
pub const MAP_SHARED: i32 = 0x01;
pub const MAP_PRIVATE: i32 = 0x02;
pub const MAP_SHARED_VALIDATE: i32 = 0x03;
pub const MAP_FIXED: i32 = 0x10;
pub const MAP_ANONYMOUS: i32 = 0x20;
pub const MAP_FIXED_NOREPLACE: i32 = 0x100000;

/// `mremap` flags.
pub const MREMAP_MAYMOVE: u64 = 0x1;

/// `msync` flags.
pub const MS_ASYNC: i32 = 0x1;
pub const MS_INVALIDATE: i32 = 0x2;
pub const MS_SYNC: i32 = 0x4;

/// `get_mempolicy` flags.
pub const MPOL_F_NODE: u64 = 0x1;
pub const MPOL_F_ADDR: u64 = 0x2;
pub const MPOL_F_MEMS_ALLOWED: u64 = 0x4;

/// Rounds down to a multiple of `align` (a power of two).
pub fn align_down(value: u64, align: u64) -> (r: u64)
    requires
        align > 0,
    ensures
        r == value & !((align - 1) as u64),
{
    value & !(align - 1)
}

/// Rounds up to a multiple of `align` (a power of two); when that overflows, the last
/// aligned value is returned.
pub fn align_up(value: u64, align: u64) -> (r: u64)
    requires
        align > 0,
    ensures
        r == if value + (align - 1) <= u64::MAX {
            ((value + (align - 1)) as u64) & !((align - 1) as u64)
        } else {
            !((align - 1) as u64)
        },
{
    let addend = align - 1;
    match value.checked_add(addend) {
        Some(v) => align_down(v, align),
        None => !(align - 1),
    }
}

/// On pages, rounding is what one expects: down to the page start at or below the value,
/// up to the page start at or above it.
pub proof fn lemma_page_alignment(value: u64)
    ensures
        value & !4095u64 == value - value % 4096,
        value <= u64::MAX - 4095 ==> ((value + 4095) as u64) & !4095u64 >= value,
        value <= u64::MAX - 4095 ==> (((value + 4095) as u64) & !4095u64) % 4096 == 0,
        value <= u64::MAX - 4095 ==> ((value + 4095) as u64) & !4095u64 < value + 4096,
{
    assert(value & !4095u64 == value - value % 4096) by (bit_vector);
    assert(value <= 0xffff_ffff_ffff_f000u64 ==> ((value + 4095) as u64) & !4095u64 >= value
        && (((value + 4095) as u64) & !4095u64) % 4096 == 0 && ((value + 4095) as u64) & !4095u64
        < value + 4096) by (bit_vector);
}

/// Whether the mapping is shared: `MAP_SHARED` and `MAP_SHARED_VALIDATE` share, `MAP_PRIVATE`
/// does not, and one of the three is required.
pub fn mmap_shared(flags: i32) -> (r: Result<bool, SyscallError>)
    ensures
        r == if flags & 3 == 1 {
            Ok::<bool, SyscallError>(true)
        } else if flags & 3 == 2 {
            Ok(false)
        } else if flags & 3 == 3 {
            Ok(true)
        } else {
            Err(SyscallError::InvalidArguments)
        },
{
    let bits = flags & MAP_SHARED_VALIDATE;
    if bits == MAP_SHARED {
        Ok(true)
    } else if bits == MAP_PRIVATE {
        Ok(false)
    } else if bits == MAP_SHARED_VALIDATE {
        Ok(true)
    } else {
        Err(SyscallError::InvalidArguments)
    }
}

/// The protection a mapping gets: read, write and execute as asked; other bits are ignored.
pub fn prot_to_protection(prot: i32) -> (r: Result<i32, SyscallError>)
    ensures
        r == Ok::<i32, SyscallError>(prot & 7),
{
    let read = prot & PROT_READ != 0;
    let write = prot & PROT_WRITE != 0;
    let exec = prot & PROT_EXEC != 0;
    let protection = (if read { PROT_READ } else { 0 }) | (if write { PROT_WRITE } else { 0 }) | (if exec {
        PROT_EXEC
    } else {
        0
    });
    assert(protection == prot & 7) by (bit_vector)
        requires
            read == (prot & 1i32 != 0),
            write == (prot & 2i32 != 0),
            exec == (prot & 4i32 != 0),
            protection == (if read { 1i32 } else { 0i32 }) | (if write { 2i32 } else { 0i32 }) | (if exec {
                4i32
            } else {
                0i32
            }),
    ;
    Ok(protection)
}

/// A mapped region of an address space, `[start, end)`.
#[derive(Clone, Copy, Debug, PartialEq, Eq, Structural)]
pub struct MemoryRange {
    pub start: u64,
    pub end: u64,
}

pub open spec fn overlaps(area: MemoryRange, start: u64, end: u64) -> bool {
    area.start < end && area.end > start
}

/// Whether any area meets `[start, end)`.
pub fn mapping_overlaps(areas: &Vec<MemoryRange>, start: u64, end: u64) -> (r: bool)
    ensures
        r == exists|i: int| 0 <= i < areas@.len() && overlaps(#[trigger] areas@[i], start, end),
{
    let mut i: usize = 0;
    while i < areas.len()
        invariant
            i <= areas.len(),
            forall|j: int| 0 <= j < i ==> !overlaps(#[trigger] areas@[j], start, end),
        decreases areas.len() - i,
    {
        if areas[i].start < end && areas[i].end > start {
            assert(overlaps(areas@[i as int], start, end));
            return true;
        }
        i += 1;
    }
    false
}

pub open spec fn covered(areas: Seq<MemoryRange>, a: u64) -> bool {
    exists|i: int| 0 <= i < areas.len() && (#[trigger] areas[i]).start <= a < areas[i].end
}

/// Whether every address of `[start, end)` lies in some area.
pub fn mapped_area_covers_range(areas: &Vec<MemoryRange>, start: u64, end: u64) -> (r: bool)
    ensures
        r == forall|a: u64| start <= a < end ==> covered(areas@, a),
{
    let mut cursor = start;
    while cursor < end
        invariant
            start <= cursor || cursor >= end,
            forall|a: u64| start <= a < cursor && a < end ==> covered(areas@, a),
        decreases end - cursor,
    {
        let mut found: Option<u64> = None;
        let mut i: usize = 0;
        while i < areas.len()
            invariant
                i <= areas.len(),
                found is None ==> forall|j: int| 0 <= j < i ==> !(areas@[j].start <= cursor
                    && cursor < areas@[j].end),
                found is Some ==> exists|j: int| 0 <= j < areas@.len() && areas@[j].start <= cursor
                    && cursor < areas@[j].end && areas@[j].end == found->Some_0,
            decreases areas.len() - i,
        {
            if found.is_none() && areas[i].start <= cursor && areas[i].end > cursor {
                found = Some(areas[i].end);
            }
            i += 1;
        }
        match found {
            None => {
                assert(!covered(areas@, cursor));
                return false;
            },
            Some(area_end) => {
                let next = if area_end < end { area_end } else { end };
                assert forall|a: u64| start <= a < next && a < end implies covered(areas@, a) by {
                    if a >= cursor {
                        let j = choose|j: int| 0 <= j < areas@.len() && areas@[j].start <= cursor
                            && cursor < areas@[j].end && areas@[j].end == area_end;
                        assert(areas@[j].start <= a < areas@[j].end);
                    }
                }
                cursor = next;
            },
        }
    }
    true
}

/// A user range for `mlock`, `munlock` and `madvise`-like calls: an empty range is fine as
/// it is; otherwise the end must not overflow and the range must lie in user space
/// (`in_user_space`, as the address space judges `[addr, addr + len)`).
pub fn checked_user_range_for_memory_syscall(
    addr: u64,
    len: u64,
    in_user_space: bool,
) -> (r: Result<(u64, u64), SyscallError>)
    ensures
        r == if len == 0 {
            Ok::<(u64, u64), SyscallError>((addr, addr))
        } else if addr + len > u64::MAX {
            Err(SyscallError::InvalidArguments)
        } else if !in_user_space {
            Err(SyscallError::NoMemory)
        } else {
            Ok((addr, (addr + len) as u64))
        },
{
    if len == 0 {
        return Ok((addr, addr));
    }
    let end = match addr.checked_add(len) {
        Some(end) => end,
        None => return Err(SyscallError::InvalidArguments),
    };
    if !in_user_space {
        return Err(SyscallError::NoMemory);
    }
    Ok((addr, end))
}

/// `msync`: the address must be page aligned; an empty range does nothing; invalidation
/// is not supported; asynchronous and synchronous exclude each other. `Ok(true)` when
/// file mappings are to be flushed.
pub fn msync_check(addr: u64, len: u64, flags: i32) -> (r: Result<bool, SyscallError>)
    ensures
        r == if addr % PAGE_SIZE != 0 {
            Err::<bool, SyscallError>(SyscallError::InvalidArguments)
        } else if len == 0 {
            Ok(false)
        } else if flags & MS_INVALIDATE != 0 {
            Err(SyscallError::OperationNotSupported)
        } else if flags & MS_ASYNC != 0 && flags & MS_SYNC != 0 {
            Err(SyscallError::InvalidArguments)
        } else {
            Ok(true)
        },
{
    if addr % PAGE_SIZE != 0 {
        return Err(SyscallError::InvalidArguments);
    }
    if len == 0 {
        return Ok(false);
    }
    if flags & MS_INVALIDATE != 0 {
        return Err(SyscallError::OperationNotSupported);
    }
    if flags & MS_ASYNC != 0 && flags & MS_SYNC != 0 {
        return Err(SyscallError::InvalidArguments);
    }
    Ok(true)
}

/// The number of pages that `len` bytes take.
pub open spec fn pages_of(len: u64) -> int {
    (len + 4095) / 4096
}

pub fn page_count(len: u64) -> (r: u64)
    ensures
        r == pages_of(len),
{
    len / PAGE_SIZE + if len % PAGE_SIZE != 0 { 1u64 } else { 0u64 }
}

/// `mprotect`: the protection to apply to `[addr, end)`, or `None` for an empty range.
/// The address must be page aligned and the page-rounded end must not overflow.
pub fn mprotect_range(addr: u64, len: u64, prot: i32) -> (r: Result<Option<(u64, u64, i32)>, SyscallError>)
    ensures
        r == if len == 0 {
            Ok::<Option<(u64, u64, i32)>, SyscallError>(None)
        } else if addr % PAGE_SIZE != 0 {
            Err(SyscallError::InvalidArguments)
        } else if addr + pages_of(len) * 4096 > u64::MAX {
            Err(SyscallError::NoMemory)
        } else {
            Ok(Some((addr, (addr + pages_of(len) * 4096) as u64, prot & 7)))
        },
{
    let protection = prot_to_protection(prot)?;
    if len == 0 {
        return Ok(None);
    }
    let page = standard_page_size();
    if addr % page != 0 {
        return Err(SyscallError::InvalidArguments);
    }
    let pages = page_count(len);
    let bytes = match pages.checked_mul(page) {
        Some(b) => b,
        None => return Err(SyscallError::NoMemory),
    };
    let end = match addr.checked_add(bytes) {
        Some(e) => e,
        None => return Err(SyscallError::NoMemory),
    };
    Ok(Some((addr, end, protection)))
}

/// `mlock`: after the range proved mapped, the page-rounded range to fault in, which must
/// fit in the locked-memory limit. `None` for an empty range.
pub fn mlock_range(addr: u64, len: u64, memlock_limit: u64) -> (r: Result<Option<(u64, u64)>, SyscallError>)
    ensures
        r == if len == 0 {
            Ok::<Option<(u64, u64)>, SyscallError>(None)
        } else if addr + len > u64::MAX {
            Err(SyscallError::InvalidArguments)
        } else {
            let start = addr & !4095u64;
            let end = if addr + len + 4095 <= u64::MAX {
                ((addr + len + 4095) as u64) & !4095u64
            } else {
                !4095u64
            };
            if end < start {
                Err(SyscallError::InvalidArguments)
            } else if end - start > memlock_limit {
                Err(SyscallError::NoMemory)
            } else {
                Ok(Some((start, end)))
            }
        },
{
    if len == 0 {
        return Ok(None);
    }
    let start = align_down(addr, PAGE_SIZE);
    let sum = match addr.checked_add(len) {
        Some(s) => s,
        None => return Err(SyscallError::InvalidArguments),
    };
    let end = align_up(sum, PAGE_SIZE);
    let rounded_len = match end.checked_sub(start) {
        Some(l) => l,
        None => return Err(SyscallError::InvalidArguments),
    };
    if rounded_len > memlock_limit {
        return Err(SyscallError::NoMemory);
    }
    Ok(Some((start, end)))
}

/// `mincore`: an empty range does nothing; the vector must be given and the address page
/// aligned. Returns the number of pages to report.
pub fn mincore_check(addr: u64, len: usize, vec_is_null: bool) -> (r: Result<usize, SyscallError>)
    ensures
        r == if len == 0 {
            Ok::<usize, SyscallError>(0)
        } else if vec_is_null {
            Err(SyscallError::BadAddress)
        } else if addr % PAGE_SIZE != 0 {
            Err(SyscallError::InvalidArguments)
        } else {
            Ok(((len + 4095) / 4096) as usize)
        },
{
    if len == 0 {
        return Ok(0);
    }
    if vec_is_null {
        return Err(SyscallError::BadAddress);
    }
    let page = standard_page_size();
    if addr % page != 0 {
        return Err(SyscallError::InvalidArguments);
    }
    let page_len = page as usize;
    Ok(len / page_len + if len % page_len != 0 { 1usize } else { 0usize })
}


/// `[addr, addr + pages pages)` for a fixed mapping: a nonzero page-aligned address, a length
/// that fits in 64 bits, and a range in user space (`in_user_space`, as the address space
/// judges it). Gives the range's start and length in bytes.
pub fn checked_user_mapping(addr: u64, pages: u64, in_user_space: bool) -> (r: Result<(u64, u64), SyscallError>)
    ensures
        r == if addr == 0 || addr % PAGE_SIZE != 0 {
            Err::<(u64, u64), SyscallError>(SyscallError::InvalidArguments)
        } else if pages * PAGE_SIZE > u64::MAX {
            Err(SyscallError::InvalidArguments)
        } else if !in_user_space {
            Err(SyscallError::InvalidArguments)
        } else {
            Ok((addr, (pages * PAGE_SIZE) as u64))
        },
{
    let page = standard_page_size();
    if addr == 0 || addr % page != 0 {
        return Err(SyscallError::InvalidArguments);
    }
    let len = match pages.checked_mul(page) {
        Some(len) => len,
        None => return Err(SyscallError::InvalidArguments),
    };
    if !in_user_space {
        return Err(SyscallError::InvalidArguments);
    }
    Ok((addr, len))
}

/// The file part of a mapping: the descriptor and the offset into the file.
#[derive(Clone, Copy, Debug, PartialEq, Eq, Structural)]
pub struct FileMapping {
    pub fd: u64,
    pub offset: u64,
}

/// Where an `mmap` goes.
#[derive(Clone, Copy, Debug, PartialEq, Eq, Structural)]
pub enum MmapPlan {
    /// Exactly at `start` (`len` bytes): `replace` drops what is mapped there first,
    /// otherwise (`MAP_FIXED_NOREPLACE`) an overlap is `FileAlreadyExists`. `file` is the
    /// descriptor and offset of a file mapping.
    Fixed { start: u64, len: u64, pages: u64, protection: i32, shared: bool, replace: bool, file: Option<FileMapping> },
    /// Anonymous memory wherever the address space has room.
    Anonymous { pages: u64, protection: i32, shared: bool },
    /// The file behind `fd`, from `offset` on, wherever the address space has room.
    FileBacked { fd: u64, offset: u64, pages: u64, protection: i32, shared: bool },
}

/// What `mmap` decides before it touches the address space; `fixed_in_user_space` is the
/// address space's judgement of a fixed mapping's range.
pub open spec fn mmap_plan_spec(
    addr: u64,
    len: u64,
    prot: i32,
    flags: i32,
    fd: i32,
    offset: u64,
    fixed_in_user_space: bool,
) -> Result<MmapPlan, SyscallError> {
    let pages = pages_of(len) as u64;
    let fixed = flags & (MAP_FIXED | MAP_FIXED_NOREPLACE) != 0;
    let sharing = flags & 3;
    let shared = sharing == 1 || sharing == 3;
    let anonymous = flags & MAP_ANONYMOUS != 0;
    if len == 0 {
        Err(SyscallError::InvalidArguments)
    } else if sharing == 0 {
        Err(SyscallError::InvalidArguments)
    } else if fixed {
        if offset % PAGE_SIZE != 0 {
            Err(SyscallError::InvalidArguments)
        } else if addr == 0 || addr % PAGE_SIZE != 0 || pages * PAGE_SIZE > u64::MAX || !fixed_in_user_space {
            Err(SyscallError::InvalidArguments)
        } else if !anonymous && fd < 0 {
            Err(SyscallError::InvalidArguments)
        } else {
            Ok(
                MmapPlan::Fixed {
                    start: addr,
                    len: (pages * PAGE_SIZE) as u64,
                    pages,
                    protection: prot & 7,
                    shared,
                    replace: flags & MAP_FIXED != 0,
                    file: if anonymous {
                        None
                    } else {
                        Some(FileMapping { fd: fd as u64, offset })
                    },
                },
            )
        }
    } else if addr != 0 {
        Err(SyscallError::InvalidArguments)
    } else if anonymous {
        Ok(MmapPlan::Anonymous { pages, protection: prot & 7, shared })
    } else if offset % PAGE_SIZE != 0 || fd < 0 {
        Err(SyscallError::InvalidArguments)
    } else {
        Ok(MmapPlan::FileBacked { fd: fd as u64, offset, pages, protection: prot & 7, shared })
    }
}

/// Whether a planned mapping is shared with other address spaces.
pub open spec fn plan_shared(p: MmapPlan) -> bool {
    match p {
        MmapPlan::Fixed { shared, .. } => shared,
        MmapPlan::Anonymous { shared, .. } => shared,
        MmapPlan::FileBacked { shared, .. } => shared,
    }
}

/// The protection of a planned mapping.
pub open spec fn plan_protection(p: MmapPlan) -> i32 {
    match p {
        MmapPlan::Fixed { protection, .. } => protection,
        MmapPlan::Anonymous { protection, .. } => protection,
        MmapPlan::FileBacked { protection, .. } => protection,
    }
}

/// The number of pages of a planned mapping.
pub open spec fn plan_pages(p: MmapPlan) -> u64 {
    match p {
        MmapPlan::Fixed { pages, .. } => pages,
        MmapPlan::Anonymous { pages, .. } => pages,
        MmapPlan::FileBacked { pages, .. } => pages,
    }
}

/// Whether a planned mapping is backed by no file.
pub open spec fn plan_anonymous(p: MmapPlan) -> bool {
    match p {
        MmapPlan::Fixed { file, .. } => file is None,
        MmapPlan::Anonymous { .. } => true,
        MmapPlan::FileBacked { .. } => false,
    }
}

/// Every mapping `mmap` plans is shared exactly when its sharing type is `MAP_SHARED` or
/// `MAP_SHARED_VALIDATE` (whatever else the flags say); it has the asked protection bits,
/// the fewest whole pages that hold `len` bytes, and no file exactly when `MAP_ANONYMOUS` is
/// given. A fixed mapping starts at `addr`.
pub proof fn lemma_mmap_plan_meaning(
    addr: u64,
    len: u64,
    prot: i32,
    flags: i32,
    fd: i32,
    offset: u64,
    fixed_in_user_space: bool,
)
    ensures
        mmap_plan_spec(addr, len, prot, flags, fd, offset, fixed_in_user_space) matches Ok(p) ==> {
            &&& plan_shared(p) == (flags & 3 == MAP_SHARED || flags & 3 == MAP_SHARED_VALIDATE)
            &&& plan_protection(p) == prot & 7
            &&& plan_pages(p) * PAGE_SIZE >= len
            &&& plan_pages(p) * PAGE_SIZE < len + PAGE_SIZE
            &&& plan_anonymous(p) == (flags & MAP_ANONYMOUS != 0)
            &&& (p matches MmapPlan::Fixed { start, .. } ==> start == addr)
        },
{
}

/// What `mmap` decides before it touches the address space.
pub fn mmap_plan(
    addr: u64,
    len: u64,
    prot: i32,
    flags: i32,
    fd: i32,
    offset: u64,
    fixed_in_user_space: bool,
) -> (r: Result<MmapPlan, SyscallError>)
    ensures
        r == mmap_plan_spec(addr, len, prot, flags, fd, offset, fixed_in_user_space),
{
    if len == 0 {
        return Err(SyscallError::InvalidArguments);
    }
    let protection = prot_to_protection(prot)?;
    let pages = page_count(len);
    let fixed = flags & (MAP_FIXED | MAP_FIXED_NOREPLACE) != 0;
    assert(0 <= flags & 3 <= 3) by (bit_vector);
    let shared = mmap_shared(flags)?;
    let anonymous = flags & MAP_ANONYMOUS != 0;
    if fixed {
        if offset % PAGE_SIZE != 0 {
            return Err(SyscallError::InvalidArguments);
        }
        let (start, bytes) = checked_user_mapping(addr, pages, fixed_in_user_space)?;
        let file = if anonymous {
            None
        } else {
            if fd < 0 {
                return Err(SyscallError::InvalidArguments);
            }
            Some(FileMapping { fd: fd as u64, offset })
        };
        return Ok(
            MmapPlan::Fixed {
                start,
                len: bytes,
                pages,
                protection,
                shared,
                replace: flags & MAP_FIXED != 0,
                file,
            },
        );
    }
    if addr != 0 {
        return Err(SyscallError::InvalidArguments);
    }
    if anonymous {
        return Ok(MmapPlan::Anonymous { pages, protection, shared });
    }
    if offset % PAGE_SIZE != 0 || fd < 0 {
        return Err(SyscallError::InvalidArguments);
    }
    Ok(MmapPlan::FileBacked { fd: fd as u64, offset, pages, protection, shared })
}

/// Whether a descriptor's status flags allow writing (write-only or read-write).
pub fn fd_allows_shared_write(flags: Result<u32, SyscallError>) -> (r: Result<bool, SyscallError>)
    ensures
        r == match flags {
            Err(e) => Err(e),
            Ok(f) => Ok::<bool, SyscallError>(f & 3 != 0),
        },
{
    let f = flags?;
    Ok(f & 3 != 0)
}

/// A shared writable mapping needs a descriptor opened for writing (`AccessDenied`
/// otherwise); `flags` is what asking the descriptor for its status flags gave.
pub fn check_shared_writable_mapping(flags: Result<u32, SyscallError>, shared: bool, protection: i32) -> (r:
    Result<(), SyscallError>)
    ensures
        r == if !shared || protection & PROT_WRITE == 0 {
            Ok::<(), SyscallError>(())
        } else {
            match flags {
                Err(e) => Err(e),
                Ok(f) => if f & 3 != 0 {
                    Ok(())
                } else {
                    Err(SyscallError::AccessDenied)
                },
            }
        },
{
    if !shared || protection & PROT_WRITE == 0 {
        return Ok(());
    }
    if fd_allows_shared_write(flags)? {
        Ok(())
    } else {
        Err(SyscallError::AccessDenied)
    }
}

/// Whether a shared mapping may later be made writable: only through a descriptor opened
/// for writing; private mappings never need it.
pub fn shared_write_permission(flags: Result<u32, SyscallError>, shared: bool) -> (r: Result<bool, SyscallError>)
    ensures
        r == if !shared {
            Ok::<bool, SyscallError>(false)
        } else {
            match flags {
                Err(e) => Err(e),
                Ok(f) => Ok(f & 3 != 0),
            }
        },
{
    if !shared {
        return Ok(false);
    }
    fd_allows_shared_write(flags)
}

/// What backs the mapping `mremap` is asked to change.
#[derive(Clone, Copy, Debug, PartialEq, Eq, Structural)]
pub enum MappingKind {
    /// Anonymous private memory.
    Normal,
    /// A file.
    File,
    /// Shared anonymous frames.
    Shared,
}

/// What `mremap` does.
#[derive(Clone, Copy, Debug, PartialEq, Eq, Structural)]
pub enum MremapPlan {
    /// The mapping stays where it is; its last `drop_len` bytes (from `keep_len` on) are
    /// unmapped.
    InPlace { keep_len: u64, drop_len: u64 },
    /// A new mapping of `new_pages` pages is made elsewhere, the first `copy_pages` pages are
    /// carried over and the old mapping goes.
    Move { new_pages: u64, copy_pages: u64 },
    /// Shared memory cannot move: room for `new_pages` pages is taken, then the call fails
    /// with `InvalidArguments`.
    SharedCannotMove { new_pages: u64 },
}

/// What `mremap` decides; `area_start` is the start of the mapping that holds `old_addr`.
pub open spec fn mremap_plan_spec(
    old_addr: u64,
    old_len: u64,
    new_len: u64,
    flags: u64,
    area_start: Option<u64>,
    kind: MappingKind,
) -> Result<MremapPlan, SyscallError> {
    if old_len == 0 || new_len == 0 {
        Err(SyscallError::InvalidArguments)
    } else if area_start is None || area_start->0 != old_addr {
        Err(SyscallError::InvalidArguments)
    } else if pages_of(new_len) <= pages_of(old_len) {
        Ok(
            MremapPlan::InPlace {
                keep_len: new_len,
                drop_len: if new_len < old_len {
                    (old_len - new_len) as u64
                } else {
                    0
                },
            },
        )
    } else if flags & MREMAP_MAYMOVE == 0 {
        Err(SyscallError::NoMemory)
    } else if kind == MappingKind::Shared {
        Ok(MremapPlan::SharedCannotMove { new_pages: pages_of(new_len) as u64 })
    } else {
        Ok(MremapPlan::Move { new_pages: pages_of(new_len) as u64, copy_pages: pages_of(old_len) as u64 })
    }
}

/// What `mremap` plans, for every request: a resize that still fits the mapping's pages
/// stays in place, keeps exactly `new_len` bytes and drops exactly what lies past them; a
/// growth past the mapping's pages moves only with `MREMAP_MAYMOVE`, never moves shared
/// memory, and a move takes enough pages for `new_len`, more than the old mapping had, and
/// carries over all the pages that held the old `old_len` bytes. Only the mapping's own start
/// is accepted.
pub proof fn lemma_mremap_plan_meaning(
    old_addr: u64,
    old_len: u64,
    new_len: u64,
    flags: u64,
    area_start: Option<u64>,
    kind: MappingKind,
)
    ensures
        mremap_plan_spec(old_addr, old_len, new_len, flags, area_start, kind) is Ok ==> area_start
            == Some(old_addr) && old_len > 0 && new_len > 0,
        mremap_plan_spec(old_addr, old_len, new_len, flags, area_start, kind) matches Ok(
            MremapPlan::InPlace { keep_len, drop_len },
        ) ==> keep_len == new_len && (new_len <= old_len ==> keep_len + drop_len == old_len)
            && (new_len >= old_len ==> drop_len == 0),
        mremap_plan_spec(old_addr, old_len, new_len, flags, area_start, kind) matches Ok(
            MremapPlan::Move { new_pages, copy_pages },
        ) ==> flags & MREMAP_MAYMOVE != 0 && kind != MappingKind::Shared && new_pages * PAGE_SIZE
            >= new_len && copy_pages * PAGE_SIZE >= old_len && copy_pages * PAGE_SIZE < old_len
            + PAGE_SIZE && new_pages > copy_pages,
        mremap_plan_spec(old_addr, old_len, new_len, flags, area_start, kind) matches Ok(
            MremapPlan::SharedCannotMove { new_pages },
        ) ==> flags & MREMAP_MAYMOVE != 0 && kind == MappingKind::Shared && new_pages * PAGE_SIZE
            >= new_len,
{
}

/// What `mremap` decides.
pub fn mremap_plan(
    old_addr: u64,
    old_len: u64,
    new_len: u64,
    flags: u64,
    area_start: Option<u64>,
    kind: MappingKind,
) -> (r: Result<MremapPlan, SyscallError>)
    ensures
        r == mremap_plan_spec(old_addr, old_len, new_len, flags, area_start, kind),
{
    if old_len == 0 || new_len == 0 {
        return Err(SyscallError::InvalidArguments);
    }
    let old_pages = page_count(old_len);
    let new_pages = page_count(new_len);
    match area_start {
        None => return Err(SyscallError::InvalidArguments),
        Some(start) => {
            if start != old_addr {
                return Err(SyscallError::InvalidArguments);
            }
        },
    }
    if new_pages <= old_pages {
        return Ok(
            MremapPlan::InPlace {
                keep_len: new_len,
                drop_len: if new_len < old_len {
                    old_len - new_len
                } else {
                    0
                },
            },
        );
    }
    if flags & MREMAP_MAYMOVE == 0 {
        return Err(SyscallError::NoMemory);
    }
    match kind {
        MappingKind::Shared => Ok(MremapPlan::SharedCannotMove { new_pages }),
        _ => Ok(MremapPlan::Move { new_pages, copy_pages: old_pages }),
    }
}

/// How many bytes of page `page_index` of an `old_len`-byte mapping `mremap` copies.
pub fn mremap_copy_len(old_len: u64, page_index: u64) -> (r: u64)
    requires
        page_index < pages_of(old_len),
    ensures
        r == if old_len - page_index * PAGE_SIZE < PAGE_SIZE {
            (old_len - page_index * PAGE_SIZE) as u64
        } else {
            PAGE_SIZE
        },
{
    assert(page_index * 4096 < old_len) by (nonlinear_arith)
        requires
            page_index < (old_len + 4095) / 4096,
    ;
    let rest = old_len - page_index * PAGE_SIZE;
    if rest < PAGE_SIZE {
        rest
    } else {
        PAGE_SIZE
    }
}

/// A memory system call's range must lie in mapped memory (an empty one always does).
pub fn ensure_mapped_user_range(
    areas: &Vec<MemoryRange>,
    addr: u64,
    len: u64,
    in_user_space: bool,
) -> (r: Result<(), SyscallError>)
    ensures
        r == if len == 0 {
            Ok::<(), SyscallError>(())
        } else if addr + len > u64::MAX {
            Err(SyscallError::InvalidArguments)
        } else if !in_user_space {
            Err(SyscallError::NoMemory)
        } else if forall|a: u64| addr <= a < addr + len ==> covered(areas@, a) {
            Ok(())
        } else {
            Err(SyscallError::NoMemory)
        },
{
    let (start, end) = checked_user_range_for_memory_syscall(addr, len, in_user_space)?;
    if start == end {
        return Ok(());
    }
    if mapped_area_covers_range(areas, start, end) {
        Ok(())
    } else {
        Err(SyscallError::NoMemory)
    }
}

} // verus!
