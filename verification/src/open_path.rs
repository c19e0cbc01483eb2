use vstd::prelude::*;
use crate::error::SyscallError;
use crate::flags::{O_APPEND, O_CREAT, O_NONBLOCK, O_PATH, O_TMPFILE, O_TRUNC, OPEN_FLAGS_ALL};

verus! {

/// Status flags of an open file.
pub const FILE_WRONLY: u32 = 0o1;
pub const FILE_RDWR: u32 = 0o2;
pub const FILE_APPEND: u32 = 0o2000;
pub const FILE_NONBLOCK: u32 = 0o4000;

/// The status flags an `open` gives the file: its access mode, append and non-blocking.
pub open spec fn file_flags_spec(flags: i32) -> u32 {
    (if flags & 3 == 1 { FILE_WRONLY } else if flags & 3 == 2 { FILE_RDWR } else { 0u32 })
        | (if flags & O_APPEND != 0 { FILE_APPEND } else { 0u32 })
        | (if flags & O_NONBLOCK != 0 { FILE_NONBLOCK } else { 0u32 })
}

/// The file status flags from `open` flags; the access mode `3` is invalid.
pub fn file_flags_from_open_flags(flags: i32) -> (r: Result<u32, SyscallError>)
    ensures
        r == if flags & 3 == 3 {
            Err::<u32, SyscallError>(SyscallError::InvalidArguments)
        } else {
            Ok(file_flags_spec(flags))
        },
{
    let mode = flags & 3;
    let access = if mode == 1 {
        FILE_WRONLY
    } else if mode == 2 {
        FILE_RDWR
    } else if mode == 0 {
        0
    } else {
        assert(flags & 3 == 3) by (bit_vector)
            requires
                flags & 3 != 0 && flags & 3 != 1 && flags & 3 != 2,
        ;
        return Err(SyscallError::InvalidArguments);
    };
    let append = if flags & O_APPEND != 0 { FILE_APPEND } else { 0 };
    let nonblock = if flags & O_NONBLOCK != 0 { FILE_NONBLOCK } else { 0 };
    Ok(access | append | nonblock)
}

/// `openat2` resolve flags.
pub const RESOLVE_NO_XDEV: u64 = 0x01;
pub const RESOLVE_NO_MAGICLINKS: u64 = 0x02;
pub const RESOLVE_NO_SYMLINKS: u64 = 0x04;
pub const RESOLVE_BENEATH: u64 = 0x08;
pub const RESOLVE_IN_ROOT: u64 = 0x10;
pub const RESOLVE_CACHED: u64 = 0x20;
pub const RESOLVE_ALL: u64 = 0x3f;

/// The `open_how` structure of `openat2`.
#[derive(Clone, Copy, Debug, PartialEq, Eq, Structural)]
pub struct LinuxOpenHow {
    pub flags: u64,
    pub mode: u64,
    pub resolve: u64,
}

/// The size of the first version of `open_how`.
pub const OPEN_HOW_SIZE: usize = 24;

/// Whether every byte is zero.
pub fn all_zero(bytes: &Vec<u8>) -> (r: bool)
    ensures
        r == forall|i: int| 0 <= i < bytes@.len() ==> bytes@[i] == 0u8,
{
    let mut i: usize = 0;
    while i < bytes.len()
        invariant
            i <= bytes.len(),
            forall|j: int| 0 <= j < i ==> bytes@[j] == 0u8,
        decreases bytes.len() - i,
    {
        if bytes[i] != 0 {
            return false;
        }
        i += 1;
    }
    true
}

pub open spec fn open_how_checks(how: LinuxOpenHow) -> Result<(i32, u32, u64), SyscallError> {
    if how.flags > i32::MAX {
        Err(SyscallError::InvalidArguments)
    } else if (how.flags as i32) & !(OPEN_FLAGS_ALL | 3) != 0 {
        Err(SyscallError::InvalidArguments)
    } else if how.resolve & !RESOLVE_ALL != 0 {
        Err(SyscallError::InvalidArguments)
    } else if how.mode & !0o7777u64 != 0 {
        Err(SyscallError::InvalidArguments)
    } else if how.mode != 0 && !((how.flags as i32) & O_CREAT == O_CREAT || (how.flags as i32) & O_TMPFILE
        == O_TMPFILE) {
        Err(SyscallError::InvalidArguments)
    } else {
        Ok((how.flags as i32, how.mode as u32, how.resolve))
    }
}

/// The checks of `openat2` on its `open_how`: a pointer, a size of at least the first
/// version whose extra bytes are zero, known flags and resolve flags, a permission-only
/// mode, and a mode only when creating. `how` and `tail` are what reading the structure
/// and its extra bytes gave.
pub fn read_open_how(
    how_is_null: bool,
    size: usize,
    how: Result<LinuxOpenHow, SyscallError>,
    tail: Result<Vec<u8>, SyscallError>,
) -> (r: Result<(i32, u32, u64), SyscallError>)
    ensures
        r == if how_is_null {
            Err::<(i32, u32, u64), SyscallError>(SyscallError::BadAddress)
        } else if size < OPEN_HOW_SIZE {
            Err(SyscallError::InvalidArguments)
        } else if how is Err {
            Err(SyscallError::BadAddress)
        } else if size > OPEN_HOW_SIZE && tail is Err {
            Err(SyscallError::BadAddress)
        } else if size > OPEN_HOW_SIZE && exists|i: int| 0 <= i < tail->Ok_0@.len() && tail->Ok_0@[i] != 0u8 {
            Err(SyscallError::ArgumentListTooLong)
        } else {
            open_how_checks(how->Ok_0)
        },
{
    if how_is_null {
        return Err(SyscallError::BadAddress);
    }
    if size < OPEN_HOW_SIZE {
        return Err(SyscallError::InvalidArguments);
    }
    let how = match how {
        Ok(h) => h,
        Err(_) => return Err(SyscallError::BadAddress),
    };
    if size > OPEN_HOW_SIZE {
        let tail = match tail {
            Ok(t) => t,
            Err(_) => return Err(SyscallError::BadAddress),
        };
        if !all_zero(&tail) {
            return Err(SyscallError::ArgumentListTooLong);
        }
    }
    if how.flags > 0x7fff_ffff {
        return Err(SyscallError::InvalidArguments);
    }
    let flags_bits = how.flags as i32;
    let known_flag_bits = OPEN_FLAGS_ALL | 3;
    if flags_bits & !known_flag_bits != 0 {
        return Err(SyscallError::InvalidArguments);
    }
    if how.resolve & !RESOLVE_ALL != 0 {
        return Err(SyscallError::InvalidArguments);
    }
    if how.mode & !0o7777 != 0 {
        return Err(SyscallError::InvalidArguments);
    }
    if how.mode != 0 && !(flags_bits & O_CREAT == O_CREAT || flags_bits & O_TMPFILE == O_TMPFILE) {
        return Err(SyscallError::InvalidArguments);
    }
    Ok((flags_bits, how.mode as u32, how.resolve))
}

/// Whether `s` begins with `prefix`.
pub open spec fn has_prefix(s: Seq<u8>, prefix: Seq<u8>) -> bool {
    prefix.len() <= s.len() && s.take(prefix.len() as int) == prefix
}

pub fn starts_with(s: &[u8], prefix: &[u8]) -> (r: bool)
    ensures
        r == has_prefix(s@, prefix@),
{
    if prefix.len() > s.len() {
        return false;
    }
    let mut i: usize = 0;
    while i < prefix.len()
        invariant
            i <= prefix@.len() <= s@.len(),
            forall|j: int| 0 <= j < i ==> s@[j] == prefix@[j],
        decreases prefix.len() - i,
    {
        if s[i] != prefix[i] {
            assert(s@.take(prefix@.len() as int)[i as int] != prefix@[i as int]);
            return false;
        }
        i += 1;
    }
    assert(s@.take(prefix@.len() as int) =~= prefix@);
    true
}

/// Whether one of the `/`-separated parts of `s` is `..`.
pub open spec fn has_dotdot_part(s: Seq<u8>) -> bool {
    exists|i: int|
        0 <= i && i + 2 <= s.len() && #[trigger] s[i] == 0x2eu8 && s[i + 1] == 0x2eu8 && (i == 0 || s[i
            - 1] == 0x2fu8) && (i + 2 == s.len() || s[i + 2] == 0x2fu8)
}

pub fn has_dotdot_component(s: &[u8]) -> (r: bool)
    ensures
        r == has_dotdot_part(s@),
{
    let mut i: usize = 0;
    while i < s.len() && s.len() - i >= 2
        invariant
            forall|j: int|
                0 <= j < i && j + 2 <= s@.len() ==> !(#[trigger] s@[j] == 0x2eu8 && s@[j + 1] == 0x2eu8 && (j == 0
                    || s@[j - 1] == 0x2fu8) && (j + 2 == s@.len() || s@[j + 2] == 0x2fu8)),
        decreases s.len() - i,
    {
        if s[i] == 0x2e && s[i + 1] == 0x2e && (i == 0 || s[i - 1] == 0x2f) && (i + 2 == s.len()
            || s[i + 2] == 0x2f) {
            return true;
        }
        i += 1;
    }
    false
}

pub open spec fn slash() -> Seq<u8> {
    seq![0x2fu8]
}

/// `/proc/`
pub open spec fn proc_prefix() -> Seq<u8> {
    seq![0x2fu8, 0x70u8, 0x72u8, 0x6fu8, 0x63u8, 0x2fu8]
}

/// `/proc/self/exe`
pub open spec fn proc_self_exe() -> Seq<u8> {
    seq![0x2fu8, 0x70u8, 0x72u8, 0x6fu8, 0x63u8, 0x2fu8, 0x73u8, 0x65u8, 0x6cu8, 0x66u8, 0x2fu8, 0x65u8, 0x78u8, 0x65u8]
}

/// `/proc/sys/`
pub open spec fn proc_sys_prefix() -> Seq<u8> {
    seq![0x2fu8, 0x70u8, 0x72u8, 0x6fu8, 0x63u8, 0x2fu8, 0x73u8, 0x79u8, 0x73u8, 0x2fu8]
}

/// `/sys/`
pub open spec fn sys_prefix() -> Seq<u8> {
    seq![0x2fu8, 0x73u8, 0x79u8, 0x73u8, 0x2fu8]
}

/// The restrictions `openat2` puts on a path by its resolve flags. `final_is_symlink` is
/// whether the resolved path names a symbolic link (asked only for
/// `RESOLVE_NO_SYMLINKS`).
pub fn validate_openat2_resolve(
    path: &[u8],
    resolve: u64,
    final_is_symlink: Result<bool, SyscallError>,
) -> (r: Result<(), SyscallError>)
    ensures
        r == if resolve == 0 {
            Ok::<(), SyscallError>(())
        } else if resolve & RESOLVE_BENEATH != 0 && (has_prefix(path@, slash()) || has_dotdot_part(path@)) {
            Err(SyscallError::CrossDeviceLink)
        } else if resolve & RESOLVE_IN_ROOT != 0 && has_prefix(path@, slash()) {
            Err(SyscallError::FileNotFound)
        } else if resolve & RESOLVE_NO_XDEV != 0 && has_prefix(path@, proc_prefix()) {
            Err(SyscallError::CrossDeviceLink)
        } else if resolve & RESOLVE_NO_MAGICLINKS != 0 && path@ == proc_self_exe() {
            Err(SyscallError::TooManySymbolicLinks)
        } else if resolve & RESOLVE_NO_SYMLINKS != 0 {
            match final_is_symlink {
                Err(e) => Err(e),
                Ok(true) => Err(SyscallError::TooManySymbolicLinks),
                Ok(false) => Ok(()),
            }
        } else {
            Ok(())
        },
{
    if resolve == 0 {
        return Ok(());
    }
    let slash_bytes: [u8; 1] = [0x2f];
    let proc_bytes: [u8; 6] = [0x2f, 0x70, 0x72, 0x6f, 0x63, 0x2f];
    let exe_bytes: [u8; 14] = [0x2f, 0x70, 0x72, 0x6f, 0x63, 0x2f, 0x73, 0x65, 0x6c, 0x66, 0x2f, 0x65, 0x78, 0x65];
    assert(slash_bytes@ =~= slash());
    assert(proc_bytes@ =~= proc_prefix());
    assert(exe_bytes@ =~= proc_self_exe());
    if resolve & RESOLVE_BENEATH != 0 && (starts_with(path, &slash_bytes) || has_dotdot_component(path)) {
        return Err(SyscallError::CrossDeviceLink);
    }
    if resolve & RESOLVE_IN_ROOT != 0 && starts_with(path, &slash_bytes) {
        return Err(SyscallError::FileNotFound);
    }
    if resolve & RESOLVE_NO_XDEV != 0 && starts_with(path, &proc_bytes) {
        return Err(SyscallError::CrossDeviceLink);
    }
    if resolve & RESOLVE_NO_MAGICLINKS != 0 {
        let is_exe = path.len() == 14 && starts_with(path, &exe_bytes);
        assert(path@.len() == 14 ==> path@ =~= path@.take(14));
        if is_exe {
            return Err(SyscallError::TooManySymbolicLinks);
        }
    }
    if resolve & RESOLVE_NO_SYMLINKS != 0 {
        match final_is_symlink {
            Err(e) => return Err(e),
            Ok(true) => return Err(SyscallError::TooManySymbolicLinks),
            Ok(false) => {},
        }
    }
    Ok(())
}

/// Paths under `/proc/sys/` and `/sys/` stay writable on a read-only mount.
pub fn is_proc_sysctl_path(path: &[u8]) -> (r: bool)
    ensures
        r == (has_prefix(path@, proc_sys_prefix()) || has_prefix(path@, sys_prefix())),
{
    let proc_sys: [u8; 10] = [0x2f, 0x70, 0x72, 0x6f, 0x63, 0x2f, 0x73, 0x79, 0x73, 0x2f];
    let sys: [u8; 5] = [0x2f, 0x73, 0x79, 0x73, 0x2f];
    assert(proc_sys@ =~= proc_sys_prefix());
    assert(sys@ =~= sys_prefix());
    starts_with(path, &proc_sys) || starts_with(path, &sys)
}

/// Whether an `open` must find the mount writable, and what it says: opens that write or
/// truncate need a writable mount, except under `/proc/sys/` and `/sys/`. `mount_check`
/// is what asking the mount gave (`ReadOnlyFileSystem` for a read-only one).
pub fn ensure_open_writable_mount(
    path: &[u8],
    flags: i32,
    mount_check: Result<(), SyscallError>,
) -> (r: Result<(), SyscallError>)
    ensures
        r == if flags & O_PATH != 0 {
            Ok::<(), SyscallError>(())
        } else if !(flags & 3 == 1 || flags & 3 == 2 || flags & O_TRUNC == O_TRUNC) {
            Ok(())
        } else {
            match mount_check {
                Ok(()) => Ok(()),
                Err(SyscallError::ReadOnlyFileSystem) => if has_prefix(path@, proc_sys_prefix())
                    || has_prefix(path@, sys_prefix()) {
                    Ok(())
                } else {
                    Err(SyscallError::ReadOnlyFileSystem)
                },
                Err(e) => Err(e),
            }
        },
{
    if flags & O_PATH != 0 {
        return Ok(());
    }
    let access_mode = flags & 3;
    let wants_write = access_mode == 1 || access_mode == 2 || flags & O_TRUNC == O_TRUNC;
    if !wants_write {
        return Ok(());
    }
    match mount_check {
        Ok(()) => Ok(()),
        Err(SyscallError::ReadOnlyFileSystem) => {
            if is_proc_sysctl_path(path) {
                Ok(())
            } else {
                Err(SyscallError::ReadOnlyFileSystem)
            }
        },
        Err(e) => Err(e),
    }
}

pub const PATH_MAX: usize = 4096;
pub const NAME_MAX: usize = 255;

/// Reading a NUL-terminated path from user memory `mem` (the readable bytes at the
/// pointer), at position `i` with `component` bytes of the current component seen.
pub open spec fn path_scan(mem: Seq<u8>, i: int, component: int) -> Result<Seq<u8>, SyscallError>
    decreases 4097 - i,
{
    if i < 0 || i > 4096 {
        Err(SyscallError::PathTooLong)
    } else if i >= mem.len() {
        Err(SyscallError::BadAddress)
    } else if mem[i] == 0 {
        Ok(mem.take(i))
    } else if i == 4096 {
        Err(SyscallError::PathTooLong)
    } else if mem[i] == 0x2f {
        path_scan(mem, i + 1, 0)
    } else if component + 1 > 255 {
        Err(SyscallError::PathTooLong)
    } else {
        path_scan(mem, i + 1, component + 1)
    }
}

/// Reads a path from user memory: up to the NUL, at most 4095 bytes, and no component
/// longer than 255 bytes. Running off the readable memory is a bad address. Each byte
/// stands for the character of the same number.
pub fn path_from_raw(mem: &[u8]) -> (r: Result<Vec<u8>, SyscallError>)
    ensures
        match path_scan(mem@, 0, 0) {
            Ok(p) => r is Ok && r->Ok_0@ == p,
            Err(e) => r == Err::<Vec<u8>, SyscallError>(e),
        },
{
    let mut out: Vec<u8> = Vec::new();
    let mut component_len: usize = 0;
    let mut index: usize = 0;
    while index <= PATH_MAX
        invariant
            index <= PATH_MAX + 1,
            component_len <= NAME_MAX,
            out@ == mem@.take(index as int),
            index <= mem@.len(),
            path_scan(mem@, 0, 0) == path_scan(mem@, index as int, component_len as int),
        decreases PATH_MAX + 1 - index,
    {
        if index >= mem.len() {
            return Err(SyscallError::BadAddress);
        }
        let byte = mem[index];
        if byte == 0 {
            return Ok(out);
        }
        if index == PATH_MAX {
            return Err(SyscallError::PathTooLong);
        }
        if byte == 0x2f {
            component_len = 0;
        } else {
            component_len += 1;
            if component_len > NAME_MAX {
                return Err(SyscallError::PathTooLong);
            }
        }
        out.push(byte);
        assert(mem@.take(index + 1) =~= mem@.take(index as int).push(byte));
        index += 1;
    }
    Err(SyscallError::PathTooLong)
}

pub const MEMFD_NAME_MAX: usize = 249;

/// Reading a `memfd` name from user memory, at position `i`.
pub open spec fn memfd_name_scan(mem: Seq<u8>, i: int) -> Result<Seq<u8>, SyscallError>
    decreases 250 - i,
{
    if i < 0 || i > 249 {
        Err(SyscallError::InvalidArguments)
    } else if i >= mem.len() {
        Err(SyscallError::BadAddress)
    } else if mem[i] == 0 {
        Ok(mem.take(i))
    } else if i == 249 {
        Err(SyscallError::InvalidArguments)
    } else {
        memfd_name_scan(mem, i + 1)
    }
}

/// Reads the name of a `memfd_create`: up to the NUL, at most 248 bytes.
pub fn memfd_name_from_raw(mem: &[u8]) -> (r: Result<Vec<u8>, SyscallError>)
    ensures
        match memfd_name_scan(mem@, 0) {
            Ok(p) => r is Ok && r->Ok_0@ == p,
            Err(e) => r == Err::<Vec<u8>, SyscallError>(e),
        },
{
    let mut out: Vec<u8> = Vec::new();
    let mut offset: usize = 0;
    while offset <= MEMFD_NAME_MAX
        invariant
            offset <= MEMFD_NAME_MAX + 1,
            out@ == mem@.take(offset as int),
            offset <= mem@.len(),
            memfd_name_scan(mem@, 0) == memfd_name_scan(mem@, offset as int),
        decreases MEMFD_NAME_MAX + 1 - offset,
    {
        if offset >= mem.len() {
            return Err(SyscallError::BadAddress);
        }
        let byte = mem[offset];
        if byte == 0 {
            return Ok(out);
        }
        if offset == MEMFD_NAME_MAX {
            return Err(SyscallError::InvalidArguments);
        }
        out.push(byte);
        assert(mem@.take(offset + 1) =~= mem@.take(offset as int).push(byte));
        offset += 1;
    }
    Err(SyscallError::InvalidArguments)
}

/// The name a `memfd` gets: `anon` for an empty name, else the name with `/` made `_`.
pub open spec fn sanitized_memfd_name(name: Seq<u8>) -> Seq<u8> {
    if name.len() == 0 {
        seq![0x61u8, 0x6eu8, 0x6fu8, 0x6eu8]
    } else {
        name.map_values(|b: u8| if b == 0x2f { 0x5fu8 } else { b })
    }
}

pub fn sanitize_memfd_name(name: &Vec<u8>) -> (r: Vec<u8>)
    ensures
        r@ == sanitized_memfd_name(name@),
{
    if name.len() == 0 {
        let r = vec![0x61u8, 0x6e, 0x6f, 0x6e];
        assert(r@ =~= sanitized_memfd_name(name@));
        return r;
    }
    let mut out: Vec<u8> = Vec::new();
    let mut i: usize = 0;
    while i < name.len()
        invariant
            i <= name.len(),
            out@ == name@.take(i as int).map_values(|b: u8| if b == 0x2f { 0x5fu8 } else { b }),
        decreases name.len() - i,
    {
        let b = name[i];
        out.push(if b == 0x2f { 0x5f } else { b });
        assert(name@.take(i + 1).map_values(|b: u8| if b == 0x2f { 0x5fu8 } else { b }) =~= name@.take(
            i as int,
        ).map_values(|b: u8| if b == 0x2f { 0x5fu8 } else { b }).push(if b == 0x2f { 0x5fu8 } else { b }));
        i += 1;
    }
    assert(name@.take(i as int) =~= name@);
    out
}

} // verus!
