use vstd::prelude::*;
use crate::credentials::{groups_contain, copy_groups, ProcessCredentials};
use crate::error::SyscallError;
use crate::flags::{AT_EMPTY_PATH, AT_SYMLINK_NOFOLLOW};
use crate::futex_ops::LinuxTimespec;

verus! {

/// `tv_nsec` value that asks for the current time.
pub const UTIME_NOW: i64 = 0x3fff_ffff;
/// `tv_nsec` value that leaves a timestamp alone.
pub const UTIME_OMIT: i64 = 0x3fff_fffe;

/// A `timeval`, as `utimes` takes it.
#[derive(Clone, Copy, Debug, PartialEq, Eq, Structural)]
pub struct LinuxTimeval {
    pub tv_sec: i64,
    pub tv_usec: i64,
}

/// What a caller asks to do with one timestamp.
#[derive(Clone, Copy, Debug, PartialEq, Eq, Structural)]
pub enum RequestedTime {
    Now,
    Omit,
    At { sec: i64, nsec: i64 },
}

impl RequestedTime {
    /// From a `timespec` of `utimensat`: the two special `tv_nsec` values, or a valid time.
    pub fn from_timespec(timespec: LinuxTimespec) -> (r: Result<Self, SyscallError>)
        ensures
            r == if timespec.tv_nsec == UTIME_NOW {
                Ok::<RequestedTime, SyscallError>(RequestedTime::Now)
            } else if timespec.tv_nsec == UTIME_OMIT {
                Ok(RequestedTime::Omit)
            } else if 0 <= timespec.tv_nsec <= 999_999_999 && timespec.tv_sec >= 0 {
                Ok(RequestedTime::At { sec: timespec.tv_sec, nsec: timespec.tv_nsec })
            } else {
                Err(SyscallError::InvalidArguments)
            },
    {
        if timespec.tv_nsec == UTIME_NOW {
            Ok(RequestedTime::Now)
        } else if timespec.tv_nsec == UTIME_OMIT {
            Ok(RequestedTime::Omit)
        } else if 0 <= timespec.tv_nsec && timespec.tv_nsec <= 999_999_999 && timespec.tv_sec >= 0 {
            Ok(RequestedTime::At { sec: timespec.tv_sec, nsec: timespec.tv_nsec })
        } else {
            Err(SyscallError::InvalidArguments)
        }
    }

    /// From whole seconds, as `utime` passes them.
    pub fn from_seconds(sec: i64) -> (r: Result<Self, SyscallError>)
        ensures
            r == if sec < 0 {
                Err::<RequestedTime, SyscallError>(SyscallError::InvalidArguments)
            } else {
                Ok(RequestedTime::At { sec, nsec: 0 })
            },
    {
        if sec < 0 {
            return Err(SyscallError::InvalidArguments);
        }
        Ok(RequestedTime::At { sec, nsec: 0 })
    }

    /// From a `timeval` of `utimes`: microseconds become nanoseconds.
    pub fn from_timeval(timeval: LinuxTimeval) -> (r: Result<Self, SyscallError>)
        ensures
            r == if timeval.tv_sec < 0 || timeval.tv_usec < 0 || timeval.tv_usec >= 1_000_000 {
                Err::<RequestedTime, SyscallError>(SyscallError::InvalidArguments)
            } else {
                Ok(RequestedTime::At { sec: timeval.tv_sec, nsec: (timeval.tv_usec * 1000) as i64 })
            },
    {
        if timeval.tv_sec < 0 || !(0 <= timeval.tv_usec && timeval.tv_usec < 1_000_000) {
            return Err(SyscallError::InvalidArguments);
        }
        Ok(RequestedTime::At { sec: timeval.tv_sec, nsec: timeval.tv_usec * 1_000 })
    }

    /// Setting an explicit time is for the owner only.
    pub fn needs_owner(self) -> (r: bool)
        ensures
            r == self is At,
    {
        matches!(self, RequestedTime::At { .. })
    }

    pub fn is_omit(self) -> (r: bool)
        ensures
            r == self is Omit,
    {
        matches!(self, RequestedTime::Omit)
    }
}

/// The two timestamps of a `utimensat`: both "now" for a null pointer, else from what
/// reading the two `timespec`s gave (`read`).
pub fn requested_times_from_timespecs(
    read: Option<Result<[LinuxTimespec; 2], SyscallError>>,
) -> (r: Result<[RequestedTime; 2], SyscallError>)
    ensures
        match read {
            None => r is Ok && r->Ok_0@ == seq![RequestedTime::Now, RequestedTime::Now],
            Some(Err(e)) => r == Err::<[RequestedTime; 2], SyscallError>(e),
            Some(Ok(times)) => {
                let a = timespec_request(times@[0]);
                let b = timespec_request(times@[1]);
                if a is Err {
                    r == Err::<[RequestedTime; 2], SyscallError>(a->Err_0)
                } else if b is Err {
                    r == Err::<[RequestedTime; 2], SyscallError>(b->Err_0)
                } else {
                    r is Ok && r->Ok_0@ == seq![a->Ok_0, b->Ok_0]
                }
            },
        },
{
    match read {
        None => {
            let r = [RequestedTime::Now, RequestedTime::Now];
            assert(r@ =~= seq![RequestedTime::Now, RequestedTime::Now]);
            Ok(r)
        },
        Some(Err(e)) => Err(e),
        Some(Ok(times)) => {
            let a = RequestedTime::from_timespec(times[0])?;
            let b = RequestedTime::from_timespec(times[1])?;
            let r = [a, b];
            assert(r@ =~= seq![a, b]);
            Ok(r)
        },
    }
}

pub open spec fn timespec_request(t: LinuxTimespec) -> Result<RequestedTime, SyscallError> {
    if t.tv_nsec == UTIME_NOW {
        Ok(RequestedTime::Now)
    } else if t.tv_nsec == UTIME_OMIT {
        Ok(RequestedTime::Omit)
    } else if 0 <= t.tv_nsec <= 999_999_999 && t.tv_sec >= 0 {
        Ok(RequestedTime::At { sec: t.tv_sec, nsec: t.tv_nsec })
    } else {
        Err(SyscallError::InvalidArguments)
    }
}

/// The ids a timestamp change is checked with: the effective ones.
pub struct UtimeCredentials {
    pub uid: u32,
    pub gid: u32,
    pub supplementary_groups: Vec<u32>,
}

pub fn current_credentials(process: &ProcessCredentials) -> (r: UtimeCredentials)
    ensures
        r.uid == process.effective_uid,
        r.gid == process.effective_gid,
        r.supplementary_groups@ == process.supplementary_groups@,
{
    UtimeCredentials {
        uid: process.effective_uid,
        gid: process.effective_gid,
        supplementary_groups: copy_groups(&process.supplementary_groups),
    }
}

/// The owner, group and permission bits of a file.
#[derive(Clone, Copy, Debug, PartialEq, Eq, Structural)]
pub struct FileIds {
    pub uid: u32,
    pub gid: u32,
    pub permission: u32,
}

/// Whether the caller may write the file: root always, others by the write bit of the
/// class (owner, group, others) that applies to them.
pub open spec fn write_allowed(info: FileIds, credentials: UtimeCredentials) -> bool {
    if credentials.uid == 0 {
        true
    } else {
        let shift: u32 = if credentials.uid == info.uid {
            6
        } else if credentials.gid == info.gid || credentials.supplementary_groups@.contains(info.gid) {
            3
        } else {
            0
        };
        (info.permission >> shift) & 0o2 != 0
    }
}

/// Each class's write bit, as the shifted test reads it.
proof fn lemma_write_bits(p: u32)
    by (bit_vector)
    ensures
        ((p >> 6u32) & 2 != 0) == (p & 0o200 != 0),
        ((p >> 3u32) & 2 != 0) == (p & 0o020 != 0),
        ((p >> 0u32) & 2 != 0) == (p & 0o002 != 0),
{
}

/// Who may write a file for a timestamp change: root always; the owner by the owner write
/// bit (0o200); a caller who is not the owner but whose group (primary or supplementary)
/// is the file's by the group write bit (0o020); anyone else by the others' write bit
/// (0o002).
pub proof fn lemma_write_allowed_classes(info: FileIds, credentials: UtimeCredentials)
    ensures
        credentials.uid == 0 ==> write_allowed(info, credentials),
        credentials.uid != 0 && credentials.uid == info.uid ==> write_allowed(info, credentials)
            == (info.permission & 0o200 != 0),
        credentials.uid != 0 && credentials.uid != info.uid && (credentials.gid == info.gid
            || credentials.supplementary_groups@.contains(info.gid)) ==> write_allowed(
            info,
            credentials,
        ) == (info.permission & 0o020 != 0),
        credentials.uid != 0 && credentials.uid != info.uid && credentials.gid != info.gid
            && !credentials.supplementary_groups@.contains(info.gid) ==> write_allowed(
            info,
            credentials,
        ) == (info.permission & 0o002 != 0),
{
    lemma_write_bits(info.permission);
}

pub fn check_write_permission(info: &FileIds, credentials: &UtimeCredentials) -> (r: bool)
    ensures
        r == write_allowed(*info, *credentials),
{
    if credentials.uid == 0 {
        return true;
    }
    let shift: u32 = if credentials.uid == info.uid {
        6
    } else if credentials.gid == info.gid || groups_contain(&credentials.supplementary_groups, info.gid) {
        3
    } else {
        0
    };
    ((info.permission >> shift) & 0o2) != 0
}

/// The three timestamps of a file.
#[derive(Clone, Copy, Debug, PartialEq, Eq, Structural)]
pub struct FileTimes {
    pub atime_sec: i64,
    pub atime_nsec: i64,
    pub mtime_sec: i64,
    pub mtime_nsec: i64,
    pub ctime_sec: i64,
    pub ctime_nsec: i64,
}

pub open spec fn pick_time(requested: RequestedTime, now: (i64, i64), current: (i64, i64)) -> (i64, i64) {
    match requested {
        RequestedTime::Now => now,
        RequestedTime::Omit => current,
        RequestedTime::At { sec, nsec } => (sec, nsec),
    }
}

/// Each requested timestamp becomes: the current time for "now", the file's own time for
/// "omit", and exactly the given seconds and nanoseconds otherwise.
pub proof fn lemma_requested_time_meaning(now: (i64, i64), current: (i64, i64), sec: i64, nsec: i64)
    ensures
        pick_time(RequestedTime::Now, now, current) == now,
        pick_time(RequestedTime::Omit, now, current) == current,
        pick_time(RequestedTime::At { sec, nsec }, now, current) == (sec, nsec),
{
}

/// The timestamps after a change: access and modification time as requested (now, kept,
/// or set), the change time always now.
pub fn build_file_times(current: FileTimes, requested: [RequestedTime; 2], now: FileTimes) -> (r: FileTimes)
    ensures
        (r.atime_sec, r.atime_nsec) == pick_time(requested@[0], (now.atime_sec, now.atime_nsec), (current.atime_sec, current.atime_nsec)),
        (r.mtime_sec, r.mtime_nsec) == pick_time(requested@[1], (now.mtime_sec, now.mtime_nsec), (current.mtime_sec, current.mtime_nsec)),
        r.ctime_sec == now.ctime_sec,
        r.ctime_nsec == now.ctime_nsec,
{
    let (atime_sec, atime_nsec) = match requested[0] {
        RequestedTime::Now => (now.atime_sec, now.atime_nsec),
        RequestedTime::Omit => (current.atime_sec, current.atime_nsec),
        RequestedTime::At { sec, nsec } => (sec, nsec),
    };
    let (mtime_sec, mtime_nsec) = match requested[1] {
        RequestedTime::Now => (now.mtime_sec, now.mtime_nsec),
        RequestedTime::Omit => (current.mtime_sec, current.mtime_nsec),
        RequestedTime::At { sec, nsec } => (sec, nsec),
    };
    FileTimes {
        atime_sec,
        atime_nsec,
        mtime_sec,
        mtime_nsec,
        ctime_sec: now.ctime_sec,
        ctime_nsec: now.ctime_nsec,
    }
}

/// The timestamps of a file that a copy wrote into: the access time stays, modification and
/// change time become now (as `utimensat` with "omit" and "now" would set them).
pub fn times_after_write(current: FileTimes, now: FileTimes) -> (r: FileTimes)
    ensures
        r.atime_sec == current.atime_sec,
        r.atime_nsec == current.atime_nsec,
        r.mtime_sec == now.mtime_sec,
        r.mtime_nsec == now.mtime_nsec,
        r.ctime_sec == now.ctime_sec,
        r.ctime_nsec == now.ctime_nsec,
{
    build_file_times(current, [RequestedTime::Omit, RequestedTime::Now], now)
}

/// Who may change timestamps: root and the owner always; others only to "now" or "keep",
/// and only with write permission.
pub fn check_utime_permissions(
    info: &FileIds,
    requested: [RequestedTime; 2],
    credentials: &UtimeCredentials,
) -> (r: Result<(), SyscallError>)
    ensures
        r == if credentials.uid == 0 || credentials.uid == info.uid {
            Ok::<(), SyscallError>(())
        } else if !(requested@[0] is At) && !(requested@[1] is At) {
            if write_allowed(*info, *credentials) {
                Ok(())
            } else {
                Err(SyscallError::AccessDenied)
            }
        } else {
            Err(SyscallError::PermissionDenied)
        },
{
    if credentials.uid == 0 || credentials.uid == info.uid {
        return Ok(());
    }
    if !requested[0].needs_owner() && !requested[1].needs_owner() {
        if check_write_permission(info, credentials) {
            Ok(())
        } else {
            Err(SyscallError::AccessDenied)
        }
    } else {
        Err(SyscallError::PermissionDenied)
    }
}

/// A request that keeps both timestamps changes nothing and succeeds at once.
pub fn all_omit(requested: [RequestedTime; 2]) -> (r: bool)
    ensures
        r == (requested@[0] is Omit && requested@[1] is Omit),
{
    requested[0].is_omit() && requested[1].is_omit()
}

/// What a `utimensat` acts on.
#[derive(Clone, Copy, Debug, PartialEq, Eq, Structural)]
pub enum UtimeTarget {
    /// The open file `dirfd`.
    Descriptor,
    /// The path, following a final symbolic link or not.
    Path { follow_symlink: bool },
}

/// The checks of `utimensat`, in its order: flags, then the timestamps, then the path
/// (null or empty selects the descriptor itself).
pub fn utimensat_target(
    dirfd: i32,
    flags: i32,
    times: Result<[RequestedTime; 2], SyscallError>,
    path_is_null: bool,
    path_is_empty: bool,
) -> (r: Result<UtimeTarget, SyscallError>)
    ensures
        r == if flags & !(AT_SYMLINK_NOFOLLOW | AT_EMPTY_PATH) != 0 {
            Err::<UtimeTarget, SyscallError>(SyscallError::InvalidArguments)
        } else if times is Err {
            Err(times->Err_0)
        } else if path_is_null {
            if flags & AT_EMPTY_PATH != 0 {
                Err(SyscallError::InvalidArguments)
            } else if dirfd >= 0 {
                Ok(UtimeTarget::Descriptor)
            } else {
                Err(SyscallError::BadAddress)
            }
        } else if path_is_empty {
            if flags & AT_EMPTY_PATH != 0 {
                Ok(UtimeTarget::Descriptor)
            } else {
                Err(SyscallError::FileNotFound)
            }
        } else {
            Ok(UtimeTarget::Path { follow_symlink: flags & AT_SYMLINK_NOFOLLOW == 0 })
        },
{
    let allowed = AT_SYMLINK_NOFOLLOW | AT_EMPTY_PATH;
    if flags != flags & allowed {
        assert(flags & !allowed != 0) by (bit_vector)
            requires
                flags != flags & allowed,
        ;
        return Err(SyscallError::InvalidArguments);
    }
    assert(flags & !allowed == 0) by (bit_vector)
        requires
            flags == flags & allowed,
    ;
    let _ = times?;
    if path_is_null {
        if flags & AT_EMPTY_PATH != 0 {
            return Err(SyscallError::InvalidArguments);
        }
        if dirfd >= 0 {
            return Ok(UtimeTarget::Descriptor);
        }
        return Err(SyscallError::BadAddress);
    }
    if path_is_empty {
        if flags & AT_EMPTY_PATH != 0 {
            return Ok(UtimeTarget::Descriptor);
        }
        return Err(SyscallError::FileNotFound);
    }
    Ok(UtimeTarget::Path { follow_symlink: flags & AT_SYMLINK_NOFOLLOW == 0 })
}

} // verus!
