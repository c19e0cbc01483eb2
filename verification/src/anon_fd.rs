use vstd::prelude::*;
use crate::error::SyscallError;

verus! {

/// Flags of `eventfd2`.
pub const EFD_SEMAPHORE: u32 = 0x1;
pub const EFD_NONBLOCK: u32 = 0o4_000;
pub const EFD_CLOEXEC: u32 = 0o2_000_000;
/// Every flag that `eventfd2` knows.
pub const EFD_ALL: u32 = 0o2_004_001;

/// Flags of `inotify_init1`.
pub const IN_NONBLOCK: i32 = 0o4_000;
pub const IN_CLOEXEC: i32 = 0o2_000_000;
/// Every flag that `inotify_init1` knows.
pub const IN_ALL: i32 = 0o2_004_000;

/// How a new eventfd is set up.
#[derive(Clone, Copy, Debug, PartialEq, Eq, Structural)]
pub struct EventFdPlan {
    /// The counter's first value.
    pub initial_value: u64,
    /// Reads take one from the counter instead of all of it.
    pub semaphore: bool,
    /// The object does not block.
    pub nonblock: bool,
    /// The descriptor is closed on exec.
    pub cloexec: bool,
}

/// The eventfd that `eventfd2(initval, flags)` creates; unknown flags are refused.
/// `eventfd(initval)` is the same with no flags.
pub fn eventfd_plan(initval: u32, flags: u32) -> (r: Result<EventFdPlan, SyscallError>)
    ensures
        flags & !EFD_ALL != 0 ==> r == Err::<EventFdPlan, SyscallError>(
            SyscallError::InvalidArguments,
        ),
        flags & !EFD_ALL == 0 ==> r == Ok::<EventFdPlan, SyscallError>(
            EventFdPlan {
                initial_value: initval as u64,
                semaphore: flags & EFD_SEMAPHORE != 0,
                nonblock: flags & EFD_NONBLOCK != 0,
                cloexec: flags & EFD_CLOEXEC != 0,
            },
        ),
{
    if flags & !EFD_ALL != 0 {
        return Err(SyscallError::InvalidArguments);
    }
    Ok(
        EventFdPlan {
            initial_value: initval as u64,
            semaphore: flags & EFD_SEMAPHORE != 0,
            nonblock: flags & EFD_NONBLOCK != 0,
            cloexec: flags & EFD_CLOEXEC != 0,
        },
    )
}

/// How a new inotify object is set up: `(nonblock, cloexec)`.
pub fn inotify_init1_plan(flags: i32) -> (r: Result<(bool, bool), SyscallError>)
    ensures
        flags & !IN_ALL != 0 ==> r == Err::<(bool, bool), SyscallError>(
            SyscallError::InvalidArguments,
        ),
        flags & !IN_ALL == 0 ==> r == Ok::<(bool, bool), SyscallError>(
            (flags & IN_NONBLOCK != 0, flags & IN_CLOEXEC != 0),
        ),
{
    if flags & !IN_ALL != 0 {
        return Err(SyscallError::InvalidArguments);
    }
    Ok((flags & IN_NONBLOCK != 0, flags & IN_CLOEXEC != 0))
}

} // verus!
