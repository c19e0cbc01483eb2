use vstd::prelude::*;

verus! {

/// Errors that a system call hands back to user space.
#[derive(Clone, Copy, Debug, PartialEq, Eq, Structural)]
pub enum SyscallError {
    InvalidArguments,
    TryAgain,
    TimedOut,
    BadAddress,
    ResourceDeadlock,
    PermissionDenied,
    AccessDenied,
    NoMemory,
    FileAlreadyExists,
    OperationNotSupported,
    BadFileDescriptor,
    ReadOnlyFileSystem,
    NoDevice,
    NotADirectory,
    IsADirectory,
    FileNotFound,
    CrossDeviceLink,
    TooManySymbolicLinks,
    ArgumentListTooLong,
    PathTooLong,
    RangeError,
    NoData,
    NoKey,
    KeyRevoked,
    KeyExpired,
    QuotaExceeded,
    ValueTooLarge,
    FileTooLarge,
    NoSpaceLeft,
    BrokenPipe,
    NoSyscall,
    Interrupted,
    TooManyOpenFilesProcess,
    NoProcess,
    DeviceOrResourceBusy,
    IllegalSeek,
    /// An error without a Linux errno of its own (absolute paths only, and so on).
    Other,
}

} // verus!
