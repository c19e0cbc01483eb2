use vstd::prelude::*;
use crate::error::SyscallError;

verus! {

/// The size of a robust futex list head on x86-64.
pub const ROBUST_LIST_HEAD_LEN_X86_64: usize = 24;
/// The size of `struct rseq` on x86-64.
pub const RSEQ_LEN_X86_64: u32 = 32;
/// The one flag that `rseq` knows: unregister the area.
pub const RSEQ_FLAG_UNREGISTER: u32 = 1;

/// A thread's robust futex list, as `set_robust_list` records it.
#[derive(Clone, Copy, Debug, PartialEq, Eq, Structural)]
pub struct RobustList {
    pub head: u64,
    pub len: usize,
}

/// Records the robust list of the calling thread; the head must have the x86-64 size.
pub fn set_robust_list(list: &mut RobustList, head: u64, len: usize) -> (r: Result<(), SyscallError>)
    ensures
        len != ROBUST_LIST_HEAD_LEN_X86_64 ==> r == Err::<(), SyscallError>(
            SyscallError::InvalidArguments,
        ) && *final(list) == *old(list),
        len == ROBUST_LIST_HEAD_LEN_X86_64 ==> r is Ok && *final(list) == (RobustList {
            head,
            len,
        }),
{
    if len != ROBUST_LIST_HEAD_LEN_X86_64 {
        return Err(SyscallError::InvalidArguments);
    }
    list.head = head;
    list.len = len;
    Ok(())
}

/// A thread's restartable-sequence registration; `area == 0` where there is none.
#[derive(Clone, Copy, Debug, PartialEq, Eq, Structural)]
pub struct RseqRegistration {
    pub area: u64,
    pub len: u32,
    pub flags: u32,
    pub sig: u32,
}

/// No registration.
pub open spec fn no_registration() -> RseqRegistration {
    RseqRegistration { area: 0, len: 0, flags: 0, sig: 0 }
}

/// What an accepted `rseq` call does once the area has been written.
#[derive(Clone, Copy, Debug, PartialEq, Eq, Structural)]
pub enum RseqRequest {
    Register,
    Unregister,
}

/// The decision of `rseq`: which request the call is, or why it is refused.
pub open spec fn rseq_decision(
    current: RseqRegistration,
    rseq_ptr: u64,
    rseq_len: u32,
    flags: u32,
    sig: u32,
) -> Result<RseqRequest, SyscallError> {
    if flags & !RSEQ_FLAG_UNREGISTER != 0 || rseq_len != RSEQ_LEN_X86_64 {
        Err(SyscallError::InvalidArguments)
    } else if flags & RSEQ_FLAG_UNREGISTER != 0 {
        if current.area != rseq_ptr || current.len != rseq_len || current.sig != sig {
            Err(SyscallError::InvalidArguments)
        } else {
            Ok(RseqRequest::Unregister)
        }
    } else if rseq_ptr == 0 {
        Err(SyscallError::InvalidArguments)
    } else if current.area != 0 {
        Err(SyscallError::DeviceOrResourceBusy)
    } else {
        Ok(RseqRequest::Register)
    }
}

/// The checks of `rseq` against the thread's current registration.
pub fn rseq_check(
    current: &RseqRegistration,
    rseq_ptr: u64,
    rseq_len: u32,
    flags: u32,
    sig: u32,
) -> (r: Result<RseqRequest, SyscallError>)
    ensures
        r == rseq_decision(*current, rseq_ptr, rseq_len, flags, sig),
{
    if flags & !RSEQ_FLAG_UNREGISTER != 0 || rseq_len != RSEQ_LEN_X86_64 {
        return Err(SyscallError::InvalidArguments);
    }
    if flags & RSEQ_FLAG_UNREGISTER != 0 {
        if current.area != rseq_ptr || current.len != rseq_len || current.sig != sig {
            return Err(SyscallError::InvalidArguments);
        }
        return Ok(RseqRequest::Unregister);
    }
    if rseq_ptr == 0 {
        return Err(SyscallError::InvalidArguments);
    }
    if current.area != 0 {
        return Err(SyscallError::DeviceOrResourceBusy);
    }
    Ok(RseqRequest::Register)
}

/// The registration after an accepted request whose area write succeeded.
pub open spec fn registration_after(
    request: RseqRequest,
    rseq_ptr: u64,
    rseq_len: u32,
    flags: u32,
    sig: u32,
) -> RseqRegistration {
    match request {
        RseqRequest::Register => RseqRegistration { area: rseq_ptr, len: rseq_len, flags, sig },
        RseqRequest::Unregister => no_registration(),
    }
}

/// Records the outcome of an accepted `rseq` request.
pub fn apply_rseq_request(
    current: &mut RseqRegistration,
    request: RseqRequest,
    rseq_ptr: u64,
    rseq_len: u32,
    flags: u32,
    sig: u32,
)
    ensures
        *final(current) == registration_after(request, rseq_ptr, rseq_len, flags, sig),
{
    match request {
        RseqRequest::Register => {
            current.area = rseq_ptr;
            current.len = rseq_len;
            current.flags = flags;
            current.sig = sig;
        },
        RseqRequest::Unregister => {
            current.area = 0;
            current.len = 0;
            current.flags = 0;
            current.sig = 0;
        },
    }
}

/// A thread without a registration can register an area, unregister it again with the
/// same address, length and signature, and is then back without a registration; while
/// registered, a second registration is refused as busy.
pub proof fn lemma_unregister_undoes_register(rseq_ptr: u64, sig: u32)
    requires
        rseq_ptr != 0,
    ensures
        rseq_decision(no_registration(), rseq_ptr, RSEQ_LEN_X86_64, 0, sig) == Ok::<
            RseqRequest,
            SyscallError,
        >(RseqRequest::Register),
        ({
            let registered = registration_after(
                RseqRequest::Register,
                rseq_ptr,
                RSEQ_LEN_X86_64,
                0,
                sig,
            );
            &&& rseq_decision(registered, rseq_ptr, RSEQ_LEN_X86_64, 0, sig) == Err::<
                RseqRequest,
                SyscallError,
            >(SyscallError::DeviceOrResourceBusy)
            &&& rseq_decision(
                registered,
                rseq_ptr,
                RSEQ_LEN_X86_64,
                RSEQ_FLAG_UNREGISTER,
                sig,
            ) == Ok::<RseqRequest, SyscallError>(RseqRequest::Unregister)
            &&& registration_after(
                RseqRequest::Unregister,
                rseq_ptr,
                RSEQ_LEN_X86_64,
                RSEQ_FLAG_UNREGISTER,
                sig,
            ) == no_registration()
        }),
{
    assert(0u32 & !1u32 == 0 && 0u32 & 1u32 == 0 && 1u32 & !1u32 == 0 && 1u32 & 1u32 != 0)
        by (bit_vector);
}

} // verus!
