use vstd::prelude::*;
use crate::error::SyscallError;

verus! {

/// The `arch_prctl` codes this kernel answers.
pub const ARCH_SET_FS: u64 = 0x1002;
pub const ARCH_GET_FS: u64 = 0x1003;

/// Whether `addr` is a canonical x86-64 virtual address: bits 48 to 63 copy bit 47.
pub open spec fn is_canonical(addr: u64) -> bool {
    addr < 0x0000_8000_0000_0000 || addr >= 0xffff_8000_0000_0000
}

pub fn canonical_address(addr: u64) -> (r: bool)
    ensures
        r == is_canonical(addr),
{
    addr < 0x0000_8000_0000_0000 || addr >= 0xffff_8000_0000_0000
}

/// `x86_64::VirtAddr::new(addr)`, as the address it holds. That constructor panics unless
/// `addr` is canonical (bits 48 to 63 a sign extension of bit 47), and a canonical address
/// comes back unchanged from `as_u64`.
#[verifier::external_body]
fn virt_addr_new(addr: u64) -> (r: u64)
    requires
        is_canonical(addr),
    ensures
        r == addr,
{
    x86_64::VirtAddr::new(addr).as_u64()
}

/// What an `arch_prctl` call does with the thread's FS base register.
#[derive(Clone, Copy, Debug, PartialEq, Eq, Structural)]
pub enum ArchPrctlAction {
    /// Load this address into the FS base.
    SetFsBase(u64),
    /// Write the FS base, as a `u64`, to user memory at this address.
    StoreFsBaseAt(u64),
}

/// `arch_prctl(code, addr)`: unknown codes are invalid. A new FS base must be a canonical
/// address (it goes through `VirtAddr::new`, which refuses anything else).
pub fn arch_prctl_plan(code: u64, addr: u64) -> (r: Result<ArchPrctlAction, SyscallError>)
    requires
        code == ARCH_SET_FS ==> is_canonical(addr),
    ensures
        r == if code == ARCH_SET_FS {
            Ok::<ArchPrctlAction, SyscallError>(ArchPrctlAction::SetFsBase(addr))
        } else if code == ARCH_GET_FS {
            Ok(ArchPrctlAction::StoreFsBaseAt(addr))
        } else {
            Err(SyscallError::InvalidArguments)
        },
{
    if code == ARCH_SET_FS {
        Ok(ArchPrctlAction::SetFsBase(virt_addr_new(addr)))
    } else if code == ARCH_GET_FS {
        Ok(ArchPrctlAction::StoreFsBaseAt(addr))
    } else {
        Err(SyscallError::InvalidArguments)
    }
}

} // verus!
