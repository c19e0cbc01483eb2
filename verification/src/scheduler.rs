use vstd::prelude::*;
use crate::error::SyscallError;

verus! {

/// Scheduling policies.
#[derive(Clone, Copy, Debug, PartialEq, Eq, Structural)]
pub enum LinuxSchedPolicy {
    Other,
    Fifo,
    RoundRobin,
    Batch,
    Idle,
}

/// The number of each policy.
pub open spec fn policy_number(p: LinuxSchedPolicy) -> u64 {
    match p {
        LinuxSchedPolicy::Other => 0,
        LinuxSchedPolicy::Fifo => 1,
        LinuxSchedPolicy::RoundRobin => 2,
        LinuxSchedPolicy::Batch => 3,
        LinuxSchedPolicy::Idle => 5,
    }
}

impl LinuxSchedPolicy {
    /// The policy with number `v`, if there is one.
    pub fn try_from_u64(v: u64) -> (r: Option<LinuxSchedPolicy>)
        ensures
            match r {
                Some(p) => policy_number(p) == v,
                None => v != 0 && v != 1 && v != 2 && v != 3 && v != 5,
            },
    {
        match v {
            0 => Some(LinuxSchedPolicy::Other),
            1 => Some(LinuxSchedPolicy::Fifo),
            2 => Some(LinuxSchedPolicy::RoundRobin),
            3 => Some(LinuxSchedPolicy::Batch),
            5 => Some(LinuxSchedPolicy::Idle),
            _ => None,
        }
    }

    /// Real-time policies take priorities 1 to 99, the others only 0.
    pub open spec fn is_realtime(self) -> bool {
        self == LinuxSchedPolicy::Fifo || self == LinuxSchedPolicy::RoundRobin
    }

    pub fn min_priority(&self) -> (r: i32)
        ensures
            r == if self.is_realtime() {
                1i32
            } else {
                0
            },
    {
        match self {
            LinuxSchedPolicy::Fifo | LinuxSchedPolicy::RoundRobin => 1,
            _ => 0,
        }
    }

    pub fn max_priority(&self) -> (r: i32)
        ensures
            r == if self.is_realtime() {
                99i32
            } else {
                0
            },
    {
        match self {
            LinuxSchedPolicy::Fifo | LinuxSchedPolicy::RoundRobin => 99,
            _ => 0,
        }
    }
}

/// `sched_setparam` and `sched_setscheduler`: a pid of zero or more, a parameter block, and
/// a priority the policy takes (`None` for `sched_setparam`, which takes any priority of
/// zero or more). `priority` is what reading the block gave.
pub fn sched_setparam_check(
    pid: i32,
    param_is_null: bool,
    priority: Result<i32, SyscallError>,
    policy: Option<LinuxSchedPolicy>,
) -> (r: Result<(), SyscallError>)
    ensures
        r == if pid < 0 {
            Err::<(), SyscallError>(SyscallError::InvalidArguments)
        } else if param_is_null {
            Err(SyscallError::BadAddress)
        } else {
            match priority {
                Err(e) => Err(e),
                Ok(p) => match policy {
                    None => if p < 0 {
                        Err(SyscallError::InvalidArguments)
                    } else {
                        Ok(())
                    },
                    Some(pol) => if p < (if pol.is_realtime() {
                        1i32
                    } else {
                        0
                    }) || p > (if pol.is_realtime() {
                        99i32
                    } else {
                        0
                    }) {
                        Err(SyscallError::InvalidArguments)
                    } else {
                        Ok(())
                    },
                },
            }
        },
{
    if pid < 0 {
        return Err(SyscallError::InvalidArguments);
    }
    if param_is_null {
        return Err(SyscallError::BadAddress);
    }
    let p = priority?;
    match policy {
        None => if p < 0 {
            Err(SyscallError::InvalidArguments)
        } else {
            Ok(())
        },
        Some(pol) => if p < pol.min_priority() || p > pol.max_priority() {
            Err(SyscallError::InvalidArguments)
        } else {
            Ok(())
        },
    }
}

/// `sched_getparam` and `sched_getscheduler`: a pid of zero or more (and, for the former, a
/// buffer, which gets priority 0).
pub fn sched_get_check(pid: i32, param_is_null: bool) -> (r: Result<(), SyscallError>)
    ensures
        r == if pid < 0 {
            Err::<(), SyscallError>(SyscallError::InvalidArguments)
        } else if param_is_null {
            Err(SyscallError::BadAddress)
        } else {
            Ok(())
        },
{
    if pid < 0 {
        return Err(SyscallError::InvalidArguments);
    }
    if param_is_null {
        return Err(SyscallError::BadAddress);
    }
    Ok(())
}

/// `iopl` takes levels 0 to 3.
pub fn iopl_check(level: i32) -> (r: Result<(), SyscallError>)
    ensures
        r == if 0 <= level <= 3 {
            Ok::<(), SyscallError>(())
        } else {
            Err(SyscallError::InvalidArguments)
        },
{
    if 0 <= level && level <= 3 {
        Ok(())
    } else {
        Err(SyscallError::InvalidArguments)
    }
}

/// `sched_setaffinity`: a pid of zero or more, a nonempty mask, and a pointer to it.
pub fn sched_setaffinity_check(pid: i32, cpusetsize: usize, mask_is_null: bool) -> (r: Result<(), SyscallError>)
    ensures
        r == if pid < 0 || cpusetsize == 0 {
            Err::<(), SyscallError>(SyscallError::InvalidArguments)
        } else if mask_is_null {
            Err(SyscallError::BadAddress)
        } else {
            Ok(())
        },
{
    if pid < 0 || cpusetsize == 0 {
        return Err(SyscallError::InvalidArguments);
    }
    if mask_is_null {
        return Err(SyscallError::BadAddress);
    }
    Ok(())
}

/// The mask `sched_getaffinity` stores: CPU 0 only, `cpusetsize` bytes (at least a word).
pub fn sched_getaffinity_mask(pid: i32, cpusetsize: usize) -> (r: Result<Vec<u8>, SyscallError>)
    ensures
        pid < 0 || cpusetsize < 8 ==> r == Err::<Vec<u8>, SyscallError>(SyscallError::InvalidArguments),
        !(pid < 0 || cpusetsize < 8) ==> r is Ok && r->Ok_0@ == Seq::new(
            cpusetsize as nat,
            |i: int| if i == 0 { 1u8 } else { 0u8 },
        ),
{
    if pid < 0 || cpusetsize < 8 {
        return Err(SyscallError::InvalidArguments);
    }
    let mut mask: Vec<u8> = Vec::new();
    let mut i: usize = 0;
    while i < cpusetsize
        invariant
            i <= cpusetsize,
            mask@ == Seq::new(i as nat, |k: int| if k == 0 { 1u8 } else { 0u8 }),
        decreases cpusetsize - i,
    {
        mask.push(if i == 0 { 1 } else { 0 });
        i += 1;
        assert(mask@ =~= Seq::new(i as nat, |k: int| if k == 0 { 1u8 } else { 0u8 }));
    }
    Ok(mask)
}

} // verus!
