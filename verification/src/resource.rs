use vstd::prelude::*;
use crate::error::SyscallError;

verus! {

/// Whose I/O priority an `ioprio` call concerns.
#[derive(Clone, Copy, Debug, PartialEq, Eq, Structural)]
pub enum LinuxIoprioWho {
    Process,
    Pgrp,
    User,
}

impl LinuxIoprioWho {
    /// From the `which` argument: 1, 2 or 3.
    pub fn try_from_i32(which: i32) -> (r: Result<Self, SyscallError>)
        ensures
            r == if which == 1 {
                Ok::<LinuxIoprioWho, SyscallError>(LinuxIoprioWho::Process)
            } else if which == 2 {
                Ok(LinuxIoprioWho::Pgrp)
            } else if which == 3 {
                Ok(LinuxIoprioWho::User)
            } else {
                Err(SyscallError::InvalidArguments)
            },
    {
        match which {
            1 => Ok(LinuxIoprioWho::Process),
            2 => Ok(LinuxIoprioWho::Pgrp),
            3 => Ok(LinuxIoprioWho::User),
            _ => Err(SyscallError::InvalidArguments),
        }
    }
}

/// I/O scheduling classes.
#[derive(Clone, Copy, Debug, PartialEq, Eq, Structural)]
pub enum LinuxIoprioClass {
    Unset,
    Realtime,
    BestEffort,
    Idle,
}

pub const LINUX_IOPRIO_CLASS_SHIFT: u16 = 13;
pub const LINUX_IOPRIO_PRIO_MASK: u16 = 0x1fff;
pub const LINUX_IOPRIO_LEVEL_MAX: u16 = 7;

pub open spec fn ioprio_class_of(v: u16) -> Option<LinuxIoprioClass> {
    if v == 0 {
        Some(LinuxIoprioClass::Unset)
    } else if v == 1 {
        Some(LinuxIoprioClass::Realtime)
    } else if v == 2 {
        Some(LinuxIoprioClass::BestEffort)
    } else if v == 3 {
        Some(LinuxIoprioClass::Idle)
    } else {
        None
    }
}

/// Splits an I/O priority into its class (top three bits of sixteen) and level (at most 7).
pub fn decode_linux_ioprio(ioprio: i32) -> (r: Result<(LinuxIoprioClass, u16), SyscallError>)
    ensures
        r == if ioprio < 0 || ioprio > 0xffff {
            Err::<(LinuxIoprioClass, u16), SyscallError>(SyscallError::InvalidArguments)
        } else {
            let raw = ioprio as u16;
            match ioprio_class_of(raw >> 13u16) {
                None => Err(SyscallError::InvalidArguments),
                Some(c) => if raw & 0x1fff > 7 {
                    Err(SyscallError::InvalidArguments)
                } else {
                    Ok((c, raw & 0x1fff))
                },
            }
        },
{
    if ioprio < 0 || ioprio > 0xffff {
        return Err(SyscallError::InvalidArguments);
    }
    let raw = ioprio as u16;
    let class_bits = raw >> LINUX_IOPRIO_CLASS_SHIFT;
    let class = if class_bits == 0 {
        LinuxIoprioClass::Unset
    } else if class_bits == 1 {
        LinuxIoprioClass::Realtime
    } else if class_bits == 2 {
        LinuxIoprioClass::BestEffort
    } else if class_bits == 3 {
        LinuxIoprioClass::Idle
    } else {
        return Err(SyscallError::InvalidArguments);
    };
    let level = raw & LINUX_IOPRIO_PRIO_MASK;
    if level > LINUX_IOPRIO_LEVEL_MAX {
        return Err(SyscallError::InvalidArguments);
    }
    Ok((class, level))
}

/// Whose priority may be asked or set: the caller's own process (0 or its pid), or the
/// caller's group and user only as 0. Negative ids are invalid.
pub fn validate_linux_ioprio_target(which: LinuxIoprioWho, who: i32, current_pid: u64) -> (r: Result<
    (),
    SyscallError,
>)
    ensures
        r == if who < 0 {
            Err::<(), SyscallError>(SyscallError::InvalidArguments)
        } else if who == 0 {
            Ok(())
        } else if which == LinuxIoprioWho::Process && who == current_pid as i32 {
            Ok(())
        } else {
            Err(SyscallError::PermissionDenied)
        },
{
    if who < 0 {
        return Err(SyscallError::InvalidArguments);
    }
    match which {
        LinuxIoprioWho::Process => {
            if who == 0 {
                return Ok(());
            }
            let current = current_pid as i32;
            if who != current {
                return Err(SyscallError::PermissionDenied);
            }
            Ok(())
        },
        LinuxIoprioWho::Pgrp | LinuxIoprioWho::User => {
            if who == 0 {
                Ok(())
            } else {
                Err(SyscallError::PermissionDenied)
            }
        },
    }
}

/// The priority `ioprio_get` reports: best effort, level 0.
pub fn default_linux_ioprio() -> (r: usize)
    ensures
        r == 0x4000,
{
    let class: u16 = 2;
    assert((2u16 << 13u16) == 0x4000u16) by (bit_vector);
    (class << LINUX_IOPRIO_CLASS_SHIFT) as usize
}

/// Whether an I/O priority decodes: sixteen bits, a known class, a level of at most 7.
pub open spec fn ioprio_decodes(ioprio: i32) -> bool {
    0 <= ioprio <= 0xffff && (ioprio as u16) >> 13u16 <= 3 && (ioprio as u16) & 0x1fff <= 7
}

/// Whether `who` names a target that the caller may ask about: everyone's own (0), or the
/// calling process by its pid.
pub open spec fn ioprio_target_ok(which: i32, who: i32, current_pid: u64) -> bool {
    who == 0 || (which == 1 && who == current_pid as i32)
}

/// `ioprio_set`: the priority must decode and the target must be the caller; the
/// priority itself is not kept.
pub fn ioprio_set(which: i32, who: i32, ioprio: i32, current_pid: u64) -> (r: Result<
    usize,
    SyscallError,
>)
    ensures
        r == if !(1 <= which <= 3) || !ioprio_decodes(ioprio) || who < 0 {
            Err::<usize, SyscallError>(SyscallError::InvalidArguments)
        } else if ioprio_target_ok(which, who, current_pid) {
            Ok(0)
        } else {
            Err(SyscallError::PermissionDenied)
        },
{
    let w = LinuxIoprioWho::try_from_i32(which)?;
    let _ = decode_linux_ioprio(ioprio)?;
    validate_linux_ioprio_target(w, who, current_pid)?;
    Ok(0)
}

/// `ioprio_get`: every allowed target has the default best-effort priority.
pub fn ioprio_get(which: i32, who: i32, current_pid: u64) -> (r: Result<usize, SyscallError>)
    ensures
        r == if !(1 <= which <= 3) || who < 0 {
            Err::<usize, SyscallError>(SyscallError::InvalidArguments)
        } else if ioprio_target_ok(which, who, current_pid) {
            Ok(0x4000)
        } else {
            Err(SyscallError::PermissionDenied)
        },
{
    let w = LinuxIoprioWho::try_from_i32(which)?;
    validate_linux_ioprio_target(w, who, current_pid)?;
    Ok(default_linux_ioprio())
}


/// Resource limits a process has.
#[derive(Clone, Copy, Debug, PartialEq, Eq, Structural)]
pub enum RlimitResource {
    Cpu,
    Fsize,
    Data,
    Stack,
    Core,
    Rss,
    Nproc,
    NoFile,
    MemLock,
    As,
    Locks,
    Sigpending,
    Msgqueue,
    Nice,
    RtPrio,
    Rttime,
}

pub open spec fn rlimit_resource_of(v: u32) -> Option<RlimitResource> {
    if v == 0 {
        Some(RlimitResource::Cpu)
    } else if v == 1 {
        Some(RlimitResource::Fsize)
    } else if v == 2 {
        Some(RlimitResource::Data)
    } else if v == 3 {
        Some(RlimitResource::Stack)
    } else if v == 4 {
        Some(RlimitResource::Core)
    } else if v == 5 {
        Some(RlimitResource::Rss)
    } else if v == 6 {
        Some(RlimitResource::Nproc)
    } else if v == 7 {
        Some(RlimitResource::NoFile)
    } else if v == 8 {
        Some(RlimitResource::MemLock)
    } else if v == 9 {
        Some(RlimitResource::As)
    } else if v == 10 {
        Some(RlimitResource::Locks)
    } else if v == 11 {
        Some(RlimitResource::Sigpending)
    } else if v == 12 {
        Some(RlimitResource::Msgqueue)
    } else if v == 13 {
        Some(RlimitResource::Nice)
    } else if v == 14 {
        Some(RlimitResource::RtPrio)
    } else if v == 15 {
        Some(RlimitResource::Rttime)
    } else {
        None
    }
}

impl RlimitResource {
    /// From the resource number of `getrlimit` and its kin.
    pub fn try_from_u32(v: u32) -> (r: Result<Self, SyscallError>)
        ensures
            r == match rlimit_resource_of(v) {
                Some(x) => Ok::<RlimitResource, SyscallError>(x),
                None => Err(SyscallError::InvalidArguments),
            },
    {
        match v {
            0 => Ok(RlimitResource::Cpu),
            1 => Ok(RlimitResource::Fsize),
            2 => Ok(RlimitResource::Data),
            3 => Ok(RlimitResource::Stack),
            4 => Ok(RlimitResource::Core),
            5 => Ok(RlimitResource::Rss),
            6 => Ok(RlimitResource::Nproc),
            7 => Ok(RlimitResource::NoFile),
            8 => Ok(RlimitResource::MemLock),
            9 => Ok(RlimitResource::As),
            10 => Ok(RlimitResource::Locks),
            11 => Ok(RlimitResource::Sigpending),
            12 => Ok(RlimitResource::Msgqueue),
            13 => Ok(RlimitResource::Nice),
            14 => Ok(RlimitResource::RtPrio),
            15 => Ok(RlimitResource::Rttime),
            _ => Err(SyscallError::InvalidArguments),
        }
    }

    /// The resources whose limits a process keeps (and can change).
    pub open spec fn is_kept(self) -> bool {
        self is Data || self is Core || self is Fsize || self is Nproc || self is Stack
            || self is NoFile || self is MemLock || self is RtPrio
    }
}

pub const RLIM_INFINITY: u64 = u64::MAX;
pub const DEFAULT_RLIMIT_SIGPENDING: u64 = 4096;
pub const DEFAULT_RLIMIT_MSGQUEUE: u64 = 819_200;
pub const DEFAULT_RLIMIT_RTTIME: u64 = u64::MAX;

/// A soft and a hard limit.
#[derive(Clone, Copy, Debug, PartialEq, Eq, Structural)]
pub struct LinuxRlimit64 {
    pub rlim_cur: u64,
    pub rlim_max: u64,
}

/// The limits a process keeps.
#[derive(Clone, Copy, Debug, PartialEq, Eq, Structural)]
pub struct ProcessLimits {
    pub data: LinuxRlimit64,
    pub core: LinuxRlimit64,
    pub fsize: LinuxRlimit64,
    pub nproc: LinuxRlimit64,
    pub stack: LinuxRlimit64,
    pub nofile: LinuxRlimit64,
    pub memlock: LinuxRlimit64,
    pub rtprio: LinuxRlimit64,
}

/// The limit of a resource: what the process keeps, or a fixed value (unlimited for CPU,
/// resident size, address space, locks and nice; defaults for pending signals, message
/// queues and real-time CPU time).
pub open spec fn rlimit_spec(limits: ProcessLimits, resource: RlimitResource) -> LinuxRlimit64 {
    match resource {
        RlimitResource::Data => limits.data,
        RlimitResource::Core => limits.core,
        RlimitResource::Fsize => limits.fsize,
        RlimitResource::Nproc => limits.nproc,
        RlimitResource::Stack => limits.stack,
        RlimitResource::NoFile => limits.nofile,
        RlimitResource::MemLock => limits.memlock,
        RlimitResource::RtPrio => limits.rtprio,
        RlimitResource::Sigpending => LinuxRlimit64 { rlim_cur: 4096, rlim_max: 4096 },
        RlimitResource::Msgqueue => LinuxRlimit64 { rlim_cur: 819_200, rlim_max: 819_200 },
        RlimitResource::Rttime => LinuxRlimit64 { rlim_cur: u64::MAX, rlim_max: u64::MAX },
        _ => LinuxRlimit64 { rlim_cur: u64::MAX, rlim_max: u64::MAX },
    }
}

pub fn get_rlimit(limits: &ProcessLimits, resource: RlimitResource) -> (r: LinuxRlimit64)
    ensures
        r == rlimit_spec(*limits, resource),
{
    match resource {
        RlimitResource::Cpu | RlimitResource::Rss | RlimitResource::As | RlimitResource::Locks
        | RlimitResource::Nice => LinuxRlimit64 { rlim_cur: RLIM_INFINITY, rlim_max: RLIM_INFINITY },
        RlimitResource::Data => limits.data,
        RlimitResource::Core => limits.core,
        RlimitResource::Fsize => limits.fsize,
        RlimitResource::Nproc => limits.nproc,
        RlimitResource::Stack => limits.stack,
        RlimitResource::NoFile => limits.nofile,
        RlimitResource::MemLock => limits.memlock,
        RlimitResource::RtPrio => limits.rtprio,
        RlimitResource::Sigpending => LinuxRlimit64 {
            rlim_cur: DEFAULT_RLIMIT_SIGPENDING,
            rlim_max: DEFAULT_RLIMIT_SIGPENDING,
        },
        RlimitResource::Msgqueue => LinuxRlimit64 {
            rlim_cur: DEFAULT_RLIMIT_MSGQUEUE,
            rlim_max: DEFAULT_RLIMIT_MSGQUEUE,
        },
        RlimitResource::Rttime => LinuxRlimit64 {
            rlim_cur: DEFAULT_RLIMIT_RTTIME,
            rlim_max: DEFAULT_RLIMIT_RTTIME,
        },
    }
}

/// The limits after setting `resource` to `limit`: kept resources change, fixed ones do not.
pub open spec fn limits_after_set(limits: ProcessLimits, resource: RlimitResource, limit: LinuxRlimit64) -> ProcessLimits {
    match resource {
        RlimitResource::Data => ProcessLimits { data: limit, ..limits },
        RlimitResource::Core => ProcessLimits { core: limit, ..limits },
        RlimitResource::Fsize => ProcessLimits { fsize: limit, ..limits },
        RlimitResource::Nproc => ProcessLimits { nproc: limit, ..limits },
        RlimitResource::Stack => ProcessLimits { stack: limit, ..limits },
        RlimitResource::NoFile => ProcessLimits { nofile: limit, ..limits },
        RlimitResource::MemLock => ProcessLimits { memlock: limit, ..limits },
        RlimitResource::RtPrio => ProcessLimits { rtprio: limit, ..limits },
        _ => limits,
    }
}

pub fn set_rlimit(limits: &mut ProcessLimits, resource: RlimitResource, limit: LinuxRlimit64)
    ensures
        *final(limits) == limits_after_set(*old(limits), resource, limit),
{
    match resource {
        RlimitResource::Cpu | RlimitResource::Rss | RlimitResource::As | RlimitResource::Locks
        | RlimitResource::Sigpending | RlimitResource::Msgqueue | RlimitResource::Nice
        | RlimitResource::Rttime => {},
        RlimitResource::Core => {
            limits.core = limit;
        },
        RlimitResource::Fsize => {
            limits.fsize = limit;
        },
        RlimitResource::Data => {
            limits.data = limit;
        },
        RlimitResource::Nproc => {
            limits.nproc = limit;
        },
        RlimitResource::Stack => {
            limits.stack = limit;
        },
        RlimitResource::NoFile => {
            limits.nofile = limit;
        },
        RlimitResource::MemLock => {
            limits.memlock = limit;
        },
        RlimitResource::RtPrio => {
            limits.rtprio = limit;
        },
    }
}

/// Reading a limit back gives what was set, for the limits a process keeps; a fixed limit
/// reads the same before and after; and setting one limit leaves every other as it was.
pub proof fn lemma_rlimit_read_after_write(
    limits: ProcessLimits,
    resource: RlimitResource,
    limit: LinuxRlimit64,
    other: RlimitResource,
)
    ensures
        resource.is_kept() ==> rlimit_spec(limits_after_set(limits, resource, limit), resource) == limit,
        !resource.is_kept() ==> rlimit_spec(limits_after_set(limits, resource, limit), resource)
            == rlimit_spec(limits, resource),
        other != resource ==> rlimit_spec(limits_after_set(limits, resource, limit), other)
            == rlimit_spec(limits, other),
{
}

/// `prlimit64` for the caller (pid 0 only): the old limit to report, when asked, and the
/// limits after the new one, when given (`new_limit` is what reading it gave).
pub fn prlimit64(
    limits: &mut ProcessLimits,
    pid: i32,
    resource: u32,
    new_limit: Option<Result<LinuxRlimit64, SyscallError>>,
    want_old: bool,
) -> (r: Result<Option<LinuxRlimit64>, SyscallError>)
    ensures
        pid != 0 ==> r == Err::<Option<LinuxRlimit64>, SyscallError>(SyscallError::InvalidArguments)
            && *final(limits) == *old(limits),
        pid == 0 && rlimit_resource_of(resource) is None ==> r == Err::<Option<LinuxRlimit64>, SyscallError>(
            SyscallError::InvalidArguments,
        ) && *final(limits) == *old(limits),
        pid == 0 && rlimit_resource_of(resource) is Some ==> {
            let res = rlimit_resource_of(resource)->Some_0;
            match new_limit {
                Some(Err(e)) => r == Err::<Option<LinuxRlimit64>, SyscallError>(e) && *final(limits)
                    == *old(limits),
                Some(Ok(l)) => r == Ok::<Option<LinuxRlimit64>, SyscallError>(
                    if want_old { Some(rlimit_spec(*old(limits), res)) } else { None },
                ) && *final(limits) == limits_after_set(*old(limits), res, l),
                None => r == Ok::<Option<LinuxRlimit64>, SyscallError>(
                    if want_old { Some(rlimit_spec(*old(limits), res)) } else { None },
                ) && *final(limits) == *old(limits),
            }
        },
{
    if pid != 0 {
        return Err(SyscallError::InvalidArguments);
    }
    let resource = RlimitResource::try_from_u32(resource)?;
    let new_limit_value = match new_limit {
        None => None,
        Some(read) => Some(read?),
    };
    let old_limit = if want_old { Some(get_rlimit(limits, resource)) } else { None };
    if let Some(limit) = new_limit_value {
        set_rlimit(limits, resource, limit);
    }
    Ok(old_limit)
}

/// The restartable-sequence area the kernel writes for a thread.
#[derive(Clone, Copy, Debug, PartialEq, Eq, Structural)]
pub struct LinuxRseq {
    pub cpu_id_start: u32,
    pub cpu_id: u32,
    pub rseq_cs: u64,
    pub flags: u32,
}

pub const RSEQ_CPU_ID_UNINITIALIZED: u32 = u32::MAX;
pub const RSEQ_CPU_ID_SINGLE_CORE: u32 = 0;

/// The area to write: on registration the CPU ids read 0 (there is one CPU), on
/// unregistration they read as uninitialized. A null area is a bad address.
pub fn write_rseq_area(rseq_is_null: bool, registered: bool) -> (r: Result<LinuxRseq, SyscallError>)
    ensures
        r == if rseq_is_null {
            Err::<LinuxRseq, SyscallError>(SyscallError::BadAddress)
        } else {
            let id = if registered { 0u32 } else { u32::MAX };
            Ok(LinuxRseq { cpu_id_start: id, cpu_id: id, rseq_cs: 0, flags: 0 })
        },
{
    if rseq_is_null {
        return Err(SyscallError::BadAddress);
    }
    let mut rseq = LinuxRseq {
        cpu_id_start: RSEQ_CPU_ID_UNINITIALIZED,
        cpu_id: RSEQ_CPU_ID_UNINITIALIZED,
        rseq_cs: 0,
        flags: 0,
    };
    if registered {
        rseq.cpu_id_start = RSEQ_CPU_ID_SINGLE_CORE;
        rseq.cpu_id = RSEQ_CPU_ID_SINGLE_CORE;
    }
    Ok(rseq)
}

} // verus!
