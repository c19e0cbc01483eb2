use vstd::prelude::*;
use crate::error::SyscallError;

verus! {

/// `clone` flags.
pub const CLONE_VM: u64 = 0x0000_0100;
pub const CLONE_FS: u64 = 0x0000_0200;
pub const CLONE_FILES: u64 = 0x0000_0400;
pub const CLONE_SIGHAND: u64 = 0x0000_0800;
pub const CLONE_PIDFD: u64 = 0x0000_1000;
pub const CLONE_VFORK: u64 = 0x0000_4000;
pub const CLONE_PARENT: u64 = 0x0000_8000;
pub const CLONE_THREAD: u64 = 0x0001_0000;
pub const CLONE_NEWNS: u64 = 0x0002_0000;
pub const CLONE_SYSVSEM: u64 = 0x0004_0000;
pub const CLONE_SETTLS: u64 = 0x0008_0000;
pub const CLONE_PARENT_SETTID: u64 = 0x0010_0000;
pub const CLONE_CHILD_CLEARTID: u64 = 0x0020_0000;
pub const CLONE_CHILD_SETTID: u64 = 0x0100_0000;
pub const CLONE_NEWCGROUP: u64 = 0x0200_0000;
pub const CLONE_NEWUTS: u64 = 0x0400_0000;
pub const CLONE_NEWIPC: u64 = 0x0800_0000;
pub const CLONE_NEWUSER: u64 = 0x1000_0000;
pub const CLONE_NEWPID: u64 = 0x2000_0000;
pub const CLONE_NEWNET: u64 = 0x4000_0000;
pub const CLONE_CLEAR_SIGHAND: u64 = 0x1_0000_0000;
pub const CLONE_INTO_CGROUP: u64 = 0x2_0000_0000;

/// Every flag this kernel knows; others are dropped from `clone`'s flags.
pub const CLONE_KNOWN_FLAGS: u64 = 0x3_7f3f_df00;

/// What a new process may ask for: the exit signal byte and every known flag but
/// `CLONE_THREAD`.
pub const CLONE_PROCESS_FLAGS: u64 = 0x3_7f3e_dfff;

/// The five flags that a new thread must carry.
pub const CLONE_THREAD_REQUIRED: u64 = 0x0001_0f00;

/// Whether `flags` has every bit of `flag`.
pub open spec fn has_flag(flags: u64, flag: u64) -> bool {
    flags & flag == flag
}

/// The arguments of a request for a new process.
#[derive(Clone, Copy, Debug, PartialEq, Eq, Structural)]
pub struct CloneProcessArgs {
    /// The known flags.
    pub clone_flags: u64,
    /// The flags as the caller gave them.
    pub raw_flags: u64,
    pub exit_signal: u8,
    pub stack_pointer: u64,
    pub parent_tid: u64,
    pub child_tid: u64,
    pub tls: u64,
    pub pidfd_ptr: u64,
    pub cgroup_fd: u64,
}

/// What creating the process then does, step by step.
#[derive(Clone, Copy, Debug, PartialEq, Eq, Structural)]
pub struct ClonePlan {
    /// The parent waits until the child execs or exits.
    pub vfork: bool,
    /// Read the tid words first, so that a bad address fails before the child exists.
    pub prefault_parent_tid: bool,
    pub prefault_child_tid: bool,
    pub share_fd_table: bool,
    pub share_fs_context: bool,
    pub share_addrspace: bool,
    pub new_net_namespace: bool,
    pub new_mount_namespace: bool,
    pub new_uts_namespace: bool,
    pub new_ipc_namespace: bool,
    /// The child gets the caller's parent.
    pub inherit_parent: bool,
    /// The signal the parent gets when the child exits; zero keeps the default.
    pub exit_signal: u8,
    /// The cgroup directory (by descriptor) the child starts in.
    pub into_cgroup: Option<u64>,
    pub clear_signal_handlers: bool,
    /// The child's stack pointer, where one was given.
    pub child_stack: Option<u64>,
    /// The child's thread pointer, where one was given.
    pub child_tls: Option<u64>,
    /// Where the child's pid goes in the parent (and, sharing memory, in the child too).
    pub parent_tid_at: Option<u64>,
    pub parent_tid_in_child: bool,
    /// Where the child's pid goes in the child.
    pub child_tid_at: Option<u64>,
    /// The word the child clears (and wakes) when it exits.
    pub clear_child_tid: Option<u64>,
    /// Where the new pidfd's number goes.
    pub pidfd_at: Option<u64>,
}

/// Why `clone_process` refuses its arguments, if it does.
pub open spec fn clone_process_check(args: CloneProcessArgs) -> Result<(), SyscallError> {
    let f = args.clone_flags;
    if args.raw_flags & !CLONE_PROCESS_FLAGS != 0 {
        Err(SyscallError::NoSyscall)
    } else if has_flag(f, CLONE_PIDFD) && args.pidfd_ptr == 0 {
        Err(SyscallError::BadAddress)
    } else if has_flag(f, CLONE_PIDFD) && has_flag(f, CLONE_PARENT_SETTID) && args.pidfd_ptr == args.parent_tid {
        Err(SyscallError::NoSyscall)
    } else if has_flag(f, CLONE_INTO_CGROUP) && args.cgroup_fd == 0 {
        Err(SyscallError::InvalidArguments)
    } else {
        Ok(())
    }
}

/// The plan for accepted arguments.
pub open spec fn clone_plan_spec(args: CloneProcessArgs) -> ClonePlan {
    let f = args.clone_flags;
    ClonePlan {
        vfork: has_flag(f, CLONE_VFORK),
        prefault_parent_tid: has_flag(f, CLONE_VM) && has_flag(f, CLONE_PARENT_SETTID),
        prefault_child_tid: has_flag(f, CLONE_VM) && (has_flag(f, CLONE_CHILD_SETTID) || has_flag(
            f,
            CLONE_CHILD_CLEARTID,
        )),
        share_fd_table: has_flag(f, CLONE_FILES),
        share_fs_context: has_flag(f, CLONE_FS),
        share_addrspace: has_flag(f, CLONE_VM),
        new_net_namespace: has_flag(f, CLONE_NEWNET),
        new_mount_namespace: has_flag(f, CLONE_NEWNS),
        new_uts_namespace: has_flag(f, CLONE_NEWUTS),
        new_ipc_namespace: has_flag(f, CLONE_NEWIPC),
        inherit_parent: has_flag(f, CLONE_PARENT),
        exit_signal: args.exit_signal,
        into_cgroup: if has_flag(f, CLONE_INTO_CGROUP) {
            Some(args.cgroup_fd)
        } else {
            None
        },
        clear_signal_handlers: has_flag(f, CLONE_CLEAR_SIGHAND),
        child_stack: if args.stack_pointer != 0 {
            Some(args.stack_pointer)
        } else {
            None
        },
        child_tls: if has_flag(f, CLONE_SETTLS) {
            Some(args.tls)
        } else {
            None
        },
        parent_tid_at: if has_flag(f, CLONE_PARENT_SETTID) {
            Some(args.parent_tid)
        } else {
            None
        },
        parent_tid_in_child: has_flag(f, CLONE_PARENT_SETTID) && has_flag(f, CLONE_VM),
        child_tid_at: if has_flag(f, CLONE_CHILD_SETTID) {
            Some(args.child_tid)
        } else {
            None
        },
        clear_child_tid: if has_flag(f, CLONE_CHILD_CLEARTID) {
            Some(args.child_tid)
        } else {
            None
        },
        pidfd_at: if has_flag(f, CLONE_PIDFD) {
            Some(args.pidfd_ptr)
        } else {
            None
        },
    }
}

/// `flags` has every bit of `flag`.
pub fn contains_flag(flags: u64, flag: u64) -> (r: bool)
    ensures
        r == has_flag(flags, flag),
{
    flags & flag == flag
}

/// The checks and the plan of creating a process: unsupported flags, a pidfd without a
/// place to put it (or in the same place as the parent's tid) and a cgroup without a
/// descriptor are refused; otherwise every flag becomes a step of the plan.
pub fn clone_process(args: CloneProcessArgs) -> (r: Result<ClonePlan, SyscallError>)
    ensures
        r == match clone_process_check(args) {
            Err(e) => Err(e),
            Ok(()) => Ok(clone_plan_spec(args)),
        },
{
    let f = args.clone_flags;
    if args.raw_flags & !CLONE_PROCESS_FLAGS != 0 {
        return Err(SyscallError::NoSyscall);
    }
    let pidfd = contains_flag(f, CLONE_PIDFD);
    if pidfd && args.pidfd_ptr == 0 {
        return Err(SyscallError::BadAddress);
    }
    if pidfd && contains_flag(f, CLONE_PARENT_SETTID) && args.pidfd_ptr == args.parent_tid {
        return Err(SyscallError::NoSyscall);
    }
    if contains_flag(f, CLONE_INTO_CGROUP) && args.cgroup_fd == 0 {
        return Err(SyscallError::InvalidArguments);
    }
    let share_vm = contains_flag(f, CLONE_VM);
    let parent_settid = contains_flag(f, CLONE_PARENT_SETTID);
    Ok(ClonePlan {
        vfork: contains_flag(f, CLONE_VFORK),
        prefault_parent_tid: share_vm && parent_settid,
        prefault_child_tid: share_vm && (contains_flag(f, CLONE_CHILD_SETTID) || contains_flag(
            f,
            CLONE_CHILD_CLEARTID,
        )),
        share_fd_table: contains_flag(f, CLONE_FILES),
        share_fs_context: contains_flag(f, CLONE_FS),
        share_addrspace: share_vm,
        new_net_namespace: contains_flag(f, CLONE_NEWNET),
        new_mount_namespace: contains_flag(f, CLONE_NEWNS),
        new_uts_namespace: contains_flag(f, CLONE_NEWUTS),
        new_ipc_namespace: contains_flag(f, CLONE_NEWIPC),
        inherit_parent: contains_flag(f, CLONE_PARENT),
        exit_signal: args.exit_signal,
        into_cgroup: if contains_flag(f, CLONE_INTO_CGROUP) {
            Some(args.cgroup_fd)
        } else {
            None
        },
        clear_signal_handlers: contains_flag(f, CLONE_CLEAR_SIGHAND),
        child_stack: if args.stack_pointer != 0 {
            Some(args.stack_pointer)
        } else {
            None
        },
        child_tls: if contains_flag(f, CLONE_SETTLS) {
            Some(args.tls)
        } else {
            None
        },
        parent_tid_at: if parent_settid {
            Some(args.parent_tid)
        } else {
            None
        },
        parent_tid_in_child: parent_settid && share_vm,
        child_tid_at: if contains_flag(f, CLONE_CHILD_SETTID) {
            Some(args.child_tid)
        } else {
            None
        },
        clear_child_tid: if contains_flag(f, CLONE_CHILD_CLEARTID) {
            Some(args.child_tid)
        } else {
            None
        },
        pidfd_at: if pidfd {
            Some(args.pidfd_ptr)
        } else {
            None
        },
    })
}


/// The flag sets above are the unions they stand for.
pub proof fn lemma_clone_flag_sets()
    ensures
        CLONE_KNOWN_FLAGS == CLONE_VM | CLONE_FS | CLONE_FILES | CLONE_SIGHAND | CLONE_PIDFD
            | CLONE_VFORK | CLONE_PARENT | CLONE_THREAD | CLONE_NEWNS | CLONE_SYSVSEM
            | CLONE_SETTLS | CLONE_PARENT_SETTID | CLONE_CHILD_CLEARTID | CLONE_CHILD_SETTID
            | CLONE_NEWCGROUP | CLONE_NEWUTS | CLONE_NEWIPC | CLONE_NEWUSER | CLONE_NEWPID
            | CLONE_NEWNET | CLONE_CLEAR_SIGHAND | CLONE_INTO_CGROUP,
        CLONE_PROCESS_FLAGS == 0xff | (CLONE_KNOWN_FLAGS & !CLONE_THREAD),
        CLONE_THREAD_REQUIRED == CLONE_VM | CLONE_FS | CLONE_FILES | CLONE_SIGHAND | CLONE_THREAD,
{
    assert(0x3_7f3f_df00u64 == 0x100u64 | 0x200u64 | 0x400u64 | 0x800u64 | 0x1000u64 | 0x4000u64
        | 0x8000u64 | 0x10000u64 | 0x20000u64 | 0x40000u64 | 0x80000u64 | 0x100000u64
        | 0x200000u64 | 0x1000000u64 | 0x2000000u64 | 0x4000000u64 | 0x8000000u64
        | 0x10000000u64 | 0x20000000u64 | 0x40000000u64 | 0x1_0000_0000u64 | 0x2_0000_0000u64)
        by (bit_vector);
    assert(0x3_7f3e_dfffu64 == 0xffu64 | (0x3_7f3f_df00u64 & !0x10000u64)) by (bit_vector);
    assert(0x0001_0f00u64 == 0x100u64 | 0x200u64 | 0x400u64 | 0x800u64 | 0x10000u64) by (bit_vector);
}

/// What a new thread gets: registers and the tid words to fill or clear.
#[derive(Clone, Copy, Debug, PartialEq, Eq, Structural)]
pub struct ThreadClonePlan {
    pub child_stack: Option<u64>,
    pub child_tls: Option<u64>,
    pub clear_child_tid: Option<u64>,
    pub parent_tid_at: Option<u64>,
    pub child_tid_at: Option<u64>,
}

/// Where a `clone` request goes: a new process, or a new thread of the caller.
#[derive(Clone, Copy, Debug, PartialEq, Eq, Structural)]
pub enum CloneRoute {
    Process(CloneProcessArgs),
    Thread(ThreadClonePlan),
}

pub open spec fn thread_plan_spec(
    flags: u64,
    stack_pointer: u64,
    parent_tid: u64,
    child_tid: u64,
    tls: u64,
) -> ThreadClonePlan {
    ThreadClonePlan {
        child_stack: if stack_pointer != 0 {
            Some(stack_pointer)
        } else {
            None
        },
        child_tls: if has_flag(flags, CLONE_SETTLS) {
            Some(tls)
        } else {
            None
        },
        clear_child_tid: if has_flag(flags, CLONE_CHILD_CLEARTID) {
            Some(child_tid)
        } else {
            None
        },
        parent_tid_at: if has_flag(flags, CLONE_PARENT_SETTID) {
            Some(parent_tid)
        } else {
            None
        },
        child_tid_at: if has_flag(flags, CLONE_CHILD_SETTID) {
            Some(child_tid)
        } else {
            None
        },
    }
}

/// What `clone` does with its arguments: without `CLONE_THREAD` a process (vfork only with
/// shared memory and shared memory only with vfork, the pidfd going where the parent tid
/// would); with it a thread, which must share memory, files, fs and handlers, and cannot
/// get a network namespace.
pub open spec fn clone_route_spec(
    flags: u64,
    stack_pointer: u64,
    parent_tid: u64,
    child_tid: u64,
    tls: u64,
) -> Result<CloneRoute, SyscallError> {
    let cf = flags & CLONE_KNOWN_FLAGS;
    if !has_flag(cf, CLONE_THREAD) {
        if has_flag(cf, CLONE_VFORK) && !has_flag(cf, CLONE_VM) {
            Err(SyscallError::NoSyscall)
        } else if has_flag(cf, CLONE_VM) && !has_flag(cf, CLONE_VFORK) {
            Err(SyscallError::NoSyscall)
        } else {
            Ok(
                CloneRoute::Process(
                    CloneProcessArgs {
                        clone_flags: cf,
                        raw_flags: flags,
                        exit_signal: (flags & 0xff) as u8,
                        stack_pointer,
                        parent_tid,
                        child_tid,
                        tls,
                        pidfd_ptr: if has_flag(cf, CLONE_PIDFD) {
                            parent_tid
                        } else {
                            0
                        },
                        cgroup_fd: 0,
                    },
                ),
            )
        }
    } else if has_flag(cf, CLONE_NEWNET) {
        Err(SyscallError::InvalidArguments)
    } else if !has_flag(cf, CLONE_THREAD_REQUIRED) {
        Err(SyscallError::NoSyscall)
    } else {
        Ok(CloneRoute::Thread(thread_plan_spec(cf, stack_pointer, parent_tid, child_tid, tls)))
    }
}

/// The `clone` system call's decisions.
pub fn clone_route(flags: u64, stack_pointer: u64, parent_tid: u64, child_tid: u64, tls: u64) -> (r:
    Result<CloneRoute, SyscallError>)
    ensures
        r == clone_route_spec(flags, stack_pointer, parent_tid, child_tid, tls),
{
    let cf = flags & CLONE_KNOWN_FLAGS;
    if !contains_flag(cf, CLONE_THREAD) {
        if contains_flag(cf, CLONE_VFORK) && !contains_flag(cf, CLONE_VM) {
            return Err(SyscallError::NoSyscall);
        }
        if contains_flag(cf, CLONE_VM) && !contains_flag(cf, CLONE_VFORK) {
            return Err(SyscallError::NoSyscall);
        }
        let pidfd_ptr = if contains_flag(cf, CLONE_PIDFD) {
            parent_tid
        } else {
            0
        };
        return Ok(
            CloneRoute::Process(
                CloneProcessArgs {
                    clone_flags: cf,
                    raw_flags: flags,
                    exit_signal: (flags & 0xff) as u8,
                    stack_pointer,
                    parent_tid,
                    child_tid,
                    tls,
                    pidfd_ptr,
                    cgroup_fd: 0,
                },
            ),
        );
    }
    if contains_flag(cf, CLONE_NEWNET) {
        return Err(SyscallError::InvalidArguments);
    }
    if !contains_flag(cf, CLONE_THREAD_REQUIRED) {
        return Err(SyscallError::NoSyscall);
    }
    Ok(
        CloneRoute::Thread(
            ThreadClonePlan {
                child_stack: if stack_pointer != 0 {
                    Some(stack_pointer)
                } else {
                    None
                },
                child_tls: if contains_flag(cf, CLONE_SETTLS) {
                    Some(tls)
                } else {
                    None
                },
                clear_child_tid: if contains_flag(cf, CLONE_CHILD_CLEARTID) {
                    Some(child_tid)
                } else {
                    None
                },
                parent_tid_at: if contains_flag(cf, CLONE_PARENT_SETTID) {
                    Some(parent_tid)
                } else {
                    None
                },
                child_tid_at: if contains_flag(cf, CLONE_CHILD_SETTID) {
                    Some(child_tid)
                } else {
                    None
                },
            },
        ),
    )
}

/// Single-bit flags: having the flag is having its bit, and the known-flag mask keeps it.
proof fn lemma_tid_flag_bits(f: u64)
    by (bit_vector)
    ensures
        (f & 0x0010_0000u64 == 0x0010_0000u64) == (f & 0x0010_0000u64 != 0),
        (f & 0x0100_0000u64 == 0x0100_0000u64) == (f & 0x0100_0000u64 != 0),
        (f & 0x0020_0000u64 == 0x0020_0000u64) == (f & 0x0020_0000u64 != 0),
        (f & 0x0008_0000u64 == 0x0008_0000u64) == (f & 0x0008_0000u64 != 0),
        (f & 0x0000_1000u64 == 0x0000_1000u64) == (f & 0x0000_1000u64 != 0),
        ((f & 0x3_7f3f_df00u64) & 0x0010_0000u64 == 0x0010_0000u64) == (f & 0x0010_0000u64 != 0),
        ((f & 0x3_7f3f_df00u64) & 0x0100_0000u64 == 0x0100_0000u64) == (f & 0x0100_0000u64 != 0),
        ((f & 0x3_7f3f_df00u64) & 0x0020_0000u64 == 0x0020_0000u64) == (f & 0x0020_0000u64 != 0),
        ((f & 0x3_7f3f_df00u64) & 0x0008_0000u64 == 0x0008_0000u64) == (f & 0x0008_0000u64 != 0),
{
}

/// Where a cloned thread's ids and registers come from: the new tid goes to the `parent_tid`
/// pointer exactly under `CLONE_PARENT_SETTID`, to the `child_tid` pointer exactly under
/// `CLONE_CHILD_SETTID`, and the word cleared at exit is `child_tid` exactly under
/// `CLONE_CHILD_CLEARTID`; the thread pointer is `tls` exactly under `CLONE_SETTLS`, the
/// stack is `stack_pointer` where one is given. A new process carries the pointers as given.
pub proof fn lemma_clone_route_addresses(
    flags: u64,
    stack_pointer: u64,
    parent_tid: u64,
    child_tid: u64,
    tls: u64,
)
    ensures
        clone_route_spec(flags, stack_pointer, parent_tid, child_tid, tls) matches Ok(
            CloneRoute::Thread(plan),
        ) ==> {
            &&& plan.parent_tid_at == if flags & CLONE_PARENT_SETTID != 0 {
                Some(parent_tid)
            } else {
                None
            }
            &&& plan.child_tid_at == if flags & CLONE_CHILD_SETTID != 0 {
                Some(child_tid)
            } else {
                None
            }
            &&& plan.clear_child_tid == if flags & CLONE_CHILD_CLEARTID != 0 {
                Some(child_tid)
            } else {
                None
            }
            &&& plan.child_tls == if flags & CLONE_SETTLS != 0 {
                Some(tls)
            } else {
                None
            }
            &&& plan.child_stack == if stack_pointer != 0 {
                Some(stack_pointer)
            } else {
                None
            }
        },
        clone_route_spec(flags, stack_pointer, parent_tid, child_tid, tls) matches Ok(
            CloneRoute::Process(args),
        ) ==> {
            &&& args.parent_tid == parent_tid
            &&& args.child_tid == child_tid
            &&& args.tls == tls
            &&& args.stack_pointer == stack_pointer
            &&& args.raw_flags == flags
        },
{
    lemma_tid_flag_bits(flags);
}

/// A new process's plan writes its pid to the parent's `parent_tid` word exactly under
/// `CLONE_PARENT_SETTID`, to the child's `child_tid` word exactly under `CLONE_CHILD_SETTID`,
/// clears `child_tid` at exit exactly under `CLONE_CHILD_CLEARTID`, takes `tls` exactly under
/// `CLONE_SETTLS`, and stores the pidfd at `pidfd_ptr` exactly under `CLONE_PIDFD`.
pub proof fn lemma_clone_plan_addresses(args: CloneProcessArgs)
    ensures
        ({
            let plan = clone_plan_spec(args);
            let f = args.clone_flags;
            &&& plan.parent_tid_at == if f & CLONE_PARENT_SETTID != 0 {
                Some(args.parent_tid)
            } else {
                None
            }
            &&& plan.child_tid_at == if f & CLONE_CHILD_SETTID != 0 {
                Some(args.child_tid)
            } else {
                None
            }
            &&& plan.clear_child_tid == if f & CLONE_CHILD_CLEARTID != 0 {
                Some(args.child_tid)
            } else {
                None
            }
            &&& plan.child_tls == if f & CLONE_SETTLS != 0 {
                Some(args.tls)
            } else {
                None
            }
            &&& plan.pidfd_at == if f & CLONE_PIDFD != 0 {
                Some(args.pidfd_ptr)
            } else {
                None
            }
        }),
{
    lemma_tid_flag_bits(args.clone_flags);
}

/// The `clone_args` structure of `clone3`.
#[derive(Clone, Copy, Debug, PartialEq, Eq, Structural)]
pub struct LinuxCloneArgs {
    pub flags: u64,
    pub pidfd: u64,
    pub child_tid: u64,
    pub parent_tid: u64,
    pub exit_signal: u64,
    pub stack: u64,
    pub stack_size: u64,
    pub tls: u64,
    pub set_tid: u64,
    pub set_tid_size: u64,
    pub cgroup: u64,
}

/// The size of `clone_args` that `clone3` needs at least.
pub const CLONE_ARGS_SIZE: usize = 88;

/// `a + b`, held at `u64::MAX`.
pub open spec fn sat_add_u64(a: u64, b: u64) -> u64 {
    if a + b > u64::MAX {
        u64::MAX
    } else {
        (a + b) as u64
    }
}

/// What `clone3` does with its arguments: the structure must be whole and readable, no tid
/// array, the stack pointer is the stack's top, the exit signal joins the flags; a thread
/// goes the `clone` way, a process needs pidfd and cgroup arguments exactly where their
/// flags are set.
pub open spec fn clone3_route_spec(
    size: usize,
    args_is_null: bool,
    args: Result<LinuxCloneArgs, SyscallError>,
) -> Result<CloneRoute, SyscallError> {
    if size < CLONE_ARGS_SIZE {
        Err(SyscallError::InvalidArguments)
    } else if args_is_null {
        Err(SyscallError::BadAddress)
    } else {
        match args {
            Err(e) => Err(e),
            Ok(a) => {
                let stack_pointer = if a.stack == 0 {
                    0
                } else {
                    sat_add_u64(a.stack, a.stack_size)
                };
                let flags = a.flags | (a.exit_signal & 0xff);
                let cf = flags & CLONE_KNOWN_FLAGS;
                if a.set_tid != 0 || a.set_tid_size != 0 {
                    Err(SyscallError::NoSyscall)
                } else if has_flag(cf, CLONE_THREAD) {
                    if has_flag(cf, CLONE_NEWNET) {
                        Err(SyscallError::InvalidArguments)
                    } else {
                        clone_route_spec(flags, stack_pointer, a.parent_tid, a.child_tid, a.tls)
                    }
                } else if has_flag(cf, CLONE_VFORK) && !has_flag(cf, CLONE_VM) {
                    Err(SyscallError::NoSyscall)
                } else if has_flag(cf, CLONE_VM) && !has_flag(cf, CLONE_VFORK) {
                    Err(SyscallError::NoSyscall)
                } else if has_flag(cf, CLONE_PIDFD) != (a.pidfd != 0) {
                    Err(SyscallError::InvalidArguments)
                } else if has_flag(cf, CLONE_INTO_CGROUP) != (a.cgroup != 0) {
                    Err(SyscallError::InvalidArguments)
                } else {
                    Ok(
                        CloneRoute::Process(
                            CloneProcessArgs {
                                clone_flags: cf,
                                raw_flags: flags,
                                exit_signal: (a.exit_signal & 0xff) as u8,
                                stack_pointer,
                                parent_tid: a.parent_tid,
                                child_tid: a.child_tid,
                                tls: a.tls,
                                pidfd_ptr: a.pidfd,
                                cgroup_fd: a.cgroup,
                            },
                        ),
                    )
                }
            },
        }
    }
}

/// `clone3` takes its pointers and descriptors from the structure it read: a new process
/// gets `parent_tid`, `child_tid`, `tls`, `pidfd` and `cgroup` as given, its stack pointer is
/// the top of the given stack; a new thread writes its tid only to `parent_tid` and
/// `child_tid` (each exactly under its flag) and clears `child_tid` at exit.
pub proof fn lemma_clone3_addresses(size: usize, args_is_null: bool, a: LinuxCloneArgs)
    ensures
        clone3_route_spec(size, args_is_null, Ok(a)) matches Ok(CloneRoute::Process(p)) ==> {
            &&& p.parent_tid == a.parent_tid
            &&& p.child_tid == a.child_tid
            &&& p.tls == a.tls
            &&& p.pidfd_ptr == a.pidfd
            &&& p.cgroup_fd == a.cgroup
            &&& p.stack_pointer == if a.stack == 0 {
                0
            } else {
                sat_add_u64(a.stack, a.stack_size)
            }
        },
        clone3_route_spec(size, args_is_null, Ok(a)) matches Ok(CloneRoute::Thread(plan)) ==> {
            &&& (plan.parent_tid_at is None || plan.parent_tid_at == Some(a.parent_tid))
            &&& (plan.child_tid_at is None || plan.child_tid_at == Some(a.child_tid))
            &&& (plan.clear_child_tid is None || plan.clear_child_tid == Some(a.child_tid))
            &&& (plan.child_tls is None || plan.child_tls == Some(a.tls))
        },
{
    let flags = a.flags | (a.exit_signal & 0xff);
    let stack_pointer = if a.stack == 0 {
        0
    } else {
        sat_add_u64(a.stack, a.stack_size)
    };
    lemma_clone_route_addresses(flags, stack_pointer, a.parent_tid, a.child_tid, a.tls);
}

/// The `clone3` system call's decisions; `args` is what reading `clone_args` gave.
pub fn clone3_route(size: usize, args_is_null: bool, args: Result<LinuxCloneArgs, SyscallError>) -> (r:
    Result<CloneRoute, SyscallError>)
    ensures
        r == clone3_route_spec(size, args_is_null, args),
{
    if size < CLONE_ARGS_SIZE {
        return Err(SyscallError::InvalidArguments);
    }
    if args_is_null {
        return Err(SyscallError::BadAddress);
    }
    let a = args?;
    if a.set_tid != 0 || a.set_tid_size != 0 {
        return Err(SyscallError::NoSyscall);
    }
    let stack_pointer = if a.stack == 0 {
        0
    } else {
        a.stack.saturating_add(a.stack_size)
    };
    let flags = a.flags | (a.exit_signal & 0xff);
    let cf = flags & CLONE_KNOWN_FLAGS;
    if contains_flag(cf, CLONE_THREAD) {
        if contains_flag(cf, CLONE_NEWNET) {
            return Err(SyscallError::InvalidArguments);
        }
        return clone_route(flags, stack_pointer, a.parent_tid, a.child_tid, a.tls);
    }
    if contains_flag(cf, CLONE_VFORK) && !contains_flag(cf, CLONE_VM) {
        return Err(SyscallError::NoSyscall);
    }
    if contains_flag(cf, CLONE_VM) && !contains_flag(cf, CLONE_VFORK) {
        return Err(SyscallError::NoSyscall);
    }
    if contains_flag(cf, CLONE_PIDFD) != (a.pidfd != 0) {
        return Err(SyscallError::InvalidArguments);
    }
    if contains_flag(cf, CLONE_INTO_CGROUP) != (a.cgroup != 0) {
        return Err(SyscallError::InvalidArguments);
    }
    Ok(
        CloneRoute::Process(
            CloneProcessArgs {
                clone_flags: cf,
                raw_flags: flags,
                exit_signal: (a.exit_signal & 0xff) as u8,
                stack_pointer,
                parent_tid: a.parent_tid,
                child_tid: a.child_tid,
                tls: a.tls,
                pidfd_ptr: a.pidfd,
                cgroup_fd: a.cgroup,
            },
        ),
    )
}

/// The flags `unshare` knows.
pub const UNSHARE_KNOWN_FLAGS: u64 = 0x7e06_0600;
/// Flags of `clone` that `unshare` refuses outright.
pub const UNSHARE_FORBIDDEN_FLAGS: u64 = 0x1_0001_0900;
/// Namespaces that cannot be unshared here.
pub const UNSHARE_UNSUPPORTED_NAMESPACES: u64 = 0x3e02_0000;

/// What `unshare` does: unknown or thread-level flags are invalid, namespaces other than the
/// network one are not supported, and the answer says whether the caller gets a new network
/// namespace.
pub fn unshare_decision(flags: u64) -> (r: Result<bool, SyscallError>)
    ensures
        r == if flags & !UNSHARE_KNOWN_FLAGS & !UNSHARE_FORBIDDEN_FLAGS != 0 {
            Err::<bool, SyscallError>(SyscallError::InvalidArguments)
        } else if flags & UNSHARE_FORBIDDEN_FLAGS != 0 {
            Err(SyscallError::InvalidArguments)
        } else if flags & UNSHARE_UNSUPPORTED_NAMESPACES != 0 {
            Err(SyscallError::OperationNotSupported)
        } else {
            Ok(flags & CLONE_NEWNET != 0)
        },
{
    if flags & !UNSHARE_KNOWN_FLAGS & !UNSHARE_FORBIDDEN_FLAGS != 0 {
        return Err(SyscallError::InvalidArguments);
    }
    if flags & UNSHARE_FORBIDDEN_FLAGS != 0 {
        return Err(SyscallError::InvalidArguments);
    }
    if flags & UNSHARE_UNSUPPORTED_NAMESPACES != 0 {
        return Err(SyscallError::OperationNotSupported);
    }
    Ok(flags & CLONE_NEWNET != 0)
}

/// The `unshare` flag sets are the unions they stand for.
pub proof fn lemma_unshare_flag_sets()
    ensures
        UNSHARE_KNOWN_FLAGS == CLONE_FS | CLONE_FILES | CLONE_NEWNS | CLONE_SYSVSEM
            | CLONE_NEWCGROUP | CLONE_NEWUTS | CLONE_NEWIPC | CLONE_NEWUSER | CLONE_NEWPID
            | CLONE_NEWNET,
        UNSHARE_FORBIDDEN_FLAGS == CLONE_THREAD | CLONE_SIGHAND | CLONE_VM | CLONE_CLEAR_SIGHAND,
        UNSHARE_UNSUPPORTED_NAMESPACES == CLONE_NEWNS | CLONE_NEWCGROUP | CLONE_NEWUTS
            | CLONE_NEWIPC | CLONE_NEWUSER | CLONE_NEWPID,
{
    assert(0x7e06_0600u64 == 0x200u64 | 0x400u64 | 0x20000u64 | 0x40000u64 | 0x2000000u64
        | 0x4000000u64 | 0x8000000u64 | 0x10000000u64 | 0x20000000u64 | 0x40000000u64)
        by (bit_vector);
    assert(0x1_0001_0900u64 == 0x10000u64 | 0x800u64 | 0x100u64 | 0x1_0000_0000u64) by (bit_vector);
    assert(0x3e02_0000u64 == 0x20000u64 | 0x2000000u64 | 0x4000000u64 | 0x8000000u64
        | 0x10000000u64 | 0x20000000u64) by (bit_vector);
}

/// `kcmp` only compares the caller's own objects, and only files.
pub fn kcmp_check(pid1: i32, pid2: i32, current_pid: i32, kind: u32) -> (r: Result<(), SyscallError>)
    ensures
        r == if pid1 <= 0 || pid2 <= 0 {
            Err::<(), SyscallError>(SyscallError::InvalidArguments)
        } else if pid1 != current_pid || pid2 != current_pid {
            Err(SyscallError::PermissionDenied)
        } else if kind != 0 {
            Err(SyscallError::InvalidArguments)
        } else {
            Ok(())
        },
{
    if pid1 <= 0 || pid2 <= 0 {
        return Err(SyscallError::InvalidArguments);
    }
    if pid1 != current_pid || pid2 != current_pid {
        return Err(SyscallError::PermissionDenied);
    }
    if kind != 0 {
        return Err(SyscallError::InvalidArguments);
    }
    Ok(())
}

/// The answer of `kcmp` for two objects: 0 for the same one, else 1 or 2 as the first one's
/// identity sorts before or after the second's.
pub fn kcmp_order(same: bool, first: u64, second: u64) -> (r: usize)
    ensures
        r == if same || first == second {
            0usize
        } else if first < second {
            1
        } else {
            2
        },
{
    if same || first == second {
        0
    } else if first < second {
        1
    } else {
        2
    }
}


/// How a signal is handled.
#[derive(Clone, Copy, Debug, PartialEq, Eq, Structural)]
pub enum SignalHandlingType {
    Default,
    Ignore,
    /// A one-argument handler at the given address.
    Function1(u64),
    /// A three-argument (`SA_SIGINFO`) handler at the given address.
    Function2(u64),
}

/// One signal's disposition: how it is handled, the mask during the handler and the flags.
#[derive(Clone, Copy, Debug, PartialEq, Eq, Structural)]
pub struct SignalAction {
    pub handling_type: SignalHandlingType,
    pub mask: u64,
    pub flags: u64,
}

/// The dispositions a child gets under `CLONE_CLEAR_SIGHAND`: ignored signals stay ignored,
/// every other one goes back to its default.
pub open spec fn cleared_signal_actions(old: Seq<SignalAction>, defaults: Seq<SignalAction>) -> Seq<
    SignalAction,
> {
    Seq::new(
        if old.len() < defaults.len() {
            old.len()
        } else {
            defaults.len()
        },
        |i: int|
            if old[i].handling_type is Ignore {
                old[i]
            } else {
                defaults[i]
            },
    )
}

/// The dispositions a child gets under `CLONE_CLEAR_SIGHAND`.
pub fn clone_cleared_signal_actions(old_actions: &[SignalAction], defaults: &[SignalAction]) -> (r:
    Vec<SignalAction>)
    ensures
        r@ == cleared_signal_actions(old_actions@, defaults@),
{
    let n = if old_actions.len() < defaults.len() {
        old_actions.len()
    } else {
        defaults.len()
    };
    let mut out: Vec<SignalAction> = Vec::new();
    let mut i: usize = 0;
    while i < n
        invariant
            i <= n,
            n <= old_actions.len(),
            n <= defaults.len(),
            out@ == cleared_signal_actions(old_actions@, defaults@).take(i as int),
            cleared_signal_actions(old_actions@, defaults@).len() == n,
        decreases n - i,
    {
        let action = match old_actions[i].handling_type {
            SignalHandlingType::Ignore => old_actions[i],
            _ => defaults[i],
        };
        out.push(action);
        i += 1;
        assert(out@ =~= cleared_signal_actions(old_actions@, defaults@).take(i as int));
    }
    assert(out@ =~= cleared_signal_actions(old_actions@, defaults@));
    out
}

/// The checks of `pidfd_open`: a positive pid and no flags.
pub fn pidfd_open_check(pid: i32, flags: u32) -> (r: Result<u64, SyscallError>)
    ensures
        (pid <= 0 || flags != 0) ==> r == Err::<u64, SyscallError>(SyscallError::InvalidArguments),
        pid > 0 && flags == 0 ==> r == Ok::<u64, SyscallError>(pid as u64),
{
    if pid <= 0 {
        return Err(SyscallError::InvalidArguments);
    }
    if flags != 0 {
        return Err(SyscallError::InvalidArguments);
    }
    Ok(pid as u64)
}

/// The flags of `setns` on a network namespace: none, or exactly `CLONE_NEWNET`.
pub fn setns_flags_check(flags: u32) -> (r: Result<(), SyscallError>)
    ensures
        r is Ok <==> (flags == 0 || flags == CLONE_NEWNET),
        r is Err ==> r == Err::<(), SyscallError>(SyscallError::InvalidArguments),
{
    if flags != 0 && flags as u64 != CLONE_NEWNET {
        return Err(SyscallError::InvalidArguments);
    }
    Ok(())
}

} // verus!
