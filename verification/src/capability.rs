use vstd::prelude::*;
use crate::credentials::{cap_set, ProcessCredentials};
use crate::error::SyscallError;

verus! {

pub const LINUX_CAPABILITY_VERSION_1: u32 = 0x1998_0330;
pub const LINUX_CAPABILITY_VERSION_2: u32 = 0x2007_1026;
pub const LINUX_CAPABILITY_VERSION_3: u32 = 0x2008_0522;
pub const LINUX_CAPABILITY_U32S_1: usize = 1;
pub const LINUX_CAPABILITY_U32S_3: usize = 2;
pub const CAP_SETPCAP: usize = 8;

/// The header of `capget` and `capset`.
#[derive(Clone, Copy, Debug, PartialEq, Eq, Structural)]
pub struct LinuxCapHeader {
    pub version: u32,
    pub pid: i32,
}

/// One 32-capability word of each set.
#[derive(Clone, Copy, Debug, PartialEq, Eq, Structural)]
pub struct LinuxCapData {
    pub effective: u32,
    pub permitted: u32,
    pub inheritable: u32,
}

/// The process a capability call targets: `None` for the caller (pid 0); negative pids
/// are invalid.
pub fn capability_header_target_pid(header: &LinuxCapHeader) -> (r: Result<Option<u64>, SyscallError>)
    ensures
        r == if header.pid < 0 {
            Err::<Option<u64>, SyscallError>(SyscallError::InvalidArguments)
        } else if header.pid == 0 {
            Ok(None)
        } else {
            Ok(Some(header.pid as u64))
        },
{
    if header.pid < 0 {
        return Err(SyscallError::InvalidArguments);
    }
    if header.pid == 0 {
        return Ok(None);
    }
    Ok(Some(header.pid as u64))
}

/// Whether a capability call targets the caller (whose pid is `current_pid`).
pub fn capability_header_targets_current_process(header: &LinuxCapHeader, current_pid: u64) -> (r: Result<
    bool,
    SyscallError,
>)
    ensures
        r == if header.pid < 0 {
            Err::<bool, SyscallError>(SyscallError::InvalidArguments)
        } else {
            Ok(header.pid == 0 || header.pid as u64 == current_pid)
        },
{
    match capability_header_target_pid(header)? {
        None => Ok(true),
        Some(pid) => Ok(pid == current_pid),
    }
}

/// The capability words a process reports.
pub fn capability_data_for_process(process: &ProcessCredentials) -> (r: [LinuxCapData; 2])
    ensures
        forall|i: int|
            0 <= i < 2 ==> (#[trigger] r@[i]) == (LinuxCapData {
                effective: process.capability_effective@[i],
                permitted: process.capability_permitted@[i],
                inheritable: process.capability_inheritable@[i],
            }),
{
    let r = [
        LinuxCapData {
            effective: process.capability_effective[0],
            permitted: process.capability_permitted[0],
            inheritable: process.capability_inheritable[0],
        },
        LinuxCapData {
            effective: process.capability_effective[1],
            permitted: process.capability_permitted[1],
            inheritable: process.capability_inheritable[1],
        },
    ];
    assert forall|i: int| 0 <= i < 2 implies (#[trigger] r@[i]) == (LinuxCapData {
        effective: process.capability_effective@[i],
        permitted: process.capability_permitted@[i],
        inheritable: process.capability_inheritable@[i],
    }) by {
        if i == 0 {
        } else {
        }
    }
    r
}

/// How many capability words a header version transfers.
pub fn capability_u32s(version: u32) -> (r: Option<usize>)
    ensures
        r == if version == LINUX_CAPABILITY_VERSION_1 {
            Some(LINUX_CAPABILITY_U32S_1)
        } else if version == LINUX_CAPABILITY_VERSION_2 || version == LINUX_CAPABILITY_VERSION_3 {
            Some(LINUX_CAPABILITY_U32S_3)
        } else {
            None::<usize>
        },
{
    if version == LINUX_CAPABILITY_VERSION_1 {
        Some(LINUX_CAPABILITY_U32S_1)
    } else if version == LINUX_CAPABILITY_VERSION_2 || version == LINUX_CAPABILITY_VERSION_3 {
        Some(LINUX_CAPABILITY_U32S_3)
    } else {
        None
    }
}

/// The word and the bit of a capability; only the first 64 exist.
pub fn capability_slot_and_mask(capability: u64) -> (r: Result<(usize, u32), SyscallError>)
    ensures
        r == if capability >= 64 {
            Err::<(usize, u32), SyscallError>(SyscallError::InvalidArguments)
        } else {
            Ok(((capability / 32) as usize, 1u32 << ((capability % 32) as u32)))
        },
{
    let slot = capability / 32;
    if slot >= 2 {
        return Err(SyscallError::InvalidArguments);
    }
    let mask = 1u32 << ((capability % 32) as u32);
    Ok((slot as usize, mask))
}

/// Whether capability `capability` (below 64) is set in `caps`.
pub fn has_capability_bits(caps: &[u32; 2], capability: usize) -> (r: bool)
    requires
        capability < 64,
    ensures
        r == cap_set(caps@, capability as u64),
{
    let slot = capability / 32;
    let mask = 1u32 << ((capability % 32) as u32);
    caps[slot] & mask != 0
}

/// The inheritable bits a `capset` may ask for in word `i`: the current inheritable set,
/// and with `CAP_SETPCAP` also what is both permitted and in the bounding set.
pub open spec fn allowed_inheritable(process: ProcessCredentials, i: int) -> u32 {
    if cap_set(process.capability_effective@, CAP_SETPCAP as u64) {
        process.capability_inheritable@[i] | (process.capability_permitted@[i]
            & process.capability_bounding@[i])
    } else {
        process.capability_inheritable@[i]
    }
}

/// Whether word `i` of a `capset` is allowed: effective within permitted, permitted within
/// what the process already has, inheritable within what it may pass on.
pub open spec fn capset_word_ok(process: ProcessCredentials, caps: LinuxCapData, i: int) -> bool {
    &&& caps.effective & !caps.permitted == 0
    &&& caps.permitted & !process.capability_permitted@[i] == 0
    &&& caps.inheritable & !allowed_inheritable(process, i) == 0
}

/// The checks of `capset`: a process may only drop permitted capabilities, keep effective
/// ones within the permitted set, and raise inheritable ones as far as it may.
pub fn validate_capset_data(process: &ProcessCredentials, new_data: &[LinuxCapData; 2]) -> (r: Result<
    (),
    SyscallError,
>)
    ensures
        r == if capset_word_ok(*process, new_data@[0], 0) && capset_word_ok(*process, new_data@[1], 1) {
            Ok::<(), SyscallError>(())
        } else {
            Err(SyscallError::PermissionDenied)
        },
{
    let has_setpcap = has_capability_bits(&process.capability_effective, CAP_SETPCAP);
    let mut index: usize = 0;
    while index < 2
        invariant
            index <= 2,
            has_setpcap == cap_set(process.capability_effective@, CAP_SETPCAP as u64),
            forall|j: int| 0 <= j < index ==> capset_word_ok(*process, new_data@[j], j),
        decreases 2 - index,
    {
        let caps = new_data[index];
        if caps.effective & !caps.permitted != 0 {
            return Err(SyscallError::PermissionDenied);
        }
        if caps.permitted & !process.capability_permitted[index] != 0 {
            return Err(SyscallError::PermissionDenied);
        }
        let allowed_inheritable = if has_setpcap {
            process.capability_inheritable[index] | (process.capability_permitted[index]
                & process.capability_bounding[index])
        } else {
            process.capability_inheritable[index]
        };
        if caps.inheritable & !allowed_inheritable != 0 {
            return Err(SyscallError::PermissionDenied);
        }
        index += 1;
    }
    Ok(())
}

/// A `capset` that passes never grants a permitted capability the process lacked, and
/// never leaves an effective capability outside the permitted set.
pub proof fn lemma_capset_never_grants(process: ProcessCredentials, new_data: Seq<LinuxCapData>, i: int)
    requires
        new_data.len() == 2,
        0 <= i < 2,
        capset_word_ok(process, new_data[0], 0) && capset_word_ok(process, new_data[1], 1),
    ensures
        forall|bit: u32|
            bit < 32 ==> (new_data[i].permitted & (1u32 << bit) != 0 ==> process.capability_permitted@[i]
                & (1u32 << bit) != 0),
        forall|bit: u32|
            bit < 32 ==> (new_data[i].effective & (1u32 << bit) != 0 ==> new_data[i].permitted & (1u32
                << bit) != 0),
{
    let p = new_data[i].permitted;
    let e = new_data[i].effective;
    let old_p = process.capability_permitted@[i];
    assert(forall|bit: u32| bit < 32 ==> (p & (1u32 << bit) != 0 ==> old_p & (1u32 << bit) != 0)) by (bit_vector)
        requires
            p & !old_p == 0,
    ;
    assert(forall|bit: u32| bit < 32 ==> (e & (1u32 << bit) != 0 ==> p & (1u32 << bit) != 0)) by (bit_vector)
        requires
            e & !p == 0,
    ;
}

} // verus!
