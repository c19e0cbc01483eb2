use vstd::prelude::*;
use crate::capability::capability_slot_and_mask;
use crate::credentials::cap_set;
use crate::error::SyscallError;

verus! {

/// The `prctl` options this kernel knows.
#[derive(Clone, Copy, Debug, PartialEq, Eq, Structural)]
pub enum PrctlOption {
    SetPdeathsig,
    GetPdeathsig,
    GetDumpable,
    SetDumpable,
    GetKeepCaps,
    SetKeepCaps,
    SetName,
    GetName,
    GetSeccomp,
    SetSeccomp,
    CapbsetRead,
    CapbsetDrop,
    GetSecureBits,
    SetSecureBits,
    SetChildSubreaper,
    GetChildSubreaper,
    SetNoNewPrivs,
    GetNoNewPrivs,
    CapAmbient,
    SetMdwe,
    GetMdwe,
}

/// The option number of each `prctl` option.
pub open spec fn prctl_option_number(o: PrctlOption) -> i32 {
    match o {
        PrctlOption::SetPdeathsig => 1,
        PrctlOption::GetPdeathsig => 2,
        PrctlOption::GetDumpable => 3,
        PrctlOption::SetDumpable => 4,
        PrctlOption::GetKeepCaps => 7,
        PrctlOption::SetKeepCaps => 8,
        PrctlOption::SetName => 15,
        PrctlOption::GetName => 16,
        PrctlOption::GetSeccomp => 21,
        PrctlOption::SetSeccomp => 22,
        PrctlOption::CapbsetRead => 23,
        PrctlOption::CapbsetDrop => 24,
        PrctlOption::GetSecureBits => 27,
        PrctlOption::SetSecureBits => 28,
        PrctlOption::SetChildSubreaper => 36,
        PrctlOption::GetChildSubreaper => 37,
        PrctlOption::SetNoNewPrivs => 38,
        PrctlOption::GetNoNewPrivs => 39,
        PrctlOption::CapAmbient => 47,
        PrctlOption::SetMdwe => 65,
        PrctlOption::GetMdwe => 66,
    }
}

/// The option with number `v`, if there is one.
pub open spec fn option_from_number(v: i32) -> Option<PrctlOption> {
    if v == 1 {
        Some(PrctlOption::SetPdeathsig)
    } else if v == 2 {
        Some(PrctlOption::GetPdeathsig)
    } else if v == 3 {
        Some(PrctlOption::GetDumpable)
    } else if v == 4 {
        Some(PrctlOption::SetDumpable)
    } else if v == 7 {
        Some(PrctlOption::GetKeepCaps)
    } else if v == 8 {
        Some(PrctlOption::SetKeepCaps)
    } else if v == 15 {
        Some(PrctlOption::SetName)
    } else if v == 16 {
        Some(PrctlOption::GetName)
    } else if v == 21 {
        Some(PrctlOption::GetSeccomp)
    } else if v == 22 {
        Some(PrctlOption::SetSeccomp)
    } else if v == 23 {
        Some(PrctlOption::CapbsetRead)
    } else if v == 24 {
        Some(PrctlOption::CapbsetDrop)
    } else if v == 27 {
        Some(PrctlOption::GetSecureBits)
    } else if v == 28 {
        Some(PrctlOption::SetSecureBits)
    } else if v == 36 {
        Some(PrctlOption::SetChildSubreaper)
    } else if v == 37 {
        Some(PrctlOption::GetChildSubreaper)
    } else if v == 38 {
        Some(PrctlOption::SetNoNewPrivs)
    } else if v == 39 {
        Some(PrctlOption::GetNoNewPrivs)
    } else if v == 47 {
        Some(PrctlOption::CapAmbient)
    } else if v == 65 {
        Some(PrctlOption::SetMdwe)
    } else if v == 66 {
        Some(PrctlOption::GetMdwe)
    } else {
        None
    }
}

/// Numbers and options correspond.
pub proof fn lemma_option_numbers(v: i32)
    ensures
        option_from_number(v) matches Some(o) ==> prctl_option_number(o) == v,
{
}

impl PrctlOption {
    /// The option with number `v`, if there is one.
    pub fn try_from_i32(v: i32) -> (r: Option<PrctlOption>)
        ensures
            r == option_from_number(v),
    {
        match v {
            1 => Some(PrctlOption::SetPdeathsig),
            2 => Some(PrctlOption::GetPdeathsig),
            3 => Some(PrctlOption::GetDumpable),
            4 => Some(PrctlOption::SetDumpable),
            7 => Some(PrctlOption::GetKeepCaps),
            8 => Some(PrctlOption::SetKeepCaps),
            15 => Some(PrctlOption::SetName),
            16 => Some(PrctlOption::GetName),
            21 => Some(PrctlOption::GetSeccomp),
            22 => Some(PrctlOption::SetSeccomp),
            23 => Some(PrctlOption::CapbsetRead),
            24 => Some(PrctlOption::CapbsetDrop),
            27 => Some(PrctlOption::GetSecureBits),
            28 => Some(PrctlOption::SetSecureBits),
            36 => Some(PrctlOption::SetChildSubreaper),
            37 => Some(PrctlOption::GetChildSubreaper),
            38 => Some(PrctlOption::SetNoNewPrivs),
            39 => Some(PrctlOption::GetNoNewPrivs),
            47 => Some(PrctlOption::CapAmbient),
            65 => Some(PrctlOption::SetMdwe),
            66 => Some(PrctlOption::GetMdwe),
            _ => None,
        }
    }
}

/// What `prctl` keeps for a process (and, for the name, its thread).
#[derive(Clone, Copy, Debug)]
pub struct PrctlState {
    /// The signal sent when the parent dies; zero for none.
    pub parent_death_signal: u64,
    pub dumpable: bool,
    pub child_subreaper: bool,
    pub no_new_privs: bool,
    pub keep_capabilities: bool,
    pub secure_bits: u32,
    pub capability_bounding: [u32; 2],
    pub capability_ambient: [u32; 2],
}

/// What is left for the caller to do with user memory or the thread.
#[derive(Clone, Copy, Debug, PartialEq, Eq, Structural)]
pub enum PrctlEffect {
    Nothing,
    /// Store `value` at `addr`.
    WriteI32 { addr: u64, value: i32 },
    /// Read the thread's new name from `addr` (see `prctl_name_from_bytes`).
    SetThreadName { addr: u64 },
    /// Store the thread's name (see `current_thread_name`) at `addr`.
    WriteThreadName { addr: u64 },
}

/// `word` with bit `mask` set or cleared.
pub open spec fn set_word(words: [u32; 2], slot: int, word: u32) -> [u32; 2] {
    if slot == 0 {
        [word, words[1]]
    } else {
        [words[0], word]
    }
}

/// What `prctl` answers and how it changes the state. `signal_valid` says whether `arg2`
/// names a signal (asked only for `PR_SET_PDEATHSIG` with a nonzero `arg2`).
pub open spec fn prctl_spec(s: PrctlState, option: i32, arg2: u64, arg3: u64, signal_valid: bool) -> (
    PrctlState,
    Result<(usize, PrctlEffect), SyscallError>,
) {
    let none = PrctlEffect::Nothing;
    match option_from_number(option) {
        None => (s, Err(SyscallError::InvalidArguments)),
        Some(op) => match op {
            PrctlOption::SetSeccomp | PrctlOption::SetMdwe | PrctlOption::GetSeccomp => (
                s,
                Err(SyscallError::InvalidArguments),
            ),
            PrctlOption::SetPdeathsig => if arg2 != 0 && !signal_valid {
                (s, Err(SyscallError::InvalidArguments))
            } else {
                (PrctlState { parent_death_signal: arg2, ..s }, Ok((0, none)))
            },
            PrctlOption::SetDumpable => if arg2 > 1 {
                (s, Err(SyscallError::InvalidArguments))
            } else {
                (PrctlState { dumpable: arg2 != 0, ..s }, Ok((0, none)))
            },
            PrctlOption::SetName => (s, Ok((0, PrctlEffect::SetThreadName { addr: arg2 }))),
            PrctlOption::SetChildSubreaper => (
                PrctlState { child_subreaper: arg2 != 0, ..s },
                Ok((0, none)),
            ),
            PrctlOption::SetNoNewPrivs => if arg2 != 1 || arg3 != 0 {
                (s, Err(SyscallError::InvalidArguments))
            } else {
                (PrctlState { no_new_privs: true, ..s }, Ok((0, none)))
            },
            PrctlOption::SetKeepCaps => if arg2 > 1 {
                (s, Err(SyscallError::InvalidArguments))
            } else {
                (PrctlState { keep_capabilities: arg2 != 0, ..s }, Ok((0, none)))
            },
            PrctlOption::SetSecureBits => (PrctlState { secure_bits: arg2 as u32, ..s }, Ok((0, none))),
            PrctlOption::GetPdeathsig => if arg2 == 0 {
                (s, Err(SyscallError::BadAddress))
            } else {
                (s, Ok((0, PrctlEffect::WriteI32 { addr: arg2, value: s.parent_death_signal as i32 })))
            },
            PrctlOption::GetDumpable => (s, Ok((if s.dumpable { 1usize } else { 0 }, none))),
            PrctlOption::GetChildSubreaper => if arg2 == 0 {
                (s, Err(SyscallError::BadAddress))
            } else {
                (
                    s,
                    Ok((0, PrctlEffect::WriteI32 { addr: arg2, value: if s.child_subreaper { 1i32 } else { 0 } })),
                )
            },
            PrctlOption::GetNoNewPrivs => (s, Ok((if s.no_new_privs { 1usize } else { 0 }, none))),
            PrctlOption::GetMdwe => (s, Ok((0, none))),
            PrctlOption::GetKeepCaps => (s, Ok((if s.keep_capabilities { 1usize } else { 0 }, none))),
            PrctlOption::GetSecureBits => (s, Ok((s.secure_bits as usize, none))),
            PrctlOption::GetName => if arg2 == 0 {
                (s, Err(SyscallError::BadAddress))
            } else {
                (s, Ok((0, PrctlEffect::WriteThreadName { addr: arg2 })))
            },
            PrctlOption::CapbsetRead | PrctlOption::CapbsetDrop => if arg2 >= 64 {
                (s, Err(SyscallError::InvalidArguments))
            } else {
                let slot = (arg2 / 32) as int;
                let mask = 1u32 << ((arg2 % 32) as u32);
                if op == PrctlOption::CapbsetRead {
                    (s, Ok((if s.capability_bounding[slot] & mask != 0 { 1usize } else { 0 }, none)))
                } else {
                    (
                        PrctlState {
                            capability_bounding: set_word(
                                s.capability_bounding,
                                slot,
                                s.capability_bounding[slot] & !mask,
                            ),
                            ..s
                        },
                        Ok((0, none)),
                    )
                }
            },
            PrctlOption::CapAmbient => if arg2 == 4 {
                (PrctlState { capability_ambient: [0u32, 0u32], ..s }, Ok((0, none)))
            } else if arg2 < 1 || arg2 > 4 {
                (s, Err(SyscallError::InvalidArguments))
            } else if arg3 >= 64 {
                (s, Err(SyscallError::InvalidArguments))
            } else {
                let slot = (arg3 / 32) as int;
                let mask = 1u32 << ((arg3 % 32) as u32);
                if arg2 == 1 {
                    (s, Ok((if s.capability_ambient[slot] & mask != 0 { 1usize } else { 0 }, none)))
                } else if arg2 == 2 {
                    (
                        PrctlState {
                            capability_ambient: set_word(s.capability_ambient, slot, s.capability_ambient[slot] | mask),
                            ..s
                        },
                        Ok((0, none)),
                    )
                } else {
                    (
                        PrctlState {
                            capability_ambient: set_word(s.capability_ambient, slot, s.capability_ambient[slot] & !mask),
                            ..s
                        },
                        Ok((0, none)),
                    )
                }
            },
        },
    }
}

/// `prctl`.
pub fn prctl(state: &mut PrctlState, option: i32, arg2: u64, arg3: u64, signal_valid: bool) -> (r: Result<
    (usize, PrctlEffect),
    SyscallError,
>)
    ensures
        (*final(state), r) == prctl_spec(*old(state), option, arg2, arg3, signal_valid),
{
    let op = match PrctlOption::try_from_i32(option) {
        Some(op) => op,
        None => return Err(SyscallError::InvalidArguments),
    };
    match op {
        PrctlOption::SetSeccomp | PrctlOption::SetMdwe | PrctlOption::GetSeccomp => Err(
            SyscallError::InvalidArguments,
        ),
        PrctlOption::SetPdeathsig => {
            if arg2 != 0 && !signal_valid {
                return Err(SyscallError::InvalidArguments);
            }
            state.parent_death_signal = arg2;
            Ok((0, PrctlEffect::Nothing))
        },
        PrctlOption::SetDumpable => {
            if arg2 > 1 {
                return Err(SyscallError::InvalidArguments);
            }
            state.dumpable = arg2 != 0;
            Ok((0, PrctlEffect::Nothing))
        },
        PrctlOption::SetName => Ok((0, PrctlEffect::SetThreadName { addr: arg2 })),
        PrctlOption::SetChildSubreaper => {
            state.child_subreaper = arg2 != 0;
            Ok((0, PrctlEffect::Nothing))
        },
        PrctlOption::SetNoNewPrivs => {
            if arg2 != 1 || arg3 != 0 {
                return Err(SyscallError::InvalidArguments);
            }
            state.no_new_privs = true;
            Ok((0, PrctlEffect::Nothing))
        },
        PrctlOption::SetKeepCaps => {
            if arg2 > 1 {
                return Err(SyscallError::InvalidArguments);
            }
            state.keep_capabilities = arg2 != 0;
            Ok((0, PrctlEffect::Nothing))
        },
        PrctlOption::SetSecureBits => {
            state.secure_bits = arg2 as u32;
            Ok((0, PrctlEffect::Nothing))
        },
        PrctlOption::GetPdeathsig => {
            if arg2 == 0 {
                return Err(SyscallError::BadAddress);
            }
            Ok((0, PrctlEffect::WriteI32 { addr: arg2, value: state.parent_death_signal as i32 }))
        },
        PrctlOption::GetDumpable => Ok((if state.dumpable { 1 } else { 0 }, PrctlEffect::Nothing)),
        PrctlOption::GetChildSubreaper => {
            if arg2 == 0 {
                return Err(SyscallError::BadAddress);
            }
            Ok(
                (
                    0,
                    PrctlEffect::WriteI32 {
                        addr: arg2,
                        value: if state.child_subreaper {
                            1
                        } else {
                            0
                        },
                    },
                ),
            )
        },
        PrctlOption::GetNoNewPrivs => Ok((if state.no_new_privs { 1 } else { 0 }, PrctlEffect::Nothing)),
        PrctlOption::GetMdwe => Ok((0, PrctlEffect::Nothing)),
        PrctlOption::GetKeepCaps => Ok((if state.keep_capabilities { 1 } else { 0 }, PrctlEffect::Nothing)),
        PrctlOption::GetSecureBits => Ok((state.secure_bits as usize, PrctlEffect::Nothing)),
        PrctlOption::GetName => {
            if arg2 == 0 {
                return Err(SyscallError::BadAddress);
            }
            Ok((0, PrctlEffect::WriteThreadName { addr: arg2 }))
        },
        PrctlOption::CapbsetRead => {
            let (slot, mask) = capability_slot_and_mask(arg2)?;
            Ok((if state.capability_bounding[slot] & mask != 0 { 1 } else { 0 }, PrctlEffect::Nothing))
        },
        PrctlOption::CapbsetDrop => {
            let (slot, mask) = capability_slot_and_mask(arg2)?;
            let word = state.capability_bounding[slot] & !mask;
            state.capability_bounding[slot] = word;
            proof {
                assert(state.capability_bounding@ =~= set_word(old(state).capability_bounding, slot as int, word)@);
                assert(state.capability_bounding == set_word(old(state).capability_bounding, slot as int, word));
            }
            Ok((0, PrctlEffect::Nothing))
        },
        PrctlOption::CapAmbient => {
            if arg2 == 4 {
                state.capability_ambient = [0, 0];
                return Ok((0, PrctlEffect::Nothing));
            }
            if arg2 < 1 || arg2 > 4 {
                return Err(SyscallError::InvalidArguments);
            }
            let (slot, mask) = capability_slot_and_mask(arg3)?;
            if arg2 == 1 {
                Ok((if state.capability_ambient[slot] & mask != 0 { 1 } else { 0 }, PrctlEffect::Nothing))
            } else if arg2 == 2 {
                let word = state.capability_ambient[slot] | mask;
                state.capability_ambient[slot] = word;
                proof {
                    assert(state.capability_ambient@ =~= set_word(old(state).capability_ambient, slot as int, word)@);
                    assert(state.capability_ambient == set_word(old(state).capability_ambient, slot as int, word));
                }
                Ok((0, PrctlEffect::Nothing))
            } else {
                let word = state.capability_ambient[slot] & !mask;
                state.capability_ambient[slot] = word;
                proof {
                    assert(state.capability_ambient@ =~= set_word(old(state).capability_ambient, slot as int, word)@);
                    assert(state.capability_ambient == set_word(old(state).capability_ambient, slot as int, word));
                }
                Ok((0, PrctlEffect::Nothing))
            }
        },
    }
}

/// The name `PR_SET_NAME` gives a thread from the bytes read at its pointer: up to the first
/// zero, at most sixteen read, the last byte always zero, zero filled.
pub open spec fn prctl_name(read: Seq<u8>) -> Seq<u8> {
    Seq::new(16, |i: int| if i < read.len() && i < 15 { read[i] } else { 0u8 })
}

/// The thread name `PR_SET_NAME` stores, from the bytes read at its pointer (the caller reads
/// at most sixteen and stops after a zero; a null pointer is `BadAddress`).
pub fn prctl_name_from_bytes(ptr_is_null: bool, read: &[u8]) -> (r: Result<[u8; 16], SyscallError>)
    requires
        read@.len() <= 16,
    ensures
        ptr_is_null ==> r == Err::<[u8; 16], SyscallError>(SyscallError::BadAddress),
        !ptr_is_null ==> r is Ok && r->Ok_0@ == prctl_name(read@),
{
    if ptr_is_null {
        return Err(SyscallError::BadAddress);
    }
    let mut name: [u8; 16] = [0; 16];
    let mut i: usize = 0;
    while i < read.len() && i < 15
        invariant
            i <= read@.len() <= 16,
            i <= 15,
            forall|k: int| 0 <= k < i ==> name@[k] == read@[k],
            forall|k: int| i <= k < 16 ==> name@[k] == 0u8,
            name@.len() == 16,
        decreases 16 - i,
    {
        name[i] = read[i];
        i += 1;
    }
    assert(name@ =~= prctl_name(read@));
    Ok(name)
}


/// What follows the last `/` of `s` (all of `s` when it has none).
pub open spec fn last_segment(s: Seq<u8>) -> Seq<u8>
    decreases s.len(),
{
    if s.len() == 0 {
        s
    } else if s.last() == 0x2fu8 {
        Seq::empty()
    } else {
        last_segment(s.drop_last()).push(s.last())
    }
}

/// `main`, the name a thread without a command line gets.
pub open spec fn main_name() -> Seq<u8> {
    seq![0x6du8, 0x61u8, 0x69u8, 0x6eu8]
}

/// The name `PR_GET_NAME` reports: the thread's own name where it has one, else the first
/// fifteen bytes of the last path segment of the process's command (or of `main`), zero
/// filled.
pub open spec fn thread_name_spec(thread_name: Seq<u8>, command: Option<Seq<u8>>) -> Seq<u8> {
    if exists|i: int| 0 <= i < thread_name.len() && thread_name[i] != 0u8 {
        thread_name
    } else {
        let base = last_segment(
            match command {
                Some(c) => c,
                None => main_name(),
            },
        );
        Seq::new(16, |i: int| if i < base.len() && i < 15 { base[i] } else { 0u8 })
    }
}

/// What follows the last `/` of `s`.
pub fn last_path_segment(s: &[u8]) -> (r: Vec<u8>)
    ensures
        r@ == last_segment(s@),
{
    let mut start: usize = 0;
    let mut i: usize = 0;
    while i < s.len()
        invariant
            start <= i <= s.len(),
            last_segment(s@.take(i as int)) == s@.subrange(start as int, i as int),
        decreases s.len() - i,
    {
        assert(s@.take(i + 1).drop_last() =~= s@.take(i as int));
        if s[i] == 0x2f {
            start = i + 1;
            assert(s@.subrange(start as int, i + 1) =~= Seq::<u8>::empty());
        } else {
            assert(s@.subrange(start as int, i + 1) =~= s@.subrange(start as int, i as int).push(s@[i as int]));
        }
        i += 1;
    }
    assert(s@.take(s@.len() as int) =~= s@);
    let mut out: Vec<u8> = Vec::new();
    let mut k: usize = start;
    while k < s.len()
        invariant
            start <= k <= s.len(),
            out@ == s@.subrange(start as int, k as int),
        decreases s.len() - k,
    {
        out.push(s[k]);
        k += 1;
        assert(out@ =~= s@.subrange(start as int, k as int));
    }
    out
}

/// The name `PR_GET_NAME` reports for a thread named `thread_name` in a process whose command
/// line starts with `command`.
pub fn current_thread_name(thread_name: [u8; 16], command: Option<&[u8]>) -> (r: [u8; 16])
    ensures
        r@ == thread_name_spec(thread_name@, match command { Some(c) => Some(c@), None => None }),
{
    let mut named = false;
    let mut i: usize = 0;
    while i < 16
        invariant
            i <= 16,
            named == exists|j: int| 0 <= j < i && thread_name@[j] != 0u8,
        decreases 16 - i,
    {
        if thread_name[i] != 0 {
            named = true;
        }
        i += 1;
    }
    if named {
        return thread_name;
    }
    let main: [u8; 4] = [0x6d, 0x61, 0x69, 0x6e];
    assert(main@ =~= main_name());
    let base = match command {
        Some(c) => last_path_segment(c),
        None => last_path_segment(&main),
    };
    let mut name: [u8; 16] = [0; 16];
    let mut k: usize = 0;
    while k < base.len() && k < 15
        invariant
            k <= 15,
            k <= base@.len(),
            name@.len() == 16,
            forall|j: int| 0 <= j < k ==> name@[j] == base@[j],
            forall|j: int| k <= j < 16 ==> name@[j] == 0u8,
        decreases 15 - k,
    {
        name[k] = base[k];
        k += 1;
    }
    assert(name@ =~= thread_name_spec(thread_name@, match command { Some(c) => Some(c@), None => None }));
    name
}

/// The bitwise facts behind setting, clearing and testing one capability bit.
proof fn lemma_cap_bits(w: u32, a: u32, b: u32)
    by (bit_vector)
    requires
        a < 32,
        b < 32,
    ensures
        (w | (1u32 << a)) & (1u32 << a) != 0,
        (w & !(1u32 << a)) & (1u32 << a) == 0,
        a != b ==> (((w | (1u32 << a)) & (1u32 << b)) != 0) == ((w & (1u32 << b)) != 0),
        a != b ==> (((w & !(1u32 << a)) & (1u32 << b)) != 0) == ((w & (1u32 << b)) != 0),
        0u32 & (1u32 << a) == 0,
{
}

/// The bit facts for capabilities `c` and `d` in every word of a pair of sets.
proof fn lemma_cap_words(words: [u32; 2], c: u64, d: u64)
    requires
        c < 64,
        d < 64,
    ensures
        forall|i: int|
            0 <= i < 2 ==> {
                &&& (words[i] | (1u32 << ((c % 32) as u32))) & (1u32 << ((c % 32) as u32)) != 0
                &&& (words[i] & !(1u32 << ((c % 32) as u32))) & (1u32 << ((c % 32) as u32)) == 0
                &&& c % 32 != d % 32 ==> (((words[i] | (1u32 << ((c % 32) as u32))) & (1u32 << ((d
                    % 32) as u32))) != 0) == ((words[i] & (1u32 << ((d % 32) as u32))) != 0)
                &&& c % 32 != d % 32 ==> (((words[i] & !(1u32 << ((c % 32) as u32))) & (1u32 << ((d
                    % 32) as u32))) != 0) == ((words[i] & (1u32 << ((d % 32) as u32))) != 0)
            },
        0u32 & (1u32 << ((c % 32) as u32)) == 0,
{
    lemma_cap_bits(words[0], (c % 32) as u32, (d % 32) as u32);
    lemma_cap_bits(words[1], (c % 32) as u32, (d % 32) as u32);
}

/// The ambient capability set through `PR_CAP_AMBIENT` (option 47): `IS_SET` (1) answers 1
/// exactly when capability `c` is in the ambient set, and changes nothing; `RAISE` (2) puts
/// `c` in it, `LOWER` (3) takes `c` out, `CLEAR_ALL` (4) empties it; raising and lowering
/// leave every other capability and the bounding set as they were. So `IS_SET` after
/// `RAISE` of `c` answers 1, and after `LOWER` or `CLEAR_ALL` answers 0, whatever the
/// bounding set holds.
pub proof fn lemma_ambient_capabilities(s: PrctlState, c: u64, d: u64, signal_valid: bool)
    requires
        c < 64,
        d < 64,
    ensures
        prctl_spec(s, 47, 1, c, signal_valid) == (s, Ok::<(usize, PrctlEffect), SyscallError>(
            (if cap_set(s.capability_ambient@, c) { 1usize } else { 0usize }, PrctlEffect::Nothing),
        )),
        prctl_spec(s, 47, 2, c, signal_valid).1 == Ok::<(usize, PrctlEffect), SyscallError>((0, PrctlEffect::Nothing)),
        cap_set(prctl_spec(s, 47, 2, c, signal_valid).0.capability_ambient@, c),
        !cap_set(prctl_spec(s, 47, 3, c, signal_valid).0.capability_ambient@, c),
        !cap_set(prctl_spec(s, 47, 4, 0, signal_valid).0.capability_ambient@, c),
        d != c ==> cap_set(prctl_spec(s, 47, 2, c, signal_valid).0.capability_ambient@, d)
            == cap_set(s.capability_ambient@, d),
        d != c ==> cap_set(prctl_spec(s, 47, 3, c, signal_valid).0.capability_ambient@, d)
            == cap_set(s.capability_ambient@, d),
        prctl_spec(s, 47, 2, c, signal_valid).0.capability_bounding == s.capability_bounding,
        prctl_spec(s, 47, 3, c, signal_valid).0.capability_bounding == s.capability_bounding,
        prctl_spec(prctl_spec(s, 47, 2, c, signal_valid).0, 47, 1, c, signal_valid).1 == Ok::<
            (usize, PrctlEffect),
            SyscallError,
        >((1, PrctlEffect::Nothing)),
        prctl_spec(prctl_spec(s, 47, 3, c, signal_valid).0, 47, 1, c, signal_valid).1 == Ok::<
            (usize, PrctlEffect),
            SyscallError,
        >((0, PrctlEffect::Nothing)),
{
    lemma_cap_words(s.capability_ambient, c, d);
    let raised = prctl_spec(s, 47, 2, c, signal_valid).0;
    let lowered = prctl_spec(s, 47, 3, c, signal_valid).0;
    lemma_cap_words(raised.capability_ambient, c, d);
    lemma_cap_words(lowered.capability_ambient, c, d);
    assert(c / 32 == d / 32 && c != d ==> c % 32 != d % 32);
}

/// The bounding set through `PR_CAPBSET_READ` (23) and `PR_CAPBSET_DROP` (24): reading
/// answers 1 exactly when capability `c` is in the bounding set; dropping takes `c` out and
/// leaves every other capability and the ambient set as they were.
pub proof fn lemma_bounding_capabilities(s: PrctlState, c: u64, d: u64, signal_valid: bool)
    requires
        c < 64,
        d < 64,
    ensures
        prctl_spec(s, 23, c, 0, signal_valid) == (s, Ok::<(usize, PrctlEffect), SyscallError>(
            (if cap_set(s.capability_bounding@, c) { 1usize } else { 0usize }, PrctlEffect::Nothing),
        )),
        !cap_set(prctl_spec(s, 24, c, 0, signal_valid).0.capability_bounding@, c),
        d != c ==> cap_set(prctl_spec(s, 24, c, 0, signal_valid).0.capability_bounding@, d)
            == cap_set(s.capability_bounding@, d),
        prctl_spec(s, 24, c, 0, signal_valid).0.capability_ambient == s.capability_ambient,
{
    lemma_cap_words(s.capability_bounding, c, d);
    lemma_cap_words(prctl_spec(s, 24, c, 0, signal_valid).0.capability_bounding, c, d);
    assert(c / 32 == d / 32 && c != d ==> c % 32 != d % 32);
}

/// Reading a setting back gives what was set: `PR_GET_DUMPABLE` (3) after
/// `PR_SET_DUMPABLE` (4) with 0 or 1 answers that value; `PR_GET_KEEPCAPS` (7) after
/// `PR_SET_KEEPCAPS` (8) likewise; `PR_GET_NO_NEW_PRIVS` (39) answers 1 after
/// `PR_SET_NO_NEW_PRIVS` (38, with 1 and 0) and the flag is never cleared;
/// `PR_GET_PDEATHSIG` (2) stores the signal that `PR_SET_PDEATHSIG` (1) set;
/// `PR_GET_CHILD_SUBREAPER` (37) stores 1 or 0 as `PR_SET_CHILD_SUBREAPER` (36) asked;
/// `PR_GET_SECUREBITS` (27) answers what `PR_SET_SECUREBITS` (28) set.
pub proof fn lemma_prctl_settings_read_back(s: PrctlState, v: u64, addr: u64, signal_valid: bool)
    requires
        addr != 0,
    ensures
        v <= 1 ==> prctl_spec(prctl_spec(s, 4, v, 0, signal_valid).0, 3, 0, 0, signal_valid).1
            == Ok::<(usize, PrctlEffect), SyscallError>((v as usize, PrctlEffect::Nothing)),
        v <= 1 ==> prctl_spec(prctl_spec(s, 8, v, 0, signal_valid).0, 7, 0, 0, signal_valid).1
            == Ok::<(usize, PrctlEffect), SyscallError>((v as usize, PrctlEffect::Nothing)),
        prctl_spec(prctl_spec(s, 38, 1, 0, signal_valid).0, 39, 0, 0, signal_valid).1 == Ok::<
            (usize, PrctlEffect),
            SyscallError,
        >((1, PrctlEffect::Nothing)),
        forall|option: i32, a2: u64, a3: u64, sv: bool|
            #![trigger prctl_spec(s, option, a2, a3, sv)]
            s.no_new_privs ==> prctl_spec(s, option, a2, a3, sv).0.no_new_privs,
        (v == 0 || signal_valid) ==> prctl_spec(prctl_spec(s, 1, v, 0, signal_valid).0, 2, addr, 0, signal_valid).1
            == Ok::<(usize, PrctlEffect), SyscallError>(
            (0, PrctlEffect::WriteI32 { addr, value: v as i32 }),
        ),
        prctl_spec(prctl_spec(s, 36, v, 0, signal_valid).0, 37, addr, 0, signal_valid).1 == Ok::<
            (usize, PrctlEffect),
            SyscallError,
        >((0, PrctlEffect::WriteI32 { addr, value: if v != 0 { 1i32 } else { 0i32 } })),
        prctl_spec(prctl_spec(s, 28, v, 0, signal_valid).0, 27, 0, 0, signal_valid).1 == Ok::<
            (usize, PrctlEffect),
            SyscallError,
        >(((v as u32) as usize, PrctlEffect::Nothing)),
{
}

} // verus!
