use vstd::prelude::*;
use crate::error::SyscallError;

verus! {

/// How far below the top of user memory the program break starts.
pub const INITIAL_BRK_RESERVE: u64 = 0x4000_0000;

/// The program break of a process and what bounds it.
#[derive(Clone, Copy, Debug, PartialEq, Eq, Structural)]
pub struct ProgramBreak {
    /// The current break; zero until first used.
    pub program_break: u64,
    /// Where the break started.
    pub base: u64,
    /// The top of the user memory handed out so far.
    pub user_mem: u64,
}

/// What a `brk` call does to the address space.
#[derive(Clone, Copy, Debug, PartialEq, Eq, Structural)]
pub enum BrkAreaChange {
    Unchanged,
    /// Map `pages` read-write pages from `start` on.
    Grow { start: u64, pages: u64 },
    /// Unmap `len` bytes from `start` on.
    Shrink { start: u64, len: u64 },
}

/// `n` rounded up to a page, as `u64::div_ceil` does.
pub open spec fn page_ceil(n: u64) -> int {
    ((n as int + 4095) / 4096) * 4096
}

/// The break a process starts with: the reserve below its user memory top.
pub open spec fn initial_break(user_mem: u64) -> u64 {
    if user_mem < INITIAL_BRK_RESERVE {
        0
    } else {
        (user_mem - INITIAL_BRK_RESERVE) as u64
    }
}

/// What `brk(addr)` does: a first use puts the break `INITIAL_BRK_RESERVE` below the user
/// memory top; `0` asks for the break; a request past `user_mem_end`, past the data limit or
/// that overflows leaves it; otherwise the pages between the old and new page-rounded
/// breaks are mapped or unmapped and the break becomes `addr`.
pub open spec fn brk_spec(b: ProgramBreak, addr: u64, user_mem_end: u64, data_limit: u64) -> (
    ProgramBreak,
    BrkAreaChange,
    u64,
) {
    let b1 = if b.program_break == 0 {
        ProgramBreak { program_break: initial_break(b.user_mem), base: initial_break(b.user_mem), ..b }
    } else {
        b
    };
    let current = b1.program_break;
    let old_aligned = page_ceil(current);
    let new_aligned = ((addr + 4095) / 4096) * 4096;
    if addr == 0 || addr + 4095 > u64::MAX || new_aligned >= user_mem_end || (if new_aligned < b1.base {
        0
    } else {
        new_aligned - b1.base
    }) > data_limit {
        (b1, BrkAreaChange::Unchanged, current)
    } else {
        let change = if new_aligned > old_aligned {
            BrkAreaChange::Grow { start: old_aligned as u64, pages: ((new_aligned - old_aligned) / 4096) as u64 }
        } else if new_aligned < old_aligned {
            BrkAreaChange::Shrink { start: new_aligned as u64, len: (old_aligned - new_aligned) as u64 }
        } else {
            BrkAreaChange::Unchanged
        };
        (
            ProgramBreak {
                program_break: addr,
                user_mem: if b1.user_mem < new_aligned {
                    new_aligned as u64
                } else {
                    b1.user_mem
                },
                ..b1
            },
            change,
            addr,
        )
    }
}

/// What `brk` does, for every request: the answer is always the break it leaves; `brk(0)`
/// changes nothing and answers the current break; any other request either is refused (the
/// break and the address space stay) or makes `addr` the break, after which `brk(0)` answers
/// `addr`. Growing maps page-aligned memory from the old page-rounded break up to at least
/// `addr`; shrinking unmaps page-aligned memory at or above `addr`. The start of the break
/// area never moves once set, and user memory never shrinks.
pub proof fn lemma_brk_meaning(b: ProgramBreak, addr: u64, user_mem_end: u64, data_limit: u64)
    ensures
        ({
            let (nb, change, answer) = brk_spec(b, addr, user_mem_end, data_limit);
            let current = if b.program_break == 0 {
                initial_break(b.user_mem)
            } else {
                b.program_break
            };
            &&& answer == nb.program_break
            &&& answer == addr || (answer == current && change == BrkAreaChange::Unchanged)
            &&& addr == 0 ==> answer == current && change == BrkAreaChange::Unchanged
            &&& b.program_break != 0 ==> nb.base == b.base
            &&& nb.user_mem >= b.user_mem
            &&& (change matches BrkAreaChange::Grow { start, pages } ==> start % 4096 == 0
                && pages > 0 && start + pages * 4096 >= addr && answer == addr)
            &&& (change matches BrkAreaChange::Shrink { start, len } ==> start % 4096 == 0 && len
                > 0 && start >= addr && answer == addr)
            &&& (answer == addr && addr != 0 ==> brk_spec(nb, 0, user_mem_end, data_limit).2
                == addr)
        }),
{
}

/// `brk`: the new program break state, what to map or unmap, and the answer.
pub fn brk(b: &mut ProgramBreak, addr: u64, user_mem_end: u64, data_limit: u64) -> (r: (BrkAreaChange, u64))
    requires
        old(b).program_break != 0 ==> page_ceil(old(b).program_break) <= u64::MAX,
    ensures
        (*final(b), r.0, r.1) == brk_spec(*old(b), addr, user_mem_end, data_limit),
{
    if b.program_break == 0 {
        b.program_break = b.user_mem.saturating_sub(INITIAL_BRK_RESERVE);
        b.base = b.program_break;
    }
    let current = b.program_break;
    if addr == 0 {
        return (BrkAreaChange::Unchanged, current);
    }
    assert(page_ceil(current) <= u64::MAX) by {
        if old(b).program_break == 0 {
            assert(current <= u64::MAX - INITIAL_BRK_RESERVE);
        }
    }
    let old_aligned = (current / 4096 + if current % 4096 != 0 { 1u64 } else { 0u64 }) * 4096;
    assert(old_aligned == page_ceil(current)) by (nonlinear_arith)
        requires
            old_aligned == (current / 4096 + if current % 4096 != 0 { 1int } else { 0int }) * 4096,
    ;
    let new_aligned = match addr.checked_add(4095) {
        None => return (BrkAreaChange::Unchanged, current),
        Some(a) => a / 4096 * 4096,
    };
    if new_aligned >= user_mem_end {
        return (BrkAreaChange::Unchanged, current);
    }
    if new_aligned.saturating_sub(b.base) > data_limit {
        return (BrkAreaChange::Unchanged, current);
    }
    let change = if new_aligned > old_aligned {
        BrkAreaChange::Grow { start: old_aligned, pages: (new_aligned - old_aligned) / 4096 }
    } else if new_aligned < old_aligned {
        BrkAreaChange::Shrink { start: new_aligned, len: old_aligned - new_aligned }
    } else {
        BrkAreaChange::Unchanged
    };
    if b.user_mem < new_aligned {
        b.user_mem = new_aligned;
    }
    b.program_break = addr;
    (change, addr)
}

/// `getrandom` flags.
pub const GRND_NONBLOCK: u32 = 0x1;
pub const GRND_RANDOM: u32 = 0x2;
pub const GRND_INSECURE: u32 = 0x4;

/// One step of the xorshift generator.
pub open spec fn xorshift_step(s: u64) -> u64 {
    let a = s ^ (s << 13u64);
    let b = a ^ (a >> 7u64);
    b ^ (b << 17u64)
}

/// The generator's state after `n` steps from `seed`.
pub open spec fn xorshift_state(seed: u64, n: nat) -> u64
    decreases n,
{
    if n == 0 {
        seed
    } else {
        xorshift_step(xorshift_state(seed, (n - 1) as nat))
    }
}

/// The bytes `getrandom` gives from `seed`: the low byte of each state after a step.
pub open spec fn xorshift_bytes(seed: u64, len: nat) -> Seq<u8> {
    Seq::new(len, |i: int| xorshift_state(seed, (i + 1) as nat) as u8)
}

/// `x` rotated left by `k` bits (`k` between 1 and 63).
pub open spec fn rotl(x: u64, k: u64) -> u64 {
    (x << k) | (x >> ((64 - k) as u64))
}

/// `x` rotated left by `k` bits.
pub fn rotate_left_u64(x: u64, k: u64) -> (r: u64)
    requires
        1 <= k <= 63,
    ensures
        r == rotl(x, k),
{
    (x << k) | (x >> (64 - k))
}

/// The seed `getrandom` starts from: the two clocks and the request's buffer and length,
/// mixed.
pub open spec fn getrandom_seed(since_boot_ns: u64, now_ns: u64, buf: u64, len: u64) -> u64 {
    since_boot_ns ^ now_ns ^ rotl(buf, 17) ^ rotl(len, 33)
}

/// The bytes `getrandom` writes, given the seed.
pub fn xorshift_fill(seed: u64, len: usize) -> (r: Vec<u8>)
    ensures
        r@ == xorshift_bytes(seed, len as nat),
{
    let mut state = seed;
    let mut out: Vec<u8> = Vec::new();
    let mut i: usize = 0;
    while i < len
        invariant
            i <= len,
            state == xorshift_state(seed, i as nat),
            out@ == xorshift_bytes(seed, i as nat),
        decreases len - i,
    {
        state = state ^ (state << 13);
        state = state ^ (state >> 7);
        state = state ^ (state << 17);
        out.push(state as u8);
        i += 1;
        assert(out@ =~= xorshift_bytes(seed, i as nat));
    }
    out
}

/// `getrandom`: unknown flags are invalid, nothing asked is nothing done, a buffer is needed;
/// `Ok(Some(bytes))` are the bytes to store (the answer is their count).
pub fn getrandom(buf: u64, len: usize, flags: u32, since_boot_ns: u64, now_ns: u64) -> (r: Result<
    Option<Vec<u8>>,
    SyscallError,
>)
    ensures
        flags & !(GRND_NONBLOCK | GRND_RANDOM | GRND_INSECURE) != 0 ==> r == Err::<Option<Vec<u8>>, SyscallError>(
            SyscallError::InvalidArguments,
        ),
        flags & !(GRND_NONBLOCK | GRND_RANDOM | GRND_INSECURE) == 0 && len == 0 ==> r == Ok::<Option<Vec<u8>>, SyscallError>(None),
        flags & !(GRND_NONBLOCK | GRND_RANDOM | GRND_INSECURE) == 0 && len != 0 && buf == 0 ==> r == Err::<Option<Vec<u8>>, SyscallError>(
            SyscallError::BadAddress,
        ),
        flags & !(GRND_NONBLOCK | GRND_RANDOM | GRND_INSECURE) == 0 && len != 0 && buf != 0 ==> r is Ok && r->Ok_0 is Some
            && r->Ok_0->0@ == xorshift_bytes(getrandom_seed(since_boot_ns, now_ns, buf, len as u64), len as nat),
{
    if flags & !(GRND_NONBLOCK | GRND_RANDOM | GRND_INSECURE) != 0 {
        return Err(SyscallError::InvalidArguments);
    }
    if len == 0 {
        return Ok(None);
    }
    if buf == 0 {
        return Err(SyscallError::BadAddress);
    }
    let seed = since_boot_ns ^ now_ns ^ rotate_left_u64(buf, 17) ^ rotate_left_u64(len as u64, 33);
    Ok(Some(xorshift_fill(seed, len)))
}

/// `umask`: the new mask keeps the permission bits; the answer is the old mask.
pub fn umask(creation_mask: &mut u32, mask: u32) -> (r: usize)
    ensures
        r == *old(creation_mask),
        *final(creation_mask) == mask & 0o777,
{
    let old_mask = *creation_mask;
    *creation_mask = mask & 0o777;
    old_mask as usize
}

/// `reboot` magics and the commands this kernel takes.
pub const LINUX_REBOOT_MAGIC1: u32 = 0xfee1_dead;
pub const LINUX_REBOOT_MAGIC2: u32 = 0x2812_1969;
pub const LINUX_REBOOT_CMD_CAD_OFF: u32 = 0x0000_0000;
pub const LINUX_REBOOT_CMD_CAD_ON: u32 = 0x89ab_cdef;

/// `reboot`: with both magics, the two Ctrl-Alt-Del commands say whether it is to be
/// enabled; anything else is invalid.
pub fn reboot_cad_setting(magic1: u32, magic2: u32, cmd: u32) -> (r: Result<bool, SyscallError>)
    ensures
        r == if magic1 != LINUX_REBOOT_MAGIC1 || magic2 != LINUX_REBOOT_MAGIC2 {
            Err::<bool, SyscallError>(SyscallError::InvalidArguments)
        } else if cmd == LINUX_REBOOT_CMD_CAD_OFF {
            Ok(false)
        } else if cmd == LINUX_REBOOT_CMD_CAD_ON {
            Ok(true)
        } else {
            Err(SyscallError::InvalidArguments)
        },
{
    if magic1 != LINUX_REBOOT_MAGIC1 || magic2 != LINUX_REBOOT_MAGIC2 {
        return Err(SyscallError::InvalidArguments);
    }
    if cmd == LINUX_REBOOT_CMD_CAD_OFF {
        Ok(false)
    } else if cmd == LINUX_REBOOT_CMD_CAD_ON {
        Ok(true)
    } else {
        Err(SyscallError::InvalidArguments)
    }
}

/// `getrusage`: `who` is the caller (0), its children (-1) or the thread (1), and the buffer
/// must exist (it gets all zeros).
pub fn getrusage_check(who: i32, usage_is_null: bool) -> (r: Result<(), SyscallError>)
    ensures
        r == if !(who == 0 || who == -1 || who == 1) {
            Err::<(), SyscallError>(SyscallError::InvalidArguments)
        } else if usage_is_null {
            Err(SyscallError::BadAddress)
        } else {
            Ok(())
        },
{
    if !(who == 0 || who == -1 || who == 1) {
        return Err(SyscallError::InvalidArguments);
    }
    if usage_is_null {
        return Err(SyscallError::BadAddress);
    }
    Ok(())
}

/// The longest host name.
pub const HOST_NAME_MAX: usize = 64;

/// `sethostname` takes at most `HOST_NAME_MAX` bytes.
pub fn sethostname_check(len: usize) -> (r: Result<(), SyscallError>)
    ensures
        r == if len > HOST_NAME_MAX {
            Err::<(), SyscallError>(SyscallError::InvalidArguments)
        } else {
            Ok(())
        },
{
    if len > HOST_NAME_MAX {
        Err(SyscallError::InvalidArguments)
    } else {
        Ok(())
    }
}

/// `rt_sigsuspend` takes a signal set of eight bytes, at a valid pointer; it then waits
/// until a signal interrupts it.
pub fn sigsuspend_check(sigset_size: usize, mask_is_null: bool) -> (r: Result<(), SyscallError>)
    ensures
        r == if sigset_size != 8 {
            Err::<(), SyscallError>(SyscallError::InvalidArguments)
        } else if mask_is_null {
            Err(SyscallError::BadAddress)
        } else {
            Ok(())
        },
{
    if sigset_size != 8 {
        return Err(SyscallError::InvalidArguments);
    }
    if mask_is_null {
        return Err(SyscallError::BadAddress);
    }
    Ok(())
}

} // verus!
