use vstd::prelude::*;
use crate::error::SyscallError;
use crate::futex::{
    bucket_or_default, key_of, queue_after_push, queue_waiter_in_locked_queue, queue_with_waiters,
    take_futex_waiters, take_spec, threads_of, lemma_take_partition, wake_futex_for_process, FutexKey, FutexQueue,
    FutexWaitId, ThreadId, ThreadManager, BucketView, FutexWaiter,
};

verus! {

/// Set in a PI futex word when threads wait on it.
pub const FUTEX_WAITERS: u32 = 0x8000_0000;
/// Set in a PI futex word when its owner died while holding it.
pub const FUTEX_OWNER_DIED: u32 = 0x4000_0000;
/// The owner's thread id within a PI futex word.
pub const FUTEX_TID_MASK: u32 = 0x3fff_ffff;
/// The bitset that every waiter matches.
pub const FUTEX_BITSET_MATCH_ANY: u64 = 0xffff_ffff;
/// Selects `CLOCK_REALTIME` for absolute timeouts.
pub const FUTEX_CLOCK_REALTIME: u64 = 0x100;
/// The bit of the wake-op argument that turns it into a shift count.
pub const FUTEX_OP_OPARG_SHIFT: u32 = 8;

/// The futex operations the kernel implements.
#[derive(Clone, Copy, Debug, PartialEq, Eq, Structural)]
pub enum FutexOp {
    Wait,
    Wake,
    Requeue,
    CmpRequeue,
    WakeOp,
    LockPi,
    UnlockPi,
    TrylockPi,
    WaitBitset,
    WakeBitset,
}

pub open spec fn futex_op_spec(base: u64) -> Option<FutexOp> {
    if base == 0 {
        Some(FutexOp::Wait)
    } else if base == 1 {
        Some(FutexOp::Wake)
    } else if base == 3 {
        Some(FutexOp::Requeue)
    } else if base == 4 {
        Some(FutexOp::CmpRequeue)
    } else if base == 5 {
        Some(FutexOp::WakeOp)
    } else if base == 6 {
        Some(FutexOp::LockPi)
    } else if base == 7 {
        Some(FutexOp::UnlockPi)
    } else if base == 8 {
        Some(FutexOp::TrylockPi)
    } else if base == 9 {
        Some(FutexOp::WaitBitset)
    } else if base == 10 {
        Some(FutexOp::WakeBitset)
    } else {
        None
    }
}

/// Decodes the operation of a `futex` call; the flag bits above the low seven are ignored.
pub fn decode_futex_op(op: u64) -> (r: Result<FutexOp, SyscallError>)
    ensures
        r == match futex_op_spec(op & 0x7f) {
            Some(o) => Ok(o),
            None => Err(SyscallError::InvalidArguments),
        },
{
    let base = op & 0x7f;
    if base == 0 {
        Ok(FutexOp::Wait)
    } else if base == 1 {
        Ok(FutexOp::Wake)
    } else if base == 3 {
        Ok(FutexOp::Requeue)
    } else if base == 4 {
        Ok(FutexOp::CmpRequeue)
    } else if base == 5 {
        Ok(FutexOp::WakeOp)
    } else if base == 6 {
        Ok(FutexOp::LockPi)
    } else if base == 7 {
        Ok(FutexOp::UnlockPi)
    } else if base == 8 {
        Ok(FutexOp::TrylockPi)
    } else if base == 9 {
        Ok(FutexOp::WaitBitset)
    } else if base == 10 {
        Ok(FutexOp::WakeBitset)
    } else {
        Err(SyscallError::InvalidArguments)
    }
}

/// The bitset argument of the bitset operations: it must fit in 32 bits and not be zero.
pub fn futex_bitset_from_arg(val3: u64) -> (r: Result<u32, SyscallError>)
    ensures
        r == if val3 == 0 || val3 > u32::MAX {
            Err::<u32, SyscallError>(SyscallError::InvalidArguments)
        } else {
            Ok(val3 as u32)
        },
{
    if val3 > 0xffff_ffff {
        return Err(SyscallError::InvalidArguments);
    }
    let bitset = val3 as u32;
    if bitset == 0 {
        return Err(SyscallError::InvalidArguments);
    }
    Ok(bitset)
}

/// Whether the timeout is clocked against `CLOCK_REALTIME`.
pub fn futex_uses_realtime_clock(op: u64) -> (r: bool)
    ensures
        r == (op & FUTEX_CLOCK_REALTIME != 0),
{
    op & FUTEX_CLOCK_REALTIME != 0
}

/// A time span as user space passes it.
#[derive(Clone, Copy, Debug, PartialEq, Eq, Structural)]
pub struct LinuxTimespec {
    pub tv_sec: i64,
    pub tv_nsec: i64,
}

/// Reads the optional timeout of a futex call: a null pointer means no timeout;
/// `read` is what reading the pointed-to `timespec` gave.
pub fn futex_timeout_timespec(
    timeout: u64,
    read: Result<LinuxTimespec, SyscallError>,
) -> (r: Result<Option<LinuxTimespec>, SyscallError>)
    ensures
        timeout == 0 ==> r == Ok::<Option<LinuxTimespec>, SyscallError>(None),
        timeout != 0 ==> r == match read {
            Err(e) => Err(e),
            Ok(t) => if t.tv_sec < 0 || t.tv_nsec < 0 || t.tv_nsec >= 1_000_000_000 {
                Err(SyscallError::InvalidArguments)
            } else {
                Ok(Some(t))
            },
        },
{
    if timeout == 0 {
        return Ok(None);
    }
    let t = read?;
    if t.tv_sec < 0 || !(0 <= t.tv_nsec && t.tv_nsec < 1_000_000_000) {
        return Err(SyscallError::InvalidArguments);
    }
    Ok(Some(t))
}

/// The span in nanoseconds, clamped to `u64::MAX`; a negative field counts as a huge one.
pub open spec fn timespec_ns_spec(t: LinuxTimespec) -> int {
    if t.tv_sec < 0 || t.tv_nsec < 0 {
        u64::MAX as int
    } else {
        let total = t.tv_sec * 1_000_000_000 + t.tv_nsec;
        if total > u64::MAX {
            u64::MAX as int
        } else {
            total
        }
    }
}

/// Converts a `timespec` to nanoseconds, saturating at `u64::MAX`.
pub fn timespec_to_ns(timeout: LinuxTimespec) -> (r: u64)
    ensures
        r == timespec_ns_spec(timeout),
{
    if timeout.tv_sec < 0 || timeout.tv_nsec < 0 {
        return u64::MAX;
    }
    let sec = timeout.tv_sec as u128;
    let nsec = timeout.tv_nsec as u128;
    assert(sec * 1_000_000_000 <= 0x7fff_ffff_ffff_ffff * 1_000_000_000) by (nonlinear_arith)
        requires
            sec <= 0x7fff_ffff_ffff_ffff,
    ;
    let total = sec * 1_000_000_000 + nsec;
    if total > 0xffff_ffff_ffff_ffff {
        u64::MAX
    } else {
        total as u64
    }
}

/// `a + b` in nanoseconds, held at `u64::MAX`.
pub open spec fn add_ns_spec(a: u64, b: u64) -> u64 {
    if a + b > u64::MAX {
        u64::MAX
    } else {
        (a + b) as u64
    }
}

/// The deadline of a relative timeout: `now` (nanoseconds since boot) plus the span.
pub fn futex_relative_timeout_deadline(
    timeout: u64,
    read: Result<LinuxTimespec, SyscallError>,
    now: u64,
) -> (r: Result<Option<u64>, SyscallError>)
    ensures
        r == match futex_timeout_timespec_spec(timeout, read) {
            Err(e) => Err(e),
            Ok(None) => Ok(None),
            Ok(Some(t)) => Ok(Some(add_ns_spec(now, timespec_ns_spec(t) as u64))),
        },
{
    match futex_timeout_timespec(timeout, read) {
        Err(e) => Err(e),
        Ok(None) => Ok(None),
        Ok(Some(t)) => Ok(Some(now.saturating_add(timespec_to_ns(t)))),
    }
}

pub open spec fn futex_timeout_timespec_spec(
    timeout: u64,
    read: Result<LinuxTimespec, SyscallError>,
) -> Result<Option<LinuxTimespec>, SyscallError> {
    if timeout == 0 {
        Ok(None)
    } else {
        match read {
            Err(e) => Err(e),
            Ok(t) => if t.tv_sec < 0 || t.tv_nsec < 0 || t.tv_nsec >= 1_000_000_000 {
                Err(SyscallError::InvalidArguments)
            } else {
                Ok(Some(t))
            },
        }
    }
}

/// The deadline of an absolute timeout, in nanoseconds since boot. Against the real-time
/// clock the time left is measured from `now_realtime` and added to `now_boot`.
pub fn futex_absolute_timeout_deadline(
    timeout: u64,
    read: Result<LinuxTimespec, SyscallError>,
    clock_realtime: bool,
    now_boot: u64,
    now_realtime: u64,
) -> (r: Result<Option<u64>, SyscallError>)
    ensures
        r == match futex_timeout_timespec_spec(timeout, read) {
            Err(e) => Err(e),
            Ok(None) => Ok(None),
            Ok(Some(t)) => {
                let abs = timespec_ns_spec(t) as u64;
                if clock_realtime {
                    let delta = if abs >= now_realtime { (abs - now_realtime) as u64 } else { 0 };
                    Ok(Some(add_ns_spec(now_boot, delta)))
                } else {
                    Ok(Some(abs))
                }
            },
        },
{
    let timeout = match futex_timeout_timespec(timeout, read) {
        Err(e) => return Err(e),
        Ok(None) => return Ok(None),
        Ok(Some(t)) => t,
    };
    let absolute_ns = timespec_to_ns(timeout);
    if clock_realtime {
        let delta_ns = absolute_ns.saturating_sub(now_realtime);
        Ok(Some(now_boot.saturating_add(delta_ns)))
    } else {
        Ok(Some(absolute_ns))
    }
}

/// Whether a deadline has passed.
pub open spec fn expired(deadline: Option<u64>, now: u64) -> bool {
    match deadline {
        Some(d) => now >= d,
        None => false,
    }
}

/// The checks of `FUTEX_WAIT` before the caller sleeps: the word must still hold the
/// expected value and the deadline must lie ahead; then the thread is queued.
/// `observed` is what reading the futex word gave.
pub fn futex_wait_impl(
    queue: &mut FutexQueue,
    key: FutexKey,
    thread: ThreadId,
    observed: Result<u32, SyscallError>,
    expected: u64,
    deadline: Option<u64>,
    now: u64,
    bitset: u32,
) -> (r: Result<FutexWaitId, SyscallError>)
    requires
        old(queue).wf(),
    ensures
        final(queue).wf(),
        match observed {
            Err(e) => r == Err::<FutexWaitId, SyscallError>(e) && final(queue)@ == old(queue)@,
            Ok(v) => if v as u64 != expected {
                r == Err::<FutexWaitId, SyscallError>(SyscallError::TryAgain)
                    && final(queue)@ == old(queue)@
            } else if expired(deadline, now) {
                r == Err::<FutexWaitId, SyscallError>(SyscallError::TimedOut)
                    && final(queue)@ == old(queue)@
            } else {
                &&& r is Ok
                &&& r->Ok_0.key == key
                &&& r->Ok_0.waiter_id == bucket_or_default(old(queue)@, key_of(key)).next_waiter_id
                &&& final(queue)@ == queue_after_push(old(queue)@, key_of(key), thread, bitset)
            },
        },
{
    let cur_value = observed? as u64;
    if cur_value != expected {
        return Err(SyscallError::TryAgain);
    }
    if let Some(d) = deadline {
        if now >= d {
            return Err(SyscallError::TimedOut);
        }
    }
    Ok(queue_waiter_in_locked_queue(queue, key, thread, bitset))
}

/// After a waiter woke up: a passed deadline turns the wait into a timeout.
pub fn futex_wait_finish(deadline: Option<u64>, now: u64) -> (r: Result<usize, SyscallError>)
    ensures
        r == if expired(deadline, now) {
            Err::<usize, SyscallError>(SyscallError::TimedOut)
        } else {
            Ok(0)
        },
{
    if let Some(d) = deadline {
        if now >= d {
            return Err(SyscallError::TimedOut);
        }
    }
    Ok(0)
}

/// `FUTEX_WAKE`: once the word proved readable (`probe`), wakes up to `count` waiters.
pub fn futex_wake_impl(
    queue: &mut FutexQueue,
    manager: &mut ThreadManager,
    pid: u64,
    addr: u64,
    count: u64,
    probe: Result<u32, SyscallError>,
) -> (r: Result<usize, SyscallError>)
    requires
        old(queue).wf(),
    ensures
        final(queue).wf(),
        probe is Err ==> r == Err::<usize, SyscallError>(probe->Err_0) && final(queue)@ == old(queue)@
            && final(manager).run_queue@ == old(manager).run_queue@,
        probe is Ok ==> {
            let t = take_spec(old(queue).waiters_of((pid, addr)), (count as usize) as nat, None);
            &&& r == Ok::<usize, SyscallError>(t.0.len() as usize)
            &&& final(manager).run_queue@ == old(manager).run_queue@ + threads_of(t.0)
            &&& final(queue)@ == if old(queue)@.contains_key((pid, addr)) {
                queue_with_waiters(old(queue)@, (pid, addr), t.2 + t.1)
            } else {
                old(queue)@
            }
        },
{
    let _ = probe?;
    let woken = wake_futex_for_process(queue, manager, pid, addr, count as usize);
    Ok(woken)
}

/// `FUTEX_WAKE_BITSET`: like `FUTEX_WAKE`, but only waiters whose bitset meets `bitset` wake.
pub fn futex_wake_bitset_impl(
    queue: &mut FutexQueue,
    manager: &mut ThreadManager,
    pid: u64,
    addr: u64,
    count: u64,
    bitset: u32,
    probe: Result<u32, SyscallError>,
) -> (r: Result<usize, SyscallError>)
    requires
        old(queue).wf(),
    ensures
        final(queue).wf(),
        probe is Err ==> r == Err::<usize, SyscallError>(probe->Err_0) && final(queue)@ == old(queue)@
            && final(manager).run_queue@ == old(manager).run_queue@,
        probe is Ok ==> {
            let t = take_spec(old(queue).waiters_of((pid, addr)), (count as usize) as nat, Some(bitset));
            &&& r == Ok::<usize, SyscallError>(t.0.len() as usize)
            &&& final(manager).run_queue@ == old(manager).run_queue@ + threads_of(t.0)
            &&& final(queue)@ == if old(queue)@.contains_key((pid, addr)) {
                queue_with_waiters(old(queue)@, (pid, addr), t.2 + t.1)
            } else {
                old(queue)@
            }
        },
{
    let _ = probe?;
    let threads = take_futex_waiters(queue, pid, addr, count as usize, Some(bitset));
    let woken = threads.len();
    manager.wake_all(threads);
    Ok(woken)
}


/// The queue after each waiter of `ws`, in order, was queued again on `k` with a fresh id.
pub open spec fn enqueue_all(
    m: Map<(u64, u64), BucketView>,
    k: (u64, u64),
    ws: Seq<FutexWaiter>,
) -> Map<(u64, u64), BucketView>
    decreases ws.len(),
{
    if ws.len() == 0 {
        m
    } else {
        queue_after_push(enqueue_all(m, k, ws.drop_last()), k, ws.last().thread, ws.last().bitset)
    }
}

/// How many of `len` waiters a request for `requested` takes.
pub open spec fn min_count(requested: u64, len: nat) -> nat {
    if requested < len {
        requested as nat
    } else {
        len
    }
}

/// `FUTEX_REQUEUE` and `FUTEX_CMP_REQUEUE`: wakes up to `wake_count` waiters of `addr` and
/// moves up to `requeue_count` of the next ones, in order, to the end of `uaddr2`'s queue.
/// With `compare`, the word (`observed`) must still hold the expected value. Returns how
/// many woke and, for each moved thread, the id that names its new place.
pub fn futex_requeue_impl(
    queue: &mut FutexQueue,
    manager: &mut ThreadManager,
    pid: u64,
    addr: u64,
    wake_count: u64,
    requeue_count: u64,
    uaddr2: u64,
    compare: Option<u64>,
    observed: Result<u32, SyscallError>,
) -> (r: Result<(usize, Vec<(ThreadId, FutexWaitId)>), SyscallError>)
    requires
        old(queue).wf(),
    ensures
        final(queue).wf(),
        compare is Some && observed is Err ==> r == Err::<(usize, Vec<(ThreadId, FutexWaitId)>), SyscallError>(observed->Err_0),
        compare is Some && observed is Ok && observed->Ok_0 as u64 != compare->Some_0
            ==> r == Err::<(usize, Vec<(ThreadId, FutexWaitId)>), SyscallError>(SyscallError::TryAgain),
        r is Err ==> final(queue)@ == old(queue)@ && final(manager).run_queue@ == old(manager).run_queue@,
        (compare is None || (observed is Ok && observed->Ok_0 as u64 == compare->Some_0)) ==> {
            let s = old(queue).waiters_of((pid, addr));
            let nw = min_count(wake_count, s.len());
            let nm = min_count(requeue_count, (s.len() - nw) as nat);
            let moved = s.subrange(nw as int, (nw + nm) as int);
            let mid = if old(queue)@.contains_key((pid, addr)) {
                queue_with_waiters(old(queue)@, (pid, addr), s.skip((nw + nm) as int))
            } else {
                old(queue)@
            };
            &&& r is Ok
            &&& r->Ok_0.0 == nw
            &&& final(manager).run_queue@ == old(manager).run_queue@ + threads_of(s.take(nw as int))
            &&& final(queue)@ == enqueue_all(mid, (pid, uaddr2), moved)
            &&& r->Ok_0.1@.len() == nm
            &&& forall|i: int| 0 <= i < nm ==> {
                &&& (#[trigger] r->Ok_0.1@[i]).0 == moved[i].thread
                &&& r->Ok_0.1@[i].1.key == (FutexKey { pid, addr: uaddr2 })
                &&& r->Ok_0.1@[i].1.waiter_id == bucket_or_default(
                    enqueue_all(mid, (pid, uaddr2), moved.take(i)),
                    (pid, uaddr2),
                ).next_waiter_id
            }
        },
{
    if let Some(expected) = compare {
        let cur_value = observed? as u64;
        if cur_value != expected {
            return Err(SyscallError::TryAgain);
        }
    }
    let source = (pid, addr);
    let target = FutexKey { pid, addr: uaddr2 };
    let ghost s = queue.waiters_of(source);
    let mut woken: Vec<ThreadId> = Vec::new();
    let mut moved: Vec<FutexWaiter> = Vec::new();
    let ghost nw = min_count(wake_count, s.len());
    let ghost nm = min_count(requeue_count, (s.len() - nw) as nat);

    match queue.take_bucket(source) {
        Some(mut bucket) => {
            let ghost next = bucket.next_waiter_id;
            let mut i: u64 = 0;
            assert(s.skip(0) =~= s);
            assert(s.take(0) =~= Seq::<FutexWaiter>::empty());
            while i < wake_count && bucket.waiters.len() > 0
                invariant
                    i <= wake_count,
                    i <= s.len(),
                    bucket.waiters@ == s.skip(i as int),
                    bucket.next_waiter_id == next,
                    woken@ == threads_of(s.take(i as int)),
                    moved@ == Seq::<FutexWaiter>::empty(),
                decreases wake_count - i,
            {
                let waiter = bucket.waiters.pop_front().unwrap();
                woken.push(waiter.thread);
                assert(s.skip(i + 1) =~= s.skip(i as int).skip(1));
                assert(s.take(i + 1) =~= s.take(i as int).push(waiter));
                assert(threads_of(s.take(i + 1)) =~= threads_of(s.take(i as int)).push(waiter.thread));
                i += 1;
            }
            assert(i == nw);
            let mut j: u64 = 0;
            assert(s.subrange(nw as int, nw as int) =~= Seq::<FutexWaiter>::empty());
            while j < requeue_count && bucket.waiters.len() > 0
                invariant
                    j <= requeue_count,
                    nw + j <= s.len(),
                    bucket.waiters@ == s.skip(nw + j),
                    bucket.next_waiter_id == next,
                    moved@ == s.subrange(nw as int, nw + j),
                decreases requeue_count - j,
            {
                let waiter = bucket.waiters.pop_front().unwrap();
                moved.push(waiter);
                assert(s.skip(nw + j + 1) =~= s.skip(nw + j).skip(1));
                assert(s.subrange(nw as int, nw + j + 1) =~= s.subrange(nw as int, nw + j).push(waiter));
                j += 1;
            }
            assert(j == nm);
            if bucket.waiters.len() > 0 {
                queue.put_bucket(source, bucket);
            }
            assert(queue@ =~= queue_with_waiters(old(queue)@, source, s.skip((nw + nm) as int)));
        },
        None => {
            assert(s =~= Seq::<FutexWaiter>::empty());
            assert(threads_of(s.take(0)) =~= Seq::<ThreadId>::empty());
            assert(s.subrange(0, 0) =~= Seq::<FutexWaiter>::empty());
        },
    }
    let ghost mid = queue@;
    let ghost mv = moved@;
    let mut ids: Vec<(ThreadId, FutexWaitId)> = Vec::new();
    let mut k: usize = 0;
    assert(mv.take(0) =~= Seq::<FutexWaiter>::empty());
    while k < moved.len()
        invariant
            k <= moved.len(),
            moved@ == mv,
            target == (FutexKey { pid, addr: uaddr2 }),
            queue.wf(),
            queue@ == enqueue_all(mid, (pid, uaddr2), mv.take(k as int)),
            ids@.len() == k,
            forall|i: int| 0 <= i < k ==> {
                &&& (#[trigger] ids@[i]).0 == mv[i].thread
                &&& ids@[i].1.key == target
                &&& ids@[i].1.waiter_id == bucket_or_default(
                    enqueue_all(mid, (pid, uaddr2), mv.take(i)),
                    (pid, uaddr2),
                ).next_waiter_id
            },
        decreases moved.len() - k,
    {
        let waiter = moved[k];
        let wait_id = queue_waiter_in_locked_queue(queue, target, waiter.thread, waiter.bitset);
        let ghost before = ids@;
        ids.push((waiter.thread, wait_id));
        proof {
            let t = mv.take(k + 1);
            assert(t.drop_last() =~= mv.take(k as int));
            assert(t.last() == mv[k as int]);
            assert(key_of(target) == (pid, uaddr2));
            assert(enqueue_all(mid, (pid, uaddr2), t) == queue_after_push(
                enqueue_all(mid, (pid, uaddr2), mv.take(k as int)),
                (pid, uaddr2),
                waiter.thread,
                waiter.bitset,
            ));
            assert forall|i: int| 0 <= i < k + 1 implies {
                &&& (#[trigger] ids@[i]).0 == mv[i].thread
                &&& ids@[i].1.key == target
                &&& ids@[i].1.waiter_id == bucket_or_default(
                    enqueue_all(mid, (pid, uaddr2), mv.take(i)),
                    (pid, uaddr2),
                ).next_waiter_id
            } by {
                if i < k {
                    assert(ids@[i] == before[i]);
                }
            }
        }
        k += 1;
    }
    assert(mv.take(k as int) =~= mv);
    let woke = woken.len();
    manager.wake_all(woken);
    Ok((woke, ids))
}


/// The operation a `FUTEX_WAKE_OP` applies to the second word.
#[derive(Clone, Copy, Debug, PartialEq, Eq, Structural)]
pub enum FutexWakeOp {
    Assign,
    Add,
    Or,
    AndNot,
    Xor,
}

/// The comparison that decides whether `FUTEX_WAKE_OP` wakes the second word's waiters.
#[derive(Clone, Copy, Debug, PartialEq, Eq, Structural)]
pub enum FutexWakeCmp {
    Eq,
    Ne,
    Lt,
    Le,
    Gt,
    Ge,
}

pub open spec fn wake_op_spec(v: u32) -> Option<FutexWakeOp> {
    if v == 0 {
        Some(FutexWakeOp::Assign)
    } else if v == 1 {
        Some(FutexWakeOp::Add)
    } else if v == 2 {
        Some(FutexWakeOp::Or)
    } else if v == 3 {
        Some(FutexWakeOp::AndNot)
    } else if v == 4 {
        Some(FutexWakeOp::Xor)
    } else {
        None
    }
}

pub open spec fn wake_cmp_spec(v: u32) -> Option<FutexWakeCmp> {
    if v == 0 {
        Some(FutexWakeCmp::Eq)
    } else if v == 1 {
        Some(FutexWakeCmp::Ne)
    } else if v == 2 {
        Some(FutexWakeCmp::Lt)
    } else if v == 3 {
        Some(FutexWakeCmp::Le)
    } else if v == 4 {
        Some(FutexWakeCmp::Gt)
    } else if v == 5 {
        Some(FutexWakeCmp::Ge)
    } else {
        None
    }
}

impl FutexWakeOp {
    pub fn try_from_u32(v: u32) -> (r: Option<Self>)
        ensures
            r == wake_op_spec(v),
    {
        match v {
            0 => Some(FutexWakeOp::Assign),
            1 => Some(FutexWakeOp::Add),
            2 => Some(FutexWakeOp::Or),
            3 => Some(FutexWakeOp::AndNot),
            4 => Some(FutexWakeOp::Xor),
            _ => None,
        }
    }
}

impl FutexWakeCmp {
    pub fn try_from_u32(v: u32) -> (r: Option<Self>)
        ensures
            r == wake_cmp_spec(v),
    {
        match v {
            0 => Some(FutexWakeCmp::Eq),
            1 => Some(FutexWakeCmp::Ne),
            2 => Some(FutexWakeCmp::Lt),
            3 => Some(FutexWakeCmp::Le),
            4 => Some(FutexWakeCmp::Gt),
            5 => Some(FutexWakeCmp::Ge),
            _ => None,
        }
    }
}

/// The value that `op` with argument `arg` makes of `old`.
pub open spec fn wake_op_result(op: FutexWakeOp, old: u32, arg: u32) -> u32 {
    match op {
        FutexWakeOp::Assign => arg,
        FutexWakeOp::Add => ((old + arg) % 0x1_0000_0000) as u32,
        FutexWakeOp::Or => old | arg,
        FutexWakeOp::AndNot => old & !arg,
        FutexWakeOp::Xor => old ^ arg,
    }
}

/// Whether `old` compares to `arg` as `cmp` asks.
pub open spec fn wake_cmp_holds(cmp: FutexWakeCmp, old: u32, arg: u32) -> bool {
    match cmp {
        FutexWakeCmp::Eq => old == arg,
        FutexWakeCmp::Ne => old != arg,
        FutexWakeCmp::Lt => old < arg,
        FutexWakeCmp::Le => old <= arg,
        FutexWakeCmp::Gt => old > arg,
        FutexWakeCmp::Ge => old >= arg,
    }
}

/// What `FUTEX_WAKE_OP` encoded as `encoded` does to `old`: the new value of the word, and
/// whether the second word's waiters are to be woken.
pub open spec fn wake_op_apply_spec(old: u32, encoded: u32) -> Result<(u32, bool), SyscallError> {
    let op = wake_op_spec((encoded >> 28u32) & 0xf);
    let cmp = wake_cmp_spec((encoded >> 24u32) & 0xf);
    let raw_arg = (encoded >> 12u32) & 0xfff;
    let cmp_arg = encoded & 0xfff;
    if op is None || cmp is None {
        Err(SyscallError::InvalidArguments)
    } else if op == Some(FutexWakeOp::Assign) && raw_arg & FUTEX_OP_OPARG_SHIFT != 0 {
        Err(SyscallError::InvalidArguments)
    } else if raw_arg & FUTEX_OP_OPARG_SHIFT != 0 && (raw_arg & !FUTEX_OP_OPARG_SHIFT) >= 32 {
        Err(SyscallError::InvalidArguments)
    } else {
        let arg = if raw_arg & FUTEX_OP_OPARG_SHIFT != 0 {
            1u32 << (raw_arg & !FUTEX_OP_OPARG_SHIFT)
        } else {
            raw_arg
        };
        Ok((wake_op_result(op->Some_0, old, arg), wake_cmp_holds(cmp->Some_0, old, cmp_arg)))
    }
}

/// Decodes and applies the operation of `FUTEX_WAKE_OP` to the old value of the second word.
pub fn futex_wake_op_apply(old_value: u32, encoded: u32) -> (r: Result<(u32, bool), SyscallError>)
    ensures
        r == wake_op_apply_spec(old_value, encoded),
{
    let op = match FutexWakeOp::try_from_u32((encoded >> 28) & 0xf) {
        Some(op) => op,
        None => return Err(SyscallError::InvalidArguments),
    };
    let cmp = match FutexWakeCmp::try_from_u32((encoded >> 24) & 0xf) {
        Some(cmp) => cmp,
        None => return Err(SyscallError::InvalidArguments),
    };
    let mut op_arg = (encoded >> 12) & 0xfff;
    let cmp_arg = encoded & 0xfff;
    if matches!(op, FutexWakeOp::Assign) && (op_arg & FUTEX_OP_OPARG_SHIFT) != 0 {
        return Err(SyscallError::InvalidArguments);
    }
    if (op_arg & FUTEX_OP_OPARG_SHIFT) != 0 {
        let shift = op_arg & !FUTEX_OP_OPARG_SHIFT;
        if shift >= 32 {
            return Err(SyscallError::InvalidArguments);
        }
        op_arg = 1u32 << shift;
    }
    let new_value = match op {
        FutexWakeOp::Assign => op_arg,
        FutexWakeOp::Add => old_value.wrapping_add(op_arg),
        FutexWakeOp::Or => old_value | op_arg,
        FutexWakeOp::AndNot => old_value & !op_arg,
        FutexWakeOp::Xor => old_value ^ op_arg,
    };
    let should_wake_second = match cmp {
        FutexWakeCmp::Eq => old_value == cmp_arg,
        FutexWakeCmp::Ne => old_value != cmp_arg,
        FutexWakeCmp::Lt => old_value < cmp_arg,
        FutexWakeCmp::Le => old_value <= cmp_arg,
        FutexWakeCmp::Gt => old_value > cmp_arg,
        FutexWakeCmp::Ge => old_value >= cmp_arg,
    };
    Ok((new_value, should_wake_second))
}

/// The bitwise facts behind the `FUTEX_WAKE_OP` operations.
proof fn lemma_wake_op_bits(old: u32, arg: u32)
    by (bit_vector)
    ensures
        (old | arg) & arg == arg,
        (old | arg) & !arg == old & !arg,
        (old & !arg) & arg == 0,
        (old & !arg) | (old & arg) == old,
        (old ^ arg) ^ old == arg,
{
}

/// What `FUTEX_WAKE_OP` does to the second word, for every encoding it accepts: with the
/// effective argument `arg` (the 12-bit argument, or `1 << it` under the shift flag),
/// `SET` stores `arg`; `ADD` adds it modulo 2^32; `OR` sets exactly the bits of `arg` and
/// keeps every other bit; `ANDN` clears exactly the bits of `arg` and keeps every other
/// bit; `XOR` flips exactly the bits of `arg`. The waiters of the second word are woken
/// exactly when the old value compares to the 12-bit comparison argument as asked.
pub proof fn lemma_wake_op_effect(old: u32, encoded: u32)
    requires
        wake_op_spec((encoded >> 28u32) & 0xf) is Some,
        wake_cmp_spec((encoded >> 24u32) & 0xf) is Some,
        !((encoded >> 28u32) & 0xf == 0 && ((encoded >> 12u32) & 0xfff) & FUTEX_OP_OPARG_SHIFT != 0),
        ((encoded >> 12u32) & 0xfff) & FUTEX_OP_OPARG_SHIFT != 0 ==> (((encoded >> 12u32) & 0xfff)
            & !FUTEX_OP_OPARG_SHIFT) < 32,
    ensures
        ({
            let r = wake_op_apply_spec(old, encoded);
            let op = (encoded >> 28u32) & 0xf;
            let cmp = (encoded >> 24u32) & 0xf;
            let raw = (encoded >> 12u32) & 0xfff;
            let cmp_arg = encoded & 0xfff;
            let arg = if raw & FUTEX_OP_OPARG_SHIFT != 0 {
                1u32 << (raw & !FUTEX_OP_OPARG_SHIFT)
            } else {
                raw
            };
            &&& r is Ok
            &&& op == 0 ==> r->Ok_0.0 == arg
            &&& op == 1 ==> r->Ok_0.0 == (old + arg) % 0x1_0000_0000
            &&& op == 2 ==> r->Ok_0.0 & arg == arg && r->Ok_0.0 & !arg == old & !arg
            &&& op == 3 ==> r->Ok_0.0 & arg == 0 && r->Ok_0.0 | (old & arg) == old
            &&& op == 4 ==> r->Ok_0.0 ^ old == arg
            &&& cmp == 0 ==> r->Ok_0.1 == (old == cmp_arg)
            &&& cmp == 1 ==> r->Ok_0.1 == (old != cmp_arg)
            &&& cmp == 2 ==> r->Ok_0.1 == (old < cmp_arg)
            &&& cmp == 3 ==> r->Ok_0.1 == (old <= cmp_arg)
            &&& cmp == 4 ==> r->Ok_0.1 == (old > cmp_arg)
            &&& cmp == 5 ==> r->Ok_0.1 == (old >= cmp_arg)
        }),
{
    let raw = (encoded >> 12u32) & 0xfff;
    let arg = if raw & FUTEX_OP_OPARG_SHIFT != 0 {
        1u32 << (raw & !FUTEX_OP_OPARG_SHIFT)
    } else {
        raw
    };
    lemma_wake_op_bits(old, arg);
}

/// The first half of `FUTEX_WAKE_OP`: from the second word's old value (as read) and the
/// encoded operation, the value to store back and whether to wake its waiters.
pub fn futex_wake_op_prepare(
    old_value: Result<u32, SyscallError>,
    encoded_op: u64,
) -> (r: Result<(u32, bool), SyscallError>)
    ensures
        r == match old_value {
            Err(e) => Err(e),
            Ok(v) => if encoded_op > u32::MAX {
                Err(SyscallError::InvalidArguments)
            } else {
                wake_op_apply_spec(v, encoded_op as u32)
            },
        },
{
    let old_value = old_value?;
    if encoded_op > 0xffff_ffff {
        return Err(SyscallError::InvalidArguments);
    }
    futex_wake_op_apply(old_value, encoded_op as u32)
}

/// The second half of `FUTEX_WAKE_OP`, once the new value is stored: wakes up to
/// `wake_count_1` waiters of `addr`, then, when the comparison held, up to `wake_count_2`
/// waiters of `uaddr2`. Returns how many woke in all.
pub fn futex_wake_op_impl(
    queue: &mut FutexQueue,
    manager: &mut ThreadManager,
    pid: u64,
    addr: u64,
    wake_count_1: u64,
    wake_count_2: u64,
    uaddr2: u64,
    should_wake_second: bool,
) -> (r: usize)
    requires
        old(queue).wf(),
        old(queue).waiters_of((pid, addr)).len() + old(queue).waiters_of((pid, uaddr2)).len()
            <= usize::MAX,
    ensures
        final(queue).wf(),
        ({
            let t1 = take_spec(old(queue).waiters_of((pid, addr)), (wake_count_1 as usize) as nat, None);
            let q1 = if old(queue)@.contains_key((pid, addr)) {
                queue_with_waiters(old(queue)@, (pid, addr), t1.2 + t1.1)
            } else {
                old(queue)@
            };
            let w2 = bucket_or_default(q1, (pid, uaddr2)).waiters;
            let t2 = take_spec(w2, (wake_count_2 as usize) as nat, None);
            if should_wake_second {
                &&& r == t1.0.len() + t2.0.len()
                &&& final(manager).run_queue@ == old(manager).run_queue@ + threads_of(t1.0) + threads_of(t2.0)
                &&& final(queue)@ == if q1.contains_key((pid, uaddr2)) {
                    queue_with_waiters(q1, (pid, uaddr2), t2.2 + t2.1)
                } else {
                    q1
                }
            } else {
                &&& r == t1.0.len()
                &&& final(manager).run_queue@ == old(manager).run_queue@ + threads_of(t1.0)
                &&& final(queue)@ == q1
            }
        }),
{
    proof {
        lemma_take_partition(old(queue).waiters_of((pid, addr)), (wake_count_1 as usize) as nat, None);
    }
    let first = wake_futex_for_process(queue, manager, pid, addr, wake_count_1 as usize);
    let mut total_woken = first;
    if should_wake_second {
        let ghost mid_manager = manager.run_queue@;
        let ghost q1 = queue@;
        proof {
            lemma_take_partition(bucket_or_default(q1, (pid, uaddr2)).waiters, (wake_count_2 as usize) as nat, None);
        }
        let second = wake_futex_for_process(queue, manager, pid, uaddr2, wake_count_2 as usize);
        assert(manager.run_queue@ =~= old(manager).run_queue@ + threads_of(
            take_spec(old(queue).waiters_of((pid, addr)), (wake_count_1 as usize) as nat, None).0,
        ) + threads_of(take_spec(bucket_or_default(q1, (pid, uaddr2)).waiters, (wake_count_2 as usize) as nat, None).0));
        total_woken = first + second;
    }
    total_woken
}

/// The calling thread's id as a PI futex word holds it.
pub fn current_tid_u32(tid: u64) -> (r: Result<u32, SyscallError>)
    ensures
        r == if tid <= u32::MAX {
            Ok::<u32, SyscallError>(tid as u32)
        } else {
            Err(SyscallError::InvalidArguments)
        },
{
    if tid <= 0xffff_ffff {
        Ok(tid as u32)
    } else {
        Err(SyscallError::InvalidArguments)
    }
}


/// The bitwise facts behind the words a PI lock stores: the owner field, the owner-died
/// bit and the waiters bit.
proof fn lemma_pi_word_bits(tid: u32, cur: u32)
    by (bit_vector)
    ensures
        (tid | (cur & 0x4000_0000u32)) & 0x3fff_ffffu32 == tid & 0x3fff_ffffu32,
        (tid | (cur & 0x4000_0000u32)) & 0x4000_0000u32 == (tid & 0x4000_0000u32) | (cur
            & 0x4000_0000u32),
        (tid | (cur & 0x4000_0000u32)) & 0x8000_0000u32 == tid & 0x8000_0000u32,
        (cur | 0x8000_0000u32) & 0x3fff_ffffu32 == cur & 0x3fff_ffffu32,
        (cur | 0x8000_0000u32) & 0x4000_0000u32 == cur & 0x4000_0000u32,
        (cur | 0x8000_0000u32) & 0x8000_0000u32 != 0,
        (tid | 0u32) == tid,
{
}

/// `FUTEX_TRYLOCK_PI`: takes a PI lock that nobody owns. Returns the word to store:
/// the caller's id, keeping the owner-died bit.
pub fn futex_trylock_pi_impl(tid: u32, cur_value: u32) -> (r: Result<u32, SyscallError>)
    ensures
        r == if cur_value & FUTEX_TID_MASK == tid {
            Err::<u32, SyscallError>(SyscallError::ResourceDeadlock)
        } else if cur_value & FUTEX_TID_MASK != 0 {
            Err(SyscallError::TryAgain)
        } else {
            Ok(tid | (cur_value & FUTEX_OWNER_DIED))
        },
        r is Ok ==> cur_value & FUTEX_TID_MASK == 0,
        r matches Ok(w) ==> w & FUTEX_TID_MASK == tid & FUTEX_TID_MASK && w & FUTEX_OWNER_DIED
            == (tid & FUTEX_OWNER_DIED) | (cur_value & FUTEX_OWNER_DIED) && w & FUTEX_WAITERS == tid
            & FUTEX_WAITERS,
{
    proof {
        lemma_pi_word_bits(tid, cur_value);
    }
    let owner = cur_value & FUTEX_TID_MASK;
    if owner == tid {
        return Err(SyscallError::ResourceDeadlock);
    }
    if owner != 0 {
        return Err(SyscallError::TryAgain);
    }
    Ok(tid | (cur_value & FUTEX_OWNER_DIED))
}

/// The first check of each round of `FUTEX_LOCK_PI`: takes the lock when it is free
/// (`Some` word to store), refuses to deadlock on oneself, gives up after the deadline,
/// and otherwise (`None`) the caller has to wait.
pub fn futex_lock_pi_try_acquire(tid: u32, cur_value: u32, timed_out: bool) -> (r: Result<
    Option<u32>,
    SyscallError,
>)
    ensures
        r == if cur_value & FUTEX_TID_MASK == tid {
            Err::<Option<u32>, SyscallError>(SyscallError::ResourceDeadlock)
        } else if cur_value & FUTEX_TID_MASK == 0 {
            Ok(Some(tid | (cur_value & FUTEX_OWNER_DIED)))
        } else if timed_out {
            Err(SyscallError::TimedOut)
        } else {
            Ok(None)
        },
        r matches Ok(Some(w)) ==> cur_value & FUTEX_TID_MASK == 0 && w & FUTEX_TID_MASK == tid
            & FUTEX_TID_MASK && w & FUTEX_OWNER_DIED == (tid & FUTEX_OWNER_DIED) | (cur_value
            & FUTEX_OWNER_DIED),
        r == Ok::<Option<u32>, SyscallError>(None) ==> cur_value & FUTEX_TID_MASK != 0
            && cur_value & FUTEX_TID_MASK != tid && !timed_out,
{
    proof {
        lemma_pi_word_bits(tid, cur_value);
    }
    let owner = cur_value & FUTEX_TID_MASK;
    if owner == tid {
        return Err(SyscallError::ResourceDeadlock);
    }
    if owner == 0 {
        return Ok(Some(tid | (cur_value & FUTEX_OWNER_DIED)));
    }
    if timed_out {
        return Err(SyscallError::TimedOut);
    }
    Ok(None)
}

/// What `FUTEX_LOCK_PI` does before it sleeps, after reading the word again.
#[derive(Clone, Copy, Debug, PartialEq, Eq, Structural)]
pub enum LockPiWait {
    /// The owner let go meanwhile: start the round again.
    Retry,
    /// Queue and sleep; first store this word (the waiters bit set) when there is one.
    Block(Option<u32>),
}

/// The second check of each round of `FUTEX_LOCK_PI`, on the word read again.
pub fn futex_lock_pi_prepare_wait(tid: u32, cur_value: u32, timed_out: bool) -> (r: Result<
    LockPiWait,
    SyscallError,
>)
    ensures
        r == if cur_value & FUTEX_TID_MASK == 0 {
            Ok::<LockPiWait, SyscallError>(LockPiWait::Retry)
        } else if cur_value & FUTEX_TID_MASK == tid {
            Err(SyscallError::ResourceDeadlock)
        } else if timed_out {
            Err(SyscallError::TimedOut)
        } else if cur_value & FUTEX_WAITERS == 0 {
            Ok(LockPiWait::Block(Some(cur_value | FUTEX_WAITERS)))
        } else {
            Ok(LockPiWait::Block(None))
        },
        r matches Ok(LockPiWait::Block(Some(w))) ==> w & FUTEX_TID_MASK == cur_value
            & FUTEX_TID_MASK && w & FUTEX_OWNER_DIED == cur_value & FUTEX_OWNER_DIED && w
            & FUTEX_WAITERS != 0 && cur_value & FUTEX_WAITERS == 0,
        r matches Ok(LockPiWait::Block(_)) ==> cur_value & FUTEX_TID_MASK != 0 && cur_value
            & FUTEX_TID_MASK != tid,
{
    proof {
        lemma_pi_word_bits(tid, cur_value);
    }
    let owner = cur_value & FUTEX_TID_MASK;
    if owner == 0 {
        return Ok(LockPiWait::Retry);
    }
    if owner == tid {
        return Err(SyscallError::ResourceDeadlock);
    }
    if timed_out {
        return Err(SyscallError::TimedOut);
    }
    if (cur_value & FUTEX_WAITERS) == 0 {
        Ok(LockPiWait::Block(Some(cur_value | FUTEX_WAITERS)))
    } else {
        Ok(LockPiWait::Block(None))
    }
}

/// `FUTEX_UNLOCK_PI`: only the owner may unlock. The lock passes to the oldest waiter,
/// which is taken off the queue; the word to store names it, with the waiters bit when
/// others still wait. With no waiter the word becomes 0.
/// Returns the word to store and the thread to wake.
pub fn futex_unlock_pi_impl(
    queue: &mut FutexQueue,
    pid: u64,
    addr: u64,
    tid: u32,
    cur_value: u32,
) -> (r: Result<(u32, Option<ThreadId>), SyscallError>)
    requires
        old(queue).wf(),
    ensures
        final(queue).wf(),
        cur_value & FUTEX_TID_MASK != tid ==> r == Err::<(u32, Option<ThreadId>), SyscallError>(
            SyscallError::PermissionDenied,
        ) && final(queue)@ == old(queue)@,
        cur_value & FUTEX_TID_MASK == tid ==> {
            let s = old(queue).waiters_of((pid, addr));
            if s.len() == 0 {
                r == Ok::<(u32, Option<ThreadId>), SyscallError>((0u32, None))
                    && final(queue)@ == old(queue)@
            } else {
                &&& final(queue)@ == queue_with_waiters(old(queue)@, (pid, addr), s.skip(1))
                &&& r == if s[0].thread > u32::MAX {
                    Err::<(u32, Option<ThreadId>), SyscallError>(SyscallError::InvalidArguments)
                } else {
                    Ok(((s[0].thread as u32) | (if s.len() > 1 { FUTEX_WAITERS } else { 0u32 }), Some(s[0].thread)))
                }
            }
        },
{
    let owner = cur_value & FUTEX_TID_MASK;
    if owner != tid {
        return Err(SyscallError::PermissionDenied);
    }
    let k = (pid, addr);
    let next_waiter = match queue.take_bucket(k) {
        Some(mut bucket) => {
            let next = bucket.waiters.pop_front();
            if bucket.waiters.len() > 0 {
                queue.put_bucket(k, bucket);
            }
            next
        },
        None => None,
    };
    proof {
        let s = old(queue).waiters_of(k);
        if s.len() > 0 {
            assert(queue@ =~= queue_with_waiters(old(queue)@, k, s.skip(1)));
        } else {
            assert(queue@ =~= old(queue)@);
        }
    }
    match next_waiter {
        Some(next) => {
            let next_tid = current_tid_u32(next.thread)?;
            let still_has_waiters = queue.has_waiters(k);
            let new_value = next_tid | if still_has_waiters { FUTEX_WAITERS } else { 0 };
            Ok((new_value, Some(next.thread)))
        },
        None => Ok((0, None)),
    }
}

} // verus!

verus! {

/// Requeueing appends the moved threads, in order and with their bitsets, to the end of the
/// target word's queue, and touches no other word.
pub proof fn lemma_requeue_appends(m: Map<(u64, u64), BucketView>, t: (u64, u64), ws: Seq<FutexWaiter>)
    ensures
        ({
            let after = bucket_or_default(enqueue_all(m, t, ws), t).waiters;
            let before = bucket_or_default(m, t).waiters;
            &&& after.len() == before.len() + ws.len()
            &&& forall|i: int| 0 <= i < before.len() ==> #[trigger] after[i] == before[i]
            &&& forall|i: int|
                0 <= i < ws.len() ==> (#[trigger] after[before.len() + i]).thread == ws[i].thread
                    && after[before.len() + i].bitset == ws[i].bitset
        }),
        forall|k: (u64, u64)|
            k != t ==> (#[trigger] enqueue_all(m, t, ws).contains_key(k) == m.contains_key(k)) && (
            m.contains_key(k) ==> enqueue_all(m, t, ws)[k] == m[k]),
    decreases ws.len(),
{
    if ws.len() > 0 {
        lemma_requeue_appends(m, t, ws.drop_last());
        let prev = bucket_or_default(enqueue_all(m, t, ws.drop_last()), t).waiters;
        let before = bucket_or_default(m, t).waiters;
        let after = bucket_or_default(enqueue_all(m, t, ws), t).waiters;
        assert(after == prev.push(
            FutexWaiter {
                id: bucket_or_default(enqueue_all(m, t, ws.drop_last()), t).next_waiter_id,
                thread: ws.last().thread,
                bitset: ws.last().bitset,
            },
        ));
        assert forall|i: int| 0 <= i < ws.len() implies (#[trigger] after[before.len() + i]).thread
            == ws[i].thread && after[before.len() + i].bitset == ws[i].bitset by {
            if i < ws.len() - 1 {
                assert(ws.drop_last()[i] == ws[i]);
            }
        }
    }
}

} // verus!
