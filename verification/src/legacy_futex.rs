use vstd::prelude::*;
use std::collections::BTreeMap;
use std::collections::VecDeque;
use crate::error::SyscallError;

verus! {

broadcast use vstd::laws_cmp::group_laws_cmp;

/// What the first futex calls report.
#[derive(Clone, Copy, Debug, PartialEq, Eq, Structural)]
pub enum FutexResultType {
    Success,
    TryAgain,
    Invalid,
}

impl FutexResultType {
    /// The number user space receives: 1, 2 and 3.
    pub fn as_usize(self) -> (r: usize)
        ensures
            r == match self {
                FutexResultType::Success => 1usize,
                FutexResultType::TryAgain => 2usize,
                FutexResultType::Invalid => 3usize,
            },
    {
        match self {
            FutexResultType::Success => 1,
            FutexResultType::TryAgain => 2,
            FutexResultType::Invalid => 3,
        }
    }
}

/// The processes waiting on each futex address, oldest first.
pub struct ProcessFutexQueue {
    pub queues: BTreeMap<u64, VecDeque<u64>>,
}

impl View for ProcessFutexQueue {
    type V = Map<u64, Seq<u64>>;

    open spec fn view(&self) -> Map<u64, Seq<u64>> {
        self.queues@.map_values(|q: VecDeque<u64>| q@)
    }
}

impl ProcessFutexQueue {
    pub fn new() -> (r: Self)
        ensures
            r@ == Map::<u64, Seq<u64>>::empty(),
    {
        let r = ProcessFutexQueue { queues: BTreeMap::new() };
        assert(r@ =~= Map::<u64, Seq<u64>>::empty());
        r
    }

    /// The processes waiting on `addr`.
    pub open spec fn waiting(&self, addr: u64) -> Seq<u64> {
        if self@.contains_key(addr) {
            self@[addr]
        } else {
            Seq::empty()
        }
    }
}

/// The processes woken by a futex wake, in order.
pub struct ProcessManager {
    pub woken: Vec<u64>,
}

impl ProcessManager {
    pub fn new() -> (r: Self)
        ensures
            r.woken@ == Seq::<u64>::empty(),
    {
        ProcessManager { woken: Vec::new() }
    }

    /// Makes a blocked process runnable.
    pub fn wake(&mut self, pid: u64)
        ensures
            final(self).woken@ == old(self).woken@.push(pid),
    {
        self.woken.push(pid);
    }
}

/// `futex_wait` of the first futex interface: when the word still holds `expected`
/// (`cur_value` is what it holds), queues the current process on `addr`.
pub struct FutexWaitImpl;

impl FutexWaitImpl {
    pub fn handle_call(
        queue: &mut ProcessFutexQueue,
        current: u64,
        addr: u64,
        expected: u64,
        cur_value: u64,
    ) -> (r: Result<usize, SyscallError>)
        ensures
            cur_value != expected ==> r == Ok::<usize, SyscallError>(2) && final(queue)@ == old(queue)@,
            cur_value == expected ==> r == Ok::<usize, SyscallError>(1) && final(queue)@ == old(queue)@.insert(
                addr,
                old(queue).waiting(addr).push(current),
            ),
    {
        if cur_value != expected {
            return Ok(FutexResultType::TryAgain.as_usize());
        }
        let mut q = match queue.queues.remove(&addr) {
            Some(q) => q,
            None => VecDeque::new(),
        };
        q.push_back(current);
        queue.queues.insert(addr, q);
        assert(queue@ =~= old(queue)@.insert(addr, old(queue).waiting(addr).push(current)));
        Ok(FutexResultType::Success.as_usize())
    }
}

/// `futex_wake` of the first futex interface: wakes up to `count` processes waiting on
/// `addr`, oldest first, and returns how many woke.
pub struct FutexWakeImpl;

impl FutexWakeImpl {
    pub fn handle_call(
        queue: &mut ProcessFutexQueue,
        manager: &mut ProcessManager,
        addr: u64,
        count: u64,
    ) -> (r: Result<usize, SyscallError>)
        ensures
            ({
                let s = old(queue).waiting(addr);
                let n = if count < s.len() { count as int } else { s.len() as int };
                &&& r == Ok::<usize, SyscallError>(n as usize)
                &&& final(manager).woken@ == old(manager).woken@ + s.take(n)
                &&& final(queue)@ == if old(queue)@.contains_key(addr) {
                    old(queue)@.insert(addr, s.skip(n))
                } else {
                    old(queue)@
                }
            }),
    {
        let ghost s = queue.waiting(addr);
        let mut woken: usize = 0;
        match queue.queues.remove(&addr) {
            Some(mut q) => {
                let mut i: u64 = 0;
                let initial = q.len();
                assert(s.take(0) =~= Seq::<u64>::empty());
                assert(s.skip(0) =~= s);
                while i < count && q.len() > 0
                    invariant
                        i <= count,
                        i <= s.len(),
                        s.len() == initial,
                        woken == i,
                        q@ == s.skip(i as int),
                        manager.woken@ == old(manager).woken@ + s.take(i as int),
                    decreases count - i,
                {
                    let pid = q.pop_front().unwrap();
                    manager.wake(pid);
                    assert(s.skip(i + 1) =~= s.skip(i as int).skip(1));
                    assert(s.take(i + 1) =~= s.take(i as int).push(pid));
                    woken += 1;
                    i += 1;
                }
                queue.queues.insert(addr, q);
                assert(queue@ =~= old(queue)@.insert(addr, s.skip(i as int)));
            },
            None => {
                assert(queue@ =~= old(queue)@);
                assert(s.take(0) =~= Seq::<u64>::empty());
            },
        }
        Ok(woken)
    }
}

} // verus!
