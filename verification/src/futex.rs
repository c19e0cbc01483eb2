use vstd::prelude::*;
use std::collections::BTreeMap;
use std::collections::VecDeque;

verus! {

broadcast use vstd::laws_cmp::group_laws_cmp;

/// Identifies a kernel thread.
pub type ThreadId = u64;

/// The futex word a waiter sleeps on: the owning process and the user address.
#[derive(Clone, Copy, Debug, PartialEq, Eq, Structural)]
pub struct FutexKey {
    pub pid: u64,
    pub addr: u64,
}

/// Names one queued waiter, so that a timeout or a signal can take it out again.
#[derive(Clone, Copy, Debug, PartialEq, Eq, Structural)]
pub struct FutexWaitId {
    pub key: FutexKey,
    pub waiter_id: u64,
}

/// One thread sleeping on a futex word, with the bitset it waits for.
#[derive(Clone, Copy, Debug, PartialEq, Eq, Structural)]
pub struct FutexWaiter {
    pub id: u64,
    pub thread: ThreadId,
    pub bitset: u32,
}

/// The waiters of one futex word, oldest first.
pub struct FutexBucket {
    pub next_waiter_id: u64,
    pub waiters: VecDeque<FutexWaiter>,
}

/// What a bucket holds, as a mathematical value.
pub struct BucketView {
    pub next_waiter_id: u64,
    pub waiters: Seq<FutexWaiter>,
}

impl FutexBucket {
    pub open spec fn view(&self) -> BucketView {
        BucketView { next_waiter_id: self.next_waiter_id, waiters: self.waiters@ }
    }

    /// An empty bucket, as `Default` builds it.
    pub fn new() -> (r: Self)
        ensures
            r@ == (BucketView { next_waiter_id: 0, waiters: Seq::empty() }),
    {
        FutexBucket { next_waiter_id: 0, waiters: VecDeque::new() }
    }

    /// Appends a waiter and hands out the next waiter id.
    pub fn push_waiter(&mut self, thread: ThreadId, bitset: u32) -> (waiter_id: u64)
        ensures
            waiter_id == old(self).next_waiter_id,
            final(self)@ == bucket_after_push(old(self)@, thread, bitset),
    {
        let waiter_id = self.next_waiter_id;
        self.next_waiter_id = self.next_waiter_id.saturating_add(1);
        self.waiters.push_back(FutexWaiter { id: waiter_id, thread, bitset });
        waiter_id
    }
}

/// `n + 1`, held at `u64::MAX`.
pub open spec fn saturating_inc(n: u64) -> u64 {
    if n == u64::MAX {
        n
    } else {
        (n + 1) as u64
    }
}

/// The bucket after one more waiter was queued on it.
pub open spec fn bucket_after_push(b: BucketView, thread: ThreadId, bitset: u32) -> BucketView {
    BucketView {
        next_waiter_id: saturating_inc(b.next_waiter_id),
        waiters: b.waiters.push(FutexWaiter { id: b.next_waiter_id, thread, bitset }),
    }
}

/// The bucket that a key has, or the fresh bucket that queueing on it creates.
pub open spec fn bucket_or_default(m: Map<(u64, u64), BucketView>, k: (u64, u64)) -> BucketView {
    if m.contains_key(k) {
        m[k]
    } else {
        BucketView { next_waiter_id: 0, waiters: Seq::empty() }
    }
}

/// The queue after `thread` was queued on `k`.
pub open spec fn queue_after_push(
    m: Map<(u64, u64), BucketView>,
    k: (u64, u64),
    thread: ThreadId,
    bitset: u32,
) -> Map<(u64, u64), BucketView> {
    m.insert(k, bucket_after_push(bucket_or_default(m, k), thread, bitset))
}

/// The bucket of `k` set to `waiters` (keeping its id counter), or dropped when `waiters` is empty.
pub open spec fn queue_with_waiters(
    m: Map<(u64, u64), BucketView>,
    k: (u64, u64),
    waiters: Seq<FutexWaiter>,
) -> Map<(u64, u64), BucketView> {
    if waiters.len() == 0 {
        m.remove(k)
    } else {
        m.insert(k, BucketView { next_waiter_id: m[k].next_waiter_id, waiters })
    }
}

pub open spec fn key_of(key: FutexKey) -> (u64, u64) {
    (key.pid, key.addr)
}

/// Every futex word that has waiters, with its bucket.
pub struct FutexQueue {
    pub buckets: BTreeMap<(u64, u64), FutexBucket>,
}

impl View for FutexQueue {
    type V = Map<(u64, u64), BucketView>;

    open spec fn view(&self) -> Map<(u64, u64), BucketView> {
        self.buckets@.map_values(|b: FutexBucket| b@)
    }
}

impl FutexQueue {
    /// No bucket is ever left empty: the last waiter to leave drops it.
    pub open spec fn wf(&self) -> bool {
        forall|k: (u64, u64)| #[trigger] self@.contains_key(k) ==> self@[k].waiters.len() > 0
    }

    /// The waiters of `k`, oldest first (none when it has no bucket).
    pub open spec fn waiters_of(&self, k: (u64, u64)) -> Seq<FutexWaiter> {
        bucket_or_default(self@, k).waiters
    }

    pub fn new() -> (r: Self)
        ensures
            r@ == Map::<(u64, u64), BucketView>::empty(),
            r.wf(),
    {
        let r = FutexQueue { buckets: BTreeMap::new() };
        assert(r@ =~= Map::<(u64, u64), BucketView>::empty());
        r
    }

    /// Takes the bucket of `k` out of the map.
    pub(crate) fn take_bucket(&mut self, k: (u64, u64)) -> (r: Option<FutexBucket>)
        ensures
            final(self)@ == old(self)@.remove(k),
            match r {
                Some(b) => old(self)@.contains_key(k) && b@ == old(self)@[k],
                None => !old(self)@.contains_key(k),
            },
    {
        let r = self.buckets.remove(&k);
        assert(self@ =~= old(self)@.remove(k));
        r
    }

    /// Whether `k` has a bucket with at least one waiter.
    pub fn has_waiters(&self, k: (u64, u64)) -> (r: bool)
        ensures
            r == (self@.contains_key(k) && self@[k].waiters.len() > 0),
    {
        match self.buckets.get(&k) {
            Some(b) => b.waiters.len() > 0,
            None => false,
        }
    }

    /// Puts a bucket (back) under `k`.
    pub(crate) fn put_bucket(&mut self, k: (u64, u64), b: FutexBucket)
        ensures
            final(self)@ == old(self)@.insert(k, b@),
    {
        self.buckets.insert(k, b);
        assert(self@ =~= old(self)@.insert(k, b@));
    }
}

/// Queues `thread` on `key` and returns the id that names its place in the queue.
pub fn queue_waiter_in_locked_queue(
    queue: &mut FutexQueue,
    key: FutexKey,
    thread: ThreadId,
    bitset: u32,
) -> (r: FutexWaitId)
    requires
        old(queue).wf(),
    ensures
        final(queue).wf(),
        r.key == key,
        r.waiter_id == bucket_or_default(old(queue)@, key_of(key)).next_waiter_id,
        final(queue)@ == queue_after_push(old(queue)@, key_of(key), thread, bitset),
{
    let k = (key.pid, key.addr);
    let mut bucket = match queue.take_bucket(k) {
        Some(b) => b,
        None => FutexBucket::new(),
    };
    let waiter_id = bucket.push_waiter(thread, bitset);
    queue.put_bucket(k, bucket);
    FutexWaitId { key, waiter_id }
}

/// Whether `key` has a bucket that holds no waiter.
pub fn bucket_is_empty(queue: &FutexQueue, key: FutexKey) -> (r: bool)
    ensures
        r == (queue@.contains_key(key_of(key)) && queue@[key_of(key)].waiters.len() == 0),
{
    let k = (key.pid, key.addr);
    match queue.buckets.get(&k) {
        Some(b) => b.waiters.len() == 0,
        None => false,
    }
}


/// Whether a waiter with this bitset is woken by a wake with `mask` (`None` wakes everyone).
pub open spec fn wakes(w: FutexWaiter, mask: Option<u32>) -> bool {
    match mask {
        None => true,
        Some(m) => w.bitset & m != 0,
    }
}

/// Scanning `s` from the front, wakes up to `count` waiters that `mask` selects.
/// Returns the woken waiters, the scanned waiters that were passed over, and the unscanned rest.
pub open spec fn take_spec(s: Seq<FutexWaiter>, count: nat, mask: Option<u32>) -> (
    Seq<FutexWaiter>,
    Seq<FutexWaiter>,
    Seq<FutexWaiter>,
)
    decreases s.len(),
{
    if count == 0 || s.len() == 0 {
        (Seq::empty(), Seq::empty(), s)
    } else if wakes(s[0], mask) {
        let t = take_spec(s.skip(1), (count - 1) as nat, mask);
        (seq![s[0]] + t.0, t.1, t.2)
    } else {
        let t = take_spec(s.skip(1), count, mask);
        (t.0, seq![s[0]] + t.1, t.2)
    }
}

/// Waking from a queue partitions it: what woke, what was passed over and what was not
/// scanned add up to the whole queue; no more than `count` wake; every woken waiter matches
/// the mask and every passed-over one does not.
pub proof fn lemma_take_partition(s: Seq<FutexWaiter>, count: nat, mask: Option<u32>)
    ensures
        ({
            let t = take_spec(s, count, mask);
            &&& t.0.len() + t.1.len() + t.2.len() == s.len()
            &&& t.0.len() <= count
            &&& forall|i: int| 0 <= i < t.0.len() ==> wakes(#[trigger] t.0[i], mask)
            &&& forall|i: int| 0 <= i < t.1.len() ==> !wakes(#[trigger] t.1[i], mask)
            &&& (t.0 + t.1 + t.2).to_multiset() == s.to_multiset()
        }),
    decreases s.len(),
{
    broadcast use vstd::seq_lib::group_to_multiset_ensures;
    if count == 0 || s.len() == 0 {
        let t = take_spec(s, count, mask);
        assert(t.0 + t.1 + t.2 =~= s);
    } else {
        let c2 = if wakes(s[0], mask) { (count - 1) as nat } else { count };
        lemma_take_partition(s.skip(1), c2, mask);
        let t = take_spec(s.skip(1), c2, mask);
        assert(s =~= seq![s[0]] + s.skip(1));
        if wakes(s[0], mask) {
            let r = take_spec(s, count, mask);
            assert(r.0 + r.1 + r.2 =~= seq![s[0]] + (t.0 + t.1 + t.2));
            assert forall|i: int| 0 <= i < r.0.len() implies wakes(#[trigger] r.0[i], mask) by {
                if i > 0 {
                    assert(r.0[i] == t.0[i - 1]);
                }
            }
            vstd::seq_lib::lemma_multiset_commutative(seq![s[0]], t.0 + t.1 + t.2);
            vstd::seq_lib::lemma_multiset_commutative(seq![s[0]], s.skip(1));
        } else {
            let r = take_spec(s, count, mask);
            assert forall|i: int| 0 <= i < r.1.len() implies !wakes(#[trigger] r.1[i], mask) by {
                if i > 0 {
                    assert(r.1[i] == t.1[i - 1]);
                }
            }
            vstd::seq_lib::lemma_multiset_commutative(t.0, seq![s[0]] + t.1);
            vstd::seq_lib::lemma_multiset_commutative(seq![s[0]], t.1);
            vstd::seq_lib::lemma_multiset_commutative(t.0, t.1);
            vstd::seq_lib::lemma_multiset_commutative(t.0 + t.1, t.2);
            vstd::seq_lib::lemma_multiset_commutative(t.0 + (seq![s[0]] + t.1), t.2);
            vstd::seq_lib::lemma_multiset_commutative(seq![s[0]], t.0 + t.1 + t.2);
            vstd::seq_lib::lemma_multiset_commutative(seq![s[0]], s.skip(1));
            assert(r.0 + r.1 + r.2 =~= t.0 + (seq![s[0]] + t.1) + t.2);
        }
    }
}

pub open spec fn threads_of(s: Seq<FutexWaiter>) -> Seq<ThreadId> {
    s.map_values(|w: FutexWaiter| w.thread)
}

/// Takes up to `count` waiters that `wake_mask` selects off the bucket, oldest first.
/// Waiters passed over are moved behind the ones not yet scanned.
pub fn take_futex_waiters_from_bucket(
    bucket: &mut FutexBucket,
    count: usize,
    wake_mask: Option<u32>,
) -> (woken: Vec<ThreadId>)
    ensures
        woken@ == threads_of(take_spec(old(bucket).waiters@, count as nat, wake_mask).0),
        final(bucket).waiters@ == take_spec(old(bucket).waiters@, count as nat, wake_mask).2
            + take_spec(old(bucket).waiters@, count as nat, wake_mask).1,
        final(bucket).next_waiter_id == old(bucket).next_waiter_id,
{
    let ghost s = bucket.waiters@;
    let mut woken: Vec<ThreadId> = Vec::new();
    let ghost mut woken_w: Seq<FutexWaiter> = Seq::empty();
    let ghost mut skipped: Seq<FutexWaiter> = Seq::empty();
    let mut scanned: usize = 0;
    let initial_len = bucket.waiters.len();
    assert(s.skip(0) =~= s);
    assert(s.skip(0) + skipped =~= s);
    while woken.len() < count && scanned < initial_len
        invariant
            initial_len == s.len(),
            scanned <= initial_len,
            bucket.waiters@ == s.skip(scanned as int) + skipped,
            bucket.next_waiter_id == old(bucket).next_waiter_id,
            woken@ == threads_of(woken_w),
            woken_w.len() <= count,
            take_spec(s, count as nat, wake_mask) == ({
                let t = take_spec(s.skip(scanned as int), (count - woken_w.len()) as nat, wake_mask);
                (woken_w + t.0, skipped + t.1, t.2)
            }),
        decreases initial_len - scanned,
    {
        let ghost rest = s.skip(scanned as int);
        let ghost c = (count - woken_w.len()) as nat;
        assert(rest.skip(1) =~= s.skip(scanned + 1));
        assert(rest[0] == s[scanned as int]);
        let waiter = bucket.waiters.pop_front().unwrap();
        assert(bucket.waiters@ =~= s.skip(scanned + 1) + skipped);
        let should_wake = match wake_mask {
            None => true,
            Some(mask) => waiter.bitset & mask != 0,
        };
        if should_wake {
            woken.push(waiter.thread);
            proof {
                let t = take_spec(s.skip(scanned + 1), (c - 1) as nat, wake_mask);
                assert(woken_w + (seq![waiter] + t.0) =~= woken_w.push(waiter) + t.0);
                assert(threads_of(woken_w.push(waiter)) =~= threads_of(woken_w).push(waiter.thread));
                woken_w = woken_w.push(waiter);
            }
        } else {
            bucket.waiters.push_back(waiter);
            proof {
                let t = take_spec(s.skip(scanned + 1), c, wake_mask);
                assert(skipped + (seq![waiter] + t.1) =~= skipped.push(waiter) + t.1);
                skipped = skipped.push(waiter);
            }
            assert(bucket.waiters@ =~= s.skip(scanned + 1) + skipped);
        }
        scanned += 1;
    }
    proof {
        let t = take_spec(s.skip(scanned as int), (count - woken_w.len()) as nat, wake_mask);
        assert(woken_w + t.0 =~= woken_w);
        assert(skipped + t.1 =~= skipped);
    }
    woken
}


/// Takes up to `count` waiters of `(pid, addr)` that `wake_mask` selects, and drops the
/// bucket once no waiter is left in it.
pub fn take_futex_waiters(
    queue: &mut FutexQueue,
    pid: u64,
    addr: u64,
    count: usize,
    wake_mask: Option<u32>,
) -> (woken: Vec<ThreadId>)
    requires
        old(queue).wf(),
    ensures
        final(queue).wf(),
        ({
            let t = take_spec(old(queue).waiters_of((pid, addr)), count as nat, wake_mask);
            &&& woken@ == threads_of(t.0)
            &&& final(queue)@ == if old(queue)@.contains_key((pid, addr)) {
                queue_with_waiters(old(queue)@, (pid, addr), t.2 + t.1)
            } else {
                old(queue)@
            }
        }),
{
    let k = (pid, addr);
    let woken = match queue.take_bucket(k) {
        Some(mut bucket) => {
            let woken = take_futex_waiters_from_bucket(&mut bucket, count, wake_mask);
            queue.put_bucket(k, bucket);
            woken
        },
        None => Vec::new(),
    };
    if bucket_is_empty(queue, FutexKey { pid, addr }) {
        let _ = queue.take_bucket(k);
    }
    proof {
        let t = take_spec(old(queue).waiters_of(k), count as nat, wake_mask);
        if old(queue)@.contains_key(k) {
            assert(queue@ =~= queue_with_waiters(old(queue)@, k, t.2 + t.1));
        } else {
            assert(take_spec(Seq::<FutexWaiter>::empty(), count as nat, wake_mask).0 =~= Seq::<FutexWaiter>::empty());
            assert(queue@ =~= old(queue)@);
        }
    }
    woken
}

/// The threads that are ready to run again, in the order they were woken.
pub struct ThreadManager {
    pub run_queue: Vec<ThreadId>,
    /// Threads that exited and wait to be reaped.
    pub zombies: Vec<ThreadId>,
}

impl ThreadManager {
    pub fn new() -> (r: Self)
        ensures
            r.run_queue@ == Seq::<ThreadId>::empty(),
            r.zombies@ == Seq::<ThreadId>::empty(),
    {
        ThreadManager { run_queue: Vec::new(), zombies: Vec::new() }
    }

    /// Records that `thread` exited.
    pub fn mark_as_zombie(&mut self, thread: ThreadId)
        ensures
            final(self).zombies@ == old(self).zombies@.push(thread),
            final(self).run_queue@ == old(self).run_queue@,
    {
        self.zombies.push(thread);
    }

    /// Makes a blocked thread runnable.
    pub fn wake(&mut self, thread: ThreadId)
        ensures
            final(self).run_queue@ == old(self).run_queue@.push(thread),
    {
        self.run_queue.push(thread);
    }

    /// Wakes every thread of `threads`, in order.
    pub fn wake_all(&mut self, threads: Vec<ThreadId>)
        ensures
            final(self).run_queue@ == old(self).run_queue@ + threads@,
    {
        let mut i: usize = 0;
        while i < threads.len()
            invariant
                i <= threads.len(),
                self.run_queue@ == old(self).run_queue@ + threads@.take(i as int),
            decreases threads.len() - i,
        {
            self.wake(threads[i]);
            assert(threads@.take(i + 1) =~= threads@.take(i as int).push(threads@[i as int]));
            i += 1;
        }
        assert(threads@.take(i as int) =~= threads@);
    }
}

/// Wakes up to `count` threads waiting on `(pid, addr)` and returns how many woke.
pub fn wake_futex_for_process(
    queue: &mut FutexQueue,
    manager: &mut ThreadManager,
    pid: u64,
    addr: u64,
    count: usize,
) -> (woken: usize)
    requires
        old(queue).wf(),
    ensures
        final(queue).wf(),
        ({
            let t = take_spec(old(queue).waiters_of((pid, addr)), count as nat, None);
            &&& woken == t.0.len()
            &&& final(manager).run_queue@ == old(manager).run_queue@ + threads_of(t.0)
            &&& final(queue)@ == if old(queue)@.contains_key((pid, addr)) {
                queue_with_waiters(old(queue)@, (pid, addr), t.2 + t.1)
            } else {
                old(queue)@
            }
        }),
{
    let threads = take_futex_waiters(queue, pid, addr, count, None);
    let woken = threads.len();
    manager.wake_all(threads);
    woken
}

/// `wake_futex_for_process` for a caller that already holds the thread manager.
pub fn wake_futex_for_process_with_manager(
    queue: &mut FutexQueue,
    pid: u64,
    addr: u64,
    count: usize,
    manager: &mut ThreadManager,
) -> (woken: usize)
    requires
        old(queue).wf(),
    ensures
        final(queue).wf(),
        ({
            let t = take_spec(old(queue).waiters_of((pid, addr)), count as nat, None);
            &&& woken == t.0.len()
            &&& final(manager).run_queue@ == old(manager).run_queue@ + threads_of(t.0)
            &&& final(queue)@ == if old(queue)@.contains_key((pid, addr)) {
                queue_with_waiters(old(queue)@, (pid, addr), t.2 + t.1)
            } else {
                old(queue)@
            }
        }),
{
    let threads = take_futex_waiters(queue, pid, addr, count, None);
    let woken = threads.len();
    manager.wake_all(threads);
    woken
}

/// `s` without the waiter(s) named `id`, in order.
pub open spec fn without_id(s: Seq<FutexWaiter>, id: u64) -> Seq<FutexWaiter>
    decreases s.len(),
{
    if s.len() == 0 {
        s
    } else {
        let r = without_id(s.drop_last(), id);
        if s.last().id == id {
            r
        } else {
            r.push(s.last())
        }
    }
}

/// Takes a waiter out of its queue (a timeout or a signal ended its wait); drops the
/// bucket when it was the last waiter.
pub fn remove_futex_waiter(queue: &mut FutexQueue, wait_id: FutexWaitId)
    requires
        old(queue).wf(),
    ensures
        final(queue).wf(),
        final(queue)@ == if old(queue)@.contains_key(key_of(wait_id.key)) {
            queue_with_waiters(
                old(queue)@,
                key_of(wait_id.key),
                without_id(old(queue)@[key_of(wait_id.key)].waiters, wait_id.waiter_id),
            )
        } else {
            old(queue)@
        },
{
    let k = (wait_id.key.pid, wait_id.key.addr);
    match queue.take_bucket(k) {
        Some(mut bucket) => {
            let ghost s = bucket.waiters@;
            let ghost next = bucket.next_waiter_id;
            let mut kept: VecDeque<FutexWaiter> = VecDeque::new();
            let ghost mut i: int = 0;
            assert(s.skip(0) =~= s);
            assert(s.take(0) =~= Seq::<FutexWaiter>::empty());
            while bucket.waiters.len() > 0
                invariant
                    0 <= i <= s.len(),
                    bucket.waiters@ == s.skip(i),
                    bucket.next_waiter_id == next,
                    kept@ == without_id(s.take(i), wait_id.waiter_id),
                decreases s.len() - i,
            {
                let waiter = bucket.waiters.pop_front().unwrap();
                assert(s.take(i + 1).drop_last() =~= s.take(i));
                assert(s.skip(i + 1) =~= s.skip(i).skip(1));
                if waiter.id != wait_id.waiter_id {
                    kept.push_back(waiter);
                }
                proof {
                    i = i + 1;
                }
            }
            assert(s.take(i) =~= s);
            bucket.waiters = kept;
            if bucket.waiters.len() > 0 {
                queue.put_bucket(k, bucket);
            }
            assert(queue@ =~= queue_with_waiters(
                old(queue)@,
                k,
                without_id(old(queue)@[k].waiters, wait_id.waiter_id),
            ));
        },
        None => {
            assert(queue@ =~= old(queue)@);
        },
    }
}

} // verus!

verus! {

/// Without a mask, a wake takes the oldest waiters first, up to `count`, and leaves the rest
/// queued in order.
pub proof fn lemma_wake_is_fifo(s: Seq<FutexWaiter>, count: nat)
    ensures
        ({
            let n = if count < s.len() { count } else { s.len() };
            let t = take_spec(s, count, None);
            &&& t.0 == s.take(n as int)
            &&& t.1 == Seq::<FutexWaiter>::empty()
            &&& t.2 == s.skip(n as int)
        }),
    decreases s.len(),
{
    if count == 0 || s.len() == 0 {
        assert(s.take(0) =~= Seq::<FutexWaiter>::empty());
        assert(s.skip(0) =~= s);
    } else {
        lemma_wake_is_fifo(s.skip(1), (count - 1) as nat);
        let n = if count < s.len() { count } else { s.len() };
        let t = take_spec(s.skip(1), (count - 1) as nat, None);
        assert(seq![s[0]] + t.0 =~= s.take(n as int));
        assert(t.2 =~= s.skip(n as int));
    }
}

/// Removing an id that no waiter carries leaves the queue as it is.
pub proof fn lemma_without_absent_id(s: Seq<FutexWaiter>, id: u64)
    requires
        forall|i: int| 0 <= i < s.len() ==> (#[trigger] s[i]).id != id,
    ensures
        without_id(s, id) == s,
    decreases s.len(),
{
    if s.len() > 0 {
        lemma_without_absent_id(s.drop_last(), id);
        assert(s.drop_last().push(s.last()) =~= s);
    }
}

/// Taking a waiter out again right after queueing it gives back the waiters the word had
/// (only the id counter has moved on), provided no waiter of the word already carried the
/// id it was given.
pub proof fn lemma_remove_undoes_queue(
    m: Map<(u64, u64), BucketView>,
    key: FutexKey,
    thread: ThreadId,
    bitset: u32,
)
    requires
        forall|k: (u64, u64)| #[trigger] m.contains_key(k) ==> m[k].waiters.len() > 0,
        forall|i: int|
            0 <= i < bucket_or_default(m, key_of(key)).waiters.len() ==> (#[trigger] bucket_or_default(
                m,
                key_of(key),
            ).waiters[i]).id != bucket_or_default(m, key_of(key)).next_waiter_id,
    ensures
        ({
            let k = key_of(key);
            let id = bucket_or_default(m, k).next_waiter_id;
            let pushed = queue_after_push(m, k, thread, bitset);
            let back = queue_with_waiters(pushed, k, without_id(pushed[k].waiters, id));
            if m.contains_key(k) {
                back == m.insert(
                    k,
                    BucketView { next_waiter_id: saturating_inc(id), waiters: m[k].waiters },
                )
            } else {
                back == m
            }
        }),
{
    let k = key_of(key);
    let b = bucket_or_default(m, k);
    let id = b.next_waiter_id;
    let w = FutexWaiter { id, thread, bitset };
    let pushed = queue_after_push(m, k, thread, bitset);
    assert(pushed[k].waiters == b.waiters.push(w));
    assert(b.waiters.push(w).drop_last() =~= b.waiters);
    lemma_without_absent_id(b.waiters, id);
    assert(without_id(pushed[k].waiters, id) == b.waiters);
    let back = queue_with_waiters(pushed, k, b.waiters);
    if m.contains_key(k) {
        assert(back =~= m.insert(k, BucketView { next_waiter_id: saturating_inc(id), waiters: m[k].waiters }));
    } else {
        assert(back =~= m);
    }
}

} // verus!
