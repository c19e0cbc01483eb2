use seele_syscalls::error::SyscallError;
use seele_syscalls::futex::{
    bucket_is_empty, queue_waiter_in_locked_queue, remove_futex_waiter, take_futex_waiters,
    wake_futex_for_process, wake_futex_for_process_with_manager, FutexBucket, FutexKey,
    FutexQueue, ThreadManager,
};
use seele_syscalls::futex_ops::{
    current_tid_u32, decode_futex_op, futex_absolute_timeout_deadline, futex_bitset_from_arg,
    futex_lock_pi_prepare_wait, futex_lock_pi_try_acquire, futex_relative_timeout_deadline,
    futex_requeue_impl, futex_timeout_timespec, futex_trylock_pi_impl, futex_unlock_pi_impl,
    futex_uses_realtime_clock, futex_wait_finish, futex_wait_impl, futex_wake_bitset_impl,
    futex_wake_impl, futex_wake_op_apply, futex_wake_op_impl, futex_wake_op_prepare,
    timespec_to_ns, FutexOp, FutexWakeCmp, FutexWakeOp, LinuxTimespec, LockPiWait,
};
use seele_syscalls::legacy_futex::{
    FutexResultType, FutexWaitImpl, FutexWakeImpl, ProcessFutexQueue, ProcessManager,
};

fn key(addr: u64) -> FutexKey {
    FutexKey { pid: 1, addr }
}

fn waiting_threads(queue: &FutexQueue, addr: u64) -> Vec<u64> {
    match queue.buckets.get(&(1, addr)) {
        Some(bucket) => bucket.waiters.iter().map(|w| w.thread).collect(),
        None => Vec::new(),
    }
}

#[test]
fn waiters_wake_in_fifo_order() {
    let mut queue = FutexQueue::new();
    let mut manager = ThreadManager::new();
    for thread in [10, 11, 12] {
        queue_waiter_in_locked_queue(&mut queue, key(0x1000), thread, u32::MAX);
    }
    assert_eq!(wake_futex_for_process(&mut queue, &mut manager, 1, 0x1000, 2), 2);
    assert_eq!(manager.run_queue, vec![10, 11]);
    assert_eq!(waiting_threads(&queue, 0x1000), vec![12]);
    assert_eq!(wake_futex_for_process_with_manager(&mut queue, 1, 0x1000, 5, &mut manager), 1);
    assert_eq!(manager.run_queue, vec![10, 11, 12]);
    assert!(queue.buckets.get(&(1, 0x1000)).is_none());
    assert!(!queue.has_waiters((1, 0x1000)));
}

#[test]
fn waiter_ids_count_up_per_word() {
    let mut queue = FutexQueue::new();
    let a = queue_waiter_in_locked_queue(&mut queue, key(0x10), 1, 1);
    let b = queue_waiter_in_locked_queue(&mut queue, key(0x10), 2, 1);
    let c = queue_waiter_in_locked_queue(&mut queue, key(0x20), 3, 1);
    assert_eq!((a.waiter_id, b.waiter_id, c.waiter_id), (0, 1, 0));
    assert_eq!(a.key, key(0x10));
}

#[test]
fn bitset_wake_passes_over_other_waiters() {
    let mut queue = FutexQueue::new();
    queue_waiter_in_locked_queue(&mut queue, key(0x40), 1, 0b01);
    queue_waiter_in_locked_queue(&mut queue, key(0x40), 2, 0b10);
    queue_waiter_in_locked_queue(&mut queue, key(0x40), 3, 0b11);
    queue_waiter_in_locked_queue(&mut queue, key(0x40), 4, 0b10);
    let woken = take_futex_waiters(&mut queue, 1, 0x40, 1, Some(0b10));
    assert_eq!(woken, vec![2]);
    // The unscanned rest stays ahead of the waiter that was passed over.
    assert_eq!(waiting_threads(&queue, 0x40), vec![3, 4, 1]);
    let mut manager = ThreadManager::new();
    assert_eq!(
        futex_wake_bitset_impl(&mut queue, &mut manager, 1, 0x40, 10, 0b10, Ok(0)),
        Ok(2)
    );
    assert_eq!(manager.run_queue, vec![3, 4]);
    assert_eq!(waiting_threads(&queue, 0x40), vec![1]);
}

#[test]
fn removing_a_waiter_after_a_timeout_forgets_it() {
    let mut queue = FutexQueue::new();
    let first = queue_waiter_in_locked_queue(&mut queue, key(0x80), 7, 1);
    let second = queue_waiter_in_locked_queue(&mut queue, key(0x80), 8, 1);
    remove_futex_waiter(&mut queue, first);
    assert_eq!(waiting_threads(&queue, 0x80), vec![8]);
    remove_futex_waiter(&mut queue, second);
    assert!(queue.buckets.get(&(1, 0x80)).is_none());
    assert!(!bucket_is_empty(&queue, key(0x80)));
    remove_futex_waiter(&mut queue, second);
    assert!(queue.buckets.is_empty());
}

#[test]
fn bucket_push_and_take() {
    let mut bucket = FutexBucket::new();
    assert_eq!(bucket.push_waiter(5, 1), 0);
    assert_eq!(bucket.push_waiter(6, 2), 1);
    assert_eq!(bucket.next_waiter_id, 2);
    let mut manager = ThreadManager::new();
    manager.wake_all(vec![1, 2]);
    manager.wake(3);
    manager.mark_as_zombie(9);
    assert_eq!(manager.run_queue, vec![1, 2, 3]);
    assert_eq!(manager.zombies, vec![9]);
}

#[test]
fn futex_ops_decode() {
    assert_eq!(decode_futex_op(0), Ok(FutexOp::Wait));
    assert_eq!(decode_futex_op(0x80 | 1), Ok(FutexOp::Wake));
    assert_eq!(decode_futex_op(0x100 | 9), Ok(FutexOp::WaitBitset));
    assert_eq!(decode_futex_op(6), Ok(FutexOp::LockPi));
    assert_eq!(decode_futex_op(2), Err(SyscallError::InvalidArguments));
    assert_eq!(decode_futex_op(11), Err(SyscallError::InvalidArguments));
    assert!(futex_uses_realtime_clock(0x109));
    assert!(!futex_uses_realtime_clock(9));
    assert_eq!(futex_bitset_from_arg(0), Err(SyscallError::InvalidArguments));
    assert_eq!(futex_bitset_from_arg(0x1_0000_0000), Err(SyscallError::InvalidArguments));
    assert_eq!(futex_bitset_from_arg(0xffff_ffff), Ok(0xffff_ffff));
}

#[test]
fn timeouts_are_checked_and_converted() {
    let t = LinuxTimespec { tv_sec: 2, tv_nsec: 500 };
    assert_eq!(futex_timeout_timespec(0, Err(SyscallError::BadAddress)), Ok(None));
    assert_eq!(futex_timeout_timespec(8, Ok(t)), Ok(Some(t)));
    assert_eq!(
        futex_timeout_timespec(8, Ok(LinuxTimespec { tv_sec: 0, tv_nsec: 1_000_000_000 })),
        Err(SyscallError::InvalidArguments)
    );
    assert_eq!(
        futex_timeout_timespec(8, Ok(LinuxTimespec { tv_sec: -1, tv_nsec: 0 })),
        Err(SyscallError::InvalidArguments)
    );
    assert_eq!(futex_timeout_timespec(8, Err(SyscallError::BadAddress)), Err(SyscallError::BadAddress));
    assert_eq!(timespec_to_ns(t), 2_000_000_500);
    assert_eq!(timespec_to_ns(LinuxTimespec { tv_sec: i64::MAX, tv_nsec: 0 }), u64::MAX);
    assert_eq!(futex_relative_timeout_deadline(8, Ok(t), 100), Ok(Some(2_000_000_600)));
    assert_eq!(futex_relative_timeout_deadline(8, Ok(t), u64::MAX - 1), Ok(Some(u64::MAX)));
    assert_eq!(futex_absolute_timeout_deadline(8, Ok(t), false, 5, 7), Ok(Some(2_000_000_500)));
    assert_eq!(
        futex_absolute_timeout_deadline(8, Ok(t), true, 1_000, 1_000_000_500),
        Ok(Some(1_000_001_000))
    );
    assert_eq!(futex_absolute_timeout_deadline(8, Ok(t), true, 1_000, 3_000_000_000), Ok(Some(1_000)));
    assert_eq!(futex_absolute_timeout_deadline(0, Ok(t), true, 1, 2), Ok(None));
}

#[test]
fn futex_wait_checks_value_and_deadline() {
    let mut queue = FutexQueue::new();
    assert_eq!(
        futex_wait_impl(&mut queue, key(4), 9, Ok(1), 2, None, 0, u32::MAX),
        Err(SyscallError::TryAgain)
    );
    assert_eq!(
        futex_wait_impl(&mut queue, key(4), 9, Err(SyscallError::BadAddress), 2, None, 0, 1),
        Err(SyscallError::BadAddress)
    );
    assert_eq!(
        futex_wait_impl(&mut queue, key(4), 9, Ok(2), 2, Some(10), 10, 1),
        Err(SyscallError::TimedOut)
    );
    assert!(queue.buckets.is_empty());
    let id = futex_wait_impl(&mut queue, key(4), 9, Ok(2), 2, Some(10), 9, 1).unwrap();
    assert_eq!(id.waiter_id, 0);
    assert_eq!(waiting_threads(&queue, 4), vec![9]);
    assert_eq!(futex_wait_finish(Some(10), 10), Err(SyscallError::TimedOut));
    assert_eq!(futex_wait_finish(Some(10), 9), Ok(0));
    assert_eq!(futex_wait_finish(None, u64::MAX), Ok(0));
}

#[test]
fn futex_wake_reports_a_failed_probe() {
    let mut queue = FutexQueue::new();
    let mut manager = ThreadManager::new();
    queue_waiter_in_locked_queue(&mut queue, key(8), 3, 1);
    assert_eq!(
        futex_wake_impl(&mut queue, &mut manager, 1, 8, 1, Err(SyscallError::BadAddress)),
        Err(SyscallError::BadAddress)
    );
    assert_eq!(waiting_threads(&queue, 8), vec![3]);
    assert_eq!(futex_wake_impl(&mut queue, &mut manager, 1, 8, 1, Ok(0)), Ok(1));
    assert_eq!(futex_wake_impl(&mut queue, &mut manager, 1, 8, 1, Ok(0)), Ok(0));
    assert_eq!(manager.run_queue, vec![3]);
}

#[test]
fn requeue_wakes_then_moves_in_order() {
    let mut queue = FutexQueue::new();
    let mut manager = ThreadManager::new();
    for thread in [1, 2, 3, 4, 5] {
        queue_waiter_in_locked_queue(&mut queue, key(0x100), thread, u32::MAX);
    }
    queue_waiter_in_locked_queue(&mut queue, key(0x200), 9, u32::MAX);
    let (woken, moved) = futex_requeue_impl(
        &mut queue,
        &mut manager,
        1,
        0x100,
        1,
        2,
        0x200,
        None,
        Err(SyscallError::BadAddress),
    )
    .unwrap();
    assert_eq!(woken, 1);
    assert_eq!(manager.run_queue, vec![1]);
    assert_eq!(moved.len(), 2);
    assert_eq!((moved[0].0, moved[1].0), (2, 3));
    assert_eq!((moved[0].1.waiter_id, moved[1].1.waiter_id), (1, 2));
    assert_eq!(moved[0].1.key, key(0x200));
    assert_eq!(waiting_threads(&queue, 0x100), vec![4, 5]);
    assert_eq!(waiting_threads(&queue, 0x200), vec![9, 2, 3]);
    assert_eq!(
        futex_requeue_impl(&mut queue, &mut manager, 1, 0x100, 1, 1, 0x200, Some(7), Ok(6))
            .map(|r| r.0),
        Err(SyscallError::TryAgain)
    );
    assert_eq!(
        futex_requeue_impl(
            &mut queue,
            &mut manager,
            1,
            0x100,
            1,
            1,
            0x200,
            Some(7),
            Err(SyscallError::BadAddress)
        )
        .map(|r| r.0),
        Err(SyscallError::BadAddress)
    );
    assert_eq!(waiting_threads(&queue, 0x100), vec![4, 5]);
}

#[test]
fn wake_op_decodes_and_applies_the_operation() {
    // op ADD (1), cmp GT (4), oparg 5, cmparg 0: old 3 becomes 8, and 3 > 0.
    let encoded = (1u32 << 28) | (4 << 24) | (5 << 12);
    assert_eq!(futex_wake_op_apply(3, encoded), Ok((8, true)));
    // op OR with a shifted argument (1 << 4), cmp EQ against 1.
    let shifted = (2u32 << 28) | (0 << 24) | ((8 | 4) << 12) | 1;
    assert_eq!(futex_wake_op_apply(1, shifted), Ok((17, true)));
    // ASSIGN with the shift bit is refused, and so is an unknown op.
    assert_eq!(futex_wake_op_apply(0, (8 << 12) | 0), Err(SyscallError::InvalidArguments));
    assert_eq!(futex_wake_op_apply(0, 7 << 28), Err(SyscallError::InvalidArguments));
    assert_eq!(futex_wake_op_apply(0, 6 << 24), Err(SyscallError::InvalidArguments));
    assert_eq!(futex_wake_op_apply(u32::MAX, (1u32 << 28) | (1 << 12)), Ok((0, false)));
    assert_eq!(futex_wake_op_prepare(Ok(3), encoded as u64), Ok((8, true)));
    assert_eq!(futex_wake_op_prepare(Ok(3), 1 << 32), Err(SyscallError::InvalidArguments));
    assert_eq!(futex_wake_op_prepare(Err(SyscallError::BadAddress), 0), Err(SyscallError::BadAddress));
    assert_eq!(FutexWakeOp::try_from_u32(4), Some(FutexWakeOp::Xor));
    assert_eq!(FutexWakeOp::try_from_u32(5), None);
    assert_eq!(FutexWakeCmp::try_from_u32(5), Some(FutexWakeCmp::Ge));
    assert_eq!(FutexWakeCmp::try_from_u32(6), None);
}

#[test]
fn wake_op_wakes_the_second_word_when_asked() {
    let mut queue = FutexQueue::new();
    let mut manager = ThreadManager::new();
    queue_waiter_in_locked_queue(&mut queue, key(1), 10, 1);
    queue_waiter_in_locked_queue(&mut queue, key(2), 20, 1);
    queue_waiter_in_locked_queue(&mut queue, key(2), 21, 1);
    assert_eq!(futex_wake_op_impl(&mut queue, &mut manager, 1, 1, 1, 1, 2, true), 2);
    assert_eq!(manager.run_queue, vec![10, 20]);
    assert_eq!(futex_wake_op_impl(&mut queue, &mut manager, 1, 1, 1, 1, 2, false), 0);
    assert_eq!(waiting_threads(&queue, 2), vec![21]);
}

#[test]
fn pi_futex_ownership_rules() {
    assert_eq!(current_tid_u32(5), Ok(5));
    assert_eq!(current_tid_u32(1 << 32), Err(SyscallError::InvalidArguments));
    assert_eq!(futex_trylock_pi_impl(7, 0), Ok(7));
    assert_eq!(futex_trylock_pi_impl(7, 0x4000_0000), Ok(0x4000_0007));
    assert_eq!(futex_trylock_pi_impl(7, 7), Err(SyscallError::ResourceDeadlock));
    assert_eq!(futex_trylock_pi_impl(7, 8), Err(SyscallError::TryAgain));
    assert_eq!(futex_lock_pi_try_acquire(7, 0, false), Ok(Some(7)));
    assert_eq!(futex_lock_pi_try_acquire(7, 8, false), Ok(None));
    assert_eq!(futex_lock_pi_try_acquire(7, 8, true), Err(SyscallError::TimedOut));
    assert_eq!(futex_lock_pi_try_acquire(7, 0x8000_0007, false), Err(SyscallError::ResourceDeadlock));
    assert_eq!(futex_lock_pi_prepare_wait(7, 0, false), Ok(LockPiWait::Retry));
    assert_eq!(futex_lock_pi_prepare_wait(7, 8, false), Ok(LockPiWait::Block(Some(0x8000_0008))));
    assert_eq!(futex_lock_pi_prepare_wait(7, 0x8000_0008, false), Ok(LockPiWait::Block(None)));
    assert_eq!(futex_lock_pi_prepare_wait(7, 8, true), Err(SyscallError::TimedOut));
}

#[test]
fn unlock_pi_hands_the_lock_to_the_first_waiter() {
    let mut queue = FutexQueue::new();
    assert_eq!(futex_unlock_pi_impl(&mut queue, 1, 0x50, 7, 8), Err(SyscallError::PermissionDenied));
    assert_eq!(futex_unlock_pi_impl(&mut queue, 1, 0x50, 7, 7), Ok((0, None)));
    queue_waiter_in_locked_queue(&mut queue, key(0x50), 11, 1);
    queue_waiter_in_locked_queue(&mut queue, key(0x50), 12, 1);
    assert_eq!(
        futex_unlock_pi_impl(&mut queue, 1, 0x50, 7, 0x8000_0007),
        Ok((0x8000_000b, Some(11)))
    );
    assert_eq!(futex_unlock_pi_impl(&mut queue, 1, 0x50, 11, 0x8000_000b), Ok((12, Some(12))));
    assert!(queue.buckets.is_empty());
}

#[test]
fn legacy_futex_wait_and_wake() {
    let mut queue = ProcessFutexQueue::new();
    let mut manager = ProcessManager::new();
    assert_eq!(FutexWaitImpl::handle_call(&mut queue, 3, 0x10, 1, 0), Ok(2));
    assert_eq!(FutexWaitImpl::handle_call(&mut queue, 3, 0x10, 1, 1), Ok(1));
    assert_eq!(FutexWaitImpl::handle_call(&mut queue, 4, 0x10, 1, 1), Ok(1));
    assert_eq!(FutexWakeImpl::handle_call(&mut queue, &mut manager, 0x10, 1), Ok(1));
    assert_eq!(manager.woken, vec![3]);
    assert_eq!(FutexWakeImpl::handle_call(&mut queue, &mut manager, 0x10, 9), Ok(1));
    assert_eq!(manager.woken, vec![3, 4]);
    assert_eq!(FutexWakeImpl::handle_call(&mut queue, &mut manager, 0x99, 9), Ok(0));
    assert_eq!(FutexResultType::Success.as_usize(), 1);
    assert_eq!(FutexResultType::TryAgain.as_usize(), 2);
    assert_eq!(FutexResultType::Invalid.as_usize(), 3);
}
