//! Channels, locks and the clock of the standard library, as far as the runtime
//! uses them.
//!
//! What comes out of a channel, whether a lock is free and what time it is depend on
//! other threads and on the machine: nothing is claimed of such a result.
use std::sync::mpsc::{Receiver, RecvError, SendError, Sender, TryRecvError};
use std::sync::{Arc, Mutex, MutexGuard};
use std::time::Instant;
use vstd::prelude::*;

verus! {

#[verifier::external_type_specification]
#[verifier::external_body]
#[verifier::reject_recursive_types(T)]
pub struct ExSender<T>(Sender<T>);

#[verifier::external_type_specification]
#[verifier::external_body]
#[verifier::reject_recursive_types(T)]
pub struct ExReceiver<T>(Receiver<T>);

#[verifier::external_type_specification]
#[verifier::external_body]
#[verifier::reject_recursive_types(T)]
pub struct ExSendError<T>(SendError<T>);

#[verifier::external_type_specification]
#[verifier::external_body]
pub struct ExTryRecvError(TryRecvError);

#[verifier::external_type_specification]
#[verifier::external_body]
pub struct ExRecvError(RecvError);

#[verifier::external_type_specification]
#[verifier::external_body]
#[verifier::reject_recursive_types(T)]
pub struct ExMutex<T: ?Sized>(Mutex<T>);

#[verifier::external_type_specification]
#[verifier::external_body]
#[verifier::reject_recursive_types(T)]
pub struct ExMutexGuard<'a, T: ?Sized + 'a>(MutexGuard<'a, T>);

#[verifier::external_type_specification]
#[verifier::external_body]
pub struct ExInstant(Instant);

/// `std::sync::mpsc::channel`: a new channel. Nothing is claimed of it.
pub assume_specification<T>[ std::sync::mpsc::channel::<T> ]() -> (ends: (Sender<T>, Receiver<T>))
;

/// `Sender::send`: it fails when the receiving end is gone, which only the other
/// end decides. Nothing is claimed of the result.
pub assume_specification<T>[ Sender::<T>::send ](sender: &Sender<T>, value: T) -> (sent: Result<
    (),
    SendError<T>,
>)
;

/// `Receiver::try_recv`: what it returns depends on what other threads have sent.
/// Nothing is claimed of the result.
pub assume_specification<T>[ Receiver::<T>::try_recv ](receiver: &Receiver<T>) -> (received:
    Result<T, TryRecvError>)
;

/// `Receiver::recv`: blocks until a value arrives or every sender is gone. Nothing
/// is claimed of the result.
pub assume_specification<T>[ Receiver::<T>::recv ](receiver: &Receiver<T>) -> (received: Result<
    T,
    RecvError,
>)
;

/// `Sender::clone`: another sending end of the same channel. In contracts a sender
/// stands for the channel that it sends to, so the clone equals the sender it was
/// made from.
pub assume_specification<T>[ <Sender<T> as Clone>::clone ](sender: &Sender<T>) -> (cloned: Sender<
    T,
>)
    ensures
        cloned == *sender,
;

/// `Instant::now`: the time on the monotonic clock. Nothing is claimed of it.
pub assume_specification[ Instant::now ]() -> (now: Instant)
;


/// `Mutex::new`: a lock around `value`.
#[verifier::external_body]
pub(crate) fn new_mutex<T>(value: T) -> (mutex: Mutex<T>) {
    Mutex::new(value)
}

/// `Arc::clone`: another handle to the same shared value.
#[verifier::external_body]
pub(crate) fn share<T>(shared: &Arc<T>) -> (cloned: Arc<T>)
    ensures
        cloned == *shared,
{
    Arc::clone(shared)
}

/// How an attempt to take a lock ended.
#[verifier::reject_recursive_types(T)]
pub enum LockAttempt<'a, T> {
    /// The lock is held by the caller now.
    Acquired(MutexGuard<'a, T>),
    /// Another thread holds the lock.
    WouldBlock,
    /// A thread panicked while it held the lock, and the lock was not taken.
    Poisoned,
}

/// `Instant > Instant`: whether `time` is later than `deadline`. Nothing is claimed
/// of the result.
#[verifier::external_body]
pub(crate) fn is_later(time: &Instant, deadline: &Instant) -> (later: bool) {
    time > deadline
}

/// `Mutex::try_lock`: takes the lock if it is free. Whether it is depends on other
/// threads: nothing is claimed of the result.
#[verifier::external_body]
fn try_lock_once<'a, T>(mutex: &'a Mutex<T>) -> (attempt: LockAttempt<'a, T>) {
    match mutex.try_lock() {
        Ok(guard) => LockAttempt::Acquired(guard),
        Err(std::sync::TryLockError::WouldBlock) => LockAttempt::WouldBlock,
        Err(std::sync::TryLockError::Poisoned(_)) => LockAttempt::Poisoned,
    }
}

/// `Mutex::lock`: waits until the lock is free and takes it, so it never returns
/// `WouldBlock`.
#[verifier::external_body]
fn lock_once<'a, T>(mutex: &'a Mutex<T>) -> (attempt: LockAttempt<'a, T>)
    ensures
        !(attempt is WouldBlock),
{
    match mutex.lock() {
        Ok(guard) => LockAttempt::Acquired(guard),
        Err(_) => LockAttempt::Poisoned,
    }
}

/// `Mutex::clear_poison`: makes a poisoned lock usable again.
#[verifier::external_body]
fn clear_poison<T>(mutex: &Mutex<T>) {
    mutex.clear_poison()
}

/// Takes the lock if it is free. A poisoned lock is not taken, but it is made
/// usable for the attempts that follow.
pub(crate) fn try_lock<'a, T>(mutex: &'a Mutex<T>) -> (attempt: LockAttempt<'a, T>) {
    let attempt = try_lock_once(mutex);
    if let LockAttempt::Poisoned = &attempt {
        clear_poison(mutex);
    }
    attempt
}

/// Waits until the lock is free and takes it. A poisoned lock is not taken, but it
/// is made usable for the attempts that follow.
pub(crate) fn lock<'a, T>(mutex: &'a Mutex<T>) -> (attempt: LockAttempt<'a, T>)
    ensures
        !(attempt is WouldBlock),
{
    let attempt = lock_once(mutex);
    if let LockAttempt::Poisoned = &attempt {
        clear_poison(mutex);
    }
    attempt
}

/// `MutexGuard::deref_mut`: the value that the held lock protects.
#[verifier::external_body]
pub(crate) fn locked<'a, 'b, T>(guard: &'b mut MutexGuard<'a, T>) -> (value: &'b mut T) {
    &mut *guard
}

} // verus!
