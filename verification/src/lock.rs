//! A mutex whose waiters sleep instead of spinning.

use vstd::prelude::*;

verus! {

/// Time that a waiter sleeps before it tries the lock again.
pub const DEFAULT_LOCK_SLEEP: usize = 10000;

/// `spin::relax::Spin`, the way in which a spinning waiter of
/// `spin::mutex::Mutex` passes its time.
#[verifier::external_type_specification]
#[verifier::external_body]
pub struct ExSpin(spin::relax::Spin);

/// `spin::mutex::Mutex`: a lock around a value of type `T`.
#[verifier::external_type_specification]
#[verifier::external_body]
#[verifier::reject_recursive_types(T)]
#[verifier::reject_recursive_types(R)]
pub struct ExSpinMutex<T: ?Sized, R>(spin::mutex::Mutex<T, R>);

/// `spin::mutex::MutexGuard`: the lock is held for as long as the guard
/// lives.
#[verifier::external_type_specification]
#[verifier::external_body]
#[verifier::reject_recursive_types(T)]
pub struct ExSpinMutexGuard<'a, T: 'a + ?Sized>(spin::mutex::MutexGuard<'a, T>);

/// `spin::mutex::Mutex::new` makes an unlocked mutex around the value.
/// Nothing is claimed of the result.
pub assume_specification<T, R>[ spin::mutex::Mutex::<T, R>::new ](value: T) -> spin::mutex::Mutex<
    T,
    R,
>;

/// `spin::mutex::Mutex::try_lock` takes the lock if it is free at that
/// moment, and returns the guard then. Other harts decide whether it is
/// free, so nothing is claimed of the result.
pub assume_specification<T: ?Sized, R>[ spin::mutex::Mutex::<T, R>::try_lock ](
    mutex: &spin::mutex::Mutex<T, R>,
) -> Option<spin::mutex::MutexGuard<'_, T>>;

/// A lock around a value of type `T`.
#[verifier::reject_recursive_types(T)]
pub struct SleepMutex<T> {
    pub inner_mutex: spin::Mutex<T>,
}

/// What a waiter does after it has tried the lock.
#[derive(Clone, Copy, Debug, PartialEq, Eq, Structural)]
pub enum Wait {
    /// The lock was free: the wait is over.
    Over,
    /// The lock was held: sleep for this long, then try again.
    Sleep(usize),
}

/// What a waiter does after it has tried the lock: where it got the guard the
/// wait is over, else the waiter sleeps for `DEFAULT_LOCK_SLEEP`. The guard
/// is let go.
pub fn after_try<T>(tried: Option<spin::MutexGuard<'_, T>>) -> (wait: Wait)
    ensures
        wait == (if tried is Some {
            Wait::Over
        } else {
            Wait::Sleep(DEFAULT_LOCK_SLEEP)
        }),
{
    match tried {
        Some(_) => Wait::Over,
        None => Wait::Sleep(DEFAULT_LOCK_SLEEP),
    }
}

impl<T> SleepMutex<T> {
    /// Try the lock once, and say whether the wait is over or the caller is
    /// to sleep and call again. The lock is not kept.
    pub fn sleep_lock(&mut self) -> (wait: Wait)
        ensures
            wait == Wait::Over || wait == Wait::Sleep(DEFAULT_LOCK_SLEEP),
            *final(self) == *old(self),
    {
        after_try(self.inner_mutex.try_lock())
    }

    /// An unlocked mutex around `value`.
    pub fn new(value: T) -> Self {
        Self { inner_mutex: spin::Mutex::new(value) }
    }
}

} // verus!
