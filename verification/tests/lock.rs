use hak::lock::{after_try, SleepMutex, Wait, DEFAULT_LOCK_SLEEP};

#[test]
fn waiter_sleeps_while_the_lock_is_held() {
    assert_eq!(DEFAULT_LOCK_SLEEP, 10000);
    let mutex = spin::Mutex::new(1u32);
    assert_eq!(after_try(mutex.try_lock()), Wait::Over);
    let held = mutex.lock();
    assert_eq!(after_try(mutex.try_lock()), Wait::Sleep(10000));
    drop(held);
    assert_eq!(after_try(mutex.try_lock()), Wait::Over);
    assert_eq!(after_try::<u32>(None), Wait::Sleep(10000));
}

#[test]
fn free_lock_ends_the_wait() {
    let mut mutex = SleepMutex::new(5u32);
    assert_eq!(mutex.sleep_lock(), Wait::Over);
    assert_eq!(mutex.sleep_lock(), Wait::Over);
    assert_eq!(*mutex.inner_mutex.lock(), 5);
}

#[test]
fn held_lock_sends_the_waiter_to_sleep() {
    let mut mutex = SleepMutex::new(());
    core::mem::forget(mutex.inner_mutex.lock());
    assert_eq!(mutex.sleep_lock(), Wait::Sleep(DEFAULT_LOCK_SLEEP));
    assert_eq!(mutex.sleep_lock(), Wait::Sleep(DEFAULT_LOCK_SLEEP));
}

#[test]
fn waiting_does_not_keep_the_lock() {
    let mut mutex = SleepMutex::new(7u8);
    assert_eq!(mutex.sleep_lock(), Wait::Over);
    assert!(mutex.inner_mutex.try_lock().is_some());
}
