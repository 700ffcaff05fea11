use thread_pool::Semaphore;

#[test]
fn new_semaphore_has_initial_permits() {
    let s = Semaphore::new(3);
    assert_eq!(s.available(), 3);
}

#[test]
fn acquire_takes_one_permit() {
    let mut s = Semaphore::new(2);
    s.acquire();
    assert_eq!(s.available(), 1);
    s.acquire();
    assert_eq!(s.available(), 0);
}

#[test]
fn try_acquire_fails_without_permits() {
    let mut s = Semaphore::new(0);
    assert!(!s.try_acquire());
    assert_eq!(s.available(), 0);
    s.release();
    assert!(s.try_acquire());
    assert_eq!(s.available(), 0);
}

#[test]
fn release_adds_one_permit() {
    let mut s = Semaphore::new(0);
    s.release();
    assert_eq!(s.available(), 1);
}

#[test]
fn releases_minus_acquires_remain() {
    let mut s = Semaphore::new(0);
    for _ in 0..7 {
        s.release();
    }
    for _ in 0..4 {
        assert!(s.try_acquire());
    }
    assert_eq!(s.available(), 3);
}

#[test]
fn interleaved_releases_and_acquires_keep_every_permit() {
    let mut s = Semaphore::new(1);
    s.acquire();
    s.release();
    s.release();
    s.acquire();
    s.release();
    assert_eq!(s.available(), 2);
}
