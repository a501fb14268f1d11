use sse_clock::waker::WakeFlags;

#[test]
fn notify_before_wait_is_not_lost() {
    let mut w = WakeFlags::new();
    w.notify();
    assert!(w.take_pending());
    assert!(!w.take_pending());
    assert!(!w.is_stopping());
}

#[test]
fn fresh_flags_block() {
    let mut w = WakeFlags::new();
    assert!(!w.take_pending());
    assert!(!w.is_stopping());
}

#[test]
fn stop_wakes_and_persists() {
    let mut w = WakeFlags::new();
    w.stop();
    assert!(w.is_stopping());
    assert!(w.take_pending());
    w.notify();
    assert!(w.take_pending());
    assert!(w.is_stopping());
    w.stop();
    assert!(w.is_stopping());
}
