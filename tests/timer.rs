use std::sync::atomic::{AtomicUsize, Ordering};
use std::sync::Arc;

use futures::task::{noop_waker, waker, ArcWake};
use tracer::TimerFuture;

struct CountingWake {
    wakes: AtomicUsize,
}

impl ArcWake for CountingWake {
    fn wake_by_ref(arc_self: &Arc<Self>) {
        arc_self.wakes.fetch_add(1, Ordering::SeqCst);
    }
}

#[test]
fn new_timer_is_running_without_waiter() {
    let t = TimerFuture::new();
    assert!(!t.is_completed());
    assert!(t.waker().is_none());
}

#[test]
fn poll_before_firing_is_pending_and_parks_waker() {
    let mut t = TimerFuture::new();
    let w = noop_waker();
    assert!(!t.poll(w.clone()));
    assert!(!t.is_completed());
    assert!(t.waker().unwrap().will_wake(&w));
}

#[test]
fn poll_after_firing_is_ready() {
    let mut t = TimerFuture::new();
    t.fire();
    assert!(t.is_completed());
    assert!(t.poll(noop_waker()));
    assert!(t.waker().is_none());
}

#[test]
fn firing_hands_back_the_parked_waker() {
    let counter = Arc::new(CountingWake { wakes: AtomicUsize::new(0) });
    let mut t = TimerFuture::new();
    assert!(!t.poll(waker(counter.clone())));
    t.fire();
    if let Some(w) = t.waker() {
        w.wake_by_ref();
    }
    assert_eq!(counter.wakes.load(Ordering::SeqCst), 1);
    assert!(t.poll(noop_waker()));
}

#[test]
fn later_poll_replaces_parked_waker() {
    let first = Arc::new(CountingWake { wakes: AtomicUsize::new(0) });
    let second = Arc::new(CountingWake { wakes: AtomicUsize::new(0) });
    let mut t = TimerFuture::new();
    assert!(!t.poll(waker(first.clone())));
    assert!(!t.poll(waker(second.clone())));
    t.fire();
    t.waker().unwrap().wake_by_ref();
    assert_eq!(first.wakes.load(Ordering::SeqCst), 0);
    assert_eq!(second.wakes.load(Ordering::SeqCst), 1);
}
