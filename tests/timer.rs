use nvim_oxi::timer::millis;
use nvim_oxi::{Error, TimerHandle, TimerState};

/// A callback that sees the timer it runs for and a counter.
struct Cb(fn(&mut TimerHandle<Cb>, &mut u32) -> Result<(), String>);

/// One iteration of the loop: fire the timer if it is due.
fn iterate(timer: &mut TimerHandle<Cb>, counter: &mut u32) {
    if timer.is_pending() {
        if let Some(cb) = timer.fire() {
            let res = (cb.0)(timer, counter);
            timer.finish(cb, res.is_ok());
        }
    }
}

fn count(_: &mut TimerHandle<Cb>, n: &mut u32) -> Result<(), String> {
    *n += 1;
    Ok(())
}

fn count_to_three(t: &mut TimerHandle<Cb>, n: &mut u32) -> Result<(), String> {
    *n += 1;
    if *n == 3 {
        t.stop(0).unwrap();
    }
    Ok(())
}

fn fail(_: &mut TimerHandle<Cb>, _: &mut u32) -> Result<(), String> {
    Err(String::from("boom"))
}

#[test]
fn one_shot_fires_once() {
    let mut t = TimerHandle::start(10, 0, Cb(count), 0, 0).unwrap();
    let mut counter = 0;
    iterate(&mut t, &mut counter);
    assert_eq!(counter, 1);
    for _ in 0..10 {
        iterate(&mut t, &mut counter);
    }
    assert_eq!(counter, 1);
    assert_eq!(t.state(), TimerState::Running);
    assert!(!t.is_pending());
    assert!(t.has_callback());
    assert_eq!(t.fire_count(), 1);
}

#[test]
fn periodic_stops_from_callback() {
    let mut t = TimerHandle::start(5, 5, Cb(count_to_three), 0, 0).unwrap();
    let mut counter = 0;
    for _ in 0..20 {
        iterate(&mut t, &mut counter);
    }
    assert_eq!(counter, 3);
    assert_eq!(t.state(), TimerState::Stopped);
    assert!(!t.has_callback());
    assert_eq!(t.fire_count(), 3);
}

#[test]
fn periodic_keeps_firing() {
    let mut t = TimerHandle::start(5, 7, Cb(count), 0, 0).unwrap();
    let mut counter = 0;
    for _ in 0..50 {
        iterate(&mut t, &mut counter);
    }
    assert_eq!(counter, 50);
    assert!(t.is_pending());
    assert!(t.has_callback());
    assert_eq!(t.timeout_ms(), 5);
    assert_eq!(t.repeat_ms(), 7);
    assert_eq!(t.stop(0), Ok(()));
    iterate(&mut t, &mut counter);
    assert_eq!(counter, 50);
}

#[test]
fn once_with_failing_callback_stops() {
    let mut t = TimerHandle::once(0, Cb(fail), 0, 0).unwrap();
    let mut counter = 0;
    iterate(&mut t, &mut counter);
    assert_eq!(t.state(), TimerState::Stopped);
    assert_eq!(t.error_count(), 1);
    assert!(!t.is_firing());
    assert!(!t.has_callback());
}

#[test]
fn once_runs_at_most_once() {
    let mut t = TimerHandle::once(3, Cb(count), 0, 0).unwrap();
    assert_eq!(t.repeat_ms(), 0);
    let mut counter = 0;
    for _ in 0..5 {
        iterate(&mut t, &mut counter);
        assert!(t.fire().is_none());
    }
    assert_eq!(counter, 1);
    assert_eq!(t.state(), TimerState::Stopped);
}

#[test]
fn stop_after_once_is_harmless() {
    let mut t = TimerHandle::once(0, Cb(count), 0, 0).unwrap();
    let mut counter = 0;
    iterate(&mut t, &mut counter);
    assert_eq!(t.stop(0), Ok(()));
    assert_eq!(t.stop(0), Ok(()));
    assert_eq!(t.state(), TimerState::Stopped);
    assert_eq!(t.fire_count(), 1);
}

#[test]
fn start_errors() {
    assert!(matches!(
        TimerHandle::start(1, 0, Cb(count), -1, 0),
        Err(Error::HandleInit)
    ));
    assert!(matches!(
        TimerHandle::start(1, 0, Cb(count), 0, -22),
        Err(Error::TimerStart)
    ));
    assert!(matches!(
        TimerHandle::once(1, Cb(count), -12, -1),
        Err(Error::HandleInit)
    ));
    assert!(matches!(
        TimerHandle::<Cb>::new(-1),
        Err(Error::HandleInit)
    ));
}

#[test]
fn new_timer_is_initialized() {
    let mut t = TimerHandle::<Cb>::new(0).unwrap();
    assert_eq!(t.state(), TimerState::Initialized);
    assert!(!t.has_callback());
    assert!(t.fire().is_none());
}

#[test]
fn failed_stop_keeps_running() {
    let mut t = TimerHandle::start(1, 1, Cb(count), 0, 0).unwrap();
    assert_eq!(t.stop(-1), Err(Error::TimerStop));
    assert_eq!(t.state(), TimerState::Running);
    assert!(t.is_pending());
    assert!(t.has_callback());
}

#[test]
fn stop_inside_firing_drops_returned_callback() {
    let mut t = TimerHandle::start(1, 1, Cb(count), 0, 0).unwrap();
    let cb = t.fire().unwrap();
    assert!(t.is_firing());
    assert_eq!(t.stop(0), Ok(()));
    t.finish(cb, true);
    assert!(!t.has_callback());
    assert!(t.fire().is_none());
}

#[test]
fn millis_truncates() {
    assert_eq!(millis(0, 999_999), 0);
    assert_eq!(millis(0, 10_000_000), 10);
    assert_eq!(millis(2, 999_999_999), 2999);
    assert_eq!(millis(u64::MAX, 0), u64::MAX.wrapping_mul(1000));
}
