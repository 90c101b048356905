use vstd::prelude::*;

use crate::error::Error;
use crate::handle::TypedHandle;

verus! {

/// Where a timer stands in its lifecycle.
#[derive(Copy, Clone, Debug, PartialEq, Eq, Structural)]
pub enum TimerState {
    /// The native structure exists and nothing was started on it.
    Initialized,
    /// The timer is registered with the loop.
    Running,
    /// The timer is deregistered and its callback released.
    Stopped,
}

/// The abstract state of a timer.
pub struct TimerView<D> {
    pub state: TimerState,
    /// Delay before the first firing, in milliseconds.
    pub timeout_ms: u64,
    /// Interval between later firings, in milliseconds; `0` for one shot.
    pub repeat_ms: u64,
    /// The timer stops itself at the end of its first firing.
    pub once: bool,
    /// The loop will still fire the timer.
    pub pending: bool,
    /// A firing is under way: its callback is out of the slot.
    pub firing: bool,
    /// How many times the callback was handed out to run.
    pub fired: u64,
    /// How many runs of the callback reported an error.
    pub errors: u64,
    /// The attached callback.
    pub data: Option<D>,
}

impl<D> TimerView<D> {
    /// Only a running timer is due; a timer made by `once` has no repeat;
    /// while a firing is under way its callback is out of the slot.
    pub open spec fn wf(self) -> bool {
        &&& self.pending ==> self.state == TimerState::Running
        &&& self.once ==> self.repeat_ms == 0
        &&& self.firing ==> self.data is None
    }
}

/// One step that the loop or the owner takes on a timer.
pub enum TimerEvent<D> {
    /// The loop fires the timer: the callback is handed out.
    Fire,
    /// The handed-out callback returns, successfully or not.
    Finish(D, bool),
    /// The owner stops the timer; the native call reported this status.
    Stop(i32),
}

/// `n + 1`, held at the top of the range.
pub open spec fn bump(n: u64) -> u64 {
    if n < u64::MAX { (n + 1) as u64 } else { n }
}

/// A timer just started with these arguments.
pub open spec fn started<D>(timeout_ms: u64, repeat_ms: u64, once: bool, cb: D) -> TimerView<D> {
    TimerView {
        state: TimerState::Running,
        timeout_ms,
        repeat_ms,
        once,
        pending: true,
        firing: false,
        fired: 0,
        errors: 0,
        data: Some(cb),
    }
}

/// The timer after the loop fired it, and the callback that is to run.
pub open spec fn fire_step<D>(v: TimerView<D>) -> (TimerView<D>, Option<D>) {
    if v.pending && v.data is Some {
        (TimerView {
            pending: v.repeat_ms > 0,
            firing: true,
            fired: bump(v.fired),
            data: None,
            ..v
        }, v.data)
    } else {
        (v, None)
    }
}

/// The timer after a callback that it handed out came back.
pub open spec fn finish_step<D>(v: TimerView<D>, cb: D, ok: bool) -> TimerView<D> {
    let errors = if ok { v.errors } else { bump(v.errors) };
    if v.once {
        TimerView { state: TimerState::Stopped, pending: false, firing: false, errors, ..v }
    } else if v.state == TimerState::Running && v.data is None {
        TimerView { firing: false, errors, data: Some(cb), ..v }
    } else {
        TimerView { firing: false, errors, ..v }
    }
}

/// The timer after a stop whose native call reported `status`.
pub open spec fn stop_step<D>(v: TimerView<D>, status: i32) -> TimerView<D> {
    if status < 0 {
        v
    } else {
        TimerView { state: TimerState::Stopped, pending: false, data: None, ..v }
    }
}

pub open spec fn step<D>(v: TimerView<D>, e: TimerEvent<D>) -> TimerView<D> {
    match e {
        TimerEvent::Fire => fire_step(v).0,
        TimerEvent::Finish(cb, ok) => finish_step(v, cb, ok),
        TimerEvent::Stop(status) => stop_step(v, status),
    }
}

/// The timer after the events, in order.
pub open spec fn run<D>(v: TimerView<D>, es: Seq<TimerEvent<D>>) -> TimerView<D>
    decreases es.len(),
{
    if es.len() == 0 {
        v
    } else {
        step(run(v, es.drop_last()), es.last())
    }
}

/// Whole milliseconds in a duration of `secs` seconds and `nanos`
/// nanoseconds, cut to 64 bits.
pub open spec fn millis_spec(secs: u64, nanos: u32) -> u64 {
    (secs as int * 1000 + nanos as int / 1_000_000) as u64
}

/// Whole milliseconds of a duration given by its seconds and the nanoseconds
/// beyond them; the part under a millisecond is dropped.
pub fn millis(secs: u64, nanos: u32) -> (r: u64)
    ensures
        r == millis_spec(secs, nanos),
{
    let total: u128 = secs as u128 * 1000 + (nanos / 1_000_000) as u128;
    total as u64
}

/// A timer of the native loop, seen from its owner.
///
/// The native loop drives it through [`TimerHandle::fire`] and
/// [`TimerHandle::finish`]; the owner through `start`, `once` and `stop`.
/// Each of them takes the status that the matching native call reported.
pub struct TimerHandle<D> {
    state: TimerState,
    timeout_ms: u64,
    repeat_ms: u64,
    once: bool,
    pending: bool,
    firing: bool,
    fired: u64,
    errors: u64,
    handle: TypedHandle<D>,
}

impl<D> View for TimerHandle<D> {
    type V = TimerView<D>;

    closed spec fn view(&self) -> TimerView<D> {
        TimerView {
            state: self.state,
            timeout_ms: self.timeout_ms,
            repeat_ms: self.repeat_ms,
            once: self.once,
            pending: self.pending,
            firing: self.firing,
            fired: self.fired,
            errors: self.errors,
            data: self.handle@,
        }
    }
}

impl<D> TimerHandle<D> {
    /// Wraps a native timer structure whose initialisation reported
    /// `init_status`; a negative status is a failure.
    pub fn new(init_status: i32) -> (r: Result<Self, Error>)
        ensures
            init_status < 0 <==> r is Err,
            r is Err ==> r->Err_0 == Error::HandleInit,
            r is Ok ==> r->Ok_0@.wf(),
            r is Ok ==> r->Ok_0@ == (TimerView::<D> {
                state: TimerState::Initialized,
                timeout_ms: 0,
                repeat_ms: 0,
                once: false,
                pending: false,
                firing: false,
                fired: 0,
                errors: 0,
                data: None,
            }),
    {
        if init_status < 0 {
            return Err(Error::HandleInit);
        }
        Ok(TimerHandle {
            state: TimerState::Initialized,
            timeout_ms: 0,
            repeat_ms: 0,
            once: false,
            pending: false,
            firing: false,
            fired: 0,
            errors: 0,
            handle: TypedHandle::new(),
        })
    }

    fn launch(
        timeout_ms: u64,
        repeat_ms: u64,
        once: bool,
        callback: D,
        init_status: i32,
        start_status: i32,
    ) -> (r: Result<Self, Error>)
        ensures
            r is Ok <==> init_status >= 0 && start_status >= 0,
            init_status < 0 ==> r == Err::<Self, Error>(Error::HandleInit),
            init_status >= 0 && start_status < 0 ==> r == Err::<Self, Error>(Error::TimerStart),
            r is Ok ==> r->Ok_0@ == started(timeout_ms, repeat_ms, once, callback),
    {
        let mut timer = match Self::new(init_status) {
            Ok(t) => t,
            Err(e) => return Err(e),
        };
        // The slot of a new timer is empty: nothing comes back.
        let _ = timer.handle.set_data(callback);
        if start_status < 0 {
            return Err(Error::TimerStart);
        }
        timer.state = TimerState::Running;
        timer.timeout_ms = timeout_ms;
        timer.repeat_ms = repeat_ms;
        timer.once = once;
        timer.pending = true;
        Ok(timer)
    }

    /// A timer that runs `callback` after `timeout_ms`, then every
    /// `repeat_ms` if that is not zero.
    ///
    /// `init_status` and `start_status` are what the native initialisation
    /// and the native start with these two delays reported. On failure the
    /// callback is dropped with the timer.
    pub fn start(
        timeout_ms: u64,
        repeat_ms: u64,
        callback: D,
        init_status: i32,
        start_status: i32,
    ) -> (r: Result<Self, Error>)
        ensures
            r is Ok <==> init_status >= 0 && start_status >= 0,
            init_status < 0 ==> r == Err::<Self, Error>(Error::HandleInit),
            init_status >= 0 && start_status < 0 ==> r == Err::<Self, Error>(Error::TimerStart),
            r is Ok ==> r->Ok_0@ == started(timeout_ms, repeat_ms, false, callback),
    {
        Self::launch(timeout_ms, repeat_ms, false, callback, init_status, start_status)
    }

    /// A timer that runs `callback` once, after `timeout_ms`, and stops
    /// itself at the end of that run. It is started with no repeat.
    pub fn once(
        timeout_ms: u64,
        callback: D,
        init_status: i32,
        start_status: i32,
    ) -> (r: Result<Self, Error>)
        ensures
            r is Ok <==> init_status >= 0 && start_status >= 0,
            init_status < 0 ==> r == Err::<Self, Error>(Error::HandleInit),
            init_status >= 0 && start_status < 0 ==> r == Err::<Self, Error>(Error::TimerStart),
            r is Ok ==> r->Ok_0@ == started(timeout_ms, 0, true, callback),
    {
        Self::launch(timeout_ms, 0, true, callback, init_status, start_status)
    }

    /// Records a stop whose native call reported `status`. On success the
    /// timer is stopped and its callback, if attached, is dropped; a timer
    /// that was stopped already stays as it is.
    pub fn stop(&mut self, status: i32) -> (r: Result<(), Error>)
        ensures
            r is Ok <==> status >= 0,
            r is Err ==> r->Err_0 == Error::TimerStop,
            final(self)@ == stop_step(old(self)@, status),
    {
        if status < 0 {
            return Err(Error::TimerStop);
        }
        self.state = TimerState::Stopped;
        self.pending = false;
        let _ = self.handle.take_data();
        Ok(())
    }

    /// The loop fires the timer: hands out the callback to run, if the timer
    /// is due and a callback is attached, and nothing otherwise. A timer
    /// without a repeat is no longer due afterwards.
    pub fn fire(&mut self) -> (r: Option<D>)
        ensures
            (final(self)@, r) == fire_step(old(self)@),
    {
        if self.pending && self.handle.has_data() {
            let cb = self.handle.take_data();
            self.pending = self.repeat_ms > 0;
            self.firing = true;
            if self.fired < u64::MAX {
                self.fired = self.fired + 1;
            }
            cb
        } else {
            None
        }
    }

    /// The callback handed out by [`TimerHandle::fire`] came back; `ok` says
    /// whether its run succeeded. A failed run is counted, never passed on.
    /// A timer made by `once` stops here; a running one gets its callback
    /// back; otherwise the callback is dropped.
    pub fn finish(&mut self, callback: D, ok: bool)
        ensures
            final(self)@ == finish_step(old(self)@, callback, ok),
    {
        if !ok && self.errors < u64::MAX {
            self.errors = self.errors + 1;
        }
        self.firing = false;
        if self.once {
            self.state = TimerState::Stopped;
            self.pending = false;
        } else if self.state == TimerState::Running && !self.handle.has_data() {
            let _ = self.handle.set_data(callback);
        }
    }

    pub fn state(&self) -> (r: TimerState)
        ensures
            r == self@.state,
    {
        self.state
    }

    pub fn timeout_ms(&self) -> (r: u64)
        ensures
            r == self@.timeout_ms,
    {
        self.timeout_ms
    }

    pub fn repeat_ms(&self) -> (r: u64)
        ensures
            r == self@.repeat_ms,
    {
        self.repeat_ms
    }

    pub fn is_once(&self) -> (r: bool)
        ensures
            r == self@.once,
    {
        self.once
    }

    pub fn is_pending(&self) -> (r: bool)
        ensures
            r == self@.pending,
    {
        self.pending
    }

    pub fn is_firing(&self) -> (r: bool)
        ensures
            r == self@.firing,
    {
        self.firing
    }

    pub fn fire_count(&self) -> (r: u64)
        ensures
            r == self@.fired,
    {
        self.fired
    }

    pub fn error_count(&self) -> (r: u64)
        ensures
            r == self@.errors,
    {
        self.errors
    }

    pub fn has_callback(&self) -> (r: bool)
        ensures
            r <==> self@.data is Some,
    {
        self.handle.has_data()
    }
}

} // verus!
