//! What holds of a timer over any sequence of firings and stops.
use vstd::prelude::*;

use crate::timer::{
    TimerEvent, TimerState, TimerView, finish_step, fire_step, run, started, step, stop_step,
};

verus! {

spec fn one_shot_inv<D>(v: TimerView<D>) -> bool {
    &&& v.repeat_ms == 0
    &&& v.fired <= 1
    &&& v.pending ==> v.fired == 0
}

proof fn lemma_one_shot_inv<D>(v: TimerView<D>, es: Seq<TimerEvent<D>>)
    requires
        one_shot_inv(v),
    ensures
        one_shot_inv(run(v, es)),
    decreases es.len(),
{
    if es.len() > 0 {
        lemma_one_shot_inv(v, es.drop_last());
    }
}

/// A timer started without a repeat runs its callback exactly once at its
/// first firing, is no longer due after it, and never runs the callback
/// again, whatever the loop and the owner do afterwards.
pub proof fn lemma_one_shot_fires_once<D>(
    timeout_ms: u64,
    once: bool,
    cb: D,
    es: Seq<TimerEvent<D>>,
)
    ensures
        fire_step(started(timeout_ms, 0, once, cb)).1 == Some(cb),
        fire_step(started(timeout_ms, 0, once, cb)).0.fired == 1,
        !fire_step(started(timeout_ms, 0, once, cb)).0.pending,
        run(started(timeout_ms, 0, once, cb), es).fired <= 1,
{
    lemma_one_shot_inv(started(timeout_ms, 0, once, cb), es);
}

spec fn periodic_inv<D>(v: TimerView<D>, timeout_ms: u64, repeat_ms: u64) -> bool {
    &&& v.state == TimerState::Running
    &&& v.pending
    &&& v.timeout_ms == timeout_ms
    &&& v.repeat_ms == repeat_ms
    &&& repeat_ms > 0
    &&& !v.once
    &&& (v.firing <==> v.data is None)
}

proof fn lemma_periodic_inv<D>(
    v: TimerView<D>,
    timeout_ms: u64,
    repeat_ms: u64,
    es: Seq<TimerEvent<D>>,
)
    requires
        periodic_inv(v, timeout_ms, repeat_ms),
        forall|i: int| 0 <= i < es.len() && (#[trigger] es[i]) is Stop ==> es[i]->Stop_0 < 0,
    ensures
        periodic_inv(run(v, es), timeout_ms, repeat_ms),
    decreases es.len(),
{
    if es.len() > 0 {
        let prefix = es.drop_last();
        assert forall|i: int| 0 <= i < prefix.len() && (#[trigger] prefix[i]) is Stop implies prefix[i]->Stop_0
            < 0 by {
            assert(prefix[i] == es[i]);
        }
        lemma_periodic_inv(v, timeout_ms, repeat_ms, prefix);
        assert(es.last() == es[es.len() - 1]);
    }
}

/// A timer started with a repeat stays running and due, with the delays it
/// was started with, through any firings and failed stops; whenever no
/// firing is under way its callback is attached, so the next firing runs it
/// again.
pub proof fn lemma_periodic_keeps_firing<D>(
    timeout_ms: u64,
    repeat_ms: u64,
    cb: D,
    es: Seq<TimerEvent<D>>,
)
    requires
        repeat_ms > 0,
        forall|i: int| 0 <= i < es.len() && (#[trigger] es[i]) is Stop ==> es[i]->Stop_0 < 0,
    ensures
        run(started(timeout_ms, repeat_ms, false, cb), es).state == TimerState::Running,
        run(started(timeout_ms, repeat_ms, false, cb), es).pending,
        run(started(timeout_ms, repeat_ms, false, cb), es).timeout_ms == timeout_ms,
        run(started(timeout_ms, repeat_ms, false, cb), es).repeat_ms == repeat_ms,
        !run(started(timeout_ms, repeat_ms, false, cb), es).firing ==> fire_step(
            run(started(timeout_ms, repeat_ms, false, cb), es),
        ).1 is Some,
{
    lemma_periodic_inv(started(timeout_ms, repeat_ms, false, cb), timeout_ms, repeat_ms, es);
}

spec fn silent_inv<D>(v: TimerView<D>, fired: u64) -> bool {
    &&& v.state == TimerState::Stopped
    &&& !v.pending
    &&& v.data is None
    &&& v.fired == fired
}

proof fn lemma_silent_inv<D>(v: TimerView<D>, fired: u64, es: Seq<TimerEvent<D>>)
    requires
        silent_inv(v, fired),
    ensures
        silent_inv(run(v, es), fired),
    decreases es.len(),
{
    if es.len() > 0 {
        lemma_silent_inv(v, fired, es.drop_last());
    }
}

/// Once a stop succeeds the timer never runs its callback again and never
/// holds one again: a callback that comes back from a firing under way is
/// dropped, not attached.
pub proof fn lemma_stopped_stays_silent<D>(v: TimerView<D>, status: i32, es: Seq<TimerEvent<D>>)
    requires
        status >= 0,
    ensures
        run(stop_step(v, status), es).state == TimerState::Stopped,
        run(stop_step(v, status), es).data is None,
        run(stop_step(v, status), es).fired == v.fired,
        fire_step(run(stop_step(v, status), es)).1 is None,
{
    lemma_silent_inv(stop_step(v, status), v.fired, es);
}

/// A timer made by `once` hands out its callback at its first firing and is
/// stopped, with nothing attached, as soon as that callback comes back,
/// whether its run succeeded or not. Over any events it runs the callback
/// at most once.
pub proof fn lemma_once_stops_itself<D>(
    timeout_ms: u64,
    cb: D,
    back: D,
    ok: bool,
    es: Seq<TimerEvent<D>>,
)
    ensures
        fire_step(started(timeout_ms, 0, true, cb)).1 == Some(cb),
        finish_step(fire_step(started(timeout_ms, 0, true, cb)).0, back, ok).state
            == TimerState::Stopped,
        !finish_step(fire_step(started(timeout_ms, 0, true, cb)).0, back, ok).pending,
        finish_step(fire_step(started(timeout_ms, 0, true, cb)).0, back, ok).data is None,
        run(started(timeout_ms, 0, true, cb), es).fired <= 1,
{
    lemma_one_shot_fires_once(timeout_ms, true, cb, es);
}

/// Stopping a timer that `once` has stopped already changes nothing, with
/// any native status: there is no callback left to release a second time.
pub proof fn lemma_stop_after_once_is_harmless<D>(
    timeout_ms: u64,
    cb: D,
    back: D,
    ok: bool,
    status: i32,
)
    ensures
        ({
            let v = finish_step(fire_step(started(timeout_ms, 0, true, cb)).0, back, ok);
            stop_step(v, status) == v && v.data is None
        }),
{
}

/// A timer started by `start` or `once` is well formed, and every step of
/// the loop or the owner keeps it so.
pub proof fn lemma_steps_keep_wf<D>(
    timeout_ms: u64,
    repeat_ms: u64,
    cb: D,
    v: TimerView<D>,
    e: TimerEvent<D>,
)
    requires
        v.wf(),
    ensures
        started(timeout_ms, repeat_ms, false, cb).wf(),
        started(timeout_ms, 0, true, cb).wf(),
        step(v, e).wf(),
{
}

/// Any step keeps a stopped timer stopped.
pub proof fn lemma_stopped_is_final<D>(v: TimerView<D>, e: TimerEvent<D>)
    requires
        v.state == TimerState::Stopped,
    ensures
        step(v, e).state == TimerState::Stopped,
{
}

} // verus!
