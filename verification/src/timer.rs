//! Countdown timers backed by `bevy::time::Timer`, with a plain-value model.

use bevy::time::Timer;
use bevy::time::TimerMode;
use core::time::Duration;
use vstd::prelude::*;

verus! {

#[verifier::external_type_specification]
#[verifier::external_body]
pub struct ExTimer(Timer);

/// What a timer holds, as plain values: nanoseconds elapsed, nanoseconds of its
/// duration, whether it repeats, whether it is in the finished state, and how
/// many times it finished during its last tick.
#[derive(Clone, Copy, Debug, PartialEq, Eq, Structural)]
pub struct TimerModel {
    pub elapsed_nanos: u64,
    pub duration_nanos: u64,
    pub repeating: bool,
    pub finished: bool,
    pub times_finished_this_tick: u32,
}

impl TimerModel {
    /// A fresh timer: nothing elapsed, not finished.
    pub open spec fn start(duration_nanos: u64, repeating: bool) -> TimerModel {
        TimerModel {
            elapsed_nanos: 0,
            duration_nanos,
            repeating,
            finished: false,
            times_finished_this_tick: 0,
        }
    }

    /// The timer after it was reset.
    pub open spec fn restarted(self) -> TimerModel {
        TimerModel { elapsed_nanos: 0, finished: false, times_finished_this_tick: 0, ..self }
    }

    /// The timer after a tick of `delta` nanoseconds (an unpaused timer).
    /// A finished timer that does not repeat stays as it is, with no finish
    /// counted. Otherwise the elapsed time grows by `delta`; once it reaches the
    /// duration the timer is finished: a repeating one counts the whole
    /// durations that fit (kept to 32 bits) and keeps the remainder, a
    /// non-repeating one counts one finish and stops at its duration.
    pub open spec fn ticked(self, delta: u64) -> TimerModel {
        if !self.repeating && self.finished {
            TimerModel { times_finished_this_tick: 0, ..self }
        } else {
            let e: int = self.elapsed_nanos + delta;
            let d: int = self.duration_nanos as int;
            if e >= d {
                if self.repeating {
                    TimerModel {
                        elapsed_nanos: if d == 0 { 0 } else { (e % d) as u64 },
                        finished: true,
                        times_finished_this_tick: if d == 0 {
                            u32::MAX
                        } else {
                            ((e / d) % 0x1_0000_0000) as u32
                        },
                        ..self
                    }
                } else {
                    TimerModel {
                        elapsed_nanos: self.duration_nanos,
                        finished: true,
                        times_finished_this_tick: 1,
                        ..self
                    }
                }
            } else {
                TimerModel {
                    elapsed_nanos: e as u64,
                    finished: false,
                    times_finished_this_tick: 0,
                    ..self
                }
            }
        }
    }
}


/// A timer that does not repeat stays finished, with its elapsed time, until
/// it is reset; further ticks count no finish.
pub proof fn lemma_once_timer_stays_finished(t: TimerModel, delta: u64)
    requires
        !t.repeating,
        t.finished,
    ensures
        t.ticked(delta).finished,
        t.ticked(delta).elapsed_nanos == t.elapsed_nanos,
        t.ticked(delta).times_finished_this_tick == 0,
{
}

/// A timer is finished after a tick exactly when the time it had elapsed plus
/// the tick reaches its duration (unless it already finished without
/// repeating); a repeating timer with a duration keeps less than one duration
/// of elapsed time.
pub proof fn lemma_tick_finishes_at_duration(t: TimerModel, delta: u64)
    requires
        t.repeating || !t.finished,
    ensures
        t.ticked(delta).finished == (t.elapsed_nanos + delta >= t.duration_nanos),
        t.repeating && t.duration_nanos > 0 ==> t.ticked(delta).elapsed_nanos < t.duration_nanos,
{
    if t.repeating && t.duration_nanos > 0 {
        let e: int = t.elapsed_nanos + delta;
        let d: int = t.duration_nanos as int;
        vstd::arithmetic::div_mod::lemma_mod_pos_bound(e, d);
    }
}

/// A `bevy::time::Timer` together with its model.
pub struct ActionTimer {
    timer: Timer,
    model: Ghost<TimerModel>,
}

impl View for ActionTimer {
    type V = TimerModel;

    closed spec fn view(&self) -> TimerModel {
        self.model@
    }
}

impl ActionTimer {
    /// `Timer::new` with `TimerMode::Once`: a fresh timer of the given duration
    /// that finishes once and then stays finished.
    #[verifier::external_body]
    pub(crate) fn once(duration_nanos: u64) -> (r: ActionTimer)
        ensures
            r@ == TimerModel::start(duration_nanos, false),
    {
        ActionTimer {
            timer: Timer::new(Duration::from_nanos(duration_nanos), TimerMode::Once),
            model: Ghost(TimerModel::start(duration_nanos, false)),
        }
    }

    /// `Timer::new` with `TimerMode::Repeating`: a fresh timer of the given
    /// duration that starts over each time it finishes.
    #[verifier::external_body]
    pub(crate) fn repeating(duration_nanos: u64) -> (r: ActionTimer)
        ensures
            r@ == TimerModel::start(duration_nanos, true),
    {
        ActionTimer {
            timer: Timer::new(Duration::from_nanos(duration_nanos), TimerMode::Repeating),
            model: Ghost(TimerModel::start(duration_nanos, true)),
        }
    }

    /// `Timer::tick` by `delta_nanos` nanoseconds, as `TimerModel::ticked` states it.
    #[verifier::external_body]
    pub(crate) fn tick(&mut self, delta_nanos: u64)
        ensures
            final(self)@ == old(self)@.ticked(delta_nanos),
    {
        self.timer.tick(Duration::from_nanos(delta_nanos));
    }

    /// `Timer::reset`: nothing elapsed, not finished, no finish counted.
    #[verifier::external_body]
    pub(crate) fn reset(&mut self)
        ensures
            final(self)@ == old(self)@.restarted(),
    {
        self.timer.reset();
    }

    /// `Timer::is_finished`: whether the timer is in the finished state.
    #[verifier::external_body]
    pub(crate) fn is_finished(&self) -> (r: bool)
        ensures
            r == self@.finished,
    {
        self.timer.is_finished()
    }

    /// `Timer::just_finished`: whether the last tick counted a finish.
    #[verifier::external_body]
    pub(crate) fn just_finished(&self) -> (r: bool)
        ensures
            r == (self@.times_finished_this_tick > 0),
    {
        self.timer.just_finished()
    }
}

} // verus!
