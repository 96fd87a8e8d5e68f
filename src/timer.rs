use vstd::prelude::*;

verus! {

pub const NANOS_PER_SECOND: u64 = 1_000_000_000;

/// Whether a timer stops once it has run out or starts over.
#[derive(Clone, Copy, Debug, PartialEq, Eq, Structural)]
pub enum TimerMode {
    Once,
    Repeating,
}

/// A countdown measured in nanoseconds.
#[derive(Clone, Copy, Debug, PartialEq, Eq, Structural)]
pub struct Timer {
    pub duration: u64,
    pub elapsed: u64,
    pub mode: TimerMode,
    /// Whether the last tick ran the timer out (for a one-shot timer: whether
    /// it has run out at all).
    pub finished: bool,
}

/// The timer after `delta` more nanoseconds have passed.
pub open spec fn ticked(t: Timer, delta: u64) -> Timer {
    let total = t.elapsed + delta;
    match t.mode {
        TimerMode::Once => {
            if t.finished {
                t
            } else if total >= t.duration {
                Timer { elapsed: t.duration, finished: true, ..t }
            } else {
                Timer { elapsed: total as u64, finished: false, ..t }
            }
        },
        TimerMode::Repeating => {
            if total >= t.duration {
                Timer {
                    elapsed: (if t.duration > 0 {
                        total % (t.duration as int)
                    } else {
                        0
                    }) as u64,
                    finished: true,
                    ..t
                }
            } else {
                Timer { elapsed: total as u64, finished: false, ..t }
            }
        },
    }
}

/// The timer after `k` ticks of `delta` nanoseconds each.
pub open spec fn ticked_times(t: Timer, delta: u64, k: nat) -> Timer
    decreases k,
{
    if k == 0 {
        t
    } else {
        ticked(ticked_times(t, delta, (k - 1) as nat), delta)
    }
}

impl Timer {
    /// A timer that has not started yet.
    pub fn new(duration: u64, mode: TimerMode) -> (r: Timer)
        ensures
            r.duration == duration,
            r.elapsed == 0,
            r.mode == mode,
            !r.finished,
    {
        Timer { duration, elapsed: 0, mode, finished: false }
    }

    /// A timer of `seconds` whole seconds.
    pub fn from_seconds(seconds: u64, mode: TimerMode) -> (r: Timer)
        requires
            seconds <= u64::MAX / NANOS_PER_SECOND,
        ensures
            r.duration == seconds * NANOS_PER_SECOND,
            r.elapsed == 0,
            r.mode == mode,
            !r.finished,
    {
        Timer::new(seconds * NANOS_PER_SECOND, mode)
    }

    /// Advances the timer by `delta` nanoseconds; a repeating timer that runs
    /// out starts over with what is left of `delta`.
    pub fn tick(&mut self, delta: u64)
        ensures
            *final(self) == ticked(*old(self), delta),
    {
        let total = self.elapsed as u128 + delta as u128;
        match self.mode {
            TimerMode::Once => {
                if self.finished {
                } else if total >= self.duration as u128 {
                    self.elapsed = self.duration;
                    self.finished = true;
                } else {
                    self.elapsed = total as u64;
                    self.finished = false;
                }
            },
            TimerMode::Repeating => {
                if total >= self.duration as u128 {
                    if self.duration > 0 {
                        let rest = total % (self.duration as u128);
                        self.elapsed = rest as u64;
                    } else {
                        self.elapsed = 0;
                    }
                    self.finished = true;
                } else {
                    self.elapsed = total as u64;
                    self.finished = false;
                }
            },
        }
    }

    pub fn finished(&self) -> (r: bool)
        ensures
            r == self.finished,
    {
        self.finished
    }
}

/// A fresh one-shot timer ticked `k` times by `delta` has run out exactly when
/// `k` ticks cover its duration: it is never reported finished before that tick.
pub proof fn lemma_once_timer_finishes(t: Timer, delta: u64, k: nat)
    requires
        t.mode == TimerMode::Once,
        t.elapsed == 0,
        !t.finished,
    ensures
        ticked_times(t, delta, k).finished <==> (k > 0 && k * delta >= t.duration),
        ticked_times(t, delta, k).elapsed == (if k * delta >= t.duration {
            t.duration as int
        } else {
            k * delta
        }),
        ticked_times(t, delta, k).duration == t.duration,
        ticked_times(t, delta, k).mode == TimerMode::Once,
    decreases k,
{
    if k > 0 {
        let k1 = (k - 1) as nat;
        lemma_once_timer_finishes(t, delta, k1);
        assert(k * delta == k1 * delta + delta) by (nonlinear_arith) requires k == k1 + 1;
        assert(k1 * delta <= k * delta) by (nonlinear_arith) requires k == k1 + 1, delta >= 0;
        if k1 > 0 && k1 * delta >= t.duration {
        } else if k1 == 0 {
            assert(k1 * delta == 0);
        }
    }
}

/// A finite time-to-live.
#[derive(Clone, Copy, Debug, PartialEq, Eq, Structural)]
pub struct Lifetime {
    pub timer: Timer,
}

impl Lifetime {
    /// A time-to-live of `seconds` whole seconds.
    pub fn from_seconds(seconds: u64) -> (r: Lifetime)
        requires
            seconds <= u64::MAX / NANOS_PER_SECOND,
        ensures
            r.timer.duration == seconds * NANOS_PER_SECOND,
            r.timer.elapsed == 0,
            r.timer.mode == TimerMode::Once,
            !r.timer.finished,
    {
        Lifetime { timer: Timer::from_seconds(seconds, TimerMode::Once) }
    }
}

} // verus!
