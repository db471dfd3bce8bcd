//! Interval timers that are polled once per tick.

use vstd::prelude::*;

verus! {

/// What a timer holds, as mathematical values. Times are in nanoseconds.
pub struct TimerView {
    pub running: bool,
    pub interval: nat,
    pub accumulated: nat,
}

impl TimerView {
    /// A timer that has just been created: running, with nothing accumulated.
    pub open spec fn fresh(interval: nat) -> TimerView {
        TimerView { running: true, interval, accumulated: 0 }
    }

    /// The interval has elapsed.
    pub open spec fn due(self) -> bool {
        self.accumulated >= self.interval
    }

    /// The timer after `delta` has passed. A paused timer ignores it; a
    /// running one adds it, and stops counting at `u64::MAX`.
    pub open spec fn ticked(self, delta: nat) -> TimerView {
        if self.running {
            TimerView {
                accumulated: if self.accumulated + delta > u64::MAX {
                    u64::MAX as nat
                } else {
                    self.accumulated + delta
                },
                ..self
            }
        } else {
            self
        }
    }

    /// The timer after it has been polled: a due timer starts over from 0,
    /// whatever it had accumulated beyond its interval.
    pub open spec fn polled(self) -> TimerView {
        if self.due() {
            TimerView { accumulated: 0, ..self }
        } else {
            self
        }
    }

    pub open spec fn paused(self) -> TimerView {
        TimerView { running: false, ..self }
    }

    pub open spec fn played(self) -> TimerView {
        TimerView { running: true, ..self }
    }

    pub open spec fn stopped(self) -> TimerView {
        TimerView { running: false, accumulated: 0, ..self }
    }
}

/// Accumulates elapsed time and reports when its interval has elapsed.
#[derive(Clone, Copy, Debug)]
pub struct Timer {
    running: bool,
    interval: u64,
    counter: u64,
}

impl View for Timer {
    type V = TimerView;

    closed spec fn view(&self) -> TimerView {
        TimerView {
            running: self.running,
            interval: self.interval as nat,
            accumulated: self.counter as nat,
        }
    }
}

impl Timer {
    /// Creates a running timer with nothing accumulated.
    pub fn new(interval: u64) -> (timer: Timer)
        ensures
            timer@ == TimerView::fresh(interval as nat),
    {
        Timer { running: true, interval, counter: 0 }
    }

    /// Polls the timer: tells whether the interval has elapsed, and if so
    /// starts over from 0.
    pub fn triggered(&mut self) -> (fired: bool)
        ensures
            fired == old(self)@.due(),
            final(self)@ == old(self)@.polled(),
    {
        if self.counter >= self.interval {
            self.counter = 0;
            return true;
        }
        false
    }

    /// Lets `delta` nanoseconds pass.
    pub fn tick(&mut self, delta: u64)
        ensures
            final(self)@ == old(self)@.ticked(delta as nat),
    {
        if self.running {
            self.counter = self.counter.saturating_add(delta);
        }
    }

    /// Stops counting and keeps what has accumulated.
    pub fn pause(&mut self)
        ensures
            final(self)@ == old(self)@.paused(),
    {
        self.running = false;
    }

    /// Resumes counting.
    pub fn play(&mut self)
        ensures
            final(self)@ == old(self)@.played(),
    {
        self.running = true;
    }

    /// Stops counting and forgets what has accumulated.
    pub fn stop(&mut self)
        ensures
            final(self)@ == old(self)@.stopped(),
    {
        self.running = false;
        self.counter = 0;
    }

    pub fn is_running(&self) -> (running: bool)
        ensures
            running == self@.running,
    {
        self.running
    }

    pub fn interval(&self) -> (interval: u64)
        ensures
            interval == self@.interval,
    {
        self.interval
    }

    pub fn accumulated(&self) -> (accumulated: u64)
        ensures
            accumulated == self@.accumulated,
    {
        self.counter
    }
}

/// A timer that has just been polled is not due, unless its interval is 0:
/// of two polls with no tick between them, the second reports nothing.
pub proof fn lemma_polled_not_due(timer: TimerView)
    requires
        timer.interval > 0,
    ensures
        !timer.polled().due(),
        timer.polled().polled() == timer.polled(),
{
}

} // verus!
