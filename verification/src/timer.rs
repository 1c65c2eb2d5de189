//! Timers.
//!
//! A timer runs a callback at a time point in the future, once or
//! periodically. This module holds what a timer is at any moment: whether it
//! is armed, for which instant, and with which period. The reactor makes the
//! time pass and runs the callback; it reports through [`Timer::expire`].

use crate::api_safety::assert_runtime_is_running;
use crate::clocks::{fits_i64, Clock, Duration, Instant};
use crate::smp::Reactor;
use core::marker::PhantomData;
use vstd::prelude::*;

verus! {

/// What a timer is at one moment.
pub struct TimerState {
    /// Whether a callback has been set.
    pub callback: bool,
    /// The instant at which the timer expires, in nanoseconds since the
    /// epoch of its clock; `None` when the timer is not armed.
    pub timeout: Option<i64>,
    /// The period with which an armed timer rearms itself, in nanoseconds;
    /// `None` for a timer that expires once.
    pub period: Option<i64>,
}

impl TimerState {
    /// Only an armed timer has a period.
    pub open spec fn wf(self) -> bool {
        self.timeout is None ==> self.period is None
    }

    /// Whether the timer is armed.
    pub open spec fn armed(self) -> bool {
        self.timeout is Some
    }

    /// Whether the timer is armed and its time has come at `now`.
    pub open spec fn due(self, now: i64) -> bool {
        self.timeout matches Some(at) && at <= now
    }

    /// The state of a timer armed for `at`.
    pub open spec fn armed_at(self, at: i64, period: Option<i64>) -> TimerState {
        TimerState { callback: self.callback, timeout: Some(at), period }
    }

    /// The state of a timer that is not armed.
    pub open spec fn disarmed(self) -> TimerState {
        TimerState { callback: self.callback, timeout: None, period: None }
    }

    /// The state after the reactor has looked at the timer at `now`: a timer
    /// that is due has expired; it is then disarmed, or, if it has a period,
    /// armed again one period after `now`.
    pub open spec fn expired(self, now: i64) -> TimerState {
        if self.due(now) {
            match self.period {
                Some(period) => self.armed_at((now + period) as i64, Some(period)),
                None => self.disarmed(),
            }
        } else {
            self
        }
    }
}

/// Runs a callback at a certain time point in the future.
///
/// Timer callbacks should execute quickly. If involved processing is
/// required, a timer can launch a continuation.
///
/// There is one kind of timer for each clock: `Timer<SteadyClock>` has
/// relatively high accuracy but is quite expensive, `Timer<LowresClock>` has
/// a very coarse resolution but is quite efficient, and `Timer<ManualClock>`
/// is used mainly for testing.
#[derive(Debug)]
pub struct Timer<ClockType: Clock> {
    callback: bool,
    armed: bool,
    timeout: i64,
    period: Option<i64>,
    _phantom: PhantomData<ClockType>,
}

impl<ClockType: Clock> View for Timer<ClockType> {
    type V = TimerState;

    closed spec fn view(&self) -> TimerState {
        TimerState {
            callback: self.callback,
            timeout: if self.armed {
                Some(self.timeout)
            } else {
                None
            },
            period: if self.armed {
                self.period
            } else {
                None
            },
        }
    }
}

impl<ClockType: Clock> Timer<ClockType> {
    /// Constructs a timer with no callback set and no expiration time.
    pub fn new() -> (timer: Self)
        ensures
            timer@ == (TimerState { callback: false, timeout: None, period: None }),
    {
        Self { callback: false, armed: false, timeout: 0, period: None, _phantom: PhantomData }
    }

    /// Records that the callback to be called when the timer expires has
    /// been set. The callback itself is kept by the reactor.
    pub fn set_callback(&mut self)
        ensures
            final(self)@ == (TimerState { callback: true, ..old(self)@ }),
    {
        self.callback = true;
    }

    /// Whether a callback has been set.
    pub fn has_callback(&self) -> (b: bool)
        ensures
            b == self@.callback,
    {
        self.callback
    }

    /// Sets the timer expiration time. The runtime must be active.
    ///
    /// It is illegal to arm a timer that has already been armed (and not
    /// disarmed by expiration or [`Timer::cancel`]). See [`Timer::rearm_at`].
    pub fn arm_at(&mut self, reactor: &Reactor, at: Instant<ClockType>)
        requires
            reactor.engine_ready,
            !old(self)@.armed(),
        ensures
            final(self)@ == old(self)@.armed_at(at@, None),
    {
        self.rearm_at(reactor, at);
    }

    /// Sets the timer expiration time with automatic rearming.
    ///
    /// It is illegal to arm a timer that has already been armed (and not
    /// disarmed by expiration or [`Timer::cancel`]). See
    /// [`Timer::rearm_at_periodic`].
    pub fn arm_at_periodic(&mut self, reactor: &Reactor, at: Instant<ClockType>, period: Duration<ClockType>)
        requires
            reactor.engine_ready,
            !old(self)@.armed(),
        ensures
            final(self)@ == old(self)@.armed_at(at@, Some(period@)),
    {
        self.rearm_at_periodic(reactor, at, period);
    }

    /// Sets the timer expiration time. If the timer was already armed, it is
    /// canceled first.
    pub fn rearm_at(&mut self, reactor: &Reactor, at: Instant<ClockType>)
        requires
            reactor.engine_ready,
        ensures
            final(self)@ == old(self)@.armed_at(at@, None),
    {
        assert_runtime_is_running(reactor);
        self.armed = true;
        self.timeout = at.duration_since_epoch().as_nanos();
        self.period = None;
    }

    /// Sets the timer expiration time with automatic rearming. If the timer
    /// was already armed, it is canceled first.
    pub fn rearm_at_periodic(&mut self, reactor: &Reactor, at: Instant<ClockType>, period: Duration<ClockType>)
        requires
            reactor.engine_ready,
        ensures
            final(self)@ == old(self)@.armed_at(at@, Some(period@)),
    {
        assert_runtime_is_running(reactor);
        self.armed = true;
        self.timeout = at.duration_since_epoch().as_nanos();
        self.period = Some(period.as_nanos());
    }

    /// Sets the timer expiration time relatively to `now`, the current
    /// reading of the clock.
    ///
    /// It is illegal to arm a timer that has already been armed (and not
    /// disarmed by expiration or [`Timer::cancel`]). See [`Timer::rearm`].
    /// The expiration time must be representable.
    pub fn arm(&mut self, reactor: &Reactor, now: Instant<ClockType>, delta: Duration<ClockType>)
        requires
            reactor.engine_ready,
            !old(self)@.armed(),
            fits_i64(now@ + delta@),
        ensures
            final(self)@ == old(self)@.armed_at((now@ + delta@) as i64, None),
    {
        self.arm_at(reactor, now + delta);
    }

    /// Sets the timer expiration time relatively to `now`, the current
    /// reading of the clock. The timer will rearm automatically with a
    /// period equal to `delta`.
    ///
    /// It is illegal to arm a timer that has already been armed (and not
    /// disarmed by expiration or [`Timer::cancel`]). See
    /// [`Timer::rearm_periodic`]. The expiration time must be representable.
    pub fn arm_periodic(&mut self, reactor: &Reactor, now: Instant<ClockType>, delta: Duration<ClockType>)
        requires
            reactor.engine_ready,
            !old(self)@.armed(),
            fits_i64(now@ + delta@),
        ensures
            final(self)@ == old(self)@.armed_at((now@ + delta@) as i64, Some(delta@)),
    {
        self.arm_at_periodic(reactor, now + delta, delta);
    }

    /// Sets the timer expiration time relatively to `now`, the current
    /// reading of the clock. If the timer was already armed, it is canceled
    /// first.
    ///
    /// The expiration time must be representable.
    pub fn rearm(&mut self, reactor: &Reactor, now: Instant<ClockType>, delta: Duration<ClockType>)
        requires
            reactor.engine_ready,
            fits_i64(now@ + delta@),
        ensures
            final(self)@ == old(self)@.armed_at((now@ + delta@) as i64, None),
    {
        self.rearm_at(reactor, now + delta);
    }

    /// Sets the timer expiration time relatively to `now`, the current
    /// reading of the clock. If the timer was already armed, it is canceled
    /// first. The timer will rearm automatically with a period equal to
    /// `delta`.
    ///
    /// The expiration time must be representable.
    pub fn rearm_periodic(&mut self, reactor: &Reactor, now: Instant<ClockType>, delta: Duration<ClockType>)
        requires
            reactor.engine_ready,
            fits_i64(now@ + delta@),
        ensures
            final(self)@ == old(self)@.armed_at((now@ + delta@) as i64, Some(delta@)),
    {
        self.rearm_at_periodic(reactor, now + delta, delta);
    }

    /// Returns whether the timer is armed.
    pub fn armed(&self) -> (b: bool)
        ensures
            b == self@.armed(),
    {
        self.armed
    }

    /// Cancels an armed timer.
    ///
    /// If the timer was armed, it is disarmed. If the timer was not armed,
    /// does nothing.
    ///
    /// Returns `true` if the timer was armed before the call.
    pub fn cancel(&mut self) -> (was_armed: bool)
        ensures
            was_armed == old(self)@.armed(),
            final(self)@ == old(self)@.disarmed(),
    {
        let was_armed = self.armed;
        self.armed = false;
        self.period = None;
        was_armed
    }

    /// Gets the expiration time of a timer if it is armed. Otherwise,
    /// returns None.
    pub fn get_timeout(&self) -> (r: Option<Instant<ClockType>>)
        ensures
            r is Some == self@.armed(),
            r matches Some(at) ==> self@.timeout == Some(at@),
    {
        if !self.armed() {
            return None;
        }
        return Some(Instant::new(self.timeout));
    }

    /// Takes over what the reactor reports of the timer: whether it is armed
    /// and, if so, for which instant. An armed timer keeps its period.
    pub fn observe(&mut self, armed: bool, timeout: Instant<ClockType>)
        ensures
            final(self)@ == if armed {
                old(self)@.armed_at(timeout@, old(self)@.period)
            } else {
                old(self)@.disarmed()
            },
    {
        if armed {
            if !self.armed {
                self.period = None;
            }
            self.armed = true;
            self.timeout = timeout.duration_since_epoch().as_nanos();
        } else {
            self.armed = false;
            self.period = None;
        }
    }

    /// Lets the timer expire if it is due at `now`, the current reading of
    /// the clock, and says whether it did: whether its callback is to run
    /// now. A timer that has expired is disarmed, unless it has a period:
    /// then it is armed again, one period after `now`.
    ///
    /// The next expiration time of a periodic timer must be representable.
    pub fn expire(&mut self, now: Instant<ClockType>) -> (fired: bool)
        requires
            old(self)@.due(now@) && old(self)@.period is Some ==> fits_i64(
                now@ + old(self)@.period->0,
            ),
        ensures
            fired == old(self)@.due(now@),
            final(self)@ == old(self)@.expired(now@),
    {
        let now = now.duration_since_epoch().as_nanos();
        if self.armed && self.timeout <= now {
            match self.period {
                Some(period) => {
                    self.timeout = now + period;
                },
                None => {
                    self.armed = false;
                },
            }
            true
        } else {
            false
        }
    }
}

impl<ClockType: Clock> Default for Timer<ClockType> {
    fn default() -> (timer: Self)
        ensures
            timer@ == (TimerState { callback: false, timeout: None, period: None }),
    {
        Self::new()
    }
}

} // verus!
