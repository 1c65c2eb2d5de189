//! Durations and instants of the runtime's clocks.
//!
//! Both types count signed nanoseconds and are tagged with the clock that
//! produced them, so that readings of different clocks cannot be mixed.

use core::cmp::Ordering;
use core::marker::PhantomData;
use core::ops::{Add, Div, Mul, Neg, Sub};
use vstd::prelude::*;
use vstd::std_specs::cmp::{PartialEqSpecImpl, PartialOrdSpecImpl};
use vstd::std_specs::ops::{AddSpecImpl, DivSpecImpl, MulSpecImpl, NegSpecImpl, SubSpecImpl};

verus! {

/// Quotient of `x` by `d` rounded toward zero, as the machine divides signed
/// integers. (The `/` of specifications rounds toward minus infinity.)
pub open spec fn div_toward_zero(x: int, d: int) -> int
    recommends
        d != 0,
{
    if x >= 0 {
        if d > 0 {
            x / d
        } else {
            -(x / (-d))
        }
    } else {
        if d > 0 {
            -((-x) / d)
        } else {
            (-x) / (-d)
        }
    }
}

/// Whether `n` can be held in an `i64`.
pub open spec fn fits_i64(n: int) -> bool {
    i64::MIN <= n <= i64::MAX
}

/// A span of time measured by the clock `ClockType`, in nanoseconds.
///
/// Unlike `std::time::Duration` it is signed: a duration may be negative.
#[derive(Debug, Hash, Ord)]
pub struct Duration<ClockType> {
    nanos: i64,
    _phantom: PhantomData<ClockType>,
}

impl<ClockType> View for Duration<ClockType> {
    type V = i64;

    /// A duration is its number of nanoseconds.
    closed spec fn view(&self) -> i64 {
        self.nanos
    }
}

impl<ClockType> Clone for Duration<ClockType> {
    fn clone(&self) -> (d: Self)
        ensures
            d == *self,
    {
        Self { nanos: self.nanos, _phantom: PhantomData }
    }
}

impl<ClockType> Copy for Duration<ClockType> {

}

impl<ClockType> Duration<ClockType> {
    /// The longest duration.
    pub fn max_value() -> (d: Self)
        ensures
            d@ == i64::MAX,
    {
        Self::from_nanos(i64::MAX)
    }

    /// The most negative duration.
    pub fn min_value() -> (d: Self)
        ensures
            d@ == i64::MIN,
    {
        Self::from_nanos(i64::MIN)
    }

    /// One nanosecond.
    pub fn nanosecond() -> (d: Self)
        ensures
            d@ == 1,
    {
        Self::from_nanos(1)
    }

    /// One microsecond.
    pub fn microsecond() -> (d: Self)
        ensures
            d@ == 1000,
    {
        Self::from_micros(1)
    }

    /// One millisecond.
    pub fn millisecond() -> (d: Self)
        ensures
            d@ == 1_000_000,
    {
        Self::from_millis(1)
    }

    /// One second.
    pub fn second() -> (d: Self)
        ensures
            d@ == 1_000_000_000,
    {
        Self::from_secs(1)
    }

    /// The duration that spans no time.
    pub fn zero() -> (d: Self)
        ensures
            d@ == 0,
    {
        Self::from_nanos(0)
    }

    /// Two durations with the same number of nanoseconds are the same value.
    pub proof fn lemma_view_injective(a: Self, b: Self)
        requires
            a@ == b@,
        ensures
            a == b,
    {
    }

    /// Returns the total number of nanoseconds contained by this duration.
    pub fn as_nanos(&self) -> (n: i64)
        ensures
            n == self@,
    {
        self.nanos
    }

    /// Returns the total number of microseconds contained by this duration.
    pub fn as_micros(&self) -> (n: i64)
        ensures
            n == div_toward_zero(self@ as int, 1000),
    {
        self.nanos / 1000
    }

    /// Returns the total number of milliseconds contained by this duration.
    pub fn as_millis(&self) -> (n: i64)
        ensures
            n == div_toward_zero(self@ as int, 1_000_000),
    {
        self.nanos / 1_000_000
    }

    /// Returns the total number of seconds contained by this duration.
    pub fn as_secs(&self) -> (n: i64)
        ensures
            n == div_toward_zero(self@ as int, 1_000_000_000),
    {
        self.nanos / 1_000_000_000
    }

    /// The duration of `nanos` nanoseconds.
    pub closed spec fn spec_from_nanos(nanos: i64) -> Self {
        Self { nanos, _phantom: PhantomData }
    }

    /// Creates a new duration from the specified number of nanoseconds.
    #[verifier::when_used_as_spec(spec_from_nanos)]
    pub fn from_nanos(nanos: i64) -> (d: Self)
        ensures
            d@ == nanos,
            d == Self::spec_from_nanos(nanos),
    {
        Self { nanos, _phantom: PhantomData }
    }

    /// Creates a new duration from the specified number of microseconds.
    pub fn from_micros(micros: i32) -> (d: Self)
        ensures
            d@ == micros * 1000,
    {
        Self { nanos: micros as i64 * 1000, _phantom: PhantomData }
    }

    /// Creates a new duration from the specified number of milliseconds.
    pub fn from_millis(millis: i32) -> (d: Self)
        ensures
            d@ == millis * 1_000_000,
    {
        Self { nanos: millis as i64 * 1_000_000, _phantom: PhantomData }
    }

    /// Creates a new duration from the specified number of seconds.
    pub fn from_secs(secs: i32) -> (d: Self)
        ensures
            d@ == secs * 1_000_000_000,
    {
        Self { nanos: secs as i64 * 1_000_000_000, _phantom: PhantomData }
    }

    /// Returns true if this duration spans no time.
    pub fn is_zero(&self) -> (b: bool)
        ensures
            b == (self@ == 0),
    {
        self.nanos == 0
    }

    /// Checked duration addition. Computes `self + rhs`, returning `None` if
    /// the sum does not fit.
    pub fn checked_add(self, rhs: Self) -> (r: Option<Self>)
        ensures
            fits_i64(self@ + rhs@) ==> r is Some && r->0@ == self@ + rhs@,
            !fits_i64(self@ + rhs@) ==> r is None,
    {
        match self.nanos.checked_add(rhs.nanos) {
            Some(nanos) => Some(Self::from_nanos(nanos)),
            None => None,
        }
    }

    /// Checked duration subtraction. Computes `self - rhs`, returning `None`
    /// if the difference does not fit.
    pub fn checked_sub(self, rhs: Self) -> (r: Option<Self>)
        ensures
            fits_i64(self@ - rhs@) ==> r is Some && r->0@ == self@ - rhs@,
            !fits_i64(self@ - rhs@) ==> r is None,
    {
        match self.nanos.checked_sub(rhs.nanos) {
            Some(nanos) => Some(Self::from_nanos(nanos)),
            None => None,
        }
    }

    /// Checked duration multiplication. Computes `self * rhs`, returning
    /// `None` if the product does not fit.
    pub fn checked_mul(self, rhs: i64) -> (r: Option<Self>)
        ensures
            fits_i64(self@ * rhs) ==> r is Some && r->0@ == self@ * rhs,
            !fits_i64(self@ * rhs) ==> r is None,
    {
        match self.nanos.checked_mul(rhs) {
            Some(nanos) => Some(Self::from_nanos(nanos)),
            None => None,
        }
    }

    /// Checked duration division. Computes `self / rhs`, rounded toward
    /// zero, returning `None` if `rhs == 0` or if the quotient does not fit
    /// (the most negative duration divided by `-1`).
    pub fn checked_div(self, rhs: i64) -> (r: Option<Self>)
        ensures
            rhs != 0 && fits_i64(div_toward_zero(self@ as int, rhs as int)) ==> r is Some && r->0@
                == div_toward_zero(self@ as int, rhs as int),
            rhs == 0 || !fits_i64(div_toward_zero(self@ as int, rhs as int)) ==> r is None,
    {
        match self.nanos.checked_div(rhs) {
            Some(nanos) => Some(Self::from_nanos(nanos)),
            None => None,
        }
    }
}

impl<ClockType> PartialEq for Duration<ClockType> {
    fn eq(&self, other: &Self) -> (r: bool) {
        self.nanos == other.nanos
    }
}

impl<ClockType> PartialEqSpecImpl for Duration<ClockType> {
    open spec fn obeys_eq_spec() -> bool {
        true
    }

    /// Durations are equal when they count the same nanoseconds.
    open spec fn eq_spec(&self, other: &Self) -> bool {
        self@ == other@
    }
}

impl<ClockType> Eq for Duration<ClockType> {

}

impl<ClockType> PartialOrd for Duration<ClockType> {
    fn partial_cmp(&self, other: &Self) -> (r: Option<Ordering>) {
        if self.nanos < other.nanos {
            Some(Ordering::Less)
        } else if self.nanos > other.nanos {
            Some(Ordering::Greater)
        } else {
            Some(Ordering::Equal)
        }
    }
}

impl<ClockType> PartialOrdSpecImpl for Duration<ClockType> {
    open spec fn obeys_partial_cmp_spec() -> bool {
        true
    }

    /// Durations are ordered by the nanoseconds they count.
    open spec fn partial_cmp_spec(&self, other: &Self) -> Option<Ordering> {
        if self@ < other@ {
            Some(Ordering::Less)
        } else if self@ > other@ {
            Some(Ordering::Greater)
        } else {
            Some(Ordering::Equal)
        }
    }
}

impl<ClockType> Default for Duration<ClockType> {
    fn default() -> (d: Self)
        ensures
            d@ == 0,
    {
        Self::from_nanos(0)
    }
}

impl<ClockType> Add for Duration<ClockType> {
    type Output = Self;

    fn add(self, rhs: Self) -> (d: Self)
        ensures
            d@ == self@ + rhs@,
    {
        let d = self.checked_add(rhs).unwrap();
        proof {
            Duration::lemma_view_injective(d, Self::spec_from_nanos((self@ + rhs@) as i64));
        }
        d
    }
}

impl<ClockType> AddSpecImpl for Duration<ClockType> {
    open spec fn obeys_add_spec() -> bool {
        true
    }

    open spec fn add_req(self, rhs: Self) -> bool {
        fits_i64(self@ + rhs@)
    }

    open spec fn add_spec(self, rhs: Self) -> Self {
        Self::spec_from_nanos((self@ + rhs@) as i64)
    }
}

impl<ClockType> Sub for Duration<ClockType> {
    type Output = Self;

    fn sub(self, rhs: Self) -> (d: Self)
        ensures
            d@ == self@ - rhs@,
    {
        let d = self.checked_sub(rhs).unwrap();
        proof {
            Duration::lemma_view_injective(d, Self::spec_from_nanos((self@ - rhs@) as i64));
        }
        d
    }
}

impl<ClockType> SubSpecImpl for Duration<ClockType> {
    open spec fn obeys_sub_spec() -> bool {
        true
    }

    open spec fn sub_req(self, rhs: Self) -> bool {
        fits_i64(self@ - rhs@)
    }

    open spec fn sub_spec(self, rhs: Self) -> Self {
        Self::spec_from_nanos((self@ - rhs@) as i64)
    }
}

impl<ClockType> Mul<i64> for Duration<ClockType> {
    type Output = Self;

    fn mul(self, rhs: i64) -> (d: Self)
        ensures
            d@ == self@ * rhs,
    {
        let d = self.checked_mul(rhs).unwrap();
        proof {
            Duration::lemma_view_injective(d, Self::spec_from_nanos((self@ * rhs) as i64));
        }
        d
    }
}

impl<ClockType> MulSpecImpl<i64> for Duration<ClockType> {
    open spec fn obeys_mul_spec() -> bool {
        true
    }

    open spec fn mul_req(self, rhs: i64) -> bool {
        fits_i64(self@ * rhs)
    }

    open spec fn mul_spec(self, rhs: i64) -> Self {
        Self::spec_from_nanos((self@ * rhs) as i64)
    }
}

impl<ClockType> Mul<Duration<ClockType>> for i64 {
    type Output = Duration<ClockType>;

    fn mul(self, rhs: Duration<ClockType>) -> (d: Duration<ClockType>)
        ensures
            d@ == rhs@ * self,
    {
        let d = rhs.checked_mul(self).unwrap();
        proof {
            Duration::lemma_view_injective(d, Duration::spec_from_nanos((rhs@ * self) as i64));
        }
        d
    }
}

impl<ClockType> MulSpecImpl<Duration<ClockType>> for i64 {
    open spec fn obeys_mul_spec() -> bool {
        true
    }

    open spec fn mul_req(self, rhs: Duration<ClockType>) -> bool {
        fits_i64(rhs@ * self)
    }

    open spec fn mul_spec(self, rhs: Duration<ClockType>) -> Duration<ClockType> {
        Duration::spec_from_nanos((rhs@ * self) as i64)
    }
}

impl<ClockType> Div<i64> for Duration<ClockType> {
    type Output = Self;

    fn div(self, rhs: i64) -> (d: Self)
        ensures
            d@ == div_toward_zero(self@ as int, rhs as int),
    {
        let d = self.checked_div(rhs).unwrap();
        proof {
            Duration::lemma_view_injective(d, Self::spec_from_nanos(div_toward_zero(self@ as int, rhs as int) as i64));
        }
        d
    }
}

impl<ClockType> DivSpecImpl<i64> for Duration<ClockType> {
    open spec fn obeys_div_spec() -> bool {
        true
    }

    open spec fn div_req(self, rhs: i64) -> bool {
        rhs != 0 && fits_i64(div_toward_zero(self@ as int, rhs as int))
    }

    open spec fn div_spec(self, rhs: i64) -> Self {
        Self::spec_from_nanos(div_toward_zero(self@ as int, rhs as int) as i64)
    }
}

impl<ClockType> Neg for Duration<ClockType> {
    type Output = Self;

    fn neg(self) -> (d: Self)
        ensures
            d@ == -self@,
    {
        let d = Self::from_nanos(0 - self.nanos);
        proof {
            Duration::lemma_view_injective(d, Self::spec_from_nanos((-self@) as i64));
        }
        d
    }
}

impl<ClockType> NegSpecImpl for Duration<ClockType> {
    open spec fn obeys_neg_spec() -> bool {
        true
    }

    open spec fn neg_req(self) -> bool {
        fits_i64(-self@)
    }

    open spec fn neg_spec(self) -> Self {
        Self::spec_from_nanos((-self@) as i64)
    }
}

/// A point in time of the clock `ClockType`: the nanoseconds that have passed
/// since the clock's epoch.
#[derive(Debug, Hash, Ord)]
pub struct Instant<ClockType> {
    nanos: i64,
    _phantom: PhantomData<ClockType>,
}

impl<ClockType> View for Instant<ClockType> {
    type V = i64;

    /// An instant is its distance from the epoch, in nanoseconds.
    closed spec fn view(&self) -> i64 {
        self.nanos
    }
}

impl<ClockType> Clone for Instant<ClockType> {
    fn clone(&self) -> (i: Self)
        ensures
            i == *self,
    {
        Self { nanos: self.nanos, _phantom: PhantomData }
    }
}

impl<ClockType> Copy for Instant<ClockType> {

}

impl<ClockType> Instant<ClockType> {
    /// Two instants at the same distance from the epoch are the same value.
    pub proof fn lemma_view_injective(a: Self, b: Self)
        requires
            a@ == b@,
        ensures
            a == b,
    {
    }

    /// The instant `nanos` nanoseconds after the epoch.
    pub closed spec fn spec_new(nanos: i64) -> Self {
        Self { nanos, _phantom: PhantomData }
    }

    /// The instant `nanos` nanoseconds after the clock's epoch.
    #[verifier::when_used_as_spec(spec_new)]
    pub fn new(nanos: i64) -> (i: Self)
        ensures
            i@ == nanos,
            i == Self::spec_new(nanos),
    {
        Self { nanos, _phantom: PhantomData }
    }

    /// Returns `Some(t)` where `t` is `self + duration` if `t` can be
    /// represented, `None` otherwise.
    pub fn checked_add(&self, duration: Duration<ClockType>) -> (r: Option<Self>)
        ensures
            fits_i64(self@ + duration@) ==> r is Some && r->0@ == self@ + duration@,
            !fits_i64(self@ + duration@) ==> r is None,
    {
        match self.nanos.checked_add(duration.as_nanos()) {
            Some(nanos) => Some(Self::new(nanos)),
            None => None,
        }
    }

    /// Returns `Some(t)` where `t` is `self - duration` if `t` can be
    /// represented, `None` otherwise.
    pub fn checked_sub(&self, duration: Duration<ClockType>) -> (r: Option<Self>)
        ensures
            fits_i64(self@ - duration@) ==> r is Some && r->0@ == self@ - duration@,
            !fits_i64(self@ - duration@) ==> r is None,
    {
        match self.nanos.checked_sub(duration.as_nanos()) {
            Some(nanos) => Some(Self::new(nanos)),
            None => None,
        }
    }

    /// Returns the amount of time elapsed from another instant to this one.
    /// If `other` is later than `self` the returned value is negative.
    ///
    /// The difference must be representable.
    pub fn duration_since(&self, other: Self) -> (d: Duration<ClockType>)
        requires
            fits_i64(self@ - other@),
        ensures
            d@ == self@ - other@,
    {
        Duration::from_nanos(self.nanos - other.nanos)
    }

    /// Returns the amount of time elapsed from another instant to this one,
    /// or `None` when the difference cannot be represented.
    pub fn checked_duration_since(&self, other: Self) -> (r: Option<Duration<ClockType>>)
        ensures
            fits_i64(self@ - other@) ==> r is Some && r->0@ == self@ - other@,
            !fits_i64(self@ - other@) ==> r is None,
    {
        match self.nanos.checked_sub(other.nanos) {
            Some(nanos) => Some(Duration::from_nanos(nanos)),
            None => None,
        }
    }

    /// Returns the time between the clock's epoch and `self`.
    pub fn duration_since_epoch(&self) -> (d: Duration<ClockType>)
        ensures
            d@ == self@,
    {
        Duration::from_nanos(self.nanos)
    }
}

impl<ClockType> PartialEq for Instant<ClockType> {
    fn eq(&self, other: &Self) -> (r: bool) {
        self.nanos == other.nanos
    }
}

impl<ClockType> PartialEqSpecImpl for Instant<ClockType> {
    open spec fn obeys_eq_spec() -> bool {
        true
    }

    /// Instants are equal when they lie at the same distance from the epoch.
    open spec fn eq_spec(&self, other: &Self) -> bool {
        self@ == other@
    }
}

impl<ClockType> Eq for Instant<ClockType> {

}

impl<ClockType> PartialOrd for Instant<ClockType> {
    fn partial_cmp(&self, other: &Self) -> (r: Option<Ordering>) {
        if self.nanos < other.nanos {
            Some(Ordering::Less)
        } else if self.nanos > other.nanos {
            Some(Ordering::Greater)
        } else {
            Some(Ordering::Equal)
        }
    }
}

impl<ClockType> PartialOrdSpecImpl for Instant<ClockType> {
    open spec fn obeys_partial_cmp_spec() -> bool {
        true
    }

    /// Earlier instants come first.
    open spec fn partial_cmp_spec(&self, other: &Self) -> Option<Ordering> {
        if self@ < other@ {
            Some(Ordering::Less)
        } else if self@ > other@ {
            Some(Ordering::Greater)
        } else {
            Some(Ordering::Equal)
        }
    }
}

impl<ClockType> Default for Instant<ClockType> {
    fn default() -> (i: Self)
        ensures
            i@ == 0,
    {
        Self::new(0)
    }
}

impl<ClockType> Add<Duration<ClockType>> for Instant<ClockType> {
    type Output = Self;

    fn add(self, duration: Duration<ClockType>) -> (i: Self)
        ensures
            i@ == self@ + duration@,
    {
        let i = self.checked_add(duration).unwrap();
        proof {
            Instant::lemma_view_injective(i, Self::spec_new((self@ + duration@) as i64));
        }
        i
    }
}

impl<ClockType> AddSpecImpl<Duration<ClockType>> for Instant<ClockType> {
    open spec fn obeys_add_spec() -> bool {
        true
    }

    open spec fn add_req(self, duration: Duration<ClockType>) -> bool {
        fits_i64(self@ + duration@)
    }

    open spec fn add_spec(self, duration: Duration<ClockType>) -> Self {
        Self::spec_new((self@ + duration@) as i64)
    }
}

impl<ClockType> Sub<Duration<ClockType>> for Instant<ClockType> {
    type Output = Self;

    fn sub(self, duration: Duration<ClockType>) -> (i: Self)
        ensures
            i@ == self@ - duration@,
    {
        let i = self.checked_sub(duration).unwrap();
        proof {
            Instant::lemma_view_injective(i, Self::spec_new((self@ - duration@) as i64));
        }
        i
    }
}

impl<ClockType> SubSpecImpl<Duration<ClockType>> for Instant<ClockType> {
    open spec fn obeys_sub_spec() -> bool {
        true
    }

    open spec fn sub_req(self, duration: Duration<ClockType>) -> bool {
        fits_i64(self@ - duration@)
    }

    open spec fn sub_spec(self, duration: Duration<ClockType>) -> Self {
        Self::spec_new((self@ - duration@) as i64)
    }
}

impl<ClockType> Sub for Instant<ClockType> {
    type Output = Duration<ClockType>;

    fn sub(self, other: Instant<ClockType>) -> (d: Duration<ClockType>)
        ensures
            d@ == self@ - other@,
    {
        let d = self.duration_since(other);
        proof {
            Duration::lemma_view_injective(d, Duration::spec_from_nanos((self@ - other@) as i64));
        }
        d
    }
}

impl<ClockType> SubSpecImpl for Instant<ClockType> {
    open spec fn obeys_sub_spec() -> bool {
        true
    }

    open spec fn sub_req(self, other: Instant<ClockType>) -> bool {
        fits_i64(self@ - other@)
    }

    open spec fn sub_spec(self, other: Instant<ClockType>) -> Duration<ClockType> {
        Duration::spec_from_nanos((self@ - other@) as i64)
    }
}

/// A clock of the runtime. Its readings are `Instant`s tagged with it.
///
/// Implemented by [`SteadyClock`], [`LowresClock`] and [`ManualClock`].
pub trait Clock: Sized {

}

/// The monotonic high-resolution clock of the machine.
#[derive(Debug, Clone, Copy, PartialEq, Eq, PartialOrd, Ord, Hash)]
pub struct SteadyClock;

impl Clock for SteadyClock {

}

/// Low-resolution and efficient steady clock.
///
/// A monotonic clock whose granularity is about one task quota; its time
/// points do not correspond to system time. Reading it is cheap compared to
/// [`SteadyClock`].
#[derive(Debug, Clone, Copy, PartialEq, Eq, PartialOrd, Ord, Hash)]
pub struct LowresClock;

impl Clock for LowresClock {

}

/// A clock that stands still until it is advanced by hand; used mainly for
/// testing.
#[derive(Debug, Clone, Copy, PartialEq, Eq, PartialOrd, Ord, Hash)]
pub struct ManualClock {
    now: i64,
}

impl Clock for ManualClock {

}

impl View for ManualClock {
    type V = i64;

    /// A manual clock is its current reading, in nanoseconds since its epoch.
    closed spec fn view(&self) -> i64 {
        self.now
    }
}

impl ManualClock {
    /// A clock that reads its epoch.
    pub fn new() -> (clock: Self)
        ensures
            clock@ == 0,
    {
        ManualClock { now: 0 }
    }

    /// Returns an instant representing the current value of the clock.
    pub fn now(&self) -> (i: Instant<ManualClock>)
        ensures
            i@ == self@,
    {
        Instant::new(self.now)
    }

    /// Advances the clock by `duration`.
    ///
    /// The new reading must be representable.
    pub fn advance(&mut self, duration: Duration<ManualClock>)
        requires
            fits_i64(old(self)@ + duration@),
        ensures
            final(self)@ == old(self)@ + duration@,
    {
        self.now = self.now + duration.as_nanos();
    }
}

} // verus!
