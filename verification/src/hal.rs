//! Pin capability contracts.
//!
//! A host supplies pin objects to the driver; each capability it offers is one
//! of the traits below.  The contracts speak about the logical state a pin
//! models (the state last commanded), never about the electrical level of the
//! line.
//!
//! Failure is part of the model: each operation has a failure predicate, a
//! spec function of the pin's state that says exactly when the operation
//! returns an error.  An implementation chooses its predicates and proves its
//! operations against them, so callers can conclude outcomes: a hard-wired
//! rail refuses a write (predicate constantly true), a healthy pin must
//! succeed (predicate false), and a composite pin fails exactly when one of
//! its parts does.  The operations also state how the predicates evolve, so
//! that a pin known healthy stays known healthy across a sequence of calls.

use vstd::prelude::*;

verus! {

/// Logical level of a digital pin: the state last commanded, not the
/// electrical level of the line.
#[derive(Clone, Copy, Debug, PartialEq, Eq, Structural)]
pub enum PinState {
    Low,
    High,
}

/// The level opposite to `s`.
pub open spec fn flipped(s: PinState) -> PinState {
    match s {
        PinState::Low => PinState::High,
        PinState::High => PinState::Low,
    }
}

/// Flipping is an involution: two successful toggles restore a pin's level.
pub proof fn lemma_flipped_involution(s: PinState)
    ensures
        flipped(flipped(s)) == s,
{
}

/// Coarse classification of a pin error, for callers that handle errors of
/// different pin types uniformly.
#[derive(Clone, Copy, Debug, PartialEq, Eq, Structural)]
pub enum ErrorKind {
    Other,
}

/// An error type of a pin, classifiable into an [`ErrorKind`].
pub trait Error: Sized {
    /// The classification `kind` returns.
    spec fn kind_spec(&self) -> ErrorKind;

    /// Classify the error.
    fn kind(&self) -> (r: ErrorKind)
        ensures
            r == self.kind_spec(),
    ;
}

/// A digital output pin: its logical state can be set low or high.
///
/// Each write returns an error exactly when its failure predicate holds of
/// the pin's current state, and never changes the modelled state on failure.
/// The stateful predicates [`read_fails`](OutputPin::read_fails) and
/// [`toggle_fails`](OutputPin::toggle_fails) are declared here so that write
/// contracts can say how they evolve; they gain meaning through
/// [`StatefulOutputPin`], and a pin without that capability may define them
/// freely.
pub trait OutputPin: Sized {
    /// The error this pin returns when an operation fails.
    type Error;

    /// The logical state the pin models: the state last commanded.
    spec fn pin_state(&self) -> PinState;

    /// Whether `set_low` fails in this state.
    spec fn set_low_fails(&self) -> bool;

    /// Whether `set_high` fails in this state.
    spec fn set_high_fails(&self) -> bool;

    /// Whether a stateful read fails (or refuses) in this state.
    spec fn read_fails(&self) -> bool;

    /// Whether a toggle fails (or refuses) in this state.
    spec fn toggle_fails(&self) -> bool;

    /// Drive the pin low.
    fn set_low(&mut self) -> (r: Result<(), Self::Error>)
        ensures
            final(self).set_low_fails() == old(self).set_low_fails(),
            final(self).set_high_fails() == old(self).set_high_fails(),
            r is Err <==> old(self).set_low_fails(),
            r is Ok ==> final(self).pin_state() == PinState::Low,
            r is Err ==> final(self).pin_state() == old(self).pin_state(),
            r is Ok ==> (final(self).read_fails() ==> old(self).read_fails()),
            r is Ok ==> (final(self).toggle_fails() ==> old(self).toggle_fails()),
    ;

    /// Drive the pin high.
    fn set_high(&mut self) -> (r: Result<(), Self::Error>)
        ensures
            final(self).set_low_fails() == old(self).set_low_fails(),
            final(self).set_high_fails() == old(self).set_high_fails(),
            r is Err <==> old(self).set_high_fails(),
            r is Ok ==> final(self).pin_state() == PinState::High,
            r is Err ==> final(self).pin_state() == old(self).pin_state(),
            r is Ok ==> (final(self).read_fails() ==> old(self).read_fails()),
            r is Ok ==> (final(self).toggle_fails() ==> old(self).toggle_fails()),
    ;

    /// Drive the pin to `state`.
    fn set_state(&mut self, state: PinState) -> (r: Result<(), Self::Error>)
        ensures
            final(self).set_low_fails() == old(self).set_low_fails(),
            final(self).set_high_fails() == old(self).set_high_fails(),
            r is Err <==> (if state == PinState::Low {
                old(self).set_low_fails()
            } else {
                old(self).set_high_fails()
            }),
            r is Ok ==> final(self).pin_state() == state,
            r is Err ==> final(self).pin_state() == old(self).pin_state(),
            r is Ok ==> (final(self).read_fails() ==> old(self).read_fails()),
            r is Ok ==> (final(self).toggle_fails() ==> old(self).toggle_fails()),
    {
        match state {
            PinState::Low => self.set_low(),
            PinState::High => self.set_high(),
        }
    }
}

/// A digital output pin that can also report the logical state it models.
///
/// Reads report the state last commanded, never the electrical level, leave
/// the pin entirely unchanged, and fail exactly when
/// [`read_fails`](OutputPin::read_fails) holds; a toggle fails exactly when
/// [`toggle_fails`](OutputPin::toggle_fails) holds.
pub trait StatefulOutputPin: OutputPin {
    /// Is the pin set high?
    fn is_set_high(&mut self) -> (r: Result<bool, Self::Error>)
        ensures
            *final(self) == *old(self),
            r is Err <==> old(self).read_fails(),
            r matches Ok(b) ==> b == (old(self).pin_state() == PinState::High),
    ;

    /// Is the pin set low?
    fn is_set_low(&mut self) -> (r: Result<bool, Self::Error>)
        ensures
            *final(self) == *old(self),
            r is Err <==> old(self).read_fails(),
            r matches Ok(b) ==> b == (old(self).pin_state() == PinState::Low),
    ;

    /// Invert the pin's logical state.
    fn toggle(&mut self) -> (r: Result<(), Self::Error>)
        ensures
            final(self).set_low_fails() == old(self).set_low_fails(),
            final(self).set_high_fails() == old(self).set_high_fails(),
            final(self).read_fails() == old(self).read_fails(),
            final(self).toggle_fails() == old(self).toggle_fails(),
            r is Err <==> old(self).toggle_fails(),
            r is Ok ==> final(self).pin_state() == flipped(old(self).pin_state()),
            r is Err ==> final(self).pin_state() == old(self).pin_state(),
    ;
}

/// The duty a fraction `num / denom` of `max` selects: `max * num / denom`,
/// rounded toward zero.
pub open spec fn duty_fraction(max: u16, num: u16, denom: u16) -> u16
    recommends
        0 < denom,
        num <= denom,
{
    ((num as int) * (max as int) / (denom as int)) as u16
}

/// A fraction of `max` never exceeds `max`.
pub proof fn lemma_duty_fraction_in_range(max: u16, num: u16, denom: u16)
    requires
        0 < denom,
        num <= denom,
    ensures
        0 <= (num as int) * (max as int) / (denom as int) <= max,
        duty_fraction(max, num, denom) == (num as int) * (max as int) / (denom as int),
{
    vstd::arithmetic::div_mod::lemma_div_pos_is_pos((num as int) * (max as int), denom as int);
    vstd::arithmetic::mul::lemma_mul_inequality(num as int, denom as int, max as int);
    vstd::arithmetic::div_mod::lemma_div_is_ordered(
        (num as int) * (max as int),
        (denom as int) * (max as int),
        denom as int,
    );
    vstd::arithmetic::div_mod::lemma_div_multiples_vanish(max as int, denom as int);
}

/// A pin driven by pulse-width modulation: the fraction of each period spent
/// in the active level scales linearly from `0` (fully off) to the maximum
/// duty value (fully on).
///
/// A duty write fails exactly when [`set_duty_fails`](SetDutyCycle::set_duty_fails)
/// holds of the pin's current state, and leaves the commanded duty unchanged
/// on failure.
pub trait SetDutyCycle: Sized {
    /// The error this pin returns when an operation fails.
    type Error;

    /// The duty value last commanded.
    spec fn duty(&self) -> u16;

    /// The maximum duty value the pin accepts.  A constant of the pin: no
    /// operation changes it.
    spec fn max_duty(&self) -> u16;

    /// Whether a duty write fails in this state.
    spec fn set_duty_fails(&self) -> bool;

    /// The maximum duty value, as an executable query.
    fn max_duty_cycle(&self) -> (r: u16)
        ensures
            r == self.max_duty(),
    ;

    /// Command the duty value `duty`.
    fn set_duty_cycle(&mut self, duty: u16) -> (r: Result<(), Self::Error>)
        requires
            duty <= old(self).max_duty(),
        ensures
            final(self).max_duty() == old(self).max_duty(),
            final(self).set_duty_fails() == old(self).set_duty_fails(),
            r is Err <==> old(self).set_duty_fails(),
            r is Ok ==> final(self).duty() == duty,
            r is Err ==> final(self).duty() == old(self).duty(),
    ;

    /// Command the duty `num / denom` of the maximum, rounded toward zero.
    fn set_duty_cycle_fraction(&mut self, num: u16, denom: u16) -> (r: Result<(), Self::Error>)
        requires
            0 < denom,
            num <= denom,
        ensures
            final(self).max_duty() == old(self).max_duty(),
            final(self).set_duty_fails() == old(self).set_duty_fails(),
            r is Err <==> old(self).set_duty_fails(),
            r is Ok ==> final(self).duty() == duty_fraction(old(self).max_duty(), num, denom),
            r is Err ==> final(self).duty() == old(self).duty(),
    {
        let max = self.max_duty_cycle();
        proof {
            lemma_duty_fraction_in_range(max, num, denom);
            vstd::arithmetic::mul::lemma_mul_upper_bound(
                num as int,
                u16::MAX as int,
                max as int,
                u16::MAX as int,
            );
        }
        let duty: u16 = ((num as u32) * (max as u32) / (denom as u32)) as u16;
        self.set_duty_cycle(duty)
    }

    /// Command the duty `percent / 100` of the maximum, rounded toward zero.
    fn set_duty_cycle_percent(&mut self, percent: u8) -> (r: Result<(), Self::Error>)
        requires
            percent <= 100,
        ensures
            final(self).max_duty() == old(self).max_duty(),
            final(self).set_duty_fails() == old(self).set_duty_fails(),
            r is Err <==> old(self).set_duty_fails(),
            r is Ok ==> final(self).duty() == duty_fraction(
                old(self).max_duty(),
                percent as u16,
                100,
            ),
            r is Err ==> final(self).duty() == old(self).duty(),
    {
        self.set_duty_cycle_fraction(percent as u16, 100)
    }

    /// Command the maximum duty: fully on.
    fn set_duty_cycle_fully_on(&mut self) -> (r: Result<(), Self::Error>)
        ensures
            final(self).max_duty() == old(self).max_duty(),
            final(self).set_duty_fails() == old(self).set_duty_fails(),
            r is Err <==> old(self).set_duty_fails(),
            r is Ok ==> final(self).duty() == old(self).max_duty(),
            r is Err ==> final(self).duty() == old(self).duty(),
    {
        let max = self.max_duty_cycle();
        self.set_duty_cycle(max)
    }

    /// Command duty zero: fully off.
    fn set_duty_cycle_fully_off(&mut self) -> (r: Result<(), Self::Error>)
        ensures
            final(self).max_duty() == old(self).max_duty(),
            final(self).set_duty_fails() == old(self).set_duty_fails(),
            r is Err <==> old(self).set_duty_fails(),
            r is Ok ==> final(self).duty() == 0,
            r is Err ==> final(self).duty() == old(self).duty(),
    {
        self.set_duty_cycle(0)
    }
}

} // verus!
