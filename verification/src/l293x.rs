//! The chip driver.
//!
//! [`L293x`] owns four input pins (`a1`..`a4`) and two enable pins shared a
//! pair each: `en12` gates outputs `y1` and `y2`, `en34` gates `y3` and
//! `y4`.  Enabling a pair therefore takes both of its outputs out of high
//! impedance in one step; there is no way to enable a single output of a
//! pair.
//!
//! Per-output writes deliberately leave the enable pins alone: the intended
//! sequence for glitch-free updates is to disable a pair, stage both
//! inputs, and re-enable the pair in one call.  (This differs from a
//! standalone [`HalfH`](crate::half_h::HalfH) used polymorphically as a
//! pin, whose writes auto-enable.)
//!
//! Any terminal that is not wired may be the unit type `()`; the
//! operations needing it are then simply absent.  An enable tied to the
//! supply rail is [`Vcc`](crate::pins::Vcc).
//!
//! The driver does not hand out borrowed per-output views of one chip: two
//! views would alias the shared enable pin mutably.  The pin fields are
//! public instead, so a host can reach a single output's pins directly, and
//! a standalone [`HalfH`](crate::half_h::HalfH) serves where an output is
//! wired onward as a pin.
//!
//! Every operation says exactly when it succeeds and when each error
//! occurs, in terms of the pins' failure predicates (see [`crate::hal`]),
//! and states which pins it leaves untouched.

use vstd::prelude::*;

use crate::hal::{duty_fraction, flipped, OutputPin, PinState, SetDutyCycle, StatefulOutputPin};
use crate::half_h::{bridge_output, BridgeOutput};
use crate::output_state_error::OutputStateError;

verus! {

/// The L293 or L293D chip: four half-H bridges, two shared enable lines.
#[derive(Debug)]
pub struct L293x<A1, A2, A3, A4, EN12, EN34> {
    /// Input pin of output y1.
    pub a1: A1,
    /// Input pin of output y2.
    pub a2: A2,
    /// Input pin of output y3.
    pub a3: A3,
    /// Input pin of output y4.
    pub a4: A4,
    /// Enable pin shared by outputs y1 and y2.
    pub en12: EN12,
    /// Enable pin shared by outputs y3 and y4.
    pub en34: EN34,
}

impl<A1, A2, A3, A4, EN12, EN34> L293x<A1, A2, A3, A4, EN12, EN34> {
    /// Wire the chip from its four input pins and two enable pins.  No pin
    /// is driven to a default level: the initial state is whatever the pin
    /// objects reflect.
    pub fn new(a1: A1, a2: A2, a3: A3, a4: A4, en12: EN12, en34: EN34) -> (r: Self)
        ensures
            r.a1 == a1,
            r.a2 == a2,
            r.a3 == a3,
            r.a4 == a4,
            r.en12 == en12,
            r.en34 == en34,
    {
        Self { a1, a2, a3, a4, en12, en34 }
    }
}

impl<A1, A2, A3, A4, EN12, EN34> L293x<A1, A2, A3, A4, EN12, EN34> where EN12: OutputPin {
    /// The enable level gating output y1: the state of the shared pin
    /// `en12`.
    pub open spec fn y1_enable(&self) -> PinState {
        self.en12.pin_state()
    }

    /// The enable level gating output y2: the state of the same shared
    /// pin `en12`, so always equal to [`y1_enable`](Self::y1_enable).
    pub open spec fn y2_enable(&self) -> PinState {
        self.en12.pin_state()
    }

    /// Enable outputs y1 and y2.
    ///
    /// The two share the single enable pin `en12`, so both leave high
    /// impedance together; their levels then mirror their inputs.  Fails
    /// exactly when `en12` refuses to go high; the other pair and all
    /// inputs are untouched either way.
    pub fn enable_y1_and_y2(&mut self) -> (r: Result<(), EN12::Error>)
        ensures
            final(self).a1 == old(self).a1,
            final(self).a2 == old(self).a2,
            final(self).a3 == old(self).a3,
            final(self).a4 == old(self).a4,
            final(self).en34 == old(self).en34,
            final(self).en12.set_low_fails() == old(self).en12.set_low_fails(),
            final(self).en12.set_high_fails() == old(self).en12.set_high_fails(),
            r is Err <==> old(self).en12.set_high_fails(),
            r is Ok ==> final(self).y1_enable() == PinState::High && final(self).y2_enable()
                == PinState::High,
            r is Err ==> final(self).en12.pin_state() == old(self).en12.pin_state(),
            r is Ok ==> (final(self).en12.read_fails() ==> old(self).en12.read_fails()),
    {
        self.en12.set_high()
    }

    /// Disable outputs y1 and y2.
    ///
    /// The two share the single enable pin `en12`, so both float (high
    /// impedance) together, whatever their inputs.  Fails exactly when
    /// `en12` refuses to go low; the other pair and all inputs are
    /// untouched either way.
    pub fn disable_y1_and_y2(&mut self) -> (r: Result<(), EN12::Error>)
        ensures
            final(self).a1 == old(self).a1,
            final(self).a2 == old(self).a2,
            final(self).a3 == old(self).a3,
            final(self).a4 == old(self).a4,
            final(self).en34 == old(self).en34,
            final(self).en12.set_low_fails() == old(self).en12.set_low_fails(),
            final(self).en12.set_high_fails() == old(self).en12.set_high_fails(),
            r is Err <==> old(self).en12.set_low_fails(),
            r is Ok ==> final(self).y1_enable() == PinState::Low && final(self).y2_enable()
                == PinState::Low,
            r is Err ==> final(self).en12.pin_state() == old(self).en12.pin_state(),
            r is Ok ==> (final(self).en12.read_fails() ==> old(self).en12.read_fails()),
    {
        self.en12.set_low()
    }
}

impl<A1, A2, A3, A4, EN12, EN34> L293x<A1, A2, A3, A4, EN12, EN34> where
    EN12: StatefulOutputPin,
 {
    /// Are outputs y1 and y2 enabled?  Reports the state last written to the
    /// shared enable pin, never the electrical level of the line.  Fails
    /// exactly when `en12` cannot be read; nothing is modified.
    pub fn y1_and_y2_enabled(&mut self) -> (r: Result<bool, EN12::Error>)
        ensures
            *final(self) == *old(self),
            r is Err <==> old(self).en12.read_fails(),
            r matches Ok(b) ==> b == (old(self).y1_enable() == PinState::High),
    {
        self.en12.is_set_high()
    }

    /// Are outputs y1 and y2 disabled?  Reports the state last written to the
    /// shared enable pin, never the electrical level of the line.  Fails
    /// exactly when `en12` cannot be read; nothing is modified.
    pub fn y1_and_y2_disabled(&mut self) -> (r: Result<bool, EN12::Error>)
        ensures
            *final(self) == *old(self),
            r is Err <==> old(self).en12.read_fails(),
            r matches Ok(b) ==> b == (old(self).y1_enable() == PinState::Low),
    {
        self.en12.is_set_low()
    }
}

impl<A1, A2, A3, A4, EN12, EN34> L293x<A1, A2, A3, A4, EN12, EN34> where EN34: OutputPin {
    /// The enable level gating output y3: the state of the shared pin
    /// `en34`.
    pub open spec fn y3_enable(&self) -> PinState {
        self.en34.pin_state()
    }

    /// The enable level gating output y4: the state of the same shared
    /// pin `en34`, so always equal to [`y3_enable`](Self::y3_enable).
    pub open spec fn y4_enable(&self) -> PinState {
        self.en34.pin_state()
    }

    /// Enable outputs y3 and y4.
    ///
    /// The two share the single enable pin `en34`, so both leave high
    /// impedance together; their levels then mirror their inputs.  Fails
    /// exactly when `en34` refuses to go high; the other pair and all
    /// inputs are untouched either way.
    pub fn enable_y3_and_y4(&mut self) -> (r: Result<(), EN34::Error>)
        ensures
            final(self).a1 == old(self).a1,
            final(self).a2 == old(self).a2,
            final(self).a3 == old(self).a3,
            final(self).a4 == old(self).a4,
            final(self).en12 == old(self).en12,
            final(self).en34.set_low_fails() == old(self).en34.set_low_fails(),
            final(self).en34.set_high_fails() == old(self).en34.set_high_fails(),
            r is Err <==> old(self).en34.set_high_fails(),
            r is Ok ==> final(self).y3_enable() == PinState::High && final(self).y4_enable()
                == PinState::High,
            r is Err ==> final(self).en34.pin_state() == old(self).en34.pin_state(),
            r is Ok ==> (final(self).en34.read_fails() ==> old(self).en34.read_fails()),
    {
        self.en34.set_high()
    }

    /// Disable outputs y3 and y4.
    ///
    /// The two share the single enable pin `en34`, so both float (high
    /// impedance) together, whatever their inputs.  Fails exactly when
    /// `en34` refuses to go low; the other pair and all inputs are
    /// untouched either way.
    pub fn disable_y3_and_y4(&mut self) -> (r: Result<(), EN34::Error>)
        ensures
            final(self).a1 == old(self).a1,
            final(self).a2 == old(self).a2,
            final(self).a3 == old(self).a3,
            final(self).a4 == old(self).a4,
            final(self).en12 == old(self).en12,
            final(self).en34.set_low_fails() == old(self).en34.set_low_fails(),
            final(self).en34.set_high_fails() == old(self).en34.set_high_fails(),
            r is Err <==> old(self).en34.set_low_fails(),
            r is Ok ==> final(self).y3_enable() == PinState::Low && final(self).y4_enable()
                == PinState::Low,
            r is Err ==> final(self).en34.pin_state() == old(self).en34.pin_state(),
            r is Ok ==> (final(self).en34.read_fails() ==> old(self).en34.read_fails()),
    {
        self.en34.set_low()
    }
}

impl<A1, A2, A3, A4, EN12, EN34> L293x<A1, A2, A3, A4, EN12, EN34> where
    EN34: StatefulOutputPin,
 {
    /// Are outputs y3 and y4 enabled?  Reports the state last written to the
    /// shared enable pin, never the electrical level of the line.  Fails
    /// exactly when `en34` cannot be read; nothing is modified.
    pub fn y3_and_y4_enabled(&mut self) -> (r: Result<bool, EN34::Error>)
        ensures
            *final(self) == *old(self),
            r is Err <==> old(self).en34.read_fails(),
            r matches Ok(b) ==> b == (old(self).y3_enable() == PinState::High),
    {
        self.en34.is_set_high()
    }

    /// Are outputs y3 and y4 disabled?  Reports the state last written to the
    /// shared enable pin, never the electrical level of the line.  Fails
    /// exactly when `en34` cannot be read; nothing is modified.
    pub fn y3_and_y4_disabled(&mut self) -> (r: Result<bool, EN34::Error>)
        ensures
            *final(self) == *old(self),
            r is Err <==> old(self).en34.read_fails(),
            r matches Ok(b) ==> b == (old(self).y3_enable() == PinState::Low),
    {
        self.en34.is_set_low()
    }
}

impl<A1, A2, A3, A4, EN12, EN34> L293x<A1, A2, A3, A4, EN12, EN34> where A1: OutputPin {
    /// The logical state last commanded on input `a1`, which output y1
    /// mirrors while its pair is enabled.
    pub open spec fn y1_input(&self) -> PinState {
        self.a1.pin_state()
    }

    /// Set the input of output y1 high.
    ///
    /// The shared enable pin is not touched: the level appears on y1 only
    /// while the pair y1 and y2 is enabled (see [`enable_y1_and_y2`](Self::enable_y1_and_y2)).
    /// Writing while the pair is disabled lets both siblings be staged and
    /// then enabled together, avoiding transient currents.  Fails exactly
    /// when `a1` refuses the write.
    pub fn set_y1_high(&mut self) -> (r: Result<(), A1::Error>)
        ensures
            final(self).a2 == old(self).a2,
            final(self).a3 == old(self).a3,
            final(self).a4 == old(self).a4,
            final(self).en12 == old(self).en12,
            final(self).en34 == old(self).en34,
            final(self).a1.set_low_fails() == old(self).a1.set_low_fails(),
            final(self).a1.set_high_fails() == old(self).a1.set_high_fails(),
            r is Err <==> old(self).a1.set_high_fails(),
            r is Ok ==> final(self).y1_input() == PinState::High,
            r is Err ==> final(self).y1_input() == old(self).y1_input(),
            r is Ok ==> (final(self).a1.read_fails() ==> old(self).a1.read_fails()),
            r is Ok ==> (final(self).a1.toggle_fails() ==> old(self).a1.toggle_fails()),
    {
        self.a1.set_high()
    }

    /// Set the input of output y1 low.
    ///
    /// The shared enable pin is not touched: see
    /// [`set_y1_high`](Self::set_y1_high).  Fails exactly when `a1`
    /// refuses the write.
    pub fn set_y1_low(&mut self) -> (r: Result<(), A1::Error>)
        ensures
            final(self).a2 == old(self).a2,
            final(self).a3 == old(self).a3,
            final(self).a4 == old(self).a4,
            final(self).en12 == old(self).en12,
            final(self).en34 == old(self).en34,
            final(self).a1.set_low_fails() == old(self).a1.set_low_fails(),
            final(self).a1.set_high_fails() == old(self).a1.set_high_fails(),
            r is Err <==> old(self).a1.set_low_fails(),
            r is Ok ==> final(self).y1_input() == PinState::Low,
            r is Err ==> final(self).y1_input() == old(self).y1_input(),
            r is Ok ==> (final(self).a1.read_fails() ==> old(self).a1.read_fails()),
            r is Ok ==> (final(self).a1.toggle_fails() ==> old(self).a1.toggle_fails()),
    {
        self.a1.set_low()
    }

    /// Set the input of output y1 to `state`.
    ///
    /// The shared enable pin is not touched: see
    /// [`set_y1_high`](Self::set_y1_high).  Fails exactly when `a1`
    /// refuses the write.
    pub fn set_y1_state(&mut self, state: PinState) -> (r: Result<(), A1::Error>)
        ensures
            final(self).a2 == old(self).a2,
            final(self).a3 == old(self).a3,
            final(self).a4 == old(self).a4,
            final(self).en12 == old(self).en12,
            final(self).en34 == old(self).en34,
            final(self).a1.set_low_fails() == old(self).a1.set_low_fails(),
            final(self).a1.set_high_fails() == old(self).a1.set_high_fails(),
            r is Err <==> (if state == PinState::Low {
                old(self).a1.set_low_fails()
            } else {
                old(self).a1.set_high_fails()
            }),
            r is Ok ==> final(self).y1_input() == state,
            r is Err ==> final(self).y1_input() == old(self).y1_input(),
            r is Ok ==> (final(self).a1.read_fails() ==> old(self).a1.read_fails()),
            r is Ok ==> (final(self).a1.toggle_fails() ==> old(self).a1.toggle_fails()),
    {
        self.a1.set_state(state)
    }
}

impl<A1, A2, A3, A4, EN12, EN34> L293x<A1, A2, A3, A4, EN12, EN34> where
    A1: StatefulOutputPin,
    EN12: StatefulOutputPin,
 {
    /// Is output y1 driven high?
    ///
    /// Follows the bridge truth table: while the pair y1 and y2 is disabled
    /// the line floats, so the read refuses with
    /// [`OutputStateError::NotEnabled`] rather than report a level the line
    /// does not have.  Succeeds exactly when `en12` is readable, the pair
    /// is enabled, and `a1` is readable; nothing is modified.
    pub fn is_y1_set_high(&mut self) -> (r: Result<
        bool,
        OutputStateError<A1::Error, EN12::Error>,
    >)
        ensures
            *final(self) == *old(self),
            r matches Ok(b) ==> bridge_output(old(self).y1_input(), old(self).y1_enable()) == (
            if b {
                BridgeOutput::High
            } else {
                BridgeOutput::Low
            }),
            (r matches Err(OutputStateError::EnablePinError(_))) <==> old(self).en12.read_fails(),
            (r matches Err(OutputStateError::NotEnabled)) <==> (!old(self).en12.read_fails()
                && old(self).y1_enable() != PinState::High),
            (r matches Err(OutputStateError::InputPinError(_))) <==> (!old(self).en12.read_fails()
                && old(self).y1_enable() == PinState::High && old(self).a1.read_fails()),
            r is Ok <==> (!old(self).en12.read_fails() && old(self).y1_enable() == PinState::High
                && !old(self).a1.read_fails()),
    {
        match self.en12.is_set_high() {
            Err(e) => Err(OutputStateError::EnablePinError(e)),
            Ok(false) => Err(OutputStateError::NotEnabled),
            Ok(true) => match self.a1.is_set_high() {
                Err(e) => Err(OutputStateError::InputPinError(e)),
                Ok(b) => Ok(b),
            },
        }
    }

    /// Is output y1 driven low?
    ///
    /// Strict semantics, as for [`is_y1_set_high`](Self::is_y1_set_high).
    pub fn is_y1_set_low(&mut self) -> (r: Result<
        bool,
        OutputStateError<A1::Error, EN12::Error>,
    >)
        ensures
            *final(self) == *old(self),
            r matches Ok(b) ==> bridge_output(old(self).y1_input(), old(self).y1_enable()) == (
            if b {
                BridgeOutput::Low
            } else {
                BridgeOutput::High
            }),
            (r matches Err(OutputStateError::EnablePinError(_))) <==> old(self).en12.read_fails(),
            (r matches Err(OutputStateError::NotEnabled)) <==> (!old(self).en12.read_fails()
                && old(self).y1_enable() != PinState::High),
            (r matches Err(OutputStateError::InputPinError(_))) <==> (!old(self).en12.read_fails()
                && old(self).y1_enable() == PinState::High && old(self).a1.read_fails()),
            r is Ok <==> (!old(self).en12.read_fails() && old(self).y1_enable() == PinState::High
                && !old(self).a1.read_fails()),
    {
        match self.en12.is_set_high() {
            Err(e) => Err(OutputStateError::EnablePinError(e)),
            Ok(false) => Err(OutputStateError::NotEnabled),
            Ok(true) => match self.a1.is_set_low() {
                Err(e) => Err(OutputStateError::InputPinError(e)),
                Ok(b) => Ok(b),
            },
        }
    }

    /// Toggle the input of output y1.
    ///
    /// Refuses with [`OutputStateError::NotEnabled`] while the pair
    /// y1 and y2 is disabled: a floating line has no state to invert.  The
    /// enable pin itself is never changed.  Succeeds exactly when `en12`
    /// is readable, the pair is enabled, and `a1` can be toggled.
    pub fn toggle_y1(&mut self) -> (r: Result<
        (),
        OutputStateError<A1::Error, EN12::Error>,
    >)
        ensures
            final(self).a2 == old(self).a2,
            final(self).a3 == old(self).a3,
            final(self).a4 == old(self).a4,
            final(self).en12 == old(self).en12,
            final(self).en34 == old(self).en34,
            final(self).a1.set_low_fails() == old(self).a1.set_low_fails(),
            final(self).a1.set_high_fails() == old(self).a1.set_high_fails(),
            final(self).a1.read_fails() == old(self).a1.read_fails(),
            final(self).a1.toggle_fails() == old(self).a1.toggle_fails(),
            r is Ok ==> final(self).y1_input() == flipped(old(self).y1_input()),
            r is Err ==> final(self).y1_input() == old(self).y1_input(),
            (r matches Err(OutputStateError::EnablePinError(_))) <==> old(self).en12.read_fails(),
            (r matches Err(OutputStateError::NotEnabled)) <==> (!old(self).en12.read_fails()
                && old(self).y1_enable() != PinState::High),
            (r matches Err(OutputStateError::NotEnabled)) ==> final(self).a1 == old(self).a1,
            (r matches Err(OutputStateError::InputPinError(_))) <==> (!old(self).en12.read_fails()
                && old(self).y1_enable() == PinState::High && old(self).a1.toggle_fails()),
            r is Ok <==> (!old(self).en12.read_fails() && old(self).y1_enable() == PinState::High
                && !old(self).a1.toggle_fails()),
    {
        match self.en12.is_set_high() {
            Err(e) => Err(OutputStateError::EnablePinError(e)),
            Ok(false) => Err(OutputStateError::NotEnabled),
            Ok(true) => match self.a1.toggle() {
                Err(e) => Err(OutputStateError::InputPinError(e)),
                Ok(()) => Ok(()),
            },
        }
    }
}

impl<A1, A2, A3, A4, EN12, EN34> L293x<A1, A2, A3, A4, EN12, EN34> where A1: SetDutyCycle {
    /// The maximum duty value input `a1` accepts.
    pub fn y1_max_duty_cycle(&self) -> (r: u16)
        ensures
            r == self.a1.max_duty(),
    {
        self.a1.max_duty_cycle()
    }

    /// Command the duty value of output y1.
    ///
    /// The shared enable pin is not touched: the waveform appears on y1
    /// only while the pair y1 and y2 is enabled.  Fails exactly when `a1`
    /// refuses the duty write.
    pub fn set_y1_duty_cycle(&mut self, duty: u16) -> (r: Result<(), A1::Error>)
        requires
            duty <= old(self).a1.max_duty(),
        ensures
            final(self).a2 == old(self).a2,
            final(self).a3 == old(self).a3,
            final(self).a4 == old(self).a4,
            final(self).en12 == old(self).en12,
            final(self).en34 == old(self).en34,
            final(self).a1.max_duty() == old(self).a1.max_duty(),
            final(self).a1.set_duty_fails() == old(self).a1.set_duty_fails(),
            r is Err <==> old(self).a1.set_duty_fails(),
            r is Ok ==> final(self).a1.duty() == duty,
            r is Err ==> final(self).a1.duty() == old(self).a1.duty(),
    {
        self.a1.set_duty_cycle(duty)
    }

    /// Command the duty of output y1 as the fraction `num / denom` of the
    /// maximum, rounded toward zero.
    ///
    /// The shared enable pin is not touched.  Fails exactly when `a1`
    /// refuses the duty write.
    pub fn set_y1_duty_cycle_fraction(&mut self, num: u16, denom: u16) -> (r: Result<
        (),
        A1::Error,
    >)
        requires
            0 < denom,
            num <= denom,
        ensures
            final(self).a2 == old(self).a2,
            final(self).a3 == old(self).a3,
            final(self).a4 == old(self).a4,
            final(self).en12 == old(self).en12,
            final(self).en34 == old(self).en34,
            final(self).a1.max_duty() == old(self).a1.max_duty(),
            final(self).a1.set_duty_fails() == old(self).a1.set_duty_fails(),
            r is Err <==> old(self).a1.set_duty_fails(),
            r is Ok ==> final(self).a1.duty() == duty_fraction(
                old(self).a1.max_duty(),
                num,
                denom,
            ),
            r is Err ==> final(self).a1.duty() == old(self).a1.duty(),
    {
        self.a1.set_duty_cycle_fraction(num, denom)
    }

    /// Command the duty of output y1 as `percent / 100` of the maximum,
    /// rounded toward zero.
    ///
    /// The shared enable pin is not touched.  Fails exactly when `a1`
    /// refuses the duty write.
    pub fn set_y1_duty_cycle_percent(&mut self, percent: u8) -> (r: Result<(), A1::Error>)
        requires
            percent <= 100,
        ensures
            final(self).a2 == old(self).a2,
            final(self).a3 == old(self).a3,
            final(self).a4 == old(self).a4,
            final(self).en12 == old(self).en12,
            final(self).en34 == old(self).en34,
            final(self).a1.max_duty() == old(self).a1.max_duty(),
            final(self).a1.set_duty_fails() == old(self).a1.set_duty_fails(),
            r is Err <==> old(self).a1.set_duty_fails(),
            r is Ok ==> final(self).a1.duty() == duty_fraction(
                old(self).a1.max_duty(),
                percent as u16,
                100,
            ),
            r is Err ==> final(self).a1.duty() == old(self).a1.duty(),
    {
        self.a1.set_duty_cycle_percent(percent)
    }

    /// Command the maximum duty on output y1: fully on.
    ///
    /// The shared enable pin is not touched.  Fails exactly when `a1`
    /// refuses the duty write.
    pub fn set_y1_duty_cycle_fully_on(&mut self) -> (r: Result<(), A1::Error>)
        ensures
            final(self).a2 == old(self).a2,
            final(self).a3 == old(self).a3,
            final(self).a4 == old(self).a4,
            final(self).en12 == old(self).en12,
            final(self).en34 == old(self).en34,
            final(self).a1.max_duty() == old(self).a1.max_duty(),
            final(self).a1.set_duty_fails() == old(self).a1.set_duty_fails(),
            r is Err <==> old(self).a1.set_duty_fails(),
            r is Ok ==> final(self).a1.duty() == old(self).a1.max_duty(),
            r is Err ==> final(self).a1.duty() == old(self).a1.duty(),
    {
        self.a1.set_duty_cycle_fully_on()
    }

    /// Command duty zero on output y1: fully off.
    ///
    /// The shared enable pin is not touched.  Fails exactly when `a1`
    /// refuses the duty write.
    pub fn set_y1_duty_cycle_fully_off(&mut self) -> (r: Result<(), A1::Error>)
        ensures
            final(self).a2 == old(self).a2,
            final(self).a3 == old(self).a3,
            final(self).a4 == old(self).a4,
            final(self).en12 == old(self).en12,
            final(self).en34 == old(self).en34,
            final(self).a1.max_duty() == old(self).a1.max_duty(),
            final(self).a1.set_duty_fails() == old(self).a1.set_duty_fails(),
            r is Err <==> old(self).a1.set_duty_fails(),
            r is Ok ==> final(self).a1.duty() == 0,
            r is Err ==> final(self).a1.duty() == old(self).a1.duty(),
    {
        self.a1.set_duty_cycle_fully_off()
    }
}

impl<A1, A2, A3, A4, EN12, EN34> L293x<A1, A2, A3, A4, EN12, EN34> where A2: OutputPin {
    /// The logical state last commanded on input `a2`, which output y2
    /// mirrors while its pair is enabled.
    pub open spec fn y2_input(&self) -> PinState {
        self.a2.pin_state()
    }

    /// Set the input of output y2 high.
    ///
    /// The shared enable pin is not touched: the level appears on y2 only
    /// while the pair y1 and y2 is enabled (see [`enable_y1_and_y2`](Self::enable_y1_and_y2)).
    /// Writing while the pair is disabled lets both siblings be staged and
    /// then enabled together, avoiding transient currents.  Fails exactly
    /// when `a2` refuses the write.
    pub fn set_y2_high(&mut self) -> (r: Result<(), A2::Error>)
        ensures
            final(self).a1 == old(self).a1,
            final(self).a3 == old(self).a3,
            final(self).a4 == old(self).a4,
            final(self).en12 == old(self).en12,
            final(self).en34 == old(self).en34,
            final(self).a2.set_low_fails() == old(self).a2.set_low_fails(),
            final(self).a2.set_high_fails() == old(self).a2.set_high_fails(),
            r is Err <==> old(self).a2.set_high_fails(),
            r is Ok ==> final(self).y2_input() == PinState::High,
            r is Err ==> final(self).y2_input() == old(self).y2_input(),
            r is Ok ==> (final(self).a2.read_fails() ==> old(self).a2.read_fails()),
            r is Ok ==> (final(self).a2.toggle_fails() ==> old(self).a2.toggle_fails()),
    {
        self.a2.set_high()
    }

    /// Set the input of output y2 low.
    ///
    /// The shared enable pin is not touched: see
    /// [`set_y2_high`](Self::set_y2_high).  Fails exactly when `a2`
    /// refuses the write.
    pub fn set_y2_low(&mut self) -> (r: Result<(), A2::Error>)
        ensures
            final(self).a1 == old(self).a1,
            final(self).a3 == old(self).a3,
            final(self).a4 == old(self).a4,
            final(self).en12 == old(self).en12,
            final(self).en34 == old(self).en34,
            final(self).a2.set_low_fails() == old(self).a2.set_low_fails(),
            final(self).a2.set_high_fails() == old(self).a2.set_high_fails(),
            r is Err <==> old(self).a2.set_low_fails(),
            r is Ok ==> final(self).y2_input() == PinState::Low,
            r is Err ==> final(self).y2_input() == old(self).y2_input(),
            r is Ok ==> (final(self).a2.read_fails() ==> old(self).a2.read_fails()),
            r is Ok ==> (final(self).a2.toggle_fails() ==> old(self).a2.toggle_fails()),
    {
        self.a2.set_low()
    }

    /// Set the input of output y2 to `state`.
    ///
    /// The shared enable pin is not touched: see
    /// [`set_y2_high`](Self::set_y2_high).  Fails exactly when `a2`
    /// refuses the write.
    pub fn set_y2_state(&mut self, state: PinState) -> (r: Result<(), A2::Error>)
        ensures
            final(self).a1 == old(self).a1,
            final(self).a3 == old(self).a3,
            final(self).a4 == old(self).a4,
            final(self).en12 == old(self).en12,
            final(self).en34 == old(self).en34,
            final(self).a2.set_low_fails() == old(self).a2.set_low_fails(),
            final(self).a2.set_high_fails() == old(self).a2.set_high_fails(),
            r is Err <==> (if state == PinState::Low {
                old(self).a2.set_low_fails()
            } else {
                old(self).a2.set_high_fails()
            }),
            r is Ok ==> final(self).y2_input() == state,
            r is Err ==> final(self).y2_input() == old(self).y2_input(),
            r is Ok ==> (final(self).a2.read_fails() ==> old(self).a2.read_fails()),
            r is Ok ==> (final(self).a2.toggle_fails() ==> old(self).a2.toggle_fails()),
    {
        self.a2.set_state(state)
    }
}

impl<A1, A2, A3, A4, EN12, EN34> L293x<A1, A2, A3, A4, EN12, EN34> where
    A2: StatefulOutputPin,
    EN12: StatefulOutputPin,
 {
    /// Is output y2 driven high?
    ///
    /// Follows the bridge truth table: while the pair y1 and y2 is disabled
    /// the line floats, so the read refuses with
    /// [`OutputStateError::NotEnabled`] rather than report a level the line
    /// does not have.  Succeeds exactly when `en12` is readable, the pair
    /// is enabled, and `a2` is readable; nothing is modified.
    pub fn is_y2_set_high(&mut self) -> (r: Result<
        bool,
        OutputStateError<A2::Error, EN12::Error>,
    >)
        ensures
            *final(self) == *old(self),
            r matches Ok(b) ==> bridge_output(old(self).y2_input(), old(self).y2_enable()) == (
            if b {
                BridgeOutput::High
            } else {
                BridgeOutput::Low
            }),
            (r matches Err(OutputStateError::EnablePinError(_))) <==> old(self).en12.read_fails(),
            (r matches Err(OutputStateError::NotEnabled)) <==> (!old(self).en12.read_fails()
                && old(self).y2_enable() != PinState::High),
            (r matches Err(OutputStateError::InputPinError(_))) <==> (!old(self).en12.read_fails()
                && old(self).y2_enable() == PinState::High && old(self).a2.read_fails()),
            r is Ok <==> (!old(self).en12.read_fails() && old(self).y2_enable() == PinState::High
                && !old(self).a2.read_fails()),
    {
        match self.en12.is_set_high() {
            Err(e) => Err(OutputStateError::EnablePinError(e)),
            Ok(false) => Err(OutputStateError::NotEnabled),
            Ok(true) => match self.a2.is_set_high() {
                Err(e) => Err(OutputStateError::InputPinError(e)),
                Ok(b) => Ok(b),
            },
        }
    }

    /// Is output y2 driven low?
    ///
    /// Strict semantics, as for [`is_y2_set_high`](Self::is_y2_set_high).
    pub fn is_y2_set_low(&mut self) -> (r: Result<
        bool,
        OutputStateError<A2::Error, EN12::Error>,
    >)
        ensures
            *final(self) == *old(self),
            r matches Ok(b) ==> bridge_output(old(self).y2_input(), old(self).y2_enable()) == (
            if b {
                BridgeOutput::Low
            } else {
                BridgeOutput::High
            }),
            (r matches Err(OutputStateError::EnablePinError(_))) <==> old(self).en12.read_fails(),
            (r matches Err(OutputStateError::NotEnabled)) <==> (!old(self).en12.read_fails()
                && old(self).y2_enable() != PinState::High),
            (r matches Err(OutputStateError::InputPinError(_))) <==> (!old(self).en12.read_fails()
                && old(self).y2_enable() == PinState::High && old(self).a2.read_fails()),
            r is Ok <==> (!old(self).en12.read_fails() && old(self).y2_enable() == PinState::High
                && !old(self).a2.read_fails()),
    {
        match self.en12.is_set_high() {
            Err(e) => Err(OutputStateError::EnablePinError(e)),
            Ok(false) => Err(OutputStateError::NotEnabled),
            Ok(true) => match self.a2.is_set_low() {
                Err(e) => Err(OutputStateError::InputPinError(e)),
                Ok(b) => Ok(b),
            },
        }
    }

    /// Toggle the input of output y2.
    ///
    /// Refuses with [`OutputStateError::NotEnabled`] while the pair
    /// y1 and y2 is disabled: a floating line has no state to invert.  The
    /// enable pin itself is never changed.  Succeeds exactly when `en12`
    /// is readable, the pair is enabled, and `a2` can be toggled.
    pub fn toggle_y2(&mut self) -> (r: Result<
        (),
        OutputStateError<A2::Error, EN12::Error>,
    >)
        ensures
            final(self).a1 == old(self).a1,
            final(self).a3 == old(self).a3,
            final(self).a4 == old(self).a4,
            final(self).en12 == old(self).en12,
            final(self).en34 == old(self).en34,
            final(self).a2.set_low_fails() == old(self).a2.set_low_fails(),
            final(self).a2.set_high_fails() == old(self).a2.set_high_fails(),
            final(self).a2.read_fails() == old(self).a2.read_fails(),
            final(self).a2.toggle_fails() == old(self).a2.toggle_fails(),
            r is Ok ==> final(self).y2_input() == flipped(old(self).y2_input()),
            r is Err ==> final(self).y2_input() == old(self).y2_input(),
            (r matches Err(OutputStateError::EnablePinError(_))) <==> old(self).en12.read_fails(),
            (r matches Err(OutputStateError::NotEnabled)) <==> (!old(self).en12.read_fails()
                && old(self).y2_enable() != PinState::High),
            (r matches Err(OutputStateError::NotEnabled)) ==> final(self).a2 == old(self).a2,
            (r matches Err(OutputStateError::InputPinError(_))) <==> (!old(self).en12.read_fails()
                && old(self).y2_enable() == PinState::High && old(self).a2.toggle_fails()),
            r is Ok <==> (!old(self).en12.read_fails() && old(self).y2_enable() == PinState::High
                && !old(self).a2.toggle_fails()),
    {
        match self.en12.is_set_high() {
            Err(e) => Err(OutputStateError::EnablePinError(e)),
            Ok(false) => Err(OutputStateError::NotEnabled),
            Ok(true) => match self.a2.toggle() {
                Err(e) => Err(OutputStateError::InputPinError(e)),
                Ok(()) => Ok(()),
            },
        }
    }
}

impl<A1, A2, A3, A4, EN12, EN34> L293x<A1, A2, A3, A4, EN12, EN34> where A2: SetDutyCycle {
    /// The maximum duty value input `a2` accepts.
    pub fn y2_max_duty_cycle(&self) -> (r: u16)
        ensures
            r == self.a2.max_duty(),
    {
        self.a2.max_duty_cycle()
    }

    /// Command the duty value of output y2.
    ///
    /// The shared enable pin is not touched: the waveform appears on y2
    /// only while the pair y1 and y2 is enabled.  Fails exactly when `a2`
    /// refuses the duty write.
    pub fn set_y2_duty_cycle(&mut self, duty: u16) -> (r: Result<(), A2::Error>)
        requires
            duty <= old(self).a2.max_duty(),
        ensures
            final(self).a1 == old(self).a1,
            final(self).a3 == old(self).a3,
            final(self).a4 == old(self).a4,
            final(self).en12 == old(self).en12,
            final(self).en34 == old(self).en34,
            final(self).a2.max_duty() == old(self).a2.max_duty(),
            final(self).a2.set_duty_fails() == old(self).a2.set_duty_fails(),
            r is Err <==> old(self).a2.set_duty_fails(),
            r is Ok ==> final(self).a2.duty() == duty,
            r is Err ==> final(self).a2.duty() == old(self).a2.duty(),
    {
        self.a2.set_duty_cycle(duty)
    }

    /// Command the duty of output y2 as the fraction `num / denom` of the
    /// maximum, rounded toward zero.
    ///
    /// The shared enable pin is not touched.  Fails exactly when `a2`
    /// refuses the duty write.
    pub fn set_y2_duty_cycle_fraction(&mut self, num: u16, denom: u16) -> (r: Result<
        (),
        A2::Error,
    >)
        requires
            0 < denom,
            num <= denom,
        ensures
            final(self).a1 == old(self).a1,
            final(self).a3 == old(self).a3,
            final(self).a4 == old(self).a4,
            final(self).en12 == old(self).en12,
            final(self).en34 == old(self).en34,
            final(self).a2.max_duty() == old(self).a2.max_duty(),
            final(self).a2.set_duty_fails() == old(self).a2.set_duty_fails(),
            r is Err <==> old(self).a2.set_duty_fails(),
            r is Ok ==> final(self).a2.duty() == duty_fraction(
                old(self).a2.max_duty(),
                num,
                denom,
            ),
            r is Err ==> final(self).a2.duty() == old(self).a2.duty(),
    {
        self.a2.set_duty_cycle_fraction(num, denom)
    }

    /// Command the duty of output y2 as `percent / 100` of the maximum,
    /// rounded toward zero.
    ///
    /// The shared enable pin is not touched.  Fails exactly when `a2`
    /// refuses the duty write.
    pub fn set_y2_duty_cycle_percent(&mut self, percent: u8) -> (r: Result<(), A2::Error>)
        requires
            percent <= 100,
        ensures
            final(self).a1 == old(self).a1,
            final(self).a3 == old(self).a3,
            final(self).a4 == old(self).a4,
            final(self).en12 == old(self).en12,
            final(self).en34 == old(self).en34,
            final(self).a2.max_duty() == old(self).a2.max_duty(),
            final(self).a2.set_duty_fails() == old(self).a2.set_duty_fails(),
            r is Err <==> old(self).a2.set_duty_fails(),
            r is Ok ==> final(self).a2.duty() == duty_fraction(
                old(self).a2.max_duty(),
                percent as u16,
                100,
            ),
            r is Err ==> final(self).a2.duty() == old(self).a2.duty(),
    {
        self.a2.set_duty_cycle_percent(percent)
    }

    /// Command the maximum duty on output y2: fully on.
    ///
    /// The shared enable pin is not touched.  Fails exactly when `a2`
    /// refuses the duty write.
    pub fn set_y2_duty_cycle_fully_on(&mut self) -> (r: Result<(), A2::Error>)
        ensures
            final(self).a1 == old(self).a1,
            final(self).a3 == old(self).a3,
            final(self).a4 == old(self).a4,
            final(self).en12 == old(self).en12,
            final(self).en34 == old(self).en34,
            final(self).a2.max_duty() == old(self).a2.max_duty(),
            final(self).a2.set_duty_fails() == old(self).a2.set_duty_fails(),
            r is Err <==> old(self).a2.set_duty_fails(),
            r is Ok ==> final(self).a2.duty() == old(self).a2.max_duty(),
            r is Err ==> final(self).a2.duty() == old(self).a2.duty(),
    {
        self.a2.set_duty_cycle_fully_on()
    }

    /// Command duty zero on output y2: fully off.
    ///
    /// The shared enable pin is not touched.  Fails exactly when `a2`
    /// refuses the duty write.
    pub fn set_y2_duty_cycle_fully_off(&mut self) -> (r: Result<(), A2::Error>)
        ensures
            final(self).a1 == old(self).a1,
            final(self).a3 == old(self).a3,
            final(self).a4 == old(self).a4,
            final(self).en12 == old(self).en12,
            final(self).en34 == old(self).en34,
            final(self).a2.max_duty() == old(self).a2.max_duty(),
            final(self).a2.set_duty_fails() == old(self).a2.set_duty_fails(),
            r is Err <==> old(self).a2.set_duty_fails(),
            r is Ok ==> final(self).a2.duty() == 0,
            r is Err ==> final(self).a2.duty() == old(self).a2.duty(),
    {
        self.a2.set_duty_cycle_fully_off()
    }
}

impl<A1, A2, A3, A4, EN12, EN34> L293x<A1, A2, A3, A4, EN12, EN34> where A3: OutputPin {
    /// The logical state last commanded on input `a3`, which output y3
    /// mirrors while its pair is enabled.
    pub open spec fn y3_input(&self) -> PinState {
        self.a3.pin_state()
    }

    /// Set the input of output y3 high.
    ///
    /// The shared enable pin is not touched: the level appears on y3 only
    /// while the pair y3 and y4 is enabled (see [`enable_y3_and_y4`](Self::enable_y3_and_y4)).
    /// Writing while the pair is disabled lets both siblings be staged and
    /// then enabled together, avoiding transient currents.  Fails exactly
    /// when `a3` refuses the write.
    pub fn set_y3_high(&mut self) -> (r: Result<(), A3::Error>)
        ensures
            final(self).a1 == old(self).a1,
            final(self).a2 == old(self).a2,
            final(self).a4 == old(self).a4,
            final(self).en12 == old(self).en12,
            final(self).en34 == old(self).en34,
            final(self).a3.set_low_fails() == old(self).a3.set_low_fails(),
            final(self).a3.set_high_fails() == old(self).a3.set_high_fails(),
            r is Err <==> old(self).a3.set_high_fails(),
            r is Ok ==> final(self).y3_input() == PinState::High,
            r is Err ==> final(self).y3_input() == old(self).y3_input(),
            r is Ok ==> (final(self).a3.read_fails() ==> old(self).a3.read_fails()),
            r is Ok ==> (final(self).a3.toggle_fails() ==> old(self).a3.toggle_fails()),
    {
        self.a3.set_high()
    }

    /// Set the input of output y3 low.
    ///
    /// The shared enable pin is not touched: see
    /// [`set_y3_high`](Self::set_y3_high).  Fails exactly when `a3`
    /// refuses the write.
    pub fn set_y3_low(&mut self) -> (r: Result<(), A3::Error>)
        ensures
            final(self).a1 == old(self).a1,
            final(self).a2 == old(self).a2,
            final(self).a4 == old(self).a4,
            final(self).en12 == old(self).en12,
            final(self).en34 == old(self).en34,
            final(self).a3.set_low_fails() == old(self).a3.set_low_fails(),
            final(self).a3.set_high_fails() == old(self).a3.set_high_fails(),
            r is Err <==> old(self).a3.set_low_fails(),
            r is Ok ==> final(self).y3_input() == PinState::Low,
            r is Err ==> final(self).y3_input() == old(self).y3_input(),
            r is Ok ==> (final(self).a3.read_fails() ==> old(self).a3.read_fails()),
            r is Ok ==> (final(self).a3.toggle_fails() ==> old(self).a3.toggle_fails()),
    {
        self.a3.set_low()
    }

    /// Set the input of output y3 to `state`.
    ///
    /// The shared enable pin is not touched: see
    /// [`set_y3_high`](Self::set_y3_high).  Fails exactly when `a3`
    /// refuses the write.
    pub fn set_y3_state(&mut self, state: PinState) -> (r: Result<(), A3::Error>)
        ensures
            final(self).a1 == old(self).a1,
            final(self).a2 == old(self).a2,
            final(self).a4 == old(self).a4,
            final(self).en12 == old(self).en12,
            final(self).en34 == old(self).en34,
            final(self).a3.set_low_fails() == old(self).a3.set_low_fails(),
            final(self).a3.set_high_fails() == old(self).a3.set_high_fails(),
            r is Err <==> (if state == PinState::Low {
                old(self).a3.set_low_fails()
            } else {
                old(self).a3.set_high_fails()
            }),
            r is Ok ==> final(self).y3_input() == state,
            r is Err ==> final(self).y3_input() == old(self).y3_input(),
            r is Ok ==> (final(self).a3.read_fails() ==> old(self).a3.read_fails()),
            r is Ok ==> (final(self).a3.toggle_fails() ==> old(self).a3.toggle_fails()),
    {
        self.a3.set_state(state)
    }
}

impl<A1, A2, A3, A4, EN12, EN34> L293x<A1, A2, A3, A4, EN12, EN34> where
    A3: StatefulOutputPin,
    EN34: StatefulOutputPin,
 {
    /// Is output y3 driven high?
    ///
    /// Follows the bridge truth table: while the pair y3 and y4 is disabled
    /// the line floats, so the read refuses with
    /// [`OutputStateError::NotEnabled`] rather than report a level the line
    /// does not have.  Succeeds exactly when `en34` is readable, the pair
    /// is enabled, and `a3` is readable; nothing is modified.
    pub fn is_y3_set_high(&mut self) -> (r: Result<
        bool,
        OutputStateError<A3::Error, EN34::Error>,
    >)
        ensures
            *final(self) == *old(self),
            r matches Ok(b) ==> bridge_output(old(self).y3_input(), old(self).y3_enable()) == (
            if b {
                BridgeOutput::High
            } else {
                BridgeOutput::Low
            }),
            (r matches Err(OutputStateError::EnablePinError(_))) <==> old(self).en34.read_fails(),
            (r matches Err(OutputStateError::NotEnabled)) <==> (!old(self).en34.read_fails()
                && old(self).y3_enable() != PinState::High),
            (r matches Err(OutputStateError::InputPinError(_))) <==> (!old(self).en34.read_fails()
                && old(self).y3_enable() == PinState::High && old(self).a3.read_fails()),
            r is Ok <==> (!old(self).en34.read_fails() && old(self).y3_enable() == PinState::High
                && !old(self).a3.read_fails()),
    {
        match self.en34.is_set_high() {
            Err(e) => Err(OutputStateError::EnablePinError(e)),
            Ok(false) => Err(OutputStateError::NotEnabled),
            Ok(true) => match self.a3.is_set_high() {
                Err(e) => Err(OutputStateError::InputPinError(e)),
                Ok(b) => Ok(b),
            },
        }
    }

    /// Is output y3 driven low?
    ///
    /// Strict semantics, as for [`is_y3_set_high`](Self::is_y3_set_high).
    pub fn is_y3_set_low(&mut self) -> (r: Result<
        bool,
        OutputStateError<A3::Error, EN34::Error>,
    >)
        ensures
            *final(self) == *old(self),
            r matches Ok(b) ==> bridge_output(old(self).y3_input(), old(self).y3_enable()) == (
            if b {
                BridgeOutput::Low
            } else {
                BridgeOutput::High
            }),
            (r matches Err(OutputStateError::EnablePinError(_))) <==> old(self).en34.read_fails(),
            (r matches Err(OutputStateError::NotEnabled)) <==> (!old(self).en34.read_fails()
                && old(self).y3_enable() != PinState::High),
            (r matches Err(OutputStateError::InputPinError(_))) <==> (!old(self).en34.read_fails()
                && old(self).y3_enable() == PinState::High && old(self).a3.read_fails()),
            r is Ok <==> (!old(self).en34.read_fails() && old(self).y3_enable() == PinState::High
                && !old(self).a3.read_fails()),
    {
        match self.en34.is_set_high() {
            Err(e) => Err(OutputStateError::EnablePinError(e)),
            Ok(false) => Err(OutputStateError::NotEnabled),
            Ok(true) => match self.a3.is_set_low() {
                Err(e) => Err(OutputStateError::InputPinError(e)),
                Ok(b) => Ok(b),
            },
        }
    }

    /// Toggle the input of output y3.
    ///
    /// Refuses with [`OutputStateError::NotEnabled`] while the pair
    /// y3 and y4 is disabled: a floating line has no state to invert.  The
    /// enable pin itself is never changed.  Succeeds exactly when `en34`
    /// is readable, the pair is enabled, and `a3` can be toggled.
    pub fn toggle_y3(&mut self) -> (r: Result<
        (),
        OutputStateError<A3::Error, EN34::Error>,
    >)
        ensures
            final(self).a1 == old(self).a1,
            final(self).a2 == old(self).a2,
            final(self).a4 == old(self).a4,
            final(self).en12 == old(self).en12,
            final(self).en34 == old(self).en34,
            final(self).a3.set_low_fails() == old(self).a3.set_low_fails(),
            final(self).a3.set_high_fails() == old(self).a3.set_high_fails(),
            final(self).a3.read_fails() == old(self).a3.read_fails(),
            final(self).a3.toggle_fails() == old(self).a3.toggle_fails(),
            r is Ok ==> final(self).y3_input() == flipped(old(self).y3_input()),
            r is Err ==> final(self).y3_input() == old(self).y3_input(),
            (r matches Err(OutputStateError::EnablePinError(_))) <==> old(self).en34.read_fails(),
            (r matches Err(OutputStateError::NotEnabled)) <==> (!old(self).en34.read_fails()
                && old(self).y3_enable() != PinState::High),
            (r matches Err(OutputStateError::NotEnabled)) ==> final(self).a3 == old(self).a3,
            (r matches Err(OutputStateError::InputPinError(_))) <==> (!old(self).en34.read_fails()
                && old(self).y3_enable() == PinState::High && old(self).a3.toggle_fails()),
            r is Ok <==> (!old(self).en34.read_fails() && old(self).y3_enable() == PinState::High
                && !old(self).a3.toggle_fails()),
    {
        match self.en34.is_set_high() {
            Err(e) => Err(OutputStateError::EnablePinError(e)),
            Ok(false) => Err(OutputStateError::NotEnabled),
            Ok(true) => match self.a3.toggle() {
                Err(e) => Err(OutputStateError::InputPinError(e)),
                Ok(()) => Ok(()),
            },
        }
    }
}

impl<A1, A2, A3, A4, EN12, EN34> L293x<A1, A2, A3, A4, EN12, EN34> where A3: SetDutyCycle {
    /// The maximum duty value input `a3` accepts.
    pub fn y3_max_duty_cycle(&self) -> (r: u16)
        ensures
            r == self.a3.max_duty(),
    {
        self.a3.max_duty_cycle()
    }

    /// Command the duty value of output y3.
    ///
    /// The shared enable pin is not touched: the waveform appears on y3
    /// only while the pair y3 and y4 is enabled.  Fails exactly when `a3`
    /// refuses the duty write.
    pub fn set_y3_duty_cycle(&mut self, duty: u16) -> (r: Result<(), A3::Error>)
        requires
            duty <= old(self).a3.max_duty(),
        ensures
            final(self).a1 == old(self).a1,
            final(self).a2 == old(self).a2,
            final(self).a4 == old(self).a4,
            final(self).en12 == old(self).en12,
            final(self).en34 == old(self).en34,
            final(self).a3.max_duty() == old(self).a3.max_duty(),
            final(self).a3.set_duty_fails() == old(self).a3.set_duty_fails(),
            r is Err <==> old(self).a3.set_duty_fails(),
            r is Ok ==> final(self).a3.duty() == duty,
            r is Err ==> final(self).a3.duty() == old(self).a3.duty(),
    {
        self.a3.set_duty_cycle(duty)
    }

    /// Command the duty of output y3 as the fraction `num / denom` of the
    /// maximum, rounded toward zero.
    ///
    /// The shared enable pin is not touched.  Fails exactly when `a3`
    /// refuses the duty write.
    pub fn set_y3_duty_cycle_fraction(&mut self, num: u16, denom: u16) -> (r: Result<
        (),
        A3::Error,
    >)
        requires
            0 < denom,
            num <= denom,
        ensures
            final(self).a1 == old(self).a1,
            final(self).a2 == old(self).a2,
            final(self).a4 == old(self).a4,
            final(self).en12 == old(self).en12,
            final(self).en34 == old(self).en34,
            final(self).a3.max_duty() == old(self).a3.max_duty(),
            final(self).a3.set_duty_fails() == old(self).a3.set_duty_fails(),
            r is Err <==> old(self).a3.set_duty_fails(),
            r is Ok ==> final(self).a3.duty() == duty_fraction(
                old(self).a3.max_duty(),
                num,
                denom,
            ),
            r is Err ==> final(self).a3.duty() == old(self).a3.duty(),
    {
        self.a3.set_duty_cycle_fraction(num, denom)
    }

    /// Command the duty of output y3 as `percent / 100` of the maximum,
    /// rounded toward zero.
    ///
    /// The shared enable pin is not touched.  Fails exactly when `a3`
    /// refuses the duty write.
    pub fn set_y3_duty_cycle_percent(&mut self, percent: u8) -> (r: Result<(), A3::Error>)
        requires
            percent <= 100,
        ensures
            final(self).a1 == old(self).a1,
            final(self).a2 == old(self).a2,
            final(self).a4 == old(self).a4,
            final(self).en12 == old(self).en12,
            final(self).en34 == old(self).en34,
            final(self).a3.max_duty() == old(self).a3.max_duty(),
            final(self).a3.set_duty_fails() == old(self).a3.set_duty_fails(),
            r is Err <==> old(self).a3.set_duty_fails(),
            r is Ok ==> final(self).a3.duty() == duty_fraction(
                old(self).a3.max_duty(),
                percent as u16,
                100,
            ),
            r is Err ==> final(self).a3.duty() == old(self).a3.duty(),
    {
        self.a3.set_duty_cycle_percent(percent)
    }

    /// Command the maximum duty on output y3: fully on.
    ///
    /// The shared enable pin is not touched.  Fails exactly when `a3`
    /// refuses the duty write.
    pub fn set_y3_duty_cycle_fully_on(&mut self) -> (r: Result<(), A3::Error>)
        ensures
            final(self).a1 == old(self).a1,
            final(self).a2 == old(self).a2,
            final(self).a4 == old(self).a4,
            final(self).en12 == old(self).en12,
            final(self).en34 == old(self).en34,
            final(self).a3.max_duty() == old(self).a3.max_duty(),
            final(self).a3.set_duty_fails() == old(self).a3.set_duty_fails(),
            r is Err <==> old(self).a3.set_duty_fails(),
            r is Ok ==> final(self).a3.duty() == old(self).a3.max_duty(),
            r is Err ==> final(self).a3.duty() == old(self).a3.duty(),
    {
        self.a3.set_duty_cycle_fully_on()
    }

    /// Command duty zero on output y3: fully off.
    ///
    /// The shared enable pin is not touched.  Fails exactly when `a3`
    /// refuses the duty write.
    pub fn set_y3_duty_cycle_fully_off(&mut self) -> (r: Result<(), A3::Error>)
        ensures
            final(self).a1 == old(self).a1,
            final(self).a2 == old(self).a2,
            final(self).a4 == old(self).a4,
            final(self).en12 == old(self).en12,
            final(self).en34 == old(self).en34,
            final(self).a3.max_duty() == old(self).a3.max_duty(),
            final(self).a3.set_duty_fails() == old(self).a3.set_duty_fails(),
            r is Err <==> old(self).a3.set_duty_fails(),
            r is Ok ==> final(self).a3.duty() == 0,
            r is Err ==> final(self).a3.duty() == old(self).a3.duty(),
    {
        self.a3.set_duty_cycle_fully_off()
    }
}

impl<A1, A2, A3, A4, EN12, EN34> L293x<A1, A2, A3, A4, EN12, EN34> where A4: OutputPin {
    /// The logical state last commanded on input `a4`, which output y4
    /// mirrors while its pair is enabled.
    pub open spec fn y4_input(&self) -> PinState {
        self.a4.pin_state()
    }

    /// Set the input of output y4 high.
    ///
    /// The shared enable pin is not touched: the level appears on y4 only
    /// while the pair y3 and y4 is enabled (see [`enable_y3_and_y4`](Self::enable_y3_and_y4)).
    /// Writing while the pair is disabled lets both siblings be staged and
    /// then enabled together, avoiding transient currents.  Fails exactly
    /// when `a4` refuses the write.
    pub fn set_y4_high(&mut self) -> (r: Result<(), A4::Error>)
        ensures
            final(self).a1 == old(self).a1,
            final(self).a2 == old(self).a2,
            final(self).a3 == old(self).a3,
            final(self).en12 == old(self).en12,
            final(self).en34 == old(self).en34,
            final(self).a4.set_low_fails() == old(self).a4.set_low_fails(),
            final(self).a4.set_high_fails() == old(self).a4.set_high_fails(),
            r is Err <==> old(self).a4.set_high_fails(),
            r is Ok ==> final(self).y4_input() == PinState::High,
            r is Err ==> final(self).y4_input() == old(self).y4_input(),
            r is Ok ==> (final(self).a4.read_fails() ==> old(self).a4.read_fails()),
            r is Ok ==> (final(self).a4.toggle_fails() ==> old(self).a4.toggle_fails()),
    {
        self.a4.set_high()
    }

    /// Set the input of output y4 low.
    ///
    /// The shared enable pin is not touched: see
    /// [`set_y4_high`](Self::set_y4_high).  Fails exactly when `a4`
    /// refuses the write.
    pub fn set_y4_low(&mut self) -> (r: Result<(), A4::Error>)
        ensures
            final(self).a1 == old(self).a1,
            final(self).a2 == old(self).a2,
            final(self).a3 == old(self).a3,
            final(self).en12 == old(self).en12,
            final(self).en34 == old(self).en34,
            final(self).a4.set_low_fails() == old(self).a4.set_low_fails(),
            final(self).a4.set_high_fails() == old(self).a4.set_high_fails(),
            r is Err <==> old(self).a4.set_low_fails(),
            r is Ok ==> final(self).y4_input() == PinState::Low,
            r is Err ==> final(self).y4_input() == old(self).y4_input(),
            r is Ok ==> (final(self).a4.read_fails() ==> old(self).a4.read_fails()),
            r is Ok ==> (final(self).a4.toggle_fails() ==> old(self).a4.toggle_fails()),
    {
        self.a4.set_low()
    }

    /// Set the input of output y4 to `state`.
    ///
    /// The shared enable pin is not touched: see
    /// [`set_y4_high`](Self::set_y4_high).  Fails exactly when `a4`
    /// refuses the write.
    pub fn set_y4_state(&mut self, state: PinState) -> (r: Result<(), A4::Error>)
        ensures
            final(self).a1 == old(self).a1,
            final(self).a2 == old(self).a2,
            final(self).a3 == old(self).a3,
            final(self).en12 == old(self).en12,
            final(self).en34 == old(self).en34,
            final(self).a4.set_low_fails() == old(self).a4.set_low_fails(),
            final(self).a4.set_high_fails() == old(self).a4.set_high_fails(),
            r is Err <==> (if state == PinState::Low {
                old(self).a4.set_low_fails()
            } else {
                old(self).a4.set_high_fails()
            }),
            r is Ok ==> final(self).y4_input() == state,
            r is Err ==> final(self).y4_input() == old(self).y4_input(),
            r is Ok ==> (final(self).a4.read_fails() ==> old(self).a4.read_fails()),
            r is Ok ==> (final(self).a4.toggle_fails() ==> old(self).a4.toggle_fails()),
    {
        self.a4.set_state(state)
    }
}

impl<A1, A2, A3, A4, EN12, EN34> L293x<A1, A2, A3, A4, EN12, EN34> where
    A4: StatefulOutputPin,
    EN34: StatefulOutputPin,
 {
    /// Is output y4 driven high?
    ///
    /// Follows the bridge truth table: while the pair y3 and y4 is disabled
    /// the line floats, so the read refuses with
    /// [`OutputStateError::NotEnabled`] rather than report a level the line
    /// does not have.  Succeeds exactly when `en34` is readable, the pair
    /// is enabled, and `a4` is readable; nothing is modified.
    pub fn is_y4_set_high(&mut self) -> (r: Result<
        bool,
        OutputStateError<A4::Error, EN34::Error>,
    >)
        ensures
            *final(self) == *old(self),
            r matches Ok(b) ==> bridge_output(old(self).y4_input(), old(self).y4_enable()) == (
            if b {
                BridgeOutput::High
            } else {
                BridgeOutput::Low
            }),
            (r matches Err(OutputStateError::EnablePinError(_))) <==> old(self).en34.read_fails(),
            (r matches Err(OutputStateError::NotEnabled)) <==> (!old(self).en34.read_fails()
                && old(self).y4_enable() != PinState::High),
            (r matches Err(OutputStateError::InputPinError(_))) <==> (!old(self).en34.read_fails()
                && old(self).y4_enable() == PinState::High && old(self).a4.read_fails()),
            r is Ok <==> (!old(self).en34.read_fails() && old(self).y4_enable() == PinState::High
                && !old(self).a4.read_fails()),
    {
        match self.en34.is_set_high() {
            Err(e) => Err(OutputStateError::EnablePinError(e)),
            Ok(false) => Err(OutputStateError::NotEnabled),
            Ok(true) => match self.a4.is_set_high() {
                Err(e) => Err(OutputStateError::InputPinError(e)),
                Ok(b) => Ok(b),
            },
        }
    }

    /// Is output y4 driven low?
    ///
    /// Strict semantics, as for [`is_y4_set_high`](Self::is_y4_set_high).
    pub fn is_y4_set_low(&mut self) -> (r: Result<
        bool,
        OutputStateError<A4::Error, EN34::Error>,
    >)
        ensures
            *final(self) == *old(self),
            r matches Ok(b) ==> bridge_output(old(self).y4_input(), old(self).y4_enable()) == (
            if b {
                BridgeOutput::Low
            } else {
                BridgeOutput::High
            }),
            (r matches Err(OutputStateError::EnablePinError(_))) <==> old(self).en34.read_fails(),
            (r matches Err(OutputStateError::NotEnabled)) <==> (!old(self).en34.read_fails()
                && old(self).y4_enable() != PinState::High),
            (r matches Err(OutputStateError::InputPinError(_))) <==> (!old(self).en34.read_fails()
                && old(self).y4_enable() == PinState::High && old(self).a4.read_fails()),
            r is Ok <==> (!old(self).en34.read_fails() && old(self).y4_enable() == PinState::High
                && !old(self).a4.read_fails()),
    {
        match self.en34.is_set_high() {
            Err(e) => Err(OutputStateError::EnablePinError(e)),
            Ok(false) => Err(OutputStateError::NotEnabled),
            Ok(true) => match self.a4.is_set_low() {
                Err(e) => Err(OutputStateError::InputPinError(e)),
                Ok(b) => Ok(b),
            },
        }
    }

    /// Toggle the input of output y4.
    ///
    /// Refuses with [`OutputStateError::NotEnabled`] while the pair
    /// y3 and y4 is disabled: a floating line has no state to invert.  The
    /// enable pin itself is never changed.  Succeeds exactly when `en34`
    /// is readable, the pair is enabled, and `a4` can be toggled.
    pub fn toggle_y4(&mut self) -> (r: Result<
        (),
        OutputStateError<A4::Error, EN34::Error>,
    >)
        ensures
            final(self).a1 == old(self).a1,
            final(self).a2 == old(self).a2,
            final(self).a3 == old(self).a3,
            final(self).en12 == old(self).en12,
            final(self).en34 == old(self).en34,
            final(self).a4.set_low_fails() == old(self).a4.set_low_fails(),
            final(self).a4.set_high_fails() == old(self).a4.set_high_fails(),
            final(self).a4.read_fails() == old(self).a4.read_fails(),
            final(self).a4.toggle_fails() == old(self).a4.toggle_fails(),
            r is Ok ==> final(self).y4_input() == flipped(old(self).y4_input()),
            r is Err ==> final(self).y4_input() == old(self).y4_input(),
            (r matches Err(OutputStateError::EnablePinError(_))) <==> old(self).en34.read_fails(),
            (r matches Err(OutputStateError::NotEnabled)) <==> (!old(self).en34.read_fails()
                && old(self).y4_enable() != PinState::High),
            (r matches Err(OutputStateError::NotEnabled)) ==> final(self).a4 == old(self).a4,
            (r matches Err(OutputStateError::InputPinError(_))) <==> (!old(self).en34.read_fails()
                && old(self).y4_enable() == PinState::High && old(self).a4.toggle_fails()),
            r is Ok <==> (!old(self).en34.read_fails() && old(self).y4_enable() == PinState::High
                && !old(self).a4.toggle_fails()),
    {
        match self.en34.is_set_high() {
            Err(e) => Err(OutputStateError::EnablePinError(e)),
            Ok(false) => Err(OutputStateError::NotEnabled),
            Ok(true) => match self.a4.toggle() {
                Err(e) => Err(OutputStateError::InputPinError(e)),
                Ok(()) => Ok(()),
            },
        }
    }
}

impl<A1, A2, A3, A4, EN12, EN34> L293x<A1, A2, A3, A4, EN12, EN34> where A4: SetDutyCycle {
    /// The maximum duty value input `a4` accepts.
    pub fn y4_max_duty_cycle(&self) -> (r: u16)
        ensures
            r == self.a4.max_duty(),
    {
        self.a4.max_duty_cycle()
    }

    /// Command the duty value of output y4.
    ///
    /// The shared enable pin is not touched: the waveform appears on y4
    /// only while the pair y3 and y4 is enabled.  Fails exactly when `a4`
    /// refuses the duty write.
    pub fn set_y4_duty_cycle(&mut self, duty: u16) -> (r: Result<(), A4::Error>)
        requires
            duty <= old(self).a4.max_duty(),
        ensures
            final(self).a1 == old(self).a1,
            final(self).a2 == old(self).a2,
            final(self).a3 == old(self).a3,
            final(self).en12 == old(self).en12,
            final(self).en34 == old(self).en34,
            final(self).a4.max_duty() == old(self).a4.max_duty(),
            final(self).a4.set_duty_fails() == old(self).a4.set_duty_fails(),
            r is Err <==> old(self).a4.set_duty_fails(),
            r is Ok ==> final(self).a4.duty() == duty,
            r is Err ==> final(self).a4.duty() == old(self).a4.duty(),
    {
        self.a4.set_duty_cycle(duty)
    }

    /// Command the duty of output y4 as the fraction `num / denom` of the
    /// maximum, rounded toward zero.
    ///
    /// The shared enable pin is not touched.  Fails exactly when `a4`
    /// refuses the duty write.
    pub fn set_y4_duty_cycle_fraction(&mut self, num: u16, denom: u16) -> (r: Result<
        (),
        A4::Error,
    >)
        requires
            0 < denom,
            num <= denom,
        ensures
            final(self).a1 == old(self).a1,
            final(self).a2 == old(self).a2,
            final(self).a3 == old(self).a3,
            final(self).en12 == old(self).en12,
            final(self).en34 == old(self).en34,
            final(self).a4.max_duty() == old(self).a4.max_duty(),
            final(self).a4.set_duty_fails() == old(self).a4.set_duty_fails(),
            r is Err <==> old(self).a4.set_duty_fails(),
            r is Ok ==> final(self).a4.duty() == duty_fraction(
                old(self).a4.max_duty(),
                num,
                denom,
            ),
            r is Err ==> final(self).a4.duty() == old(self).a4.duty(),
    {
        self.a4.set_duty_cycle_fraction(num, denom)
    }

    /// Command the duty of output y4 as `percent / 100` of the maximum,
    /// rounded toward zero.
    ///
    /// The shared enable pin is not touched.  Fails exactly when `a4`
    /// refuses the duty write.
    pub fn set_y4_duty_cycle_percent(&mut self, percent: u8) -> (r: Result<(), A4::Error>)
        requires
            percent <= 100,
        ensures
            final(self).a1 == old(self).a1,
            final(self).a2 == old(self).a2,
            final(self).a3 == old(self).a3,
            final(self).en12 == old(self).en12,
            final(self).en34 == old(self).en34,
            final(self).a4.max_duty() == old(self).a4.max_duty(),
            final(self).a4.set_duty_fails() == old(self).a4.set_duty_fails(),
            r is Err <==> old(self).a4.set_duty_fails(),
            r is Ok ==> final(self).a4.duty() == duty_fraction(
                old(self).a4.max_duty(),
                percent as u16,
                100,
            ),
            r is Err ==> final(self).a4.duty() == old(self).a4.duty(),
    {
        self.a4.set_duty_cycle_percent(percent)
    }

    /// Command the maximum duty on output y4: fully on.
    ///
    /// The shared enable pin is not touched.  Fails exactly when `a4`
    /// refuses the duty write.
    pub fn set_y4_duty_cycle_fully_on(&mut self) -> (r: Result<(), A4::Error>)
        ensures
            final(self).a1 == old(self).a1,
            final(self).a2 == old(self).a2,
            final(self).a3 == old(self).a3,
            final(self).en12 == old(self).en12,
            final(self).en34 == old(self).en34,
            final(self).a4.max_duty() == old(self).a4.max_duty(),
            final(self).a4.set_duty_fails() == old(self).a4.set_duty_fails(),
            r is Err <==> old(self).a4.set_duty_fails(),
            r is Ok ==> final(self).a4.duty() == old(self).a4.max_duty(),
            r is Err ==> final(self).a4.duty() == old(self).a4.duty(),
    {
        self.a4.set_duty_cycle_fully_on()
    }

    /// Command duty zero on output y4: fully off.
    ///
    /// The shared enable pin is not touched.  Fails exactly when `a4`
    /// refuses the duty write.
    pub fn set_y4_duty_cycle_fully_off(&mut self) -> (r: Result<(), A4::Error>)
        ensures
            final(self).a1 == old(self).a1,
            final(self).a2 == old(self).a2,
            final(self).a3 == old(self).a3,
            final(self).en12 == old(self).en12,
            final(self).en34 == old(self).en34,
            final(self).a4.max_duty() == old(self).a4.max_duty(),
            final(self).a4.set_duty_fails() == old(self).a4.set_duty_fails(),
            r is Err <==> old(self).a4.set_duty_fails(),
            r is Ok ==> final(self).a4.duty() == 0,
            r is Err ==> final(self).a4.duty() == old(self).a4.duty(),
    {
        self.a4.set_duty_cycle_fully_off()
    }
}

/// Shared enable, by construction: the level gating y1 is the level gating
/// y2, and the level gating y3 is the level gating y4.  A write observed
/// through one sibling is therefore observed through the other in the same
/// step.
pub proof fn lemma_shared_enable<A1, A2, A3, A4, EN12, EN34>(
    chip: L293x<A1, A2, A3, A4, EN12, EN34>,
) where EN12: OutputPin, EN34: OutputPin
    ensures
        chip.y1_enable() == chip.y2_enable(),
        chip.y3_enable() == chip.y4_enable(),
{
}

} // verus!
