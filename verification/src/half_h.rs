//! The half-H bridge.
//!
//! A [`HalfH`] pairs one input-capable pin with one enable-capable pin and
//! exposes the bridge truth table:
//!
//! | input | enable | output |
//! |:-----:|:------:|:------:|
//! | `L`   | `H`    | `L`    |
//! | `H`   | `H`    | `H`    |
//! | `X`   | `L`    | `Z`    |
//!
//! where `Z` is high impedance: the line is electrically disconnected and has
//! no defined logical level.  Stateful reads therefore refuse with
//! [`OutputStateError::NotEnabled`] while the bridge is disabled.
//!
//! A `HalfH` implements the same capability traits as its input pin, so it is
//! itself usable as the input of another bridge or chip (cascading).  Those
//! trait operations auto-enable the bridge before writing (they set the
//! enable pin high first, and refuse with
//! [`OutputStateError::EnablePinError`] without touching the input if that
//! fails).  The inherent [`enable`](HalfH::enable) / [`disable`](HalfH::disable)
//! methods control the enable pin alone.
//!
//! The bridge's failure predicates are the disjunctions of its pins': an
//! auto-enabling write fails exactly when raising the enable pin or writing
//! the input fails, and a stateful read fails exactly when the enable pin
//! cannot be read, the bridge is disabled, or the input cannot be read.  The
//! contracts below say, for each outcome, exactly when it occurs.

use vstd::prelude::*;

use crate::hal::{
    duty_fraction, flipped, lemma_duty_fraction_in_range, OutputPin, PinState, SetDutyCycle,
    StatefulOutputPin,
};
use crate::output_state_error::OutputStateError;

verus! {

/// What a half-H bridge drives its output to: a logical level, or nothing at
/// all (high impedance).
#[derive(Clone, Copy, Debug, PartialEq, Eq, Structural)]
pub enum BridgeOutput {
    /// Driven low.
    Low,
    /// Driven high.
    High,
    /// High impedance: disconnected, no defined logical level.
    HighZ,
}

/// The truth table of the half-H bridge: the output mirrors the input while
/// the bridge is enabled, and floats while it is disabled.
pub open spec fn bridge_output(input: PinState, enable: PinState) -> BridgeOutput {
    if enable == PinState::High {
        match input {
            PinState::Low => BridgeOutput::Low,
            PinState::High => BridgeOutput::High,
        }
    } else {
        BridgeOutput::HighZ
    }
}

/// The bridge truth table, row by row: a disabled bridge floats, an enabled
/// bridge mirrors its input.
pub proof fn lemma_bridge_truth(input: PinState, enable: PinState)
    ensures
        enable == PinState::Low ==> bridge_output(input, enable) == BridgeOutput::HighZ,
        enable == PinState::High && input == PinState::Low ==> bridge_output(input, enable)
            == BridgeOutput::Low,
        enable == PinState::High && input == PinState::High ==> bridge_output(input, enable)
            == BridgeOutput::High,
{
}

/// One half-H bridge: an input pin and an enable pin.
#[derive(Debug)]
pub struct HalfH<I, E> {
    /// The input pin: the logical level the bridge mirrors while enabled.
    pub input: I,
    /// The enable pin: high lets the bridge drive, low floats the output.
    pub enable: E,
}

impl<I, E> HalfH<I, E> where E: OutputPin {
    /// Pair `input` and `enable` into a bridge.  Neither pin is driven to a
    /// default level: the initial state is whatever the pins reflect.
    pub fn new(input: I, enable: E) -> (r: Self)
        ensures
            r.input == input,
            r.enable == enable,
    {
        Self { input, enable }
    }

    /// Enable the output: drive the enable pin high.  The output then
    /// mirrors the input pin.  The input pin is not touched.  Fails exactly
    /// when the enable pin refuses to go high.
    pub fn enable(&mut self) -> (r: Result<(), E::Error>)
        ensures
            final(self).input == old(self).input,
            final(self).enable.set_low_fails() == old(self).enable.set_low_fails(),
            final(self).enable.set_high_fails() == old(self).enable.set_high_fails(),
            r is Err <==> old(self).enable.set_high_fails(),
            r is Ok ==> final(self).enable.pin_state() == PinState::High,
            r is Err ==> final(self).enable.pin_state() == old(self).enable.pin_state(),
            r is Ok ==> (final(self).enable.read_fails() ==> old(self).enable.read_fails()),
    {
        self.enable.set_high()
    }

    /// Disable the output: drive the enable pin low.  The output floats
    /// (high impedance).  The input pin is not touched.  Fails exactly when
    /// the enable pin refuses to go low.
    pub fn disable(&mut self) -> (r: Result<(), E::Error>)
        ensures
            final(self).input == old(self).input,
            final(self).enable.set_low_fails() == old(self).enable.set_low_fails(),
            final(self).enable.set_high_fails() == old(self).enable.set_high_fails(),
            r is Err <==> old(self).enable.set_low_fails(),
            r is Ok ==> final(self).enable.pin_state() == PinState::Low,
            r is Err ==> final(self).enable.pin_state() == old(self).enable.pin_state(),
            r is Ok ==> (final(self).enable.read_fails() ==> old(self).enable.read_fails()),
    {
        self.enable.set_low()
    }
}

impl<I, E> HalfH<I, E> where E: StatefulOutputPin {
    /// Is the bridge enabled?  Reports the state last written to the enable
    /// pin, never the electrical level of the line.  Fails exactly when the
    /// enable pin cannot be read.
    pub fn is_enabled(&mut self) -> (r: Result<bool, E::Error>)
        ensures
            *final(self) == *old(self),
            r is Err <==> old(self).enable.read_fails(),
            r matches Ok(b) ==> b == (old(self).enable.pin_state() == PinState::High),
    {
        self.enable.is_set_high()
    }

    /// Is the bridge disabled?  Reports the state last written to the enable
    /// pin, never the electrical level of the line.  Fails exactly when the
    /// enable pin cannot be read.
    pub fn is_disabled(&mut self) -> (r: Result<bool, E::Error>)
        ensures
            *final(self) == *old(self),
            r is Err <==> old(self).enable.read_fails(),
            r matches Ok(b) ==> b == (old(self).enable.pin_state() == PinState::Low),
    {
        self.enable.is_set_low()
    }
}

impl<I, E> OutputPin for HalfH<I, E> where I: OutputPin, E: OutputPin {
    type Error = OutputStateError<I::Error, E::Error>;

    /// As a pin, the bridge models the logical state of its input.
    open spec fn pin_state(&self) -> PinState {
        self.input.pin_state()
    }

    /// An auto-enabling low write fails exactly when raising the enable pin
    /// or driving the input low fails.
    open spec fn set_low_fails(&self) -> bool {
        self.enable.set_high_fails() || self.input.set_low_fails()
    }

    /// An auto-enabling high write fails exactly when raising the enable pin
    /// or driving the input high fails.
    open spec fn set_high_fails(&self) -> bool {
        self.enable.set_high_fails() || self.input.set_high_fails()
    }

    /// A stateful read fails exactly when the enable pin cannot be read, the
    /// bridge is disabled (the output floats), or the input cannot be read.
    open spec fn read_fails(&self) -> bool {
        self.enable.read_fails() || self.enable.pin_state() != PinState::High
            || self.input.read_fails()
    }

    /// A toggle fails exactly when the enable pin cannot be read, the bridge
    /// is disabled, or the input cannot be toggled.
    open spec fn toggle_fails(&self) -> bool {
        self.enable.read_fails() || self.enable.pin_state() != PinState::High
            || self.input.toggle_fails()
    }

    /// Drive the output low, auto-enabling the bridge first.  If raising the
    /// enable pin fails, the input pin is left untouched.
    fn set_low(&mut self) -> (r: Result<(), OutputStateError<I::Error, E::Error>>)
        ensures
            final(self).set_low_fails() == old(self).set_low_fails(),
            final(self).set_high_fails() == old(self).set_high_fails(),
            r is Err <==> old(self).set_low_fails(),
            r is Ok ==> final(self).input.pin_state() == PinState::Low
                && final(self).enable.pin_state() == PinState::High,
            r is Err ==> final(self).input.pin_state() == old(self).input.pin_state(),
            r is Ok ==> (final(self).read_fails() ==> old(self).read_fails()),
            r is Ok ==> (final(self).toggle_fails() ==> old(self).toggle_fails()),
            (r matches Err(OutputStateError::EnablePinError(_))) <==> old(
                self,
            ).enable.set_high_fails(),
            (r matches Err(OutputStateError::InputPinError(_))) <==> (!old(
                self,
            ).enable.set_high_fails() && old(self).input.set_low_fails()),
            (r matches Err(OutputStateError::EnablePinError(_))) ==> final(self).enable.pin_state()
                == old(self).enable.pin_state() && final(self).input == old(self).input,
            (r matches Err(OutputStateError::InputPinError(_))) ==> final(self).enable.pin_state()
                == PinState::High,
    {
        match self.enable.set_high() {
            Err(e) => Err(OutputStateError::EnablePinError(e)),
            Ok(()) => match self.input.set_low() {
                Err(e) => Err(OutputStateError::InputPinError(e)),
                Ok(()) => Ok(()),
            },
        }
    }

    /// Drive the output high, auto-enabling the bridge first.  If raising
    /// the enable pin fails, the input pin is left untouched.
    fn set_high(&mut self) -> (r: Result<(), OutputStateError<I::Error, E::Error>>)
        ensures
            final(self).set_low_fails() == old(self).set_low_fails(),
            final(self).set_high_fails() == old(self).set_high_fails(),
            r is Err <==> old(self).set_high_fails(),
            r is Ok ==> final(self).input.pin_state() == PinState::High
                && final(self).enable.pin_state() == PinState::High,
            r is Err ==> final(self).input.pin_state() == old(self).input.pin_state(),
            r is Ok ==> (final(self).read_fails() ==> old(self).read_fails()),
            r is Ok ==> (final(self).toggle_fails() ==> old(self).toggle_fails()),
            (r matches Err(OutputStateError::EnablePinError(_))) <==> old(
                self,
            ).enable.set_high_fails(),
            (r matches Err(OutputStateError::InputPinError(_))) <==> (!old(
                self,
            ).enable.set_high_fails() && old(self).input.set_high_fails()),
            (r matches Err(OutputStateError::EnablePinError(_))) ==> final(self).enable.pin_state()
                == old(self).enable.pin_state() && final(self).input == old(self).input,
            (r matches Err(OutputStateError::InputPinError(_))) ==> final(self).enable.pin_state()
                == PinState::High,
    {
        match self.enable.set_high() {
            Err(e) => Err(OutputStateError::EnablePinError(e)),
            Ok(()) => match self.input.set_high() {
                Err(e) => Err(OutputStateError::InputPinError(e)),
                Ok(()) => Ok(()),
            },
        }
    }

    /// Drive the output to `state`, auto-enabling the bridge first.  If
    /// raising the enable pin fails, the input pin is left untouched.
    fn set_state(&mut self, state: PinState) -> (r: Result<
        (),
        OutputStateError<I::Error, E::Error>,
    >)
        ensures
            final(self).set_low_fails() == old(self).set_low_fails(),
            final(self).set_high_fails() == old(self).set_high_fails(),
            r is Err <==> (if state == PinState::Low {
                old(self).set_low_fails()
            } else {
                old(self).set_high_fails()
            }),
            r is Ok ==> final(self).input.pin_state() == state && final(self).enable.pin_state()
                == PinState::High,
            r is Err ==> final(self).input.pin_state() == old(self).input.pin_state(),
            r is Ok ==> (final(self).read_fails() ==> old(self).read_fails()),
            r is Ok ==> (final(self).toggle_fails() ==> old(self).toggle_fails()),
            (r matches Err(OutputStateError::EnablePinError(_))) <==> old(
                self,
            ).enable.set_high_fails(),
            (r matches Err(OutputStateError::InputPinError(_))) <==> (!old(
                self,
            ).enable.set_high_fails() && (if state == PinState::Low {
                old(self).input.set_low_fails()
            } else {
                old(self).input.set_high_fails()
            })),
            (r matches Err(OutputStateError::EnablePinError(_))) ==> final(self).enable.pin_state()
                == old(self).enable.pin_state() && final(self).input == old(self).input,
            (r matches Err(OutputStateError::InputPinError(_))) ==> final(self).enable.pin_state()
                == PinState::High,
    {
        match state {
            PinState::Low => self.set_low(),
            PinState::High => self.set_high(),
        }
    }
}

impl<I, E> StatefulOutputPin for HalfH<I, E> where
    I: StatefulOutputPin,
    E: StatefulOutputPin,
 {
    /// Is the output driven high?  Strict semantics: a disabled bridge has a
    /// floating output, so the read refuses with `NotEnabled` rather than
    /// report a level the line does not have.
    fn is_set_high(&mut self) -> (r: Result<bool, OutputStateError<I::Error, E::Error>>)
        ensures
            *final(self) == *old(self),
            r is Err <==> old(self).read_fails(),
            r matches Ok(b) ==> bridge_output(old(self).input.pin_state(), old(self).enable.pin_state())
                == (if b { BridgeOutput::High } else { BridgeOutput::Low }),
            (r matches Err(OutputStateError::EnablePinError(_))) <==> old(self).enable.read_fails(),
            (r matches Err(OutputStateError::NotEnabled)) <==> (!old(self).enable.read_fails()
                && old(self).enable.pin_state() != PinState::High),
            (r matches Err(OutputStateError::InputPinError(_))) <==> (!old(self).enable.read_fails()
                && old(self).enable.pin_state() == PinState::High && old(self).input.read_fails()),
            r is Ok <==> (!old(self).enable.read_fails() && old(self).enable.pin_state()
                == PinState::High && !old(self).input.read_fails()),
    {
        match self.enable.is_set_high() {
            Err(e) => Err(OutputStateError::EnablePinError(e)),
            Ok(false) => Err(OutputStateError::NotEnabled),
            Ok(true) => match self.input.is_set_high() {
                Err(e) => Err(OutputStateError::InputPinError(e)),
                Ok(b) => Ok(b),
            },
        }
    }

    /// Is the output driven low?  Strict semantics, as for
    /// [`is_set_high`](HalfH::is_set_high).
    fn is_set_low(&mut self) -> (r: Result<bool, OutputStateError<I::Error, E::Error>>)
        ensures
            *final(self) == *old(self),
            r is Err <==> old(self).read_fails(),
            r matches Ok(b) ==> bridge_output(old(self).input.pin_state(), old(self).enable.pin_state())
                == (if b { BridgeOutput::Low } else { BridgeOutput::High }),
            (r matches Err(OutputStateError::EnablePinError(_))) <==> old(self).enable.read_fails(),
            (r matches Err(OutputStateError::NotEnabled)) <==> (!old(self).enable.read_fails()
                && old(self).enable.pin_state() != PinState::High),
            (r matches Err(OutputStateError::InputPinError(_))) <==> (!old(self).enable.read_fails()
                && old(self).enable.pin_state() == PinState::High && old(self).input.read_fails()),
            r is Ok <==> (!old(self).enable.read_fails() && old(self).enable.pin_state()
                == PinState::High && !old(self).input.read_fails()),
    {
        match self.enable.is_set_high() {
            Err(e) => Err(OutputStateError::EnablePinError(e)),
            Ok(false) => Err(OutputStateError::NotEnabled),
            Ok(true) => match self.input.is_set_low() {
                Err(e) => Err(OutputStateError::InputPinError(e)),
                Ok(b) => Ok(b),
            },
        }
    }

    /// Invert the input's logical state.  Refuses with `NotEnabled` while
    /// the bridge is disabled: a floating output cannot be toggled.
    fn toggle(&mut self) -> (r: Result<(), OutputStateError<I::Error, E::Error>>)
        ensures
            final(self).enable == old(self).enable,
            final(self).set_low_fails() == old(self).set_low_fails(),
            final(self).set_high_fails() == old(self).set_high_fails(),
            final(self).read_fails() == old(self).read_fails(),
            final(self).toggle_fails() == old(self).toggle_fails(),
            r is Err <==> old(self).toggle_fails(),
            r is Ok ==> final(self).input.pin_state() == flipped(old(self).input.pin_state()),
            r is Err ==> final(self).input.pin_state() == old(self).input.pin_state(),
            (r matches Err(OutputStateError::EnablePinError(_))) <==> old(self).enable.read_fails(),
            (r matches Err(OutputStateError::NotEnabled)) <==> (!old(self).enable.read_fails()
                && old(self).enable.pin_state() != PinState::High),
            (r matches Err(OutputStateError::InputPinError(_))) <==> (!old(self).enable.read_fails()
                && old(self).enable.pin_state() == PinState::High && old(
                self,
            ).input.toggle_fails()),
            r is Ok <==> (!old(self).enable.read_fails() && old(self).enable.pin_state()
                == PinState::High && !old(self).input.toggle_fails()),
            (r matches Err(OutputStateError::NotEnabled)) ==> final(self).input == old(self).input,
    {
        match self.enable.is_set_high() {
            Err(e) => Err(OutputStateError::EnablePinError(e)),
            Ok(false) => Err(OutputStateError::NotEnabled),
            Ok(true) => match self.input.toggle() {
                Err(e) => Err(OutputStateError::InputPinError(e)),
                Ok(()) => Ok(()),
            },
        }
    }
}

impl<I, E> SetDutyCycle for HalfH<I, E> where I: SetDutyCycle, E: OutputPin {
    type Error = OutputStateError<I::Error, E::Error>;

    /// As a PWM pin, the bridge models the duty of its input.
    open spec fn duty(&self) -> u16 {
        self.input.duty()
    }

    /// The maximum duty is the input pin's.
    open spec fn max_duty(&self) -> u16 {
        self.input.max_duty()
    }

    /// An auto-enabling duty write fails exactly when raising the enable
    /// pin or writing the input's duty fails.
    open spec fn set_duty_fails(&self) -> bool {
        self.enable.set_high_fails() || self.input.set_duty_fails()
    }

    fn max_duty_cycle(&self) -> u16 {
        self.input.max_duty_cycle()
    }

    /// Command the duty value `duty`, auto-enabling the bridge first.  If
    /// raising the enable pin fails, the input pin is left untouched.
    fn set_duty_cycle(&mut self, duty: u16) -> (r: Result<
        (),
        OutputStateError<I::Error, E::Error>,
    >)
        ensures
            final(self).max_duty() == old(self).max_duty(),
            final(self).set_duty_fails() == old(self).set_duty_fails(),
            r is Err <==> old(self).set_duty_fails(),
            r is Ok ==> final(self).input.duty() == duty && final(self).enable.pin_state()
                == PinState::High,
            r is Err ==> final(self).input.duty() == old(self).input.duty(),
            (r matches Err(OutputStateError::EnablePinError(_))) <==> old(
                self,
            ).enable.set_high_fails(),
            (r matches Err(OutputStateError::InputPinError(_))) <==> (!old(
                self,
            ).enable.set_high_fails() && old(self).input.set_duty_fails()),
            (r matches Err(OutputStateError::EnablePinError(_))) ==> final(self).enable.pin_state()
                == old(self).enable.pin_state() && final(self).input == old(self).input,
            (r matches Err(OutputStateError::InputPinError(_))) ==> final(self).enable.pin_state()
                == PinState::High,
    {
        match self.enable.set_high() {
            Err(e) => Err(OutputStateError::EnablePinError(e)),
            Ok(()) => match self.input.set_duty_cycle(duty) {
                Err(e) => Err(OutputStateError::InputPinError(e)),
                Ok(()) => Ok(()),
            },
        }
    }

    /// Command the duty `num / denom` of the maximum, rounded toward zero,
    /// auto-enabling the bridge first.
    fn set_duty_cycle_fraction(&mut self, num: u16, denom: u16) -> (r: Result<
        (),
        OutputStateError<I::Error, E::Error>,
    >)
        ensures
            final(self).max_duty() == old(self).max_duty(),
            final(self).set_duty_fails() == old(self).set_duty_fails(),
            r is Err <==> old(self).set_duty_fails(),
            r is Ok ==> final(self).input.duty() == duty_fraction(old(self).max_duty(), num, denom)
                && final(self).enable.pin_state() == PinState::High,
            r is Err ==> final(self).input.duty() == old(self).input.duty(),
            (r matches Err(OutputStateError::EnablePinError(_))) <==> old(
                self,
            ).enable.set_high_fails(),
            (r matches Err(OutputStateError::InputPinError(_))) <==> (!old(
                self,
            ).enable.set_high_fails() && old(self).input.set_duty_fails()),
            (r matches Err(OutputStateError::EnablePinError(_))) ==> final(self).enable.pin_state()
                == old(self).enable.pin_state() && final(self).input == old(self).input,
            (r matches Err(OutputStateError::InputPinError(_))) ==> final(self).enable.pin_state()
                == PinState::High,
    {
        let max = self.max_duty_cycle();
        proof {
            lemma_duty_fraction_in_range(max, num, denom);
            vstd::arithmetic::mul::lemma_mul_upper_bound(
                num as int,
                u16::MAX as int,
                max as int,
                u16::MAX as int,
            );
        }
        let duty: u16 = ((num as u32) * (max as u32) / (denom as u32)) as u16;
        self.set_duty_cycle(duty)
    }

    /// Command the duty `percent / 100` of the maximum, rounded toward
    /// zero, auto-enabling the bridge first.
    fn set_duty_cycle_percent(&mut self, percent: u8) -> (r: Result<
        (),
        OutputStateError<I::Error, E::Error>,
    >)
        ensures
            final(self).max_duty() == old(self).max_duty(),
            final(self).set_duty_fails() == old(self).set_duty_fails(),
            r is Err <==> old(self).set_duty_fails(),
            r is Ok ==> final(self).input.duty() == duty_fraction(
                old(self).max_duty(),
                percent as u16,
                100,
            ) && final(self).enable.pin_state() == PinState::High,
            r is Err ==> final(self).input.duty() == old(self).input.duty(),
            (r matches Err(OutputStateError::EnablePinError(_))) <==> old(
                self,
            ).enable.set_high_fails(),
            (r matches Err(OutputStateError::InputPinError(_))) <==> (!old(
                self,
            ).enable.set_high_fails() && old(self).input.set_duty_fails()),
            (r matches Err(OutputStateError::EnablePinError(_))) ==> final(self).enable.pin_state()
                == old(self).enable.pin_state() && final(self).input == old(self).input,
            (r matches Err(OutputStateError::InputPinError(_))) ==> final(self).enable.pin_state()
                == PinState::High,
    {
        self.set_duty_cycle_fraction(percent as u16, 100)
    }

    /// Command the maximum duty (fully on), auto-enabling the bridge first.
    fn set_duty_cycle_fully_on(&mut self) -> (r: Result<
        (),
        OutputStateError<I::Error, E::Error>,
    >)
        ensures
            final(self).max_duty() == old(self).max_duty(),
            final(self).set_duty_fails() == old(self).set_duty_fails(),
            r is Err <==> old(self).set_duty_fails(),
            r is Ok ==> final(self).input.duty() == old(self).max_duty() && final(self).enable.pin_state() == PinState::High,
            r is Err ==> final(self).input.duty() == old(self).input.duty(),
            (r matches Err(OutputStateError::EnablePinError(_))) <==> old(
                self,
            ).enable.set_high_fails(),
            (r matches Err(OutputStateError::InputPinError(_))) <==> (!old(
                self,
            ).enable.set_high_fails() && old(self).input.set_duty_fails()),
            (r matches Err(OutputStateError::EnablePinError(_))) ==> final(self).enable.pin_state()
                == old(self).enable.pin_state() && final(self).input == old(self).input,
            (r matches Err(OutputStateError::InputPinError(_))) ==> final(self).enable.pin_state()
                == PinState::High,
    {
        let max = self.max_duty_cycle();
        self.set_duty_cycle(max)
    }

    /// Command duty zero (fully off), auto-enabling the bridge first.
    fn set_duty_cycle_fully_off(&mut self) -> (r: Result<
        (),
        OutputStateError<I::Error, E::Error>,
    >)
        ensures
            final(self).max_duty() == old(self).max_duty(),
            final(self).set_duty_fails() == old(self).set_duty_fails(),
            r is Err <==> old(self).set_duty_fails(),
            r is Ok ==> final(self).input.duty() == 0 && final(self).enable.pin_state()
                == PinState::High,
            r is Err ==> final(self).input.duty() == old(self).input.duty(),
            (r matches Err(OutputStateError::EnablePinError(_))) <==> old(
                self,
            ).enable.set_high_fails(),
            (r matches Err(OutputStateError::InputPinError(_))) <==> (!old(
                self,
            ).enable.set_high_fails() && old(self).input.set_duty_fails()),
            (r matches Err(OutputStateError::EnablePinError(_))) ==> final(self).enable.pin_state()
                == old(self).enable.pin_state() && final(self).input == old(self).input,
            (r matches Err(OutputStateError::InputPinError(_))) ==> final(self).enable.pin_state()
                == PinState::High,
    {
        self.set_duty_cycle(0)
    }
}

/// The outputs of a bridge whose input pin is itself a bridge follow the
/// inner input: once both stages drive a high input (as a successful
/// auto-enabling write leaves them), the inner bridge drives high.
pub proof fn lemma_cascade_mirrors_inner<I, E>(h: HalfH<I, E>)
    where I: StatefulOutputPin, E: StatefulOutputPin
    requires
        h.input.pin_state() == PinState::High,
        h.enable.pin_state() == PinState::High,
    ensures
        bridge_output(h.input.pin_state(), h.enable.pin_state()) == BridgeOutput::High,
{
}

} // verus!
