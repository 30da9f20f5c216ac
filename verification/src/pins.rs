//! Rail pins: terminals hard-wired to the supply ([`Vcc`]) or to ground
//! ([`Gnd`]).
//!
//! A rail pin has a constant logical level and no underlying hardware pin.
//! It still offers the digital capabilities, so it can stand wherever the
//! driver expects a pin; the operations that would change its level refuse
//! with [`OperationNotSupported`], and its failure predicates are constants:
//! writes toward the rail's own level and reads always succeed, everything
//! else always fails.

use vstd::prelude::*;

use crate::hal::{Error, ErrorKind, OutputPin, PinState, StatefulOutputPin};

verus! {

/// Error returned by [`Vcc`] and [`Gnd`] when an operation would change the
/// level of a hard-wired terminal.
#[derive(Clone, Copy, Debug, PartialEq, Eq, Structural)]
pub struct OperationNotSupported();

impl Error for OperationNotSupported {
    open spec fn kind_spec(&self) -> ErrorKind {
        ErrorKind::Other
    }

    fn kind(&self) -> ErrorKind {
        ErrorKind::Other
    }
}

/// A terminal wired directly to the supply rail: always high.
#[derive(Clone, Copy, Debug)]
pub struct Vcc();

impl OutputPin for Vcc {
    type Error = OperationNotSupported;

    /// The supply rail is always high.
    open spec fn pin_state(&self) -> PinState {
        PinState::High
    }

    /// Driving the supply rail low always fails.
    open spec fn set_low_fails(&self) -> bool {
        true
    }

    /// Driving the supply rail high is a no-op and always succeeds.
    open spec fn set_high_fails(&self) -> bool {
        false
    }

    /// Reading the rail's constant level always succeeds.
    open spec fn read_fails(&self) -> bool {
        false
    }

    /// Toggling a constant level always fails.
    open spec fn toggle_fails(&self) -> bool {
        true
    }

    /// Refused: the supply rail cannot be driven low.
    fn set_low(&mut self) -> (r: Result<(), OperationNotSupported>)
        ensures
            r == Err::<(), OperationNotSupported>(OperationNotSupported()),
    {
        Err(OperationNotSupported())
    }

    /// A no-op: the supply rail is already high.
    fn set_high(&mut self) -> (r: Result<(), OperationNotSupported>)
        ensures
            r == Ok::<(), OperationNotSupported>(()),
    {
        Ok(())
    }
}

impl StatefulOutputPin for Vcc {
    /// Always `Ok(true)`.
    fn is_set_high(&mut self) -> (r: Result<bool, OperationNotSupported>)
        ensures
            r == Ok::<bool, OperationNotSupported>(true),
    {
        Ok(true)
    }

    /// Always `Ok(false)`.
    fn is_set_low(&mut self) -> (r: Result<bool, OperationNotSupported>)
        ensures
            r == Ok::<bool, OperationNotSupported>(false),
    {
        Ok(false)
    }

    /// Refused: the supply rail cannot change level.
    fn toggle(&mut self) -> (r: Result<(), OperationNotSupported>)
        ensures
            r == Err::<(), OperationNotSupported>(OperationNotSupported()),
    {
        Err(OperationNotSupported())
    }
}

/// A terminal wired directly to ground: always low.
#[derive(Clone, Copy, Debug)]
pub struct Gnd();

impl OutputPin for Gnd {
    type Error = OperationNotSupported;

    /// The ground rail is always low.
    open spec fn pin_state(&self) -> PinState {
        PinState::Low
    }

    /// Driving the ground rail low is a no-op and always succeeds.
    open spec fn set_low_fails(&self) -> bool {
        false
    }

    /// Driving the ground rail high always fails.
    open spec fn set_high_fails(&self) -> bool {
        true
    }

    /// Reading the rail's constant level always succeeds.
    open spec fn read_fails(&self) -> bool {
        false
    }

    /// Toggling a constant level always fails.
    open spec fn toggle_fails(&self) -> bool {
        true
    }

    /// A no-op: the ground rail is already low.
    fn set_low(&mut self) -> (r: Result<(), OperationNotSupported>)
        ensures
            r == Ok::<(), OperationNotSupported>(()),
    {
        Ok(())
    }

    /// Refused: the ground rail cannot be driven high.
    fn set_high(&mut self) -> (r: Result<(), OperationNotSupported>)
        ensures
            r == Err::<(), OperationNotSupported>(OperationNotSupported()),
    {
        Err(OperationNotSupported())
    }
}

impl StatefulOutputPin for Gnd {
    /// Always `Ok(false)`.
    fn is_set_high(&mut self) -> (r: Result<bool, OperationNotSupported>)
        ensures
            r == Ok::<bool, OperationNotSupported>(false),
    {
        Ok(false)
    }

    /// Always `Ok(true)`.
    fn is_set_low(&mut self) -> (r: Result<bool, OperationNotSupported>)
        ensures
            r == Ok::<bool, OperationNotSupported>(true),
    {
        Ok(true)
    }

    /// Refused: the ground rail cannot change level.
    fn toggle(&mut self) -> (r: Result<(), OperationNotSupported>)
        ensures
            r == Err::<(), OperationNotSupported>(OperationNotSupported()),
    {
        Err(OperationNotSupported())
    }
}

} // verus!
