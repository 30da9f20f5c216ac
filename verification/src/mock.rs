//! Mock pins for exercising the driver without hardware.
//!
//! [`DigitalPin`] models a stateful digital output, [`PwmPin`] a PWM output.
//! Both can be told to fail: after [`DigitalPin::fail`] or [`PwmPin::fail`]
//! every operation returns the pin's error and leaves its state unchanged,
//! which lets a test observe how the driver surfaces pin failures.

use vstd::prelude::*;

use crate::hal::{Error, ErrorKind, OutputPin, PinState, SetDutyCycle, StatefulOutputPin};

verus! {

/// The error a failing [`DigitalPin`] returns.
#[derive(Clone, Copy, Debug, PartialEq, Eq, Hash, Structural)]
pub struct DigitalError();

impl Error for DigitalError {
    open spec fn kind_spec(&self) -> ErrorKind {
        ErrorKind::Other
    }

    fn kind(&self) -> ErrorKind {
        ErrorKind::Other
    }
}

/// A mock stateful digital output pin.  Starts low; operations succeed
/// until [`fail`](DigitalPin::fail) is called and fail ever after.
#[derive(Debug)]
pub struct DigitalPin {
    /// The logical state last commanded: `true` for high.
    pub state: bool,
    /// Whether every operation fails from now on.
    pub should_fail: bool,
}

impl DigitalPin {
    /// A working pin, initially low.
    pub fn new() -> (r: Self)
        ensures
            r.state == false,
            r.should_fail == false,
    {
        Self { state: false, should_fail: false }
    }

    /// Make every later operation fail with [`DigitalError`].
    pub fn fail(&mut self)
        ensures
            final(self).state == old(self).state,
            final(self).should_fail == true,
    {
        self.should_fail = true
    }
}

impl OutputPin for DigitalPin {
    type Error = DigitalError;

    open spec fn pin_state(&self) -> PinState {
        if self.state {
            PinState::High
        } else {
            PinState::Low
        }
    }

    /// Every operation fails exactly when the fail flag is set.
    open spec fn set_low_fails(&self) -> bool {
        self.should_fail
    }

    open spec fn set_high_fails(&self) -> bool {
        self.should_fail
    }

    open spec fn read_fails(&self) -> bool {
        self.should_fail
    }

    open spec fn toggle_fails(&self) -> bool {
        self.should_fail
    }

    fn set_low(&mut self) -> (r: Result<(), DigitalError>)
        ensures
            final(self).should_fail == old(self).should_fail,
            old(self).should_fail ==> r == Err::<(), DigitalError>(DigitalError()) && *final(self)
                == *old(self),
            !old(self).should_fail ==> r == Ok::<(), DigitalError>(()) && final(self).state
                == false,
    {
        if self.should_fail {
            Err(DigitalError())
        } else {
            self.state = false;
            Ok(())
        }
    }

    fn set_high(&mut self) -> (r: Result<(), DigitalError>)
        ensures
            final(self).should_fail == old(self).should_fail,
            old(self).should_fail ==> r == Err::<(), DigitalError>(DigitalError()) && *final(self)
                == *old(self),
            !old(self).should_fail ==> r == Ok::<(), DigitalError>(()) && final(self).state
                == true,
    {
        if self.should_fail {
            Err(DigitalError())
        } else {
            self.state = true;
            Ok(())
        }
    }
}

impl StatefulOutputPin for DigitalPin {
    fn is_set_high(&mut self) -> (r: Result<bool, DigitalError>)
        ensures
            *final(self) == *old(self),
            old(self).should_fail ==> r == Err::<bool, DigitalError>(DigitalError()),
            !old(self).should_fail ==> r == Ok::<bool, DigitalError>(old(self).state),
    {
        if self.should_fail {
            Err(DigitalError())
        } else {
            Ok(self.state)
        }
    }

    fn is_set_low(&mut self) -> (r: Result<bool, DigitalError>)
        ensures
            *final(self) == *old(self),
            old(self).should_fail ==> r == Err::<bool, DigitalError>(DigitalError()),
            !old(self).should_fail ==> r == Ok::<bool, DigitalError>(!old(self).state),
    {
        if self.should_fail {
            Err(DigitalError())
        } else {
            Ok(!self.state)
        }
    }

    fn toggle(&mut self) -> (r: Result<(), DigitalError>)
        ensures
            final(self).should_fail == old(self).should_fail,
            old(self).should_fail ==> r == Err::<(), DigitalError>(DigitalError()) && *final(self)
                == *old(self),
            !old(self).should_fail ==> r == Ok::<(), DigitalError>(()) && final(self).state == !old(
                self,
            ).state,
    {
        if self.should_fail {
            Err(DigitalError())
        } else {
            self.state = !self.state;
            Ok(())
        }
    }
}

/// The error a failing [`PwmPin`] returns.
#[derive(Clone, Copy, Debug, PartialEq, Eq, Hash, Structural)]
pub struct PwmError();

impl Error for PwmError {
    open spec fn kind_spec(&self) -> ErrorKind {
        ErrorKind::Other
    }

    fn kind(&self) -> ErrorKind {
        ErrorKind::Other
    }
}

/// A mock PWM output pin with the full `u16` duty range.  Starts at duty
/// zero; operations succeed until [`fail`](PwmPin::fail) is called and fail
/// ever after.
#[derive(Debug)]
pub struct PwmPin {
    /// The duty value last commanded.
    pub duty_value: u16,
    /// Whether every operation fails from now on.
    pub should_fail: bool,
}

impl PwmPin {
    /// A working pin, initially at duty zero.
    pub fn new() -> (r: Self)
        ensures
            r.duty_value == 0,
            r.should_fail == false,
    {
        Self { duty_value: 0, should_fail: false }
    }

    /// The duty value last commanded.
    pub fn get_duty_cycle(&self) -> (r: u16)
        ensures
            r == self.duty_value,
    {
        self.duty_value
    }

    /// Make every later operation fail with [`PwmError`].
    pub fn fail(&mut self)
        ensures
            final(self).duty_value == old(self).duty_value,
            final(self).should_fail == true,
    {
        self.should_fail = true;
    }
}

impl SetDutyCycle for PwmPin {
    type Error = PwmError;

    open spec fn duty(&self) -> u16 {
        self.duty_value
    }

    open spec fn max_duty(&self) -> u16 {
        u16::MAX
    }

    /// A duty write fails exactly when the fail flag is set.
    open spec fn set_duty_fails(&self) -> bool {
        self.should_fail
    }

    fn max_duty_cycle(&self) -> u16 {
        u16::MAX
    }

    fn set_duty_cycle(&mut self, duty: u16) -> (r: Result<(), PwmError>)
        ensures
            final(self).should_fail == old(self).should_fail,
            old(self).should_fail ==> r == Err::<(), PwmError>(PwmError()) && *final(self)
                == *old(self),
            !old(self).should_fail ==> r == Ok::<(), PwmError>(()) && final(self).duty_value
                == duty,
    {
        if self.should_fail {
            Err(PwmError())
        } else {
            self.duty_value = duty;
            Ok(())
        }
    }
}

} // verus!
