//! The error surface of the driver.

use vstd::prelude::*;

use crate::hal::{Error, ErrorKind};

verus! {

use vstd::std_specs::cmp::PartialEqSpec;

/// Error returned by the bridge and chip operations.
///
/// The first two variants disambiguate which underlying pin failed and carry
/// that pin's own error for inspection.  The last two are refusals of the
/// driver itself: a stateful read or toggle of a disabled (high-impedance)
/// output, and an operation a hard-wired rail pin cannot perform.
#[derive(Debug)]
pub enum OutputStateError<I, E> {
    /// The underlying input pin failed; its error is carried unchanged.
    InputPinError(I),
    /// The underlying enable pin failed; its error is carried unchanged.
    EnablePinError(E),
    /// A stateful read or a toggle was issued while the bridge is disabled:
    /// a high-impedance line has no defined logical level.
    NotEnabled,
    /// The operation is not available on this terminal.
    OperationNotSupported,
}

impl<I: Error, E: Error> Error for OutputStateError<I, E> {
    /// The classification of the inner pin error where there is one,
    /// [`ErrorKind::Other`] for the driver's own refusals.
    open spec fn kind_spec(&self) -> ErrorKind {
        match self {
            OutputStateError::InputPinError(e) => e.kind_spec(),
            OutputStateError::EnablePinError(e) => e.kind_spec(),
            OutputStateError::NotEnabled => ErrorKind::Other,
            OutputStateError::OperationNotSupported => ErrorKind::Other,
        }
    }

    fn kind(&self) -> ErrorKind {
        match self {
            OutputStateError::InputPinError(e) => e.kind(),
            OutputStateError::EnablePinError(e) => e.kind(),
            OutputStateError::NotEnabled => ErrorKind::Other,
            OutputStateError::OperationNotSupported => ErrorKind::Other,
        }
    }
}

impl<I: PartialEq, E: PartialEq> PartialEq for OutputStateError<I, E> {
    /// Structural equality: same variant and equal payload.
    fn eq(&self, other: &Self) -> (r: bool) {
        match (self, other) {
            (OutputStateError::InputPinError(a), OutputStateError::InputPinError(b)) => a == b,
            (OutputStateError::EnablePinError(a), OutputStateError::EnablePinError(b)) => a == b,
            (OutputStateError::NotEnabled, OutputStateError::NotEnabled) => true,
            (
                OutputStateError::OperationNotSupported,
                OutputStateError::OperationNotSupported,
            ) => true,
            _ => false,
        }
    }
}

impl<I: PartialEq, E: PartialEq> vstd::std_specs::cmp::PartialEqSpecImpl for OutputStateError<I, E> {
    open spec fn obeys_eq_spec() -> bool {
        <I as PartialEqSpec>::obeys_eq_spec() && <E as PartialEqSpec>::obeys_eq_spec()
    }

    open spec fn eq_spec(&self, other: &Self) -> bool {
        match (self, other) {
            (OutputStateError::InputPinError(a), OutputStateError::InputPinError(b)) => {
                PartialEqSpec::eq_spec(a, b)
            },
            (OutputStateError::EnablePinError(a), OutputStateError::EnablePinError(b)) => {
                PartialEqSpec::eq_spec(a, b)
            },
            (OutputStateError::NotEnabled, OutputStateError::NotEnabled) => true,
            (
                OutputStateError::OperationNotSupported,
                OutputStateError::OperationNotSupported,
            ) => true,
            _ => false,
        }
    }
}

impl<I: Eq, E: Eq> Eq for OutputStateError<I, E> {

}

} // verus!
