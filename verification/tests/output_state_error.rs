use l293x::hal::{Error, ErrorKind};
use l293x::mock::DigitalError;
use l293x::OutputStateError;

#[test]
fn check_output_state_error_kind() {
    let input_error: OutputStateError<DigitalError, DigitalError> =
        OutputStateError::InputPinError(DigitalError());
    assert_eq!(input_error.kind(), DigitalError().kind());

    let enable_error: OutputStateError<DigitalError, DigitalError> =
        OutputStateError::EnablePinError(DigitalError());
    assert_eq!(enable_error.kind(), DigitalError().kind());

    let not_enabled: OutputStateError<DigitalError, DigitalError> = OutputStateError::NotEnabled;
    assert_eq!(not_enabled.kind(), ErrorKind::Other);
}

#[test]
fn check_output_state_error_equality() {
    let i: OutputStateError<DigitalError, DigitalError> =
        OutputStateError::InputPinError(DigitalError());
    let e: OutputStateError<DigitalError, DigitalError> =
        OutputStateError::EnablePinError(DigitalError());
    let ne: OutputStateError<DigitalError, DigitalError> = OutputStateError::NotEnabled;

    assert_eq!(i, i);
    assert_eq!(e, e);
    assert_eq!(ne, ne);

    assert_ne!(e, i);
    assert_ne!(e, ne);
    assert_ne!(i, e);
    assert_ne!(i, ne);
    assert_ne!(ne, e);
    assert_ne!(ne, i);
}

#[test]
fn check_operation_not_supported_distinct() {
    let ns: OutputStateError<DigitalError, DigitalError> =
        OutputStateError::OperationNotSupported;
    let ne: OutputStateError<DigitalError, DigitalError> = OutputStateError::NotEnabled;

    assert_eq!(ns, ns);
    assert_ne!(ns, ne);
    assert_eq!(ns.kind(), ErrorKind::Other);
}
