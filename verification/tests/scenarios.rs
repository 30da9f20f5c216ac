use l293x::hal::{OutputPin, SetDutyCycle, StatefulOutputPin};
use l293x::mock::{DigitalError, DigitalPin, PwmPin};
use l293x::pins::{Gnd, OperationNotSupported, Vcc};
use l293x::{HalfH, L293x, OutputStateError};

fn digital_chip() -> L293x<DigitalPin, DigitalPin, DigitalPin, DigitalPin, DigitalPin, DigitalPin>
{
    L293x::new(
        DigitalPin::new(),
        DigitalPin::new(),
        DigitalPin::new(),
        DigitalPin::new(),
        DigitalPin::new(),
        DigitalPin::new(),
    )
}

#[test]
fn enable_disable_pair() {
    let mut chip = digital_chip();

    chip.enable_y1_and_y2().unwrap();
    assert!(chip.y1_and_y2_enabled().unwrap());
    assert!(!chip.y3_and_y4_enabled().unwrap());

    chip.disable_y1_and_y2().unwrap();
    assert!(!chip.y1_and_y2_enabled().unwrap());
}

#[test]
fn high_z_read_is_not_a_level() {
    let mut chip = digital_chip();

    chip.disable_y1_and_y2().unwrap();
    chip.set_y1_high().unwrap();

    // Not `false`, and not `true`: the read refuses.
    assert!(matches!(
        chip.is_y1_set_high(),
        Err(OutputStateError::NotEnabled)
    ));
}

#[test]
fn active_high_mirrors_input() {
    let mut chip = digital_chip();

    chip.enable_y1_and_y2().unwrap();
    chip.set_y1_high().unwrap();

    assert!(chip.is_y1_set_high().unwrap());
    assert!(!chip.is_y1_set_low().unwrap());
    // y2's input is still low; it shares only the enable with y1.
    assert!(!chip.is_y2_set_high().unwrap());
}

#[test]
fn pwm_scaling() {
    let mut chip = L293x::new(PwmPin::new(), (), (), (), DigitalPin::new(), ());
    assert_eq!(chip.y1_max_duty_cycle(), 0xFFFF);

    chip.set_y1_duty_cycle_fraction(1, 2).unwrap();
    assert_eq!(chip.a1.get_duty_cycle(), 0x7FFF);

    chip.set_y1_duty_cycle_percent(25).unwrap();
    assert_eq!(chip.a1.get_duty_cycle(), 0xFFFF / 4);
}

#[test]
fn rail_as_enable() {
    let mut chip = L293x::new(DigitalPin::new(), (), (), (), Vcc(), ());

    // Enabling is a no-op: the rail is already high.
    assert!(matches!(chip.enable_y1_and_y2(), Ok(())));
    // Disabling a supply-tied enable is impossible.
    assert!(matches!(
        chip.disable_y1_and_y2(),
        Err(OperationNotSupported(..))
    ));
    assert!(chip.y1_and_y2_enabled().unwrap());
}

#[test]
fn enable_failure_leaves_input_unchanged() {
    let mut bridge = HalfH::new(DigitalPin::new(), DigitalPin::new());
    bridge.enable.fail();

    let err = bridge.set_high().unwrap_err();
    assert_eq!(err, OutputStateError::EnablePinError(DigitalError()));
    // The auto-enabling write never reached the input pin.
    assert!(!bridge.input.state);
}

#[test]
fn bridge_truth_table() {
    let mut bridge = HalfH::new(DigitalPin::new(), DigitalPin::new());

    // input Low, enable Low => Z
    bridge.input.set_low().unwrap();
    bridge.disable().unwrap();
    assert!(matches!(
        bridge.is_set_high(),
        Err(OutputStateError::NotEnabled)
    ));
    assert!(matches!(
        bridge.is_set_low(),
        Err(OutputStateError::NotEnabled)
    ));

    // input High, enable Low => Z
    bridge.input.set_high().unwrap();
    assert!(matches!(
        bridge.is_set_high(),
        Err(OutputStateError::NotEnabled)
    ));

    // input Low, enable High => Low
    bridge.input.set_low().unwrap();
    bridge.enable().unwrap();
    assert!(!bridge.is_set_high().unwrap());
    assert!(bridge.is_set_low().unwrap());

    // input High, enable High => High
    bridge.input.set_high().unwrap();
    assert!(bridge.is_set_high().unwrap());
    assert!(!bridge.is_set_low().unwrap());
}

#[test]
fn pairs_are_independent() {
    let mut chip = digital_chip();

    chip.enable_y1_and_y2().unwrap();
    chip.set_y1_high().unwrap();
    chip.toggle_y2().unwrap();

    // Nothing on the 3/4 side moved.
    assert!(!chip.y3_and_y4_enabled().unwrap());
    assert!(!chip.a3.state);
    assert!(!chip.a4.state);

    chip.enable_y3_and_y4().unwrap();
    chip.disable_y1_and_y2().unwrap();
    assert!(chip.y3_and_y4_enabled().unwrap());
    assert!(!chip.is_y3_set_high().unwrap());
}

#[test]
fn cascaded_bridge_follows_outer_write() {
    let inner = HalfH::new(DigitalPin::new(), DigitalPin::new());
    let mut outer = L293x::new(inner, (), (), (), Vcc(), ());

    outer.set_y1_high().unwrap();
    // The write auto-enabled the inner bridge and set its input high.
    assert!(outer.a1.is_set_high().unwrap());
    assert!(outer.a1.is_enabled().unwrap());
}

#[test]
fn input_errors_keep_their_payload() {
    let mut chip = digital_chip();
    chip.enable_y1_and_y2().unwrap();
    chip.a1.fail();

    assert_eq!(
        chip.is_y1_set_high().unwrap_err(),
        OutputStateError::InputPinError(DigitalError())
    );
    assert_eq!(
        chip.toggle_y1().unwrap_err(),
        OutputStateError::InputPinError(DigitalError())
    );
}

#[test]
fn gnd_as_input() {
    let mut bridge = HalfH::new(Gnd(), DigitalPin::new());

    bridge.enable().unwrap();
    assert!(bridge.is_set_low().unwrap());
    assert!(!bridge.is_set_high().unwrap());
    // Driving a grounded input high is refused, tagged as the input's error.
    assert!(matches!(
        bridge.set_high(),
        Err(OutputStateError::InputPinError(OperationNotSupported(..)))
    ));
}

#[test]
fn duty_cycle_edges() {
    let mut bridge = HalfH::new(PwmPin::new(), Vcc());
    let max_duty = bridge.max_duty_cycle();

    bridge.set_duty_cycle_percent(0).unwrap();
    assert_eq!(bridge.input.get_duty_cycle(), 0);

    bridge.set_duty_cycle_percent(100).unwrap();
    assert_eq!(bridge.input.get_duty_cycle(), max_duty);

    bridge.set_duty_cycle_fraction(7, 7).unwrap();
    assert_eq!(bridge.input.get_duty_cycle(), max_duty);

    bridge.set_duty_cycle_fraction(1, 3).unwrap();
    assert_eq!(bridge.input.get_duty_cycle(), 0x5555);
}

#[test]
fn chip_duty_writes_leave_enable_alone() {
    let mut chip = L293x::new(PwmPin::new(), (), (), (), DigitalPin::new(), ());

    chip.set_y1_duty_cycle(1234).unwrap();
    assert_eq!(chip.a1.get_duty_cycle(), 1234);
    // Policy for chip-level writes: the pair enable is untouched.
    assert!(!chip.y1_and_y2_enabled().unwrap());
}

#[test]
fn bridge_duty_writes_auto_enable() {
    let mut bridge = HalfH::new(PwmPin::new(), DigitalPin::new());

    bridge.set_duty_cycle(42).unwrap();
    assert_eq!(bridge.input.get_duty_cycle(), 42);
    // Policy for the polymorphic bridge: writes raise the enable first.
    assert!(bridge.is_enabled().unwrap());
}
