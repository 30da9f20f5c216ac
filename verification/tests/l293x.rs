use l293x::hal::{PinState, StatefulOutputPin};
use l293x::mock::{DigitalError, DigitalPin, PwmPin};
use l293x::pins::Vcc;
use l293x::{HalfH, L293x, OutputStateError};

fn digital_chip() -> L293x<DigitalPin, DigitalPin, DigitalPin, DigitalPin, DigitalPin, DigitalPin>
{
    L293x::new(
        DigitalPin::new(),
        DigitalPin::new(),
        DigitalPin::new(),
        DigitalPin::new(),
        DigitalPin::new(),
        DigitalPin::new(),
    )
}

fn pwm_chip() -> L293x<PwmPin, PwmPin, PwmPin, PwmPin, DigitalPin, DigitalPin> {
    L293x::new(
        PwmPin::new(),
        PwmPin::new(),
        PwmPin::new(),
        PwmPin::new(),
        DigitalPin::new(),
        DigitalPin::new(),
    )
}

#[test]
fn test_enable12() {
    let mut l293x = digital_chip();

    l293x.enable_y1_and_y2().unwrap();
    assert!(l293x.y1_and_y2_enabled().unwrap());
    assert!(!l293x.y1_and_y2_disabled().unwrap());

    l293x.disable_y1_and_y2().unwrap();
    assert!(!l293x.y1_and_y2_enabled().unwrap());
    assert!(l293x.y1_and_y2_disabled().unwrap());
}

#[test]
fn test_enable34() {
    let mut l293x = digital_chip();

    l293x.enable_y3_and_y4().unwrap();
    assert!(l293x.y3_and_y4_enabled().unwrap());
    assert!(!l293x.y3_and_y4_disabled().unwrap());

    l293x.disable_y3_and_y4().unwrap();
    assert!(!l293x.y3_and_y4_enabled().unwrap());
    assert!(l293x.y3_and_y4_disabled().unwrap());
}

#[test]
fn test_enable12_fail() {
    let mut l293x = digital_chip();
    l293x.en12.fail();
    assert!(matches!(
        l293x.is_y1_set_high().unwrap_err(),
        OutputStateError::EnablePinError(..)
    ));
    assert!(matches!(
        l293x.is_y2_set_high().unwrap_err(),
        OutputStateError::EnablePinError(..)
    ));
    assert!(matches!(
        l293x.is_y1_set_low().unwrap_err(),
        OutputStateError::EnablePinError(..)
    ));
    assert!(matches!(
        l293x.is_y2_set_low().unwrap_err(),
        OutputStateError::EnablePinError(..)
    ));
}

#[test]
fn test_enable34_fail() {
    let mut l293x = digital_chip();
    l293x.en34.fail();
    assert!(matches!(
        l293x.is_y3_set_high().unwrap_err(),
        OutputStateError::EnablePinError(..)
    ));
    assert!(matches!(
        l293x.is_y4_set_high().unwrap_err(),
        OutputStateError::EnablePinError(..)
    ));
    assert!(matches!(
        l293x.is_y3_set_low().unwrap_err(),
        OutputStateError::EnablePinError(..)
    ));
    assert!(matches!(
        l293x.is_y4_set_low().unwrap_err(),
        OutputStateError::EnablePinError(..)
    ));
}

#[test]
fn test_y1() {
    let mut l293x = digital_chip();

    // LOW, LOW => Z
    l293x.set_y1_low().unwrap();
    l293x.disable_y1_and_y2().unwrap();
    assert!(matches!(
        l293x.is_y1_set_high(),
        Err(OutputStateError::NotEnabled)
    ));
    assert!(matches!(
        l293x.is_y1_set_low(),
        Err(OutputStateError::NotEnabled)
    ));

    // HIGH, LOW => Z
    l293x.set_y1_high().unwrap();
    l293x.disable_y1_and_y2().unwrap();
    assert!(matches!(
        l293x.is_y1_set_high(),
        Err(OutputStateError::NotEnabled)
    ));
    assert!(matches!(
        l293x.is_y1_set_low(),
        Err(OutputStateError::NotEnabled)
    ));

    // LOW, HIGH => LOW
    l293x.set_y1_low().unwrap();
    l293x.enable_y1_and_y2().unwrap();
    assert!(!l293x.is_y1_set_high().unwrap());
    assert!(l293x.is_y1_set_low().unwrap());

    // HIGH, HIGH => HIGH
    l293x.set_y1_high().unwrap();
    l293x.enable_y1_and_y2().unwrap();
    assert!(l293x.is_y1_set_high().unwrap());
    assert!(!l293x.is_y1_set_low().unwrap());
}

#[test]
fn test_y1_set_state() {
    let mut l293x = digital_chip();

    // LOW, LOW => Z
    l293x.set_y1_state(PinState::Low).unwrap();
    l293x.disable_y1_and_y2().unwrap();
    assert!(matches!(
        l293x.is_y1_set_high(),
        Err(OutputStateError::NotEnabled)
    ));
    assert!(matches!(
        l293x.is_y1_set_low(),
        Err(OutputStateError::NotEnabled)
    ));

    // HIGH, LOW => Z
    l293x.set_y1_state(PinState::High).unwrap();
    l293x.disable_y1_and_y2().unwrap();
    assert!(matches!(
        l293x.is_y1_set_high(),
        Err(OutputStateError::NotEnabled)
    ));
    assert!(matches!(
        l293x.is_y1_set_low(),
        Err(OutputStateError::NotEnabled)
    ));

    // LOW, HIGH => LOW
    l293x.set_y1_state(PinState::Low).unwrap();
    l293x.enable_y1_and_y2().unwrap();
    assert!(!l293x.is_y1_set_high().unwrap());
    assert!(l293x.is_y1_set_low().unwrap());

    // HIGH, HIGH => HIGH
    l293x.set_y1_state(PinState::High).unwrap();
    l293x.enable_y1_and_y2().unwrap();
    assert!(l293x.is_y1_set_high().unwrap());
    assert!(!l293x.is_y1_set_low().unwrap());
}

#[test]
fn test_toggle_y1() {
    let mut l293x = digital_chip();
    l293x.set_y1_state(PinState::Low).unwrap();
    l293x.enable_y1_and_y2().unwrap();
    let old_state = l293x.is_y1_set_high().unwrap();

    l293x.toggle_y1().unwrap();
    assert_ne!(l293x.is_y1_set_high().unwrap(), old_state);

    l293x.toggle_y1().unwrap();
    assert_eq!(l293x.is_y1_set_high().unwrap(), old_state);
}

#[test]
fn test_y1_pwm() {
    let mut l293x = pwm_chip();

    let max_duty = l293x.y1_max_duty_cycle();

    l293x.set_y1_duty_cycle(max_duty).unwrap();
    assert_eq!(l293x.a1.get_duty_cycle(), max_duty);

    l293x.set_y1_duty_cycle_fraction(1, 2).unwrap();
    assert_eq!(l293x.a1.get_duty_cycle(), max_duty / 2);

    l293x.set_y1_duty_cycle_percent(25).unwrap();
    assert_eq!(l293x.a1.get_duty_cycle(), max_duty / 4);

    l293x.set_y1_duty_cycle_fully_on().unwrap();
    assert_eq!(l293x.a1.get_duty_cycle(), max_duty);

    l293x.set_y1_duty_cycle_fully_off().unwrap();
    assert_eq!(l293x.a1.get_duty_cycle(), 0);
}

#[test]
fn test_y1_fail() {
    let mut l293x = digital_chip();
    l293x.enable_y1_and_y2().unwrap();
    l293x.enable_y3_and_y4().unwrap();
    l293x.a1.fail();

    assert!(matches!(l293x.set_y1_low(), Err(DigitalError(..))));
    assert!(matches!(l293x.set_y1_high(), Err(DigitalError(..))));
    assert!(matches!(
        l293x.is_y1_set_high(),
        Err(OutputStateError::InputPinError(..))
    ));
    assert!(matches!(
        l293x.is_y1_set_low(),
        Err(OutputStateError::InputPinError(..))
    ));
    assert!(matches!(
        l293x.toggle_y1(),
        Err(OutputStateError::InputPinError(..))
    ));
}

#[test]
fn test_y2() {
    let mut l293x = digital_chip();

    // LOW, LOW => Z
    l293x.set_y2_low().unwrap();
    l293x.disable_y1_and_y2().unwrap();
    assert!(matches!(
        l293x.is_y2_set_high(),
        Err(OutputStateError::NotEnabled)
    ));
    assert!(matches!(
        l293x.is_y2_set_low(),
        Err(OutputStateError::NotEnabled)
    ));

    // HIGH, LOW => Z
    l293x.set_y2_high().unwrap();
    l293x.disable_y1_and_y2().unwrap();
    assert!(matches!(
        l293x.is_y2_set_high(),
        Err(OutputStateError::NotEnabled)
    ));
    assert!(matches!(
        l293x.is_y2_set_low(),
        Err(OutputStateError::NotEnabled)
    ));

    // LOW, HIGH => LOW
    l293x.set_y2_low().unwrap();
    l293x.enable_y1_and_y2().unwrap();
    assert!(!l293x.is_y2_set_high().unwrap());
    assert!(l293x.is_y2_set_low().unwrap());

    // HIGH, HIGH => HIGH
    l293x.set_y2_high().unwrap();
    l293x.enable_y1_and_y2().unwrap();
    assert!(l293x.is_y2_set_high().unwrap());
    assert!(!l293x.is_y2_set_low().unwrap());
}

#[test]
fn test_y2_set_state() {
    let mut l293x = digital_chip();

    // LOW, LOW => Z
    l293x.set_y2_state(PinState::Low).unwrap();
    l293x.disable_y1_and_y2().unwrap();
    assert!(matches!(
        l293x.is_y2_set_high(),
        Err(OutputStateError::NotEnabled)
    ));
    assert!(matches!(
        l293x.is_y2_set_low(),
        Err(OutputStateError::NotEnabled)
    ));

    // HIGH, LOW => Z
    l293x.set_y2_state(PinState::High).unwrap();
    l293x.disable_y1_and_y2().unwrap();
    assert!(matches!(
        l293x.is_y2_set_high(),
        Err(OutputStateError::NotEnabled)
    ));
    assert!(matches!(
        l293x.is_y2_set_low(),
        Err(OutputStateError::NotEnabled)
    ));

    // LOW, HIGH => LOW
    l293x.set_y2_state(PinState::Low).unwrap();
    l293x.enable_y1_and_y2().unwrap();
    assert!(!l293x.is_y2_set_high().unwrap());
    assert!(l293x.is_y2_set_low().unwrap());

    // HIGH, HIGH => HIGH
    l293x.set_y2_state(PinState::High).unwrap();
    l293x.enable_y1_and_y2().unwrap();
    assert!(l293x.is_y2_set_high().unwrap());
    assert!(!l293x.is_y2_set_low().unwrap());
}

#[test]
fn test_toggle_y2() {
    let mut l293x = digital_chip();
    l293x.set_y2_state(PinState::Low).unwrap();
    l293x.enable_y1_and_y2().unwrap();
    let old_state = l293x.is_y2_set_high().unwrap();

    l293x.toggle_y2().unwrap();
    assert_ne!(l293x.is_y2_set_high().unwrap(), old_state);

    l293x.toggle_y2().unwrap();
    assert_eq!(l293x.is_y2_set_high().unwrap(), old_state);
}

#[test]
fn test_y2_pwm() {
    let mut l293x = pwm_chip();

    let max_duty = l293x.y2_max_duty_cycle();

    l293x.set_y2_duty_cycle(max_duty).unwrap();
    assert_eq!(l293x.a2.get_duty_cycle(), max_duty);

    l293x.set_y2_duty_cycle_fraction(1, 2).unwrap();
    assert_eq!(l293x.a2.get_duty_cycle(), max_duty / 2);

    l293x.set_y2_duty_cycle_percent(25).unwrap();
    assert_eq!(l293x.a2.get_duty_cycle(), max_duty / 4);

    l293x.set_y2_duty_cycle_fully_on().unwrap();
    assert_eq!(l293x.a2.get_duty_cycle(), max_duty);

    l293x.set_y2_duty_cycle_fully_off().unwrap();
    assert_eq!(l293x.a2.get_duty_cycle(), 0);
}

#[test]
fn test_y2_fail() {
    let mut l293x = digital_chip();
    l293x.enable_y1_and_y2().unwrap();
    l293x.enable_y3_and_y4().unwrap();
    l293x.a2.fail();

    assert!(matches!(l293x.set_y2_low(), Err(DigitalError(..))));
    assert!(matches!(l293x.set_y2_high(), Err(DigitalError(..))));
    assert!(matches!(
        l293x.is_y2_set_high(),
        Err(OutputStateError::InputPinError(..))
    ));
    assert!(matches!(
        l293x.is_y2_set_low(),
        Err(OutputStateError::InputPinError(..))
    ));
    assert!(matches!(
        l293x.toggle_y2(),
        Err(OutputStateError::InputPinError(..))
    ));
}

#[test]
fn test_y3() {
    let mut l293x = digital_chip();

    // LOW, LOW => Z
    l293x.set_y3_low().unwrap();
    l293x.disable_y3_and_y4().unwrap();
    assert!(matches!(
        l293x.is_y3_set_high(),
        Err(OutputStateError::NotEnabled)
    ));
    assert!(matches!(
        l293x.is_y3_set_low(),
        Err(OutputStateError::NotEnabled)
    ));

    // HIGH, LOW => Z
    l293x.set_y3_high().unwrap();
    l293x.disable_y3_and_y4().unwrap();
    assert!(matches!(
        l293x.is_y3_set_high(),
        Err(OutputStateError::NotEnabled)
    ));
    assert!(matches!(
        l293x.is_y3_set_low(),
        Err(OutputStateError::NotEnabled)
    ));

    // LOW, HIGH => LOW
    l293x.set_y3_low().unwrap();
    l293x.enable_y3_and_y4().unwrap();
    assert!(!l293x.is_y3_set_high().unwrap());
    assert!(l293x.is_y3_set_low().unwrap());

    // HIGH, HIGH => HIGH
    l293x.set_y3_high().unwrap();
    l293x.enable_y3_and_y4().unwrap();
    assert!(l293x.is_y3_set_high().unwrap());
    assert!(!l293x.is_y3_set_low().unwrap());
}

#[test]
fn test_y3_set_state() {
    let mut l293x = digital_chip();

    // LOW, LOW => Z
    l293x.set_y3_state(PinState::Low).unwrap();
    l293x.disable_y3_and_y4().unwrap();
    assert!(matches!(
        l293x.is_y3_set_high(),
        Err(OutputStateError::NotEnabled)
    ));
    assert!(matches!(
        l293x.is_y3_set_low(),
        Err(OutputStateError::NotEnabled)
    ));

    // HIGH, LOW => Z
    l293x.set_y3_state(PinState::High).unwrap();
    l293x.disable_y3_and_y4().unwrap();
    assert!(matches!(
        l293x.is_y3_set_high(),
        Err(OutputStateError::NotEnabled)
    ));
    assert!(matches!(
        l293x.is_y3_set_low(),
        Err(OutputStateError::NotEnabled)
    ));

    // LOW, HIGH => LOW
    l293x.set_y3_state(PinState::Low).unwrap();
    l293x.enable_y3_and_y4().unwrap();
    assert!(!l293x.is_y3_set_high().unwrap());
    assert!(l293x.is_y3_set_low().unwrap());

    // HIGH, HIGH => HIGH
    l293x.set_y3_state(PinState::High).unwrap();
    l293x.enable_y3_and_y4().unwrap();
    assert!(l293x.is_y3_set_high().unwrap());
    assert!(!l293x.is_y3_set_low().unwrap());
}

#[test]
fn test_toggle_y3() {
    let mut l293x = digital_chip();
    l293x.set_y3_state(PinState::Low).unwrap();
    l293x.enable_y3_and_y4().unwrap();
    let old_state = l293x.is_y3_set_high().unwrap();

    l293x.toggle_y3().unwrap();
    assert_ne!(l293x.is_y3_set_high().unwrap(), old_state);

    l293x.toggle_y3().unwrap();
    assert_eq!(l293x.is_y3_set_high().unwrap(), old_state);
}

#[test]
fn test_y3_pwm() {
    let mut l293x = pwm_chip();

    let max_duty = l293x.y3_max_duty_cycle();

    l293x.set_y3_duty_cycle(max_duty).unwrap();
    assert_eq!(l293x.a3.get_duty_cycle(), max_duty);

    l293x.set_y3_duty_cycle_fraction(1, 2).unwrap();
    assert_eq!(l293x.a3.get_duty_cycle(), max_duty / 2);

    l293x.set_y3_duty_cycle_percent(25).unwrap();
    assert_eq!(l293x.a3.get_duty_cycle(), max_duty / 4);

    l293x.set_y3_duty_cycle_fully_on().unwrap();
    assert_eq!(l293x.a3.get_duty_cycle(), max_duty);

    l293x.set_y3_duty_cycle_fully_off().unwrap();
    assert_eq!(l293x.a3.get_duty_cycle(), 0);
}

#[test]
fn test_y3_fail() {
    let mut l293x = digital_chip();
    l293x.enable_y1_and_y2().unwrap();
    l293x.enable_y3_and_y4().unwrap();
    l293x.a3.fail();

    assert!(matches!(l293x.set_y3_low(), Err(DigitalError(..))));
    assert!(matches!(l293x.set_y3_high(), Err(DigitalError(..))));
    assert!(matches!(
        l293x.is_y3_set_high(),
        Err(OutputStateError::InputPinError(..))
    ));
    assert!(matches!(
        l293x.is_y3_set_low(),
        Err(OutputStateError::InputPinError(..))
    ));
    assert!(matches!(
        l293x.toggle_y3(),
        Err(OutputStateError::InputPinError(..))
    ));
}

#[test]
fn test_y4() {
    let mut l293x = digital_chip();

    // LOW, LOW => Z
    l293x.set_y4_low().unwrap();
    l293x.disable_y3_and_y4().unwrap();
    assert!(matches!(
        l293x.is_y4_set_high(),
        Err(OutputStateError::NotEnabled)
    ));
    assert!(matches!(
        l293x.is_y4_set_low(),
        Err(OutputStateError::NotEnabled)
    ));

    // HIGH, LOW => Z
    l293x.set_y4_high().unwrap();
    l293x.disable_y3_and_y4().unwrap();
    assert!(matches!(
        l293x.is_y4_set_high(),
        Err(OutputStateError::NotEnabled)
    ));
    assert!(matches!(
        l293x.is_y4_set_low(),
        Err(OutputStateError::NotEnabled)
    ));

    // LOW, HIGH => LOW
    l293x.set_y4_low().unwrap();
    l293x.enable_y3_and_y4().unwrap();
    assert!(!l293x.is_y4_set_high().unwrap());
    assert!(l293x.is_y4_set_low().unwrap());

    // HIGH, HIGH => HIGH
    l293x.set_y4_high().unwrap();
    l293x.enable_y3_and_y4().unwrap();
    assert!(l293x.is_y4_set_high().unwrap());
    assert!(!l293x.is_y4_set_low().unwrap());
}

#[test]
fn test_y4_set_state() {
    let mut l293x = digital_chip();

    // LOW, LOW => Z
    l293x.set_y4_state(PinState::Low).unwrap();
    l293x.disable_y3_and_y4().unwrap();
    assert!(matches!(
        l293x.is_y4_set_high(),
        Err(OutputStateError::NotEnabled)
    ));
    assert!(matches!(
        l293x.is_y4_set_low(),
        Err(OutputStateError::NotEnabled)
    ));

    // HIGH, LOW => Z
    l293x.set_y4_state(PinState::High).unwrap();
    l293x.disable_y3_and_y4().unwrap();
    assert!(matches!(
        l293x.is_y4_set_high(),
        Err(OutputStateError::NotEnabled)
    ));
    assert!(matches!(
        l293x.is_y4_set_low(),
        Err(OutputStateError::NotEnabled)
    ));

    // LOW, HIGH => LOW
    l293x.set_y4_state(PinState::Low).unwrap();
    l293x.enable_y3_and_y4().unwrap();
    assert!(!l293x.is_y4_set_high().unwrap());
    assert!(l293x.is_y4_set_low().unwrap());

    // HIGH, HIGH => HIGH
    l293x.set_y4_state(PinState::High).unwrap();
    l293x.enable_y3_and_y4().unwrap();
    assert!(l293x.is_y4_set_high().unwrap());
    assert!(!l293x.is_y4_set_low().unwrap());
}

#[test]
fn test_toggle_y4() {
    let mut l293x = digital_chip();
    l293x.set_y4_state(PinState::Low).unwrap();
    l293x.enable_y3_and_y4().unwrap();
    let old_state = l293x.is_y4_set_high().unwrap();

    l293x.toggle_y4().unwrap();
    assert_ne!(l293x.is_y4_set_high().unwrap(), old_state);

    l293x.toggle_y4().unwrap();
    assert_eq!(l293x.is_y4_set_high().unwrap(), old_state);
}

#[test]
fn test_y4_pwm() {
    let mut l293x = pwm_chip();

    let max_duty = l293x.y4_max_duty_cycle();

    l293x.set_y4_duty_cycle(max_duty).unwrap();
    assert_eq!(l293x.a4.get_duty_cycle(), max_duty);

    l293x.set_y4_duty_cycle_fraction(1, 2).unwrap();
    assert_eq!(l293x.a4.get_duty_cycle(), max_duty / 2);

    l293x.set_y4_duty_cycle_percent(25).unwrap();
    assert_eq!(l293x.a4.get_duty_cycle(), max_duty / 4);

    l293x.set_y4_duty_cycle_fully_on().unwrap();
    assert_eq!(l293x.a4.get_duty_cycle(), max_duty);

    l293x.set_y4_duty_cycle_fully_off().unwrap();
    assert_eq!(l293x.a4.get_duty_cycle(), 0);
}

#[test]
fn test_y4_fail() {
    let mut l293x = digital_chip();
    l293x.enable_y1_and_y2().unwrap();
    l293x.enable_y3_and_y4().unwrap();
    l293x.a4.fail();

    assert!(matches!(l293x.set_y4_low(), Err(DigitalError(..))));
    assert!(matches!(l293x.set_y4_high(), Err(DigitalError(..))));
    assert!(matches!(
        l293x.is_y4_set_high(),
        Err(OutputStateError::InputPinError(..))
    ));
    assert!(matches!(
        l293x.is_y4_set_low(),
        Err(OutputStateError::InputPinError(..))
    ));
    assert!(matches!(
        l293x.toggle_y4(),
        Err(OutputStateError::InputPinError(..))
    ));
}

#[test]
fn test_partial_chip() {
    let mut l293x_part = L293x::new(DigitalPin::new(), (), (), (), Vcc(), ());

    l293x_part.set_y1_high().unwrap();
    assert!(l293x_part.is_y1_set_high().unwrap())
}

#[test]
fn test_cascading_l293() {
    let mut l293x = L293x::new(
        HalfH::new(DigitalPin::new(), DigitalPin::new()),
        HalfH::new(DigitalPin::new(), DigitalPin::new()),
        HalfH::new(DigitalPin::new(), DigitalPin::new()),
        HalfH::new(DigitalPin::new(), DigitalPin::new()),
        Vcc(),
        Vcc(),
    );
    l293x.a1.enable().unwrap();
    l293x.set_y1_high().unwrap();
    assert!(l293x.a1.is_set_high().unwrap());
}
