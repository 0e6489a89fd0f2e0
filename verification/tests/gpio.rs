//! Test suite for the GPIO remote-control API
//!
//! These cases run against the in-process assistant model wired up by
//! `TestStand::new`, standing in for the hardware test stand.

use lpc845_test_stand::pin::{Level, PinNumber};
use lpc845_test_stand::test_stand::TestStand;

#[test]
fn it_should_set_pin_level() {
    let mut test_stand = TestStand::new().unwrap();
    let mut pin = test_stand
        .assistant
        .create_gpio_input_pin(PinNumber::new(30))
        .unwrap();

    test_stand.target_set_pin_low().unwrap();
    assert!(pin.is_low(&mut test_stand.assistant).unwrap());

    test_stand.target_set_pin_high().unwrap();
    assert!(pin.is_high(&mut test_stand.assistant).unwrap());
}

#[test]
fn it_should_read_input_level() {
    let mut test_stand = TestStand::new().unwrap();
    let mut pin = test_stand
        .assistant
        .create_gpio_output_pin(PinNumber::new(5), Level::High)
        .unwrap();

    pin.set_low(&mut test_stand.assistant).unwrap();
    assert!(test_stand.target_pin_is_low().unwrap());

    pin.set_high(&mut test_stand.assistant).unwrap();
    assert!(test_stand.target_pin_is_high().unwrap());
}

#[test]
fn it_should_reconfigure_itself() {
    let mut test_stand = TestStand::new().unwrap();
    let mut pin = test_stand
        .assistant
        .create_gpio_output_pin(PinNumber::new(29), Level::High)
        .unwrap();

    pin.set_low(&mut test_stand.assistant).unwrap();
    pin.set_high(&mut test_stand.assistant).unwrap();
}

#[test]
fn red_should_light_up_on_low() {
    let mut test_stand = TestStand::new().unwrap();
    let mut pin = test_stand
        .assistant
        .create_gpio_output_pin(PinNumber::new(29), Level::High)
        .unwrap();

    // the red onboard LED lights up while the pin drives low
    pin.set_low(&mut test_stand.assistant).unwrap();
}
