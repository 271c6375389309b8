use cap1xxx::sim::SimBus;
use cap1xxx::{duty_pair_to_byte, ramp_rate_to_code, CAP1XXX};

#[test]
fn rate_scale_clamps_low_inputs_to_code_zero() {
    assert_eq!(CAP1XXX::<SimBus>::duration_to_rate_scale(34), 0);
    assert_eq!(CAP1XXX::<SimBus>::duration_to_rate_scale(0), 0);
    assert_eq!(CAP1XXX::<SimBus>::duration_to_rate_scale(35), 0);
}

#[test]
fn rate_scale_quantizes_to_lower_multiple_of_35() {
    assert_eq!(CAP1XXX::<SimBus>::duration_to_rate_scale(70), 1);
    assert_eq!(CAP1XXX::<SimBus>::duration_to_rate_scale(104), 1);
    assert_eq!(CAP1XXX::<SimBus>::duration_to_rate_scale(105), 2);
    assert_eq!(CAP1XXX::<SimBus>::duration_to_rate_scale(210), 5);
    assert_eq!(CAP1XXX::<SimBus>::duration_to_rate_scale(560), 15);
}

#[test]
fn rate_scale_clamps_high_inputs_to_code_fifteen() {
    assert_eq!(CAP1XXX::<SimBus>::duration_to_rate_scale(561), 15);
    assert_eq!(CAP1XXX::<SimBus>::duration_to_rate_scale(10000), 15);
}

#[test]
fn period_value_divides_by_resolution() {
    assert_eq!(CAP1XXX::<SimBus>::convert_duration_to_period_value(0), 0);
    assert_eq!(CAP1XXX::<SimBus>::convert_duration_to_period_value(32), 1);
    assert_eq!(CAP1XXX::<SimBus>::convert_duration_to_period_value(63), 1);
    assert_eq!(CAP1XXX::<SimBus>::convert_duration_to_period_value(4064), 127);
}

#[test]
fn period_value_clamps_beyond_maximum() {
    assert_eq!(
        CAP1XXX::<SimBus>::convert_duration_to_period_value(5000),
        CAP1XXX::<SimBus>::convert_duration_to_period_value(4064)
    );
    assert_eq!(CAP1XXX::<SimBus>::convert_duration_to_period_value(u64::MAX), 127);
}

#[test]
fn duty_pair_packs_max_high_min_low() {
    assert_eq!(duty_pair_to_byte(3, 10), 0xA3);
    assert_eq!(duty_pair_to_byte(10, 3), 0x3A);
    assert_eq!(duty_pair_to_byte(0, 15), 0xF0);
    assert_eq!(duty_pair_to_byte(15, 0), 0x0F);
}

#[test]
fn ramp_code_rounds_down_and_clamps() {
    assert_eq!(ramp_rate_to_code(0), 0);
    assert_eq!(ramp_rate_to_code(249), 0);
    assert_eq!(ramp_rate_to_code(250), 1);
    assert_eq!(ramp_rate_to_code(500), 2);
    assert_eq!(ramp_rate_to_code(1750), 7);
    assert_eq!(ramp_rate_to_code(2000), 7);
    assert_eq!(ramp_rate_to_code(u16::MAX), 7);
}
