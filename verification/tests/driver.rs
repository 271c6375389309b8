use cap1xxx::consts::{
    R_CALIBRATION, R_CONFIGURATION2, R_GENERAL_CONFIG, R_INPUT_CONFIG, R_INPUT_CONFIG2,
    R_INPUT_ENABLE, R_INTERRUPT_EN, R_LED_BEHAVIOUR_2, R_LED_CONFIG, R_LED_DIRECT_DUT,
    R_LED_DIRECT_RAMP, R_LED_OUTPUT_CON, R_LED_PULSE_1_PER, R_MAIN_CONTROL, R_MTOUCH_CONFIG,
    R_REPEAT_EN, R_SAMPLING_CONFIG, R_SENSITIVITY,
};
use cap1xxx::error::Error;
use cap1xxx::sim::SimBus;
use cap1xxx::CAP1XXX;

#[test]
fn out_of_range_channel_fails_without_bus_access() {
    let bus = SimBus::new();
    let mut dev = CAP1XXX::new(bus, 0x28, 6);
    let r = dev.set_led_state(6, true);
    assert!(matches!(r, Err(Error::LedNumberOverflowError)));
    assert_eq!(dev.bus().write_count, 0);
    assert_eq!(dev.bus().read_count, 0);
}

#[test]
fn out_of_range_channel_fails_every_led_setter() {
    let bus = SimBus::new();
    let mut dev = CAP1XXX::new(bus, 6, 6);
    assert!(matches!(dev.set_led_linking(6, true), Err(Error::LedNumberOverflowError)));
    assert!(matches!(dev.set_led_output_type(7, false), Err(Error::LedNumberOverflowError)));
    assert!(matches!(dev.set_led_polarity(255, true), Err(Error::LedNumberOverflowError)));
    assert!(matches!(dev.set_led_behaviour(6, 2), Err(Error::LedNumberOverflowError)));
    assert_eq!(dev.bus().write_count, 0);
    assert_eq!(dev.bus().read_count, 0);
}

#[test]
fn failed_read_phase_short_circuits_the_write() {
    let mut bus = SimBus::new();
    bus.fail_reads = true;
    let mut dev = CAP1XXX::new(bus, 0x28, 6);
    let r = dev.set_led_linking(0, true);
    assert!(matches!(r, Err(Error::ReadError(_))));
    assert_eq!(dev.bus().read_count, 1);
    assert_eq!(dev.bus().write_count, 0);
}

#[test]
fn failed_write_reports_write_error() {
    let mut bus = SimBus::new();
    bus.fail_writes = true;
    let mut dev = CAP1XXX::new(bus, 0x28, 6);
    assert!(matches!(dev.enable_inputs(0xFF), Err(Error::WriteError(_))));
    assert_eq!(dev.bus().write_count, 1);
}

#[test]
fn init_writes_the_documented_defaults() {
    let mut bus = SimBus::new();
    bus.regs[R_MTOUCH_CONFIG as usize] = 0xFF;
    bus.regs[R_INPUT_CONFIG2 as usize] = 0xA8;
    bus.regs[R_INPUT_CONFIG as usize] = 0x38;
    let mut dev = CAP1XXX::new(bus, 0x28, 6);
    dev.init().unwrap();
    let regs = &dev.bus().regs;
    assert_eq!(regs[R_INPUT_ENABLE as usize], 0b1111_1111);
    assert_eq!(regs[R_INTERRUPT_EN as usize], 0b1111_1111);
    assert_eq!(regs[R_REPEAT_EN as usize], 0b0000_0000);
    // Multi-touch block bit cleared, other bits kept.
    assert_eq!(regs[R_MTOUCH_CONFIG as usize], 0x7F);
    // 210 ms gives rate code 5; high nibbles preserved.
    assert_eq!(regs[R_INPUT_CONFIG2 as usize], 0xA5);
    assert_eq!(regs[R_INPUT_CONFIG as usize], 0x35);
    assert_eq!(regs[R_SAMPLING_CONFIG as usize], 0b0000_1000);
    assert_eq!(regs[R_CALIBRATION as usize], 0b0011_1111);
    assert_eq!(regs[R_SENSITIVITY as usize], 0b0110_0000);
    assert_eq!(regs[R_GENERAL_CONFIG as usize], 0b0011_1000);
    assert_eq!(regs[R_CONFIGURATION2 as usize], 0b0110_0000);
    // Three read-modify-write steps, eight direct writes.
    assert_eq!(dev.bus().read_count, 3);
    assert_eq!(dev.bus().write_count, 11);
}

#[test]
fn init_short_circuits_on_first_failure() {
    let mut bus = SimBus::new();
    bus.fail_writes = true;
    let mut dev = CAP1XXX::new(bus, 0x28, 6);
    assert!(matches!(dev.init(), Err(Error::WriteError(_))));
    assert_eq!(dev.bus().write_count, 1);
    assert_eq!(dev.bus().read_count, 0);
}

#[test]
fn set_led_state_touches_only_the_addressed_bit() {
    let mut bus = SimBus::new();
    bus.regs[R_LED_OUTPUT_CON as usize] = 0b0010_0001;
    let mut dev = CAP1XXX::new(bus, 0x28, 6);
    dev.set_led_state(2, true).unwrap();
    assert_eq!(dev.bus().regs[R_LED_OUTPUT_CON as usize], 0b0010_0101);
    dev.set_led_state(2, false).unwrap();
    assert_eq!(dev.bus().regs[R_LED_OUTPUT_CON as usize], 0b0010_0001);
    dev.set_led_state(0, false).unwrap();
    assert_eq!(dev.bus().regs[R_LED_OUTPUT_CON as usize], 0b0010_0000);
}

#[test]
fn set_led_behaviour_maps_channel_to_register_and_offset() {
    let mut bus = SimBus::new();
    bus.regs[R_LED_BEHAVIOUR_2 as usize] = 0xFF;
    let mut dev = CAP1XXX::new(bus, 0x28, 8);
    // Channel 5 lives in the second behaviour register at bit offset 2.
    dev.set_led_behaviour(5, 0b10).unwrap();
    assert_eq!(dev.bus().regs[R_LED_BEHAVIOUR_2 as usize], 0xFB);
}

#[test]
fn set_led_behaviour_masks_the_code_to_two_bits() {
    let bus = SimBus::new();
    let mut dev = CAP1XXX::new(bus, 0x28, 8);
    // Code 7 is masked to 3 before composition: channel 0, bits 0..2.
    dev.set_led_behaviour(0, 7).unwrap();
    assert_eq!(dev.bus().regs[0x81], 0b0000_0011);
}

#[test]
fn set_hold_delay_preserves_the_high_nibble() {
    let mut bus = SimBus::new();
    bus.regs[R_INPUT_CONFIG2 as usize] = 0xA8;
    let mut dev = CAP1XXX::new(bus, 0x28, 6);
    dev.set_hold_delay(210).unwrap();
    assert_eq!(dev.bus().regs[R_INPUT_CONFIG2 as usize], 0xA5);
}

#[test]
fn set_repeat_rate_writes_the_rate_code() {
    let mut bus = SimBus::new();
    bus.regs[R_INPUT_CONFIG as usize] = 0xF0;
    let mut dev = CAP1XXX::new(bus, 0x28, 6);
    dev.set_repeat_rate(560).unwrap();
    assert_eq!(dev.bus().regs[R_INPUT_CONFIG as usize], 0xFF);
}

#[test]
fn enable_multitouch_drives_the_block_bit() {
    let mut bus = SimBus::new();
    bus.regs[R_MTOUCH_CONFIG as usize] = 0x12;
    let mut dev = CAP1XXX::new(bus, 0x28, 6);
    dev.enable_multitouch(false).unwrap();
    assert_eq!(dev.bus().regs[R_MTOUCH_CONFIG as usize], 0x92);
    dev.enable_multitouch(true).unwrap();
    assert_eq!(dev.bus().regs[R_MTOUCH_CONFIG as usize], 0x12);
}

#[test]
fn general_config_bits_follow_their_polarity() {
    let bus = SimBus::new();
    let mut dev = CAP1XXX::new(bus, 0x28, 6);
    dev.auto_recalibrate(true).unwrap();
    assert_eq!(dev.bus().regs[R_GENERAL_CONFIG as usize], 0b0000_1000);
    // The register bits disable the filters, so enabling clears them.
    dev.filter_analog_noise(false).unwrap();
    assert_eq!(dev.bus().regs[R_GENERAL_CONFIG as usize], 0b0001_1000);
    dev.filter_digital_noise(false).unwrap();
    assert_eq!(dev.bus().regs[R_GENERAL_CONFIG as usize], 0b0011_1000);
    dev.filter_analog_noise(true).unwrap();
    assert_eq!(dev.bus().regs[R_GENERAL_CONFIG as usize], 0b0010_1000);
}

#[test]
fn interrupt_flag_reads_and_clears() {
    let mut bus = SimBus::new();
    bus.regs[R_MAIN_CONTROL as usize] = 0b0000_0011;
    let mut dev = CAP1XXX::new(bus, 0x28, 6);
    assert_eq!(dev.is_interrupted().unwrap(), true);
    dev.clear_interrupt().unwrap();
    assert_eq!(dev.bus().regs[R_MAIN_CONTROL as usize], 0b0000_0010);
    assert_eq!(dev.is_interrupted().unwrap(), false);
}

#[test]
fn read_input_status_returns_the_status_byte() {
    let mut bus = SimBus::new();
    bus.regs[0x03] = 0b0010_0101;
    let mut dev = CAP1XXX::new(bus, 0x28, 6);
    assert_eq!(dev.read_input_status().unwrap(), 0b0010_0101);
}

#[test]
fn read_threshold_values_reads_one_byte_per_channel() {
    let mut bus = SimBus::new();
    for i in 0..8 {
        bus.regs[0x30 + i] = 0x40 + i as u8;
    }
    let mut dev = CAP1XXX::new(bus, 0x28, 6);
    assert_eq!(dev.read_threshold_values().unwrap(), vec![0x40, 0x41, 0x42, 0x43, 0x44, 0x45]);
    assert_eq!(dev.bus().read_count, 1);
}

#[test]
fn read_delta_values_reads_the_delta_block() {
    // The delta counts come from the delta register block, not from the
    // threshold block: the datasheet places them at separate addresses, and
    // the two operations must not alias.
    let mut bus = SimBus::new();
    for i in 0..8 {
        bus.regs[0x10 + i] = 0x70 + i as u8;
        bus.regs[0x30 + i] = 0x40 + i as u8;
    }
    let mut dev = CAP1XXX::new(bus, 0x28, 4);
    assert_eq!(dev.read_delta_values().unwrap(), vec![0x70, 0x71, 0x72, 0x73]);
}

#[test]
fn set_led_direct_duty_writes_the_packed_byte() {
    let bus = SimBus::new();
    let mut dev = CAP1XXX::new(bus, 0x28, 6);
    dev.set_led_direct_duty(3, 10).unwrap();
    assert_eq!(dev.bus().regs[R_LED_DIRECT_DUT as usize], 0xA3);
}

#[test]
fn duty_nibble_setters_preserve_the_other_nibble() {
    let mut bus = SimBus::new();
    bus.regs[R_LED_DIRECT_DUT as usize] = 0x5C;
    let mut dev = CAP1XXX::new(bus, 0x28, 6);
    dev.set_led_direct_min_duty(0x03).unwrap();
    assert_eq!(dev.bus().regs[R_LED_DIRECT_DUT as usize], 0x53);
    dev.set_led_direct_max_duty(0x0A).unwrap();
    assert_eq!(dev.bus().regs[R_LED_DIRECT_DUT as usize], 0xA3);
}

#[test]
fn oversized_min_duty_spills_into_the_high_nibble() {
    let mut bus = SimBus::new();
    bus.regs[R_LED_DIRECT_DUT as usize] = 0x50;
    let mut dev = CAP1XXX::new(bus, 0x28, 6);
    // The composer does not mask: bits above the nibble are ORed upward.
    dev.set_led_direct_min_duty(0xAB).unwrap();
    assert_eq!(dev.bus().regs[R_LED_DIRECT_DUT as usize], 0xFB);
}

#[test]
fn set_led_direct_ramp_rate_packs_rise_high_fall_low() {
    let bus = SimBus::new();
    let mut dev = CAP1XXX::new(bus, 0x28, 6);
    dev.set_led_direct_ramp_rate(2000, 500).unwrap();
    assert_eq!(dev.bus().regs[R_LED_DIRECT_RAMP as usize], 0x72);
    dev.set_led_direct_ramp_rate(250, 1000).unwrap();
    assert_eq!(dev.bus().regs[R_LED_DIRECT_RAMP as usize], 0x14);
}

#[test]
fn set_led_pulse1_period_preserves_the_top_bit() {
    let mut bus = SimBus::new();
    bus.regs[R_LED_PULSE_1_PER as usize] = 0x80;
    let mut dev = CAP1XXX::new(bus, 0x28, 6);
    dev.set_led_pulse1_period(2000).unwrap();
    // 2000 ms / 32 ms = code 62.
    assert_eq!(dev.bus().regs[R_LED_PULSE_1_PER as usize], 0x80 | 62);
}

#[test]
fn pulse_counts_store_count_minus_one() {
    let bus = SimBus::new();
    let mut dev = CAP1XXX::new(bus, 0x28, 6);
    dev.set_led_pulse1_count(4).unwrap();
    assert_eq!(dev.bus().regs[R_LED_CONFIG as usize], 0b0000_0011);
    dev.set_led_pulse2_count(2).unwrap();
    assert_eq!(dev.bus().regs[R_LED_CONFIG as usize], 0b0000_1011);
    dev.set_led_ramp_alert(true).unwrap();
    assert_eq!(dev.bus().regs[R_LED_CONFIG as usize], 0b0100_1011);
}

#[test]
fn enable_masks_write_full_bytes() {
    let bus = SimBus::new();
    let mut dev = CAP1XXX::new(bus, 0x28, 6);
    dev.enable_inputs(0b0011_1111).unwrap();
    dev.enable_interrupts(0b0000_1111).unwrap();
    dev.enable_repeat(0b0101_0101).unwrap();
    assert_eq!(dev.bus().regs[R_INPUT_ENABLE as usize], 0b0011_1111);
    assert_eq!(dev.bus().regs[R_INTERRUPT_EN as usize], 0b0000_1111);
    assert_eq!(dev.bus().regs[R_REPEAT_EN as usize], 0b0101_0101);
    assert_eq!(dev.bus().write_count, 3);
    assert_eq!(dev.bus().read_count, 0);
}

#[test]
fn remaining_led_bit_setters_drive_their_registers() {
    let bus = SimBus::new();
    let mut dev = CAP1XXX::new(bus, 0x28, 6);
    dev.set_led_linking(1, true).unwrap();
    assert_eq!(dev.bus().regs[0x72], 0b0000_0010);
    dev.set_led_output_type(0, true).unwrap();
    assert_eq!(dev.bus().regs[0x71], 0b0000_0001);
    dev.set_led_polarity(5, true).unwrap();
    assert_eq!(dev.bus().regs[0x73], 0b0010_0000);
    dev.set_led_polarity(5, false).unwrap();
    assert_eq!(dev.bus().regs[0x73], 0b0000_0000);
}

#[test]
fn pulse_and_breathe_duty_registers_get_packed_bytes() {
    let bus = SimBus::new();
    let mut dev = CAP1XXX::new(bus, 0x28, 6);
    dev.set_led_pulse1_duty(1, 2).unwrap();
    dev.set_led_pulse2_duty(3, 4).unwrap();
    dev.set_led_breathe_duty(5, 6).unwrap();
    assert_eq!(dev.bus().regs[0x90], 0x21);
    assert_eq!(dev.bus().regs[0x91], 0x43);
    assert_eq!(dev.bus().regs[0x92], 0x65);
}

#[test]
fn pulse_and_breathe_nibble_setters_preserve_the_other_nibble() {
    let mut bus = SimBus::new();
    bus.regs[0x90] = 0x21;
    bus.regs[0x91] = 0x43;
    bus.regs[0x92] = 0x65;
    let mut dev = CAP1XXX::new(bus, 0x28, 6);
    dev.set_led_pulse1_min_duty(9).unwrap();
    assert_eq!(dev.bus().regs[0x90], 0x29);
    dev.set_led_pulse1_max_duty(8).unwrap();
    assert_eq!(dev.bus().regs[0x90], 0x89);
    dev.set_led_pulse2_min_duty(7).unwrap();
    assert_eq!(dev.bus().regs[0x91], 0x47);
    dev.set_led_pulse2_max_duty(6).unwrap();
    assert_eq!(dev.bus().regs[0x91], 0x67);
    dev.set_led_breathe_min_duty(5).unwrap();
    assert_eq!(dev.bus().regs[0x92], 0x65);
    dev.set_led_breathe_max_duty(4).unwrap();
    assert_eq!(dev.bus().regs[0x92], 0x45);
}

#[test]
fn pulse2_and_breathe_periods_write_their_codes() {
    let mut bus = SimBus::new();
    bus.regs[0x85] = 0x80;
    let mut dev = CAP1XXX::new(bus, 0x28, 6);
    dev.set_led_pulse2_period(320).unwrap();
    assert_eq!(dev.bus().regs[0x85], 0x80 | 10);
    dev.set_led_breathe_period(5000).unwrap();
    assert_eq!(dev.bus().regs[0x86], 127);
}
