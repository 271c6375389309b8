//! Register address map and named field values for the CAP1xxx family.
//!
//! The map is fixed by the chip's datasheet; addresses are plain `u8` values
//! handed to the transaction engine, never validated at run time.

use vstd::prelude::*;

verus! {

/// Default 7-bit bus address of the device.
pub const DEFAULT_ADDR: u8 = 0x28;

pub const R_MAIN_CONTROL: u8 = 0x00;

pub const R_GENERAL_STATUS: u8 = 0x02;

pub const R_INPUT_STATUS: u8 = 0x03;

pub const R_LED_STATUS: u8 = 0x04;

pub const R_NOISE_FLAG_STATUS: u8 = 0x0A;

/// First of eight read-only delta counts, one per input.
pub const R_INPUT_1_DELTA: u8 = 0x10;

pub const R_SENSITIVITY: u8 = 0x1F;

pub const R_GENERAL_CONFIG: u8 = 0x20;

pub const R_INPUT_ENABLE: u8 = 0x21;

/// Low nibble holds the repeat-rate code.
pub const R_INPUT_CONFIG: u8 = 0x22;

/// Low nibble holds the press-and-hold delay code.
pub const R_INPUT_CONFIG2: u8 = 0x23;

pub const R_SAMPLING_CONFIG: u8 = 0x24;

pub const R_CALIBRATION: u8 = 0x26;

pub const R_INTERRUPT_EN: u8 = 0x27;

pub const R_REPEAT_EN: u8 = 0x28;

pub const R_MTOUCH_CONFIG: u8 = 0x2A;

/// First of eight read/write touch detection thresholds, one per input.
pub const R_INPUT_1_THRESH: u8 = 0x30;

pub const R_NOISE_THRESH: u8 = 0x38;

pub const R_CONFIGURATION2: u8 = 0x44;

pub const R_LED_OUTPUT_TYPE: u8 = 0x71;

pub const R_LED_LINKING: u8 = 0x72;

pub const R_LED_POLARITY: u8 = 0x73;

pub const R_LED_OUTPUT_CON: u8 = 0x74;

/// Two-bit behaviour codes for LEDs 1-4.
pub const R_LED_BEHAVIOUR_1: u8 = 0x81;

/// Two-bit behaviour codes for LEDs 5-8.
pub const R_LED_BEHAVIOUR_2: u8 = 0x82;

pub const R_LED_PULSE_1_PER: u8 = 0x84;

pub const R_LED_PULSE_2_PER: u8 = 0x85;

pub const R_LED_BREATHE_PER: u8 = 0x86;

pub const R_LED_CONFIG: u8 = 0x88;

pub const R_LED_PULSE_1_DUT: u8 = 0x90;

pub const R_LED_PULSE_2_DUT: u8 = 0x91;

pub const R_LED_BREATHE_DUT: u8 = 0x92;

pub const R_LED_DIRECT_DUT: u8 = 0x93;

pub const R_LED_DIRECT_RAMP: u8 = 0x94;

pub const R_LED_OFF_DELAY: u8 = 0x95;

pub const R_PRODUCT_ID: u8 = 0xFD;

pub const R_MANUFACTURER_ID: u8 = 0xFE;

pub const R_REVISION: u8 = 0xFF;

/// LED behaviour codes for the two-bit per-LED fields.
pub const LED_BEHAVIOUR_DIRECT: u8 = 0b00;

pub const LED_BEHAVIOUR_PULSE1: u8 = 0b01;

pub const LED_BEHAVIOUR_PULSE2: u8 = 0b10;

pub const LED_BEHAVIOUR_BREATHE: u8 = 0b11;

pub const LED_OPEN_DRAIN: u8 = 0;

pub const LED_PUSH_PULL: u8 = 1;

} // verus!
