//! Register-level driver for CAP1xxx capacitive touch sensor chips.
//!
//! The driver translates high-level operations (enable inputs, configure LED
//! behaviour, set timing) into read-modify-write transactions against the
//! chip's 8-bit registers, reached through a caller-supplied bus transport.
//! Every operation is a single blocking round trip (or a read followed by a
//! write) owned by one caller; the handle owns the transport exclusively and
//! the chip's registers are the only state between calls.

use vstd::prelude::*;

pub mod bits;
pub mod bus;
pub mod consts;
pub mod error;
pub mod sim;

use crate::bits::{
    clear_bit, replace_field, set_bit, spec_change_bit, spec_clear_bit, spec_replace_field,
    spec_set_bit,
};
use crate::bus::{fetch_seq, lemma_store_one, Bus};
use crate::consts::{
    R_CALIBRATION, R_CONFIGURATION2, R_GENERAL_CONFIG, R_INPUT_1_DELTA, R_INPUT_1_THRESH,
    R_INPUT_CONFIG, R_INPUT_CONFIG2, R_INPUT_ENABLE, R_INPUT_STATUS, R_INTERRUPT_EN,
    R_LED_BEHAVIOUR_1, R_LED_BREATHE_DUT, R_LED_BREATHE_PER, R_LED_CONFIG, R_LED_DIRECT_DUT,
    R_LED_DIRECT_RAMP, R_LED_LINKING, R_LED_OUTPUT_CON, R_LED_OUTPUT_TYPE, R_LED_POLARITY,
    R_LED_PULSE_1_DUT, R_LED_PULSE_1_PER, R_LED_PULSE_2_DUT, R_LED_PULSE_2_PER, R_MAIN_CONTROL,
    R_MTOUCH_CONFIG, R_REPEAT_EN, R_SAMPLING_CONFIG, R_SENSITIVITY,
};
use crate::error::{Error, ReadError, WriteError};

verus! {

/// Result of an operation that can fail on either phase of the bus protocol.
pub type RWResult<B, R> = Result<R, Error<<B as Bus>::ReadFault, <B as Bus>::WriteFault>>;

/// The 4-bit rate code for a duration in milliseconds: the duration is
/// clamped to `[35, 560]` and quantized to the nearest lower multiple of
/// 35 ms, 35 ms giving code 0 and 560 ms giving code 15.
pub open spec fn spec_rate_code(ms: int) -> u8 {
    let c = if ms < 35 {
        35
    } else if ms > 560 {
        560
    } else {
        ms
    };
    (((c - c % 35) - 35) / 35) as u8
}

/// The 7-bit period code for a duration in milliseconds: the duration is
/// clamped to at most 4064 ms and divided by 32 ms, the chip's resolution.
pub open spec fn spec_period_code(ms: int) -> u8 {
    ((if ms > 4064 {
        4064
    } else {
        ms
    }) / 32) as u8
}

/// The 3-bit ramp-rate code for a rise or fall time in milliseconds:
/// divided by 250 ms and clamped to at most 7.
pub open spec fn spec_ramp_code(ms: int) -> u8 {
    if ms / 250 > 7 {
        7
    } else {
        (ms / 250) as u8
    }
}

/// Packs a pair of 4-bit duty values into one register byte, the maximum duty
/// in the high nibble and the minimum duty in the low nibble.
///
/// Values wider than a nibble are not masked: the high bits of `duty_max` are
/// shifted out, and the high bits of `duty_min` spill into the high nibble.
pub fn duty_pair_to_byte(duty_min: u8, duty_max: u8) -> (r: u8)
    ensures
        r == ((duty_max << 4u8) | duty_min),
{
    (duty_max << 4u8) | duty_min
}

/// The 3-bit code for one LED ramp time. Valid inputs are multiples of
/// 250 ms up to 2000 ms; anything else rounds down, or clamps at code 7.
pub fn ramp_rate_to_code(rate_ms: u16) -> (r: u8)
    ensures
        r == spec_ramp_code(rate_ms as int),
        r <= 7,
{
    let c = rate_ms / 250;
    if c > 7 {
        7
    } else {
        c as u8
    }
}

/// The register file after the first `steps` writes of the initialization
/// sequence: enable all inputs and interrupts, disable repeat, enable
/// multi-touch, set hold delay and repeat rate to 210 ms, then five
/// full-byte configuration defaults for sampling, calibration, sensitivity,
/// general configuration and the second configuration register.
pub open spec fn spec_init_after(regs: Seq<u8>, steps: int) -> Seq<u8>
    decreases steps,
{
    if steps <= 0 {
        regs
    } else {
        let prev = spec_init_after(regs, steps - 1);
        if steps == 1 {
            prev.update(R_INPUT_ENABLE as int, 0b11111111u8)
        } else if steps == 2 {
            prev.update(R_INTERRUPT_EN as int, 0b11111111u8)
        } else if steps == 3 {
            prev.update(R_REPEAT_EN as int, 0b00000000u8)
        } else if steps == 4 {
            prev.update(R_MTOUCH_CONFIG as int, prev[R_MTOUCH_CONFIG as int] & !0x80u8)
        } else if steps == 5 {
            prev.update(
                R_INPUT_CONFIG2 as int,
                (prev[R_INPUT_CONFIG2 as int] & !0x0Fu8) | spec_rate_code(210),
            )
        } else if steps == 6 {
            prev.update(
                R_INPUT_CONFIG as int,
                (prev[R_INPUT_CONFIG as int] & !0x0Fu8) | spec_rate_code(210),
            )
        } else if steps == 7 {
            prev.update(R_SAMPLING_CONFIG as int, 0b00001000u8)
        } else if steps == 8 {
            prev.update(R_CALIBRATION as int, 0b00111111u8)
        } else if steps == 9 {
            prev.update(R_SENSITIVITY as int, 0b01100000u8)
        } else if steps == 10 {
            prev.update(R_GENERAL_CONFIG as int, 0b00111000u8)
        } else if steps == 11 {
            prev.update(R_CONFIGURATION2 as int, 0b01100000u8)
        } else {
            prev
        }
    }
}

/// Driver handle for one CAP1xxx device.
///
/// The handle owns the bus transport exclusively and carries two values fixed
/// at construction: the device's bus address and the number of LED/input
/// channels, which bounds every channel-indexed operation.
pub struct CAP1XXX<B: Bus> {
    i2c: B,
    number_of_leds: u8,
    i2c_address: u8,
}

impl<B: Bus> CAP1XXX<B> {
    /// Ghost view of the device's register file.
    pub closed spec fn regs(&self) -> Seq<u8> {
        self.i2c.regs()
    }

    /// The channel count fixed at construction.
    pub closed spec fn led_count(&self) -> u8 {
        self.number_of_leds
    }

    /// The bus address fixed at construction.
    pub closed spec fn address(&self) -> u8 {
        self.i2c_address
    }

    /// The handle is well formed: the modelled register file covers the
    /// byte-addressed space and the channel count fits the 8-bit registers
    /// that hold one bit or one 2-bit field per channel.
    pub closed spec fn wf(&self) -> bool {
        self.i2c.regs().len() == 256 && self.number_of_leds <= 8
    }

    /// The two construction-time configuration values are the same in both
    /// handles; only the device's registers may differ.
    pub closed spec fn same_device(&self, other: &Self) -> bool {
        self.number_of_leds == other.number_of_leds && self.i2c_address == other.i2c_address
    }

    /// Creates a handle over the given transport. The channel count is at
    /// most 8, one bit of an 8-bit register per channel.
    pub fn new(i2c: B, i2c_address: u8, number_of_leds: u8) -> (r: Self)
        requires
            i2c.regs().len() == 256,
            number_of_leds <= 8,
        ensures
            r.wf(),
            r.regs() == i2c.regs(),
            r.led_count() == number_of_leds,
            r.address() == i2c_address,
    {
        Self { i2c, number_of_leds, i2c_address }
    }

    /// Read access to the owned transport, for callers that need to inspect
    /// it (a simulated bus's registers or counters, for instance).
    pub fn bus(&self) -> (r: &B)
        ensures
            r.regs() == self.regs(),
    {
        &self.i2c
    }

    /// Puts the device into a known default state: all inputs and interrupts
    /// enabled, repeat disabled on every channel, multi-touch enabled, hold
    /// delay and repeat rate at 210 ms, and tested default bytes for
    /// sampling, calibration, sensitivity and the two general configuration
    /// registers. The sequence has no branching and short-circuits on the
    /// first failure: writes already applied stay applied (each is
    /// independently idempotent, so rerunning after a failure is safe).
    pub fn init(&mut self) -> (r: RWResult<B, ()>)
        requires
            old(self).wf(),
        ensures
            final(self).wf(),
            old(self).same_device(final(self)),
            match r {
                Ok(()) => final(self).regs() == spec_init_after(old(self).regs(), 11),
                Err(e) => !(e is LedNumberOverflowError) && exists|k: int|
                    0 <= k < 11 && final(self).regs() == #[trigger] spec_init_after(
                        old(self).regs(),
                        k,
                    ),
            },
    {
        let ghost r0 = self.regs();
        proof {
            assert(spec_init_after(r0, 0) == r0);
        }
        match self.enable_inputs(0b11111111) {
            Ok(()) => proof {
                assert(self.regs() == spec_init_after(r0, 1));
            },
            Err(e) => {
                return Err(e);
            },
        }
        match self.enable_interrupts(0b11111111) {
            Ok(()) => proof {
                assert(self.regs() == spec_init_after(r0, 2));
            },
            Err(e) => {
                return Err(e);
            },
        }
        match self.enable_repeat(0b00000000) {
            Ok(()) => proof {
                assert(self.regs() == spec_init_after(r0, 3));
            },
            Err(e) => {
                return Err(e);
            },
        }
        match self.enable_multitouch(true) {
            Ok(()) => proof {
                assert(self.regs() == spec_init_after(r0, 4));
            },
            Err(e) => {
                return Err(e);
            },
        }
        match self.set_hold_delay(210) {
            Ok(()) => proof {
                assert(self.regs() == spec_init_after(r0, 5));
            },
            Err(e) => {
                return Err(e);
            },
        }
        match self.set_repeat_rate(210) {
            Ok(()) => proof {
                assert(self.regs() == spec_init_after(r0, 6));
            },
            Err(e) => {
                return Err(e);
            },
        }
        match self.write_byte(R_SAMPLING_CONFIG, 0b00001000) {
            Ok(()) => proof {
                assert(self.regs() == spec_init_after(r0, 7));
            },
            Err(e) => {
                return Err(Error::WriteError(e));
            },
        }
        match self.write_byte(R_CALIBRATION, 0b00111111) {
            Ok(()) => proof {
                assert(self.regs() == spec_init_after(r0, 8));
            },
            Err(e) => {
                return Err(Error::WriteError(e));
            },
        }
        match self.write_byte(R_SENSITIVITY, 0b01100000) {
            Ok(()) => proof {
                assert(self.regs() == spec_init_after(r0, 9));
            },
            Err(e) => {
                return Err(Error::WriteError(e));
            },
        }
        match self.write_byte(R_GENERAL_CONFIG, 0b00111000) {
            Ok(()) => proof {
                assert(self.regs() == spec_init_after(r0, 10));
            },
            Err(e) => {
                return Err(Error::WriteError(e));
            },
        }
        match self.write_byte(R_CONFIGURATION2, 0b01100000) {
            Ok(()) => proof {
                assert(self.regs() == spec_init_after(r0, 11));
            },
            Err(e) => {
                return Err(Error::WriteError(e));
            },
        }
        Ok(())
    }

    /// One write transaction with the payload `[register, value]`: the
    /// register address is the first payload byte, per the chip's command
    /// framing. On success the register holds `value`.
    fn write_byte(&mut self, register: u8, value: u8) -> (r: Result<
        (),
        WriteError<B::WriteFault>,
    >)
        requires
            old(self).wf(),
        ensures
            final(self).wf(),
            old(self).same_device(final(self)),
            match r {
                Ok(()) => final(self).regs() == old(self).regs().update(register as int, value),
                Err(_) => final(self).regs() == old(self).regs(),
            },
    {
        let ghost pre = self.i2c.regs();
        let mut payload: Vec<u8> = Vec::new();
        payload.push(register);
        payload.push(value);
        match self.i2c.write(self.i2c_address, payload.as_slice()) {
            Ok(()) => {
                proof {
                    assert(payload@.drop_first() =~= seq![value]);
                    lemma_store_one(pre, register as int, value);
                }
                Ok(())
            },
            Err(e) => Err(WriteError(e)),
        }
    }

    /// One write-then-read transaction sending the register address and
    /// receiving one byte: the register's current value.
    fn read_byte(&mut self, register: u8) -> (r: Result<u8, ReadError<B::ReadFault>>)
        requires
            old(self).wf(),
        ensures
            final(self).wf(),
            old(self).same_device(final(self)),
            final(self).regs() == old(self).regs(),
            match r {
                Ok(v) => v == old(self).regs()[register as int],
                Err(_) => true,
            },
    {
        let mut command: Vec<u8> = Vec::new();
        command.push(register);
        match self.i2c.write_then_read(self.i2c_address, command.as_slice(), 1) {
            Ok(data) => {
                assert(data@.len() == 1);
                Ok(data[0])
            },
            Err(e) => Err(ReadError(e)),
        }
    }

    /// One write-then-read transaction reading `len` contiguous bytes
    /// starting at `register`.
    fn read_block(&mut self, register: u8, len: usize) -> (r: Result<
        Vec<u8>,
        ReadError<B::ReadFault>,
    >)
        requires
            old(self).wf(),
        ensures
            final(self).wf(),
            old(self).same_device(final(self)),
            final(self).regs() == old(self).regs(),
            match r {
                Ok(data) => data@ == fetch_seq(old(self).regs(), register as int, len as nat),
                Err(_) => true,
            },
    {
        let mut command: Vec<u8> = Vec::new();
        command.push(register);
        match self.i2c.write_then_read(self.i2c_address, command.as_slice(), len) {
            Ok(data) => Ok(data),
            Err(e) => Err(ReadError(e)),
        }
    }

    /// The read-modify-write primitive: reads the register, applies the pure
    /// transform `op`, writes the result back. Not atomic against other bus
    /// masters; the driver assumes exclusive bus ownership for the two
    /// transactions. A failed read short-circuits: no write is attempted and
    /// the register file is untouched.
    fn change_value<F: Fn(u8) -> u8>(&mut self, register: u8, op: F) -> (r: RWResult<B, ()>)
        requires
            old(self).wf(),
            forall|v: u8| #[trigger] call_requires(op, (v,)),
        ensures
            final(self).wf(),
            old(self).same_device(final(self)),
            match r {
                Ok(()) => exists|nv: u8|
                    #[trigger] call_ensures(op, (old(self).regs()[register as int],), nv)
                        && final(self).regs() == old(self).regs().update(register as int, nv),
                Err(e) => final(self).regs() == old(self).regs() && !(e is LedNumberOverflowError),
            },
    {
        let current = match self.read_byte(register) {
            Ok(v) => v,
            Err(e) => {
                return Err(Error::ReadError(e));
            },
        };
        let new_value = op(current);
        match self.write_byte(register, new_value) {
            Ok(()) => Ok(()),
            Err(e) => Err(Error::WriteError(e)),
        }
    }

    /// Read-modify-write that sets one bit of a register.
    fn set_bit(&mut self, register: u8, bit: u8) -> (r: RWResult<B, ()>)
        requires
            old(self).wf(),
            bit < 8,
        ensures
            final(self).wf(),
            old(self).same_device(final(self)),
            match r {
                Ok(()) => final(self).regs() == old(self).regs().update(
                    register as int,
                    spec_set_bit(old(self).regs()[register as int], bit),
                ),
                Err(e) => final(self).regs() == old(self).regs() && !(e
                    is LedNumberOverflowError),
            },
    {
        self.change_value(
            register,
            (|value: u8| -> (res: u8)
                ensures
                    res == spec_set_bit(value, bit),
                { set_bit(value, bit) }),
        )
    }

    /// Read-modify-write that clears one bit of a register.
    fn clear_bit(&mut self, register: u8, bit: u8) -> (r: RWResult<B, ()>)
        requires
            old(self).wf(),
            bit < 8,
        ensures
            final(self).wf(),
            old(self).same_device(final(self)),
            match r {
                Ok(()) => final(self).regs() == old(self).regs().update(
                    register as int,
                    spec_clear_bit(old(self).regs()[register as int], bit),
                ),
                Err(e) => final(self).regs() == old(self).regs() && !(e
                    is LedNumberOverflowError),
            },
    {
        self.change_value(
            register,
            (|value: u8| -> (res: u8)
                ensures
                    res == spec_clear_bit(value, bit),
                { clear_bit(value, bit) }),
        )
    }

    /// Read-modify-write that drives one bit of a register to `state`.
    fn change_bit(&mut self, register: u8, bit: u8, state: bool) -> (r: RWResult<B, ()>)
        requires
            old(self).wf(),
            bit < 8,
        ensures
            final(self).wf(),
            old(self).same_device(final(self)),
            match r {
                Ok(()) => final(self).regs() == old(self).regs().update(
                    register as int,
                    spec_change_bit(old(self).regs()[register as int], bit, state),
                ),
                Err(e) => final(self).regs() == old(self).regs() && !(e
                    is LedNumberOverflowError),
            },
    {
        if state {
            self.set_bit(register, bit)
        } else {
            self.clear_bit(register, bit)
        }
    }

    /// Read-modify-write that replaces the `size`-bit field at `offset` of a
    /// register with `bits`, unmasked (clear-then-OR composition).
    fn change_bits(&mut self, register: u8, offset: u8, size: u8, bits: u8) -> (r: RWResult<
        B,
        (),
    >)
        requires
            old(self).wf(),
            offset < 8,
            offset + size <= 8,
        ensures
            final(self).wf(),
            old(self).same_device(final(self)),
            match r {
                Ok(()) => final(self).regs() == old(self).regs().update(
                    register as int,
                    spec_replace_field(old(self).regs()[register as int], offset, size, bits),
                ),
                Err(e) => final(self).regs() == old(self).regs() && !(e
                    is LedNumberOverflowError),
            },
    {
        self.change_value(
            register,
            (|value: u8| -> (res: u8)
                requires
                    offset < 8,
                    offset + size <= 8,
                ensures
                    res == spec_replace_field(value, offset, size, bits),
                { replace_field(value, offset, size, bits) }),
        )
    }

    /// The 4-bit rate code shared by the hold-delay and repeat-rate
    /// registers: the duration is clamped to `[35, 560]` milliseconds and
    /// quantized to the nearest lower multiple of 35 ms.
    pub fn duration_to_rate_scale(duration_ms: u64) -> (r: u8)
        ensures
            r == spec_rate_code(duration_ms as int),
            r <= 15,
    {
        let low = if duration_ms < 35 {
            35
        } else {
            duration_ms
        };
        let ms = if low > 560 {
            560
        } else {
            low
        };
        ((ms - ms % 35 - 35) / 35) as u8
    }

    /// The 7-bit period code for LED pulse and breathe periods: the duration
    /// is clamped to at most 4064 ms and divided by the 32 ms resolution.
    pub fn convert_duration_to_period_value(period_ms: u64) -> (r: u8)
        ensures
            r == spec_period_code(period_ms as int),
            r <= 127,
    {
        let clamped = if period_ms > 4064 {
            4064
        } else {
            period_ms
        };
        let code = clamped / 32;
        proof {
            assert(code & 127 == code) by (bit_vector)
                requires
                    code <= 127u64,
            ;
        }
        ((clamped / 32) & 127) as u8
    }

    /// Clears the touch interrupt flag, bit 0 of the main control register.
    pub fn clear_interrupt(&mut self) -> (r: RWResult<B, ()>)
        requires
            old(self).wf(),
        ensures
            final(self).wf(),
            old(self).same_device(final(self)),
            match r {
                Ok(()) => final(self).regs() == old(self).regs().update(
                    R_MAIN_CONTROL as int,
                    spec_clear_bit(old(self).regs()[R_MAIN_CONTROL as int], 0),
                ),
                Err(e) => final(self).regs() == old(self).regs() && !(e
                    is LedNumberOverflowError),
            },
    {
        self.clear_bit(R_MAIN_CONTROL, 0)
    }

    /// Whether the touch interrupt flag, bit 0 of the main control register,
    /// is set.
    pub fn is_interrupted(&mut self) -> (r: RWResult<B, bool>)
        requires
            old(self).wf(),
        ensures
            final(self).wf(),
            old(self).same_device(final(self)),
            final(self).regs() == old(self).regs(),
            match r {
                Ok(b) => b == ((old(self).regs()[R_MAIN_CONTROL as int] & 1) > 0),
                Err(e) => e is ReadError,
            },
    {
        match self.read_byte(R_MAIN_CONTROL) {
            Ok(value) => Ok((value & 1) > 0),
            Err(e) => Err(Error::ReadError(e)),
        }
    }

    /// Drives the max-duration recalibration bit of the general
    /// configuration register.
    pub fn auto_recalibrate(&mut self, value: bool) -> (r: RWResult<B, ()>)
        requires
            old(self).wf(),
        ensures
            final(self).wf(),
            old(self).same_device(final(self)),
            match r {
                Ok(()) => final(self).regs() == old(self).regs().update(
                    R_GENERAL_CONFIG as int,
                    spec_change_bit(old(self).regs()[R_GENERAL_CONFIG as int], 3, value),
                ),
                Err(e) => final(self).regs() == old(self).regs() && !(e
                    is LedNumberOverflowError),
            },
    {
        self.change_bit(R_GENERAL_CONFIG, 3, value)
    }

    /// Enables or disables analog-noise filtering. The register bit disables
    /// the filter when set, so the bit is driven to the negation of `value`.
    pub fn filter_analog_noise(&mut self, value: bool) -> (r: RWResult<B, ()>)
        requires
            old(self).wf(),
        ensures
            final(self).wf(),
            old(self).same_device(final(self)),
            match r {
                Ok(()) => final(self).regs() == old(self).regs().update(
                    R_GENERAL_CONFIG as int,
                    spec_change_bit(old(self).regs()[R_GENERAL_CONFIG as int], 4, !value),
                ),
                Err(e) => final(self).regs() == old(self).regs() && !(e
                    is LedNumberOverflowError),
            },
    {
        self.change_bit(R_GENERAL_CONFIG, 4, !value)
    }

    /// Enables or disables digital-noise filtering. The register bit disables
    /// the filter when set, so the bit is driven to the negation of `value`.
    pub fn filter_digital_noise(&mut self, value: bool) -> (r: RWResult<B, ()>)
        requires
            old(self).wf(),
        ensures
            final(self).wf(),
            old(self).same_device(final(self)),
            match r {
                Ok(()) => final(self).regs() == old(self).regs().update(
                    R_GENERAL_CONFIG as int,
                    spec_change_bit(old(self).regs()[R_GENERAL_CONFIG as int], 5, !value),
                ),
                Err(e) => final(self).regs() == old(self).regs() && !(e
                    is LedNumberOverflowError),
            },
    {
        self.change_bit(R_GENERAL_CONFIG, 5, !value)
    }

    /// Sets the time before a press-and-hold is detected: the low nibble of
    /// the second input configuration register becomes the rate code of
    /// `delay_ms` (clamped to multiples of 35 ms in `[35, 560]`), the high
    /// nibble is preserved.
    pub fn set_hold_delay(&mut self, delay_ms: u64) -> (r: RWResult<B, ()>)
        requires
            old(self).wf(),
        ensures
            final(self).wf(),
            old(self).same_device(final(self)),
            match r {
                Ok(()) => final(self).regs() == old(self).regs().update(
                    R_INPUT_CONFIG2 as int,
                    (old(self).regs()[R_INPUT_CONFIG2 as int] & !0x0Fu8) | spec_rate_code(
                        delay_ms as int,
                    ),
                ),
                Err(e) => final(self).regs() == old(self).regs() && !(e
                    is LedNumberOverflowError),
            },
    {
        let rate = Self::duration_to_rate_scale(delay_ms);
        self.change_value(
            R_INPUT_CONFIG2,
            (|v: u8| -> (res: u8)
                ensures
                    res == (v & !0x0Fu8) | rate,
                { (v & !0x0Fu8) | rate }),
        )
    }

    /// Sets the repeat rate: the low nibble of the input configuration
    /// register becomes the rate code of `delay_ms` (clamped to multiples of
    /// 35 ms in `[35, 560]`), the high nibble is preserved.
    pub fn set_repeat_rate(&mut self, delay_ms: u64) -> (r: RWResult<B, ()>)
        requires
            old(self).wf(),
        ensures
            final(self).wf(),
            old(self).same_device(final(self)),
            match r {
                Ok(()) => final(self).regs() == old(self).regs().update(
                    R_INPUT_CONFIG as int,
                    (old(self).regs()[R_INPUT_CONFIG as int] & !0x0Fu8) | spec_rate_code(
                        delay_ms as int,
                    ),
                ),
                Err(e) => final(self).regs() == old(self).regs() && !(e
                    is LedNumberOverflowError),
            },
    {
        let rate = Self::duration_to_rate_scale(delay_ms);
        self.change_value(
            R_INPUT_CONFIG,
            (|v: u8| -> (res: u8)
                ensures
                    res == (v & !0x0Fu8) | rate,
                { (v & !0x0Fu8) | rate }),
        )
    }

    /// Enables or disables multi-touch by driving the multi-touch block bit
    /// of the multi-touch configuration register: a set bit blocks
    /// multi-touch, so enabling clears it.
    pub fn enable_multitouch(&mut self, enable: bool) -> (r: RWResult<B, ()>)
        requires
            old(self).wf(),
        ensures
            final(self).wf(),
            old(self).same_device(final(self)),
            match r {
                Ok(()) => final(self).regs() == old(self).regs().update(
                    R_MTOUCH_CONFIG as int,
                    if enable {
                        old(self).regs()[R_MTOUCH_CONFIG as int] & !0x80u8
                    } else {
                        old(self).regs()[R_MTOUCH_CONFIG as int] | 0x80u8
                    },
                ),
                Err(e) => final(self).regs() == old(self).regs() && !(e
                    is LedNumberOverflowError),
            },
    {
        self.change_value(
            R_MTOUCH_CONFIG,
            (|value: u8| -> (res: u8)
                ensures
                    res == if enable {
                        value & !0x80u8
                    } else {
                        value | 0x80u8
                    },
                {
                    if enable {
                        value & !0x80u8
                    } else {
                        value | 0x80u8
                    }
                }),
        )
    }

    /// Full-byte write of the repeat-enable register, one bit per channel.
    pub fn enable_repeat(&mut self, inputs: u8) -> (r: RWResult<B, ()>)
        requires
            old(self).wf(),
        ensures
            final(self).wf(),
            old(self).same_device(final(self)),
            match r {
                Ok(()) => final(self).regs() == old(self).regs().update(
                    R_REPEAT_EN as int,
                    inputs,
                ),
                Err(e) => final(self).regs() == old(self).regs() && e is WriteError,
            },
    {
        match self.write_byte(R_REPEAT_EN, inputs) {
            Ok(()) => Ok(()),
            Err(e) => Err(Error::WriteError(e)),
        }
    }

    /// Full-byte write of the interrupt-enable register, one bit per channel.
    pub fn enable_interrupts(&mut self, inputs: u8) -> (r: RWResult<B, ()>)
        requires
            old(self).wf(),
        ensures
            final(self).wf(),
            old(self).same_device(final(self)),
            match r {
                Ok(()) => final(self).regs() == old(self).regs().update(
                    R_INTERRUPT_EN as int,
                    inputs,
                ),
                Err(e) => final(self).regs() == old(self).regs() && e is WriteError,
            },
    {
        match self.write_byte(R_INTERRUPT_EN, inputs) {
            Ok(()) => Ok(()),
            Err(e) => Err(Error::WriteError(e)),
        }
    }

    /// Full-byte write of the input-enable register, one bit per channel.
    pub fn enable_inputs(&mut self, inputs: u8) -> (r: RWResult<B, ()>)
        requires
            old(self).wf(),
        ensures
            final(self).wf(),
            old(self).same_device(final(self)),
            match r {
                Ok(()) => final(self).regs() == old(self).regs().update(
                    R_INPUT_ENABLE as int,
                    inputs,
                ),
                Err(e) => final(self).regs() == old(self).regs() && e is WriteError,
            },
    {
        match self.write_byte(R_INPUT_ENABLE, inputs) {
            Ok(()) => Ok(()),
            Err(e) => Err(Error::WriteError(e)),
        }
    }

    /// Reads the input status register, one touch bit per channel.
    pub fn read_input_status(&mut self) -> (r: Result<u8, ReadError<B::ReadFault>>)
        requires
            old(self).wf(),
        ensures
            final(self).wf(),
            old(self).same_device(final(self)),
            final(self).regs() == old(self).regs(),
            match r {
                Ok(v) => v == old(self).regs()[R_INPUT_STATUS as int],
                Err(_) => true,
            },
    {
        self.read_byte(R_INPUT_STATUS)
    }

    /// Reads the touch detection threshold of every configured channel in
    /// one block transaction.
    pub fn read_threshold_values(&mut self) -> (r: Result<Vec<u8>, ReadError<B::ReadFault>>)
        requires
            old(self).wf(),
        ensures
            final(self).wf(),
            old(self).same_device(final(self)),
            final(self).regs() == old(self).regs(),
            match r {
                Ok(data) => data@ == fetch_seq(
                    old(self).regs(),
                    R_INPUT_1_THRESH as int,
                    old(self).led_count() as nat,
                ),
                Err(_) => true,
            },
    {
        let len = self.number_of_leds as usize;
        self.read_block(R_INPUT_1_THRESH, len)
    }

    /// Reads the delta count of every configured channel in one block
    /// transaction, from the delta-count register block.
    pub fn read_delta_values(&mut self) -> (r: Result<Vec<u8>, ReadError<B::ReadFault>>)
        requires
            old(self).wf(),
        ensures
            final(self).wf(),
            old(self).same_device(final(self)),
            final(self).regs() == old(self).regs(),
            match r {
                Ok(data) => data@ == fetch_seq(
                    old(self).regs(),
                    R_INPUT_1_DELTA as int,
                    old(self).led_count() as nat,
                ),
                Err(_) => true,
            },
    {
        let len = self.number_of_leds as usize;
        self.read_block(R_INPUT_1_DELTA, len)
    }

    /// Links or unlinks one LED to its touch input. Fails with the
    /// channel-bounds error, before any bus access, when `led_index` is not
    /// below the configured channel count.
    pub fn set_led_linking(&mut self, led_index: u8, state: bool) -> (r: RWResult<B, ()>)
        requires
            old(self).wf(),
        ensures
            final(self).wf(),
            old(self).same_device(final(self)),
            match r {
                Ok(()) => led_index < old(self).led_count() && final(self).regs() == old(
                    self,
                ).regs().update(
                    R_LED_LINKING as int,
                    spec_change_bit(old(self).regs()[R_LED_LINKING as int], led_index, state),
                ),
                Err(e) => final(self).regs() == old(self).regs() && (e is LedNumberOverflowError
                    <==> led_index >= old(self).led_count()),
            },
    {
        if led_index >= self.number_of_leds {
            Err(Error::LedNumberOverflowError)
        } else {
            self.change_bit(R_LED_LINKING, led_index, state)
        }
    }

    /// Sets one LED's output stage to push-pull or open-drain. Fails with the
    /// channel-bounds error, before any bus access, when `led_index` is not
    /// below the configured channel count.
    pub fn set_led_output_type(&mut self, led_index: u8, state: bool) -> (r: RWResult<B, ()>)
        requires
            old(self).wf(),
        ensures
            final(self).wf(),
            old(self).same_device(final(self)),
            match r {
                Ok(()) => led_index < old(self).led_count() && final(self).regs() == old(
                    self,
                ).regs().update(
                    R_LED_OUTPUT_TYPE as int,
                    spec_change_bit(old(self).regs()[R_LED_OUTPUT_TYPE as int], led_index, state),
                ),
                Err(e) => final(self).regs() == old(self).regs() && (e is LedNumberOverflowError
                    <==> led_index >= old(self).led_count()),
            },
    {
        if led_index >= self.number_of_leds {
            Err(Error::LedNumberOverflowError)
        } else {
            self.change_bit(R_LED_OUTPUT_TYPE, led_index, state)
        }
    }

    /// Turns one LED on or off. Fails with the channel-bounds error, before
    /// any bus access, when `led_index` is not below the configured channel
    /// count.
    pub fn set_led_state(&mut self, led_index: u8, state: bool) -> (r: RWResult<B, ()>)
        requires
            old(self).wf(),
        ensures
            final(self).wf(),
            old(self).same_device(final(self)),
            match r {
                Ok(()) => led_index < old(self).led_count() && final(self).regs() == old(
                    self,
                ).regs().update(
                    R_LED_OUTPUT_CON as int,
                    spec_change_bit(old(self).regs()[R_LED_OUTPUT_CON as int], led_index, state),
                ),
                Err(e) => final(self).regs() == old(self).regs() && (e is LedNumberOverflowError
                    <==> led_index >= old(self).led_count()),
            },
    {
        if led_index >= self.number_of_leds {
            Err(Error::LedNumberOverflowError)
        } else {
            self.change_bit(R_LED_OUTPUT_CON, led_index, state)
        }
    }

    /// Sets one LED's polarity. Fails with the channel-bounds error, before
    /// any bus access, when `led_index` is not below the configured channel
    /// count.
    pub fn set_led_polarity(&mut self, led_index: u8, state: bool) -> (r: RWResult<B, ()>)
        requires
            old(self).wf(),
        ensures
            final(self).wf(),
            old(self).same_device(final(self)),
            match r {
                Ok(()) => led_index < old(self).led_count() && final(self).regs() == old(
                    self,
                ).regs().update(
                    R_LED_POLARITY as int,
                    spec_change_bit(old(self).regs()[R_LED_POLARITY as int], led_index, state),
                ),
                Err(e) => final(self).regs() == old(self).regs() && (e is LedNumberOverflowError
                    <==> led_index >= old(self).led_count()),
            },
    {
        if led_index >= self.number_of_leds {
            Err(Error::LedNumberOverflowError)
        } else {
            self.change_bit(R_LED_POLARITY, led_index, state)
        }
    }

    /// Sets one LED's 2-bit behaviour code. Four channels share each
    /// behaviour register: channel `i` lives in register
    /// `R_LED_BEHAVIOUR_1 + i / 4` at bit offset `(i * 2) % 8`, and the code
    /// is masked to 2 bits before composition. Fails with the channel-bounds
    /// error, before any bus access, when `led_index` is not below the
    /// configured channel count.
    pub fn set_led_behaviour(&mut self, led_index: u8, value: u8) -> (r: RWResult<B, ()>)
        requires
            old(self).wf(),
        ensures
            final(self).wf(),
            old(self).same_device(final(self)),
            match r {
                Ok(()) => led_index < old(self).led_count() && final(self).regs() == old(
                    self,
                ).regs().update(
                    R_LED_BEHAVIOUR_1 + led_index / 4,
                    spec_replace_field(
                        old(self).regs()[R_LED_BEHAVIOUR_1 + led_index / 4],
                        ((led_index * 2) % 8) as u8,
                        2,
                        value & 3,
                    ),
                ),
                Err(e) => final(self).regs() == old(self).regs() && (e is LedNumberOverflowError
                    <==> led_index >= old(self).led_count()),
            },
    {
        if led_index >= self.number_of_leds {
            Err(Error::LedNumberOverflowError)
        } else {
            let offset = led_index * 2 % 8;
            let register = led_index / 4;
            let masked = value & 3;
            self.change_bits(R_LED_BEHAVIOUR_1 + register, offset, 2, masked)
        }
    }

    /// Sets the overall period of the first LED pulse pattern, from 32 ms to
    /// 4064 ms; the top bit of the register is preserved.
    pub fn set_led_pulse1_period(&mut self, period_ms: u64) -> (r: RWResult<B, ()>)
        requires
            old(self).wf(),
        ensures
            final(self).wf(),
            old(self).same_device(final(self)),
            match r {
                Ok(()) => final(self).regs() == old(self).regs().update(
                    R_LED_PULSE_1_PER as int,
                    spec_replace_field(
                        old(self).regs()[R_LED_PULSE_1_PER as int],
                        0,
                        7,
                        spec_period_code(period_ms as int),
                    ),
                ),
                Err(e) => final(self).regs() == old(self).regs() && !(e
                    is LedNumberOverflowError),
            },
    {
        let code = Self::convert_duration_to_period_value(period_ms);
        self.change_bits(R_LED_PULSE_1_PER, 0, 7, code)
    }

    /// Sets the overall period of the second LED pulse pattern, from 32 ms to
    /// 4064 ms; the top bit of the register is preserved.
    pub fn set_led_pulse2_period(&mut self, period_ms: u64) -> (r: RWResult<B, ()>)
        requires
            old(self).wf(),
        ensures
            final(self).wf(),
            old(self).same_device(final(self)),
            match r {
                Ok(()) => final(self).regs() == old(self).regs().update(
                    R_LED_PULSE_2_PER as int,
                    spec_replace_field(
                        old(self).regs()[R_LED_PULSE_2_PER as int],
                        0,
                        7,
                        spec_period_code(period_ms as int),
                    ),
                ),
                Err(e) => final(self).regs() == old(self).regs() && !(e
                    is LedNumberOverflowError),
            },
    {
        let code = Self::convert_duration_to_period_value(period_ms);
        self.change_bits(R_LED_PULSE_2_PER, 0, 7, code)
    }

    /// Sets the period of the LED breathe pattern, from 32 ms to 4064 ms; the
    /// top bit of the register is preserved.
    pub fn set_led_breathe_period(&mut self, period_ms: u64) -> (r: RWResult<B, ()>)
        requires
            old(self).wf(),
        ensures
            final(self).wf(),
            old(self).same_device(final(self)),
            match r {
                Ok(()) => final(self).regs() == old(self).regs().update(
                    R_LED_BREATHE_PER as int,
                    spec_replace_field(
                        old(self).regs()[R_LED_BREATHE_PER as int],
                        0,
                        7,
                        spec_period_code(period_ms as int),
                    ),
                ),
                Err(e) => final(self).regs() == old(self).regs() && !(e
                    is LedNumberOverflowError),
            },
    {
        let code = Self::convert_duration_to_period_value(period_ms);
        self.change_bits(R_LED_BREATHE_PER, 0, 7, code)
    }

    /// Sets how many times the first pulse pattern repeats, 1 to 8: the
    /// 3-bit field stores `count - 1`.
    pub fn set_led_pulse1_count(&mut self, count: u8) -> (r: RWResult<B, ()>)
        requires
            old(self).wf(),
            count >= 1,
        ensures
            final(self).wf(),
            old(self).same_device(final(self)),
            match r {
                Ok(()) => final(self).regs() == old(self).regs().update(
                    R_LED_CONFIG as int,
                    spec_replace_field(
                        old(self).regs()[R_LED_CONFIG as int],
                        0,
                        3,
                        (count - 1) as u8 & 7,
                    ),
                ),
                Err(e) => final(self).regs() == old(self).regs() && !(e
                    is LedNumberOverflowError),
            },
    {
        self.change_bits(R_LED_CONFIG, 0, 3, (count - 1) & 7)
    }

    /// Sets how many times the second pulse pattern repeats, 1 to 8: the
    /// 3-bit field stores `count - 1`.
    pub fn set_led_pulse2_count(&mut self, count: u8) -> (r: RWResult<B, ()>)
        requires
            old(self).wf(),
            count >= 1,
        ensures
            final(self).wf(),
            old(self).same_device(final(self)),
            match r {
                Ok(()) => final(self).regs() == old(self).regs().update(
                    R_LED_CONFIG as int,
                    spec_replace_field(
                        old(self).regs()[R_LED_CONFIG as int],
                        3,
                        3,
                        (count - 1) as u8 & 7,
                    ),
                ),
                Err(e) => final(self).regs() == old(self).regs() && !(e
                    is LedNumberOverflowError),
            },
    {
        self.change_bits(R_LED_CONFIG, 3, 3, (count - 1) & 7)
    }

    /// Drives the ramp-alert bit of the LED configuration register.
    pub fn set_led_ramp_alert(&mut self, value: bool) -> (r: RWResult<B, ()>)
        requires
            old(self).wf(),
        ensures
            final(self).wf(),
            old(self).same_device(final(self)),
            match r {
                Ok(()) => final(self).regs() == old(self).regs().update(
                    R_LED_CONFIG as int,
                    spec_change_bit(old(self).regs()[R_LED_CONFIG as int], 6, value),
                ),
                Err(e) => final(self).regs() == old(self).regs() && !(e
                    is LedNumberOverflowError),
            },
    {
        self.change_bit(R_LED_CONFIG, 6, value)
    }

    /// Sets the LED rise and fall times for direct mode, each at most
    /// 2000 ms, rounded down to the 250 ms resolution: the full register is
    /// overwritten with the rise code in the high nibble and the fall code in
    /// the low nibble. No other bit of this register is meaningful to the
    /// driver, so a full-byte write is intentional.
    pub fn set_led_direct_ramp_rate(&mut self, rise_rate: u16, fall_rate: u16) -> (r: RWResult<
        B,
        (),
    >)
        requires
            old(self).wf(),
        ensures
            final(self).wf(),
            old(self).same_device(final(self)),
            match r {
                Ok(()) => final(self).regs() == old(self).regs().update(
                    R_LED_DIRECT_RAMP as int,
                    (spec_ramp_code(rise_rate as int) << 4u8) | spec_ramp_code(fall_rate as int),
                ),
                Err(e) => final(self).regs() == old(self).regs() && e is WriteError,
            },
    {
        let rise = ramp_rate_to_code(rise_rate);
        let fall = ramp_rate_to_code(fall_rate);
        match self.write_byte(R_LED_DIRECT_RAMP, (rise << 4u8) | fall) {
            Ok(()) => Ok(()),
            Err(e) => Err(Error::WriteError(e)),
        }
    }

    /// Full-byte write of both direct-mode duty nibbles, the maximum in the
    /// high nibble.
    pub fn set_led_direct_duty(&mut self, duty_min: u8, duty_max: u8) -> (r: RWResult<B, ()>)
        requires
            old(self).wf(),
        ensures
            final(self).wf(),
            old(self).same_device(final(self)),
            match r {
                Ok(()) => final(self).regs() == old(self).regs().update(
                    R_LED_DIRECT_DUT as int,
                    (duty_max << 4u8) | duty_min,
                ),
                Err(e) => final(self).regs() == old(self).regs() && e is WriteError,
            },
    {
        let value = duty_pair_to_byte(duty_min, duty_max);
        match self.write_byte(R_LED_DIRECT_DUT, value) {
            Ok(()) => Ok(()),
            Err(e) => Err(Error::WriteError(e)),
        }
    }

    /// Full-byte write of both duty nibbles of the first pulse pattern, the
    /// maximum in the high nibble.
    pub fn set_led_pulse1_duty(&mut self, duty_min: u8, duty_max: u8) -> (r: RWResult<B, ()>)
        requires
            old(self).wf(),
        ensures
            final(self).wf(),
            old(self).same_device(final(self)),
            match r {
                Ok(()) => final(self).regs() == old(self).regs().update(
                    R_LED_PULSE_1_DUT as int,
                    (duty_max << 4u8) | duty_min,
                ),
                Err(e) => final(self).regs() == old(self).regs() && e is WriteError,
            },
    {
        let value = duty_pair_to_byte(duty_min, duty_max);
        match self.write_byte(R_LED_PULSE_1_DUT, value) {
            Ok(()) => Ok(()),
            Err(e) => Err(Error::WriteError(e)),
        }
    }

    /// Full-byte write of both duty nibbles of the second pulse pattern, the
    /// maximum in the high nibble.
    pub fn set_led_pulse2_duty(&mut self, duty_min: u8, duty_max: u8) -> (r: RWResult<B, ()>)
        requires
            old(self).wf(),
        ensures
            final(self).wf(),
            old(self).same_device(final(self)),
            match r {
                Ok(()) => final(self).regs() == old(self).regs().update(
                    R_LED_PULSE_2_DUT as int,
                    (duty_max << 4u8) | duty_min,
                ),
                Err(e) => final(self).regs() == old(self).regs() && e is WriteError,
            },
    {
        let value = duty_pair_to_byte(duty_min, duty_max);
        match self.write_byte(R_LED_PULSE_2_DUT, value) {
            Ok(()) => Ok(()),
            Err(e) => Err(Error::WriteError(e)),
        }
    }

    /// Full-byte write of both breathe-pattern duty nibbles, the maximum in
    /// the high nibble.
    pub fn set_led_breathe_duty(&mut self, duty_min: u8, duty_max: u8) -> (r: RWResult<B, ()>)
        requires
            old(self).wf(),
        ensures
            final(self).wf(),
            old(self).same_device(final(self)),
            match r {
                Ok(()) => final(self).regs() == old(self).regs().update(
                    R_LED_BREATHE_DUT as int,
                    (duty_max << 4u8) | duty_min,
                ),
                Err(e) => final(self).regs() == old(self).regs() && e is WriteError,
            },
    {
        let value = duty_pair_to_byte(duty_min, duty_max);
        match self.write_byte(R_LED_BREATHE_DUT, value) {
            Ok(()) => Ok(()),
            Err(e) => Err(Error::WriteError(e)),
        }
    }

    /// Read-modify-write of the low (minimum duty) nibble of the direct-mode
    /// duty register; `value` is used unmasked and spills if oversized.
    pub fn set_led_direct_min_duty(&mut self, value: u8) -> (r: RWResult<B, ()>)
        requires
            old(self).wf(),
        ensures
            final(self).wf(),
            old(self).same_device(final(self)),
            match r {
                Ok(()) => final(self).regs() == old(self).regs().update(
                    R_LED_DIRECT_DUT as int,
                    spec_replace_field(old(self).regs()[R_LED_DIRECT_DUT as int], 0, 4, value),
                ),
                Err(e) => final(self).regs() == old(self).regs() && !(e
                    is LedNumberOverflowError),
            },
    {
        self.change_bits(R_LED_DIRECT_DUT, 0, 4, value)
    }

    /// Read-modify-write of the high (maximum duty) nibble of the
    /// direct-mode duty register.
    pub fn set_led_direct_max_duty(&mut self, value: u8) -> (r: RWResult<B, ()>)
        requires
            old(self).wf(),
        ensures
            final(self).wf(),
            old(self).same_device(final(self)),
            match r {
                Ok(()) => final(self).regs() == old(self).regs().update(
                    R_LED_DIRECT_DUT as int,
                    spec_replace_field(old(self).regs()[R_LED_DIRECT_DUT as int], 4, 4, value),
                ),
                Err(e) => final(self).regs() == old(self).regs() && !(e
                    is LedNumberOverflowError),
            },
    {
        self.change_bits(R_LED_DIRECT_DUT, 4, 4, value)
    }

    /// Read-modify-write of the low (minimum duty) nibble of the breathe
    /// duty register.
    pub fn set_led_breathe_min_duty(&mut self, value: u8) -> (r: RWResult<B, ()>)
        requires
            old(self).wf(),
        ensures
            final(self).wf(),
            old(self).same_device(final(self)),
            match r {
                Ok(()) => final(self).regs() == old(self).regs().update(
                    R_LED_BREATHE_DUT as int,
                    spec_replace_field(old(self).regs()[R_LED_BREATHE_DUT as int], 0, 4, value),
                ),
                Err(e) => final(self).regs() == old(self).regs() && !(e
                    is LedNumberOverflowError),
            },
    {
        self.change_bits(R_LED_BREATHE_DUT, 0, 4, value)
    }

    /// Read-modify-write of the high (maximum duty) nibble of the breathe
    /// duty register.
    pub fn set_led_breathe_max_duty(&mut self, value: u8) -> (r: RWResult<B, ()>)
        requires
            old(self).wf(),
        ensures
            final(self).wf(),
            old(self).same_device(final(self)),
            match r {
                Ok(()) => final(self).regs() == old(self).regs().update(
                    R_LED_BREATHE_DUT as int,
                    spec_replace_field(old(self).regs()[R_LED_BREATHE_DUT as int], 4, 4, value),
                ),
                Err(e) => final(self).regs() == old(self).regs() && !(e
                    is LedNumberOverflowError),
            },
    {
        self.change_bits(R_LED_BREATHE_DUT, 4, 4, value)
    }

    /// Read-modify-write of the low (minimum duty) nibble of the first pulse
    /// pattern's duty register.
    pub fn set_led_pulse1_min_duty(&mut self, value: u8) -> (r: RWResult<B, ()>)
        requires
            old(self).wf(),
        ensures
            final(self).wf(),
            old(self).same_device(final(self)),
            match r {
                Ok(()) => final(self).regs() == old(self).regs().update(
                    R_LED_PULSE_1_DUT as int,
                    spec_replace_field(old(self).regs()[R_LED_PULSE_1_DUT as int], 0, 4, value),
                ),
                Err(e) => final(self).regs() == old(self).regs() && !(e
                    is LedNumberOverflowError),
            },
    {
        self.change_bits(R_LED_PULSE_1_DUT, 0, 4, value)
    }

    /// Read-modify-write of the high (maximum duty) nibble of the first
    /// pulse pattern's duty register.
    pub fn set_led_pulse1_max_duty(&mut self, value: u8) -> (r: RWResult<B, ()>)
        requires
            old(self).wf(),
        ensures
            final(self).wf(),
            old(self).same_device(final(self)),
            match r {
                Ok(()) => final(self).regs() == old(self).regs().update(
                    R_LED_PULSE_1_DUT as int,
                    spec_replace_field(old(self).regs()[R_LED_PULSE_1_DUT as int], 4, 4, value),
                ),
                Err(e) => final(self).regs() == old(self).regs() && !(e
                    is LedNumberOverflowError),
            },
    {
        self.change_bits(R_LED_PULSE_1_DUT, 4, 4, value)
    }

    /// Read-modify-write of the low (minimum duty) nibble of the second
    /// pulse pattern's duty register.
    pub fn set_led_pulse2_min_duty(&mut self, value: u8) -> (r: RWResult<B, ()>)
        requires
            old(self).wf(),
        ensures
            final(self).wf(),
            old(self).same_device(final(self)),
            match r {
                Ok(()) => final(self).regs() == old(self).regs().update(
                    R_LED_PULSE_2_DUT as int,
                    spec_replace_field(old(self).regs()[R_LED_PULSE_2_DUT as int], 0, 4, value),
                ),
                Err(e) => final(self).regs() == old(self).regs() && !(e
                    is LedNumberOverflowError),
            },
    {
        self.change_bits(R_LED_PULSE_2_DUT, 0, 4, value)
    }

    /// Read-modify-write of the high (maximum duty) nibble of the second
    /// pulse pattern's duty register.
    pub fn set_led_pulse2_max_duty(&mut self, value: u8) -> (r: RWResult<B, ()>)
        requires
            old(self).wf(),
        ensures
            final(self).wf(),
            old(self).same_device(final(self)),
            match r {
                Ok(()) => final(self).regs() == old(self).regs().update(
                    R_LED_PULSE_2_DUT as int,
                    spec_replace_field(old(self).regs()[R_LED_PULSE_2_DUT as int], 4, 4, value),
                ),
                Err(e) => final(self).regs() == old(self).regs() && !(e
                    is LedNumberOverflowError),
            },
    {
        self.change_bits(R_LED_PULSE_2_DUT, 4, 4, value)
    }
}

} // verus!

