use cap1xxx::bits::{clear_bit, replace_field, set_bit};

#[test]
fn it_works() {
    assert_eq!(2 + 2, 4);
}

#[test]
fn replace_field_matches_clear_then_or_reference() {
    // Exhaustive comparison against the reference computation: clear each of
    // the `width` bits starting at `offset`, then OR in the unmasked value
    // shifted by `offset`, spill included.
    for offset in 0u8..8 {
        for width in 0u8..=(8 - offset) {
            for old in 0u8..=255 {
                for new_bits in [0u8, 1, 2, 3, 7, 0x0F, 0x55, 0x80, 0xAA, 0xFF] {
                    let mut reference = old;
                    for x in 0..width {
                        reference &= !(1u8 << (offset + x));
                    }
                    reference |= new_bits << offset;
                    assert_eq!(
                        replace_field(old, offset, width, new_bits),
                        reference,
                        "offset {} width {} old {:#x} new {:#x}",
                        offset,
                        width,
                        old,
                        new_bits
                    );
                }
            }
        }
    }
}

#[test]
fn replace_field_in_range_bits_exact() {
    // For a width-sized value: the field holds exactly the value's low bits
    // and every bit outside the field is unchanged.
    for offset in 0u8..8 {
        for width in 0u8..=(8 - offset) {
            for old in [0u8, 0x0F, 0x5A, 0xA5, 0xF0, 0xFF] {
                let max = if width == 8 { 255u8 } else { (1u8 << width) - 1 };
                for new_bits in 0u8..=max {
                    let result = replace_field(old, offset, width, new_bits);
                    for k in 0u8..8 {
                        let got = (result >> k) & 1;
                        if k >= offset && k < offset + width {
                            assert_eq!(got, (new_bits >> (k - offset)) & 1);
                        } else {
                            assert_eq!(got, (old >> k) & 1);
                        }
                    }
                }
            }
        }
    }
}

#[test]
fn replace_field_full_byte() {
    assert_eq!(replace_field(0xA5, 0, 8, 0x3C), 0x3C);
}

#[test]
fn replace_field_oversized_value_spills_upward() {
    // An oversized value spills into the bits above the field but never
    // below it: low two bits of the old value survive.
    assert_eq!(replace_field(0b0000_0011, 2, 2, 0b1111), 0b0011_1111);
}

#[test]
fn set_bit_then_clear_bit_restores_clear_bits() {
    for v in 0u8..=255 {
        for bit in 0u8..8 {
            let once = clear_bit(set_bit(v, bit), bit);
            let twice = clear_bit(set_bit(once, bit), bit);
            assert_eq!(twice, once, "idempotent for v {:#x} bit {}", v, bit);
            assert_eq!(once, clear_bit(v, bit));
            if (v >> bit) & 1 == 0 {
                assert_eq!(once, v, "restores v {:#x} bit {}", v, bit);
            }
        }
    }
}

#[test]
fn set_bit_and_clear_bit_concrete() {
    assert_eq!(set_bit(0b0000_1000, 0), 0b0000_1001);
    assert_eq!(set_bit(0b0000_1000, 3), 0b0000_1000);
    assert_eq!(clear_bit(0b0000_1001, 0), 0b0000_1000);
    assert_eq!(clear_bit(0b0000_1000, 7), 0b0000_1000);
}
