//! Pure bit-field composition on 8-bit register values.
//!
//! These functions compute a new register value from an old one without any
//! bus access: single-bit set and clear, and replacement of a multi-bit field.
//! Every read-modify-write transaction of the driver funnels its value
//! computation through this module.

use vstd::prelude::*;

verus! {

/// True when bit `k` of `v` is set.
pub open spec fn spec_get_bit(v: u8, k: u8) -> bool {
    (v >> k) & 1 == 1
}

/// The value `v` with bit `k` forced to one.
pub open spec fn spec_set_bit(v: u8, k: u8) -> u8 {
    v | (1u8 << k)
}

/// The value `v` with bit `k` forced to zero.
pub open spec fn spec_clear_bit(v: u8, k: u8) -> u8 {
    v & !(1u8 << k)
}

/// The value `v` with bit `k` driven to `state`.
pub open spec fn spec_change_bit(v: u8, k: u8, state: bool) -> u8 {
    if state {
        spec_set_bit(v, k)
    } else {
        spec_clear_bit(v, k)
    }
}

/// Mask with ones exactly on the `width` bits starting at `offset`.
///
/// `0xFF << width` truncates on u8, so `!(0xFF << width)` is the low `width`
/// bits, which the outer shift moves up to `offset`.
pub open spec fn spec_field_mask(offset: u8, width: u8) -> u8 {
    (!(0xFFu8 << width)) << offset
}

/// The clear-then-OR composition rule for a register field: the `width` bits
/// at `offset` are cleared, then `new_bits << offset` is ORed in. `new_bits`
/// is used unmasked, so bits of it beyond `width` spill into higher bits.
pub open spec fn spec_replace_field(v: u8, offset: u8, width: u8, new_bits: u8) -> u8 {
    (v & !spec_field_mask(offset, width)) | (new_bits << offset)
}

/// Returns `v` with bit `bit` set.
pub fn set_bit(v: u8, bit: u8) -> (r: u8)
    requires
        bit < 8,
    ensures
        r == spec_set_bit(v, bit),
{
    v | (1u8 << bit)
}

/// Returns `v` with bit `bit` cleared.
pub fn clear_bit(v: u8, bit: u8) -> (r: u8)
    requires
        bit < 8,
    ensures
        r == spec_clear_bit(v, bit),
{
    v & !(1u8 << bit)
}

/// Returns `v` with the `width`-bit field at `offset` replaced by `new_bits`.
///
/// `new_bits` is deliberately not masked to `width` bits: a caller that hands
/// in an oversized value has its extra bits ORed into the bits above the
/// field (clear-then-OR semantics). Callers that need a clean field mask the
/// value themselves before the call.
pub fn replace_field(v: u8, offset: u8, width: u8, new_bits: u8) -> (r: u8)
    requires
        offset < 8,
        offset + width <= 8,
    ensures
        r == spec_replace_field(v, offset, width, new_bits),
{
    let mask: u8 = if width == 8 {
        0xFF
    } else {
        (!(0xFFu8 << width)) << offset
    };
    proof {
        if width == 8 {
            assert(offset == 0);
            assert((!(0xFFu8 << 8u8)) << 0u8 == 0xFFu8) by (bit_vector);
        }
        assert(mask == spec_field_mask(offset, width));
    }
    (v & !mask) | (new_bits << offset)
}

/// Replacing a field writes exactly the low `width` bits of `new_bits` into
/// the bits `[offset, offset + width)` and leaves every other bit of the
/// register unchanged, provided `new_bits` fits in `width` bits.
pub proof fn lemma_replace_field_exact(v: u8, offset: u8, width: u8, new_bits: u8)
    requires
        offset < 8,
        offset + width <= 8,
        new_bits >> width == 0,
    ensures
        forall|k: u8|
            k < 8 && (k < offset || offset + width <= k) ==> #[trigger] spec_get_bit(
                spec_replace_field(v, offset, width, new_bits),
                k,
            ) == spec_get_bit(v, k),
        forall|k: u8|
            offset <= k < offset + width ==> #[trigger] spec_get_bit(
                spec_replace_field(v, offset, width, new_bits),
                k,
            ) == spec_get_bit(new_bits, (k - offset) as u8),
{
    assert forall|k: u8| k < 8 && (k < offset || offset + width <= k) implies #[trigger]
        spec_get_bit(spec_replace_field(v, offset, width, new_bits), k) == spec_get_bit(
        v,
        k,
    ) by {
        assert((((v & !((!(0xFFu8 << width)) << offset)) | (new_bits << offset)) >> k) & 1 == (v
            >> k) & 1) by (bit_vector)
            requires
                offset < 8,
                offset + width <= 8,
                k < 8,
                k < offset || offset + width <= k,
                new_bits >> width == 0,
        ;
    }
    assert forall|k: u8| offset <= k < offset + width implies #[trigger] spec_get_bit(
        spec_replace_field(v, offset, width, new_bits),
        k,
    ) == spec_get_bit(new_bits, (k - offset) as u8) by {
        let d = (k - offset) as u8;
        assert((((v & !((!(0xFFu8 << width)) << offset)) | (new_bits << offset)) >> k) & 1 == (
        new_bits >> d) & 1) by (bit_vector)
            requires
                offset < 8,
                offset + width <= 8,
                offset <= k < offset + width,
                d == k - offset,
        ;
    }
}

/// Even an oversized `new_bits` never disturbs the bits below `offset`:
/// the spill from clear-then-OR composition goes upward only.
pub proof fn lemma_replace_field_low_bits(v: u8, offset: u8, width: u8, new_bits: u8)
    requires
        offset < 8,
        offset + width <= 8,
    ensures
        forall|k: u8|
            k < offset ==> #[trigger] spec_get_bit(
                spec_replace_field(v, offset, width, new_bits),
                k,
            ) == spec_get_bit(v, k),
{
    assert forall|k: u8| k < offset implies #[trigger] spec_get_bit(
        spec_replace_field(v, offset, width, new_bits),
        k,
    ) == spec_get_bit(v, k) by {
        assert((((v & !((!(0xFFu8 << width)) << offset)) | (new_bits << offset)) >> k) & 1 == (v
            >> k) & 1) by (bit_vector)
            requires
                offset < 8,
                offset + width <= 8,
                k < offset,
        ;
    }
}

/// Setting a bit and then clearing the same bit is idempotent, and restores
/// the original value whenever that bit started out clear.
pub proof fn lemma_set_then_clear_bit(v: u8, bit: u8)
    requires
        bit < 8,
    ensures
        spec_clear_bit(spec_set_bit(v, bit), bit) == spec_clear_bit(v, bit),
        !spec_get_bit(v, bit) ==> spec_clear_bit(spec_set_bit(v, bit), bit) == v,
{
    assert((v | (1u8 << bit)) & !(1u8 << bit) == v & !(1u8 << bit)) by (bit_vector)
        requires
            bit < 8,
    ;
    assert((v >> bit) & 1 != 1 ==> v & !(1u8 << bit) == v) by (bit_vector)
        requires
            bit < 8,
    ;
}

} // verus!
