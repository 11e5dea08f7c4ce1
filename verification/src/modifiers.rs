//! Decoding of the device-independent modifier-key bitmask into a
//! structured set of named boolean flags.

use vstd::prelude::*;

verus! {

/// The set of modifier keys reported by the platform alongside input
/// events, one named flag per key. Derived afresh from each raw mask and
/// never persisted.
#[derive(Clone, Copy, PartialEq, Eq, Structural, Debug)]
pub struct ModifierKeySet {
    pub caps_lock: bool,
    pub shift: bool,
    pub control: bool,
    pub option: bool,
    pub command: bool,
    pub numeric_pad: bool,
    pub help: bool,
    pub function: bool,
}

/// True iff bit `i` of `mask` is set, for `i < 8`.
pub open spec fn bit_set(mask: u8, i: u8) -> bool {
    (mask >> i) & 1 == 1
}

/// The flag set denoted by a dense 8-bit modifier mask: flag `i` is true
/// iff bit `i` of the mask is set, in the canonical bit order caps lock,
/// shift, control, option, command, numeric pad, help, function.
pub open spec fn spec_decode(mask: u8) -> ModifierKeySet {
    ModifierKeySet {
        caps_lock: bit_set(mask, 0),
        shift: bit_set(mask, 1),
        control: bit_set(mask, 2),
        option: bit_set(mask, 3),
        command: bit_set(mask, 4),
        numeric_pad: bit_set(mask, 5),
        help: bit_set(mask, 6),
        function: bit_set(mask, 7),
    }
}

/// The dense 8-bit mask denoted by a flag set: bit `i` is set iff flag `i`
/// is true, in the canonical bit order.
pub open spec fn spec_encode(keys: ModifierKeySet) -> u8 {
    ((if keys.caps_lock { 0x01u8 } else { 0u8 }) | (if keys.shift { 0x02u8 } else { 0u8 })
        | (if keys.control { 0x04u8 } else { 0u8 }) | (if keys.option { 0x08u8 } else { 0u8 })
        | (if keys.command { 0x10u8 } else { 0u8 }) | (if keys.numeric_pad { 0x20u8 } else { 0u8 })
        | (if keys.help { 0x40u8 } else { 0u8 }) | (if keys.function { 0x80u8 } else { 0u8 }))
}

/// Re-packs a flag set into the dense 8-bit mask it came from: the exact
/// inverse of `decode`, used when the mask value itself is reported.
pub fn encode(keys: &ModifierKeySet) -> (r: u8)
    ensures
        r == spec_encode(*keys),
{
    (if keys.caps_lock { 0x01u8 } else { 0u8 }) | (if keys.shift { 0x02u8 } else { 0u8 })
        | (if keys.control { 0x04u8 } else { 0u8 }) | (if keys.option { 0x08u8 } else { 0u8 })
        | (if keys.command { 0x10u8 } else { 0u8 }) | (if keys.numeric_pad { 0x20u8 } else { 0u8 })
        | (if keys.help { 0x40u8 } else { 0u8 }) | (if keys.function { 0x80u8 } else { 0u8 })
}

/// Law: decoding a mask and re-packing the flags gives the mask back —
/// the eight flags carry exactly the information of the eight bits.
pub proof fn lemma_encode_decode_roundtrip(mask: u8)
    ensures
        spec_encode(spec_decode(mask)) == mask,
{
    assert(((if (mask >> 0u8) & 1 == 1 { 0x01u8 } else { 0u8 }) | (if (mask >> 1u8) & 1 == 1 {
        0x02u8
    } else {
        0u8
    }) | (if (mask >> 2u8) & 1 == 1 { 0x04u8 } else { 0u8 }) | (if (mask >> 3u8) & 1 == 1 {
        0x08u8
    } else {
        0u8
    }) | (if (mask >> 4u8) & 1 == 1 { 0x10u8 } else { 0u8 }) | (if (mask >> 5u8) & 1 == 1 {
        0x20u8
    } else {
        0u8
    }) | (if (mask >> 6u8) & 1 == 1 { 0x40u8 } else { 0u8 }) | (if (mask >> 7u8) & 1 == 1 {
        0x80u8
    } else {
        0u8
    })) == mask) by (bit_vector);
}

/// Law: re-packing a flag set and decoding the mask gives the flag set
/// back — no two flag sets share a mask.
pub proof fn lemma_decode_encode_roundtrip(keys: ModifierKeySet)
    ensures
        spec_decode(spec_encode(keys)) == keys,
{
    let b0 = keys.caps_lock;
    let b1 = keys.shift;
    let b2 = keys.control;
    let b3 = keys.option;
    let b4 = keys.command;
    let b5 = keys.numeric_pad;
    let b6 = keys.help;
    let b7 = keys.function;
    let m = spec_encode(keys);
    assert(m == ((if b0 { 0x01u8 } else { 0u8 }) | (if b1 { 0x02u8 } else { 0u8 }) | (if b2 {
        0x04u8
    } else {
        0u8
    }) | (if b3 { 0x08u8 } else { 0u8 }) | (if b4 { 0x10u8 } else { 0u8 }) | (if b5 {
        0x20u8
    } else {
        0u8
    }) | (if b6 { 0x40u8 } else { 0u8 }) | (if b7 { 0x80u8 } else { 0u8 })));
    assert({
        let m = ((if b0 { 0x01u8 } else { 0u8 }) | (if b1 { 0x02u8 } else { 0u8 }) | (if b2 {
            0x04u8
        } else {
            0u8
        }) | (if b3 { 0x08u8 } else { 0u8 }) | (if b4 { 0x10u8 } else { 0u8 }) | (if b5 {
            0x20u8
        } else {
            0u8
        }) | (if b6 { 0x40u8 } else { 0u8 }) | (if b7 { 0x80u8 } else { 0u8 }));
        ((m >> 0u8) & 1 == 1) == b0 && ((m >> 1u8) & 1 == 1) == b1 && ((m >> 2u8) & 1 == 1) == b2
            && ((m >> 3u8) & 1 == 1) == b3 && ((m >> 4u8) & 1 == 1) == b4 && ((m >> 5u8) & 1 == 1)
            == b5 && ((m >> 6u8) & 1 == 1) == b6 && ((m >> 7u8) & 1 == 1) == b7
    }) by (bit_vector);
}

/// The portion of a raw modifier-flags word reserved for the
/// device-independent modifier keys.
pub const DEVICE_INDEPENDENT_FLAGS_MASK: u64 = 0xffff0000;

/// The dense 8-bit modifier mask carried by a raw flags word: the
/// device-independent bits, shifted down and narrowed to the eight
/// modifier-key positions.
pub open spec fn device_independent_mask(flags: u64) -> u8 {
    ((flags & DEVICE_INDEPENDENT_FLAGS_MASK) >> 16) as u8
}

/// Isolates the device-independent modifier bits of a raw flags word and
/// shifts them down into the dense 8-bit range that `decode` expects.
/// Bits above the eight modifier-key positions are discarded.
pub fn isolate_device_independent(flags: u64) -> (r: u8)
    ensures
        r == device_independent_mask(flags),
{
    let shifted: u64 = (flags & DEVICE_INDEPENDENT_FLAGS_MASK) >> 16;
    #[verifier::truncate] (shifted as u8)
}

/// Decodes the dense 8-bit modifier mask into the named flag set.
///
/// The caller has already isolated the device-independent modifier bits
/// of the raw flags value and shifted them down to this dense range.
/// Every mask value is valid; each flag is true exactly when its bit is
/// set, in the canonical order: caps lock, shift, control, option,
/// command, numeric pad, help, function.
pub fn decode(mask: u8) -> (r: ModifierKeySet)
    ensures
        r == spec_decode(mask),
{
    ModifierKeySet {
        caps_lock: (mask >> 0u8) & 1 == 1,
        shift: (mask >> 1u8) & 1 == 1,
        control: (mask >> 2u8) & 1 == 1,
        option: (mask >> 3u8) & 1 == 1,
        command: (mask >> 4u8) & 1 == 1,
        numeric_pad: (mask >> 5u8) & 1 == 1,
        help: (mask >> 6u8) & 1 == 1,
        function: (mask >> 7u8) & 1 == 1,
    }
}

} // verus!
