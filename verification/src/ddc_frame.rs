//! The DDC/CI "Set VCP Feature" frame of LG's alt-mode side channel, and
//! its XOR checksum.

use crate::adl::adl_frame;
use crate::linux_i2c::linux_frame;
use vstd::prelude::*;

verus! {

/// DDC/CI's I2C slave address, 7-bit.
pub const DDC_ADDRESS_7BIT: u8 = 0x37;
/// The same destination as the 8-bit write address it becomes on the wire
/// (`0x37 << 1`); the checksum is seeded with it.
pub const DDC_DEST_8BIT: u8 = 0x6e;
/// Non-standard DDC/CI source address LG's alt-mode firmware listens on
/// (standard DDC/CI uses 0x51).
pub const ALT_MODE_SOURCE_ADDR: u8 = 0x50;
/// DDC "length" byte: 0x80 | 4 data bytes (opcode + feature + hi + lo).
pub const ALT_MODE_LENGTH_BYTE: u8 = 0x84;
/// DDC "Set VCP Feature" opcode.
pub const SET_VCP_FEATURE_OPCODE: u8 = 0x03;

/// XOR of `seed` and every byte of `s`.
pub open spec fn xor_fold(seed: u8, s: Seq<u8>) -> u8
    decreases s.len(),
{
    if s.len() == 0 {
        seed
    } else {
        xor_fold(seed, s.drop_last()) ^ s.last()
    }
}

/// The alt-mode message after its destination byte and before its
/// checksum: source, length, opcode, feature, value high byte (always 0),
/// value low byte.
pub open spec fn alt_mode_body(feature: u8, value: u8) -> Seq<u8> {
    seq![ALT_MODE_SOURCE_ADDR, ALT_MODE_LENGTH_BYTE, SET_VCP_FEATURE_OPCODE, feature, 0u8, value]
}

/// The body followed by its DDC/CI checksum: the XOR of the 8-bit
/// destination address and every body byte.
pub open spec fn alt_mode_payload_bytes(feature: u8, value: u8) -> Seq<u8> {
    alt_mode_body(feature, value).push(xor_fold(DDC_DEST_8BIT, alt_mode_body(feature, value)))
}

/// XOR of `seed` and every byte of `bytes`.
pub fn xor_checksum(seed: u8, bytes: &[u8]) -> (c: u8)
    ensures
        c == xor_fold(seed, bytes@),
{
    let mut acc = seed;
    let mut i: usize = 0;
    while i < bytes.len()
        invariant
            i <= bytes@.len(),
            acc == xor_fold(seed, bytes@.take(i as int)),
        decreases bytes.len() - i,
    {
        assert(bytes@.take(i + 1).drop_last() =~= bytes@.take(i as int));
        acc = acc ^ bytes[i];
        i = i + 1;
    }
    assert(bytes@.take(i as int) =~= bytes@);
    acc
}

/// Folding in a leading byte is the same as starting from the seed XOR
/// that byte.
pub proof fn lemma_xor_fold_cons(seed: u8, b: u8, s: Seq<u8>)
    ensures
        xor_fold(seed, seq![b] + s) == xor_fold(seed ^ b, s),
    decreases s.len(),
{
    if s.len() == 0 {
        assert((seq![b] + s).drop_last() =~= Seq::<u8>::empty());
        assert(xor_fold(seed, (seq![b] + s).drop_last()) == seed);
        assert((seq![b] + s).last() == b);
    } else {
        lemma_xor_fold_cons(seed, b, s.drop_last());
        assert((seq![b] + s).drop_last() =~= seq![b] + s.drop_last());
        assert((seq![b] + s).last() == s.last());
    }
}

/// A message followed by its own checksum folds to zero.
pub proof fn lemma_checksum_cancels(seed: u8, s: Seq<u8>)
    ensures
        xor_fold(seed, s.push(xor_fold(seed, s))) == 0,
{
    let c = xor_fold(seed, s);
    assert(s.push(c).drop_last() =~= s);
    assert(c ^ c == 0) by (bit_vector);
}

/// Every backend puts the same bytes on the wire: the ADL frame is the
/// 8-bit destination address followed by exactly the payload NvAPI sends,
/// and the Linux raw-I2C write sends that payload too.
pub proof fn lemma_backends_send_the_same_bytes(feature: u8, value: u8)
    ensures
        adl_frame(feature, value).len() == 8,
        adl_frame(feature, value)[0] == DDC_DEST_8BIT,
        adl_frame(feature, value).subrange(1, 8) == alt_mode_payload_bytes(feature, value),
        linux_frame(feature, value) == alt_mode_payload_bytes(feature, value),
{
    let body = alt_mode_body(feature, value);
    lemma_xor_fold_cons(0, DDC_DEST_8BIT, body);
    assert(0u8 ^ 0x6eu8 == 0x6eu8) by (bit_vector);
    assert(adl_frame(feature, value).subrange(1, 8) =~= alt_mode_payload_bytes(feature, value));
}

/// Each message's DDC/CI checksum checks out: XOR-ing the 8-bit destination
/// address with every byte sent, checksum included, gives zero.
pub proof fn lemma_alt_mode_checksum_valid(feature: u8, value: u8)
    ensures
        xor_fold(0, adl_frame(feature, value)) == 0,
        xor_fold(DDC_DEST_8BIT, alt_mode_payload_bytes(feature, value)) == 0,
{
    lemma_checksum_cancels(0, seq![DDC_DEST_8BIT] + alt_mode_body(feature, value));
    lemma_checksum_cancels(DDC_DEST_8BIT, alt_mode_body(feature, value));
}

/// The bytes of every backend's message, written out: the LG alt-mode
/// source `0x50`, length `0x84`, opcode `0x03`, then the requested feature,
/// a zero high byte and the requested value unchanged, then the checksum
/// `0x6E ^ 0x50 ^ 0x84 ^ 0x03 ^ feature ^ 0 ^ value`; the ADL frame has the
/// destination `0x6E` in front. So different values give different frames:
/// `hdmi1 = 0x90` and `hdmi2 = 0x91` are never sent as each other.
pub proof fn lemma_frames_carry_feature_and_value(feature: u8, value: u8)
    ensures
        alt_mode_payload_bytes(feature, value) == seq![
            0x50u8,
            0x84u8,
            0x03u8,
            feature,
            0u8,
            value,
            0x6eu8 ^ 0x50u8 ^ 0x84u8 ^ 0x03u8 ^ feature ^ 0u8 ^ value,
        ],
        adl_frame(feature, value) == seq![
            0x6eu8,
            0x50u8,
            0x84u8,
            0x03u8,
            feature,
            0u8,
            value,
            0x6eu8 ^ 0x50u8 ^ 0x84u8 ^ 0x03u8 ^ feature ^ 0u8 ^ value,
        ],
        linux_frame(feature, value) == alt_mode_payload_bytes(feature, value),
        forall|v2: u8| v2 != value ==> adl_frame(feature, v2) != adl_frame(feature, value)
            && alt_mode_payload_bytes(feature, v2) != alt_mode_payload_bytes(feature, value),
{
    reveal_with_fuel(xor_fold, 8);
    let body = alt_mode_body(feature, value);
    assert(xor_fold(0x6e, body) == 0x6eu8 ^ 0x50u8 ^ 0x84u8 ^ 0x03u8 ^ feature ^ 0u8 ^ value) by {
        assert(body.drop_last().drop_last().drop_last().drop_last().drop_last().drop_last()
            =~= Seq::<u8>::empty());
    }
    assert(alt_mode_payload_bytes(feature, value) =~= seq![
        0x50u8,
        0x84u8,
        0x03u8,
        feature,
        0u8,
        value,
        0x6eu8 ^ 0x50u8 ^ 0x84u8 ^ 0x03u8 ^ feature ^ 0u8 ^ value,
    ]);
    lemma_backends_send_the_same_bytes(feature, value);
    let f = adl_frame(feature, value);
    assert(f =~= seq![0x6eu8] + f.subrange(1, 8));
    assert forall|v2: u8| v2 != value implies adl_frame(feature, v2) != adl_frame(feature, value)
        && alt_mode_payload_bytes(feature, v2) != alt_mode_payload_bytes(feature, value) by {
        lemma_backends_send_the_same_bytes(feature, v2);
        assert(alt_mode_payload_bytes(feature, v2)[5] == v2);
        assert(alt_mode_payload_bytes(feature, value)[5] == value);
        assert(adl_frame(feature, v2)[6] == alt_mode_payload_bytes(feature, v2)[5]);
        assert(adl_frame(feature, value)[6] == alt_mode_payload_bytes(feature, value)[5]);
    }
}

} // verus!
