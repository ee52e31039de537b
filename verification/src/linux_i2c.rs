//! The LG "DDC alt mode" command as a raw Linux I2C block write: the
//! message goes to the 7-bit DDC/CI address, and its checksum covers the
//! 8-bit write address (0x6E) though that byte is not itself sent.

use crate::ddc_frame::{
    alt_mode_body, xor_checksum, xor_fold, ALT_MODE_LENGTH_BYTE, ALT_MODE_SOURCE_ADDR,
    DDC_DEST_8BIT, SET_VCP_FEATURE_OPCODE,
};
use vstd::prelude::*;

verus! {

/// DDC/CI's I2C slave address, 7-bit (not shifted: the raw transfer takes
/// the plain 7-bit address).
pub const DDC_I2C_ADDRESS: u16 = 0x37;

/// One raw I2C write: the slave address and the bytes.
#[derive(Debug, Clone, Copy, PartialEq, Eq)]
pub struct I2cWrite {
    pub address: u16,
    pub data: [u8; 7],
}

/// The bytes written: the alt-mode body and a checksum computed, from zero,
/// over the 8-bit write address and the body.
pub open spec fn linux_frame(feature: u8, value: u8) -> Seq<u8> {
    alt_mode_body(feature, value).push(
        xor_fold(0, seq![DDC_DEST_8BIT] + alt_mode_body(feature, value)),
    )
}

/// The write that sets `feature` to `value` via LG's DDC alt-mode side
/// channel on the first DDC/CI-capable I2C device.
pub fn set_vcp_alt_mode(feature: u8, value: u8) -> (w: I2cWrite)
    ensures
        w.address == DDC_I2C_ADDRESS,
        w.data@ == linux_frame(feature, value),
{
    let hi = 0u8;
    let checked = [
        DDC_DEST_8BIT,
        ALT_MODE_SOURCE_ADDR,
        ALT_MODE_LENGTH_BYTE,
        SET_VCP_FEATURE_OPCODE,
        feature,
        hi,
        value,
    ];
    let checksum = xor_checksum(0, checked.as_slice());
    let data = [
        ALT_MODE_SOURCE_ADDR,
        ALT_MODE_LENGTH_BYTE,
        SET_VCP_FEATURE_OPCODE,
        feature,
        hi,
        value,
        checksum,
    ];
    assert(checked@ =~= seq![DDC_DEST_8BIT] + alt_mode_body(feature, value));
    assert(data@ =~= linux_frame(feature, value));
    I2cWrite { address: DDC_I2C_ADDRESS, data }
}

} // verus!
