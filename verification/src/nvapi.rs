//! The LG "DDC alt mode" command as NVIDIA's NvAPI raw I2C write receives
//! it, and the set of display masks/ports it is sent to.
//!
//! NvAPI carries the destination address separately (as the 7-bit `0x37`,
//! which it shifts itself), so the payload starts at the source byte; the
//! checksum is still seeded with the 8-bit destination `0x6E`, so the bytes
//! match the AMD path's byte for byte.

use crate::ddc_frame::{
    alt_mode_body, alt_mode_payload_bytes, xor_checksum, ALT_MODE_LENGTH_BYTE,
    ALT_MODE_SOURCE_ADDR, DDC_ADDRESS_7BIT, DDC_DEST_8BIT, SET_VCP_FEATURE_OPCODE,
};
use crate::radix::{decimal, push_decimal};
use vstd::prelude::*;

verus! {

/// Number of display masks tried: one bit each of the low eight.
pub const MASK_COUNT: usize = 8;
/// Port choices tried per mask: none (rely on the mask), then ports 1 to 7.
pub const PORT_CHOICES: usize = 8;

/// Where one `i2c_write` of the alt-mode payload is aimed.
#[derive(Debug, Clone, Copy, PartialEq, Eq, Structural)]
pub struct NvI2cTarget {
    pub display_mask: u32,
    pub port: Option<u8>,
}

/// Every write NvAPI is asked to make: the same payload to each target,
/// at the 7-bit device address.
#[derive(Debug, Clone)]
pub struct NvAltModeWrites {
    pub device_address: u8,
    pub payload: [u8; 7],
    pub targets: Vec<NvI2cTarget>,
}

/// The `k`-th target: masks `1 << 0` to `1 << 7` in turn, and under each
/// mask first no port, then ports 1 to 7.
pub open spec fn nv_target(k: int) -> NvI2cTarget {
    NvI2cTarget {
        display_mask: 1u32 << ((k / 8) as u32),
        port: if k % 8 == 0 { None } else { Some((k % 8) as u8) },
    }
}

/// The 7-byte DDC "Set VCP Feature" payload for the alt-mode channel,
/// without the destination byte.
pub fn alt_mode_payload(feature: u8, value: u8) -> (p: [u8; 7])
    ensures
        p@ == alt_mode_payload_bytes(feature, value),
{
    let hi = 0u8;
    let body = [
        ALT_MODE_SOURCE_ADDR,
        ALT_MODE_LENGTH_BYTE,
        SET_VCP_FEATURE_OPCODE,
        feature,
        hi,
        value,
    ];
    assert(body@ =~= alt_mode_body(feature, value));
    let checksum = xor_checksum(DDC_DEST_8BIT, body.as_slice());
    let p = [body[0], body[1], body[2], body[3], body[4], body[5], checksum];
    assert(p@ =~= alt_mode_payload_bytes(feature, value));
    p
}

/// The writes that set `feature` to `value` via LG's DDC alt-mode side
/// channel on the first NVIDIA GPU: the payload sprayed over every
/// plausible display mask x port, since a write aimed where the monitor
/// is not has no visible effect.
pub fn set_vcp_alt_mode(feature: u8, value: u8) -> (w: NvAltModeWrites)
    ensures
        w.device_address == DDC_ADDRESS_7BIT,
        w.payload@ == alt_mode_payload_bytes(feature, value),
        w.targets@.len() == MASK_COUNT * PORT_CHOICES,
        forall|k: int| 0 <= k < w.targets@.len() ==> #[trigger] w.targets@[k] == nv_target(k),
{
    let payload = alt_mode_payload(feature, value);
    let mut targets: Vec<NvI2cTarget> = Vec::new();
    let mut m: usize = 0;
    while m < MASK_COUNT
        invariant
            m <= MASK_COUNT,
            targets@.len() == m * PORT_CHOICES,
            forall|k: int| 0 <= k < targets@.len() ==> #[trigger] targets@[k] == nv_target(k),
        decreases MASK_COUNT - m,
    {
        let mask = 1u32 << (m as u32);
        let mut q: usize = 0;
        while q < PORT_CHOICES
            invariant
                m < MASK_COUNT,
                q <= PORT_CHOICES,
                mask == 1u32 << (m as u32),
                targets@.len() == m * PORT_CHOICES + q,
                forall|k: int| 0 <= k < targets@.len() ==> #[trigger] targets@[k] == nv_target(k),
            decreases PORT_CHOICES - q,
        {
            let port = if q == 0 { None } else { Some(q as u8) };
            let t = NvI2cTarget { display_mask: mask, port };
            proof {
                let k = (m * PORT_CHOICES + q) as int;
                assert(k / 8 == m as int && k % 8 == q as int) by (nonlinear_arith)
                    requires k == m * 8 + q, q < 8;
                assert(t == nv_target(k));
            }
            targets.push(t);
            q = q + 1;
        }
        m = m + 1;
    }
    NvAltModeWrites { device_address: DDC_ADDRESS_7BIT, payload, targets }
}

/// The outcome of the spray, from whether each write reported success:
/// success if any did.
pub fn write_outcome(succeeded: &[bool]) -> (r: Result<(), String>)
    ensures
        r is Ok <==> exists|k: int| 0 <= k < succeeded@.len() && succeeded@[k],
        r matches Err(m) ==> m@ == "NvAPI I2C write did not succeed on any display mask/port"@,
{
    let mut i: usize = 0;
    while i < succeeded.len()
        invariant
            i <= succeeded@.len(),
            forall|k: int| 0 <= k < i ==> !succeeded@[k],
        decreases succeeded.len() - i,
    {
        if succeeded[i] {
            return Ok(());
        }
        i = i + 1;
    }
    Err(String::from_str("NvAPI I2C write did not succeed on any display mask/port"))
}

/// `NVIDIA GPU: <name> (<n> display(s) attached)`, or, when the displays
/// could not be read, `NVIDIA GPU: <name> (couldn't read displays: <why>)`;
/// an unknown name shows as `<unknown>`.
pub open spec fn gpu_line_chars(name: Option<Seq<char>>, displays: Result<nat, Seq<char>>) -> Seq<char> {
    let shown = match name {
        Some(n) => n,
        None => "<unknown>"@,
    };
    "NVIDIA GPU: "@ + shown + match displays {
        Ok(n) => " ("@ + decimal(n) + " display(s) attached)"@,
        Err(why) => " (couldn't read displays: "@ + why + ")"@,
    }
}

/// How the NVIDIA probe lists one GPU.
pub fn gpu_line(name: Option<&str>, displays: Result<u64, &str>) -> (s: String)
    ensures
        s@ == gpu_line_chars(
            match name {
                Some(n) => Some(n@),
                None => None,
            },
            match displays {
                Ok(n) => Ok(n as nat),
                Err(why) => Err(why@),
            },
        ),
{
    let mut s = String::from_str("NVIDIA GPU: ");
    match name {
        Some(n) => s.append(n),
        None => s.append("<unknown>"),
    }
    match displays {
        Ok(n) => {
            s.append(" (");
            push_decimal(&mut s, n);
            s.append(" display(s) attached)");
        },
        Err(why) => {
            s.append(" (couldn't read displays: ");
            s.append(why);
            s.append(")");
        },
    }
    s
}

} // verus!
