//! The LG "DDC alt mode" command as AMD's ADL
//! (`ADL_Display_DDCBlockAccess_Get`) receives it: a whole DDC/CI frame,
//! destination byte included, addressed to one adapter and display.

use crate::ddc_frame::{
    alt_mode_body, xor_checksum, xor_fold, ALT_MODE_LENGTH_BYTE, ALT_MODE_SOURCE_ADDR, DDC_DEST_8BIT,
    SET_VCP_FEATURE_OPCODE,
};
use crate::radix::{decimal, push_decimal, push_signed_decimal, signed_decimal};
use vstd::prelude::*;

verus! {

/// One `ADL_Display_DDCBlockAccess_Get` write: where, and the bytes.
#[derive(Debug, Clone, Copy, PartialEq, Eq)]
pub struct AdlBlockWrite {
    pub adapter_index: i32,
    pub display_index: i32,
    pub frame: [u8; 8],
}

/// The frame ADL sends: `[dest(0x37<<1), alt-mode source(0x50), length,
/// opcode=SetVCPFeature, feature, hi, lo, checksum]`, the checksum being the
/// XOR of the seven bytes before it.
pub open spec fn adl_frame(feature: u8, value: u8) -> Seq<u8> {
    let head = seq![DDC_DEST_8BIT] + alt_mode_body(feature, value);
    head.push(xor_fold(0, head))
}

/// The write that sets `feature` to `value` via LG's DDC alt-mode side
/// channel on the given adapter/display.
pub fn set_vcp_alt_mode(feature: u8, value: u8, adapter_index: i32, display_index: i32) -> (w:
    AdlBlockWrite)
    ensures
        w.adapter_index == adapter_index,
        w.display_index == display_index,
        w.frame@ == adl_frame(feature, value),
{
    let hi = 0u8;
    let head = [
        DDC_DEST_8BIT,
        ALT_MODE_SOURCE_ADDR,
        ALT_MODE_LENGTH_BYTE,
        SET_VCP_FEATURE_OPCODE,
        feature,
        hi,
        value,
    ];
    let checksum = xor_checksum(0, head.as_slice());
    let frame = [
        DDC_DEST_8BIT,
        ALT_MODE_SOURCE_ADDR,
        ALT_MODE_LENGTH_BYTE,
        SET_VCP_FEATURE_OPCODE,
        feature,
        hi,
        value,
        checksum,
    ];
    assert(head@ =~= seq![DDC_DEST_8BIT] + alt_mode_body(feature, value));
    assert(frame@ =~= adl_frame(feature, value));
    AdlBlockWrite { adapter_index, display_index, frame }
}

/// ADL's `AdapterInfo::i_vendor_id` for AMD/ATI: the PCI-SIG id 0x1002
/// reported as the decimal number 1002.
pub const AMD_VENDOR_ID: i32 = 1002;
/// `ADL_DISPLAY_DISPLAYINFO_DISPLAYCONNECTED`.
pub const DISPLAY_CONNECTED: i32 = 0x0000_0001;
/// `ADL_DISPLAY_DISPLAYINFO_DISPLAYMAPPED`.
pub const DISPLAY_MAPPED: i32 = 0x0000_0002;

/// What the AMD check reads of one ADL adapter.
#[derive(Debug, Clone, Copy, PartialEq, Eq, Structural)]
pub struct AdapterSummary {
    pub present: i32,
    pub vendor_id: i32,
}

/// An adapter that is present and made by AMD.
pub open spec fn is_active_amd(a: AdapterSummary) -> bool {
    a.present != 0 && a.vendor_id == AMD_VENDOR_ID
}

/// The refusal when no adapter is an active AMD one.
pub open spec fn no_amd_text(count: nat) -> Seq<char> {
    "No active AMD GPU detected ("@ + decimal(count)
        + " adapter(s) found, none AMD) -- the LG DDC alt-mode workaround requires an AMD GPU, since it uses AMD's ADL SDK"@
}

/// Gates every ADL use on an active AMD adapter, so non-AMD systems never
/// reach an ADL call.
pub fn require_amd_adapter(adapters: &[AdapterSummary]) -> (r: Result<(), String>)
    ensures
        r is Ok <==> exists|i: int| 0 <= i < adapters@.len() && #[trigger] is_active_amd(adapters@[i]),
        r matches Err(m) ==> m@ == no_amd_text(adapters@.len()),
{
    let mut i: usize = 0;
    while i < adapters.len()
        invariant
            i <= adapters@.len(),
            forall|k: int| 0 <= k < i ==> !#[trigger] is_active_amd(adapters@[k]),
        decreases adapters.len() - i,
    {
        let a = adapters[i];
        if a.present != 0 && a.vendor_id == AMD_VENDOR_ID {
            assert(is_active_amd(adapters@[i as int]));
            return Ok(());
        }
        i = i + 1;
    }
    let mut m = String::from_str("No active AMD GPU detected (");
    push_decimal(&mut m, adapters.len() as u64);
    m.append(
        " adapter(s) found, none AMD) -- the LG DDC alt-mode workaround requires an AMD GPU, since it uses AMD's ADL SDK",
    );
    Err(m)
}

/// Whether a display's `iDisplayInfoValue` says it is connected.
pub fn display_connected(info_value: i32) -> (b: bool)
    ensures
        b == (info_value & DISPLAY_CONNECTED != 0),
{
    info_value & DISPLAY_CONNECTED != 0
}

/// Whether a display's `iDisplayInfoValue` says it is mapped.
pub fn display_mapped(info_value: i32) -> (b: bool)
    ensures
        b == (info_value & DISPLAY_MAPPED != 0),
{
    info_value & DISPLAY_MAPPED != 0
}

/// How a connected display is listed: `<name> (mapped=<true|false>)`.
pub open spec fn display_label_chars(name: Seq<char>, mapped: bool) -> Seq<char> {
    name + " (mapped="@ + (if mapped { "true"@ } else { "false"@ }) + ")"@
}

/// The label a connected display is listed with.
pub fn display_label(name: &str, mapped: bool) -> (s: String)
    ensures
        s@ == display_label_chars(name@, mapped),
{
    let mut s = String::from_str(name);
    s.append(" (mapped=");
    if mapped {
        s.append("true");
    } else {
        s.append("false");
    }
    s.append(")");
    s
}

/// ADL's success code.
pub const ADL_OK: i32 = 0;

/// One entry of the buffer `ADL_Display_DisplayInfo_Get` fills: the
/// display's logical index, its `iDisplayInfoValue` and its name.
#[derive(Debug, Clone)]
pub struct DisplayEntry {
    pub logical_index: i32,
    pub info_value: i32,
    pub name: String,
}

/// A connected display as it is listed: logical index and label.
#[derive(Debug, Clone)]
pub struct ConnectedDisplay {
    pub logical_index: i32,
    pub label: String,
}

/// The connected entries of `s`, in buffer order, each with its label.
pub open spec fn connected_list(s: Seq<DisplayEntry>) -> Seq<(i32, Seq<char>)>
    decreases s.len(),
{
    if s.len() == 0 {
        Seq::empty()
    } else {
        let rest = connected_list(s.drop_last());
        let e = s.last();
        if e.info_value & DISPLAY_CONNECTED != 0 {
            rest.push(
                (e.logical_index, display_label_chars(e.name@, e.info_value & DISPLAY_MAPPED != 0)),
            )
        } else {
            rest
        }
    }
}

/// The connected displays of one adapter, from what the display-info query
/// returned: its status code and its buffer (`None` when no buffer came
/// back). A failed query or a missing buffer -- common for inactive or
/// secondary adapter indices -- lists nothing rather than failing.
pub fn connected_displays(status: i32, entries: Option<&Vec<DisplayEntry>>) -> (r: Vec<ConnectedDisplay>)
    ensures
        r@.map_values(|d: ConnectedDisplay| (d.logical_index, d.label@)) == match entries {
            Some(e) => if status == ADL_OK {
                connected_list(e@)
            } else {
                Seq::empty()
            },
            None => Seq::empty(),
        },
{
    let mut out: Vec<ConnectedDisplay> = Vec::new();
    match entries {
        None => {
            assert(out@.map_values(|d: ConnectedDisplay| (d.logical_index, d.label@)) =~= Seq::empty());
            out
        },
        Some(e) => {
            if status != ADL_OK {
                assert(out@.map_values(|d: ConnectedDisplay| (d.logical_index, d.label@)) =~= Seq::empty());
                return out;
            }
            let mut i: usize = 0;
            assert(e@.take(0) =~= Seq::<DisplayEntry>::empty());
            while i < e.len()
                invariant
                    i <= e@.len(),
                    out@.map_values(|d: ConnectedDisplay| (d.logical_index, d.label@))
                        =~= connected_list(e@.take(i as int)),
                decreases e.len() - i,
            {
                let entry = &e[i];
                assert(e@.take(i + 1).drop_last() =~= e@.take(i as int));
                assert(e@.take(i + 1).last() == *entry);
                if display_connected(entry.info_value) {
                    let label = display_label(entry.name.as_str(), display_mapped(entry.info_value));
                    out.push(ConnectedDisplay { logical_index: entry.logical_index, label });
                }
                i = i + 1;
            }
            assert(e@.take(e@.len() as int) =~= e@);
            out
        },
    }
}

/// `adapter=<N> display=<N> <label>`.
pub open spec fn probe_line_chars(adapter_index: i32, display_index: i32, label: Seq<char>) -> Seq<char> {
    "adapter="@ + signed_decimal(adapter_index as int) + " display="@ + signed_decimal(
        display_index as int,
    ) + " "@ + label
}

/// How the display probe lists one connected display, giving the
/// `--adapter`/`--display` values to use.
pub fn probe_line(adapter_index: i32, display_index: i32, label: &str) -> (s: String)
    ensures
        s@ == probe_line_chars(adapter_index, display_index, label@),
{
    let mut s = String::from_str("adapter=");
    push_signed_decimal(&mut s, adapter_index);
    s.append(" display=");
    push_signed_decimal(&mut s, display_index);
    s.append(" ");
    s.append(label);
    s
}

/// Whether an entry's connected bit is set.
pub open spec fn entry_connected(e: DisplayEntry) -> bool {
    e.info_value & DISPLAY_CONNECTED != 0
}

/// The listed displays are the buffer's connected entries, kept in buffer
/// order, each paired with its own ADL logical index (not its position in
/// the buffer) and labelled with its own name and mapped bit.
pub proof fn lemma_connected_list_keeps_entries(s: Seq<DisplayEntry>)
    ensures
        connected_list(s) == s.filter(|e: DisplayEntry| entry_connected(e)).map_values(
            |e: DisplayEntry| (e.logical_index, display_label_chars(e.name@, e.info_value & DISPLAY_MAPPED != 0)),
        ),
        connected_list(s).map_values(|d: (i32, Seq<char>)| d.0) == s.filter(
            |e: DisplayEntry| entry_connected(e),
        ).map_values(|e: DisplayEntry| e.logical_index),
    decreases s.len(),
{
    reveal_with_fuel(Seq::filter, 1);
    let conn = |e: DisplayEntry| entry_connected(e);
    let lab = |e: DisplayEntry| (e.logical_index, display_label_chars(e.name@, e.info_value & DISPLAY_MAPPED != 0));
    if s.len() == 0 {
        assert(s.filter(conn) =~= Seq::<DisplayEntry>::empty());
        assert(connected_list(s).map_values(|d: (i32, Seq<char>)| d.0) =~= Seq::<i32>::empty());
        assert(s.filter(conn).map_values(lab) =~= Seq::<(i32, Seq<char>)>::empty());
        assert(s.filter(conn).map_values(|e: DisplayEntry| e.logical_index) =~= Seq::<i32>::empty());
    } else {
        lemma_connected_list_keeps_entries(s.drop_last());
        let rest = s.drop_last().filter(conn);
        if entry_connected(s.last()) {
            assert(s.filter(conn) == rest.push(s.last()));
            assert(rest.push(s.last()).map_values(lab) =~= rest.map_values(lab).push(lab(s.last())));
            assert(connected_list(s).map_values(|d: (i32, Seq<char>)| d.0) =~= connected_list(
                s.drop_last(),
            ).map_values(|d: (i32, Seq<char>)| d.0).push(s.last().logical_index));
            assert(rest.push(s.last()).map_values(|e: DisplayEntry| e.logical_index) =~= rest.map_values(
                |e: DisplayEntry| e.logical_index,
            ).push(s.last().logical_index));
        } else {
            assert(s.filter(conn) == rest);
        }
    }
}

} // verus!
