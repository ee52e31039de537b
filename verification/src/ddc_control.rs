//! The standard DDC/CI path's one decision: whether a VCP write is needed.

use vstd::prelude::*;

verus! {

/// What to do after reading a VCP feature's current value.
#[derive(Debug, Clone, Copy, PartialEq, Eq, Structural)]
pub enum VcpStep {
    /// The feature already holds the value: skip the write.
    AlreadySet,
    /// Write `value` to `feature`.
    Write { feature: u8, value: u16 },
}

/// Like a plain "Set VCP Feature", but skips the write when the monitor
/// already reports `value` -- avoids an unnecessary (and sometimes visually
/// disruptive) input switch. `current` is what reading `feature` gave, or
/// `None` when the read failed; a failed read falls through to writing
/// rather than silently skipping a switch that might be needed.
pub fn set_vcp_if_needed(feature: u8, value: u16, current: Option<u16>) -> (s: VcpStep)
    ensures
        s == (if current == Some(value) {
            VcpStep::AlreadySet
        } else {
            VcpStep::Write { feature, value }
        }),
{
    match current {
        Some(c) if c == value => VcpStep::AlreadySet,
        _ => VcpStep::Write { feature, value },
    }
}

} // verus!
