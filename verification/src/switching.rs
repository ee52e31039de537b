//! Which switch command this machine sends, and the retry policy around it.

use crate::adl::{adl_frame, AdlBlockWrite};
use crate::config::{AltModeBackend, Config, SwitchMethod};
use crate::ddc_frame::{alt_mode_payload_bytes, DDC_ADDRESS_7BIT};
use crate::linux_i2c::{linux_frame, I2cWrite, DDC_I2C_ADDRESS};
use crate::nvapi::{nv_target, NvAltModeWrites, MASK_COUNT, PORT_CHOICES};
use crate::Platform;
use vstd::prelude::*;

verus! {

/// The command that switches the monitor to this PC's input.
#[derive(Debug, Clone)]
pub enum SwitchAction {
    /// Standard DDC/CI: write `value` to `feature` unless it is already set.
    SetVcpIfNeeded { feature: u8, value: u16 },
    /// LG alt mode through AMD's ADL.
    AdlAltMode(AdlBlockWrite),
    /// LG alt mode through NVIDIA's NvAPI.
    NvapiAltMode(NvAltModeWrites),
    /// LG alt mode over raw Linux I2C.
    LinuxAltMode(I2cWrite),
}

/// The refusal for the alt mode on a platform with no raw-I2C path here.
pub open spec fn alt_mode_unsupported_text() -> Seq<char> {
    "switch_method = \"lg_alt_mode\" is only implemented for Windows and Linux so far"@
}

/// The alt-mode command for this platform and backend.
pub fn switch_lg_alt_mode(config: &Config, platform: Platform) -> (r: Result<SwitchAction, String>)
    requires
        config.switch_method == SwitchMethod::LgAltMode,
    ensures
        ({
            let value = (config.input_value % 256) as u8;
            match platform {
                Platform::Windows => match config.alt_mode_backend {
                    AltModeBackend::Amd => r matches Ok(SwitchAction::AdlAltMode(w)) && w.adapter_index
                        == config.adl_adapter && w.display_index == config.adl_display && w.frame@
                        == adl_frame(config.vcp_feature, value),
                    AltModeBackend::Nvidia => r matches Ok(SwitchAction::NvapiAltMode(w))
                        && w.device_address == DDC_ADDRESS_7BIT && w.payload@ == alt_mode_payload_bytes(config.vcp_feature, value)
                        && w.targets@.len() == MASK_COUNT * PORT_CHOICES && forall|k: int|
                        0 <= k < w.targets@.len() ==> #[trigger] w.targets@[k] == nv_target(k),
                },
                Platform::Linux => r matches Ok(SwitchAction::LinuxAltMode(w)) && w.address
                    == DDC_I2C_ADDRESS && w.data@ == linux_frame(config.vcp_feature, value),
                Platform::Other => r matches Err(m) && m@ == alt_mode_unsupported_text(),
            }
        }),
{
    let value = config.alt_mode_input_value();
    assert(value == (config.input_value % 256) as u8);
    match platform {
        Platform::Windows => match config.alt_mode_backend {
            AltModeBackend::Amd => Ok(
                SwitchAction::AdlAltMode(
                    crate::adl::set_vcp_alt_mode(
                        config.vcp_feature,
                        value,
                        config.adl_adapter,
                        config.adl_display,
                    ),
                ),
            ),
            AltModeBackend::Nvidia => Ok(
                SwitchAction::NvapiAltMode(crate::nvapi::set_vcp_alt_mode(config.vcp_feature, value)),
            ),
        },
        Platform::Linux => Ok(
            SwitchAction::LinuxAltMode(crate::linux_i2c::set_vcp_alt_mode(config.vcp_feature, value)),
        ),
        Platform::Other => Err(
            String::from_str(
                "switch_method = \"lg_alt_mode\" is only implemented for Windows and Linux so far",
            ),
        ),
    }
}

/// The command for the configured switch method.
pub fn switch_to_my_input(config: &Config, platform: Platform) -> (r: Result<SwitchAction, String>)
    ensures
        config.switch_method == SwitchMethod::Standard ==> (r matches Ok(
            SwitchAction::SetVcpIfNeeded { feature, value },
        ) && feature == config.vcp_feature && value == config.input_value),
        config.switch_method == SwitchMethod::LgAltMode ==> ({
            let value = (config.input_value % 256) as u8;
            match platform {
                Platform::Windows => match config.alt_mode_backend {
                    AltModeBackend::Amd => r matches Ok(SwitchAction::AdlAltMode(w)) && w.adapter_index
                        == config.adl_adapter && w.display_index == config.adl_display && w.frame@
                        == adl_frame(config.vcp_feature, value),
                    AltModeBackend::Nvidia => r matches Ok(SwitchAction::NvapiAltMode(w))
                        && w.device_address == DDC_ADDRESS_7BIT && w.payload@ == alt_mode_payload_bytes(config.vcp_feature, value)
                        && w.targets@.len() == MASK_COUNT * PORT_CHOICES && forall|k: int|
                        0 <= k < w.targets@.len() ==> #[trigger] w.targets@[k] == nv_target(k),
                },
                Platform::Linux => r matches Ok(SwitchAction::LinuxAltMode(w)) && w.address
                    == DDC_I2C_ADDRESS && w.data@ == linux_frame(config.vcp_feature, value),
                Platform::Other => r matches Err(m) && m@ == alt_mode_unsupported_text(),
            }
        }),
{
    match config.switch_method {
        SwitchMethod::Standard => Ok(
            SwitchAction::SetVcpIfNeeded { feature: config.vcp_feature, value: config.input_value },
        ),
        SwitchMethod::LgAltMode => switch_lg_alt_mode(config, platform),
    }
}

/// How many times a switch is tried before giving up.
pub const SWITCH_ATTEMPTS: u32 = 3;

/// What follows one attempt to switch.
#[derive(Debug, Clone, Copy, PartialEq, Eq, Structural)]
pub enum RetryStep {
    /// The switch took, on this attempt.
    Succeeded { attempt: u32 },
    /// It failed; wait `delay_ms` and try again.
    RetryAfter { attempt: u32, delay_ms: u64 },
    /// It failed on the last allowed attempt.
    GaveUp { attempts: u32 },
}

/// The step after attempt number `attempt` (counting from 1).
pub open spec fn retry_step(attempt: u32, succeeded: bool) -> RetryStep {
    if succeeded {
        RetryStep::Succeeded { attempt }
    } else if attempt < SWITCH_ATTEMPTS {
        RetryStep::RetryAfter { attempt, delay_ms: (500 * attempt) as u64 }
    } else {
        RetryStep::GaveUp { attempts: attempt }
    }
}

/// Decides what follows an attempt: DDC/CI can transiently NACK, and right
/// after a KVM press the monitor may be busy re-syncing, so a couple of
/// spaced retries (500 ms, then 1000 ms) cover that; re-sending "switch to
/// me" is idempotent.
pub fn after_switch_attempt(attempt: u32, succeeded: bool) -> (s: RetryStep)
    requires
        1 <= attempt <= SWITCH_ATTEMPTS,
    ensures
        s == retry_step(attempt, succeeded),
{
    if succeeded {
        RetryStep::Succeeded { attempt }
    } else if attempt < SWITCH_ATTEMPTS {
        RetryStep::RetryAfter { attempt, delay_ms: 500 * (attempt as u64) }
    } else {
        RetryStep::GaveUp { attempts: attempt }
    }
}

/// The steps taken from attempt `attempt` on, when the attempts succeed or
/// fail as `outcomes` says, one entry per attempt.
pub open spec fn retry_trace(attempt: u32, outcomes: Seq<bool>) -> Seq<RetryStep>
    decreases outcomes.len(),
{
    if outcomes.len() == 0 || attempt < 1 || attempt > SWITCH_ATTEMPTS {
        Seq::empty()
    } else {
        let s = retry_step(attempt, outcomes[0]);
        if s is RetryAfter {
            seq![s] + retry_trace((attempt + 1) as u32, outcomes.drop_first())
        } else {
            seq![s]
        }
    }
}

proof fn lemma_retry_trace_from(a: u32, o: Seq<bool>)
    requires
        1 <= a <= SWITCH_ATTEMPTS,
        o.len() >= SWITCH_ATTEMPTS + 1 - a,
    ensures
        ({
            let t = retry_trace(a, o);
            &&& 1 <= t.len() <= SWITCH_ATTEMPTS + 1 - a
            &&& forall|i: int|
                0 <= i < t.len() - 1 ==> #[trigger] t[i] == (RetryStep::RetryAfter {
                    attempt: (a + i) as u32,
                    delay_ms: (500 * (a + i)) as u64,
                }) && !o[i]
            &&& (t.last() == (RetryStep::Succeeded { attempt: (a + t.len() - 1) as u32 }) && o[t.len()
                - 1]) || (t.last() == (RetryStep::GaveUp { attempts: SWITCH_ATTEMPTS }) && t.len()
                == SWITCH_ATTEMPTS + 1 - a && !o[t.len() - 1])
        }),
    decreases SWITCH_ATTEMPTS - a,
{
    let t = retry_trace(a, o);
    if !o[0] && a < SWITCH_ATTEMPTS {
        let rest = o.drop_first();
        lemma_retry_trace_from((a + 1) as u32, rest);
        let r = retry_trace((a + 1) as u32, rest);
        assert(t =~= seq![retry_step(a, o[0])] + r);
        assert forall|i: int| 0 <= i < t.len() - 1 implies #[trigger] t[i] == (RetryStep::RetryAfter {
            attempt: (a + i) as u32,
            delay_ms: (500 * (a + i)) as u64,
        }) && !o[i] by {
            if i > 0 {
                assert(t[i] == r[i - 1]);
                assert(o[i] == rest[i - 1]);
            }
        }
        assert(t.last() == r.last());
        assert(o[t.len() - 1] == rest[r.len() - 1]);
    }
}

/// The switch is tried at most `SWITCH_ATTEMPTS` (three) times and stops at
/// the first success; between tries it waits 500 ms, then 1000 ms; it gives
/// up only when every try failed.
pub proof fn lemma_switch_retry_policy(outcomes: Seq<bool>)
    requires
        outcomes.len() >= SWITCH_ATTEMPTS,
    ensures
        ({
            let t = retry_trace(1, outcomes);
            &&& 1 <= t.len() <= SWITCH_ATTEMPTS
            &&& forall|i: int|
                0 <= i < t.len() - 1 ==> #[trigger] t[i] == (RetryStep::RetryAfter {
                    attempt: (i + 1) as u32,
                    delay_ms: (500 * (i + 1)) as u64,
                })
            &&& (t.last() is Succeeded) <==> (exists|i: int|
                0 <= i < SWITCH_ATTEMPTS && #[trigger] outcomes[i])
            &&& t.last() is Succeeded ==> t.last() == (RetryStep::Succeeded {
                attempt: t.len() as u32,
            }) && outcomes[t.len() - 1] && forall|i: int| 0 <= i < t.len() - 1 ==> !outcomes[i]
            &&& t.last() is GaveUp ==> t.len() == SWITCH_ATTEMPTS && forall|i: int|
                0 <= i < SWITCH_ATTEMPTS ==> !outcomes[i]
        }),
{
    lemma_retry_trace_from(1, outcomes);
    let t = retry_trace(1, outcomes);
    assert forall|i: int| 0 <= i < t.len() - 1 implies !outcomes[i] by {
        assert(t[i] is RetryAfter);
    }
    if t.last() is GaveUp {
        assert forall|i: int| 0 <= i < SWITCH_ATTEMPTS implies !outcomes[i] by {
            if i < t.len() - 1 {
                assert(t[i] is RetryAfter);
            }
        }
    }
    if t.last() is Succeeded {
        assert(outcomes[t.len() - 1]);
    }
}

} // verus!
