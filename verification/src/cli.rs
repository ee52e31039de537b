//! The command line: subcommands, and the hexadecimal argument parsers
//! shared with the config file.

use crate::radix::{int_error_message, int_error_text, parse_radix16, radix16_parse};
use crate::Platform;
use vstd::prelude::*;

verus! {

/// Automatically switch a monitor's DDC/CI input based on which PC a shared
/// USB peripheral is currently plugged into.
#[derive(Debug, Clone)]
pub struct Cli {
    /// Path of the config file; the platform default when absent.
    pub config: Option<String>,
    /// The subcommand; the real run mode when absent.
    pub command: Option<Command>,
}

/// The subcommands.
#[derive(Debug, Clone, Copy, PartialEq, Eq, Structural)]
pub enum Command {
    /// List currently-attached USB devices (vendor:product, manufacturer, product, serial).
    ///
    /// Use this to find the VID:PID of the keyboard/mouse you want to watch for.
    List,
    /// Print connect/disconnect events of the configured device without
    /// switching anything.
    Watch,
    /// Read a VCP feature from the first DDC/CI monitor.
    DdcGet { feature: u8 },
    /// Write a VCP feature on the first DDC/CI monitor.
    DdcSet { feature: u8, value: u16 },
    /// List the displays AMD's ADL reports (Windows).
    DdcAdlProbe,
    /// Send the LG alt-mode command through AMD's ADL (Windows).
    DdcAdlSet { feature: u8, value: u8, adapter: i32, display: i32 },
    /// Send the LG alt-mode command over raw I2C (Linux).
    DdcLinuxAltSet { feature: u8, value: u8 },
    /// List the NVIDIA GPUs NvAPI reports (Windows).
    DdcNvapiProbe,
    /// Send the LG alt-mode command through NvAPI (Windows).
    DdcNvapiSet { feature: u8, value: u8 },
    /// Install the per-user background service.
    Install,
    /// Remove the per-user background service.
    Uninstall,
    /// Report whether the background service is installed and running.
    Status,
}

/// The text a subcommand is refused with on a platform that lacks what it
/// uses, or `None` where it is available.
pub open spec fn refusal_text(command: Command, platform: Platform) -> Option<Seq<char>> {
    match command {
        Command::DdcAdlProbe => if platform == Platform::Windows { None } else {
            Some("ddc-adl-probe is Windows/AMD-only (uses ADL)"@)
        },
        Command::DdcAdlSet { .. } => if platform == Platform::Windows { None } else {
            Some("ddc-adl-set is Windows/AMD-only (uses ADL)"@)
        },
        Command::DdcLinuxAltSet { .. } => if platform == Platform::Linux { None } else {
            Some("ddc-linux-alt-set is Linux-only (uses raw i2c-dev)"@)
        },
        Command::DdcNvapiProbe => if platform == Platform::Windows { None } else {
            Some("ddc-nvapi-probe is Windows/NVIDIA-only (uses NvAPI)"@)
        },
        Command::DdcNvapiSet { .. } => if platform == Platform::Windows { None } else {
            Some("ddc-nvapi-set is Windows/NVIDIA-only (uses NvAPI)"@)
        },
        _ => None,
    }
}

impl Command {
    /// Why this subcommand cannot run on `platform`, if it cannot.
    pub fn refusal(&self, platform: Platform) -> (r: Option<String>)
        ensures
            match r {
                Some(m) => refusal_text(*self, platform) == Some(m@),
                None => refusal_text(*self, platform) is None,
            },
    {
        match self {
            Command::DdcAdlProbe => if platform == Platform::Windows { None } else {
                Some(String::from_str("ddc-adl-probe is Windows/AMD-only (uses ADL)"))
            },
            Command::DdcAdlSet { .. } => if platform == Platform::Windows { None } else {
                Some(String::from_str("ddc-adl-set is Windows/AMD-only (uses ADL)"))
            },
            Command::DdcLinuxAltSet { .. } => if platform == Platform::Linux { None } else {
                Some(String::from_str("ddc-linux-alt-set is Linux-only (uses raw i2c-dev)"))
            },
            Command::DdcNvapiProbe => if platform == Platform::Windows { None } else {
                Some(String::from_str("ddc-nvapi-probe is Windows/NVIDIA-only (uses NvAPI)"))
            },
            Command::DdcNvapiSet { .. } => if platform == Platform::Windows { None } else {
                Some(String::from_str("ddc-nvapi-set is Windows/NVIDIA-only (uses NvAPI)"))
            },
            _ => None,
        }
    }
}

/// The ADL and NvAPI subcommands run exactly on Windows, the raw-I2C one
/// exactly on Linux, and every other subcommand everywhere; a refusal names
/// the subcommand and the platform it needs.
pub proof fn lemma_refusals_follow_the_backend(command: Command, platform: Platform)
    ensures
        match command {
            Command::DdcAdlProbe => (refusal_text(command, platform) is None <==> platform
                == Platform::Windows) && (platform != Platform::Windows ==> refusal_text(
                command,
                platform,
            ) == Some("ddc-adl-probe is Windows/AMD-only (uses ADL)"@)),
            Command::DdcAdlSet { .. } => (refusal_text(command, platform) is None <==> platform
                == Platform::Windows) && (platform != Platform::Windows ==> refusal_text(
                command,
                platform,
            ) == Some("ddc-adl-set is Windows/AMD-only (uses ADL)"@)),
            Command::DdcNvapiProbe => (refusal_text(command, platform) is None <==> platform
                == Platform::Windows) && (platform != Platform::Windows ==> refusal_text(
                command,
                platform,
            ) == Some("ddc-nvapi-probe is Windows/NVIDIA-only (uses NvAPI)"@)),
            Command::DdcNvapiSet { .. } => (refusal_text(command, platform) is None <==> platform
                == Platform::Windows) && (platform != Platform::Windows ==> refusal_text(
                command,
                platform,
            ) == Some("ddc-nvapi-set is Windows/NVIDIA-only (uses NvAPI)"@)),
            Command::DdcLinuxAltSet { .. } => (refusal_text(command, platform) is None <==> platform
                == Platform::Linux) && (platform != Platform::Linux ==> refusal_text(
                command,
                platform,
            ) == Some("ddc-linux-alt-set is Linux-only (uses raw i2c-dev)"@)),
            _ => refusal_text(command, platform) is None,
        },
{
}

/// `s` without one leading `0x` or `0X`.
pub open spec fn strip_hex_prefix(s: Seq<char>) -> Seq<char> {
    if s.len() >= 2 && s[0] == '0' && (s[1] == 'x' || s[1] == 'X') {
        s.subrange(2, s.len() as int)
    } else {
        s
    }
}

/// A hexadecimal argument with an optional `0x`/`0X` prefix, read as an
/// unsigned integer no larger than `max`; on failure, the message.
pub open spec fn hex_arg(s: Seq<char>, max: nat) -> Result<nat, Seq<char>> {
    match radix16_parse(strip_hex_prefix(s), max) {
        Ok(v) => Ok(v),
        Err(k) => Err(int_error_text(k)),
    }
}

fn strip_prefix_exec(s: &str) -> (r: &str)
    ensures
        r@ == strip_hex_prefix(s@),
{
    let n = s.unicode_len();
    if n >= 2 && s.get_char(0) == '0' {
        let c = s.get_char(1);
        if c == 'x' || c == 'X' {
            return s.substring_char(2, n);
        }
    }
    s
}

/// Parses a byte written in hexadecimal, such as `0xF4`.
pub fn parse_hex_u8(s: &str) -> (r: Result<u8, String>)
    ensures
        match r {
            Ok(v) => hex_arg(s@, 0xff) == Ok::<nat, Seq<char>>(v as nat),
            Err(m) => hex_arg(s@, 0xff) == Err::<nat, Seq<char>>(m@),
        },
{
    match parse_radix16(strip_prefix_exec(s), 0xff) {
        Ok(v) => Ok(v as u8),
        Err(k) => Err(int_error_message(k)),
    }
}

/// Parses a 16-bit value written in hexadecimal, such as `0xD0`.
pub fn parse_hex_u16(s: &str) -> (r: Result<u16, String>)
    ensures
        match r {
            Ok(v) => hex_arg(s@, 0xffff) == Ok::<nat, Seq<char>>(v as nat),
            Err(m) => hex_arg(s@, 0xffff) == Err::<nat, Seq<char>>(m@),
        },
{
    match parse_radix16(strip_prefix_exec(s), 0xffff) {
        Ok(v) => Ok(v as u16),
        Err(k) => Err(int_error_message(k)),
    }
}

} // verus!
