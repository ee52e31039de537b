//! The configuration: its hand-written shape, and the validation that turns
//! it into usable values.

use crate::cli::{hex_arg, parse_hex_u16, parse_hex_u8};
use crate::radix::{parse_radix16, radix16_parse};
use vstd::prelude::*;

verus! {

/// How to send the monitor-switch command.
#[derive(Debug, Clone, Copy, PartialEq, Eq, Structural)]
pub enum SwitchMethod {
    /// Normal DDC/CI "Set VCP Feature" -- works on most monitors,
    /// cross-platform.
    Standard,
    /// LG's DDC alt-mode side channel, for monitors that ignore the
    /// standard command. On Windows the GPU vendor determines how the side
    /// channel is reached -- see [`AltModeBackend`]; on Linux it's always
    /// raw I2C.
    LgAltMode,
}

/// On Windows, the LG alt-mode side channel needs raw I2C to the monitor,
/// which is only reachable through the GPU vendor's SDK. This picks which
/// one. Ignored on Linux.
#[derive(Debug, Clone, Copy, PartialEq, Eq, Structural)]
pub enum AltModeBackend {
    /// AMD's ADL SDK. Needs `adl_adapter`/`adl_display` indices.
    Amd,
    /// NVIDIA's NvAPI. Needs no extra config -- it tries every display
    /// mask/port.
    Nvidia,
}

impl Default for AltModeBackend {
    fn default() -> (b: Self)
        ensures
            b == AltModeBackend::Amd,
    {
        AltModeBackend::Amd
    }
}

/// The shape of `config.toml` as written by hand -- strings everywhere
/// because hex/VID:PID values are far more readable as text than as raw
/// integers. [`Config::validate`] parses and checks these.
#[derive(Debug, Clone)]
pub struct RawConfig {
    pub usb_device_id: String,
    pub switch_method: SwitchMethod,
    /// Only consulted when `switch_method = "lg_alt_mode"` on Windows.
    pub alt_mode_backend: AltModeBackend,
    pub vcp_feature: String,
    pub input_value: String,
    pub adl_adapter: Option<i32>,
    pub adl_display: Option<i32>,
    pub log_level: String,
}

/// The log level used when the config names none.
pub fn default_log_level() -> (s: String)
    ensures
        s@ == "info"@,
{
    String::from_str("info")
}

/// Why a config could not be loaded.
#[derive(Debug, Clone)]
pub enum ConfigError {
    /// The file could not be read.
    Read { path: String, message: String },
    /// The file is not valid TOML of the expected shape.
    Parse { path: String, message: String },
    /// No config directory is known for this platform.
    NoConfigDir,
    /// `usb_device_id` is not `vvvv:pppp` in hex.
    InvalidUsbDeviceId(String),
    /// `vcp_feature` is not a hex byte; the text and why.
    InvalidVcpFeature(String, String),
    /// `input_value` is not a hex 16-bit value; the text and why.
    InvalidInputValue(String, String),
    /// `lg_alt_mode` with the AMD backend on Windows, without ADL indices.
    MissingAdlIndices,
    /// The log level is not a valid filter; the text and why.
    InvalidLogLevel(String, String),
    /// `input_value` does not fit the single byte alt mode sends.
    AltModeValueTooLarge(String),
}

/// A [`ConfigError`] with its texts as character sequences.
pub enum ConfigErrorView {
    Read { path: Seq<char>, message: Seq<char> },
    Parse { path: Seq<char>, message: Seq<char> },
    NoConfigDir,
    InvalidUsbDeviceId(Seq<char>),
    InvalidVcpFeature(Seq<char>, Seq<char>),
    InvalidInputValue(Seq<char>, Seq<char>),
    MissingAdlIndices,
    InvalidLogLevel(Seq<char>, Seq<char>),
    AltModeValueTooLarge(Seq<char>),
}

impl View for ConfigError {
    type V = ConfigErrorView;

    open spec fn view(&self) -> ConfigErrorView {
        match self {
            ConfigError::Read { path, message } => ConfigErrorView::Read {
                path: path@,
                message: message@,
            },
            ConfigError::Parse { path, message } => ConfigErrorView::Parse {
                path: path@,
                message: message@,
            },
            ConfigError::NoConfigDir => ConfigErrorView::NoConfigDir,
            ConfigError::InvalidUsbDeviceId(s) => ConfigErrorView::InvalidUsbDeviceId(s@),
            ConfigError::InvalidVcpFeature(s, m) => ConfigErrorView::InvalidVcpFeature(s@, m@),
            ConfigError::InvalidInputValue(s, m) => ConfigErrorView::InvalidInputValue(s@, m@),
            ConfigError::MissingAdlIndices => ConfigErrorView::MissingAdlIndices,
            ConfigError::InvalidLogLevel(s, m) => ConfigErrorView::InvalidLogLevel(s@, m@),
            ConfigError::AltModeValueTooLarge(s) => ConfigErrorView::AltModeValueTooLarge(s@),
        }
    }
}

/// A validated configuration.
#[derive(Debug, Clone)]
pub struct Config {
    pub usb_vendor_id: u16,
    pub usb_product_id: u16,
    pub switch_method: SwitchMethod,
    pub alt_mode_backend: AltModeBackend,
    pub vcp_feature: u8,
    pub input_value: u16,
    pub adl_adapter: i32,
    pub adl_display: i32,
    pub log_level: String,
}

/// A [`Config`] with integers as mathematical values and the log level as
/// a character sequence.
pub struct ConfigView {
    pub usb_vendor_id: nat,
    pub usb_product_id: nat,
    pub switch_method: SwitchMethod,
    pub alt_mode_backend: AltModeBackend,
    pub vcp_feature: nat,
    pub input_value: nat,
    pub adl_adapter: int,
    pub adl_display: int,
    pub log_level: Seq<char>,
}

impl View for Config {
    type V = ConfigView;

    open spec fn view(&self) -> ConfigView {
        ConfigView {
            usb_vendor_id: self.usb_vendor_id as nat,
            usb_product_id: self.usb_product_id as nat,
            switch_method: self.switch_method,
            alt_mode_backend: self.alt_mode_backend,
            vcp_feature: self.vcp_feature as nat,
            input_value: self.input_value as nat,
            adl_adapter: self.adl_adapter as int,
            adl_display: self.adl_display as int,
            log_level: self.log_level@,
        }
    }
}

/// What `tracing_subscriber::EnvFilter::try_new` reports for a filter
/// directive string: `None` when it parses, else the error's text.
pub uninterp spec fn env_filter_rejection(directives: Seq<char>) -> Option<Seq<char>>;

/// The characters `str::trim` removes: Unicode `White_Space`.
#[verifier::opaque]
pub open spec fn is_unicode_white_space(c: char) -> bool {
    ('\u{9}' <= c && c <= '\u{d}') || c == ' ' || c == '\u{85}' || c == '\u{a0}'
        || c == '\u{1680}' || ('\u{2000}' <= c && c <= '\u{200a}') || c == '\u{2028}'
        || c == '\u{2029}' || c == '\u{202f}' || c == '\u{205f}' || c == '\u{3000}'
}

/// Filter directive strings on which `EnvFilter::try_new` slices only at
/// character boundaries: all ASCII, or no comma-separated directive starts
/// with white space. (The directive parser indexes the untrimmed text with
/// positions taken in the trimmed text; only leading white space shifts
/// those positions, and only a multi-byte character can then make one fall
/// inside a character, which panics. Texts outside this set may or may not
/// panic.)
pub open spec fn env_filter_total(s: Seq<char>) -> bool {
    vstd::utf8::is_ascii_chars(s) || forall|i: int| 0 <= i < s.len() ==> #[trigger] clear_at(s, i)
}

/// Position `i` of `s` does not start a directive with white space.
pub open spec fn clear_at(s: Seq<char>, i: int) -> bool {
    (i == 0 || s[i - 1] == ',') ==> !is_unicode_white_space(s[i])
}

fn is_white_space_exec(c: char) -> (b: bool)
    ensures
        b == is_unicode_white_space(c),
{
    proof {
        reveal(is_unicode_white_space);
    }
    ('\u{9}' <= c && c <= '\u{d}') || c == ' ' || c == '\u{85}' || c == '\u{a0}' || c == '\u{1680}'
        || ('\u{2000}' <= c && c <= '\u{200a}') || c == '\u{2028}' || c == '\u{2029}' || c
        == '\u{202f}' || c == '\u{205f}' || c == '\u{3000}'
}

/// Whether `s` is a filter text `EnvFilter::try_new` is known not to panic
/// on (see [`env_filter_total`]).
fn filter_text_is_total(s: &str) -> (b: bool)
    ensures
        b == env_filter_total(s@),
{
    if s.is_ascii() {
        return true;
    }
    let n = s.unicode_len();
    let mut i: usize = 0;
    let mut prev_is_comma = true;
    while i < n
        invariant
            n == s@.len(),
            i <= n,
            prev_is_comma == (i == 0 || s@[i - 1] == ','),
            !vstd::utf8::is_ascii_chars(s@),
            forall|k: int| 0 <= k < i ==> #[trigger] clear_at(s@, k),
        decreases n - i,
    {
        let c = s.get_char(i);
        if prev_is_comma && is_white_space_exec(c) {
            assert(!clear_at(s@, i as int));
            return false;
        }
        prev_is_comma = c == ',';
        i = i + 1;
    }
    true
}

/// The log levels the config documents.
pub open spec fn is_documented_level(s: Seq<char>) -> bool {
    s == "trace"@ || s == "debug"@ || s == "info"@ || s == "warn"@ || s == "error"@
}

/// Whether `s` is one of the documented log levels.
fn documented_level(s: &String) -> (b: bool)
    ensures
        b == is_documented_level(s@),
{
    *s == String::from_str("trace") || *s == String::from_str("debug") || *s == String::from_str(
        "info",
    ) || *s == String::from_str("warn") || *s == String::from_str("error")
}

/// Why a text is refused as the log level, used when the filter parser does
/// not itself reject it.
pub open spec fn undocumented_level_text() -> Seq<char> {
    "not a documented log level"@
}

/// Why `s` is refused as the log level, or `None` when it is one of the
/// documented levels: the filter parser's own error text where it rejects
/// the text (and is known not to panic on it), else
/// [`undocumented_level_text`].
pub open spec fn log_level_rejection(s: Seq<char>) -> Option<Seq<char>> {
    if is_documented_level(s) {
        None
    } else if env_filter_total(s) && env_filter_rejection(s) is Some {
        env_filter_rejection(s)
    } else {
        Some(undocumented_level_text())
    }
}

/// Checks a configured log level; see [`log_level_rejection`].
pub fn check_log_level(s: &String) -> (r: Option<String>)
    ensures
        match r {
            None => log_level_rejection(s@) is None,
            Some(m) => log_level_rejection(s@) == Some(m@),
        },
{
    if documented_level(s) {
        return None;
    }
    if filter_text_is_total(s.as_str()) {
        if let Some(m) = env_filter_check(s.as_str()) {
            return Some(m);
        }
    }
    Some(String::from_str("not a documented log level"))
}

/// Calls `tracing_subscriber::EnvFilter::try_new` on `directives` and keeps
/// only whether it parsed, and the error's `to_string()` when it did not.
/// Claimed: the outcome is `env_filter_rejection` of the text; an empty
/// text parses (`Builder::parse` returns an empty filter for it); a bare
/// level name parses (`Directive::parse` ends in `LevelOrTarget` and
/// `LevelFilter::from_str` accepts it).
#[verifier::external_body]
fn env_filter_check(directives: &str) -> (r: Option<String>)
    requires
        env_filter_total(directives@),
    ensures
        match r {
            None => env_filter_rejection(directives@) is None,
            Some(m) => env_filter_rejection(directives@) == Some(m@),
        },
        directives@.len() == 0 ==> r is None,
        is_documented_level(directives@) ==> r is None,
{
    match tracing_subscriber::EnvFilter::try_new(directives) {
        Ok(_) => None,
        Err(e) => Some(e.to_string()),
    }
}

/// `vvvv:pppp`: two radix-16 numbers of at most 16 bits around the first
/// colon.
pub open spec fn vid_pid(s: Seq<char>) -> Option<(nat, nat)> {
    match s.index_of_first(':') {
        None => None,
        Some(i) => match (
            radix16_parse(s.take(i), 0xffff),
            radix16_parse(s.skip(i + 1), 0xffff),
        ) {
            (Ok(v), Ok(p)) => Some((v, p)),
            _ => None,
        },
    }
}

/// Whether the ADL adapter/display indices must be given: only the AMD
/// backend of the alt mode on Windows uses them.
pub open spec fn needs_adl_indices(raw: RawConfig, on_windows: bool) -> bool {
    raw.switch_method == SwitchMethod::LgAltMode && raw.alt_mode_backend == AltModeBackend::Amd
        && on_windows
}

/// What validating `raw` gives, the checks taken in order: the device id,
/// the feature, the value, the value's width for alt mode, the ADL
/// indices, the log level (one of the five documented levels).
pub open spec fn validation(raw: RawConfig, on_windows: bool) -> Result<ConfigView, ConfigErrorView> {
    match vid_pid(raw.usb_device_id@) {
        None => Err(ConfigErrorView::InvalidUsbDeviceId(raw.usb_device_id@)),
        Some((vid, pid)) => match hex_arg(raw.vcp_feature@, 0xff) {
            Err(m) => Err(ConfigErrorView::InvalidVcpFeature(raw.vcp_feature@, m)),
            Ok(feature) => match hex_arg(raw.input_value@, 0xffff) {
                Err(m) => Err(ConfigErrorView::InvalidInputValue(raw.input_value@, m)),
                Ok(value) => if raw.switch_method == SwitchMethod::LgAltMode && value > 0xff {
                    Err(ConfigErrorView::AltModeValueTooLarge(raw.input_value@))
                } else if needs_adl_indices(raw, on_windows) && (raw.adl_adapter is None
                    || raw.adl_display is None) {
                    Err(ConfigErrorView::MissingAdlIndices)
                } else {
                    match log_level_rejection(raw.log_level@) {
                        Some(m) => Err(ConfigErrorView::InvalidLogLevel(raw.log_level@, m)),
                        None => Ok(
                            ConfigView {
                                usb_vendor_id: vid,
                                usb_product_id: pid,
                                switch_method: raw.switch_method,
                                alt_mode_backend: raw.alt_mode_backend,
                                vcp_feature: feature,
                                input_value: value,
                                adl_adapter: match raw.adl_adapter {
                                    Some(a) => a as int,
                                    None => 0,
                                },
                                adl_display: match raw.adl_display {
                                    Some(d) => d as int,
                                    None => 0,
                                },
                                log_level: raw.log_level@,
                            },
                        ),
                    }
                },
            },
        },
    }
}

fn find_colon(s: &str) -> (r: Option<usize>)
    ensures
        match r {
            Some(i) => i < s@.len() && s@.index_of_first(':') == Some(i as int),
            None => s@.index_of_first(':') is None,
        },
{
    let n = s.unicode_len();
    let mut i: usize = 0;
    while i < n
        invariant
            n == s@.len(),
            i <= n,
            forall|k: int| 0 <= k < i ==> s@[k] != ':',
        decreases n - i,
    {
        if s.get_char(i) == ':' {
            proof {
                s@.index_of_first_ensures(':');
                match s@.index_of_first(':') {
                    Some(j) => {
                        if j < i {
                            assert(s@[j] != ':');
                        }
                    },
                    None => {
                        assert(s@.contains(':')) by {
                            assert(s@[i as int] == ':');
                        }
                    },
                }
            }
            return Some(i);
        }
        i = i + 1;
    }
    proof {
        s@.index_of_first_ensures(':');
        match s@.index_of_first(':') {
            Some(j) => {
                assert(s@[j] != ':');
            },
            None => {},
        }
    }
    None
}

/// Splits `vvvv:pppp` at its first colon and reads both halves as hex.
pub fn parse_vid_pid(s: &str) -> (r: Result<(u16, u16), ConfigError>)
    ensures
        match r {
            Ok((v, p)) => vid_pid(s@) == Some((v as nat, p as nat)),
            Err(e) => vid_pid(s@) is None && e@ == ConfigErrorView::InvalidUsbDeviceId(s@),
        },
{
    match find_colon(s) {
        None => Err(ConfigError::InvalidUsbDeviceId(s.to_owned())),
        Some(i) => {
            let n = s.unicode_len();
            let vid_text = s.substring_char(0, i);
            let pid_text = s.substring_char(i + 1, n);
            assert(vid_text@ =~= s@.take(i as int));
            assert(pid_text@ =~= s@.skip(i + 1));
            match parse_radix16(vid_text, 0xffff) {
                Err(_) => Err(ConfigError::InvalidUsbDeviceId(s.to_owned())),
                Ok(vid) => match parse_radix16(pid_text, 0xffff) {
                    Err(_) => Err(ConfigError::InvalidUsbDeviceId(s.to_owned())),
                    Ok(pid) => Ok((vid as u16, pid as u16)),
                },
            }
        },
    }
}

impl Config {
    /// The single-byte value alt mode sends: `input_value` cut to its low
    /// byte, which is all of it for a config `validate` accepted.
    pub fn alt_mode_input_value(&self) -> (b: u8)
        requires
            self.switch_method == SwitchMethod::LgAltMode,
        ensures
            b as nat == self.input_value as nat % 256,
    {
        (self.input_value % 256) as u8
    }

    /// Checks and converts a hand-written config; `on_windows` says whether
    /// the program runs on Windows, where the AMD alt-mode backend needs
    /// the ADL indices.
    pub fn validate(raw: RawConfig, on_windows: bool) -> (r: Result<Config, ConfigError>)
        ensures
            match r {
                Ok(c) => validation(raw, on_windows) == Ok::<ConfigView, ConfigErrorView>(c@),
                Err(e) => validation(raw, on_windows) == Err::<ConfigView, ConfigErrorView>(e@),
            },
    {
        let ghost g = raw;
        let (usb_vendor_id, usb_product_id) = match parse_vid_pid(raw.usb_device_id.as_str()) {
            Ok(p) => p,
            Err(e) => return Err(e),
        };
        let vcp_feature = match parse_hex_u8(raw.vcp_feature.as_str()) {
            Ok(f) => f,
            Err(m) => return Err(ConfigError::InvalidVcpFeature(raw.vcp_feature.clone(), m)),
        };
        let input_value = match parse_hex_u16(raw.input_value.as_str()) {
            Ok(v) => v,
            Err(m) => return Err(ConfigError::InvalidInputValue(raw.input_value.clone(), m)),
        };
        // Alt mode sends a single-byte value; catch an oversized one here
        // rather than silently truncating it at switch time.
        if raw.switch_method == SwitchMethod::LgAltMode && input_value > 0xff {
            return Err(ConfigError::AltModeValueTooLarge(raw.input_value.clone()));
        }
        let needs_adl = raw.switch_method == SwitchMethod::LgAltMode && raw.alt_mode_backend
            == AltModeBackend::Amd && on_windows;
        let (adl_adapter, adl_display) = if needs_adl {
            match (raw.adl_adapter, raw.adl_display) {
                (Some(a), Some(d)) => (a, d),
                _ => return Err(ConfigError::MissingAdlIndices),
            }
        } else {
            (
                match raw.adl_adapter {
                    Some(a) => a,
                    None => 0,
                },
                match raw.adl_display {
                    Some(d) => d,
                    None => 0,
                },
            )
        };
        // Fail fast on a bad log_level here rather than when logging is set
        // up, so config errors are reported consistently.
        if let Some(m) = check_log_level(&raw.log_level) {
            return Err(ConfigError::InvalidLogLevel(raw.log_level.clone(), m));
        }
        Ok(Config {
            usb_vendor_id,
            usb_product_id,
            switch_method: raw.switch_method,
            alt_mode_backend: raw.alt_mode_backend,
            vcp_feature,
            input_value,
            adl_adapter,
            adl_display,
            log_level: raw.log_level,
        })
    }
}

/// A config that validation accepts with the alt-mode switch method holds
/// an input value that fits in the one byte alt mode sends, so the value
/// sent is the configured value itself; the ADL indices are those given
/// whenever the AMD backend needs them on Windows; and only the five
/// documented log levels are ever accepted.
pub proof fn lemma_accepted_alt_mode_value_fits(raw: RawConfig, on_windows: bool)
    ensures
        validation(raw, on_windows) matches Ok(c) ==> {
            &&& c.switch_method == SwitchMethod::LgAltMode ==> c.input_value <= 0xff
                && c.input_value % 256 == c.input_value
            &&& needs_adl_indices(raw, on_windows) ==> raw.adl_adapter == Some(c.adl_adapter as i32)
                && raw.adl_display == Some(c.adl_display as i32)
            &&& is_documented_level(c.log_level)
        },
        !is_documented_level(raw.log_level@) ==> validation(raw, on_windows) is Err,
{
}

} // verus!
