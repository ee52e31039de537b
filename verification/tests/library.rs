use bad_kvm_switch::adl::{
    self, connected_displays, display_connected, display_label, display_mapped, probe_line,
    require_amd_adapter, AdapterSummary, DisplayEntry,
};
use bad_kvm_switch::cli::{parse_hex_u16, parse_hex_u8, Command};
use bad_kvm_switch::config::{
    default_log_level, parse_vid_pid, AltModeBackend, Config, ConfigError, RawConfig, SwitchMethod,
};
use bad_kvm_switch::ddc_control::{set_vcp_if_needed, VcpStep};
use bad_kvm_switch::ddc_frame::xor_checksum;
use bad_kvm_switch::linux_i2c;
use bad_kvm_switch::nvapi::{self, NvI2cTarget};
use bad_kvm_switch::radix::{int_error_message, parse_radix16, push_decimal, push_hex4, IntErrorKind};
use bad_kvm_switch::service;
use bad_kvm_switch::switching::{
    after_switch_attempt, switch_lg_alt_mode, switch_to_my_input, RetryStep, SwitchAction,
};
use bad_kvm_switch::usb_watch::{device_line, vid_pid_text, WatchState};
use bad_kvm_switch::Platform;

fn raw_example() -> RawConfig {
    RawConfig {
        usb_device_id: "8968:4e4b".to_string(),
        switch_method: SwitchMethod::LgAltMode,
        alt_mode_backend: AltModeBackend::default(),
        vcp_feature: "0xF4".to_string(),
        input_value: "0xD0".to_string(),
        adl_adapter: Some(5),
        adl_display: Some(0),
        log_level: "info".to_string(),
    }
}

fn config_example(method: SwitchMethod, backend: AltModeBackend) -> Config {
    Config {
        usb_vendor_id: 0x8968,
        usb_product_id: 0x4e4b,
        switch_method: method,
        alt_mode_backend: backend,
        vcp_feature: 0xf4,
        input_value: 0xd0,
        adl_adapter: 5,
        adl_display: 0,
        log_level: "info".to_string(),
    }
}

const LG_DP_FRAME: [u8; 8] = [0x6e, 0x50, 0x84, 0x03, 0xf4, 0x00, 0xd0, 0x9d];

#[test]
fn hex_u8_accepts_prefixed_and_bare_digits() {
    assert_eq!(parse_hex_u8("0xF4"), Ok(0xf4));
    assert_eq!(parse_hex_u8("0Xf4"), Ok(0xf4));
    assert_eq!(parse_hex_u8("f4"), Ok(0xf4));
    assert_eq!(parse_hex_u8("0x0001"), Ok(1));
    assert_eq!(parse_hex_u8("+7"), Ok(7));
    assert_eq!(parse_hex_u8("0x00"), Ok(0));
    assert_eq!(parse_hex_u8("FF"), Ok(255));
}

#[test]
fn hex_u8_errors_name_their_cause() {
    assert_eq!(parse_hex_u8(""), Err("cannot parse integer from empty string".to_string()));
    assert_eq!(parse_hex_u8("0x"), Err("cannot parse integer from empty string".to_string()));
    assert_eq!(parse_hex_u8("+"), Err("invalid digit found in string".to_string()));
    assert_eq!(parse_hex_u8("zz"), Err("invalid digit found in string".to_string()));
    assert_eq!(parse_hex_u8("0x1g"), Err("invalid digit found in string".to_string()));
    assert_eq!(parse_hex_u8("-1"), Err("invalid digit found in string".to_string()));
    assert_eq!(parse_hex_u8("0x100"), Err("number too large to fit in target type".to_string()));
    // Overflow is found before a later bad digit, as `from_str_radix` does.
    assert_eq!(parse_hex_u8("FFFg"), Err("number too large to fit in target type".to_string()));
    assert_eq!(parse_hex_u8("FFg"), Err("invalid digit found in string".to_string()));
}

#[test]
fn hex_u16_bounds() {
    assert_eq!(parse_hex_u16("0xD0"), Ok(0xd0));
    assert_eq!(parse_hex_u16("ffff"), Ok(0xffff));
    assert_eq!(parse_hex_u16("0x10000"), Err("number too large to fit in target type".to_string()));
    assert_eq!(parse_hex_u16("0000000000ffff"), Ok(0xffff));
}

#[test]
fn radix16_matches_std() {
    for s in ["", "+", "0", "+0", "00ff", "fFfF", "1_0", " 1", "10000", "ffg", "é", "+-1"] {
        let ours = parse_radix16(s, 0xffff);
        let std = u16::from_str_radix(s, 16);
        match (ours, std) {
            (Ok(a), Ok(b)) => assert_eq!(a, b as u32, "{s:?}"),
            (Err(IntErrorKind::Empty), Err(e)) => {
                assert_eq!(e.to_string(), "cannot parse integer from empty string", "{s:?}")
            }
            (Err(IntErrorKind::InvalidDigit), Err(e)) => {
                assert_eq!(e.to_string(), "invalid digit found in string", "{s:?}")
            }
            (Err(IntErrorKind::PosOverflow), Err(e)) => {
                assert_eq!(e.to_string(), "number too large to fit in target type", "{s:?}")
            }
            (a, b) => panic!("{s:?}: {a:?} vs {b:?}"),
        }
    }
    assert_eq!(int_error_message(IntErrorKind::Empty), "cannot parse integer from empty string");
}

#[test]
fn hex_and_decimal_rendering() {
    let mut s = String::new();
    push_hex4(&mut s, 0x4e4b);
    push_hex4(&mut s, 0x0a);
    assert_eq!(s, "4e4b000a");
    let mut d = String::from("pid ");
    push_decimal(&mut d, 0);
    d.push(' ');
    push_decimal(&mut d, 4_294_967_295);
    assert_eq!(d, "pid 0 4294967295");
}

#[test]
fn vid_pid_parsing() {
    assert!(matches!(parse_vid_pid("8968:4e4b"), Ok((0x8968, 0x4e4b))));
    assert!(matches!(parse_vid_pid("0:FFFF"), Ok((0, 0xffff))));
    for bad in ["89684e4b", "8968:", ":4e4b", "1:2:3", "10000:1", "zz:1"] {
        match parse_vid_pid(bad) {
            Err(ConfigError::InvalidUsbDeviceId(s)) => assert_eq!(s, bad),
            other => panic!("{bad}: {other:?}"),
        }
    }
}

#[test]
fn listed_id_reads_back() {
    for (v, p) in [(0x8968u16, 0x4e4bu16), (0, 0), (0xffff, 0x1), (0x046d, 0xc52b)] {
        let text = vid_pid_text(v, p);
        assert_eq!(text, format!("{v:04x}:{p:04x}"));
        assert!(matches!(parse_vid_pid(&text), Ok((a, b)) if a == v && b == p));
    }
}

#[test]
fn device_lines() {
    assert_eq!(
        device_line(0x8968, 0x4e4b, None, Some("Keyboard"), Some("123")),
        "8968:4e4b\t\tKeyboard\t123"
    );
    assert_eq!(device_line(0x046d, 0xc52b, Some("Logitech"), None, None), "046d:c52b\tLogitech\t\t");
}

#[test]
fn default_log_level_is_info() {
    assert_eq!(default_log_level(), "info");
}

#[test]
fn validate_readme_example() {
    let c = Config::validate(raw_example(), true).expect("valid");
    assert_eq!(c.usb_vendor_id, 0x8968);
    assert_eq!(c.usb_product_id, 0x4e4b);
    assert_eq!(c.switch_method, SwitchMethod::LgAltMode);
    assert_eq!(c.alt_mode_backend, AltModeBackend::Amd);
    assert_eq!(c.vcp_feature, 0xf4);
    assert_eq!(c.input_value, 0xd0);
    assert_eq!(c.adl_adapter, 5);
    assert_eq!(c.adl_display, 0);
    assert_eq!(c.log_level, "info");
    assert_eq!(c.alt_mode_input_value(), 0xd0);
}

#[test]
fn validate_reports_each_error() {
    let mut raw = raw_example();
    raw.usb_device_id = "8968-4e4b".to_string();
    assert!(matches!(Config::validate(raw, true), Err(ConfigError::InvalidUsbDeviceId(s)) if s == "8968-4e4b"));

    let mut raw = raw_example();
    raw.vcp_feature = "0x1F4".to_string();
    assert!(matches!(Config::validate(raw, true),
        Err(ConfigError::InvalidVcpFeature(s, m)) if s == "0x1F4" && m == "number too large to fit in target type"));

    let mut raw = raw_example();
    raw.input_value = "D0h".to_string();
    assert!(matches!(Config::validate(raw, true),
        Err(ConfigError::InvalidInputValue(s, m)) if s == "D0h" && m == "invalid digit found in string"));

    let mut raw = raw_example();
    raw.input_value = "0x100".to_string();
    assert!(matches!(Config::validate(raw, true), Err(ConfigError::AltModeValueTooLarge(s)) if s == "0x100"));

    let mut raw = raw_example();
    raw.adl_display = None;
    assert!(matches!(Config::validate(raw, true), Err(ConfigError::MissingAdlIndices)));

    let mut raw = raw_example();
    raw.log_level = "foo=bar".to_string();
    assert!(matches!(Config::validate(raw, true),
        Err(ConfigError::InvalidLogLevel(s, m)) if s == "foo=bar" && !m.is_empty()));

    let mut raw = raw_example();
    raw.log_level = "!".to_string();
    assert!(matches!(Config::validate(raw, true),
        Err(ConfigError::InvalidLogLevel(s, m)) if s == "!" && m == "invalid filter directive"));
}

#[test]
fn validate_checks_in_order() {
    let mut raw = raw_example();
    raw.usb_device_id = "x".to_string();
    raw.vcp_feature = "x".to_string();
    assert!(matches!(Config::validate(raw, true), Err(ConfigError::InvalidUsbDeviceId(_))));
}

#[test]
fn adl_indices_only_needed_for_amd_alt_mode_on_windows() {
    let mut raw = raw_example();
    raw.adl_adapter = None;
    raw.adl_display = None;
    let c = Config::validate(raw, false).expect("not windows");
    assert_eq!((c.adl_adapter, c.adl_display), (0, 0));

    let mut raw = raw_example();
    raw.adl_adapter = None;
    raw.alt_mode_backend = AltModeBackend::Nvidia;
    let c = Config::validate(raw, true).expect("nvidia");
    assert_eq!((c.adl_adapter, c.adl_display), (0, 0));

    let mut raw = raw_example();
    raw.switch_method = SwitchMethod::Standard;
    raw.input_value = "0x0f".to_string();
    raw.vcp_feature = "0x60".to_string();
    raw.adl_adapter = None;
    let c = Config::validate(raw, true).expect("standard");
    assert_eq!((c.vcp_feature, c.input_value, c.adl_adapter, c.adl_display), (0x60, 0x0f, 0, 0));
}

#[test]
fn standard_method_allows_wide_values() {
    let mut raw = raw_example();
    raw.switch_method = SwitchMethod::Standard;
    raw.input_value = "0x1234".to_string();
    let c = Config::validate(raw, true).expect("standard");
    assert_eq!(c.input_value, 0x1234);
}

#[test]
fn undocumented_log_levels_are_refused() {
    for level in ["", "off", "INFO", "foo=debug", "info,debug", " é", "info, é", "\u{3000}info"] {
        let mut raw = raw_example();
        raw.log_level = level.to_string();
        match Config::validate(raw, true) {
            Err(ConfigError::InvalidLogLevel(s, m)) => {
                assert_eq!(s, level);
                assert_eq!(m, "not a documented log level", "{level:?}");
            }
            other => panic!("{level:?}: {other:?}"),
        }
    }
}

#[test]
fn alt_mode_value_keeps_low_byte() {
    let mut c = config_example(SwitchMethod::LgAltMode, AltModeBackend::Amd);
    c.input_value = 0x1d1;
    assert_eq!(c.alt_mode_input_value(), 0xd1);
}

#[test]
fn adl_frame_for_displayport() {
    let w = adl::set_vcp_alt_mode(0xf4, 0xd0, 5, 0);
    assert_eq!(w.adapter_index, 5);
    assert_eq!(w.display_index, 0);
    assert_eq!(w.frame, LG_DP_FRAME);
    assert_eq!(xor_checksum(0, &w.frame), 0);
}

#[test]
fn nvapi_payload_matches_adl_frame() {
    let p = nvapi::alt_mode_payload(0xf4, 0x90);
    let w = adl::set_vcp_alt_mode(0xf4, 0x90, 0, 0);
    assert_eq!(&p[..], &w.frame[1..]);
    assert_eq!(xor_checksum(0x6e, &p), 0);
}

#[test]
fn nvapi_targets_cover_every_mask_and_port() {
    let w = nvapi::set_vcp_alt_mode(0xf4, 0xd0);
    assert_eq!(w.device_address, 0x37);
    assert_eq!(&w.payload[..], &LG_DP_FRAME[1..]);
    assert_eq!(w.targets.len(), 64);
    assert_eq!(w.targets[0], NvI2cTarget { display_mask: 1, port: None });
    assert_eq!(w.targets[1], NvI2cTarget { display_mask: 1, port: Some(1) });
    assert_eq!(w.targets[8], NvI2cTarget { display_mask: 2, port: None });
    assert_eq!(w.targets[63], NvI2cTarget { display_mask: 128, port: Some(7) });
}

#[test]
fn nvapi_outcome() {
    assert_eq!(nvapi::write_outcome(&[false, true, false]), Ok(()));
    assert_eq!(
        nvapi::write_outcome(&[false; 64]),
        Err("NvAPI I2C write did not succeed on any display mask/port".to_string())
    );
    assert!(nvapi::write_outcome(&[]).is_err());
}

#[test]
fn linux_write_matches_other_backends() {
    let w = linux_i2c::set_vcp_alt_mode(0xf4, 0xd0);
    assert_eq!(w.address, 0x37);
    assert_eq!(&w.data[..], &LG_DP_FRAME[1..]);
}

#[test]
fn skip_write_only_when_already_set() {
    assert_eq!(set_vcp_if_needed(0x60, 0x0f, Some(0x0f)), VcpStep::AlreadySet);
    assert_eq!(set_vcp_if_needed(0x60, 0x0f, Some(0x11)), VcpStep::Write { feature: 0x60, value: 0x0f });
    assert_eq!(set_vcp_if_needed(0x60, 0x0f, None), VcpStep::Write { feature: 0x60, value: 0x0f });
}

#[test]
fn switch_dispatch() {
    let c = config_example(SwitchMethod::Standard, AltModeBackend::Amd);
    assert!(matches!(
        switch_to_my_input(&c, Platform::Other),
        Ok(SwitchAction::SetVcpIfNeeded { feature: 0xf4, value: 0xd0 })
    ));

    let c = config_example(SwitchMethod::LgAltMode, AltModeBackend::Amd);
    match switch_to_my_input(&c, Platform::Windows) {
        Ok(SwitchAction::AdlAltMode(w)) => {
            assert_eq!((w.adapter_index, w.display_index, w.frame), (5, 0, LG_DP_FRAME))
        }
        other => panic!("{other:?}"),
    }
    match switch_to_my_input(&c, Platform::Linux) {
        Ok(SwitchAction::LinuxAltMode(w)) => assert_eq!(&w.data[..], &LG_DP_FRAME[1..]),
        other => panic!("{other:?}"),
    }
    match switch_lg_alt_mode(&c, Platform::Other) {
        Err(m) => assert_eq!(
            m,
            "switch_method = \"lg_alt_mode\" is only implemented for Windows and Linux so far"
        ),
        other => panic!("{other:?}"),
    }

    let c = config_example(SwitchMethod::LgAltMode, AltModeBackend::Nvidia);
    match switch_to_my_input(&c, Platform::Windows) {
        Ok(SwitchAction::NvapiAltMode(w)) => {
            assert_eq!(w.targets.len(), 64);
            assert_eq!(w.device_address, 0x37);
            assert_eq!(&w.payload[..], &LG_DP_FRAME[1..]);
        }
        other => panic!("{other:?}"),
    }
    // The backend choice only matters on Windows.
    assert!(matches!(switch_to_my_input(&c, Platform::Linux), Ok(SwitchAction::LinuxAltMode(_))));
}

#[test]
fn retry_steps() {
    assert_eq!(after_switch_attempt(1, false), RetryStep::RetryAfter { attempt: 1, delay_ms: 500 });
    assert_eq!(after_switch_attempt(2, false), RetryStep::RetryAfter { attempt: 2, delay_ms: 1000 });
    assert_eq!(after_switch_attempt(3, false), RetryStep::GaveUp { attempts: 3 });
    assert_eq!(after_switch_attempt(2, true), RetryStep::Succeeded { attempt: 2 });
}

#[test]
fn retry_run_stops_within_three_attempts() {
    // Drive the policy as the service does, with every attempt failing.
    let mut attempt = 1;
    let mut slept = 0u64;
    let last = loop {
        match after_switch_attempt(attempt, false) {
            RetryStep::RetryAfter { delay_ms, .. } => {
                slept += delay_ms;
                attempt += 1;
            }
            other => break other,
        }
    };
    assert_eq!(last, RetryStep::GaveUp { attempts: 3 });
    assert_eq!(slept, 1500);
}

#[test]
fn command_refusals() {
    assert_eq!(Command::DdcAdlProbe.refusal(Platform::Windows), None);
    assert_eq!(
        Command::DdcAdlProbe.refusal(Platform::Linux),
        Some("ddc-adl-probe is Windows/AMD-only (uses ADL)".to_string())
    );
    assert_eq!(
        Command::DdcLinuxAltSet { feature: 0xf4, value: 0xd0 }.refusal(Platform::Windows),
        Some("ddc-linux-alt-set is Linux-only (uses raw i2c-dev)".to_string())
    );
    assert_eq!(
        Command::DdcNvapiSet { feature: 0xf4, value: 0xd0 }.refusal(Platform::Other),
        Some("ddc-nvapi-set is Windows/NVIDIA-only (uses NvAPI)".to_string())
    );
    assert_eq!(Command::List.refusal(Platform::Other), None);
}

#[test]
fn systemd_unit_text() {
    let binary = "/home/u/.local/share/bad_kvm_switch/bad_kvm_switch";
    let expected = format!(
        "[Unit]\n\
         Description=bad_kvm_switch - automatic DDC/CI monitor switching\n\
         After=graphical-session.target\n\
         \n\
         [Service]\n\
         ExecStart=\"{}\"\n\
         Restart=on-failure\n\
         RestartSec=2\n\
         \n\
         [Install]\n\
         WantedBy=default.target\n",
        binary
    );
    assert_eq!(service::systemd_unit(binary), expected);
    assert_eq!(service::unit_name_text(), "bad_kvm_switch.service");
}

#[test]
fn installed_binary_names() {
    assert_eq!(service::installed_binary_file_name(Platform::Windows), "bad_kvm_switch.exe");
    assert_eq!(service::installed_binary_file_name(Platform::Linux), "bad_kvm_switch");
}

#[test]
fn task_principal_and_xml() {
    assert_eq!(service::task_principal("alice", Some("CORP")), "CORP\\alice");
    assert_eq!(service::task_principal("alice", Some("")), "alice");
    assert_eq!(service::task_principal("alice", None), "alice");
    let xml = service::task_xml("CORP\\alice", "C:\\b\\bad_kvm_switch.exe", "C:\\b");
    assert!(xml.starts_with("<Task xmlns=\"http://schemas.microsoft.com/windows/2004/02/mit/task\">\n"));
    assert_eq!(xml.matches("<UserId>CORP\\alice</UserId>").count(), 2);
    assert!(xml.contains("<Command>C:\\b\\bad_kvm_switch.exe</Command>\n      <WorkingDirectory>C:\\b</WorkingDirectory>"));
    assert!(xml.contains("<Interval>PT1M</Interval>"));
    assert!(xml.contains("<MultipleInstancesPolicy>IgnoreNew</MultipleInstancesPolicy>"));
    assert!(xml.contains("<ExecutionTimeLimit>PT0S</ExecutionTimeLimit>"));
    assert!(xml.ends_with("</Actions>\n</Task>"));
}

#[test]
fn powershell_scripts() {
    assert_eq!(
        service::stop_installed_instance_script(4321, "C:\\b\\bad_kvm_switch.exe"),
        "Get-Process -Name bad_kvm_switch -ErrorAction SilentlyContinue | Where-Object { $_.Id -ne 4321 -and $_.Path -eq 'C:\\b\\bad_kvm_switch.exe' } | Stop-Process -Force"
    );
    assert_eq!(
        service::running_instance_script(7, "C:\\x.exe"),
        "$p = Get-Process -Name bad_kvm_switch -ErrorAction SilentlyContinue | Where-Object { $_.Id -ne 7 -and $_.Path -eq 'C:\\x.exe' }; if ($p) { 'True' } else { 'False' }"
    );
    assert_eq!(
        service::register_task_script("C:\\t\\task.xml"),
        "Register-ScheduledTask -TaskName 'bad_kvm_switch' -Xml (Get-Content -Raw -Path 'C:\\t\\task.xml') -Force | Out-Null"
    );
    assert_eq!(
        service::task_exists_script(),
        "if (Get-ScheduledTask -TaskName 'bad_kvm_switch' -ErrorAction SilentlyContinue) { 'True' } else { 'False' }"
    );
    assert_eq!(service::unregister_task_script(), "Unregister-ScheduledTask -TaskName 'bad_kvm_switch' -Confirm:$false");
    assert_eq!(service::stop_task_script(), "Stop-ScheduledTask -TaskName 'bad_kvm_switch' -ErrorAction SilentlyContinue");
    assert_eq!(service::start_task_script(), "Start-ScheduledTask -TaskName 'bad_kvm_switch'");
    assert!(service::output_says_true("True"));
    assert!(!service::output_says_true("False"));
    assert!(!service::output_says_true("true"));
    assert!(!service::output_says_true(""));
}

#[test]
fn service_refused_on_other_platforms() {
    assert_eq!(
        service::install(Platform::Other),
        Err("service install is only implemented for Linux and Windows so far".to_string())
    );
    assert_eq!(
        service::uninstall(Platform::Other),
        Err("service uninstall is only implemented for Linux and Windows so far".to_string())
    );
    assert_eq!(
        service::status(Platform::Other),
        Err("service status is only implemented for Linux and Windows so far".to_string())
    );
    assert_eq!(service::install(Platform::Linux), Ok(()));
    assert_eq!(service::status(Platform::Windows), Ok(()));
}

#[test]
fn amd_adapter_gate() {
    let amd = AdapterSummary { present: 1, vendor_id: 1002 };
    let absent_amd = AdapterSummary { present: 0, vendor_id: 1002 };
    let other = AdapterSummary { present: 1, vendor_id: 4318 };
    assert_eq!(require_amd_adapter(&[other, amd]), Ok(()));
    assert_eq!(
        require_amd_adapter(&[other, absent_amd]),
        Err("No active AMD GPU detected (2 adapter(s) found, none AMD) -- the LG DDC alt-mode workaround requires an AMD GPU, since it uses AMD's ADL SDK".to_string())
    );
    assert!(require_amd_adapter(&[]).is_err());
}

#[test]
fn adl_display_bits_and_labels() {
    assert!(display_connected(0b01));
    assert!(!display_connected(0b10));
    assert!(display_mapped(0b11));
    assert!(!display_mapped(0b01));
    assert_eq!(display_label("LG ULTRAGEAR", true), "LG ULTRAGEAR (mapped=true)");
    assert_eq!(display_label("", false), " (mapped=false)");
}

#[test]
fn documented_log_levels_are_accepted() {
    for level in ["trace", "debug", "info", "warn", "error"] {
        let mut raw = raw_example();
        raw.log_level = level.to_string();
        let c = Config::validate(raw, true).expect(level);
        assert_eq!(c.log_level, level);
    }
}

#[test]
fn connected_display_list() {
    let entries = vec![
        DisplayEntry { logical_index: 0, info_value: 0b11, name: "LG ULTRAGEAR".to_string() },
        DisplayEntry { logical_index: 1, info_value: 0b10, name: "off".to_string() },
        DisplayEntry { logical_index: 2, info_value: 0b01, name: "Other".to_string() },
    ];
    let listed: Vec<(i32, String)> = connected_displays(0, Some(&entries))
        .into_iter()
        .map(|d| (d.logical_index, d.label))
        .collect();
    assert_eq!(
        listed,
        vec![(0, "LG ULTRAGEAR (mapped=true)".to_string()), (2, "Other (mapped=false)".to_string())]
    );
    assert!(connected_displays(-1, Some(&entries)).is_empty());
    assert!(connected_displays(0, None).is_empty());
}

#[test]
fn probe_lines() {
    assert_eq!(probe_line(5, 0, "LG (mapped=true)"), "adapter=5 display=0 LG (mapped=true)");
    assert_eq!(probe_line(-1, 12, "x"), "adapter=-1 display=12 x");
    assert_eq!(probe_line(i32::MIN, i32::MAX, ""), format!("adapter={} display={} ", i32::MIN, i32::MAX));
    assert_eq!(nvapi::gpu_line(Some("RTX 4090"), Ok(2)), "NVIDIA GPU: RTX 4090 (2 display(s) attached)");
    assert_eq!(
        nvapi::gpu_line(None, Err("NvapiError")),
        "NVIDIA GPU: <unknown> (couldn't read displays: NvapiError)"
    );
}

#[test]
fn watch_state_switches_on_every_connect_of_the_device() {
    let mut state = WatchState::new(0x8968, 0x4e4b);
    assert!(state.connected(10, 0x8968, 0x4e4b));
    assert!(!state.connected(11, 0x046d, 0xc52b));
    assert!(!state.disconnected(11));
    assert!(state.disconnected(10));
    assert!(!state.disconnected(10));
    assert!(state.connected(12, 0x8968, 0x4e4b));
    assert!(state.connected(13, 0x8968, 0x4e4b));
    assert_eq!(state.present, vec![12, 13]);
    assert!(state.disconnected(13));
    assert_eq!(state.present, vec![12]);
}
