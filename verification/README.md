# bad_kvm_switch

Switches a monitor's input over DDC/CI when a shared USB keyboard/mouse
arrives on this PC. The library (`src/`) holds the decisions and byte
formats, proved with Verus; `app/` is the program around it (USB hotplug,
DDC/I2C/ADL/NvAPI calls, files, logging, the service manager).

- `radix` — radix-16 parsing with `from_str_radix` semantics; hex/decimal rendering.
- `cli` — subcommands, their per-platform refusals, hex argument parsers.
- `config` — the config file's shape and its validation.
- `ddc_frame`, `adl`, `nvapi`, `linux_i2c` — the LG alt-mode frame for each backend.
- `ddc_control` — whether a standard VCP write is needed.
- `switching` — which command to send, and the retry policy.
- `usb_watch` — the device list line and `vvvv:pppp` ids.
- `service` — systemd unit, Task Scheduler XML and PowerShell scripts.
