//! Decision and framing logic for switching a monitor's input over DDC/CI
//! when a shared USB peripheral arrives on this machine.

pub mod adl;
pub mod cli;
pub mod config;
pub mod ddc_control;
pub mod ddc_frame;
pub mod linux_i2c;
pub mod nvapi;
pub mod radix;
pub mod service;
pub mod switching;
pub mod usb_watch;

use vstd::prelude::*;

verus! {

/// The operating system the program runs on; it picks the raw-I2C path
/// for the alt-mode side channel and the service mechanism.
#[derive(Debug, Clone, Copy, PartialEq, Eq, Structural)]
pub enum Platform {
    Linux,
    Windows,
    Other,
}

} // verus!
