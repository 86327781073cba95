//! Chip-specific configuration.
//!
//! Configuration values for different deployments of the same chip: an FPGA
//! build and a verilog-simulator build need different clock and baud-rate
//! parameters.

use vstd::prelude::*;

verus! {

/// Chip configuration for one target device.
pub struct Config<'a> {
    /// Identifier of the platform, useful when checking which
    /// configuration a build carries.
    pub name: &'a str,
    /// The clock speed of the CPU in Hz.
    pub cpu_freq: u32,
    /// The clock speed of the peripherals in Hz.
    pub peripheral_freq: u32,
    /// The clock of the always-on timer in Hz.
    pub aon_timer_freq: u32,
    /// The UART baud rate.
    pub uart_baudrate: u32,
}

impl Config<'_> {
    /// Configuration for the chip on the CW310 FPGA board.
    pub fn fpga_cw310() -> (c: Config<'static>)
        ensures
            c.cpu_freq == 10_000_000,
            c.peripheral_freq == 2_500_000,
            c.aon_timer_freq == 250_000,
            c.uart_baudrate == 115200,
    {
        Config {
            name: "fpga_cw310",
            cpu_freq: 10_000_000,
            peripheral_freq: 2_500_000,
            aon_timer_freq: 250_000,
            uart_baudrate: 115200,
        }
    }

    /// Configuration for the chip in a verilog simulator.
    pub fn sim_verilator() -> (c: Config<'static>)
        ensures
            c.cpu_freq == 500_000,
            c.peripheral_freq == 125_000,
            c.aon_timer_freq == 125_000,
            c.uart_baudrate == 7200,
    {
        Config {
            name: "sim_verilator",
            cpu_freq: 500_000,
            peripheral_freq: 125_000,
            aon_timer_freq: 125_000,
            uart_baudrate: 7200,
        }
    }
}

} // verus!
