//! Temperature sensor block driver.
//!
//! A thin driver over the SAR ADC's temperature-sensor control registers,
//! modelled as plain data like the other blocks.

use vstd::prelude::*;

use crate::error::ErrorCode;

verus! {

/// Control value that powers the temperature sensor up and starts a
/// conversion.
pub const TSENS_POWER_UP: u32 = 0x200000;

/// The SAR ADC register file, reduced to the registers this driver touches.
#[derive(Clone, Copy, Debug, PartialEq, Eq, Structural)]
pub struct APBRegisters {
    /// First temperature-sensor control register.
    pub saradc_apb_tsens_ctrl1: u32,
    /// Second temperature-sensor control register.
    pub saradc_apb_tsens_ctrl2: u32,
    /// Calibration register.
    pub saradc_cali: u32,
}

impl APBRegisters {
    /// The register file in its reset state.
    pub fn new() -> (r: Self)
        ensures
            r == (APBRegisters { saradc_apb_tsens_ctrl1: 0, saradc_apb_tsens_ctrl2: 0, saradc_cali: 0 }),
    {
        APBRegisters { saradc_apb_tsens_ctrl1: 0, saradc_apb_tsens_ctrl2: 0, saradc_cali: 0 }
    }
}

/// The temperature sensor driver.
#[allow(non_camel_case_types)]
pub struct tsens_ctl {
    /// The block's register file.
    pub registers: APBRegisters,
}

impl tsens_ctl {
    /// A driver over the given register file.
    pub fn new(base: APBRegisters) -> (r: tsens_ctl)
        ensures
            r.registers == base,
    {
        tsens_ctl { registers: base }
    }

    /// Starts a temperature conversion by powering the sensor up.
    pub fn read_temperature(&mut self) -> (r: Result<(), ErrorCode>)
        ensures
            r is Ok,
            *final(self) == (tsens_ctl {
                registers: (APBRegisters {
                    saradc_apb_tsens_ctrl1: TSENS_POWER_UP,
                    ..old(self).registers
                }),
            }),
    {
        self.registers.saradc_apb_tsens_ctrl1 = TSENS_POWER_UP;
        Ok(())
    }
}

} // verus!
