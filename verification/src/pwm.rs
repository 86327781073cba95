//! PWM controller driver.
//!
//! The block's registers are modelled as plain data, as for the flash
//! controller: the driver computes a clock divider for a requested PWM
//! frequency and programs per-channel phase, duty-cycle and enable
//! registers.

use vstd::prelude::*;

use crate::error::ErrorCode;

verus! {

/// Number of PWM channels the block offers.
pub const PWM_MAX_CHANS: usize = 6;

/// Largest representable clock divider: the field is 27 bits wide.
pub const PWM_CLK_DIV_MAX: u32 = 134217727;

/// The peripheral clock feeding the block, in Hz.
pub const PWM_IN_CLK_HZ: u32 = 2_500_000;

/// The configuration register.
#[derive(Clone, Copy, Debug, PartialEq, Eq, Structural)]
pub struct PwmCfg {
    /// Clock divider for the phase counter.
    pub clk_div: u32,
    /// Duty-cycle resolution exponent.
    pub dc_resn: u8,
    /// The phase counter is running.
    pub cntr_en: bool,
}

/// One channel's parameter register.
#[derive(Clone, Copy, Debug, PartialEq, Eq, Structural)]
pub struct PwmParam {
    /// Phase delay of the channel.
    pub phase_delay: u16,
    /// Heartbeat mode enabled.
    pub htbt_en: bool,
    /// Blink mode enabled.
    pub blink_en: bool,
}

/// One channel's duty-cycle register.
#[derive(Clone, Copy, Debug, PartialEq, Eq, Structural)]
pub struct DutyCycle {
    /// Duty cycle of the first blink phase.
    pub a: u16,
    /// Duty cycle of the second blink phase.
    pub b: u16,
}

/// The PWM block's register file.
pub struct PWMRegisters {
    /// Configuration lock: when set, the configuration is read only.
    pub regwen: bool,
    /// The configuration register.
    pub cfg: PwmCfg,
    /// Per-channel output enables.
    pub pwm_en: Vec<bool>,
    /// Per-channel parameters.
    pub pwm_param: Vec<PwmParam>,
    /// Per-channel duty cycles.
    pub duty_cycle: Vec<DutyCycle>,
}

impl PWMRegisters {
    /// Register arrays hold one entry per channel.
    pub open spec fn inv(&self) -> bool {
        &&& self.pwm_en@.len() == PWM_MAX_CHANS
        &&& self.pwm_param@.len() == PWM_MAX_CHANS
        &&& self.duty_cycle@.len() == PWM_MAX_CHANS
    }

    /// The register file in its reset state: unlocked, counter stopped,
    /// every channel disabled.
    pub fn new() -> (r: Self)
        ensures
            r.inv(),
            !r.regwen,
            r.cfg == (PwmCfg { clk_div: 0, dc_resn: 0, cntr_en: false }),
            forall|c: int| 0 <= c < PWM_MAX_CHANS ==> !(#[trigger] r.pwm_en@[c]),
    {
        PWMRegisters {
            regwen: false,
            cfg: PwmCfg { clk_div: 0, dc_resn: 0, cntr_en: false },
            pwm_en: vec![false; PWM_MAX_CHANS],
            pwm_param: vec![PwmParam { phase_delay: 0, htbt_en: false, blink_en: false }; PWM_MAX_CHANS],
            duty_cycle: vec![DutyCycle { a: 0, b: 0 }; PWM_MAX_CHANS],
        }
    }
}

/// The PWM controller.
pub struct PWMCtrl {
    /// The block's register file.
    pub registers: PWMRegisters,
}

impl PWMCtrl {
    /// Well-formedness of the controller.
    pub open spec fn inv(&self) -> bool {
        self.registers.inv()
    }

    /// A controller over the given register file.
    pub fn new(base: PWMRegisters) -> (r: PWMCtrl)
        requires
            base.inv(),
        ensures
            r.inv(),
            r.registers == base,
    {
        PWMCtrl { registers: base }
    }

    /// The divider denominator for a requested frequency: the duty-cycle
    /// resolution steps per period times the frequency.
    pub open spec fn spec_pwm_denom(fpwm: u32, dc_resn_bits: u32) -> int {
        (2u64 << dc_resn_bits as u64) * fpwm
    }

    /// The clock divider that realises `fpwm` from `in_clk`.
    pub open spec fn spec_clk_div(in_clk: u32, fpwm: u32, dc_resn_bits: u32) -> int {
        in_clk as int / Self::spec_pwm_denom(fpwm, dc_resn_bits) - 1
    }

    /// The divider computation succeeds: the arguments are sensible and the
    /// divider both exists and fits its register field.
    pub open spec fn spec_calc_ok(in_clk: u32, fpwm: u32, dc_resn_bits: u32) -> bool {
        &&& dc_resn_bits <= 16
        &&& 0 < fpwm < in_clk
        &&& 0 <= Self::spec_clk_div(in_clk, fpwm, dc_resn_bits) <= PWM_CLK_DIV_MAX
    }

    /// Computes the clock divider for the suggested PWM clock `fpwm` from
    /// the peripheral clock `in_clk`, with `dc_resn_bits` bits of
    /// duty-cycle resolution. `INVAL` when no representable divider exists.
    pub fn calc_clk_div(&self, in_clk: u32, fpwm: u32, dc_resn_bits: u32) -> (r: Result<
        u32,
        ErrorCode,
    >)
        ensures
            !Self::spec_calc_ok(in_clk, fpwm, dc_resn_bits) ==> r == Err::<u32, ErrorCode>(
                ErrorCode::INVAL,
            ),
            Self::spec_calc_ok(in_clk, fpwm, dc_resn_bits) ==> (r matches Ok(v) && v
                == Self::spec_clk_div(in_clk, fpwm, dc_resn_bits)),
    {
        if dc_resn_bits > 16 || fpwm >= in_clk || fpwm == 0 {
            return Err(ErrorCode::INVAL);
        }
        let sh: u64 = 2u64 << (dc_resn_bits as u64);
        assert(2u64 <= (2u64 << (dc_resn_bits as u64)) <= 131072u64) by (bit_vector)
            requires
                dc_resn_bits as u64 <= 16u64,
        ;
        assert(2 <= sh * (fpwm as u64) <= 131072u64 * 0xFFFF_FFFFu64) by (nonlinear_arith)
            requires
                2 <= sh <= 131072u64,
                1 <= fpwm <= 0xFFFF_FFFFu32,
        ;
        let denom: u64 = sh * (fpwm as u64);
        let q: u64 = (in_clk as u64) / denom;
        if q == 0 {
            // The peripheral clock is too slow for this resolution.
            return Err(ErrorCode::INVAL);
        }
        let clk_div: u64 = q - 1;
        if clk_div > PWM_CLK_DIV_MAX as u64 {
            return Err(ErrorCode::INVAL);
        }
        Ok(clk_div as u32)
    }

    /// Configures the phase counter for the suggested PWM clock, with the
    /// default duty-cycle resolution. A zero `fpwm` stops every channel
    /// instead. `NOSUPPORT` when the configuration is locked, `INVAL` when
    /// no representable divider exists - the phase counter is then left
    /// stopped.
    pub fn pwm_setup(&mut self, fpwm: u32, duty_cycle: usize) -> (r: Result<(), ErrorCode>)
        requires
            old(self).inv(),
        ensures
            final(self).inv(),
            old(self).registers.regwen ==> r == Err::<(), ErrorCode>(ErrorCode::NOSUPPORT)
                && *final(self) == *old(self),
            !old(self).registers.regwen && fpwm == 0 ==> r is Ok && final(self).registers
                == (PWMRegisters {
                pwm_en: final(self).registers.pwm_en,
                ..old(self).registers
            }) && forall|c: int| 0 <= c < PWM_MAX_CHANS ==> !(#[trigger] final(self).registers.pwm_en@[c]),
            !old(self).registers.regwen && fpwm != 0 && Self::spec_calc_ok(PWM_IN_CLK_HZ, fpwm, 8)
                ==> r is Ok && final(self).registers == (PWMRegisters {
                cfg: (PwmCfg {
                    clk_div: Self::spec_clk_div(PWM_IN_CLK_HZ, fpwm, 8) as u32,
                    dc_resn: 7,
                    cntr_en: true,
                }),
                ..old(self).registers
            }),
            !old(self).registers.regwen && fpwm != 0 && !Self::spec_calc_ok(PWM_IN_CLK_HZ, fpwm, 8)
                ==> r == Err::<(), ErrorCode>(ErrorCode::INVAL) && final(self).registers
                == (PWMRegisters {
                cfg: (PwmCfg { cntr_en: false, ..old(self).registers.cfg }),
                ..old(self).registers
            }),
    {
        if self.registers.regwen {
            // Configuration locked.
            return Err(ErrorCode::NOSUPPORT);
        }
        if fpwm == 0 {
            let mut i: usize = 0;
            while i < PWM_MAX_CHANS
                invariant
                    self.registers.inv(),
                    i <= PWM_MAX_CHANS,
                    *self == (PWMCtrl {
                        registers: (PWMRegisters {
                            pwm_en: self.registers.pwm_en,
                            ..old(self).registers
                        }),
                    }),
                    forall|c: int| 0 <= c < i ==> !(#[trigger] self.registers.pwm_en@[c]),
                    forall|c: int|
                        i <= c < PWM_MAX_CHANS ==> self.registers.pwm_en@[c]
                            == old(self).registers.pwm_en@[c],
                decreases PWM_MAX_CHANS - i,
            {
                self.registers.pwm_en[i] = false;
                i = i + 1;
            }
            return Ok(());
        }
        let in_clk: u32 = PWM_IN_CLK_HZ;
        // Disable and reset the phase counter while reconfiguring.
        self.registers.cfg = PwmCfg { cntr_en: false, ..self.registers.cfg };
        // Solve for the divider at the default resolution (eight bits).
        match self.calc_clk_div(in_clk, fpwm, 7 + 1) {
            Ok(clk_div) => {
                self.registers.cfg = PwmCfg { clk_div, dc_resn: 7, cntr_en: false };
                // Start the phase counter.
                self.registers.cfg = PwmCfg { cntr_en: true, ..self.registers.cfg };
                Ok(())
            },
            Err(_) => {
                // No achievable configuration.
                Err(ErrorCode::INVAL)
            },
        }
    }

    /// Starts one channel with the given duty cycle: phase delay zero,
    /// blink and heartbeat off. `INVAL` for a channel the block does not
    /// have.
    pub fn pwm_chan_start(&mut self, channel: usize, duty_cycle: u32) -> (r: Result<(), ErrorCode>)
        requires
            old(self).inv(),
        ensures
            final(self).inv(),
            channel >= PWM_MAX_CHANS ==> r == Err::<(), ErrorCode>(ErrorCode::INVAL) && *final(self)
                == *old(self),
            channel < PWM_MAX_CHANS ==> r is Ok && final(self).registers == (PWMRegisters {
                pwm_en: final(self).registers.pwm_en,
                pwm_param: final(self).registers.pwm_param,
                duty_cycle: final(self).registers.duty_cycle,
                ..old(self).registers
            }) && final(self).registers.pwm_en@ == old(self).registers.pwm_en@.update(
                channel as int,
                true,
            ) && final(self).registers.pwm_param@ == old(self).registers.pwm_param@.update(
                channel as int,
                (PwmParam { phase_delay: 0, htbt_en: false, blink_en: false }),
            ) && final(self).registers.duty_cycle@ == old(self).registers.duty_cycle@.update(
                channel as int,
                (DutyCycle { a: (duty_cycle & 0xFFFF) as u16, b: (duty_cycle & 0xFFFF) as u16 }),
            ),
    {
        if channel >= PWM_MAX_CHANS {
            return Err(ErrorCode::INVAL);
        }
        self.registers.pwm_param[channel] = PwmParam {
            phase_delay: 0,
            htbt_en: false,
            blink_en: false,
        };
        let dc = (duty_cycle & 0xFFFF) as u16;
        assert(duty_cycle & 0xFFFF <= 0xFFFF) by (bit_vector);
        self.registers.duty_cycle[channel] = DutyCycle { a: dc, b: dc };
        self.registers.pwm_en[channel] = true;
        Ok(())
    }

    /// Stops one channel. `INVAL` for a channel the block does not have.
    pub fn pwm_chan_stop(&mut self, channel: usize) -> (r: Result<(), ErrorCode>)
        requires
            old(self).inv(),
        ensures
            final(self).inv(),
            channel >= PWM_MAX_CHANS ==> r == Err::<(), ErrorCode>(ErrorCode::INVAL) && *final(self)
                == *old(self),
            channel < PWM_MAX_CHANS ==> r is Ok && final(self).registers == (PWMRegisters {
                pwm_en: final(self).registers.pwm_en,
                ..old(self).registers
            }) && final(self).registers.pwm_en@ == old(self).registers.pwm_en@.update(
                channel as int,
                false,
            ),
    {
        if channel >= PWM_MAX_CHANS {
            return Err(ErrorCode::INVAL);
        }
        self.registers.pwm_en[channel] = false;
        Ok(())
    }

    /// Starts PWM output on `channel` at the requested frequency and duty
    /// cycle: configures the phase counter, then enables the channel.
    pub fn start(&mut self, channel: &usize, frequency_hz: usize, duty_cycle: usize) -> (r: Result<
        (),
        ErrorCode,
    >)
        requires
            old(self).inv(),
            frequency_hz <= u32::MAX,
            duty_cycle <= u32::MAX,
        ensures
            final(self).inv(),
            old(self).registers.regwen ==> r == Err::<(), ErrorCode>(ErrorCode::NOSUPPORT),
            r is Ok ==> *channel < PWM_MAX_CHANS && final(self).registers.pwm_en@[*channel as int],
    {
        self.pwm_setup(frequency_hz as u32, duty_cycle)?;
        self.pwm_chan_start(*channel, duty_cycle as u32)?;
        Ok(())
    }

    /// Stops PWM output on `channel`.
    pub fn stop(&mut self, channel: &usize) -> (r: Result<(), ErrorCode>)
        requires
            old(self).inv(),
        ensures
            final(self).inv(),
            r is Ok ==> *channel < PWM_MAX_CHANS && !final(self).registers.pwm_en@[*channel as int],
            *channel >= PWM_MAX_CHANS ==> r == Err::<(), ErrorCode>(ErrorCode::INVAL),
    {
        self.pwm_chan_stop(*channel)?;
        Ok(())
    }
}

} // verus!
