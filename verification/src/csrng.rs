//! CSRNG entropy source driver.
//!
//! The block is modelled with a deterministic entropy pool: the words the
//! device would draw from its physical noise source are supplied when the
//! register model is built, so the driver's command protocol - instantiate,
//! generate, deliver over an interrupt - is verified for every pool.

use vstd::prelude::*;

use crate::error::ErrorCode;

verus! {

/// Multi-bit sentinel the control register takes as "enabled".
pub const CSRNG_CTRL_ENABLE: u8 = 0xA;

/// Multi-bit sentinel the control register takes as "disabled".
pub const CSRNG_CTRL_DISABLE: u8 = 0x5;

/// Number of 32-bit words one generate block carries (128 bits).
pub const CSRNG_WORDS_PER_BLOCK: usize = 4;

/// The interrupt state and enable registers, one flag per line.
#[derive(Clone, Copy, Debug, PartialEq, Eq, Structural)]
pub struct CsRngIntr {
    /// A command finished.
    pub cmd_req_done: bool,
    /// The block requests seed entropy.
    pub entropy_req: bool,
    /// A hardware instance raised an exception.
    pub hw_inst_exc: bool,
    /// The block hit a fatal error.
    pub fatal_err: bool,
}

impl CsRngIntr {
    /// The all-clear interrupt value.
    pub open spec fn spec_none() -> CsRngIntr {
        CsRngIntr { cmd_req_done: false, entropy_req: false, hw_inst_exc: false, fatal_err: false }
    }
}

/// The CSRNG block's register file together with the modelled entropy pool.
pub struct CsRngRegisters {
    /// Pending interrupts.
    pub intr_state: CsRngIntr,
    /// Enabled interrupts.
    pub intr_enable: CsRngIntr,
    /// Whether the control registers accept writes.
    pub regwen: bool,
    /// Main enable, in the block's multi-bit encoding.
    pub ctrl_enable: u8,
    /// Software application interface enable.
    pub ctrl_sw_app_enable: u8,
    /// Internal state read enable.
    pub ctrl_read_int_state: u8,
    /// A software command may be issued.
    pub cmd_rdy: bool,
    /// A software instance exists.
    pub instantiated: bool,
    /// Generated words awaiting collection.
    pub genbits: Vec<u32>,
    /// Words the device will draw for future generate commands.
    pub entropy_pool: Vec<u32>,
}

impl CsRngRegisters {
    /// The register file at reset over the given entropy pool.
    pub fn new(pool: Vec<u32>) -> (r: Self)
        ensures
            r.intr_state == CsRngIntr::spec_none(),
            r.intr_enable == CsRngIntr::spec_none(),
            r.regwen,
            !r.instantiated,
            r.genbits@.len() == 0,
            r.entropy_pool == pool,
    {
        CsRngRegisters {
            intr_state: CsRngIntr::spec_none_exec(),
            intr_enable: CsRngIntr::spec_none_exec(),
            regwen: true,
            ctrl_enable: CSRNG_CTRL_DISABLE,
            ctrl_sw_app_enable: CSRNG_CTRL_DISABLE,
            ctrl_read_int_state: CSRNG_CTRL_DISABLE,
            cmd_rdy: false,
            instantiated: false,
            genbits: Vec::new(),
            entropy_pool: pool,
        }
    }

    /// Instantiates the software entropy instance; the block reports ready
    /// at once in this model.
    pub fn cmd_instantiate(&mut self)
        ensures
            *final(self) == (CsRngRegisters {
                instantiated: true,
                cmd_rdy: true,
                ..*old(self)
            }),
    {
        self.instantiated = true;
        self.cmd_rdy = true;
    }

    /// Runs a generate command for `glen` blocks of 128 bits: the block
    /// moves the next words of its entropy pool into the output queue -
    /// as many as the pool still holds - and raises the command-done
    /// interrupt.
    pub fn cmd_generate(&mut self, glen: u32)
        requires
            4 * glen <= u32::MAX,
        ensures
            *final(self) == (CsRngRegisters {
                genbits: final(self).genbits,
                entropy_pool: final(self).entropy_pool,
                intr_state: (CsRngIntr { cmd_req_done: true, ..old(self).intr_state }),
                ..*old(self)
            }),
            final(self).genbits@ == old(self).genbits@ + old(self).entropy_pool@.take(
                spec_generate_count(old(self).entropy_pool@.len() as int, glen as int),
            ),
            final(self).entropy_pool@ == old(self).entropy_pool@.skip(
                spec_generate_count(old(self).entropy_pool@.len() as int, glen as int),
            ),
    {
        let ghost pre = *self;
        let want: usize = (CSRNG_WORDS_PER_BLOCK as u32 * glen) as usize;
        let take: usize = if want <= self.entropy_pool.len() {
            want
        } else {
            self.entropy_pool.len()
        };
        let mut moved: usize = 0;
        while moved < take
            invariant
                moved <= take,
                take == spec_generate_count(pre.entropy_pool@.len() as int, glen as int),
                take <= pre.entropy_pool@.len(),
                *self == (CsRngRegisters {
                    genbits: self.genbits,
                    entropy_pool: self.entropy_pool,
                    ..pre
                }),
                self.genbits@ == pre.genbits@ + pre.entropy_pool@.take(moved as int),
                self.entropy_pool@ == pre.entropy_pool@.skip(moved as int),
            decreases take - moved,
        {
            let w = self.entropy_pool.remove(0);
            self.genbits.push(w);
            moved = moved + 1;
            proof {
                assert(self.genbits@ =~= pre.genbits@ + pre.entropy_pool@.take(moved as int));
                assert(self.entropy_pool@ =~= pre.entropy_pool@.skip(moved as int));
            }
        }
        self.intr_state.cmd_req_done = true;
    }

    /// Tears the software instance down and discards queued output.
    pub fn cmd_uninstantiate(&mut self)
        ensures
            *final(self) == (CsRngRegisters {
                instantiated: false,
                cmd_rdy: false,
                genbits: final(self).genbits,
                ..*old(self)
            }),
            final(self).genbits@.len() == 0,
    {
        self.instantiated = false;
        self.cmd_rdy = false;
        self.genbits = Vec::new();
    }
}

impl CsRngIntr {
    /// The all-clear interrupt value, as a runtime value.
    pub fn spec_none_exec() -> (r: CsRngIntr)
        ensures
            r == CsRngIntr::spec_none(),
    {
        CsRngIntr { cmd_req_done: false, entropy_req: false, hw_inst_exc: false, fatal_err: false }
    }
}

/// How many words a generate command for `glen` blocks yields from a pool
/// of `pool_len` words.
pub open spec fn spec_generate_count(pool_len: int, glen: int) -> int {
    if 4 * glen <= pool_len {
        4 * glen
    } else {
        pool_len
    }
}

/// The CSRNG driver.
pub struct CsRng {
    /// The block's register file and modelled state.
    pub registers: CsRngRegisters,
}

impl CsRng {
    /// A driver over the given register file.
    pub fn new(base: CsRngRegisters) -> (r: CsRng)
        ensures
            r.registers == base,
    {
        CsRng { registers: base }
    }

    /// Enables the interrupts the driver relies on: command done, hardware
    /// exception and fatal error.
    pub fn enable_interrupts(&mut self)
        ensures
            *final(self) == (CsRng {
                registers: (CsRngRegisters {
                    intr_enable: (CsRngIntr {
                        cmd_req_done: true,
                        entropy_req: false,
                        hw_inst_exc: true,
                        fatal_err: true,
                    }),
                    ..old(self).registers
                }),
            }),
    {
        self.registers.intr_enable = CsRngIntr {
            cmd_req_done: true,
            entropy_req: false,
            hw_inst_exc: true,
            fatal_err: true,
        };
    }

    /// Disables and acknowledges all interrupts.
    pub fn disable_interrupts(&mut self)
        ensures
            *final(self) == (CsRng {
                registers: (CsRngRegisters {
                    intr_state: CsRngIntr::spec_none(),
                    intr_enable: CsRngIntr::spec_none(),
                    ..old(self).registers
                }),
            }),
    {
        self.registers.intr_state = CsRngIntr::spec_none_exec();
        self.registers.intr_enable = CsRngIntr::spec_none_exec();
    }

    /// Requests 256 bits of entropy: enables the block, instantiates the
    /// software instance, arms the interrupts and issues a generate
    /// command for two 128-bit blocks. The words arrive through
    /// [`Self::handle_interrupt`]. `FAIL` when the control registers are
    /// locked; nothing but the interrupt registers changes then.
    pub fn get(&mut self) -> (r: Result<(), ErrorCode>)
        ensures
            !old(self).registers.regwen ==> r == Err::<(), ErrorCode>(ErrorCode::FAIL) && *final(self) == (CsRng {
                registers: (CsRngRegisters {
                    intr_state: CsRngIntr::spec_none(),
                    intr_enable: CsRngIntr::spec_none(),
                    ..old(self).registers
                }),
            }),
            old(self).registers.regwen ==> {
                &&& r is Ok
                &&& final(self).registers.ctrl_enable == CSRNG_CTRL_ENABLE
                &&& final(self).registers.ctrl_sw_app_enable == CSRNG_CTRL_ENABLE
                &&& final(self).registers.ctrl_read_int_state == CSRNG_CTRL_ENABLE
                &&& final(self).registers.instantiated
                &&& final(self).registers.intr_enable == (CsRngIntr {
                    cmd_req_done: true,
                    entropy_req: false,
                    hw_inst_exc: true,
                    fatal_err: true,
                })
                &&& final(self).registers.intr_state.cmd_req_done
                &&& final(self).registers.genbits@ == old(self).registers.genbits@ + old(self).registers.entropy_pool@.take(
                    spec_generate_count(old(self).registers.entropy_pool@.len() as int, 2),
                )
                &&& final(self).registers.entropy_pool@ == old(self).registers.entropy_pool@.skip(
                    spec_generate_count(old(self).registers.entropy_pool@.len() as int, 2),
                )
            },
    {
        self.disable_interrupts();
        if !self.registers.regwen {
            // The control registers are read only.
            return Err(ErrorCode::FAIL);
        }
        self.registers.ctrl_enable = CSRNG_CTRL_ENABLE;
        self.registers.ctrl_sw_app_enable = CSRNG_CTRL_ENABLE;
        self.registers.ctrl_read_int_state = CSRNG_CTRL_ENABLE;
        self.registers.cmd_instantiate();
        self.disable_interrupts();
        self.enable_interrupts();
        // Ask for 256 bits of entropy: two 128-bit generate blocks.
        self.registers.cmd_generate(2);
        Ok(())
    }

    /// Services the block's interrupts. A hardware exception or fatal
    /// error reports `FAIL`; a finished generate command delivers every
    /// queued word. All interrupts are acknowledged either way.
    pub fn handle_interrupt(&mut self) -> (ev: Option<Result<Vec<u32>, ErrorCode>>)
        ensures
            final(self).registers.intr_state == CsRngIntr::spec_none(),
            final(self).registers.intr_enable == CsRngIntr::spec_none(),
            old(self).registers.intr_state.hw_inst_exc || old(self).registers.intr_state.fatal_err
                ==> ev == Some(Err::<Vec<u32>, ErrorCode>(ErrorCode::FAIL)) && final(self).registers.genbits == old(self).registers.genbits,
            !(old(self).registers.intr_state.hw_inst_exc
                || old(self).registers.intr_state.fatal_err)
                && old(self).registers.intr_state.cmd_req_done ==> {
                &&& ev matches Some(w) && w matches Ok(words) && words@
                    == old(self).registers.genbits@
                &&& final(self).registers.genbits@.len() == 0
            },
            !(old(self).registers.intr_state.hw_inst_exc || old(self).registers.intr_state.fatal_err || old(self).registers.intr_state.cmd_req_done)
                ==> ev is None && final(self).registers.genbits == old(self).registers.genbits,
    {
        let irqs = self.registers.intr_state;
        self.disable_interrupts();
        if irqs.hw_inst_exc {
            return Some(Err(ErrorCode::FAIL));
        }
        if irqs.fatal_err {
            return Some(Err(ErrorCode::FAIL));
        }
        if irqs.cmd_req_done {
            let mut out: Vec<u32> = Vec::new();
            core::mem::swap(&mut out, &mut self.registers.genbits);
            return Some(Ok(out));
        }
        None
    }

    /// Cancels entropy generation: tears the software instance down and
    /// silences the block.
    pub fn cancel(&mut self) -> (r: Result<(), ErrorCode>)
        ensures
            r is Ok,
            final(self).registers.intr_state == CsRngIntr::spec_none(),
            final(self).registers.intr_enable == CsRngIntr::spec_none(),
            !final(self).registers.instantiated,
            final(self).registers.genbits@.len() == 0,
    {
        self.disable_interrupts();
        self.registers.cmd_uninstantiate();
        Ok(())
    }
}

} // verus!
