//! Flash page controller driver.
//!
//! The controller drives one page operation at a time over the modelled
//! register block of [`crate::flash_regs`]: a request programs the command
//! registers and returns at once, the hardware raises interrupts as it makes
//! progress, and [`FlashCtrl::handle_interrupt`] pumps the FIFOs and hands
//! back a completion event exactly once per accepted operation. Region-based
//! memory protection is configured, queried and locked through the same
//! driver, and a protection violation completes the victim operation with
//! its own error kind.

use vstd::prelude::*;

use crate::error::ErrorCode;
use crate::flash_regs::ControlReg;
use crate::flash_regs::DefaultRegionCfg;
use crate::flash_regs::EraseSel;
use crate::flash_regs::FifoLvl;
use crate::flash_regs::FlashCtrlRegisters;
use crate::flash_regs::FlashOp;
use crate::flash_regs::InfoPageCfg;
use crate::flash_regs::IntrBits;
use crate::flash_regs::MpBankCfg;
use crate::flash_regs::MpRegionBounds;
use crate::flash_regs::MpRegionCfg;
use crate::flash_regs::OpStatus;
use crate::flash_regs::erased_mem;
use crate::flash_regs::mem_word;
use crate::flash_regs::mubi_of_bool;
use crate::hil::Error;
pub use crate::flash_regs::FLASH_INFO_PAGES_PER_BANK;
pub use crate::flash_regs::FLASH_MAX_PAGES;
pub use crate::flash_regs::FLASH_MEM_BYTES;
pub use crate::flash_regs::FLASH_MP_MAX_CFGS;
pub use crate::flash_regs::FLASH_NUM_BANKS;
pub use crate::flash_regs::FLASH_PAGES_PER_BANK;
pub use crate::flash_regs::FLASH_PROG_WINDOW_MASK;
pub use crate::flash_regs::FLASH_PROG_WINDOW_SIZE;
pub use crate::flash_regs::FLASH_WORD_SIZE;
pub use crate::flash_regs::MUBI_CLEAR;
pub use crate::flash_regs::MUBI_SET;
pub use crate::flash_regs::PAGE_SIZE;
pub use crate::flash_regs::RD_FIFO_DEPTH;

verus! {

/// One page-sized flash buffer with byte-indexed access.
///
/// Ownership of a page moves with the operation: the caller hands it to the
/// controller with a request and receives it back in the completion event.
#[derive(Debug)]
pub struct LowRiscPage(pub Vec<u8>);

impl View for LowRiscPage {
    type V = Seq<u8>;

    open spec fn view(&self) -> Seq<u8> {
        self.0@
    }
}

impl LowRiscPage {
    /// A page buffer holds exactly one page of bytes.
    pub open spec fn wf(&self) -> bool {
        self@.len() == PAGE_SIZE
    }

    /// A zero-filled page buffer.
    pub fn new() -> (p: Self)
        ensures
            p.wf(),
            forall|i: int| 0 <= i < PAGE_SIZE ==> p@[i] == 0u8,
    {
        LowRiscPage(vec![0u8; PAGE_SIZE])
    }

    /// Number of bytes in the page.
    pub fn len(&self) -> (n: usize)
        ensures
            n == self@.len(),
    {
        self.0.len()
    }

    /// The byte at offset `idx`.
    pub fn read_byte(&self, idx: usize) -> (b: u8)
        requires
            idx < self@.len(),
        ensures
            b == self@[idx as int],
    {
        self.0[idx]
    }

    /// Stores `v` at offset `idx`.
    pub fn write_byte(&mut self, idx: usize, v: u8)
        requires
            idx < old(self)@.len(),
        ensures
            final(self)@ == old(self)@.update(idx as int, v),
    {
        self.0[idx] = v;
    }
}

impl Default for LowRiscPage {
    /// The default page buffer is zero filled.
    fn default() -> (p: Self)
        ensures
            p.wf(),
            forall|i: int| 0 <= i < PAGE_SIZE ==> p@[i] == 0u8,
    {
        LowRiscPage::new()
    }
}

/// The two flash banks.
#[allow(non_camel_case_types)]
#[derive(Clone, Copy, Debug, PartialEq, Eq, Structural)]
enum FlashBank {
    /// First bank: pages `0..FLASH_PAGES_PER_BANK`.
    BANK0,
    /// Second bank: the remaining pages.
    BANK1,
}

/// The eight memory-protection configuration regions.
#[allow(non_camel_case_types)]
#[derive(Clone, Copy, Debug, PartialEq, Eq, Structural)]
pub enum FlashRegion {
    /// Region 0.
    REGION0,
    /// Region 1.
    REGION1,
    /// Region 2.
    REGION2,
    /// Region 3.
    REGION3,
    /// Region 4.
    REGION4,
    /// Region 5.
    REGION5,
    /// Region 6.
    REGION6,
    /// Region 7.
    REGION7,
}

impl FlashRegion {
    /// The region's index into the configuration register arrays.
    pub open spec fn spec_index(self) -> int {
        match self {
            FlashRegion::REGION0 => 0,
            FlashRegion::REGION1 => 1,
            FlashRegion::REGION2 => 2,
            FlashRegion::REGION3 => 3,
            FlashRegion::REGION4 => 4,
            FlashRegion::REGION5 => 5,
            FlashRegion::REGION6 => 6,
            FlashRegion::REGION7 => 7,
        }
    }

    /// The region's index into the configuration register arrays.
    pub fn region_index(self) -> (i: usize)
        ensures
            i == self.spec_index(),
            i < FLASH_MP_MAX_CFGS,
    {
        match self {
            FlashRegion::REGION0 => 0,
            FlashRegion::REGION1 => 1,
            FlashRegion::REGION2 => 2,
            FlashRegion::REGION3 => 3,
            FlashRegion::REGION4 => 4,
            FlashRegion::REGION5 => 5,
            FlashRegion::REGION6 => 6,
            FlashRegion::REGION7 => 7,
        }
    }
}

/// The controller's operation state: at most one operation is in flight.
#[derive(Clone, Copy, Debug, PartialEq, Eq, Structural)]
pub enum OperationState {
    /// No operation in flight; requests are accepted.
    Idle,
    /// A page read is in flight.
    Reading,
    /// A page write is in flight.
    Writing,
    /// A page erase is in flight.
    Erasing,
}

/// A completion the interrupt handler delivers, exactly once per accepted
/// operation. A buffer handed in with the request comes back inside the
/// event.
#[derive(Debug)]
pub enum FlashEvent {
    /// The read finished with the given outcome; the buffer returns.
    ReadComplete(LowRiscPage, Error),
    /// The write finished with the given outcome; the buffer returns.
    WriteComplete(LowRiscPage, Error),
    /// The erase finished with the given outcome.
    EraseComplete(Error),
}

/// The flash page controller.
///
/// The fields are exposed for specification; drive the controller through
/// its methods only.
pub struct FlashCtrl {
    /// The controller's register block and the hardware state behind it.
    pub registers: FlashCtrlRegisters,
    /// The data partition's default permissions have been applied.
    pub data_configured: bool,
    /// The info partition's page configuration has been applied.
    pub info_configured: bool,
    /// Buffer of the read in flight.
    pub read_buf: Option<LowRiscPage>,
    /// Byte offset into the read buffer already filled.
    pub read_index: usize,
    /// Buffer of the write in flight.
    pub write_buf: Option<LowRiscPage>,
    /// Byte offset into the write buffer already pushed to the hardware.
    pub write_index: usize,
    /// Word address the next program run starts at.
    pub write_word_addr: usize,
    /// The region the lazy partition setup configures.
    pub region_num: FlashRegion,
    /// Which operation is in flight.
    pub op_state: OperationState,
    /// Page number of the operation in flight.
    pub op_page: Ghost<int>,
}

impl FlashCtrl {
    /// The page in flight is a real page number.
    pub open spec fn op_page_ok(&self) -> bool {
        0 <= self.op_page@ < FLASH_MAX_PAGES
    }

    /// First byte address of the page in flight.
    pub open spec fn op_base(&self) -> int {
        self.op_page@ * PAGE_SIZE
    }

    /// State with no operation in flight: no buffers held, the hardware at
    /// rest, and no stale fault.
    pub open spec fn idle_inv(&self) -> bool {
        &&& self.read_buf is None
        &&& self.write_buf is None
        &&& !self.registers.cmd_active
        &&& self.registers.ctrl_regwen
        &&& !self.registers.fault_mp
        &&& !self.registers.intr_state.op_error
        &&& self.registers.rd_fifo@.len() == 0
    }

    /// Progress of a healthy read: the buffer prefix, the FIFO contents and
    /// the hardware cursor tile the page without gap or overlap.
    pub open spec fn read_healthy(&self) -> bool {
        let base = self.op_base();
        let fifo_bytes = 4 * self.registers.rd_fifo@.len();
        &&& !self.registers.fault_mp
        &&& self.registers.intr_state.op_done ==> !self.registers.cmd_active
        &&& self.registers.cmd_active ==> {
            &&& self.registers.cmd_addr == base + self.read_index + fifo_bytes
            &&& self.read_index + fifo_bytes + 4 * self.registers.cmd_words_left == PAGE_SIZE
        }
        &&& !self.registers.cmd_active ==> self.read_index + fifo_bytes == PAGE_SIZE
        &&& forall|j: int|
            0 <= j < self.registers.rd_fifo@.len() ==> self.registers.rd_fifo@[j] == mem_word(
                self.registers.mem@,
                base + self.read_index + 4 * j,
            )
        &&& forall|i: int|
            0 <= i < self.read_index ==> self.read_buf.unwrap()@[i] == self.registers.mem@[base
                + i]
    }

    /// State while a read is in flight.
    pub open spec fn reading_inv(&self) -> bool {
        &&& self.read_buf matches Some(b) && b.wf()
        &&& self.write_buf is None
        &&& self.op_page_ok()
        &&& self.registers.control.op is Read
        &&& !self.registers.intr_state.op_error ==> self.read_healthy()
        &&& self.registers.intr_state.op_error ==> !self.registers.cmd_active
            && self.registers.ctrl_regwen && self.registers.rd_fifo@.len() == 0
    }

    /// Progress of a healthy write: the page prefix up to `write_index` is
    /// already programmed, and the run cursor sits right behind it.
    pub open spec fn write_healthy(&self) -> bool {
        let base = self.op_base();
        &&& !self.registers.fault_mp
        &&& !self.registers.cmd_active
        &&& self.registers.ctrl_regwen
        &&& 4 * self.write_word_addr == base + self.write_index
        &&& forall|i: int|
            0 <= i < self.write_index ==> self.registers.mem@[base + i]
                == self.write_buf.unwrap()@[i]
    }

    /// State while a write is in flight.
    pub open spec fn writing_inv(&self) -> bool {
        &&& self.write_buf matches Some(b) && b.wf()
        &&& self.read_buf is None
        &&& self.op_page_ok()
        &&& self.registers.control.op is Prog
        &&& self.registers.rd_fifo@.len() == 0
        &&& self.write_index <= PAGE_SIZE
        &&& !self.registers.intr_state.op_error ==> self.write_healthy()
        &&& self.registers.intr_state.op_error ==> !self.registers.cmd_active
            && self.registers.ctrl_regwen
    }

    /// State while an erase is in flight.
    pub open spec fn erasing_inv(&self) -> bool {
        &&& self.read_buf is None
        &&& self.write_buf is None
        &&& self.op_page_ok()
        &&& self.registers.rd_fifo@.len() == 0
        &&& self.registers.control.op is Erase
        &&& !self.registers.intr_state.op_error ==> {
            &&& !self.registers.fault_mp
            &&& self.registers.cmd_active ==> self.registers.cmd_addr as int / PAGE_SIZE as int
                == self.op_page@ && !self.registers.intr_state.op_done
            &&& !self.registers.cmd_active ==> forall|i: int|
                self.op_base() <= i < self.op_base() + PAGE_SIZE
                    ==> self.registers.mem@[i] == 0xFFu8
        }
        &&& self.registers.intr_state.op_error ==> !self.registers.cmd_active
            && self.registers.ctrl_regwen
    }

    /// The controller's invariant: every request establishes it, every
    /// interrupt preserves it.
    pub open spec fn inv(&self) -> bool {
        &&& self.registers.inv()
        &&& self.read_index <= PAGE_SIZE
        &&& self.read_index % 4 == 0
        &&& self.write_index % 4 == 0
        &&& match self.op_state {
            OperationState::Idle => self.idle_inv(),
            OperationState::Reading => self.reading_inv(),
            OperationState::Writing => self.writing_inv(),
            OperationState::Erasing => self.erasing_inv(),
        }
    }

    /// A fresh controller over the given register block, using `region_num`
    /// for the lazy partition setup.
    pub fn new(base: FlashCtrlRegisters, region_num: FlashRegion) -> (r: FlashCtrl)
        requires
            base.inv(),
            !base.cmd_active,
            !base.fault_mp,
            !base.intr_state.op_error,
            base.rd_fifo@.len() == 0,
        ensures
            r.inv(),
            r.registers == base,
            r.op_state is Idle,
            !r.data_configured,
            !r.info_configured,
            r.read_buf is None,
            r.write_buf is None,
            r.read_index == 0,
            r.write_index == 0,
            r.write_word_addr == 0,
            r.region_num == region_num,
    {
        FlashCtrl {
            registers: base,
            data_configured: false,
            info_configured: false,
            read_buf: None,
            read_index: 0,
            write_buf: None,
            write_index: 0,
            write_word_addr: 0,
            region_num,
            op_state: OperationState::Idle,
            op_page: Ghost(0),
        }
    }

    /// The interrupt lines the driver keeps armed while an operation runs:
    /// program-FIFO drained, read-FIFO level, operation done and operation
    /// error.
    pub open spec fn armed_interrupts() -> IntrBits {
        IntrBits {
            prog_empty: true,
            prog_lvl: false,
            rd_full: false,
            rd_lvl: true,
            op_done: true,
            op_error: true,
        }
    }

    /// Enables the interrupts the driver relies on: program-FIFO drained,
    /// read-FIFO level, operation done and operation error.
    fn enable_interrupts(&mut self)
        requires
            old(self).inv(),
        ensures
            final(self).inv(),
            *final(self) == (FlashCtrl {
                registers: (FlashCtrlRegisters {
                    intr_enable: Self::armed_interrupts(),
                    ..old(self).registers
                }),
                ..*old(self)
            }),
    {
        self.registers.intr_enable = IntrBits {
            prog_empty: true,
            prog_lvl: false,
            rd_full: false,
            rd_lvl: true,
            op_done: true,
            op_error: true,
        };
    }

    /// Disables and acknowledges all interrupts.
    fn disable_interrupts(&mut self)
        requires
            old(self).inv(),
        ensures
            *final(self) == (FlashCtrl {
                registers: (FlashCtrlRegisters {
                    intr_enable: IntrBits::spec_none(),
                    intr_state: IntrBits::spec_none(),
                    ..old(self).registers
                }),
                ..*old(self)
            }),
    {
        self.registers.intr_enable = IntrBits::none();
        self.registers.intr_state = IntrBits::none();
    }

    /// Calculates the largest number of words that can be programmed from
    /// `word_addr` without crossing a programming window boundary or running
    /// past the `rem_bytes` bytes that remain. When programming the
    /// hardware's word count field, write one less.
    pub fn calculate_max_prog_len(&self, word_addr: u32, rem_bytes: u32) -> (r: u32)
        requires
            word_addr < 0xFFFF_FFF0u32,
        ensures
            r == Self::spec_max_prog_len(word_addr, rem_bytes),
            r <= rem_bytes / 4,
            word_addr % (FLASH_PROG_WINDOW_SIZE as u32) + r <= FLASH_PROG_WINDOW_SIZE,
            rem_bytes >= 4 ==> r >= 1,
    {
        let window_limit = FLASH_PROG_WINDOW_SIZE as u32 - word_addr % (FLASH_PROG_WINDOW_SIZE
            as u32);
        let words_to_write = rem_bytes / 4;
        if words_to_write < window_limit {
            words_to_write
        } else {
            window_limit
        }
    }

    /// The number of words one program run from `word_addr` may carry: the
    /// words that remain or the words left in the current programming
    /// window, whichever is smaller.
    pub open spec fn spec_max_prog_len(word_addr: u32, rem_bytes: u32) -> int {
        let window_left = FLASH_PROG_WINDOW_SIZE - word_addr as int % (FLASH_PROG_WINDOW_SIZE as int);
        if rem_bytes as int / 4 < window_left {
            rem_bytes as int / 4
        } else {
            window_left
        }
    }

    /// The default data-partition permissions the lazy setup applies: read,
    /// program and erase open, scrambling and ECC off.
    pub open spec fn data_default_cfg() -> DefaultRegionCfg {
        DefaultRegionCfg {
            rd_en: MUBI_SET,
            prog_en: MUBI_SET,
            erase_en: MUBI_SET,
            scramble_en: MUBI_CLEAR,
            ecc_en: MUBI_CLEAR,
            he_en: MUBI_CLEAR,
        }
    }

    /// The region configuration the lazy setup applies to its own region.
    pub open spec fn data_region_cfg() -> MpRegionCfg {
        MpRegionCfg {
            en: MUBI_SET,
            rd_en: MUBI_SET,
            prog_en: MUBI_SET,
            erase_en: MUBI_SET,
            scramble_en: MUBI_CLEAR,
            ecc_en: MUBI_CLEAR,
            he_en: MUBI_CLEAR,
        }
    }

    /// The info-partition page configuration the lazy setup applies.
    pub open spec fn info_page_cfg_enabled() -> InfoPageCfg {
        InfoPageCfg {
            en: MUBI_SET,
            rd_en: MUBI_SET,
            prog_en: MUBI_SET,
            erase_en: MUBI_SET,
            scramble_en: MUBI_SET,
            ecc_en: MUBI_SET,
            he_en: MUBI_CLEAR,
        }
    }

    /// Applies the default access permissions of the data partition: open
    /// default permissions, and region `num` enabled over the page right
    /// after the first bank. A region whose configuration has been locked
    /// is left as it is.
    fn configure_data_partition(&mut self, num: FlashRegion)
        requires
            old(self).inv(),
        ensures
            final(self).inv(),
            *final(self) == (FlashCtrl {
                registers: final(self).registers,
                data_configured: true,
                ..*old(self)
            }),
            final(self).registers == (FlashCtrlRegisters {
                default_region: Self::data_default_cfg(),
                mp_region_cfg: final(self).registers.mp_region_cfg,
                mp_region: final(self).registers.mp_region,
                ..old(self).registers
            }),
            old(self).registers.region_cfg_regwen@[num.spec_index()] ==> {
                &&& final(self).registers.mp_region_cfg@
                    == old(self).registers.mp_region_cfg@.update(
                    num.spec_index(),
                    Self::data_region_cfg(),
                )
                &&& final(self).registers.mp_region@ == old(self).registers.mp_region@.update(
                    num.spec_index(),
                    (MpRegionBounds { base: FLASH_PAGES_PER_BANK as u32, size: 1 }),
                )
            },
            !old(self).registers.region_cfg_regwen@[num.spec_index()] ==> {
                &&& final(self).registers.mp_region_cfg@ == old(self).registers.mp_region_cfg@
                &&& final(self).registers.mp_region@ == old(self).registers.mp_region@
            },
    {
        let idx = num.region_index();
        self.registers.write_default_region(
            DefaultRegionCfg {
                rd_en: MUBI_SET,
                prog_en: MUBI_SET,
                erase_en: MUBI_SET,
                scramble_en: MUBI_CLEAR,
                ecc_en: MUBI_CLEAR,
                he_en: MUBI_CLEAR,
            },
        );
        // Program the permission bits with the region still disabled.
        self.registers.write_mp_region_cfg(
            idx,
            MpRegionCfg {
                en: MUBI_CLEAR,
                rd_en: MUBI_SET,
                prog_en: MUBI_SET,
                erase_en: MUBI_SET,
                scramble_en: MUBI_CLEAR,
                ecc_en: MUBI_CLEAR,
                he_en: MUBI_CLEAR,
            },
        );
        // Size and base are stored in a separate register.
        self.registers.write_mp_region_bounds(
            idx,
            MpRegionBounds { base: FLASH_PAGES_PER_BANK as u32, size: 1 },
        );
        // Enable the region.
        self.registers.write_mp_region_cfg(
            idx,
            MpRegionCfg {
                en: MUBI_SET,
                rd_en: MUBI_SET,
                prog_en: MUBI_SET,
                erase_en: MUBI_SET,
                scramble_en: MUBI_CLEAR,
                ecc_en: MUBI_CLEAR,
                he_en: MUBI_CLEAR,
            },
        );
        proof {
            if old(self).registers.region_cfg_regwen@[num.spec_index()] {
                assert(self.registers.mp_region_cfg@ =~= old(self).registers.mp_region_cfg@.update(num.spec_index(), Self::data_region_cfg()));
            }
        }
        self.data_configured = true;
    }

    /// Applies the info-partition page configuration of region `num` in the
    /// given bank. The info partitions have no default access, so this runs
    /// before the first operation.
    fn configure_info_partition(&mut self, bank: FlashBank, num: FlashRegion)
        requires
            old(self).inv(),
        ensures
            final(self).inv(),
            *final(self) == (FlashCtrl {
                registers: final(self).registers,
                info_configured: true,
                ..*old(self)
            }),
            bank is BANK0 ==> final(self).registers == (FlashCtrlRegisters {
                bank0_info0_page_cfg: final(self).registers.bank0_info0_page_cfg,
                ..old(self).registers
            }) && final(self).registers.bank0_info0_page_cfg@
                == old(self).registers.bank0_info0_page_cfg@.update(
                num.spec_index(),
                Self::info_page_cfg_enabled(),
            ),
            bank is BANK1 ==> final(self).registers == (FlashCtrlRegisters {
                bank1_info0_page_cfg: final(self).registers.bank1_info0_page_cfg,
                ..old(self).registers
            }) && final(self).registers.bank1_info0_page_cfg@
                == old(self).registers.bank1_info0_page_cfg@.update(
                num.spec_index(),
                Self::info_page_cfg_enabled(),
            ),
    {
        let idx = num.region_index();
        let bank_idx: usize = match bank {
            FlashBank::BANK0 => 0,
            FlashBank::BANK1 => 1,
        };
        // Program the page configuration with the page still disabled.
        self.registers.write_info_page_cfg(
            bank_idx,
            idx,
            InfoPageCfg {
                en: MUBI_CLEAR,
                rd_en: MUBI_SET,
                prog_en: MUBI_SET,
                erase_en: MUBI_SET,
                scramble_en: MUBI_SET,
                ecc_en: MUBI_SET,
                he_en: MUBI_CLEAR,
            },
        );
        // Enable it.
        self.registers.write_info_page_cfg(
            bank_idx,
            idx,
            InfoPageCfg {
                en: MUBI_SET,
                rd_en: MUBI_SET,
                prog_en: MUBI_SET,
                erase_en: MUBI_SET,
                scramble_en: MUBI_SET,
                ecc_en: MUBI_SET,
                he_en: MUBI_CLEAR,
            },
        );
        proof {
            if bank is BANK0 {
                assert(self.registers.bank0_info0_page_cfg@ =~= old(self).registers.bank0_info0_page_cfg@.update(
                    num.spec_index(),
                    Self::info_page_cfg_enabled(),
                ));
            } else {
                assert(self.registers.bank1_info0_page_cfg@ =~= old(self).registers.bank1_info0_page_cfg@.update(
                    num.spec_index(),
                    Self::info_page_cfg_enabled(),
                ));
            }
        }
        self.info_configured = true;
    }

    /// Arithmetic facts about the byte address of a page.
    proof fn lemma_page_addr_facts(page: int)
        requires
            0 <= page < FLASH_MAX_PAGES,
        ensures
            0 <= page * PAGE_SIZE,
            page * PAGE_SIZE + PAGE_SIZE <= FLASH_MEM_BYTES,
            (page * PAGE_SIZE) % 4 == 0,
            (page * PAGE_SIZE) % (PAGE_SIZE as int) == 0,
            (page * PAGE_SIZE) / (PAGE_SIZE as int) == page,
    {
        assert(0 <= page * 2048 && page * 2048 + 2048 <= 1048576 && (page * 2048) % 4 == 0 && (page
            * 2048) % 2048 == 0 && (page * 2048) / 2048 == page) by (nonlinear_arith)
            requires
                0 <= page < 512,
        ;
    }

    /// Memory-protection configuration is untouched between `pre` and
    /// `post`, and so are the locks.
    pub open spec fn mp_cfg_unchanged(pre: FlashCtrlRegisters, post: FlashCtrlRegisters) -> bool {
        &&& post.mp_region_cfg@ == pre.mp_region_cfg@
        &&& post.mp_region@ == pre.mp_region@
        &&& post.default_region == pre.default_region
        &&& post.region_cfg_regwen@ == pre.region_cfg_regwen@
    }

    /// What a request's lazy partition setup does to the memory-protection
    /// registers: the locks never change, regions other than the driver's
    /// own are untouched, and an already configured data partition is left
    /// entirely alone. On the first operation the default data-partition
    /// permissions are applied and - unless its configuration has been
    /// locked - the driver's own region is programmed over the page after
    /// the first bank.
    pub open spec fn lazy_setup_effect(pre: FlashCtrl, post: FlashCtrl) -> bool {
        let own = pre.region_num.spec_index();
        &&& post.registers.region_cfg_regwen@ == pre.registers.region_cfg_regwen@
        &&& forall|q: int|
            0 <= q < FLASH_MP_MAX_CFGS && q != own ==> (#[trigger] post.registers.mp_region_cfg@[q])
                == pre.registers.mp_region_cfg@[q] && post.registers.mp_region@[q]
                == pre.registers.mp_region@[q]
        &&& pre.data_configured ==> {
            &&& post.registers.mp_region_cfg@ == pre.registers.mp_region_cfg@
            &&& post.registers.mp_region@ == pre.registers.mp_region@
            &&& post.registers.default_region == pre.registers.default_region
        }
        &&& !pre.data_configured ==> {
            &&& post.registers.default_region == Self::data_default_cfg()
            &&& pre.registers.region_cfg_regwen@[own] ==> post.registers.mp_region_cfg@[own]
                == Self::data_region_cfg() && post.registers.mp_region@[own] == (MpRegionBounds {
                base: FLASH_PAGES_PER_BANK as u32,
                size: 1,
            })
            &&& !pre.registers.region_cfg_regwen@[own] ==> post.registers.mp_region_cfg@[own]
                == pre.registers.mp_region_cfg@[own] && post.registers.mp_region@[own]
                == pre.registers.mp_region@[own]
        }
    }

    /// The lazy-setup effect depends only on the protection registers of
    /// the later state: it carries over to any state holding the same.
    proof fn lemma_lazy_setup_transfer(pre: FlashCtrl, a: FlashCtrl, b: FlashCtrl)
        requires
            Self::lazy_setup_effect(pre, a),
            b.registers.mp_region_cfg@ == a.registers.mp_region_cfg@,
            b.registers.mp_region@ == a.registers.mp_region@,
            b.registers.default_region == a.registers.default_region,
            b.registers.region_cfg_regwen@ == a.registers.region_cfg_regwen@,
        ensures
            Self::lazy_setup_effect(pre, b),
    {
    }

    /// Runs the lazy partition setup when it has not run yet: the info
    /// partition's page configuration and the data partition's default
    /// permissions, each applied at most once per boot.
    fn configure_if_needed(&mut self)
        requires
            old(self).inv(),
            old(self).op_state is Idle,
        ensures
            final(self).inv(),
            *final(self) == (FlashCtrl {
                registers: final(self).registers,
                data_configured: true,
                info_configured: true,
                ..*old(self)
            }),
            Self::lazy_setup_effect(*old(self), *final(self)),
            final(self).registers == (FlashCtrlRegisters {
                mp_region_cfg: final(self).registers.mp_region_cfg,
                mp_region: final(self).registers.mp_region,
                default_region: final(self).registers.default_region,
                bank0_info0_page_cfg: final(self).registers.bank0_info0_page_cfg,
                bank1_info0_page_cfg: final(self).registers.bank1_info0_page_cfg,
                ..old(self).registers
            }),
    {
        if !self.info_configured {
            // The info partitions have no default access; set their region up.
            self.configure_info_partition(FlashBank::BANK1, self.region_num);
        }
        if !self.data_configured {
            self.configure_data_partition(self.region_num);
        }
    }

    /// Begins reading page `page_number` of the data partition into `buf`.
    ///
    /// Accepted exactly when no operation is in flight: the controller then
    /// keeps the buffer, programs a full-page read command and returns at
    /// once; completion arrives through [`Self::handle_interrupt`], as a
    /// protection fault if memory protection denies reading that page.
    /// While an operation is in flight the request is rejected with `BUSY`,
    /// the buffer comes straight back, and nothing changes.
    #[verifier::rlimit(60)]
    #[verifier::spinoff_prover]
    pub fn read_page(&mut self, page_number: usize, buf: LowRiscPage) -> (r: Result<
        (),
        (ErrorCode, LowRiscPage),
    >)
        requires
            old(self).inv(),
            buf.wf(),
            page_number < FLASH_MAX_PAGES,
        ensures
            final(self).inv(),
            !(old(self).op_state is Idle) ==> (r matches Err((e, b)) && e == ErrorCode::BUSY && b
                == buf) && *final(self) == *old(self),
            old(self).op_state is Idle ==> {
                &&& r is Ok
                &&& final(self).op_state is Reading
                &&& final(self).read_buf == Some(buf)
                &&& final(self).write_buf is None
                &&& final(self).read_index == 0
                &&& final(self).op_page@ == page_number
                &&& final(self).data_configured
                &&& final(self).info_configured
                &&& final(self).region_num == old(self).region_num
                &&& final(self).registers.mem@ == old(self).registers.mem@
                &&& Self::lazy_setup_effect(*old(self), *final(self))
                &&& final(self).registers.intr_enable == Self::armed_interrupts()
                &&& final(self).registers.intr_state.op_error == !final(self).registers.read_allowed(page_number as int)
                &&& final(self).registers.fault_mp == !final(self).registers.read_allowed(
                    page_number as int,
                )
                &&& final(self).registers.fifo_lvl.rd == 0xF
                &&& !final(self).registers.intr_state.op_error ==> final(self).registers.cmd_active
                    && final(self).registers.control.op is Read
            },
    {
        if !matches!(self.op_state, OperationState::Idle) {
            return Err((ErrorCode::BUSY, buf));
        }
        let addr = page_number * PAGE_SIZE;
        self.configure_if_needed();
        // Acknowledge stale interrupts, then arm them, and ask for a
        // read-FIFO level interrupt near full.
        self.disable_interrupts();
        self.enable_interrupts();
        let lvl = self.registers.fifo_lvl;
        self.registers.write_fifo_lvl(FifoLvl { prog: lvl.prog, rd: 0xF });
        // The hardware refuses command writes while it is busy.
        if !self.registers.ctrl_regwen {
            return Err((ErrorCode::BUSY, buf));
        }
        self.read_buf = Some(buf);
        self.read_index = 0;
        proof {
            Self::lemma_page_addr_facts(page_number as int);
        }
        let ctl = ControlReg {
            start: false,
            op: FlashOp::Read,
            erase_sel: EraseSel::Page,
            partition_info: false,
            info_sel: 1,
            num: (PAGE_SIZE / 4 - 1) as u32,
        };
        self.registers.write_control(ctl);
        self.registers.write_addr(addr as u32);
        self.registers.write_control(ControlReg { start: true, ..ctl });
        self.op_page = Ghost(page_number as int);
        self.op_state = OperationState::Reading;
        proof {
            assert(Self::lazy_setup_effect(*old(self), *self));
        }
        Ok(())
    }

    /// Pushes one program run of `len` words from `buf` at `self.write_index`
    /// into the program FIFO. The hardware must be executing a program
    /// command of exactly that many words at the matching address.
    fn push_prog_run(&mut self, buf: &LowRiscPage, len: u32)
        requires
            old(self).registers.inv(),
            buf.wf(),
            old(self).registers.cmd_active,
            old(self).registers.control.op is Prog,
            old(self).registers.cmd_words_left == len,
            old(self).write_index + 4 * len <= PAGE_SIZE,
            old(self).registers.cmd_addr + 4 * len <= FLASH_MEM_BYTES,
            old(self).write_index % 4 == 0,
        ensures
            final(self).registers.inv(),
            *final(self) == (FlashCtrl {
                registers: final(self).registers,
                write_index: (old(self).write_index + 4 * len) as usize,
                ..*old(self)
            }),
            final(self).registers == (FlashCtrlRegisters {
                mem: final(self).registers.mem,
                cmd_addr: (old(self).registers.cmd_addr + 4 * len) as u32,
                cmd_words_left: 0,
                cmd_active: false,
                ctrl_regwen: true,
                intr_state: (IntrBits {
                    prog_empty: true,
                    op_done: true,
                    ..old(self).registers.intr_state
                }),
                op_status: (OpStatus { done: true, ..old(self).registers.op_status }),
                ..old(self).registers
            }),
            final(self).registers.mem@.len() == old(self).registers.mem@.len(),
            forall|k: int|
                0 <= k < 4 * len ==> #[trigger] final(self).registers.mem@[old(self).registers.cmd_addr + k] == buf@[old(self).write_index + k],
            forall|i: int|
                0 <= i < old(self).registers.mem@.len() && !(old(self).registers.cmd_addr <= i
                    < old(self).registers.cmd_addr + 4 * len) ==> final(self).registers.mem@[i]
                    == old(self).registers.mem@[i],
    {
        let ghost pre = *self;
        let mut pushed: u32 = 0;
        while pushed < len
            invariant
                pre.registers.inv(),
                buf.wf(),
                pushed <= len,
                pre.registers.cmd_active,
                pre.registers.control.op is Prog,
                pre.registers.cmd_words_left == len,
                pre.write_index + 4 * len <= PAGE_SIZE,
                pre.registers.cmd_addr + 4 * len <= FLASH_MEM_BYTES,
                self.registers.inv(),
                *self == (FlashCtrl {
                    registers: self.registers,
                    write_index: (pre.write_index + 4 * pushed) as usize,
                    ..pre
                }),
                pushed < len ==> self.registers == (FlashCtrlRegisters {
                    mem: self.registers.mem,
                    cmd_addr: (pre.registers.cmd_addr + 4 * pushed) as u32,
                    cmd_words_left: (len - pushed) as u32,
                    ..pre.registers
                }),
                pushed == len ==> self.registers == (FlashCtrlRegisters {
                    mem: self.registers.mem,
                    cmd_addr: (pre.registers.cmd_addr + 4 * pushed) as u32,
                    cmd_words_left: 0,
                    cmd_active: false,
                    ctrl_regwen: true,
                    intr_state: (IntrBits {
                        prog_empty: true,
                        op_done: true,
                        ..pre.registers.intr_state
                    }),
                    op_status: (OpStatus { done: true, ..pre.registers.op_status }),
                    ..pre.registers
                }),
                self.registers.mem@.len() == pre.registers.mem@.len(),
                forall|k: int|
                    0 <= k < 4 * pushed ==> #[trigger] self.registers.mem@[pre.registers.cmd_addr
                        + k] == buf@[pre.write_index + k],
                forall|i: int|
                    0 <= i < pre.registers.mem@.len() && !(pre.registers.cmd_addr <= i
                        < pre.registers.cmd_addr + 4 * pushed) ==> self.registers.mem@[i]
                        == pre.registers.mem@[i],
            decreases len - pushed,
        {
            let offset = self.write_index;
            let b0 = buf.read_byte(offset);
            let b1 = buf.read_byte(offset + 1);
            let b2 = buf.read_byte(offset + 2);
            let b3 = buf.read_byte(offset + 3);
            let data: u32 = (b0 as u32) | ((b1 as u32) << 8) | ((b2 as u32) << 16) | ((b3 as u32)
                << 24);
            proof {
                crate::flash_regs::lemma_word_bytes_round_trip(b0, b1, b2, b3);
            }
            self.registers.prog_fifo_push(data);
            self.write_index = offset + 4;
            pushed = pushed + 1;
        }
    }

    /// Begins writing `buf` to page `page_number` of the data partition.
    ///
    /// Accepted exactly when no operation is in flight: the controller then
    /// keeps the buffer, issues the first window-aligned program run and
    /// returns at once. Later runs are issued from
    /// [`Self::handle_interrupt`] each time the program FIFO drains, so
    /// that no run crosses a programming window boundary. While an
    /// operation is in flight the request is rejected with `BUSY`, the
    /// buffer comes straight back, and nothing changes.
    #[verifier::rlimit(60)]
    #[verifier::spinoff_prover]
    pub fn write_page(&mut self, page_number: usize, buf: LowRiscPage) -> (r: Result<
        (),
        (ErrorCode, LowRiscPage),
    >)
        requires
            old(self).inv(),
            buf.wf(),
            page_number < FLASH_MAX_PAGES,
        ensures
            final(self).inv(),
            !(old(self).op_state is Idle) ==> (r matches Err((e, b)) && e == ErrorCode::BUSY && b
                == buf) && *final(self) == *old(self),
            old(self).op_state is Idle ==> {
                &&& r is Ok
                &&& final(self).op_state is Writing
                &&& final(self).write_buf == Some(buf)
                &&& final(self).read_buf is None
                &&& final(self).op_page@ == page_number
                &&& final(self).data_configured
                &&& final(self).info_configured
                &&& final(self).region_num == old(self).region_num
                &&& Self::lazy_setup_effect(*old(self), *final(self))
                &&& final(self).registers.intr_enable == Self::armed_interrupts()
                &&& final(self).registers.intr_state.op_error == !final(self).registers.prog_allowed(page_number as int)
                &&& final(self).registers.fault_mp == !final(self).registers.prog_allowed(
                    page_number as int,
                )
                &&& final(self).registers.fifo_lvl.prog == 0
                &&& !final(self).registers.intr_state.op_error ==> final(self).registers.intr_state.prog_empty && final(self).registers.intr_state.op_done
                    && final(self).registers.control.op is Prog
                &&& forall|i: int|
                    0 <= i < FLASH_MEM_BYTES && !(page_number * PAGE_SIZE <= i < (page_number + 1)
                        * PAGE_SIZE) ==> final(self).registers.mem@[i]
                        == old(self).registers.mem@[i]
                &&& !final(self).registers.intr_state.op_error ==> final(self).write_index == 4
                    * Self::spec_max_prog_len((page_number * (PAGE_SIZE / 4)) as u32, PAGE_SIZE
                    as u32)
                &&& final(self).registers.intr_state.op_error ==> final(self).registers.mem@
                    == old(self).registers.mem@
            },
    {
        if !matches!(self.op_state, OperationState::Idle) {
            return Err((ErrorCode::BUSY, buf));
        }
        let addr = page_number * PAGE_SIZE;
        self.configure_if_needed();
        // The hardware refuses command writes while it is busy.
        if !self.registers.ctrl_regwen {
            return Err((ErrorCode::BUSY, buf));
        }
        // Acknowledge stale interrupts before the first run raises its own.
        self.disable_interrupts();
        proof {
            Self::lemma_page_addr_facts(page_number as int);
        }
        // Writes must not cross programming window boundaries; issue the
        // largest run that stays inside the current window.
        let word_address = addr / 4;
        let transaction_word_len = self.calculate_max_prog_len(
            word_address as u32,
            PAGE_SIZE as u32,
        );
        let ctl = ControlReg {
            start: false,
            op: FlashOp::Prog,
            erase_sel: EraseSel::Page,
            partition_info: false,
            info_sel: 0,
            num: transaction_word_len - 1,
        };
        self.registers.write_control(ctl);
        self.registers.write_addr(addr as u32);
        self.write_index = 0;
        self.registers.write_control(ControlReg { start: true, ..ctl });
        // Fill the run; a denied command ignores the FIFO, so skip it then.
        if !self.registers.intr_state.op_error {
            self.push_prog_run(&buf, transaction_word_len);
        }
        self.write_word_addr = word_address + transaction_word_len as usize;
        self.write_buf = Some(buf);
        self.op_page = Ghost(page_number as int);
        self.op_state = OperationState::Writing;
        // Arm the interrupts; ask for the drain interrupt when fully empty.
        self.enable_interrupts();
        let lvl = self.registers.fifo_lvl;
        self.registers.write_fifo_lvl(FifoLvl { prog: 0, rd: lvl.rd });
        Ok(())
    }

    /// Begins erasing page `page_number` of the data partition.
    ///
    /// Accepted exactly when no operation is in flight. Before the erase
    /// command is issued, bank-level erase is disabled through the shadowed
    /// bank register's double write, so a page erase can never widen into a
    /// bank erase. Completion arrives through [`Self::handle_interrupt`],
    /// as a protection fault if memory protection denies erasing that page.
    pub fn erase_page(&mut self, page_number: usize) -> (r: Result<(), ErrorCode>)
        requires
            old(self).inv(),
            page_number < FLASH_MAX_PAGES,
        ensures
            final(self).inv(),
            !(old(self).op_state is Idle) ==> r == Err::<(), ErrorCode>(ErrorCode::BUSY) && *final(self) == *old(self),
            old(self).op_state is Idle ==> r is Ok && Self::erase_accepted(*old(self), *final(self), page_number),
    {
        if !matches!(self.op_state, OperationState::Idle) {
            return Err(ErrorCode::BUSY);
        }
        self.start_erase(page_number);
        Ok(())
    }

    /// What accepting an erase of `page_number` does to the controller:
    /// partitions configured, bank-level erase disabled, the page-erase
    /// command submitted, and the denial flags mirroring memory protection.
    pub open spec fn erase_accepted(pre: FlashCtrl, post: FlashCtrl, page_number: usize) -> bool {
        &&& post.op_state is Erasing
        &&& post.read_buf is None
        &&& post.write_buf is None
        &&& post.op_page@ == page_number
        &&& post.data_configured
        &&& post.info_configured
        &&& post.region_num == pre.region_num
        &&& post.registers.mem@ == pre.registers.mem@
        &&& Self::lazy_setup_effect(pre, post)
        &&& post.registers.intr_enable == Self::armed_interrupts()
        &&& post.registers.intr_state.op_error == !post.registers.erase_allowed(
            page_number as int,
        )
        &&& post.registers.fault_mp == !post.registers.erase_allowed(page_number as int)
        &&& !post.registers.intr_state.op_error ==> post.registers.cmd_active
            && post.registers.control.op is Erase
        &&& post.registers.mp_bank_cfg_shadowed.committed == (MpBankCfg {
            erase_en_bank0: false,
            erase_en_bank1: false,
        })
    }

    /// Configures the partitions if needed, disables bank-level erase and
    /// submits the page-erase command.
    #[verifier::rlimit(100)]
    #[verifier::spinoff_prover]
    fn start_erase(&mut self, page_number: usize)
        requires
            old(self).inv(),
            old(self).op_state is Idle,
            page_number < FLASH_MAX_PAGES,
        ensures
            final(self).inv(),
            Self::erase_accepted(*old(self), *final(self), page_number),
    {
        let addr = page_number * PAGE_SIZE;
        self.configure_if_needed();
        let ghost cfged = *self;
        proof {
            Self::lemma_page_addr_facts(page_number as int);
        }
        // Disable bank-level erase; the shadowed register commits a value
        // only when it is written twice in a row.
        let bank_cfg = MpBankCfg { erase_en_bank0: false, erase_en_bank1: false };
        self.registers.write_mp_bank_cfg(bank_cfg);
        self.registers.write_mp_bank_cfg(bank_cfg);
        self.registers.write_addr(addr as u32);
        self.disable_interrupts();
        self.enable_interrupts();
        self.registers.write_control(
            ControlReg {
                start: true,
                op: FlashOp::Erase,
                erase_sel: EraseSel::Page,
                partition_info: false,
                info_sel: 0,
                num: 0,
            },
        );
        self.op_page = Ghost(page_number as int);
        self.op_state = OperationState::Erasing;
        proof {
            Self::lemma_lazy_setup_transfer(*old(self), cfged, *self);
        }
    }

    /// Lets the modelled hardware take one step of the operation in flight:
    /// fill the read FIFO, or erase the page, and raise interrupts. The
    /// driver-visible request state does not move; only
    /// [`Self::handle_interrupt`] reacts to what the hardware did.
    pub fn hw_tick(&mut self)
        requires
            old(self).inv(),
        ensures
            final(self).inv(),
            *final(self) == (FlashCtrl { registers: final(self).registers, ..*old(self) }),
            Self::mp_cfg_unchanged(old(self).registers, final(self).registers),
            final(self).registers.mp_bank_cfg_shadowed
                == old(self).registers.mp_bank_cfg_shadowed,
            old(self).op_state is Idle ==> *final(self) == *old(self),
            !old(self).registers.cmd_active ==> *final(self) == *old(self),
            old(self).registers.cmd_active && old(self).registers.control.op is Read
                ==> FlashCtrlRegisters::tick_read_post(old(self).registers, final(self).registers),
            old(self).registers.cmd_active && old(self).registers.control.op is Prog ==> *final(self) == *old(self),
            old(self).registers.cmd_active && old(self).registers.control.op is Erase
                ==> FlashCtrlRegisters::tick_erase_post(old(self).registers, final(self).registers),
            !(old(self).op_state is Erasing) ==> final(self).registers.mem@
                == old(self).registers.mem@,
            old(self).op_state is Erasing ==> forall|i: int|
                0 <= i < FLASH_MEM_BYTES && !(old(self).op_base() <= i < old(self).op_base()
                    + PAGE_SIZE) ==> final(self).registers.mem@[i] == old(self).registers.mem@[i],
    {
        let ghost pre = *self;
        proof {
            if pre.op_state is Erasing && pre.registers.cmd_active
                && !pre.registers.intr_state.op_error {
                Self::lemma_page_addr_facts(pre.op_page@);
            }
        }
        self.registers.hw_tick();
        proof {
            if pre.op_state is Reading && pre.registers.cmd_active
                && !pre.registers.intr_state.op_error {
                let base = pre.op_base();
                let take = pre.registers.fill_count();
                let lold = pre.registers.rd_fifo@.len() as int;
                assert forall|j: int|
                    0 <= j < self.registers.rd_fifo@.len() implies self.registers.rd_fifo@[j]
                    == mem_word(self.registers.mem@, base + self.read_index + 4 * j) by {
                    if j >= lold {
                        assert(self.registers.rd_fifo@[j] == mem_word(
                            pre.registers.mem@,
                            pre.registers.cmd_addr + 4 * (j - lold),
                        ));
                    }
                }
            }
        }
    }

    /// The outcome an operation completes with, given the interrupt state
    /// at the moment the handler runs: a protection fault when the fault
    /// flag accompanies the error line, a flash error on the error line
    /// alone, success otherwise.
    pub open spec fn completion_error(pre: FlashCtrl) -> Error {
        if pre.registers.intr_state.op_error {
            if pre.registers.fault_mp {
                Error::FlashMPError
            } else {
                Error::FlashError
            }
        } else {
            Error::CommandComplete
        }
    }

    /// Drains every word the read FIFO holds into the read buffer.
    fn drain_read_fifo(&mut self)
        requires
            old(self).inv(),
            old(self).op_state is Reading,
            !old(self).registers.intr_state.op_error,
        ensures
            final(self).inv(),
            *final(self) == (FlashCtrl {
                registers: final(self).registers,
                read_buf: final(self).read_buf,
                read_index: final(self).read_index,
                ..*old(self)
            }),
            final(self).registers == (FlashCtrlRegisters {
                rd_fifo: final(self).registers.rd_fifo,
                ..old(self).registers
            }),
            final(self).read_buf is Some,
            final(self).registers.rd_fifo@.len() == 0,
            final(self).read_index == old(self).read_index + 4 * old(self).registers.rd_fifo@.len(),
            forall|i: int|
                0 <= i < PAGE_SIZE && !(old(self).read_index <= i < final(self).read_index)
                    ==> final(self).read_buf.unwrap()@[i] == old(self).read_buf.unwrap()@[i],
    {
        let ghost pre = *self;
        let mut buf = self.read_buf.take().unwrap();
        let ghost base = pre.op_base();
        while !self.registers.rd_fifo_empty() && self.read_index < PAGE_SIZE
            invariant
                pre.registers.inv(),
                self.registers.inv(),
                pre.op_state is Reading,
                buf.wf(),
                self.read_index % 4 == 0,
                self.read_index <= PAGE_SIZE,
                base == pre.op_page@ * PAGE_SIZE,
                0 <= pre.op_page@ < FLASH_MAX_PAGES,
                *self == (FlashCtrl {
                    registers: self.registers,
                    read_buf: None,
                    read_index: self.read_index,
                    ..pre
                }),
                self.registers == (FlashCtrlRegisters {
                    rd_fifo: self.registers.rd_fifo,
                    ..pre.registers
                }),
                self.read_index + 4 * self.registers.rd_fifo@.len() == pre.read_index + 4
                    * pre.registers.rd_fifo@.len(),
                pre.read_index + 4 * pre.registers.rd_fifo@.len() <= PAGE_SIZE,
                forall|j: int|
                    0 <= j < self.registers.rd_fifo@.len() ==> self.registers.rd_fifo@[j]
                        == mem_word(self.registers.mem@, base + self.read_index + 4 * j),
                forall|i: int|
                    0 <= i < self.read_index ==> buf@[i] == self.registers.mem@[base + i],
                pre.read_index <= self.read_index,
                forall|i: int|
                    0 <= i < PAGE_SIZE && !(pre.read_index <= i < self.read_index) ==> buf@[i]
                        == pre.read_buf.unwrap()@[i],
            decreases self.registers.rd_fifo@.len(),
        {
            let w = self.registers.read_fifo_pop();
            let b0 = (w & 0xff) as u8;
            let b1 = ((w >> 8) & 0xff) as u8;
            let b2 = ((w >> 16) & 0xff) as u8;
            let b3 = ((w >> 24) & 0xff) as u8;
            proof {
                let a = base + self.read_index;
                crate::flash_regs::lemma_word_bytes_round_trip(
                    self.registers.mem@[a],
                    self.registers.mem@[a + 1],
                    self.registers.mem@[a + 2],
                    self.registers.mem@[a + 3],
                );
            }
            let buf_offset = self.read_index;
            let ghost buf_before = buf;
            buf.write_byte(buf_offset, b0);
            buf.write_byte(buf_offset + 1, b1);
            buf.write_byte(buf_offset + 2, b2);
            buf.write_byte(buf_offset + 3, b3);
            self.read_index = buf_offset + 4;
            proof {
                assert forall|i: int|
                    0 <= i < PAGE_SIZE && !(pre.read_index <= i < self.read_index) implies buf@[i]
                    == pre.read_buf.unwrap()@[i] by {
                    assert(buf@[i] == buf_before@[i]);
                }
            }
        }
        self.read_buf = Some(buf);
    }

    /// Issues the next window-aligned program run and fills its FIFO.
    fn issue_next_prog_run(&mut self)
        requires
            old(self).inv(),
            old(self).op_state is Writing,
            !old(self).registers.intr_state.op_error,
            old(self).write_index < PAGE_SIZE,
        ensures
            final(self).inv(),
            *final(self) == (FlashCtrl {
                registers: final(self).registers,
                write_buf: final(self).write_buf,
                write_index: final(self).write_index,
                write_word_addr: final(self).write_word_addr,
                ..*old(self)
            }),
            final(self).write_buf == old(self).write_buf,
            Self::mp_cfg_unchanged(old(self).registers, final(self).registers),
            final(self).registers.mp_bank_cfg_shadowed
                == old(self).registers.mp_bank_cfg_shadowed,
            final(self).registers.intr_state.op_error == !final(self).registers.prog_allowed(
                old(self).op_page@,
            ),
            !final(self).registers.intr_state.op_error ==> final(self).write_index > old(self).write_index,
            forall|i: int|
                0 <= i < FLASH_MEM_BYTES && !(old(self).op_base() <= i < old(self).op_base()
                    + PAGE_SIZE) ==> final(self).registers.mem@[i] == old(self).registers.mem@[i],
    {
        let ghost pre = *self;
        proof {
            Self::lemma_page_addr_facts(pre.op_page@);
        }
        let word_addr = self.write_word_addr;
        let rem_bytes = PAGE_SIZE - self.write_index;
        let transaction_word_len = self.calculate_max_prog_len(word_addr as u32, rem_bytes as u32);
        let ctl = ControlReg {
            start: false,
            op: FlashOp::Prog,
            erase_sel: EraseSel::Page,
            partition_info: false,
            info_sel: 0,
            num: transaction_word_len - 1,
        };
        self.registers.write_control(ctl);
        self.registers.write_addr((word_addr * 4) as u32);
        self.registers.write_control(ControlReg { start: true, ..ctl });
        proof {
            assert((word_addr * 4) as int / PAGE_SIZE as int == pre.op_page@) by (nonlinear_arith)
                requires
                    4 * word_addr == pre.op_page@ * 2048 + pre.write_index,
                    0 <= pre.write_index < 2048,
                    0 <= pre.op_page@ < 512,
                    word_addr * 4 == 4 * word_addr,
            ;
        }
        // A denied command ignores the FIFO; push only when it started.
        if !self.registers.intr_state.op_error {
            let ghost at_issue = *self;
            let buf = self.write_buf.take().unwrap();
            self.push_prog_run(&buf, transaction_word_len);
            self.write_buf = Some(buf);
            self.write_word_addr = word_addr + transaction_word_len as usize;
            proof {
                let base = pre.op_base();
                let start = pre.write_index as int;
                assert(at_issue.registers.cmd_addr == base + start);
                assert forall|i: int| 0 <= i < self.write_index implies #[trigger] self.registers.mem@[base + i]
                    == self.write_buf.unwrap()@[i] by {
                    if i < start {
                        assert(pre.registers.mem@[base + i] == pre.write_buf.unwrap()@[i]);
                        assert(self.registers.mem@[base + i] == pre.registers.mem@[base + i]);
                    } else {
                        assert(self.registers.mem@[at_issue.registers.cmd_addr + (i - start)]
                            == buf@[start + (i - start)]);
                    }
                }
            }
        }
    }

    /// Services the controller's interrupts and reports at most one
    /// completion.
    ///
    /// The handler reads and acknowledges the pending interrupts, then: on
    /// an operation error it completes the operation in flight with
    /// `FlashError` - or `FlashMPError` when the hardware flags a memory
    /// protection fault - and returns its buffer; on a read-FIFO level
    /// interrupt it drains the FIFO into the read buffer; on a program-FIFO
    /// drain interrupt it issues the next window-aligned program run; and
    /// on an operation-done interrupt it either completes the operation
    /// with `CommandComplete` - returning the read data, or having written
    /// the full page - or re-arms the interrupts when transfer remains.
    ///
    /// For any accepted operation the completion event is delivered exactly
    /// once: an event moves the controller to `Idle` and surrenders the
    /// buffer, and an idle controller never produces an event.
    pub fn handle_interrupt(&mut self) -> (ev: Option<FlashEvent>)
        requires
            old(self).inv(),
        ensures
            final(self).inv(),
            Self::mp_cfg_unchanged(old(self).registers, final(self).registers),
            final(self).registers.mp_bank_cfg_shadowed
                == old(self).registers.mp_bank_cfg_shadowed,
            final(self).data_configured == old(self).data_configured,
            final(self).info_configured == old(self).info_configured,
            final(self).region_num == old(self).region_num,
            old(self).op_state is Idle ==> ev is None && final(self).op_state is Idle && final(self).registers.mem@ == old(self).registers.mem@,
            ev is None ==> final(self).op_state == old(self).op_state && final(self).op_page == old(self).op_page,
            ev is Some ==> final(self).op_state is Idle && final(self).read_buf is None && final(self).write_buf is None,
            final(self).registers.mem@.len() == FLASH_MEM_BYTES,
            old(self).op_state is Reading || old(self).op_state is Erasing ==> final(self).registers.mem@ == old(self).registers.mem@,
            old(self).op_state is Writing ==> forall|i: int|
                0 <= i < FLASH_MEM_BYTES && !(old(self).op_base() <= i < old(self).op_base()
                    + PAGE_SIZE) ==> final(self).registers.mem@[i] == old(self).registers.mem@[i],
            old(self).op_state !is Idle && old(self).registers.intr_state.op_error ==> ev is Some,
            old(self).op_state is Erasing && old(self).registers.intr_state.op_done && !old(self).registers.intr_state.op_error ==> ev is Some,
            old(self).op_state is Reading && !old(self).registers.intr_state.op_error && old(self).registers.intr_state.op_done && (old(self).registers.intr_state.rd_lvl || old(self).read_index >= PAGE_SIZE) ==> ev is Some,
            old(self).op_state is Writing && !old(self).registers.intr_state.op_error && old(self).registers.intr_state.op_done && old(self).write_index >= PAGE_SIZE ==> ev is Some,
            ev is None && old(self).op_state is Reading && !old(self).registers.intr_state.op_error && old(self).registers.intr_state.rd_lvl ==> final(self).read_index == old(self).read_index + 4 * old(self).registers.rd_fifo@.len(),
            ev is None && old(self).op_state is Writing && !old(self).registers.intr_state.op_error && old(self).registers.intr_state.prog_empty && old(self).write_index < PAGE_SIZE ==> final(self).write_index > old(self).write_index || final(self).registers.intr_state.op_error,
            // while no event arrives the held buffers stay held: the write
            // buffer untouched, the read buffer with everything outside the
            // freshly drained window preserved
            ev is None && old(self).op_state is Writing ==> final(self).write_buf == old(self).write_buf,
            ev is None && old(self).op_state is Reading ==> final(self).read_buf is Some && final(self).read_index >= old(self).read_index && forall|i: int|
                0 <= i < PAGE_SIZE && !(old(self).read_index <= i < final(self).read_index)
                    ==> final(self).read_buf.unwrap()@[i] == old(self).read_buf.unwrap()@[i],
            // a completion surrenders the very buffer the request supplied
            ev matches Some(FlashEvent::WriteComplete(page, _)) ==> Some(page) == old(self).write_buf,
            ev matches Some(FlashEvent::ReadComplete(page, e)) ==> (e is CommandComplete || Some(
                page,
            ) == old(self).read_buf),
            // interrupts are re-armed whenever the operation continues
            ev is None && old(self).op_state is Reading && (old(self).registers.intr_state.rd_lvl
                || old(self).registers.intr_state.op_done) ==> final(self).registers.intr_enable
                == Self::armed_interrupts(),
            ev is None && old(self).op_state is Writing && (old(self).registers.intr_state.prog_empty || old(self).registers.intr_state.op_done) ==> final(self).registers.intr_enable == Self::armed_interrupts(),
            // no early completion: while data is pending and no error or
            // FIFO service is due, the operation stays in flight
            old(self).op_state is Reading && !old(self).registers.intr_state.op_error && !old(self).registers.intr_state.rd_lvl && old(self).read_index < PAGE_SIZE ==> ev is None,
            old(self).op_state is Writing && !old(self).registers.intr_state.op_error && !old(self).registers.intr_state.prog_empty && old(self).write_index < PAGE_SIZE ==> ev is None,
            ev matches Some(FlashEvent::ReadComplete(page, e)) ==> {
                &&& old(self).op_state is Reading
                &&& page.wf()
                &&& e == Self::completion_error(*old(self))
                &&& e is CommandComplete ==> page@ == old(self).registers.mem@.subrange(
                    old(self).op_base(),
                    old(self).op_base() + PAGE_SIZE,
                )
            },
            ev matches Some(FlashEvent::WriteComplete(page, e)) ==> {
                &&& old(self).op_state is Writing
                &&& page.wf()
                &&& e == Self::completion_error(*old(self))
                &&& e is CommandComplete ==> final(self).registers.mem@.subrange(
                    old(self).op_base(),
                    old(self).op_base() + PAGE_SIZE,
                ) == page@
            },
            ev matches Some(FlashEvent::EraseComplete(e)) ==> {
                &&& old(self).op_state is Erasing
                &&& e == Self::completion_error(*old(self))
                &&& e is CommandComplete ==> forall|i: int|
                    old(self).op_base() <= i < old(self).op_base() + PAGE_SIZE ==> final(self).registers.mem@[i] == 0xFFu8
            },
    {
        let irqs = self.registers.intr_state;
        self.disable_interrupts();
        if irqs.op_error {
            self.registers.op_status = OpStatus { done: false, err: false };
            let mp_fault = self.registers.fault_mp;
            self.registers.fault_mp = false;
            let err = if mp_fault {
                Error::FlashMPError
            } else {
                Error::FlashError
            };
            match self.op_state {
                OperationState::Reading => {
                    let buf = self.read_buf.take();
                    self.op_state = OperationState::Idle;
                    return Some(FlashEvent::ReadComplete(buf.unwrap(), err));
                },
                OperationState::Writing => {
                    let buf = self.write_buf.take();
                    self.op_state = OperationState::Idle;
                    return Some(FlashEvent::WriteComplete(buf.unwrap(), err));
                },
                OperationState::Erasing => {
                    self.op_state = OperationState::Idle;
                    return Some(FlashEvent::EraseComplete(err));
                },
                OperationState::Idle => {},
            }
        }
        if irqs.rd_lvl && matches!(self.op_state, OperationState::Reading) {
            self.drain_read_fifo();
            self.enable_interrupts();
        }
        if irqs.prog_empty && matches!(self.op_state, OperationState::Writing) {
            if self.write_index < PAGE_SIZE {
                self.issue_next_prog_run();
            }
            self.enable_interrupts();
        }
        if irqs.op_done {
            match self.op_state {
                OperationState::Reading => {
                    if self.read_index >= PAGE_SIZE {
                        self.registers.op_status = OpStatus { done: false, err: false };
                        let buf = self.read_buf.take();
                        self.op_state = OperationState::Idle;
                        proof {
                            assert(buf.unwrap()@ =~= old(self).registers.mem@.subrange(
                                old(self).op_base(),
                                old(self).op_base() + PAGE_SIZE,
                            ));
                        }
                        return Some(
                            FlashEvent::ReadComplete(buf.unwrap(), Error::CommandComplete),
                        );
                    }
                    // Still waiting on data; keep listening.
                    self.enable_interrupts();
                },
                OperationState::Writing => {
                    if self.write_index >= PAGE_SIZE && !self.registers.intr_state.op_error {
                        self.registers.op_status = OpStatus { done: false, err: false };
                        let buf = self.write_buf.take();
                        self.op_state = OperationState::Idle;
                        proof {
                            assert(final(self).registers.mem@.subrange(
                                old(self).op_base(),
                                old(self).op_base() + PAGE_SIZE,
                            ) =~= buf.unwrap()@);
                        }
                        return Some(
                            FlashEvent::WriteComplete(buf.unwrap(), Error::CommandComplete),
                        );
                    }
                    // Still pushing data; keep listening.
                    self.enable_interrupts();
                },
                OperationState::Erasing => {
                    self.op_state = OperationState::Idle;
                    return Some(FlashEvent::EraseComplete(Error::CommandComplete));
                },
                OperationState::Idle => {},
            }
        }
        None
    }

    /// Whether any enabled interrupt line is pending, for the integration
    /// loop that decides when to run the handler.
    pub fn has_pending_interrupt(&self) -> (b: bool)
        ensures
            b == {
                let st = self.registers.intr_state;
                let en = self.registers.intr_enable;
                (st.prog_empty && en.prog_empty) || (st.prog_lvl && en.prog_lvl) || (st.rd_full
                    && en.rd_full) || (st.rd_lvl && en.rd_lvl) || (st.op_done && en.op_done) || (
                st.op_error && en.op_error)
            },
    {
        let st = self.registers.intr_state;
        let en = self.registers.intr_enable;
        (st.prog_empty && en.prog_empty) || (st.prog_lvl && en.prog_lvl) || (st.rd_full
            && en.rd_full) || (st.rd_lvl && en.rd_lvl) || (st.op_done && en.op_done) || (st.op_error
            && en.op_error)
    }

    /// The region permission register value for a basic permission pair:
    /// the region enabled, read and program as requested, everything else
    /// off.
    pub open spec fn basic_region_cfg(perms: crate::hil::FlashMPBasicConfig) -> MpRegionCfg {
        MpRegionCfg {
            en: MUBI_SET,
            rd_en: if perms.read_en {
                MUBI_SET
            } else {
                MUBI_CLEAR
            },
            prog_en: if perms.write_en {
                MUBI_SET
            } else {
                MUBI_CLEAR
            },
            erase_en: MUBI_CLEAR,
            scramble_en: MUBI_CLEAR,
            ecc_en: MUBI_CLEAR,
            he_en: MUBI_CLEAR,
        }
    }

    /// The region permission register value for an advanced permission set.
    pub open spec fn adv_region_cfg(perms: crate::hil::FlashMPAdvConfig) -> MpRegionCfg {
        MpRegionCfg {
            en: MUBI_SET,
            rd_en: if perms.read_en {
                MUBI_SET
            } else {
                MUBI_CLEAR
            },
            prog_en: if perms.write_en {
                MUBI_SET
            } else {
                MUBI_CLEAR
            },
            erase_en: if perms.erase_en {
                MUBI_SET
            } else {
                MUBI_CLEAR
            },
            scramble_en: if perms.scramble_en {
                MUBI_SET
            } else {
                MUBI_CLEAR
            },
            ecc_en: if perms.ecc_en {
                MUBI_SET
            } else {
                MUBI_CLEAR
            },
            he_en: if perms.he_en {
                MUBI_SET
            } else {
                MUBI_CLEAR
            },
        }
    }

    /// The arguments of a region configuration request are acceptable: the
    /// base page exists, the range stays inside the flash, and the region
    /// index exists.
    pub open spec fn region_args_ok(page_number: usize, num_pages: usize, region_num: usize) -> bool {
        &&& page_number < FLASH_MAX_PAGES
        &&& num_pages <= FLASH_MAX_PAGES - page_number
        &&& region_num < FLASH_MP_MAX_CFGS
    }

    /// Validates a region configuration request and programs the region's
    /// range and permission register with `cfg`. Shared by the basic and the
    /// advanced entry point.
    fn apply_region_cfg(
        &mut self,
        page_number: usize,
        num_pages: usize,
        region_num: usize,
        cfg: MpRegionCfg,
    ) -> (r: Result<(), ErrorCode>)
        requires
            old(self).inv(),
            cfg.wf(),
        ensures
            final(self).inv(),
            page_number >= FLASH_MAX_PAGES ==> r == Err::<(), ErrorCode>(ErrorCode::NOSUPPORT)
                && *final(self) == *old(self),
            page_number < FLASH_MAX_PAGES && num_pages > FLASH_MAX_PAGES - page_number ==> r
                == Err::<(), ErrorCode>(ErrorCode::INVAL) && *final(self) == *old(self),
            page_number < FLASH_MAX_PAGES && num_pages <= FLASH_MAX_PAGES - page_number
                && region_num >= FLASH_MP_MAX_CFGS ==> r == Err::<(), ErrorCode>(
                ErrorCode::NOSUPPORT,
            ) && *final(self) == *old(self),
            Self::region_args_ok(page_number, num_pages, region_num) ==> {
                &&& r is Ok
                &&& *final(self) == (FlashCtrl { registers: final(self).registers, ..*old(self) })
                &&& old(self).registers.region_cfg_regwen@[region_num as int] ==> final(self).registers == (FlashCtrlRegisters {
                    mp_region_cfg: final(self).registers.mp_region_cfg,
                    mp_region: final(self).registers.mp_region,
                    ..old(self).registers
                }) && final(self).registers.mp_region_cfg@
                    == old(self).registers.mp_region_cfg@.update(region_num as int, cfg) && final(self).registers.mp_region@ == old(self).registers.mp_region@.update(
                    region_num as int,
                    (MpRegionBounds { base: page_number as u32, size: num_pages as u32 }),
                )
                &&& !old(self).registers.region_cfg_regwen@[region_num as int] ==> final(self).registers == old(self).registers
            },
    {
        // The hardware cannot represent a base page outside the flash.
        if page_number >= FLASH_MAX_PAGES {
            return Err(ErrorCode::NOSUPPORT);
        }
        // The range must stay inside the pages that remain from the base.
        if num_pages > FLASH_MAX_PAGES - page_number {
            return Err(ErrorCode::INVAL);
        }
        if region_num >= FLASH_MP_MAX_CFGS {
            return Err(ErrorCode::NOSUPPORT);
        }
        // Program the permission bits with the region disabled, then the
        // range, then enable the region.
        let disabled = MpRegionCfg { en: MUBI_CLEAR, ..cfg };
        self.registers.write_mp_region_cfg(region_num, disabled);
        self.registers.write_mp_region_bounds(
            region_num,
            MpRegionBounds { base: page_number as u32, size: num_pages as u32 },
        );
        self.registers.write_mp_region_cfg(region_num, cfg);
        proof {
            if old(self).registers.region_cfg_regwen@[region_num as int] {
                assert(self.registers.mp_region_cfg@ =~= old(self).registers.mp_region_cfg@.update(region_num as int, cfg));
            }
        }
        Ok(())
    }

    /// Configures and enables basic read/program permissions over the pages
    /// `page_number..page_number + num_pages`, held in region `region_num`.
    ///
    /// Rejected with `NOSUPPORT` for a base page or region index the
    /// hardware does not have, and with `INVAL` for a range that runs past
    /// the end of the flash; a rejected request changes nothing. A region
    /// whose configuration is locked takes no new values, though the
    /// request itself succeeds, as the hardware ignores the write.
    pub fn set_region_perms(
        &mut self,
        page_number: usize,
        num_pages: usize,
        region_num: usize,
        mp_perms: &crate::hil::FlashMPBasicConfig,
    ) -> (r: Result<(), ErrorCode>)
        requires
            old(self).inv(),
        ensures
            final(self).inv(),
            page_number >= FLASH_MAX_PAGES ==> r == Err::<(), ErrorCode>(ErrorCode::NOSUPPORT)
                && *final(self) == *old(self),
            page_number < FLASH_MAX_PAGES && num_pages > FLASH_MAX_PAGES - page_number ==> r
                == Err::<(), ErrorCode>(ErrorCode::INVAL) && *final(self) == *old(self),
            page_number < FLASH_MAX_PAGES && num_pages <= FLASH_MAX_PAGES - page_number
                && region_num >= FLASH_MP_MAX_CFGS ==> r == Err::<(), ErrorCode>(
                ErrorCode::NOSUPPORT,
            ) && *final(self) == *old(self),
            Self::region_args_ok(page_number, num_pages, region_num) ==> {
                &&& r is Ok
                &&& *final(self) == (FlashCtrl { registers: final(self).registers, ..*old(self) })
                &&& old(self).registers.region_cfg_regwen@[region_num as int] ==> final(self).registers == (FlashCtrlRegisters {
                    mp_region_cfg: final(self).registers.mp_region_cfg,
                    mp_region: final(self).registers.mp_region,
                    ..old(self).registers
                }) && final(self).registers.mp_region_cfg@
                    == old(self).registers.mp_region_cfg@.update(
                    region_num as int,
                    Self::basic_region_cfg(*mp_perms),
                ) && final(self).registers.mp_region@ == old(self).registers.mp_region@.update(
                    region_num as int,
                    (MpRegionBounds { base: page_number as u32, size: num_pages as u32 }),
                )
                &&& !old(self).registers.region_cfg_regwen@[region_num as int] ==> final(self).registers == old(self).registers
            },
    {
        let cfg = MpRegionCfg {
            en: MUBI_SET,
            rd_en: mubi_of_bool(mp_perms.read_en),
            prog_en: mubi_of_bool(mp_perms.write_en),
            erase_en: MUBI_CLEAR,
            scramble_en: MUBI_CLEAR,
            ecc_en: MUBI_CLEAR,
            he_en: MUBI_CLEAR,
        };
        self.apply_region_cfg(page_number, num_pages, region_num, cfg)
    }

    /// Configures and enables the full advanced permission set over the
    /// pages `page_number..page_number + num_pages`, held in region
    /// `region_num`, under the same acceptance rules as
    /// [`Self::set_region_perms`].
    pub fn set_adv_region_perms(
        &mut self,
        page_number: usize,
        num_pages: usize,
        region_num: usize,
        mp_perms: &crate::hil::FlashMPAdvConfig,
    ) -> (r: Result<(), ErrorCode>)
        requires
            old(self).inv(),
        ensures
            final(self).inv(),
            page_number >= FLASH_MAX_PAGES ==> r == Err::<(), ErrorCode>(ErrorCode::NOSUPPORT)
                && *final(self) == *old(self),
            page_number < FLASH_MAX_PAGES && num_pages > FLASH_MAX_PAGES - page_number ==> r
                == Err::<(), ErrorCode>(ErrorCode::INVAL) && *final(self) == *old(self),
            page_number < FLASH_MAX_PAGES && num_pages <= FLASH_MAX_PAGES - page_number
                && region_num >= FLASH_MP_MAX_CFGS ==> r == Err::<(), ErrorCode>(
                ErrorCode::NOSUPPORT,
            ) && *final(self) == *old(self),
            Self::region_args_ok(page_number, num_pages, region_num) ==> {
                &&& r is Ok
                &&& *final(self) == (FlashCtrl { registers: final(self).registers, ..*old(self) })
                &&& old(self).registers.region_cfg_regwen@[region_num as int] ==> final(self).registers == (FlashCtrlRegisters {
                    mp_region_cfg: final(self).registers.mp_region_cfg,
                    mp_region: final(self).registers.mp_region,
                    ..old(self).registers
                }) && final(self).registers.mp_region_cfg@
                    == old(self).registers.mp_region_cfg@.update(
                    region_num as int,
                    Self::adv_region_cfg(*mp_perms),
                ) && final(self).registers.mp_region@ == old(self).registers.mp_region@.update(
                    region_num as int,
                    (MpRegionBounds { base: page_number as u32, size: num_pages as u32 }),
                )
                &&& !old(self).registers.region_cfg_regwen@[region_num as int] ==> final(self).registers == old(self).registers
            },
    {
        let cfg = MpRegionCfg {
            en: MUBI_SET,
            rd_en: mubi_of_bool(mp_perms.read_en),
            prog_en: mubi_of_bool(mp_perms.write_en),
            erase_en: mubi_of_bool(mp_perms.erase_en),
            scramble_en: mubi_of_bool(mp_perms.scramble_en),
            ecc_en: mubi_of_bool(mp_perms.ecc_en),
            he_en: mubi_of_bool(mp_perms.he_en),
        };
        self.apply_region_cfg(page_number, num_pages, region_num, cfg)
    }

    /// Reads back the basic read/program permissions of region
    /// `region_num`, translating the hardware encoding to booleans;
    /// `NOSUPPORT` for a region index the hardware does not have.
    pub fn read_region_perms(&self, region_num: usize) -> (r: Result<
        crate::hil::FlashMPBasicConfig,
        ErrorCode,
    >)
        requires
            self.inv(),
        ensures
            region_num < FLASH_MP_MAX_CFGS ==> r == Ok::<crate::hil::FlashMPBasicConfig, ErrorCode>(
                crate::hil::FlashMPBasicConfig {
                    read_en: self.registers.mp_region_cfg@[region_num as int].rd_en == MUBI_SET,
                    write_en: self.registers.mp_region_cfg@[region_num as int].prog_en == MUBI_SET,
                },
            ),
            region_num >= FLASH_MP_MAX_CFGS ==> r == Err::<
                crate::hil::FlashMPBasicConfig,
                ErrorCode,
            >(ErrorCode::NOSUPPORT),
    {
        if region_num >= FLASH_MP_MAX_CFGS {
            return Err(ErrorCode::NOSUPPORT);
        }
        let cfg = self.registers.mp_region_cfg[region_num];
        Ok(
            crate::hil::FlashMPBasicConfig {
                read_en: crate::flash_regs::bool_of_mubi(cfg.rd_en),
                write_en: crate::flash_regs::bool_of_mubi(cfg.prog_en),
            },
        )
    }

    /// Reads back the advanced permissions of region `region_num`,
    /// translating the hardware encoding to booleans; `NOSUPPORT` for a
    /// region index the hardware does not have.
    pub fn read_adv_region_perms(&self, region_num: usize) -> (r: Result<
        crate::hil::FlashMPAdvConfig,
        ErrorCode,
    >)
        requires
            self.inv(),
        ensures
            region_num < FLASH_MP_MAX_CFGS ==> r == Ok::<crate::hil::FlashMPAdvConfig, ErrorCode>(
                crate::hil::FlashMPAdvConfig {
                    read_en: self.registers.mp_region_cfg@[region_num as int].rd_en == MUBI_SET,
                    write_en: self.registers.mp_region_cfg@[region_num as int].prog_en == MUBI_SET,
                    erase_en: self.registers.mp_region_cfg@[region_num as int].erase_en == MUBI_SET,
                    scramble_en: self.registers.mp_region_cfg@[region_num as int].scramble_en
                        == MUBI_SET,
                    ecc_en: self.registers.mp_region_cfg@[region_num as int].ecc_en == MUBI_SET,
                    he_en: self.registers.mp_region_cfg@[region_num as int].he_en == MUBI_SET,
                },
            ),
            region_num >= FLASH_MP_MAX_CFGS ==> r == Err::<crate::hil::FlashMPAdvConfig, ErrorCode>(
                ErrorCode::NOSUPPORT,
            ),
    {
        if region_num >= FLASH_MP_MAX_CFGS {
            return Err(ErrorCode::NOSUPPORT);
        }
        let cfg = self.registers.mp_region_cfg[region_num];
        Ok(
            crate::hil::FlashMPAdvConfig {
                read_en: crate::flash_regs::bool_of_mubi(cfg.rd_en),
                write_en: crate::flash_regs::bool_of_mubi(cfg.prog_en),
                erase_en: crate::flash_regs::bool_of_mubi(cfg.erase_en),
                scramble_en: crate::flash_regs::bool_of_mubi(cfg.scramble_en),
                ecc_en: crate::flash_regs::bool_of_mubi(cfg.ecc_en),
                he_en: crate::flash_regs::bool_of_mubi(cfg.he_en),
            },
        )
    }

    /// Number of configuration regions the hardware offers.
    pub fn get_num_regions(&self) -> (r: Result<u32, ErrorCode>)
        ensures
            r == Ok::<u32, ErrorCode>(FLASH_MP_MAX_CFGS as u32),
    {
        Ok(FLASH_MP_MAX_CFGS as u32)
    }

    /// Whether region `region_num`'s configuration is locked; `NOSUPPORT`
    /// for a region index the hardware does not have.
    pub fn is_region_locked(&self, region_num: usize) -> (r: Result<bool, ErrorCode>)
        requires
            self.inv(),
        ensures
            region_num < FLASH_MP_MAX_CFGS ==> r == Ok::<bool, ErrorCode>(
                !self.registers.region_cfg_regwen@[region_num as int],
            ),
            region_num >= FLASH_MP_MAX_CFGS ==> r == Err::<bool, ErrorCode>(ErrorCode::NOSUPPORT),
    {
        if region_num >= FLASH_MP_MAX_CFGS {
            return Err(ErrorCode::NOSUPPORT);
        }
        Ok(!self.registers.region_cfg_regwen[region_num])
    }

    /// Locks region `region_num`'s configuration until the next system
    /// reset: later writes to its range and permissions are ignored.
    /// `NOSUPPORT` for a region index the hardware does not have.
    pub fn lock_region_cfg(&mut self, region_num: usize) -> (r: Result<(), ErrorCode>)
        requires
            old(self).inv(),
        ensures
            final(self).inv(),
            region_num >= FLASH_MP_MAX_CFGS ==> r == Err::<(), ErrorCode>(ErrorCode::NOSUPPORT)
                && *final(self) == *old(self),
            region_num < FLASH_MP_MAX_CFGS ==> {
                &&& r is Ok
                &&& *final(self) == (FlashCtrl { registers: final(self).registers, ..*old(self) })
                &&& final(self).registers == (FlashCtrlRegisters {
                    region_cfg_regwen: final(self).registers.region_cfg_regwen,
                    ..old(self).registers
                })
                &&& final(self).registers.region_cfg_regwen@
                    == old(self).registers.region_cfg_regwen@.update(region_num as int, false)
            },
    {
        if region_num >= FLASH_MP_MAX_CFGS {
            return Err(ErrorCode::NOSUPPORT);
        }
        self.registers.lock_region_cfg_regwen(region_num);
        Ok(())
    }
}

/// Law: writing a page and then reading the same page back yields
/// byte-identical content. A completed write leaves the flash array holding
/// the written buffer at the page, and a completed read returns the array's
/// bytes for the page, so the read returns the written bytes.
pub proof fn lemma_write_read_round_trip(
    mem: Seq<u8>,
    written: Seq<u8>,
    read_back: Seq<u8>,
    page: int,
)
    requires
        0 <= page < FLASH_MAX_PAGES,
        mem.len() == FLASH_MEM_BYTES,
        mem.subrange(page * PAGE_SIZE, page * PAGE_SIZE + PAGE_SIZE) == written,
        read_back == mem.subrange(page * PAGE_SIZE, page * PAGE_SIZE + PAGE_SIZE),
    ensures
        read_back == written,
{
}

/// Law: after erasing a page every byte of it reads `0xFF` whatever it held
/// before, and erasing the page again changes nothing.
pub proof fn lemma_erase_idempotent(mem: Seq<u8>, page: int)
    requires
        0 <= page < FLASH_MAX_PAGES,
        mem.len() == FLASH_MEM_BYTES,
    ensures
        forall|i: int|
            page * PAGE_SIZE <= i < (page + 1) * PAGE_SIZE ==> erased_mem(mem, page)[i] == 0xFFu8,
        erased_mem(erased_mem(mem, page), page) == erased_mem(mem, page),
{
    assert(erased_mem(erased_mem(mem, page), page) =~= erased_mem(mem, page));
}

/// Law: one program run stays inside its programming window, and a transfer
/// that straddles a window boundary cannot finish in a single run - at
/// least two hardware commands are needed.
pub proof fn lemma_write_window_chunking(word_addr: u32, rem_bytes: u32)
    requires
        rem_bytes % 4 == 0,
    ensures
        word_addr as int % (FLASH_PROG_WINDOW_SIZE as int) + FlashCtrl::spec_max_prog_len(
            word_addr,
            rem_bytes,
        ) <= FLASH_PROG_WINDOW_SIZE,
        4 * (word_addr as int % (FLASH_PROG_WINDOW_SIZE as int)) + rem_bytes > 4
            * FLASH_PROG_WINDOW_SIZE ==> 4 * FlashCtrl::spec_max_prog_len(word_addr, rem_bytes)
            < rem_bytes,
{
}

/// Law: the region that governs a page is the lowest-numbered enabled
/// region covering it: if region `r` covers the page and no lower region
/// does, `r` is selected.
pub proof fn lemma_selected_region_lowest(
    cfgs: Seq<MpRegionCfg>,
    bounds: Seq<MpRegionBounds>,
    page: int,
    r: int,
)
    requires
        0 <= r < FLASH_MP_MAX_CFGS,
        crate::flash_regs::spec_region_matches(cfgs, bounds, r, page),
        forall|q: int| 0 <= q < r ==> !crate::flash_regs::spec_region_matches(cfgs, bounds, q, page),
    ensures
        crate::flash_regs::spec_selected_region(cfgs, bounds, page) == Some(r),
{
    lemma_selected_region_lowest_from(cfgs, bounds, page, r, 0);
}

/// Helper induction for [`lemma_selected_region_lowest`]: searching upward
/// from any index at or below `r` finds `r`.
proof fn lemma_selected_region_lowest_from(
    cfgs: Seq<MpRegionCfg>,
    bounds: Seq<MpRegionBounds>,
    page: int,
    r: int,
    from: int,
)
    requires
        0 <= from <= r < FLASH_MP_MAX_CFGS,
        crate::flash_regs::spec_region_matches(cfgs, bounds, r, page),
        forall|q: int| 0 <= q < r ==> !crate::flash_regs::spec_region_matches(cfgs, bounds, q, page),
    ensures
        crate::flash_regs::spec_selected_region_from(cfgs, bounds, page, from) == Some(r),
    decreases r - from,
{
    if from < r {
        lemma_selected_region_lowest_from(cfgs, bounds, page, r, from + 1);
    }
}

/// Law: a page governed by a region whose read permission is withdrawn is
/// denied reading, whatever the default permissions say; and likewise for
/// erase. A read or erase of such a page is accepted, and completes
/// through the interrupt handler with `FlashMPError`.
pub proof fn lemma_region_denies_access(regs: FlashCtrlRegisters, page: int, r: int)
    requires
        0 <= r < FLASH_MP_MAX_CFGS,
        regs.selected_region(page) == Some(r),
    ensures
        regs.mp_region_cfg@[r].rd_en != MUBI_SET ==> !regs.read_allowed(page),
        regs.mp_region_cfg@[r].prog_en != MUBI_SET ==> !regs.prog_allowed(page),
        regs.mp_region_cfg@[r].erase_en != MUBI_SET ==> !regs.erase_allowed(page),
{
}

/// A flash controller bound to the client that takes its completions, as a
/// board wires it: every event the interrupt handler reports goes straight
/// to the client's matching callback.
pub struct FlashDevice<C: crate::hil::Client<FlashCtrl>> {
    /// The controller itself.
    pub ctrl: FlashCtrl,
    /// The bound client, once one has been set.
    pub client: Option<C>,
}

impl<C: crate::hil::Client<FlashCtrl>> FlashDevice<C> {
    /// Well-formedness of the bound device.
    pub open spec fn inv(&self) -> bool {
        self.ctrl.inv()
    }

    /// A device around the given controller, with no client bound yet.
    pub fn new(ctrl: FlashCtrl) -> (d: Self)
        requires
            ctrl.inv(),
        ensures
            d.inv(),
            d.ctrl == ctrl,
            d.client is None,
    {
        FlashDevice { ctrl, client: None }
    }

    /// Services the controller's interrupts as [`FlashCtrl::handle_interrupt`]
    /// does, and hands any completion event to the bound client's matching
    /// callback - read, write or erase, after the operation that was in
    /// flight. Returns the outcome delivered with that completion, or
    /// `None` when no operation completed.
    pub fn service(&mut self) -> (r: Option<Error>)
        requires
            old(self).inv(),
        ensures
            final(self).inv(),
            final(self).client is Some <==> old(self).client is Some,
            // the completion and its outcome mirror the interrupt handler's
            old(self).ctrl.op_state is Idle ==> r is None && final(self).ctrl.op_state is Idle,
            r is Some ==> final(self).ctrl.op_state is Idle && final(self).ctrl.read_buf is None
                && final(self).ctrl.write_buf is None,
            r is None ==> final(self).ctrl.op_state == old(self).ctrl.op_state,
            r matches Some(e) ==> e == FlashCtrl::completion_error(old(self).ctrl),
            // completions are owed exactly as in the handler
            !(old(self).ctrl.op_state is Idle) && old(self).ctrl.registers.intr_state.op_error
                ==> r is Some,
            old(self).ctrl.op_state is Erasing && old(self).ctrl.registers.intr_state.op_done
                && !old(self).ctrl.registers.intr_state.op_error ==> r is Some,
            old(self).ctrl.op_state is Reading && !old(self).ctrl.registers.intr_state.op_error
                && old(self).ctrl.registers.intr_state.op_done && (old(self).ctrl.registers.intr_state.rd_lvl || old(self).ctrl.read_index >= PAGE_SIZE) ==> r
                is Some,
            old(self).ctrl.op_state is Writing && !old(self).ctrl.registers.intr_state.op_error
                && old(self).ctrl.registers.intr_state.op_done && old(self).ctrl.write_index
                >= PAGE_SIZE ==> r is Some,
            // the configuration and the rest of the array stay untouched
            FlashCtrl::mp_cfg_unchanged(old(self).ctrl.registers, final(self).ctrl.registers),
            final(self).ctrl.registers.mem@.len() == FLASH_MEM_BYTES,
            old(self).ctrl.op_state is Reading || old(self).ctrl.op_state is Erasing || old(self).ctrl.op_state is Idle ==> final(self).ctrl.registers.mem@
                == old(self).ctrl.registers.mem@,
            old(self).ctrl.op_state is Writing ==> forall|i: int|
                0 <= i < FLASH_MEM_BYTES && !(old(self).ctrl.op_base() <= i < old(self).ctrl.op_base() + PAGE_SIZE) ==> final(self).ctrl.registers.mem@[i] == old(self).ctrl.registers.mem@[i],
    {
        let ev = self.ctrl.handle_interrupt();
        match ev {
            Some(event) => {
                let outcome = match &event {
                    FlashEvent::ReadComplete(_, e) => *e,
                    FlashEvent::WriteComplete(_, e) => *e,
                    FlashEvent::EraseComplete(e) => *e,
                };
                match &mut self.client {
                    Some(c) => deliver_event(c, event),
                    None => {},
                }
                Some(outcome)
            },
            None => None,
        }
    }
}

impl<C: crate::hil::Client<FlashCtrl>> crate::hil::HasClient<C> for FlashDevice<C> {
    /// The client currently bound, if any.
    open spec fn spec_client(&self) -> Option<C> {
        self.client
    }

    fn set_client(&mut self, client: C) {
        self.client = Some(client);
    }
}

/// Hands a completion event to a flash client, invoking the matching
/// callback once with the event's buffer and outcome.
pub fn deliver_event<C: crate::hil::Client<FlashCtrl>>(client: &mut C, event: FlashEvent) {
    match event {
        FlashEvent::ReadComplete(page, e) => client.read_complete(page, e),
        FlashEvent::WriteComplete(page, e) => client.write_complete(page, e),
        FlashEvent::EraseComplete(e) => client.erase_complete(e),
    }
}

impl crate::hil::Flash for FlashCtrl {
    type Page = LowRiscPage;

    open spec fn flash_inv(&self) -> bool {
        self.inv()
    }

    open spec fn page_wf(p: &LowRiscPage) -> bool {
        p.wf()
    }

    open spec fn num_pages(&self) -> int {
        FLASH_MAX_PAGES as int
    }

    fn read_page(&mut self, page_number: usize, buf: LowRiscPage) -> (r: Result<
        (),
        (ErrorCode, LowRiscPage),
    >) {
        FlashCtrl::read_page(self, page_number, buf)
    }

    fn write_page(&mut self, page_number: usize, buf: LowRiscPage) -> (r: Result<
        (),
        (ErrorCode, LowRiscPage),
    >) {
        FlashCtrl::write_page(self, page_number, buf)
    }

    fn erase_page(&mut self, page_number: usize) -> (r: Result<(), ErrorCode>) {
        FlashCtrl::erase_page(self, page_number)
    }
}

impl crate::hil::FlashMemoryProtection for FlashCtrl {
    fn set_region_perms(
        &mut self,
        page_number: usize,
        num_pages: usize,
        region_num: usize,
        mp_perms: &crate::hil::FlashMPBasicConfig,
    ) -> (r: Result<(), ErrorCode>) {
        FlashCtrl::set_region_perms(self, page_number, num_pages, region_num, mp_perms)
    }

    fn read_region_perms(&self, region_num: usize) -> (r: Result<
        crate::hil::FlashMPBasicConfig,
        ErrorCode,
    >) {
        FlashCtrl::read_region_perms(self, region_num)
    }

    fn get_num_regions(&self) -> (r: Result<u32, ErrorCode>) {
        FlashCtrl::get_num_regions(self)
    }

    fn is_region_locked(&self, region_num: usize) -> (r: Result<bool, ErrorCode>) {
        FlashCtrl::is_region_locked(self, region_num)
    }

    fn lock_region_cfg(&mut self, region_num: usize) -> (r: Result<(), ErrorCode>) {
        FlashCtrl::lock_region_cfg(self, region_num)
    }
}

impl crate::hil::FlashMemoryProtectionAdvanced for FlashCtrl {
    fn set_adv_region_perms(
        &mut self,
        page_number: usize,
        num_pages: usize,
        region_num: usize,
        mp_perms: &crate::hil::FlashMPAdvConfig,
    ) -> (r: Result<(), ErrorCode>) {
        FlashCtrl::set_adv_region_perms(self, page_number, num_pages, region_num, mp_perms)
    }

    fn read_adv_region_perms(&self, region_num: usize) -> (r: Result<
        crate::hil::FlashMPAdvConfig,
        ErrorCode,
    >) {
        FlashCtrl::read_adv_region_perms(self, region_num)
    }
}

} // verus!
