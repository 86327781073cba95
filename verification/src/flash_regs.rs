//! Register-level model of the flash controller hardware block.
//!
//! The driver in [`crate::flash_ctrl`] is written against this model instead
//! of a memory-mapped register block: every register the driver touches is a
//! plain field here, and the block's reaction to a command - permission
//! checking, FIFO filling and draining, page erasure - is an ordinary
//! function with a contract. The model owns the flash array itself, so the
//! contracts can say exactly which bytes a command moves.

use vstd::prelude::*;

verus! {

/// Size of one flash page in bytes; the granularity of read, program and
/// erase operations.
pub const PAGE_SIZE: usize = 2048;

/// Size of one flash word in bytes.
pub const FLASH_WORD_SIZE: usize = 8;

/// Number of pages in each of the two flash banks.
pub const FLASH_PAGES_PER_BANK: usize = 256;

/// Number of flash banks.
pub const FLASH_NUM_BANKS: usize = 2;

/// Total number of pages the controller addresses.
pub const FLASH_MAX_PAGES: usize = FLASH_PAGES_PER_BANK * FLASH_NUM_BANKS;

/// Total number of bytes in the flash array.
pub const FLASH_MEM_BYTES: usize = FLASH_MAX_PAGES * PAGE_SIZE;

/// The programming window size in bus words (32 bit): a single program
/// command must not cross a boundary at this alignment.
pub const FLASH_PROG_WINDOW_SIZE: usize = 16;

/// Mask that rounds a word address down to its programming window.
pub const FLASH_PROG_WINDOW_MASK: u32 = 0xFFFFFFF0;

/// Number of memory-protection configuration regions.
pub const FLASH_MP_MAX_CFGS: usize = 8;

/// Number of info-partition pages with their own configuration register in
/// each bank.
pub const FLASH_INFO_PAGES_PER_BANK: usize = 10;

/// Depth of the read FIFO in bus words.
pub const RD_FIFO_DEPTH: usize = 16;

/// Multi-bit sentinel the hardware takes as "enabled" in permission fields.
pub const MUBI_SET: u8 = 0x6;

/// Multi-bit sentinel the hardware takes as "disabled" in permission fields.
pub const MUBI_CLEAR: u8 = 0x9;

/// A permission field is meaningful to the hardware only as one of the two
/// sentinels.
pub open spec fn mubi_valid(v: u8) -> bool {
    v == MUBI_SET || v == MUBI_CLEAR
}

/// Translates a boolean permission into the hardware's set/clear encoding.
pub fn mubi_of_bool(b: bool) -> (v: u8)
    ensures
        mubi_valid(v),
        b <==> v == MUBI_SET,
{
    if b {
        MUBI_SET
    } else {
        MUBI_CLEAR
    }
}

/// Translates the hardware's set/clear encoding back into a boolean.
pub fn bool_of_mubi(v: u8) -> (b: bool)
    ensures
        b <==> v == MUBI_SET,
{
    v == MUBI_SET
}

/// The little-endian bus word formed from four consecutive bytes.
pub open spec fn word_from_bytes(b0: u8, b1: u8, b2: u8, b3: u8) -> u32 {
    (b0 as u32) | ((b1 as u32) << 8) | ((b2 as u32) << 16) | ((b3 as u32) << 24)
}

/// The bus word stored at byte address `a` of the flash array.
pub open spec fn mem_word(mem: Seq<u8>, a: int) -> u32
    recommends
        0 <= a,
        a + 4 <= mem.len(),
{
    word_from_bytes(mem[a], mem[a + 1], mem[a + 2], mem[a + 3])
}

/// Packing four bytes into a word and taking them out again returns the
/// original bytes.
pub proof fn lemma_word_bytes_round_trip(b0: u8, b1: u8, b2: u8, b3: u8)
    ensures
        (word_from_bytes(b0, b1, b2, b3) & 0xff) as u8 == b0,
        ((word_from_bytes(b0, b1, b2, b3) >> 8) & 0xff) as u8 == b1,
        ((word_from_bytes(b0, b1, b2, b3) >> 16) & 0xff) as u8 == b2,
        ((word_from_bytes(b0, b1, b2, b3) >> 24) & 0xff) as u8 == b3,
{
    assert((((b0 as u32) | ((b1 as u32) << 8) | ((b2 as u32) << 16) | ((b3 as u32) << 24)) & 0xff)
        as u8 == b0) by (bit_vector);
    assert(((((b0 as u32) | ((b1 as u32) << 8) | ((b2 as u32) << 16) | ((b3 as u32) << 24)) >> 8)
        & 0xff) as u8 == b1) by (bit_vector);
    assert(((((b0 as u32) | ((b1 as u32) << 8) | ((b2 as u32) << 16) | ((b3 as u32) << 24)) >> 16)
        & 0xff) as u8 == b2) by (bit_vector);
    assert(((((b0 as u32) | ((b1 as u32) << 8) | ((b2 as u32) << 16) | ((b3 as u32) << 24)) >> 24)
        & 0xff) as u8 == b3) by (bit_vector);
}

/// The interrupt state and enable registers, one flag per interrupt line.
#[derive(Clone, Copy, Debug, PartialEq, Eq, Structural)]
pub struct IntrBits {
    /// The program FIFO has drained.
    pub prog_empty: bool,
    /// The program FIFO reached its configured level.
    pub prog_lvl: bool,
    /// The read FIFO is full.
    pub rd_full: bool,
    /// The read FIFO reached its configured level.
    pub rd_lvl: bool,
    /// The current command finished.
    pub op_done: bool,
    /// The current command failed.
    pub op_error: bool,
}

impl IntrBits {
    /// The value of the interrupt registers with every line deasserted.
    pub fn none() -> (r: IntrBits)
        ensures
            r == IntrBits::spec_none(),
    {
        IntrBits {
            prog_empty: false,
            prog_lvl: false,
            rd_full: false,
            rd_lvl: false,
            op_done: false,
            op_error: false,
        }
    }

    /// Spec-level picture of the all-clear interrupt value.
    pub open spec fn spec_none() -> IntrBits {
        IntrBits {
            prog_empty: false,
            prog_lvl: false,
            rd_full: false,
            rd_lvl: false,
            op_done: false,
            op_error: false,
        }
    }
}

/// Operation selector of the control register.
#[derive(Clone, Copy, Debug, PartialEq, Eq, Structural)]
pub enum FlashOp {
    /// Read words from the array into the read FIFO.
    Read,
    /// Program words from the program FIFO into the array.
    Prog,
    /// Erase a page (or, unused by this driver, a bank).
    Erase,
}

/// Erase granularity selector of the control register.
#[derive(Clone, Copy, Debug, PartialEq, Eq, Structural)]
pub enum EraseSel {
    /// Erase the single page holding the command address.
    Page,
    /// Erase the whole bank; held disabled by the driver's safety sequence.
    Bank,
}

/// The command control register.
#[derive(Clone, Copy, Debug, PartialEq, Eq, Structural)]
pub struct ControlReg {
    /// Start the command described by the other fields.
    pub start: bool,
    /// Which operation to run.
    pub op: FlashOp,
    /// Erase granularity.
    pub erase_sel: EraseSel,
    /// Selects the info partition instead of the data partition.
    pub partition_info: bool,
    /// Which info partition type is addressed.
    pub info_sel: u8,
    /// Number of bus words the command moves, minus one.
    pub num: u32,
}

/// One region's permission bits, in the hardware's multi-bit encoding.
#[derive(Clone, Copy, Debug, PartialEq, Eq, Structural)]
pub struct MpRegionCfg {
    /// Region enabled: the region takes part in permission lookup.
    pub en: u8,
    /// Reads allowed inside the region.
    pub rd_en: u8,
    /// Programming allowed inside the region.
    pub prog_en: u8,
    /// Erases allowed inside the region.
    pub erase_en: u8,
    /// Scrambling applied inside the region.
    pub scramble_en: u8,
    /// ECC applied inside the region.
    pub ecc_en: u8,
    /// High-endurance mode applied inside the region.
    pub he_en: u8,
}

impl MpRegionCfg {
    /// All fields hold one of the two hardware sentinels.
    pub open spec fn wf(&self) -> bool {
        &&& mubi_valid(self.en)
        &&& mubi_valid(self.rd_en)
        &&& mubi_valid(self.prog_en)
        &&& mubi_valid(self.erase_en)
        &&& mubi_valid(self.scramble_en)
        &&& mubi_valid(self.ecc_en)
        &&& mubi_valid(self.he_en)
    }
}

/// One region's page range: `size` pages starting at page `base`.
#[derive(Clone, Copy, Debug, PartialEq, Eq, Structural)]
pub struct MpRegionBounds {
    /// First page of the region.
    pub base: u32,
    /// Number of pages in the region.
    pub size: u32,
}

/// Permissions applied to data-partition pages no enabled region covers.
#[derive(Clone, Copy, Debug, PartialEq, Eq, Structural)]
pub struct DefaultRegionCfg {
    /// Reads allowed by default.
    pub rd_en: u8,
    /// Programming allowed by default.
    pub prog_en: u8,
    /// Erases allowed by default.
    pub erase_en: u8,
    /// Scrambling applied by default.
    pub scramble_en: u8,
    /// ECC applied by default.
    pub ecc_en: u8,
    /// High-endurance mode applied by default.
    pub he_en: u8,
}

impl DefaultRegionCfg {
    /// All fields hold one of the two hardware sentinels.
    pub open spec fn wf(&self) -> bool {
        &&& mubi_valid(self.rd_en)
        &&& mubi_valid(self.prog_en)
        &&& mubi_valid(self.erase_en)
        &&& mubi_valid(self.scramble_en)
        &&& mubi_valid(self.ecc_en)
        &&& mubi_valid(self.he_en)
    }
}

/// Per-page configuration of an info-partition page.
#[derive(Clone, Copy, Debug, PartialEq, Eq, Structural)]
pub struct InfoPageCfg {
    /// Page configuration enabled.
    pub en: u8,
    /// Reads allowed.
    pub rd_en: u8,
    /// Programming allowed.
    pub prog_en: u8,
    /// Erases allowed.
    pub erase_en: u8,
    /// Scrambling applied.
    pub scramble_en: u8,
    /// ECC applied.
    pub ecc_en: u8,
    /// High-endurance mode applied.
    pub he_en: u8,
}

impl InfoPageCfg {
    /// All fields hold one of the two hardware sentinels.
    pub open spec fn wf(&self) -> bool {
        &&& mubi_valid(self.en)
        &&& mubi_valid(self.rd_en)
        &&& mubi_valid(self.prog_en)
        &&& mubi_valid(self.erase_en)
        &&& mubi_valid(self.scramble_en)
        &&& mubi_valid(self.ecc_en)
        &&& mubi_valid(self.he_en)
    }
}

/// The operation status register.
#[derive(Clone, Copy, Debug, PartialEq, Eq, Structural)]
pub struct OpStatus {
    /// The last command completed.
    pub done: bool,
    /// The last command failed.
    pub err: bool,
}

/// The FIFO level register: at which fill levels the level interrupts fire.
#[derive(Clone, Copy, Debug, PartialEq, Eq, Structural)]
pub struct FifoLvl {
    /// Program FIFO level at or below which `prog_empty` fires.
    pub prog: u32,
    /// Read FIFO level at or above which `rd_lvl` fires.
    pub rd: u32,
}

/// Bank-level erase enables, one per bank.
#[derive(Clone, Copy, Debug, PartialEq, Eq, Structural)]
pub struct MpBankCfg {
    /// Bank 0 may be erased as a whole.
    pub erase_en_bank0: bool,
    /// Bank 1 may be erased as a whole.
    pub erase_en_bank1: bool,
}

/// The shadowed bank configuration register: a write takes effect only when
/// the same value is written twice in a row.
#[derive(Clone, Copy, Debug, PartialEq, Eq, Structural)]
pub struct ShadowedMpBankCfg {
    /// The committed value the hardware acts on.
    pub committed: MpBankCfg,
    /// A first write awaiting its confirming second write.
    pub staged: Option<MpBankCfg>,
}

/// Region `r` of the given configuration is enabled and covers `page`.
pub open spec fn spec_region_matches(
    cfgs: Seq<MpRegionCfg>,
    bounds: Seq<MpRegionBounds>,
    r: int,
    page: int,
) -> bool {
    &&& cfgs[r].en == MUBI_SET
    &&& bounds[r].base <= page < bounds[r].base + bounds[r].size
}

/// The lowest enabled region at index `r` or above that covers `page`.
pub open spec fn spec_selected_region_from(
    cfgs: Seq<MpRegionCfg>,
    bounds: Seq<MpRegionBounds>,
    page: int,
    r: int,
) -> Option<int>
    decreases FLASH_MP_MAX_CFGS - r,
{
    if r >= FLASH_MP_MAX_CFGS {
        None
    } else if spec_region_matches(cfgs, bounds, r, page) {
        Some(r)
    } else {
        spec_selected_region_from(cfgs, bounds, page, r + 1)
    }
}

/// The region of the given configuration that governs `page`: the
/// lowest-numbered enabled region covering it, if any.
pub open spec fn spec_selected_region(
    cfgs: Seq<MpRegionCfg>,
    bounds: Seq<MpRegionBounds>,
    page: int,
) -> Option<int> {
    spec_selected_region_from(cfgs, bounds, page, 0)
}

/// The flash array after erasing `page`: every byte of that page reads
/// `0xFF`, every other byte is unchanged.
pub open spec fn erased_mem(mem: Seq<u8>, page: int) -> Seq<u8> {
    Seq::new(
        mem.len(),
        |i: int|
            if page * PAGE_SIZE <= i < (page + 1) * PAGE_SIZE {
                0xFFu8
            } else {
                mem[i]
            },
    )
}

/// The flash array after programming word `w` at byte address `a`.
pub open spec fn mem_with_word(mem: Seq<u8>, a: int, w: u32) -> Seq<u8> {
    mem.update(a, (w & 0xff) as u8).update(a + 1, ((w >> 8) & 0xff) as u8).update(
        a + 2,
        ((w >> 16) & 0xff) as u8,
    ).update(a + 3, ((w >> 24) & 0xff) as u8)
}

/// The interrupt value `i` with the error line also asserted.
pub open spec fn with_op_error(i: IntrBits) -> IntrBits {
    IntrBits { op_error: true, ..i }
}

/// The flash controller's register block together with the hardware state it
/// drives: the flash array, the read FIFO, and the progress of the command in
/// flight.
#[verifier::ext_equal]
pub struct FlashCtrlRegisters {
    /// Pending interrupts.
    pub intr_state: IntrBits,
    /// Enabled interrupts.
    pub intr_enable: IntrBits,
    /// Whether the control and address registers accept writes; deasserted
    /// by hardware while a command runs.
    pub ctrl_regwen: bool,
    /// The command control register.
    pub control: ControlReg,
    /// The command byte address register.
    pub addr: u32,
    /// Per-region configuration write enables; a cleared entry is locked
    /// until reset.
    pub region_cfg_regwen: Vec<bool>,
    /// Per-region permission registers.
    pub mp_region_cfg: Vec<MpRegionCfg>,
    /// Per-region page ranges.
    pub mp_region: Vec<MpRegionBounds>,
    /// Permissions for data-partition pages outside every enabled region.
    pub default_region: DefaultRegionCfg,
    /// Info-partition page configurations of bank 0.
    pub bank0_info0_page_cfg: Vec<InfoPageCfg>,
    /// Info-partition page configurations of bank 1.
    pub bank1_info0_page_cfg: Vec<InfoPageCfg>,
    /// Bank-level erase enables, behind the shadow-write protocol.
    pub mp_bank_cfg_shadowed: ShadowedMpBankCfg,
    /// Status of the last command.
    pub op_status: OpStatus,
    /// FIFO levels at which the level interrupts fire.
    pub fifo_lvl: FifoLvl,
    /// The read FIFO's contents, oldest word first.
    pub rd_fifo: Vec<u32>,
    /// The flash array itself.
    pub mem: Vec<u8>,
    /// A command is executing.
    pub cmd_active: bool,
    /// Byte address the executing command will touch next.
    pub cmd_addr: u32,
    /// Bus words the executing command has still to move.
    pub cmd_words_left: u32,
    /// The last command error was a memory-protection violation.
    pub fault_mp: bool,
}

impl FlashCtrlRegisters {
    /// Well-formedness of the register block: register array lengths, valid
    /// permission encodings, and a coherent in-flight command.
    pub open spec fn inv(&self) -> bool {
        &&& self.region_cfg_regwen@.len() == FLASH_MP_MAX_CFGS
        &&& self.mp_region_cfg@.len() == FLASH_MP_MAX_CFGS
        &&& self.mp_region@.len() == FLASH_MP_MAX_CFGS
        &&& self.bank0_info0_page_cfg@.len() == FLASH_INFO_PAGES_PER_BANK
        &&& self.bank1_info0_page_cfg@.len() == FLASH_INFO_PAGES_PER_BANK
        &&& self.mem@.len() == FLASH_MEM_BYTES
        &&& self.rd_fifo@.len() <= RD_FIFO_DEPTH
        &&& forall|r: int|
            0 <= r < FLASH_MP_MAX_CFGS ==> (#[trigger] self.mp_region_cfg@[r]).wf()
        &&& forall|r: int|
            0 <= r < FLASH_MP_MAX_CFGS ==> (#[trigger] self.mp_region@[r]).base
                <= FLASH_MAX_PAGES && self.mp_region@[r].size <= FLASH_MAX_PAGES
        &&& self.default_region.wf()
        &&& forall|p: int|
            0 <= p < FLASH_INFO_PAGES_PER_BANK ==> (#[trigger] self.bank0_info0_page_cfg@[p]).wf()
        &&& forall|p: int|
            0 <= p < FLASH_INFO_PAGES_PER_BANK ==> (#[trigger] self.bank1_info0_page_cfg@[p]).wf()
        &&& self.ctrl_regwen == !self.cmd_active
        &&& self.cmd_active ==> self.cmd_ok()
    }

    /// Coherence of the executing command's cursor with the flash array.
    pub open spec fn cmd_ok(&self) -> bool {
        &&& self.cmd_words_left >= 1
        &&& match self.control.op {
            FlashOp::Read | FlashOp::Prog => {
                &&& self.cmd_addr % 4 == 0
                &&& self.cmd_addr + 4 * self.cmd_words_left <= FLASH_MEM_BYTES
            },
            FlashOp::Erase => self.cmd_addr < FLASH_MEM_BYTES,
        }
    }

    /// The register block in its reset state: no command, no interrupts, all
    /// regions disabled and unlocked, and an erased (all `0xFF`) flash array.
    pub fn new() -> (r: Self)
        ensures
            r.inv(),
            r.intr_state == IntrBits::spec_none(),
            r.intr_enable == IntrBits::spec_none(),
            r.ctrl_regwen,
            !r.cmd_active,
            !r.fault_mp,
            r.op_status == (OpStatus { done: false, err: false }),
            r.rd_fifo@.len() == 0,
            r.mem@.len() == FLASH_MEM_BYTES,
            forall|i: int| 0 <= i < FLASH_MEM_BYTES ==> r.mem@[i] == 0xFFu8,
            forall|i: int|
                0 <= i < FLASH_MP_MAX_CFGS ==> (#[trigger] r.mp_region_cfg@[i]).en == MUBI_CLEAR,
            forall|i: int| 0 <= i < FLASH_MP_MAX_CFGS ==> #[trigger] r.region_cfg_regwen@[i],
            r.default_region.rd_en == MUBI_CLEAR,
            r.default_region.prog_en == MUBI_CLEAR,
            r.default_region.erase_en == MUBI_CLEAR,
            r.mp_bank_cfg_shadowed == (ShadowedMpBankCfg {
                committed: MpBankCfg { erase_en_bank0: false, erase_en_bank1: false },
                staged: None,
            }),
    {
        let disabled_region = MpRegionCfg {
            en: MUBI_CLEAR,
            rd_en: MUBI_CLEAR,
            prog_en: MUBI_CLEAR,
            erase_en: MUBI_CLEAR,
            scramble_en: MUBI_CLEAR,
            ecc_en: MUBI_CLEAR,
            he_en: MUBI_CLEAR,
        };
        let disabled_info = InfoPageCfg {
            en: MUBI_CLEAR,
            rd_en: MUBI_CLEAR,
            prog_en: MUBI_CLEAR,
            erase_en: MUBI_CLEAR,
            scramble_en: MUBI_CLEAR,
            ecc_en: MUBI_CLEAR,
            he_en: MUBI_CLEAR,
        };
        FlashCtrlRegisters {
            intr_state: IntrBits::none(),
            intr_enable: IntrBits::none(),
            ctrl_regwen: true,
            control: ControlReg {
                start: false,
                op: FlashOp::Read,
                erase_sel: EraseSel::Page,
                partition_info: false,
                info_sel: 0,
                num: 0,
            },
            addr: 0,
            region_cfg_regwen: vec![true; FLASH_MP_MAX_CFGS],
            mp_region_cfg: vec![disabled_region; FLASH_MP_MAX_CFGS],
            mp_region: vec![MpRegionBounds { base: 0, size: 0 }; FLASH_MP_MAX_CFGS],
            default_region: DefaultRegionCfg {
                rd_en: MUBI_CLEAR,
                prog_en: MUBI_CLEAR,
                erase_en: MUBI_CLEAR,
                scramble_en: MUBI_CLEAR,
                ecc_en: MUBI_CLEAR,
                he_en: MUBI_CLEAR,
            },
            bank0_info0_page_cfg: vec![disabled_info; FLASH_INFO_PAGES_PER_BANK],
            bank1_info0_page_cfg: vec![disabled_info; FLASH_INFO_PAGES_PER_BANK],
            mp_bank_cfg_shadowed: ShadowedMpBankCfg {
                committed: MpBankCfg { erase_en_bank0: false, erase_en_bank1: false },
                staged: None,
            },
            op_status: OpStatus { done: false, err: false },
            fifo_lvl: FifoLvl { prog: 0, rd: 0 },
            rd_fifo: Vec::new(),
            mem: vec![0xFF; FLASH_MEM_BYTES],
            cmd_active: false,
            cmd_addr: 0,
            cmd_words_left: 0,
            fault_mp: false,
        }
    }

    /// Region `r` is enabled and covers `page`.
    pub open spec fn region_matches(&self, r: int, page: int) -> bool {
        spec_region_matches(self.mp_region_cfg@, self.mp_region@, r, page)
    }

    /// The region whose permissions govern `page`: the lowest-numbered
    /// enabled region covering it, if any.
    pub open spec fn selected_region(&self, page: int) -> Option<int> {
        spec_selected_region(self.mp_region_cfg@, self.mp_region@, page)
    }

    /// A read of a data-partition word in `page` passes memory protection.
    pub open spec fn read_allowed(&self, page: int) -> bool {
        match self.selected_region(page) {
            Some(r) => self.mp_region_cfg@[r].rd_en == MUBI_SET,
            None => self.default_region.rd_en == MUBI_SET,
        }
    }

    /// A program of a data-partition word in `page` passes memory protection.
    pub open spec fn prog_allowed(&self, page: int) -> bool {
        match self.selected_region(page) {
            Some(r) => self.mp_region_cfg@[r].prog_en == MUBI_SET,
            None => self.default_region.prog_en == MUBI_SET,
        }
    }

    /// An erase of a data-partition `page` passes memory protection.
    pub open spec fn erase_allowed(&self, page: int) -> bool {
        match self.selected_region(page) {
            Some(r) => self.mp_region_cfg@[r].erase_en == MUBI_SET,
            None => self.default_region.erase_en == MUBI_SET,
        }
    }

    /// Finds the region whose permissions govern `page`, as the hardware's
    /// priority encoder does: the lowest-numbered enabled region covering it.
    fn lookup_region(&self, page: usize) -> (r: Option<usize>)
        requires
            self.inv(),
            page < FLASH_MAX_PAGES,
        ensures
            match r {
                Some(i) => i < FLASH_MP_MAX_CFGS && self.selected_region(page as int) == Some(
                    i as int,
                ),
                None => self.selected_region(page as int) is None,
            },
    {
        let mut i: usize = 0;
        while i < FLASH_MP_MAX_CFGS
            invariant
                self.inv(),
                page < FLASH_MAX_PAGES,
                i <= FLASH_MP_MAX_CFGS,
                self.selected_region(page as int) == spec_selected_region_from(
                    self.mp_region_cfg@,
                    self.mp_region@,
                    page as int,
                    i as int,
                ),
            decreases FLASH_MP_MAX_CFGS - i,
        {
            let cfg = self.mp_region_cfg[i];
            let bounds = self.mp_region[i];
            if cfg.en == MUBI_SET && bounds.base as usize <= page && page < (bounds.base
                + bounds.size) as usize {
                return Some(i);
            }
            i = i + 1;
        }
        None
    }

    /// The permission the hardware consults for `op` on `page`.
    pub open spec fn op_allowed(&self, op: FlashOp, page: int) -> bool {
        match op {
            FlashOp::Read => self.read_allowed(page),
            FlashOp::Prog => self.prog_allowed(page),
            FlashOp::Erase => self.erase_allowed(page),
        }
    }

    /// Evaluates the memory-protection check for `op` on `page`.
    fn check_op_allowed(&self, op: FlashOp, page: usize) -> (b: bool)
        requires
            self.inv(),
            page < FLASH_MAX_PAGES,
        ensures
            b == self.op_allowed(op, page as int),
    {
        let sel = self.lookup_region(page);
        match sel {
            Some(r) => {
                let cfg = self.mp_region_cfg[r];
                match op {
                    FlashOp::Read => cfg.rd_en == MUBI_SET,
                    FlashOp::Prog => cfg.prog_en == MUBI_SET,
                    FlashOp::Erase => cfg.erase_en == MUBI_SET,
                }
            },
            None => {
                match op {
                    FlashOp::Read => self.default_region.rd_en == MUBI_SET,
                    FlashOp::Prog => self.default_region.prog_en == MUBI_SET,
                    FlashOp::Erase => self.default_region.erase_en == MUBI_SET,
                }
            },
        }
    }

    /// A command with control value `ctl` at byte address `a` lies within the
    /// array and respects the hardware's alignment rules: word alignment and
    /// page containment for reads, word alignment and the programming window
    /// for programs, page erase granularity for erases.
    pub open spec fn cmd_bounds_ok(ctl: ControlReg, a: u32) -> bool {
        match ctl.op {
            FlashOp::Read => {
                &&& a % 4 == 0
                &&& a < FLASH_MEM_BYTES
                &&& a % (PAGE_SIZE as u32) + 4 * (ctl.num + 1) <= PAGE_SIZE
            },
            FlashOp::Prog => {
                &&& a % 4 == 0
                &&& a < FLASH_MEM_BYTES
                &&& (a / 4) % (FLASH_PROG_WINDOW_SIZE as u32) + (ctl.num + 1)
                    <= FLASH_PROG_WINDOW_SIZE
            },
            FlashOp::Erase => {
                &&& a < FLASH_MEM_BYTES
                &&& ctl.erase_sel is Page
            },
        }
    }

    /// The command passes memory protection on the page it addresses.
    pub open spec fn cmd_perm_ok(&self, ctl: ControlReg, a: u32) -> bool {
        self.op_allowed(ctl.op, a as int / PAGE_SIZE as int)
    }

    /// The hardware accepts and executes the command: it is well formed and
    /// passes memory protection.
    pub open spec fn cmd_accepted(&self, ctl: ControlReg, a: u32) -> bool {
        Self::cmd_bounds_ok(ctl, a) && self.cmd_perm_ok(ctl, a)
    }

    /// Writes the command address register; ignored while a command runs.
    pub fn write_addr(&mut self, a: u32)
        requires
            old(self).inv(),
        ensures
            final(self).inv(),
            !old(self).ctrl_regwen ==> *final(self) == *old(self),
            old(self).ctrl_regwen ==> *final(self) == (FlashCtrlRegisters { addr: a, ..*old(self) }),
    {
        if self.ctrl_regwen {
            self.addr = a;
        }
    }

    /// Writes the control register; ignored while a command runs. A write
    /// with the start bit set submits the command at the current address:
    /// an acceptable command begins executing, any other raises the error
    /// interrupt at once - with the memory-protection fault flag when the
    /// command was well formed but denied.
    pub fn write_control(&mut self, ctl: ControlReg)
        requires
            old(self).inv(),
            ctl.num < 4096,
        ensures
            final(self).inv(),
            !old(self).ctrl_regwen ==> *final(self) == *old(self),
            old(self).ctrl_regwen && !ctl.start ==> *final(self) == (FlashCtrlRegisters {
                control: ctl,
                ..*old(self)
            }),
            old(self).ctrl_regwen && ctl.start && old(self).cmd_accepted(ctl, old(self).addr)
                ==> *final(self) == (FlashCtrlRegisters {
                control: ctl,
                cmd_active: true,
                ctrl_regwen: false,
                cmd_addr: old(self).addr,
                cmd_words_left: (ctl.num + 1) as u32,
                ..*old(self)
            }),
            old(self).ctrl_regwen && ctl.start && !old(self).cmd_accepted(ctl, old(self).addr)
                ==> *final(self) == (FlashCtrlRegisters {
                control: ctl,
                intr_state: with_op_error(old(self).intr_state),
                op_status: (OpStatus { err: true, ..old(self).op_status }),
                fault_mp: old(self).fault_mp || (Self::cmd_bounds_ok(ctl, old(self).addr)
                    && !old(self).cmd_perm_ok(ctl, old(self).addr)),
                ..*old(self)
            }),
    {
        if !self.ctrl_regwen {
            return ;
        }
        let words = ctl.num + 1;
        let a = self.addr;
        let bounds_ok = match ctl.op {
            FlashOp::Read => a % 4 == 0 && a < FLASH_MEM_BYTES as u32 && a % (PAGE_SIZE as u32) + 4
                * words <= PAGE_SIZE as u32,
            FlashOp::Prog => a % 4 == 0 && a < FLASH_MEM_BYTES as u32 && (a / 4) % (
            FLASH_PROG_WINDOW_SIZE as u32) + words <= FLASH_PROG_WINDOW_SIZE as u32,
            FlashOp::Erase => a < FLASH_MEM_BYTES as u32 && ctl.erase_sel == EraseSel::Page,
        };
        let allowed = bounds_ok && self.check_op_allowed(ctl.op, a as usize / PAGE_SIZE);
        self.control = ctl;
        if ctl.start {
            if allowed {
                self.cmd_active = true;
                self.cmd_addr = a;
                self.cmd_words_left = words;
                self.ctrl_regwen = false;
                return ;
            }
            if bounds_ok {
                self.fault_mp = true;
            }
            self.intr_state.op_error = true;
            self.op_status.err = true;
        }
    }

    /// How many words the next tick moves into the read FIFO.
    pub open spec fn fill_count(&self) -> int {
        if RD_FIFO_DEPTH - self.rd_fifo@.len() <= self.cmd_words_left {
            RD_FIFO_DEPTH - self.rd_fifo@.len()
        } else {
            self.cmd_words_left as int
        }
    }

    /// One step of the hardware's own work on the executing command.
    ///
    /// A read command moves words from the array into the read FIFO until
    /// the FIFO is full or the command is done, raising the FIFO-level
    /// interrupt at the configured level and the done interrupt when its
    /// last word is fetched. A program command progresses at the FIFO port
    /// instead (see [`Self::prog_fifo_push`]). An erase command erases its
    /// page and completes.
    pub fn hw_tick(&mut self)
        requires
            old(self).inv(),
        ensures
            final(self).inv(),
            !old(self).cmd_active ==> *final(self) == *old(self),
            old(self).cmd_active && old(self).control.op is Read ==> Self::tick_read_post(
                *old(self),
                *final(self),
            ),
            old(self).cmd_active && old(self).control.op is Prog ==> *final(self) == *old(self),
            old(self).cmd_active && old(self).control.op is Erase ==> Self::tick_erase_post(
                *old(self),
                *final(self),
            ),
    {
        if !self.cmd_active {
            return ;
        }
        match self.control.op {
            FlashOp::Read => self.tick_read(),
            FlashOp::Prog => {},
            FlashOp::Erase => self.tick_erase(),
        }
    }

    /// What one hardware tick does to an executing read command: the next
    /// `fill_count` words of the array enter the read FIFO, the cursor
    /// advances, and the level and done interrupts rise as configured.
    pub open spec fn tick_read_post(pre: Self, post: Self) -> bool {
        let take = pre.fill_count();
        &&& post == (FlashCtrlRegisters {
            rd_fifo: post.rd_fifo,
            cmd_addr: post.cmd_addr,
            cmd_words_left: post.cmd_words_left,
            cmd_active: post.cmd_active,
            ctrl_regwen: post.ctrl_regwen,
            intr_state: post.intr_state,
            op_status: post.op_status,
            ..pre
        })
        &&& post.rd_fifo@ == pre.rd_fifo@ + Seq::new(
            take as nat,
            |j: int| mem_word(pre.mem@, pre.cmd_addr + 4 * j),
        )
        &&& post.cmd_addr == pre.cmd_addr + 4 * take
        &&& post.cmd_words_left == pre.cmd_words_left - take
        &&& post.cmd_active == (pre.cmd_words_left > take)
        &&& post.ctrl_regwen == !post.cmd_active
        &&& post.intr_state == (IntrBits {
            rd_lvl: pre.intr_state.rd_lvl || post.rd_fifo@.len() >= pre.fifo_lvl.rd,
            op_done: pre.intr_state.op_done || post.cmd_words_left == 0,
            ..pre.intr_state
        })
        &&& post.op_status == (OpStatus {
            done: pre.op_status.done || post.cmd_words_left == 0,
            ..pre.op_status
        })
    }

    /// What one hardware tick does to an executing erase command: the page
    /// holding the command address is erased and the command completes.
    pub open spec fn tick_erase_post(pre: Self, post: Self) -> bool {
        let page = pre.cmd_addr as int / PAGE_SIZE as int;
        &&& post == (FlashCtrlRegisters {
            mem: post.mem,
            cmd_active: false,
            cmd_words_left: 0,
            ctrl_regwen: true,
            intr_state: (IntrBits { op_done: true, ..pre.intr_state }),
            op_status: (OpStatus { done: true, ..pre.op_status }),
            ..pre
        })
        &&& post.mem@ == erased_mem(pre.mem@, page)
    }

    /// Fills the read FIFO from the array for the executing read command.
    fn tick_read(&mut self)
        requires
            old(self).inv(),
            old(self).cmd_active,
            old(self).control.op is Read,
        ensures
            final(self).inv(),
            Self::tick_read_post(*old(self), *final(self)),
    {
        let ghost pre = *self;
        let space = RD_FIFO_DEPTH - self.rd_fifo.len();
        let take: u32 = if (space as u32) <= self.cmd_words_left {
            space as u32
        } else {
            self.cmd_words_left
        };
        assert(take == pre.fill_count());
        let mut moved: u32 = 0;
        while moved < take
            invariant
                pre.inv(),
                pre.cmd_active,
                pre.control.op is Read,
                moved <= take,
                take == pre.fill_count(),
                *self == (FlashCtrlRegisters {
                    rd_fifo: self.rd_fifo,
                    cmd_addr: self.cmd_addr,
                    cmd_words_left: self.cmd_words_left,
                    ..pre
                }),
                self.rd_fifo@ == pre.rd_fifo@ + Seq::new(
                    moved as nat,
                    |j: int| mem_word(pre.mem@, pre.cmd_addr + 4 * j),
                ),
                self.cmd_addr == pre.cmd_addr + 4 * moved,
                self.cmd_words_left == pre.cmd_words_left - moved,
            decreases take - moved,
        {
            let a = self.cmd_addr as usize;
            let b0 = self.mem[a];
            let b1 = self.mem[a + 1];
            let b2 = self.mem[a + 2];
            let b3 = self.mem[a + 3];
            let w: u32 = (b0 as u32) | ((b1 as u32) << 8) | ((b2 as u32) << 16) | ((b3 as u32)
                << 24);
            self.rd_fifo.push(w);
            self.cmd_addr = self.cmd_addr + 4;
            self.cmd_words_left = self.cmd_words_left - 1;
            moved = moved + 1;
            proof {
                assert(self.rd_fifo@ =~= pre.rd_fifo@ + Seq::new(
                    moved as nat,
                    |j: int| mem_word(pre.mem@, pre.cmd_addr + 4 * j),
                ));
            }
        }
        if self.rd_fifo.len() as u32 >= self.fifo_lvl.rd {
            self.intr_state.rd_lvl = true;
        }
        if self.cmd_words_left == 0 {
            self.intr_state.op_done = true;
            self.op_status.done = true;
            self.cmd_active = false;
            self.ctrl_regwen = true;
        }
    }

    /// Erases the page addressed by the executing erase command.
    fn tick_erase(&mut self)
        requires
            old(self).inv(),
            old(self).cmd_active,
            old(self).control.op is Erase,
        ensures
            final(self).inv(),
            Self::tick_erase_post(*old(self), *final(self)),
    {
        let ghost pre = *self;
        let page = self.cmd_addr as usize / PAGE_SIZE;
        let base = page * PAGE_SIZE;
        let mut k: usize = 0;
        while k < PAGE_SIZE
            invariant
                pre.inv(),
                pre.cmd_active,
                page == pre.cmd_addr as int / PAGE_SIZE as int,
                base == page * PAGE_SIZE,
                base + PAGE_SIZE <= FLASH_MEM_BYTES,
                k <= PAGE_SIZE,
                *self == (FlashCtrlRegisters { mem: self.mem, ..pre }),
                self.mem@.len() == FLASH_MEM_BYTES,
                forall|i: int|
                    0 <= i < FLASH_MEM_BYTES ==> self.mem@[i] == (if base <= i < base + k {
                        0xFFu8
                    } else {
                        pre.mem@[i]
                    }),
            decreases PAGE_SIZE - k,
        {
            self.mem[base + k] = 0xFF;
            k = k + 1;
        }
        proof {
            assert(self.mem@ =~= erased_mem(pre.mem@, page as int));
        }
        self.intr_state.op_done = true;
        self.op_status.done = true;
        self.cmd_active = false;
        self.cmd_words_left = 0;
        self.ctrl_regwen = true;
    }

    /// Pushes one word into the program FIFO. While a program command runs,
    /// the word is programmed into the array at the command's cursor; the
    /// FIFO drains as fast as it fills, and the empty and done interrupts
    /// rise with the run's last word. Outside a program command the write
    /// is ignored.
    pub fn prog_fifo_push(&mut self, data: u32)
        requires
            old(self).inv(),
        ensures
            final(self).inv(),
            !(old(self).cmd_active && old(self).control.op is Prog) ==> *final(self) == *old(self),
            old(self).cmd_active && old(self).control.op is Prog ==> {
                let done = old(self).cmd_words_left == 1;
                &&& *final(self) == (FlashCtrlRegisters {
                    mem: final(self).mem,
                    cmd_addr: final(self).cmd_addr,
                    cmd_words_left: final(self).cmd_words_left,
                    cmd_active: final(self).cmd_active,
                    ctrl_regwen: final(self).ctrl_regwen,
                    intr_state: final(self).intr_state,
                    op_status: final(self).op_status,
                    ..*old(self)
                })
                &&& final(self).mem@ == mem_with_word(old(self).mem@, old(self).cmd_addr as int, data)
                &&& final(self).cmd_addr == old(self).cmd_addr + 4
                &&& final(self).cmd_words_left == old(self).cmd_words_left - 1
                &&& final(self).cmd_active == !done
                &&& final(self).ctrl_regwen == done
                &&& final(self).intr_state == (IntrBits {
                    prog_empty: old(self).intr_state.prog_empty || done,
                    op_done: old(self).intr_state.op_done || done,
                    ..old(self).intr_state
                })
                &&& final(self).op_status == (OpStatus {
                    done: old(self).op_status.done || done,
                    ..old(self).op_status
                })
            },
    {
        if !(self.cmd_active && matches!(self.control.op, FlashOp::Prog)) {
            return ;
        }
        let a = self.cmd_addr as usize;
        self.mem[a] = (data & 0xff) as u8;
        self.mem[a + 1] = ((data >> 8) & 0xff) as u8;
        self.mem[a + 2] = ((data >> 16) & 0xff) as u8;
        self.mem[a + 3] = ((data >> 24) & 0xff) as u8;
        self.cmd_addr = self.cmd_addr + 4;
        self.cmd_words_left = self.cmd_words_left - 1;
        if self.cmd_words_left == 0 {
            self.cmd_active = false;
            self.ctrl_regwen = true;
            self.intr_state.prog_empty = true;
            self.intr_state.op_done = true;
            self.op_status.done = true;
        }
    }

    /// Pops the oldest word out of the read FIFO.
    pub fn read_fifo_pop(&mut self) -> (w: u32)
        requires
            old(self).inv(),
            old(self).rd_fifo@.len() > 0,
        ensures
            final(self).inv(),
            w == old(self).rd_fifo@[0],
            *final(self) == (FlashCtrlRegisters { rd_fifo: final(self).rd_fifo, ..*old(self) }),
            final(self).rd_fifo@ == old(self).rd_fifo@.skip(1),
    {
        let w = self.rd_fifo.remove(0);
        proof {
            assert(self.rd_fifo@ =~= old(self).rd_fifo@.skip(1));
        }
        w
    }

    /// The read FIFO's empty status line.
    pub fn rd_fifo_empty(&self) -> (b: bool)
        ensures
            b == (self.rd_fifo@.len() == 0),
    {
        self.rd_fifo.len() == 0
    }

    /// Writes one region's permission register; ignored once the region's
    /// configuration is locked.
    pub fn write_mp_region_cfg(&mut self, r: usize, cfg: MpRegionCfg)
        requires
            old(self).inv(),
            r < FLASH_MP_MAX_CFGS,
            cfg.wf(),
        ensures
            final(self).inv(),
            old(self).region_cfg_regwen@[r as int] ==> *final(self) == (FlashCtrlRegisters {
                mp_region_cfg: final(self).mp_region_cfg,
                ..*old(self)
            }) && final(self).mp_region_cfg@ == old(self).mp_region_cfg@.update(r as int, cfg),
            !old(self).region_cfg_regwen@[r as int] ==> *final(self) == *old(self),
    {
        if self.region_cfg_regwen[r] {
            self.mp_region_cfg[r] = cfg;
        }
    }

    /// Writes one region's page range; ignored once the region's
    /// configuration is locked.
    pub fn write_mp_region_bounds(&mut self, r: usize, bounds: MpRegionBounds)
        requires
            old(self).inv(),
            r < FLASH_MP_MAX_CFGS,
            bounds.base <= FLASH_MAX_PAGES,
            bounds.size <= FLASH_MAX_PAGES,
        ensures
            final(self).inv(),
            old(self).region_cfg_regwen@[r as int] ==> *final(self) == (FlashCtrlRegisters {
                mp_region: final(self).mp_region,
                ..*old(self)
            }) && final(self).mp_region@ == old(self).mp_region@.update(r as int, bounds),
            !old(self).region_cfg_regwen@[r as int] ==> *final(self) == *old(self),
    {
        if self.region_cfg_regwen[r] {
            self.mp_region[r] = bounds;
        }
    }

    /// Clears one region's configuration write enable. The bit can only be
    /// cleared, never set: the lock holds until reset.
    pub fn lock_region_cfg_regwen(&mut self, r: usize)
        requires
            old(self).inv(),
            r < FLASH_MP_MAX_CFGS,
        ensures
            final(self).inv(),
            *final(self) == (FlashCtrlRegisters {
                region_cfg_regwen: final(self).region_cfg_regwen,
                ..*old(self)
            }),
            final(self).region_cfg_regwen@ == old(self).region_cfg_regwen@.update(r as int, false),
    {
        self.region_cfg_regwen[r] = false;
    }

    /// Writes the default data-partition permissions.
    pub fn write_default_region(&mut self, cfg: DefaultRegionCfg)
        requires
            old(self).inv(),
            cfg.wf(),
        ensures
            final(self).inv(),
            *final(self) == (FlashCtrlRegisters { default_region: cfg, ..*old(self) }),
    {
        self.default_region = cfg;
    }

    /// Writes one info-partition page configuration of the given bank.
    pub fn write_info_page_cfg(&mut self, bank: usize, idx: usize, cfg: InfoPageCfg)
        requires
            old(self).inv(),
            bank < FLASH_NUM_BANKS,
            idx < FLASH_INFO_PAGES_PER_BANK,
            cfg.wf(),
        ensures
            final(self).inv(),
            bank == 0 ==> *final(self) == (FlashCtrlRegisters {
                bank0_info0_page_cfg: final(self).bank0_info0_page_cfg,
                ..*old(self)
            }) && final(self).bank0_info0_page_cfg@ == old(self).bank0_info0_page_cfg@.update(
                idx as int,
                cfg,
            ),
            bank == 1 ==> *final(self) == (FlashCtrlRegisters {
                bank1_info0_page_cfg: final(self).bank1_info0_page_cfg,
                ..*old(self)
            }) && final(self).bank1_info0_page_cfg@ == old(self).bank1_info0_page_cfg@.update(
                idx as int,
                cfg,
            ),
    {
        if bank == 0 {
            self.bank0_info0_page_cfg[idx] = cfg;
        } else {
            self.bank1_info0_page_cfg[idx] = cfg;
        }
    }

    /// Writes the shadowed bank configuration register: the value is staged
    /// on a first write and committed when the same value is written again.
    pub fn write_mp_bank_cfg(&mut self, v: MpBankCfg)
        requires
            old(self).inv(),
        ensures
            final(self).inv(),
            old(self).mp_bank_cfg_shadowed.staged == Some(v) ==> *final(self) == (FlashCtrlRegisters {
                mp_bank_cfg_shadowed: (ShadowedMpBankCfg { committed: v, staged: None }),
                ..*old(self)
            }),
            old(self).mp_bank_cfg_shadowed.staged != Some(v) ==> *final(self) == (FlashCtrlRegisters {
                mp_bank_cfg_shadowed: (ShadowedMpBankCfg {
                    committed: old(self).mp_bank_cfg_shadowed.committed,
                    staged: Some(v),
                }),
                ..*old(self)
            }),
    {
        let staged_same = match self.mp_bank_cfg_shadowed.staged {
            Some(s) => s == v,
            None => false,
        };
        if staged_same {
            self.mp_bank_cfg_shadowed = ShadowedMpBankCfg { committed: v, staged: None };
        } else {
            self.mp_bank_cfg_shadowed = ShadowedMpBankCfg {
                committed: self.mp_bank_cfg_shadowed.committed,
                staged: Some(v),
            };
        }
    }

    /// Writes the FIFO level register.
    pub fn write_fifo_lvl(&mut self, lvl: FifoLvl)
        requires
            old(self).inv(),
        ensures
            final(self).inv(),
            *final(self) == (FlashCtrlRegisters { fifo_lvl: lvl, ..*old(self) }),
    {
        self.fifo_lvl = lvl;
    }
}

} // verus!
