//! Hardware-interface contracts for flash storage drivers.
//!
//! A flash driver moves single pages between a caller's buffer and the
//! device, reports completion through an event delivered once per accepted
//! operation, and may offer region-based memory protection on top. The
//! traits here carry the safety conditions every implementation shares; the
//! concrete driver states its full functional contracts on its own methods.

use vstd::prelude::*;

use crate::error::ErrorCode;

verus! {

/// Flash operation outcome reported on completion.
#[derive(Copy, Clone, Debug, Eq, PartialEq, Structural)]
pub enum Error {
    /// Success.
    CommandComplete,
    /// An error occurred during the flash operation.
    FlashError,
    /// A flash memory protection violation was detected.
    FlashMPError,
}

/// A peripheral that reports its completions to a client.
pub trait HasClient<C> {
    /// The client currently bound, if any.
    spec fn spec_client(&self) -> Option<C>;

    /// Hands the peripheral the client that will take its completions.
    fn set_client(&mut self, client: C)
        ensures
            final(self).spec_client() == Some(client),
    ;
}

/// A page-oriented flash device.
pub trait Flash {
    /// Type of a single flash page for the given implementation.
    type Page;

    /// Well-formedness the device's operations preserve.
    spec fn flash_inv(&self) -> bool;

    /// Well-formedness of a page buffer for this device.
    spec fn page_wf(p: &Self::Page) -> bool;

    /// Number of pages the device addresses.
    spec fn num_pages(&self) -> int;

    /// Read a page of flash into the buffer. Completion arrives later
    /// through the device's event path; on synchronous rejection the buffer
    /// comes back at once.
    fn read_page(&mut self, page_number: usize, buf: Self::Page) -> (r: Result<
        (),
        (ErrorCode, Self::Page),
    >)
        requires
            old(self).flash_inv(),
            Self::page_wf(&buf),
            page_number < old(self).num_pages(),
        ensures
            final(self).flash_inv(),
            r matches Err((_, b)) ==> Self::page_wf(&b),
    ;

    /// Write a page of flash from the buffer, under the same discipline as
    /// [`Self::read_page`].
    fn write_page(&mut self, page_number: usize, buf: Self::Page) -> (r: Result<
        (),
        (ErrorCode, Self::Page),
    >)
        requires
            old(self).flash_inv(),
            Self::page_wf(&buf),
            page_number < old(self).num_pages(),
        ensures
            final(self).flash_inv(),
            r matches Err((_, b)) ==> Self::page_wf(&b),
    ;

    /// Erase a page of flash: every byte of it reads `0xFF` afterwards.
    fn erase_page(&mut self, page_number: usize) -> (r: Result<(), ErrorCode>)
        requires
            old(self).flash_inv(),
            page_number < old(self).num_pages(),
        ensures
            final(self).flash_inv(),
    ;
}

/// Implement `Client` to receive completions from a [`Flash`] device.
pub trait Client<F: Flash> {
    /// A page read finished; the buffer given to `read_page` comes back.
    fn read_complete(&mut self, read_buffer: F::Page, error: Error);

    /// A page write finished; the buffer given to `write_page` comes back.
    fn write_complete(&mut self, write_buffer: F::Page, error: Error);

    /// A page erase finished.
    fn erase_complete(&mut self, error: Error);
}

/// Basic region permissions for flash memory protection.
#[derive(Copy, Clone, Debug, Eq, PartialEq, Structural)]
pub struct FlashMPBasicConfig {
    /// Region can be read.
    pub read_en: bool,
    /// Region can be programmed.
    pub write_en: bool,
}

/// Memory access control protection for flash hardware that supports it.
pub trait FlashMemoryProtection: Flash {
    /// Configure and enable the permissions of one region over a page range.
    fn set_region_perms(
        &mut self,
        page_number: usize,
        num_pages: usize,
        region_num: usize,
        mp_perms: &FlashMPBasicConfig,
    ) -> (r: Result<(), ErrorCode>)
        requires
            old(self).flash_inv(),
        ensures
            final(self).flash_inv(),
    ;

    /// Read back the permissions of one region.
    fn read_region_perms(&self, region_num: usize) -> (r: Result<FlashMPBasicConfig, ErrorCode>)
        requires
            self.flash_inv(),
    ;

    /// Number of configuration regions the hardware offers.
    fn get_num_regions(&self) -> (r: Result<u32, ErrorCode>)
        requires
            self.flash_inv(),
    ;

    /// Whether the given region's configuration is locked by hardware.
    fn is_region_locked(&self, region_num: usize) -> (r: Result<bool, ErrorCode>)
        requires
            self.flash_inv(),
    ;

    /// Lock the given region's configuration until the next system reset.
    fn lock_region_cfg(&mut self, region_num: usize) -> (r: Result<(), ErrorCode>)
        requires
            old(self).flash_inv(),
        ensures
            final(self).flash_inv(),
    ;
}

/// Region permissions for hardware with advanced protection control.
#[derive(Copy, Clone, Debug, Eq, PartialEq, Structural)]
pub struct FlashMPAdvConfig {
    /// Region can be read.
    pub read_en: bool,
    /// Region can be programmed.
    pub write_en: bool,
    /// Region can be erased.
    pub erase_en: bool,
    /// Region is scramble enabled.
    pub scramble_en: bool,
    /// Region has ECC enabled.
    pub ecc_en: bool,
    /// Region is high endurance enabled.
    pub he_en: bool,
}

/// Extends [`FlashMemoryProtection`] for controllers with more permission
/// bits per region.
pub trait FlashMemoryProtectionAdvanced: FlashMemoryProtection + Flash {
    /// Configure and enable the advanced permissions of one region.
    fn set_adv_region_perms(
        &mut self,
        page_number: usize,
        num_pages: usize,
        region_num: usize,
        mp_perms: &FlashMPAdvConfig,
    ) -> (r: Result<(), ErrorCode>)
        requires
            old(self).flash_inv(),
        ensures
            final(self).flash_inv(),
    ;

    /// Read back the advanced permissions of one region.
    fn read_adv_region_perms(&self, region_num: usize) -> (r: Result<FlashMPAdvConfig, ErrorCode>)
        requires
            self.flash_inv(),
    ;
}

} // verus!
