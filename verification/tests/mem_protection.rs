//! Tests of the flash controller's memory-protection manager and its fault
//! reporting.

use lowrisc::error::ErrorCode;
use lowrisc::flash_ctrl::deliver_event;
use lowrisc::flash_ctrl::FlashCtrl;
use lowrisc::flash_ctrl::FlashEvent;
use lowrisc::flash_ctrl::FlashRegion;
use lowrisc::flash_ctrl::LowRiscPage;
use lowrisc::flash_ctrl::FLASH_MP_MAX_CFGS;
use lowrisc::flash_regs::FlashCtrlRegisters;
use lowrisc::hil::Error;
use lowrisc::hil::FlashMPAdvConfig;
use lowrisc::hil::FlashMPBasicConfig;
use lowrisc::hil::HasClient;

fn new_ctrl() -> FlashCtrl {
    FlashCtrl::new(FlashCtrlRegisters::new(), FlashRegion::REGION0)
}

fn pump(ctrl: &mut FlashCtrl) -> Option<FlashEvent> {
    for _ in 0..80 {
        ctrl.hw_tick();
        if let Some(ev) = ctrl.handle_interrupt() {
            return Some(ev);
        }
    }
    None
}

fn adv_cfg(read_en: bool, write_en: bool, erase_en: bool) -> FlashMPAdvConfig {
    FlashMPAdvConfig {
        read_en,
        write_en,
        erase_en,
        scramble_en: false,
        ecc_en: true,
        he_en: false,
    }
}

#[test]
fn num_regions_matches_hardware() {
    let ctrl = new_ctrl();
    assert_eq!(ctrl.get_num_regions().unwrap(), FLASH_MP_MAX_CFGS as u32);
}

#[test]
fn regions_unlocked_at_reset() {
    let ctrl = new_ctrl();
    for region_num in 0..8 {
        assert_eq!(ctrl.is_region_locked(region_num), Ok(false));
    }
}

#[test]
fn invalid_region_arguments_are_rejected() {
    let mut ctrl = new_ctrl();
    let cfg_set = FlashMPAdvConfig {
        read_en: false,
        write_en: true,
        erase_en: false,
        scramble_en: false,
        ecc_en: true,
        he_en: false,
    };
    // A range running past the end of the flash.
    assert_eq!(
        ctrl.set_adv_region_perms(400, 1000, 6, &cfg_set),
        Err(ErrorCode::INVAL)
    );
    // A base page the hardware cannot represent.
    assert_eq!(
        ctrl.set_adv_region_perms(512, 10, 6, &cfg_set),
        Err(ErrorCode::NOSUPPORT)
    );
    // A region index the hardware does not have.
    assert_eq!(
        ctrl.set_adv_region_perms(400, 10, 8, &cfg_set),
        Err(ErrorCode::NOSUPPORT)
    );
    // A rejected request changes no region: every region still reads as
    // disabled in both directions.
    for r in 0..8 {
        let p = ctrl.read_adv_region_perms(r).unwrap();
        assert_eq!(p, adv_cfg_all(false));
    }
    // The basic entry point applies the same validation.
    let basic = FlashMPBasicConfig { read_en: true, write_en: false };
    assert_eq!(ctrl.set_region_perms(400, 1000, 6, &basic), Err(ErrorCode::INVAL));
    assert_eq!(ctrl.set_region_perms(512, 10, 6, &basic), Err(ErrorCode::NOSUPPORT));
    assert_eq!(ctrl.set_region_perms(400, 10, 8, &basic), Err(ErrorCode::NOSUPPORT));
    assert_eq!(ctrl.read_region_perms(8), Err(ErrorCode::NOSUPPORT));
    assert_eq!(ctrl.read_adv_region_perms(9), Err(ErrorCode::NOSUPPORT));
    assert_eq!(ctrl.is_region_locked(8), Err(ErrorCode::NOSUPPORT));
    assert_eq!(ctrl.lock_region_cfg(142), Err(ErrorCode::NOSUPPORT));
}

fn adv_cfg_all(b: bool) -> FlashMPAdvConfig {
    FlashMPAdvConfig {
        read_en: b,
        write_en: b,
        erase_en: b,
        scramble_en: b,
        ecc_en: b,
        he_en: b,
    }
}

#[test]
fn set_and_read_back_perms() {
    let mut ctrl = new_ctrl();
    let cfg_set = FlashMPAdvConfig {
        read_en: false,
        write_en: true,
        erase_en: false,
        scramble_en: false,
        ecc_en: true,
        he_en: false,
    };
    assert!(ctrl.set_adv_region_perms(400, 10, 6, &cfg_set).is_ok());
    assert_eq!(ctrl.read_adv_region_perms(6).unwrap(), cfg_set);
    let basic = FlashMPBasicConfig { read_en: true, write_en: false };
    assert!(ctrl.set_region_perms(100, 4, 5, &basic).is_ok());
    assert_eq!(ctrl.read_region_perms(5).unwrap(), basic);
    // Locking is monotonic and observable.
    assert!(ctrl.lock_region_cfg(6).is_ok());
    assert_eq!(ctrl.is_region_locked(6), Ok(true));
}

#[test]
fn locked_region_ignores_new_configuration() {
    let mut ctrl = new_ctrl();
    let first = adv_cfg(false, true, false);
    assert!(ctrl.set_adv_region_perms(450, 25, 7, &first).is_ok());
    assert!(ctrl.lock_region_cfg(7).is_ok());
    assert!(ctrl.is_region_locked(7).unwrap());
    // The hardware ignores configuration writes to a locked region.
    let second = adv_cfg(true, true, true);
    assert!(ctrl.set_adv_region_perms(450, 25, 7, &second).is_ok());
    assert_eq!(ctrl.read_adv_region_perms(7).unwrap(), first);
}

#[test]
fn read_of_protected_page_faults() {
    let mut ctrl = new_ctrl();
    // Reads disabled over pages 450..475; writes stay open.
    let cfg_set = adv_cfg(false, true, false);
    assert!(ctrl.set_adv_region_perms(450, 25, 7, &cfg_set).is_ok());
    assert!(ctrl.lock_region_cfg(7).is_ok());
    // The read request is accepted; the denial arrives as a protection
    // fault on the completion path, not as a flash error.
    assert!(ctrl.read_page(450, LowRiscPage::new()).is_ok());
    match pump(&mut ctrl) {
        Some(FlashEvent::ReadComplete(_, err)) => assert_eq!(err, Error::FlashMPError),
        other => panic!("expected a faulted read completion, got {:?}", other),
    }
    // The controller is usable again afterwards.
    assert!(ctrl.read_page(1, LowRiscPage::new()).is_ok());
    match pump(&mut ctrl) {
        Some(FlashEvent::ReadComplete(_, err)) => assert_eq!(err, Error::CommandComplete),
        other => panic!("expected a clean read completion, got {:?}", other),
    }
}

#[test]
fn erase_of_protected_page_faults() {
    let mut ctrl = new_ctrl();
    let cfg_set = adv_cfg(false, true, false);
    assert!(ctrl.set_adv_region_perms(450, 25, 7, &cfg_set).is_ok());
    assert!(ctrl.lock_region_cfg(7).is_ok());
    assert!(ctrl.erase_page(460).is_ok());
    match pump(&mut ctrl) {
        Some(FlashEvent::EraseComplete(err)) => assert_eq!(err, Error::FlashMPError),
        other => panic!("expected a faulted erase completion, got {:?}", other),
    }
}

#[test]
fn write_stays_open_where_only_reads_are_denied() {
    let mut ctrl = new_ctrl();
    let cfg_set = adv_cfg(false, true, false);
    assert!(ctrl.set_adv_region_perms(450, 25, 7, &cfg_set).is_ok());
    assert!(ctrl.lock_region_cfg(7).is_ok());
    assert!(ctrl.write_page(460, LowRiscPage(vec![0x5A; 2048])).is_ok());
    match pump(&mut ctrl) {
        Some(FlashEvent::WriteComplete(_, err)) => assert_eq!(err, Error::CommandComplete),
        other => panic!("expected a clean write completion, got {:?}", other),
    }
}

struct RecordingClient {
    reads: usize,
    writes: usize,
    erases: usize,
    last_error: Option<Error>,
}

impl lowrisc::hil::Client<FlashCtrl> for RecordingClient {
    fn read_complete(&mut self, _read_buffer: LowRiscPage, error: Error) {
        self.reads += 1;
        self.last_error = Some(error);
    }

    fn write_complete(&mut self, _write_buffer: LowRiscPage, error: Error) {
        self.writes += 1;
        self.last_error = Some(error);
    }

    fn erase_complete(&mut self, error: Error) {
        self.erases += 1;
        self.last_error = Some(error);
    }
}

#[test]
fn events_dispatch_to_the_matching_callback() {
    let mut client = RecordingClient { reads: 0, writes: 0, erases: 0, last_error: None };
    deliver_event(&mut client, FlashEvent::ReadComplete(LowRiscPage::new(), Error::FlashError));
    assert_eq!(client.reads, 1);
    assert_eq!(client.last_error, Some(Error::FlashError));
    deliver_event(
        &mut client,
        FlashEvent::WriteComplete(LowRiscPage::new(), Error::CommandComplete),
    );
    assert_eq!(client.writes, 1);
    assert_eq!(client.last_error, Some(Error::CommandComplete));
    deliver_event(&mut client, FlashEvent::EraseComplete(Error::FlashMPError));
    assert_eq!(client.erases, 1);
    assert_eq!(client.last_error, Some(Error::FlashMPError));
    assert_eq!(client.reads, 1);
}

#[test]
fn bound_client_receives_completions() {
    let ctrl = new_ctrl();
    let mut dev = lowrisc::flash_ctrl::FlashDevice::new(ctrl);
    dev.set_client(RecordingClient { reads: 0, writes: 0, erases: 0, last_error: None });
    assert!(dev.ctrl.erase_page(12).is_ok());
    let mut delivered = 0;
    let mut last_outcome = None;
    for _ in 0..80 {
        dev.ctrl.hw_tick();
        if let Some(outcome) = dev.service() {
            delivered += 1;
            last_outcome = Some(outcome);
        }
    }
    assert_eq!(delivered, 1);
    assert_eq!(last_outcome, Some(Error::CommandComplete));
    let client = dev.client.as_ref().unwrap();
    assert_eq!(client.erases, 1);
    assert_eq!(client.last_error, Some(Error::CommandComplete));
}
