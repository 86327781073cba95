//! Tests of the flash page controller's transfer engine.

use lowrisc::flash_ctrl::FlashCtrl;
use lowrisc::flash_ctrl::FlashEvent;
use lowrisc::flash_ctrl::FlashRegion;
use lowrisc::flash_ctrl::LowRiscPage;
use lowrisc::flash_ctrl::PAGE_SIZE;
use lowrisc::flash_regs::FlashCtrlRegisters;
use lowrisc::error::ErrorCode;
use lowrisc::hil::Error;

fn new_ctrl() -> FlashCtrl {
    FlashCtrl::new(FlashCtrlRegisters::new(), FlashRegion::REGION0)
}

/// Lets the hardware and the interrupt handler run until an event arrives.
fn pump(ctrl: &mut FlashCtrl) -> Option<FlashEvent> {
    for _ in 0..80 {
        ctrl.hw_tick();
        if let Some(ev) = ctrl.handle_interrupt() {
            return Some(ev);
        }
    }
    None
}

fn page_filled(val: u8) -> LowRiscPage {
    LowRiscPage(vec![val; PAGE_SIZE])
}

fn patterned_page() -> LowRiscPage {
    let mut p = LowRiscPage::new();
    let mut val: u8 = 0;
    for i in 0..PAGE_SIZE {
        val = val.wrapping_add(10);
        p.write_byte(i, val);
    }
    p
}

fn read_back(ctrl: &mut FlashCtrl, page_num: usize) -> Vec<u8> {
    assert!(ctrl.read_page(page_num, LowRiscPage::new()).is_ok());
    match pump(ctrl) {
        Some(FlashEvent::ReadComplete(page, err)) => {
            assert_eq!(err, Error::CommandComplete);
            page.0
        }
        other => panic!("expected a read completion, got {:?}", other),
    }
}

fn write_page_ok(ctrl: &mut FlashCtrl, page_num: usize, data: LowRiscPage) {
    assert!(ctrl.write_page(page_num, data).is_ok());
    match pump(ctrl) {
        Some(FlashEvent::WriteComplete(_, err)) => assert_eq!(err, Error::CommandComplete),
        other => panic!("expected a write completion, got {:?}", other),
    }
}

fn erase_page_ok(ctrl: &mut FlashCtrl, page_num: usize) {
    assert!(ctrl.erase_page(page_num).is_ok());
    match pump(ctrl) {
        Some(FlashEvent::EraseComplete(err)) => assert_eq!(err, Error::CommandComplete),
        other => panic!("expected an erase completion, got {:?}", other),
    }
}

#[test]
fn fresh_flash_reads_erased() {
    let mut ctrl = new_ctrl();
    let out = read_back(&mut ctrl, 0);
    assert_eq!(out.len(), PAGE_SIZE);
    assert!(out.iter().all(|&b| b == 0xFF));
}

#[test]
fn read_write_round_trip_mid_page() {
    let mut ctrl = new_ctrl();
    let page_num = 5;
    erase_page_ok(&mut ctrl, page_num);
    let data = patterned_page();
    let expected = data.0.clone();
    write_page_ok(&mut ctrl, page_num, data);
    let out = read_back(&mut ctrl, page_num);
    assert_eq!(out, expected);
}

#[test]
fn read_write_round_trip_boundary_pages() {
    let mut ctrl = new_ctrl();
    for &page_num in &[0usize, 511] {
        erase_page_ok(&mut ctrl, page_num);
        let data = page_filled(0xAA);
        write_page_ok(&mut ctrl, page_num, data);
        let out = read_back(&mut ctrl, page_num);
        assert!(out.iter().all(|&b| b == 0xAA));
    }
}

#[test]
fn write_does_not_disturb_neighbour_pages() {
    let mut ctrl = new_ctrl();
    write_page_ok(&mut ctrl, 7, page_filled(0x11));
    write_page_ok(&mut ctrl, 8, page_filled(0x22));
    let out7 = read_back(&mut ctrl, 7);
    let out8 = read_back(&mut ctrl, 8);
    assert!(out7.iter().all(|&b| b == 0x11));
    assert!(out8.iter().all(|&b| b == 0x22));
}

#[test]
fn erase_sets_every_byte_and_is_idempotent() {
    let mut ctrl = new_ctrl();
    let page_num = 500;
    erase_page_ok(&mut ctrl, page_num);
    write_page_ok(&mut ctrl, page_num, page_filled(0xAA));
    erase_page_ok(&mut ctrl, page_num);
    let out = read_back(&mut ctrl, page_num);
    assert!(out.iter().all(|&b| b == 0xFF));
    // Erasing again leaves the page all 0xFF.
    erase_page_ok(&mut ctrl, page_num);
    let out = read_back(&mut ctrl, page_num);
    assert!(out.iter().all(|&b| b == 0xFF));
}

#[test]
fn window_chunking_limits_each_run() {
    let ctrl = new_ctrl();
    // A page-aligned full page allows exactly one window of sixteen words.
    assert_eq!(ctrl.calculate_max_prog_len(0, PAGE_SIZE as u32), 16);
    // Mid-window start: only the words up to the boundary fit.
    assert_eq!(ctrl.calculate_max_prog_len(3, PAGE_SIZE as u32), 13);
    assert_eq!(ctrl.calculate_max_prog_len(15, PAGE_SIZE as u32), 1);
    // Few remaining bytes bind before the window does.
    assert_eq!(ctrl.calculate_max_prog_len(0, 8), 2);
}

#[test]
fn page_write_takes_multiple_runs() {
    let mut ctrl = new_ctrl();
    assert!(ctrl.write_page(3, patterned_page()).is_ok());
    // A full page cannot finish in one window-limited run: completion
    // arrives only after many handler invocations, one per issued run.
    let mut rounds = 0;
    let mut completed = false;
    for _ in 0..80 {
        ctrl.hw_tick();
        rounds += 1;
        if let Some(FlashEvent::WriteComplete(_, err)) = ctrl.handle_interrupt() {
            assert_eq!(err, Error::CommandComplete);
            completed = true;
            break;
        }
    }
    assert!(completed);
    assert!(rounds >= 2, "a straddling write must take at least two runs");
    // The concatenation of all runs equals the original buffer.
    let out = read_back(&mut ctrl, 3);
    assert_eq!(out, patterned_page().0);
}

#[test]
fn second_request_while_busy_is_rejected() {
    let mut ctrl = new_ctrl();
    assert!(ctrl.read_page(4, LowRiscPage::new()).is_ok());
    // A second request of any kind fails synchronously with BUSY and the
    // buffer comes straight back.
    match ctrl.read_page(5, page_filled(0x55)) {
        Err((e, b)) => {
            assert_eq!(e, ErrorCode::BUSY);
            assert!(b.0.iter().all(|&x| x == 0x55));
        }
        Ok(()) => panic!("a second read while busy must be rejected"),
    }
    match ctrl.write_page(5, page_filled(0x66)) {
        Err((e, b)) => {
            assert_eq!(e, ErrorCode::BUSY);
            assert!(b.0.iter().all(|&x| x == 0x66));
        }
        Ok(()) => panic!("a write while busy must be rejected"),
    }
    assert_eq!(ctrl.erase_page(5), Err(ErrorCode::BUSY));
    // The in-flight read is undisturbed and completes normally.
    match pump(&mut ctrl) {
        Some(FlashEvent::ReadComplete(page, err)) => {
            assert_eq!(err, Error::CommandComplete);
            assert!(page.0.iter().all(|&b| b == 0xFF));
        }
        other => panic!("expected the first read to complete, got {:?}", other),
    }
}

#[test]
fn completion_fires_exactly_once() {
    let mut ctrl = new_ctrl();
    assert!(ctrl.erase_page(9).is_ok());
    let mut events = 0;
    for _ in 0..80 {
        ctrl.hw_tick();
        if ctrl.handle_interrupt().is_some() {
            events += 1;
        }
    }
    assert_eq!(events, 1);
    // The same holds for a write: one buffer comes back, once.
    assert!(ctrl.write_page(9, page_filled(0x3C)).is_ok());
    let mut buffers = 0;
    for _ in 0..80 {
        ctrl.hw_tick();
        match ctrl.handle_interrupt() {
            Some(FlashEvent::WriteComplete(_, err)) => {
                assert_eq!(err, Error::CommandComplete);
                buffers += 1;
            }
            Some(other) => panic!("unexpected event {:?}", other),
            None => {}
        }
    }
    assert_eq!(buffers, 1);
}

#[test]
fn idle_controller_reports_no_events() {
    let mut ctrl = new_ctrl();
    for _ in 0..10 {
        ctrl.hw_tick();
        assert!(ctrl.handle_interrupt().is_none());
    }
}
