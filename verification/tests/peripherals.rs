//! Tests of the smaller peripheral drivers: PWM, CSRNG, temperature
//! sensor, chip configuration and the console writer.

use lowrisc::chip_config::Config;
use lowrisc::console::ConsoleWriter;
use lowrisc::console::CONSOLE_BUF_SIZE;
use lowrisc::csrng::CsRng;
use lowrisc::csrng::CsRngRegisters;
use lowrisc::error::ErrorCode;
use lowrisc::pwm::PWMCtrl;
use lowrisc::pwm::PWMRegisters;
use lowrisc::tsens::tsens_ctl;
use lowrisc::tsens::APBRegisters;
use lowrisc::tsens::TSENS_POWER_UP;

#[test]
fn pwm_clk_div_exact_value() {
    let ctrl = PWMCtrl::new(PWMRegisters::new());
    // 2_500_000 / ((2 << 8) * 100) - 1 = 2_500_000 / 51_200 - 1 = 47.
    assert_eq!(ctrl.calc_clk_div(2_500_000, 100, 8), Ok(47));
    // 2_500_000 / ((2 << 8) * 9600) - 1: quotient 0, not representable.
    assert_eq!(ctrl.calc_clk_div(2_500_000, 9600, 8), Err(ErrorCode::INVAL));
}

#[test]
fn pwm_clk_div_rejects_bad_arguments() {
    let ctrl = PWMCtrl::new(PWMRegisters::new());
    // Resolution beyond the field width.
    assert_eq!(ctrl.calc_clk_div(2_500_000, 100, 17), Err(ErrorCode::INVAL));
    // Requested clock at or above the peripheral clock.
    assert_eq!(ctrl.calc_clk_div(100, 200, 8), Err(ErrorCode::INVAL));
    assert_eq!(ctrl.calc_clk_div(100, 100, 8), Err(ErrorCode::INVAL));
    // Zero frequency has no divider.
    assert_eq!(ctrl.calc_clk_div(2_500_000, 0, 8), Err(ErrorCode::INVAL));
}

#[test]
fn pwm_start_and_stop_drive_channel_enables() {
    let mut ctrl = PWMCtrl::new(PWMRegisters::new());
    assert!(ctrl.start(&2, 1000, 50).is_ok());
    assert!(ctrl.registers.pwm_en[2]);
    assert!(ctrl.registers.cfg.cntr_en);
    assert_eq!(ctrl.registers.cfg.dc_resn, 7);
    assert!(ctrl.stop(&2).is_ok());
    assert!(!ctrl.registers.pwm_en[2]);
    // Channels the block does not have are rejected.
    assert_eq!(ctrl.pwm_chan_start(6, 10), Err(ErrorCode::INVAL));
    assert_eq!(ctrl.pwm_chan_stop(6), Err(ErrorCode::INVAL));
}

#[test]
fn pwm_duty_cycle_is_truncated_to_field_width() {
    let mut ctrl = PWMCtrl::new(PWMRegisters::new());
    assert!(ctrl.pwm_chan_start(1, 0x1_FFFF).is_ok());
    assert_eq!(ctrl.registers.duty_cycle[1].a, 0xFFFF);
    assert_eq!(ctrl.registers.duty_cycle[1].b, 0xFFFF);
}

#[test]
fn pwm_locked_configuration_is_refused() {
    let mut ctrl = PWMCtrl::new(PWMRegisters::new());
    ctrl.registers.regwen = true;
    assert_eq!(ctrl.pwm_setup(1000, 50), Err(ErrorCode::NOSUPPORT));
    assert_eq!(ctrl.start(&0, 1000, 50), Err(ErrorCode::NOSUPPORT));
}

#[test]
fn pwm_zero_frequency_stops_all_channels() {
    let mut ctrl = PWMCtrl::new(PWMRegisters::new());
    assert!(ctrl.pwm_chan_start(0, 10).is_ok());
    assert!(ctrl.pwm_chan_start(5, 10).is_ok());
    assert!(ctrl.pwm_setup(0, 0).is_ok());
    for c in 0..6 {
        assert!(!ctrl.registers.pwm_en[c]);
    }
}

#[test]
fn csrng_delivers_the_pool_words() {
    let pool: Vec<u32> = (1..=12).collect();
    let mut rng = CsRng::new(CsRngRegisters::new(pool));
    assert!(rng.get().is_ok());
    match rng.handle_interrupt() {
        Some(Ok(words)) => assert_eq!(words, (1..=8).collect::<Vec<u32>>()),
        other => panic!("expected eight words, got {:?}", other),
    }
    // A second request drains what remains of the pool.
    assert!(rng.get().is_ok());
    match rng.handle_interrupt() {
        Some(Ok(words)) => assert_eq!(words, (9..=12).collect::<Vec<u32>>()),
        other => panic!("expected the last four words, got {:?}", other),
    }
    assert!(rng.cancel().is_ok());
    assert!(!rng.registers.instantiated);
}

#[test]
fn csrng_locked_registers_fail() {
    let mut rng = CsRng::new(CsRngRegisters::new(vec![7; 8]));
    rng.registers.regwen = false;
    assert_eq!(rng.get(), Err(ErrorCode::FAIL));
}

#[test]
fn csrng_fault_interrupts_report_failure() {
    let mut rng = CsRng::new(CsRngRegisters::new(vec![7; 8]));
    rng.registers.intr_state.fatal_err = true;
    assert_eq!(rng.handle_interrupt(), Some(Err(ErrorCode::FAIL)));
    rng.registers.intr_state.hw_inst_exc = true;
    assert_eq!(rng.handle_interrupt(), Some(Err(ErrorCode::FAIL)));
    // With nothing pending there is no event.
    assert_eq!(rng.handle_interrupt(), None);
}

#[test]
fn tsens_read_powers_the_sensor_up() {
    let mut sensor = tsens_ctl::new(APBRegisters::new());
    assert!(sensor.read_temperature().is_ok());
    assert_eq!(sensor.registers.saradc_apb_tsens_ctrl1, TSENS_POWER_UP);
}

#[test]
fn chip_configs_carry_their_clock_rates() {
    let fpga = Config::fpga_cw310();
    assert_eq!(fpga.name, "fpga_cw310");
    assert_eq!(fpga.cpu_freq, 10_000_000);
    assert_eq!(fpga.peripheral_freq, 2_500_000);
    assert_eq!(fpga.aon_timer_freq, 250_000);
    assert_eq!(fpga.uart_baudrate, 115200);
    let sim = Config::sim_verilator();
    assert_eq!(sim.name, "sim_verilator");
    assert_eq!(sim.cpu_freq, 500_000);
    assert_eq!(sim.peripheral_freq, 125_000);
    assert_eq!(sim.aon_timer_freq, 125_000);
    assert_eq!(sim.uart_baudrate, 7200);
}

#[test]
fn console_writer_appends_and_clears() {
    let mut w = ConsoleWriter::new();
    assert_eq!(w.write_buffer(b"hello"), Ok(5));
    assert_eq!(w.size, 5);
    assert_eq!(&w.buf[0..5], b"hello");
    assert_eq!(w.write_buffer(b", world"), Ok(7));
    assert_eq!(&w.buf[0..12], b"hello, world");
    w.clear();
    assert_eq!(w.size, 0);
}

#[test]
fn console_writer_truncates_at_capacity() {
    let mut w = ConsoleWriter::new();
    let big = vec![0x41u8; CONSOLE_BUF_SIZE + 100];
    assert_eq!(w.write_buffer(&big), Ok(CONSOLE_BUF_SIZE));
    assert_eq!(w.size, CONSOLE_BUF_SIZE);
    // A full buffer takes nothing more.
    assert_eq!(w.write_buffer(b"x"), Ok(0));
}
