use power_windows::breaker::FaultBreaker;
use power_windows::config::PowerWindowsConfig;
use power_windows::driver::{PinOp, PowerWindowDriver, RelayLevels, WindowDriverState};
use power_windows::motion::{PowerWindowSvc, ServerRequest, ServerRequestType, State};

fn config(opening: u16, closing: u16, handle_time: u16) -> PowerWindowsConfig {
    PowerWindowsConfig {
        opening_current_interrupt_threshold_amps: opening,
        closing_current_interrupt_threshold_amps: closing,
        handle_time_threshold_millis: handle_time,
    }
}

/// Carries out every pending pin operation successfully, checking after
/// each one that the relays are never both energized.
fn drain(svc: &mut PowerWindowSvc) -> Vec<PinOp> {
    let mut done = Vec::new();
    while let Some(op) = svc.next_pin_op() {
        svc.pin_op_succeeded();
        let relays = svc.driver().relays();
        assert!(!(relays.open_energized && relays.close_energized));
        done.push(op);
    }
    done
}

fn released() -> RelayLevels {
    RelayLevels { open_energized: false, close_energized: false }
}

#[test]
fn new_controller_is_idle_and_released() {
    let svc = PowerWindowSvc::new(config(20, 20, 300));
    assert_eq!(svc.state(), State::Idle);
    assert_eq!(svc.last_handle_time_millis(), 0);
    assert_eq!(svc.next_pin_op(), None);
    assert_eq!(svc.driver().relays(), released());
    assert_eq!(svc.driver().state(), WindowDriverState::INTERRUPTED);
}

#[test]
fn opening_switches_relays_in_safe_order() {
    let mut svc = PowerWindowSvc::new(config(20, 20, 300));
    svc.handle_opening(true, 100);
    assert_eq!(svc.state(), State::OpeningContinuous);
    assert_eq!(svc.last_handle_time_millis(), 100);
    assert_eq!(svc.next_pin_op(), Some(PinOp::SetCloseLow));
    let ops = drain(&mut svc);
    assert_eq!(ops, vec![PinOp::SetCloseLow, PinOp::SettleDelay, PinOp::SetOpenHigh]);
    assert_eq!(svc.driver().state(), WindowDriverState::OPENING);
    assert_eq!(
        svc.driver().relays(),
        RelayLevels { open_energized: true, close_energized: false }
    );
}

#[test]
fn closing_after_opening_releases_open_relay_first() {
    let mut svc = PowerWindowSvc::new(config(20, 20, 300));
    svc.handle_opening(false, 100);
    drain(&mut svc);
    svc.handle_closing(true, 200);
    assert_eq!(svc.state(), State::ClosingContinuous);
    let ops = drain(&mut svc);
    assert_eq!(ops, vec![PinOp::SetOpenLow, PinOp::SettleDelay, PinOp::SetCloseHigh]);
    assert_eq!(
        svc.driver().relays(),
        RelayLevels { open_energized: false, close_energized: true }
    );
}

#[test]
fn direction_changes_never_energize_both_relays() {
    let mut svc = PowerWindowSvc::new(config(20, 20, 300));
    let mut now: u64 = 0;
    for round in 0..12u64 {
        now += 100;
        match round % 4 {
            0 => svc.handle_opening(round % 3 == 0, now),
            1 => svc.handle_closing(round % 3 == 0, now),
            2 => svc.handle_stop(),
            _ => {
                svc.timeout_tick(now + 1000);
            }
        }
        let relays = svc.driver().relays();
        assert!(!(relays.open_energized && relays.close_energized));
        drain(&mut svc);
    }
}

#[test]
fn continuous_then_fully_upgrades_without_relay_switch() {
    let mut svc = PowerWindowSvc::new(config(20, 20, 300));
    svc.handle_opening(true, 100);
    drain(&mut svc);
    svc.handle_opening(false, 150);
    assert_eq!(svc.state(), State::OpeningFully);
    assert_eq!(svc.last_handle_time_millis(), 150);
    assert_eq!(svc.next_pin_op(), None);
}

#[test]
fn continuous_repeat_only_slides_timeout() {
    let mut svc = PowerWindowSvc::new(config(20, 20, 300));
    svc.handle_opening(true, 100);
    drain(&mut svc);
    svc.handle_opening(true, 250);
    assert_eq!(svc.state(), State::OpeningContinuous);
    assert_eq!(svc.last_handle_time_millis(), 250);
    assert_eq!(svc.next_pin_op(), None);
    svc.handle_opening(false, 260);
    svc.handle_opening(true, 270);
    assert_eq!(svc.state(), State::OpeningFully);
    assert_eq!(svc.next_pin_op(), None);
}

#[test]
fn closing_upgrade_and_ignore() {
    let mut svc = PowerWindowSvc::new(config(20, 20, 300));
    svc.handle_closing(true, 100);
    drain(&mut svc);
    svc.handle_closing(false, 120);
    assert_eq!(svc.state(), State::ClosingFully);
    assert_eq!(svc.next_pin_op(), None);
    svc.handle_closing(true, 130);
    assert_eq!(svc.state(), State::ClosingFully);
}

#[test]
fn stop_ignored_while_fully() {
    let mut svc = PowerWindowSvc::new(config(20, 20, 300));
    svc.handle_opening(false, 100);
    drain(&mut svc);
    svc.handle_stop();
    assert_eq!(svc.state(), State::OpeningFully);
    assert_eq!(svc.next_pin_op(), None);

    let mut svc = PowerWindowSvc::new(config(20, 20, 300));
    svc.handle_closing(false, 100);
    drain(&mut svc);
    svc.handle_stop();
    assert_eq!(svc.state(), State::ClosingFully);
    assert_eq!(svc.next_pin_op(), None);
}

#[test]
fn stop_releases_continuous_motion() {
    let mut svc = PowerWindowSvc::new(config(20, 20, 300));
    svc.handle_closing(true, 100);
    drain(&mut svc);
    svc.handle_stop();
    assert_eq!(svc.state(), State::Idle);
    assert_eq!(drain(&mut svc), vec![PinOp::SetCloseLow, PinOp::SetOpenLow]);
    assert_eq!(svc.driver().relays(), released());
    assert_eq!(svc.driver().state(), WindowDriverState::INTERRUPTED);
}

#[test]
fn timeout_stops_continuous_opening() {
    let mut svc = PowerWindowSvc::new(config(20, 20, 300));
    svc.handle_opening(true, 1000);
    drain(&mut svc);
    assert!(!svc.timeout_tick(1299));
    assert_eq!(svc.state(), State::OpeningContinuous);
    assert!(svc.timeout_tick(1300));
    assert_eq!(svc.state(), State::Idle);
    drain(&mut svc);
    assert!(!svc.driver().relays().open_energized);
    assert_eq!(svc.driver().relays(), released());
}

#[test]
fn timeout_exempts_fully_motion() {
    let mut svc = PowerWindowSvc::new(config(20, 20, 300));
    svc.handle_closing(false, 1000);
    drain(&mut svc);
    assert!(!svc.timeout_tick(100_000));
    assert_eq!(svc.state(), State::ClosingFully);
}

#[test]
fn timeout_uses_updated_configuration() {
    let mut svc = PowerWindowSvc::new(config(20, 20, 300));
    svc.handle_opening(true, 1000);
    drain(&mut svc);
    svc.configure([0, 20, 0, 20, 0x01, 0xf4, 0, 0]);
    assert_eq!(svc.config().handle_time_threshold_millis, 500);
    assert!(!svc.timeout_tick(1300));
    assert!(svc.timeout_tick(1500));
}

#[test]
fn timeout_with_clock_behind_last_command() {
    let mut svc = PowerWindowSvc::new(config(20, 20, 0));
    svc.handle_opening(true, 1000);
    drain(&mut svc);
    assert!(svc.timeout_tick(10));
    assert_eq!(svc.state(), State::Idle);
}

#[test]
fn overload_interrupts_continuous_closing() {
    let mut svc = PowerWindowSvc::new(config(20, 20, 300));
    svc.handle_closing(true, 100);
    drain(&mut svc);
    let current = PowerWindowDriver::read_current(1, 0);
    assert_eq!(current.closing_current, 80);
    assert!(svc.overload_tick(&current));
    assert_eq!(svc.state(), State::ClosingContinuous);
    assert_eq!(drain(&mut svc), vec![PinOp::SetCloseLow, PinOp::SetOpenLow]);
    assert_eq!(svc.state(), State::ClosingInterrupted);
    assert_eq!(svc.driver().relays(), released());
}

#[test]
fn overload_finishes_fully_closing() {
    let mut svc = PowerWindowSvc::new(config(20, 20, 300));
    svc.handle_closing(false, 100);
    drain(&mut svc);
    assert!(svc.overload_tick(&PowerWindowDriver::read_current(1, 0)));
    drain(&mut svc);
    assert_eq!(svc.state(), State::ClosingFinished);
}

#[test]
fn overload_interrupts_opening() {
    let mut svc = PowerWindowSvc::new(config(20, 20, 300));
    svc.handle_opening(true, 100);
    drain(&mut svc);
    assert!(svc.overload_tick(&PowerWindowDriver::read_current(0, 3)));
    drain(&mut svc);
    assert_eq!(svc.state(), State::OpeningInterrupted);
    svc.handle_opening(false, 200);
    assert_eq!(svc.state(), State::OpeningInterrupted);
}

#[test]
fn overload_at_threshold_or_wrong_side_is_ignored() {
    let mut svc = PowerWindowSvc::new(config(80, 80, 300));
    svc.handle_closing(true, 100);
    drain(&mut svc);
    assert!(!svc.overload_tick(&PowerWindowDriver::read_current(1, 0)));
    assert!(!svc.overload_tick(&PowerWindowDriver::read_current(0, 100)));
    assert_eq!(svc.state(), State::ClosingContinuous);
    assert_eq!(svc.next_pin_op(), None);

    let mut idle = PowerWindowSvc::new(config(20, 20, 300));
    assert!(!idle.overload_tick(&PowerWindowDriver::read_current(1000, 1000)));
    assert_eq!(idle.state(), State::Idle);
}

#[test]
fn failed_interrupt_is_retried() {
    let mut svc = PowerWindowSvc::new(config(20, 20, 300));
    svc.handle_closing(true, 100);
    drain(&mut svc);
    let current = PowerWindowDriver::read_current(5, 0);
    assert!(svc.overload_tick(&current));
    assert_eq!(svc.next_pin_op(), Some(PinOp::SetCloseLow));
    svc.pin_op_failed();
    assert_eq!(svc.next_pin_op(), None);
    assert_eq!(svc.state(), State::ClosingContinuous);
    assert!(svc.driver().relays().close_energized);
    assert!(svc.overload_tick(&current));
    drain(&mut svc);
    assert_eq!(svc.state(), State::ClosingInterrupted);
}

#[test]
fn failed_switch_keeps_driver_mode() {
    let mut svc = PowerWindowSvc::new(config(20, 20, 300));
    svc.handle_opening(true, 100);
    svc.pin_op_succeeded();
    svc.pin_op_succeeded();
    assert_eq!(svc.next_pin_op(), Some(PinOp::SetOpenHigh));
    svc.pin_op_failed();
    assert_eq!(svc.driver().state(), WindowDriverState::INTERRUPTED);
    assert_eq!(svc.state(), State::OpeningContinuous);
    assert!(svc.driver().relays().open_energized);
    assert!(!svc.driver().relays().close_energized);
}

#[test]
fn debug_dwell_ends_fully_motion() {
    let mut svc = PowerWindowSvc::new(config(20, 20, 300));
    svc.handle_opening(false, 1000);
    drain(&mut svc);
    assert!(!svc.dwell_tick(4999));
    assert!(svc.dwell_tick(5000));
    drain(&mut svc);
    assert_eq!(svc.state(), State::OpeningFinished);

    let mut cont = PowerWindowSvc::new(config(20, 20, 300));
    cont.handle_closing(true, 0);
    drain(&mut cont);
    assert!(!cont.dwell_tick(10_000));
    assert_eq!(cont.state(), State::ClosingContinuous);
}

#[test]
fn requests_dispatch_to_operations() {
    let mut svc = PowerWindowSvc::new(config(20, 20, 300));
    let zero = [0u8; 8];
    svc.handle_request(&ServerRequest { request_type: ServerRequestType::Open, request_data: zero }, 10);
    assert_eq!(svc.state(), State::OpeningContinuous);
    drain(&mut svc);
    svc.handle_request(&ServerRequest { request_type: ServerRequestType::Stop, request_data: zero }, 20);
    assert_eq!(svc.state(), State::Idle);
    drain(&mut svc);
    svc.handle_request(&ServerRequest { request_type: ServerRequestType::CloseFully, request_data: zero }, 30);
    assert_eq!(svc.state(), State::ClosingFully);
    drain(&mut svc);
    svc.handle_request(&ServerRequest { request_type: ServerRequestType::OpenFully, request_data: zero }, 40);
    assert_eq!(svc.state(), State::OpeningFully);
    drain(&mut svc);
    svc.handle_request(&ServerRequest { request_type: ServerRequestType::Close, request_data: zero }, 50);
    assert_eq!(svc.state(), State::ClosingContinuous);
    drain(&mut svc);
    svc.handle_request(
        &ServerRequest {
            request_type: ServerRequestType::ConfigureCurrentThresholds,
            request_data: [0, 15, 0, 25, 0x01, 0xf4, 0, 0],
        },
        60,
    );
    assert_eq!(svc.config(), config(15, 25, 500));
    assert_eq!(svc.state(), State::ClosingContinuous);
    assert_eq!(svc.last_handle_time_millis(), 50);
}

#[test]
fn current_scale_is_eighty() {
    let c = PowerWindowDriver::read_current(3, 7);
    assert_eq!(c.closing_current, 240);
    assert_eq!(c.opening_current, 560);
    let max = PowerWindowDriver::read_current(u16::MAX, 0);
    assert_eq!(max.closing_current, 65535 * 80);
}

#[test]
fn breaker_halts_on_fourth_fault() {
    let mut breaker = FaultBreaker::new();
    assert!(!breaker.record_fault());
    assert!(!breaker.record_fault());
    assert!(!breaker.record_fault());
    assert!(!breaker.is_tripped());
    assert_eq!(breaker.error_count(), 3);
    assert!(breaker.record_fault());
    assert!(breaker.is_tripped());
}

#[test]
fn breaker_counts_only_errors() {
    let mut breaker = FaultBreaker::new();
    let ok: Result<(), &str> = Ok(());
    let err: Result<(), &str> = Err("pin");
    for _ in 0..10 {
        assert!(!breaker.handle_result(&ok));
    }
    assert_eq!(breaker.error_count(), 0);
    assert!(!breaker.handle_result(&err));
    assert!(!breaker.handle_result(&ok));
    assert_eq!(breaker.error_count(), 1);
    assert!(!breaker.handle_result(&err));
    assert!(!breaker.handle_result(&err));
    assert!(breaker.handle_result(&err));
}

#[test]
fn breaker_count_saturates() {
    let mut breaker = FaultBreaker::new();
    for _ in 0..300 {
        breaker.record_fault();
    }
    assert_eq!(breaker.error_count(), 255);
    assert!(breaker.is_tripped());
}
