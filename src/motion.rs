use vstd::prelude::*;
use crate::config::{config_of_bytes, Deserialize, PowerWindowsConfig};
use crate::driver::{
    both_energized, current_of_millivolts, driver_interrupt, driver_op_failed,
    driver_op_succeeded, driver_start_closing, driver_start_opening, interrupt_plan, plan_safe,
    DriverView, PinOp, PowerWindowDriver, WindowCurrentState, WindowDriverState,
};

verus! {

/// Motion state of one door.
#[derive(Debug, Clone, Copy, PartialEq, Eq, Structural)]
pub enum State {
    Idle,
    OpeningContinuous,
    OpeningFully,
    OpeningInterrupted,
    OpeningFinished,
    ClosingContinuous,
    ClosingFully,
    ClosingInterrupted,
    ClosingFinished,
}

/// Commands that a door node accepts.
#[derive(Debug, Clone, Copy, PartialEq, Eq, Structural)]
pub enum ServerRequestType {
    Stop,
    Open,
    Close,
    OpenFully,
    CloseFully,
    ConfigureCurrentThresholds,
}

/// A command with its 8-byte payload (zero for motion commands, the wire
/// form of a configuration for `ConfigureCurrentThresholds`).
#[derive(Debug, Clone, Copy)]
pub struct ServerRequest {
    pub request_type: ServerRequestType,
    pub request_data: [u8; 8],
}

/// Dwell in a fully-opening or fully-closing state after which the bench
/// mode of the supervisor ends the motion.
pub const DEBUG_FULL_TRAVEL_MILLIS: u64 = 4000;

pub open spec fn is_opening(s: State) -> bool {
    ||| s == State::OpeningContinuous
    ||| s == State::OpeningFully
    ||| s == State::OpeningInterrupted
    ||| s == State::OpeningFinished
}

pub open spec fn is_closing(s: State) -> bool {
    ||| s == State::ClosingContinuous
    ||| s == State::ClosingFully
    ||| s == State::ClosingInterrupted
    ||| s == State::ClosingFinished
}

/// The motion state after an opening command.
pub open spec fn opening_next(s: State, continuous: bool) -> State {
    if is_opening(s) && !(s == State::OpeningContinuous && !continuous) {
        s
    } else if continuous {
        State::OpeningContinuous
    } else {
        State::OpeningFully
    }
}

/// The motion state after a closing command.
pub open spec fn closing_next(s: State, continuous: bool) -> State {
    if is_closing(s) && !(s == State::ClosingContinuous && !continuous) {
        s
    } else if continuous {
        State::ClosingContinuous
    } else {
        State::ClosingFully
    }
}

/// The motion state that an opening interrupt ends in.
pub open spec fn open_interrupt_next(s: State) -> State {
    if s == State::OpeningContinuous {
        State::OpeningInterrupted
    } else {
        State::OpeningFinished
    }
}

/// The motion state that a closing interrupt ends in.
pub open spec fn close_interrupt_next(s: State) -> State {
    if s == State::ClosingContinuous {
        State::ClosingInterrupted
    } else {
        State::ClosingFinished
    }
}

/// Milliseconds from `last` to `now`; a reading earlier than `last` counts
/// as none elapsed.
pub open spec fn elapsed_millis(last: u64, now: u64) -> int {
    if now >= last {
        now - last
    } else {
        0
    }
}

/// The abstract state of a door's motion controller.
pub ghost struct SvcView {
    pub driver: DriverView,
    pub last_handle_time_millis: u64,
    pub state: State,
    pub config: PowerWindowsConfig,
    /// The motion state taken once the pending relay operations succeed.
    pub on_completion: Option<State>,
}

pub open spec fn svc_opening(v: SvcView, continuous: bool, now: u64) -> SvcView {
    SvcView {
        last_handle_time_millis: now,
        state: opening_next(v.state, continuous),
        driver: if is_opening(v.state) { v.driver } else { driver_start_opening(v.driver) },
        on_completion: if is_opening(v.state) { v.on_completion } else { None },
        ..v
    }
}

pub open spec fn svc_closing(v: SvcView, continuous: bool, now: u64) -> SvcView {
    SvcView {
        last_handle_time_millis: now,
        state: closing_next(v.state, continuous),
        driver: if is_closing(v.state) { v.driver } else { driver_start_closing(v.driver) },
        on_completion: if is_closing(v.state) { v.on_completion } else { None },
        ..v
    }
}

pub open spec fn svc_stop(v: SvcView) -> SvcView {
    if v.state == State::OpeningFully || v.state == State::ClosingFully {
        v
    } else {
        SvcView { state: State::Idle, driver: driver_interrupt(v.driver), on_completion: None, ..v }
    }
}

pub open spec fn svc_open_interrupt(v: SvcView) -> SvcView {
    SvcView {
        driver: driver_interrupt(v.driver),
        on_completion: Some(open_interrupt_next(v.state)),
        ..v
    }
}

pub open spec fn svc_close_interrupt(v: SvcView) -> SvcView {
    SvcView {
        driver: driver_interrupt(v.driver),
        on_completion: Some(close_interrupt_next(v.state)),
        ..v
    }
}

pub open spec fn svc_configure(v: SvcView, data: Seq<u8>) -> SvcView {
    SvcView { config: config_of_bytes(data), ..v }
}

pub open spec fn svc_op_succeeded(v: SvcView) -> SvcView {
    let d = driver_op_succeeded(v.driver);
    if d.pending.len() == 0 {
        SvcView {
            driver: d,
            state: match v.on_completion {
                Some(s) => s,
                None => v.state,
            },
            on_completion: None,
            ..v
        }
    } else {
        SvcView { driver: d, ..v }
    }
}

pub open spec fn svc_op_failed(v: SvcView) -> SvcView {
    SvcView { driver: driver_op_failed(v.driver), on_completion: None, ..v }
}

/// The effect of a command on the controller.
pub open spec fn svc_request(v: SvcView, request: ServerRequest, now: u64) -> SvcView {
    match request.request_type {
        ServerRequestType::Open => svc_opening(v, true, now),
        ServerRequestType::Close => svc_closing(v, true, now),
        ServerRequestType::OpenFully => svc_opening(v, false, now),
        ServerRequestType::CloseFully => svc_closing(v, false, now),
        ServerRequestType::Stop => svc_stop(v),
        ServerRequestType::ConfigureCurrentThresholds => svc_configure(v, request.request_data@),
    }
}

/// Whether a continuous motion has gone without a command for the
/// configured inactivity window.
pub open spec fn timeout_due(v: SvcView, now: u64) -> bool {
    &&& elapsed_millis(v.last_handle_time_millis, now) >= v.config.handle_time_threshold_millis
    &&& (v.state == State::OpeningContinuous || v.state == State::ClosingContinuous)
}

pub open spec fn closing_overloaded(v: SvcView, current: WindowCurrentState) -> bool {
    &&& (v.state == State::ClosingContinuous || v.state == State::ClosingFully)
    &&& current.closing_current > v.config.closing_current_interrupt_threshold_amps
}

pub open spec fn opening_overloaded(v: SvcView, current: WindowCurrentState) -> bool {
    &&& (v.state == State::OpeningContinuous || v.state == State::OpeningFully)
    &&& current.opening_current > v.config.opening_current_interrupt_threshold_amps
}

/// The effect of one overload check.
pub open spec fn svc_overload(v: SvcView, current: WindowCurrentState) -> SvcView {
    if closing_overloaded(v, current) {
        svc_close_interrupt(v)
    } else if opening_overloaded(v, current) {
        svc_open_interrupt(v)
    } else {
        v
    }
}

/// Whether the bench mode ends a fully motion that has run its dwell time.
pub open spec fn dwell_due(v: SvcView, now: u64) -> bool {
    &&& elapsed_millis(v.last_handle_time_millis, now) >= DEBUG_FULL_TRAVEL_MILLIS
    &&& (v.state == State::OpeningFully || v.state == State::ClosingFully)
}

pub open spec fn svc_dwell(v: SvcView, now: u64) -> SvcView {
    if dwell_due(v, now) {
        if v.state == State::ClosingFully {
            svc_close_interrupt(v)
        } else {
            svc_open_interrupt(v)
        }
    } else {
        v
    }
}

/// The controller once every pending relay operation has succeeded.
pub open spec fn settle(v: SvcView) -> SvcView
    decreases v.driver.pending.len(),
{
    if v.driver.pending.len() == 0 {
        v
    } else {
        settle(svc_op_succeeded(v))
    }
}

proof fn lemma_settle_interrupt(v: SvcView)
    requires
        v.driver.pending == interrupt_plan(),
    ensures
        settle(v).state == (match v.on_completion {
            Some(s) => s,
            None => v.state,
        }),
        !settle(v).driver.relays.open_energized,
        !settle(v).driver.relays.close_energized,
        settle(v).driver.pending.len() == 0,
{
    let v1 = svc_op_succeeded(v);
    assert(v1.driver.pending =~= seq![PinOp::SetOpenLow]);
    let v2 = svc_op_succeeded(v1);
    assert(v2.driver.pending =~= Seq::<PinOp>::empty());
    assert(settle(v2) == v2);
    assert(settle(v1) == settle(v2));
}

/// A controller never holds an opening and a closing state at once, and its
/// relay pair is never both energized. Every operation keeps the controller
/// well formed, so this holds in every reachable state.
pub proof fn lemma_direction_exclusive(svc: &PowerWindowSvc)
    requires
        svc.wf(),
    ensures
        !(is_opening(svc@.state) && is_closing(svc@.state)),
        !both_energized(svc@.driver.relays),
{
    svc.window_driver.lemma_wf();
    assert(plan_safe(svc@.driver.relays, svc@.driver.pending));
}

/// A fully opening command upgrades a continuous opening without a new relay
/// sequence; a continuous opening command in a continuous or fully opening
/// state leaves the motion state as it is and only moves the command time.
pub proof fn lemma_opening_upgrade_only(v: SvcView, now: u64)
    ensures
        v.state == State::OpeningContinuous ==> svc_opening(v, false, now).state
            == State::OpeningFully && svc_opening(v, false, now).driver == v.driver,
        (v.state == State::OpeningContinuous || v.state == State::OpeningFully) ==> svc_opening(
            v,
            true,
            now,
        ) == (SvcView { last_handle_time_millis: now, ..v }),
{
}

/// The closing counterpart of `lemma_opening_upgrade_only`.
pub proof fn lemma_closing_upgrade_only(v: SvcView, now: u64)
    ensures
        v.state == State::ClosingContinuous ==> svc_closing(v, false, now).state
            == State::ClosingFully && svc_closing(v, false, now).driver == v.driver,
        (v.state == State::ClosingContinuous || v.state == State::ClosingFully) ==> svc_closing(
            v,
            true,
            now,
        ) == (SvcView { last_handle_time_millis: now, ..v }),
{
}

/// A soft stop while a fully command runs changes nothing.
pub proof fn lemma_stop_precedence(v: SvcView)
    requires
        v.state == State::OpeningFully || v.state == State::ClosingFully,
    ensures
        svc_stop(v) == v,
{
}

/// A continuous motion with no command for at least the configured window
/// is soft-stopped by the next inactivity check: the state becomes `Idle`
/// and, once the released relays are switched, neither relay is energized.
pub proof fn lemma_timeout_soft_stop(v: SvcView, now: u64)
    requires
        v.state == State::OpeningContinuous || v.state == State::ClosingContinuous,
        elapsed_millis(v.last_handle_time_millis, now) >= v.config.handle_time_threshold_millis,
    ensures
        timeout_due(v, now),
        svc_stop(v).state == State::Idle,
        settle(svc_stop(v)).state == State::Idle,
        !settle(svc_stop(v)).driver.relays.open_energized,
        !settle(svc_stop(v)).driver.relays.close_energized,
{
    lemma_settle_interrupt(svc_stop(v));
}

/// A closing current above the closing threshold, read from a voltage drop
/// of `closing_mv` millivolts while closing, interrupts the motion: once the
/// relays are released it is `ClosingInterrupted` (continuous) or
/// `ClosingFinished` (fully).
pub proof fn lemma_overload_interrupts_closing(v: SvcView, closing_mv: u16, opening_mv: u16)
    requires
        v.state == State::ClosingContinuous || v.state == State::ClosingFully,
        current_of_millivolts(closing_mv) > v.config.closing_current_interrupt_threshold_amps,
    ensures
        ({
            let current = WindowCurrentState {
                closing_current: current_of_millivolts(closing_mv) as u32,
                opening_current: current_of_millivolts(opening_mv) as u32,
            };
            let after = settle(svc_overload(v, current));
            &&& closing_overloaded(v, current)
            &&& v.state == State::ClosingContinuous ==> after.state == State::ClosingInterrupted
            &&& v.state == State::ClosingFully ==> after.state == State::ClosingFinished
            &&& !after.driver.relays.open_energized
            &&& !after.driver.relays.close_energized
        }),
{
    let current = WindowCurrentState {
        closing_current: current_of_millivolts(closing_mv) as u32,
        opening_current: current_of_millivolts(opening_mv) as u32,
    };
    assert(current.closing_current == current_of_millivolts(closing_mv));
    lemma_settle_interrupt(svc_overload(v, current));
}

/// The opening counterpart of `lemma_overload_interrupts_closing`.
pub proof fn lemma_overload_interrupts_opening(v: SvcView, closing_mv: u16, opening_mv: u16)
    requires
        v.state == State::OpeningContinuous || v.state == State::OpeningFully,
        current_of_millivolts(opening_mv) > v.config.opening_current_interrupt_threshold_amps,
    ensures
        ({
            let current = WindowCurrentState {
                closing_current: current_of_millivolts(closing_mv) as u32,
                opening_current: current_of_millivolts(opening_mv) as u32,
            };
            let after = settle(svc_overload(v, current));
            &&& opening_overloaded(v, current)
            &&& v.state == State::OpeningContinuous ==> after.state == State::OpeningInterrupted
            &&& v.state == State::OpeningFully ==> after.state == State::OpeningFinished
            &&& !after.driver.relays.open_energized
            &&& !after.driver.relays.close_energized
        }),
{
    let current = WindowCurrentState {
        closing_current: current_of_millivolts(closing_mv) as u32,
        opening_current: current_of_millivolts(opening_mv) as u32,
    };
    assert(current.opening_current == current_of_millivolts(opening_mv));
    lemma_settle_interrupt(svc_overload(v, current));
}

/// Motion controller of one door node: the motion state machine, the time
/// of the last accepted command, the active configuration, and the relay
/// driver whose pin operations the caller carries out.
pub struct PowerWindowSvc {
    window_driver: PowerWindowDriver,
    last_handle_time_millis: u64,
    state: State,
    config: PowerWindowsConfig,
    on_completion: Option<State>,
}

impl View for PowerWindowSvc {
    type V = SvcView;

    closed spec fn view(&self) -> SvcView {
        SvcView {
            driver: self.window_driver@,
            last_handle_time_millis: self.last_handle_time_millis,
            state: self.state,
            config: self.config,
            on_completion: self.on_completion,
        }
    }
}

impl PowerWindowSvc {
    pub closed spec fn wf(&self) -> bool {
        self.window_driver.wf()
    }

    /// A controller at rest with both relays released.
    pub fn new(config: PowerWindowsConfig) -> (r: PowerWindowSvc)
        ensures
            r.wf(),
            r@.state == State::Idle,
            r@.last_handle_time_millis == 0,
            r@.config == config,
            r@.on_completion is None,
            r@.driver.pending.len() == 0,
            r@.driver.state == WindowDriverState::INTERRUPTED,
            r@.driver.target == WindowDriverState::INTERRUPTED,
            !r@.driver.relays.open_energized,
            !r@.driver.relays.close_energized,
    {
        PowerWindowSvc {
            window_driver: PowerWindowDriver::new(),
            last_handle_time_millis: 0,
            state: State::Idle,
            config,
            on_completion: None,
        }
    }

    pub fn state(&self) -> (r: State)
        ensures
            r == self@.state,
    {
        self.state
    }

    pub fn config(&self) -> (r: PowerWindowsConfig)
        ensures
            r == self@.config,
    {
        self.config
    }

    pub fn last_handle_time_millis(&self) -> (r: u64)
        ensures
            r == self@.last_handle_time_millis,
    {
        self.last_handle_time_millis
    }

    pub fn driver(&self) -> (r: &PowerWindowDriver)
        ensures
            r@ == self@.driver,
    {
        &self.window_driver
    }

    /// Opening command: records `now_millis` as the time of the last
    /// command, upgrades a continuous opening to a fully one, ignores it in
    /// any other opening state, and otherwise starts the relays opening.
    pub fn handle_opening(&mut self, continuous: bool, now_millis: u64)
        requires
            old(self).wf(),
        ensures
            final(self).wf(),
            final(self)@ == svc_opening(old(self)@, continuous, now_millis),
    {
        self.last_handle_time_millis = now_millis;
        match self.state {
            State::OpeningContinuous => {
                if !continuous {
                    self.state = State::OpeningFully;
                }
            },
            State::OpeningFinished | State::OpeningFully | State::OpeningInterrupted => {},
            _ => {
                self.state = if continuous {
                    State::OpeningContinuous
                } else {
                    State::OpeningFully
                };
                self.on_completion = None;
                self.window_driver.start_opening();
            },
        }
    }

    /// Closing command, the mirror image of `handle_opening`.
    pub fn handle_closing(&mut self, continuous: bool, now_millis: u64)
        requires
            old(self).wf(),
        ensures
            final(self).wf(),
            final(self)@ == svc_closing(old(self)@, continuous, now_millis),
    {
        self.last_handle_time_millis = now_millis;
        match self.state {
            State::ClosingContinuous => {
                if !continuous {
                    self.state = State::ClosingFully;
                }
            },
            State::ClosingFinished | State::ClosingFully | State::ClosingInterrupted => {},
            _ => {
                self.state = if continuous {
                    State::ClosingContinuous
                } else {
                    State::ClosingFully
                };
                self.on_completion = None;
                self.window_driver.start_closing();
            },
        }
    }

    /// Ends an opening motion on overload: releases both relays and, once
    /// that succeeded, marks the motion interrupted (continuous) or finished
    /// (fully).
    pub fn handle_open_interrupt(&mut self)
        requires
            old(self).wf(),
            old(self)@.state == State::OpeningContinuous || old(self)@.state
                == State::OpeningFully,
        ensures
            final(self).wf(),
            final(self)@ == svc_open_interrupt(old(self)@),
    {
        self.window_driver.interrupt();
        self.on_completion = Some(
            if self.state == State::OpeningContinuous {
                State::OpeningInterrupted
            } else {
                State::OpeningFinished
            },
        );
    }

    /// Ends a closing motion on overload, the mirror image of
    /// `handle_open_interrupt`.
    pub fn handle_close_interrupt(&mut self)
        requires
            old(self).wf(),
            old(self)@.state == State::ClosingContinuous || old(self)@.state
                == State::ClosingFully,
        ensures
            final(self).wf(),
            final(self)@ == svc_close_interrupt(old(self)@),
    {
        self.window_driver.interrupt();
        self.on_completion = Some(
            if self.state == State::ClosingContinuous {
                State::ClosingInterrupted
            } else {
                State::ClosingFinished
            },
        );
    }

    /// Soft stop: ignored while a fully command runs, otherwise releases both
    /// relays and returns to `Idle`.
    pub fn handle_stop(&mut self)
        requires
            old(self).wf(),
        ensures
            final(self).wf(),
            final(self)@ == svc_stop(old(self)@),
    {
        match self.state {
            State::OpeningFully | State::ClosingFully => {},
            _ => {
                self.state = State::Idle;
                self.on_completion = None;
                self.window_driver.interrupt();
            },
        }
    }

    /// Replaces the active configuration with the one that `data` encodes.
    pub fn configure(&mut self, data: [u8; 8])
        requires
            old(self).wf(),
        ensures
            final(self).wf(),
            final(self)@ == svc_configure(old(self)@, data@),
    {
        self.config = PowerWindowsConfig::deserialize(data);
    }

    /// Applies one command received at `now_millis`.
    pub fn handle_request(&mut self, request: &ServerRequest, now_millis: u64)
        requires
            old(self).wf(),
        ensures
            final(self).wf(),
            final(self)@ == svc_request(old(self)@, *request, now_millis),
    {
        match request.request_type {
            ServerRequestType::Open => self.handle_opening(true, now_millis),
            ServerRequestType::Close => self.handle_closing(true, now_millis),
            ServerRequestType::OpenFully => self.handle_opening(false, now_millis),
            ServerRequestType::CloseFully => self.handle_closing(false, now_millis),
            ServerRequestType::Stop => self.handle_stop(),
            ServerRequestType::ConfigureCurrentThresholds => self.configure(request.request_data),
        }
    }

    /// The next relay pin operation to carry out, if any.
    pub fn next_pin_op(&self) -> (r: Option<PinOp>)
        requires
            self.wf(),
        ensures
            self@.driver.pending.len() == 0 ==> r is None,
            self@.driver.pending.len() > 0 ==> r == Some(self@.driver.pending[0]),
    {
        self.window_driver.next_pin_op()
    }

    /// Records that the operation from `next_pin_op` succeeded; when it was
    /// the last one, a pending interrupt takes effect on the motion state.
    pub fn pin_op_succeeded(&mut self)
        requires
            old(self).wf(),
            old(self)@.driver.pending.len() > 0,
        ensures
            final(self).wf(),
            final(self)@ == svc_op_succeeded(old(self)@),
    {
        self.window_driver.pin_op_succeeded();
        if self.window_driver.next_pin_op().is_none() {
            match self.on_completion {
                Some(s) => {
                    self.state = s;
                },
                None => {},
            }
            self.on_completion = None;
        }
    }

    /// Records that the operation from `next_pin_op` failed: the rest of the
    /// sequence is dropped and a pending interrupt does not take effect, so
    /// the next overload check tries again.
    pub fn pin_op_failed(&mut self)
        requires
            old(self).wf(),
            old(self)@.driver.pending.len() > 0,
        ensures
            final(self).wf(),
            final(self)@ == svc_op_failed(old(self)@),
    {
        self.window_driver.pin_op_failed();
        self.on_completion = None;
    }

    /// Inactivity supervision at `now_millis`: soft-stops a continuous
    /// motion whose last command is at least the configured window old.
    pub fn timeout_tick(&mut self, now_millis: u64) -> (r: bool)
        requires
            old(self).wf(),
        ensures
            final(self).wf(),
            r == timeout_due(old(self)@, now_millis),
            r ==> final(self)@ == svc_stop(old(self)@),
            !r ==> final(self)@ == old(self)@,
    {
        let elapsed = now_millis.saturating_sub(self.last_handle_time_millis);
        let due = elapsed >= self.config.handle_time_threshold_millis as u64 && (self.state
            == State::OpeningContinuous || self.state == State::ClosingContinuous);
        if due {
            self.handle_stop();
        }
        due
    }

    /// Overload supervision on one current reading: interrupts a closing
    /// motion whose closing current exceeds its threshold, or an opening
    /// motion whose opening current exceeds its threshold.
    pub fn overload_tick(&mut self, current: &WindowCurrentState) -> (r: bool)
        requires
            old(self).wf(),
        ensures
            final(self).wf(),
            r == (closing_overloaded(old(self)@, *current) || opening_overloaded(
                old(self)@,
                *current,
            )),
            final(self)@ == svc_overload(old(self)@, *current),
    {
        let closing_active = self.state == State::ClosingContinuous || self.state
            == State::ClosingFully;
        let opening_active = self.state == State::OpeningContinuous || self.state
            == State::OpeningFully;
        if closing_active && current.closing_current
            > self.config.closing_current_interrupt_threshold_amps as u32 {
            self.handle_close_interrupt();
            true
        } else if opening_active && current.opening_current
            > self.config.opening_current_interrupt_threshold_amps as u32 {
            self.handle_open_interrupt();
            true
        } else {
            false
        }
    }

    /// Bench-mode supervision without a motor load: ends a fully motion
    /// once its last command is `DEBUG_FULL_TRAVEL_MILLIS` old.
    pub fn dwell_tick(&mut self, now_millis: u64) -> (r: bool)
        requires
            old(self).wf(),
        ensures
            final(self).wf(),
            r == dwell_due(old(self)@, now_millis),
            final(self)@ == svc_dwell(old(self)@, now_millis),
    {
        let elapsed = now_millis.saturating_sub(self.last_handle_time_millis);
        if elapsed >= DEBUG_FULL_TRAVEL_MILLIS {
            match self.state {
                State::ClosingFully => {
                    self.handle_close_interrupt();
                    return true;
                },
                State::OpeningFully => {
                    self.handle_open_interrupt();
                    return true;
                },
                _ => {},
            }
        }
        false
    }
}

} // verus!
