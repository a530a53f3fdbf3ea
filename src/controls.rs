use vstd::prelude::*;

verus! {

/// What a pair of open/close buttons asks for.
#[derive(Debug, Clone, Copy, PartialEq, Eq, Structural)]
pub enum PowerWindowButtonState {
    /// No button pressed, or both at once.
    Released,
    OpenContinuous,
    CloseContinuous,
    OpenFully,
    CloseFully,
}

/// Button-line voltage above which a button counts as pressed.
pub const VOLTAGE_CONTINOUS_THRESHOLD: u16 = 300;

/// Button-line voltage above which a press counts as a full press.
pub const VOLTAGE_FULL_THRESHOLD: u16 = 700;

/// The button intent that the open-line and close-line voltages stand for.
pub open spec fn button_state_of(open: u16, close: u16) -> PowerWindowButtonState {
    if open > 300 && close > 300 {
        PowerWindowButtonState::Released
    } else if open > 300 {
        if open > 700 {
            PowerWindowButtonState::OpenFully
        } else {
            PowerWindowButtonState::OpenContinuous
        }
    } else if close > 300 {
        if close > 700 {
            PowerWindowButtonState::CloseFully
        } else {
            PowerWindowButtonState::CloseContinuous
        }
    } else {
        PowerWindowButtonState::Released
    }
}

/// Classifies the voltages of one door's button pair, in millivolts. Both
/// buttons pressed at once counts as no command.
pub fn get_state_for_voltages(open: u16, close: u16) -> (r: PowerWindowButtonState)
    ensures
        r == button_state_of(open, close),
{
    if open > VOLTAGE_CONTINOUS_THRESHOLD && close > VOLTAGE_CONTINOUS_THRESHOLD {
        return PowerWindowButtonState::Released;
    }
    if open > VOLTAGE_CONTINOUS_THRESHOLD {
        if open > VOLTAGE_FULL_THRESHOLD {
            return PowerWindowButtonState::OpenFully;
        } else {
            return PowerWindowButtonState::OpenContinuous;
        }
    }
    if close > VOLTAGE_CONTINOUS_THRESHOLD {
        if close > VOLTAGE_FULL_THRESHOLD {
            return PowerWindowButtonState::CloseFully;
        } else {
            return PowerWindowButtonState::CloseContinuous;
        }
    }
    PowerWindowButtonState::Released
}

} // verus!
