use vstd::prelude::*;
use vstd::string::StringExecFns;

verus! {

/// The last command that the hub relayed.
#[derive(Debug, Clone, Copy, PartialEq, Eq, Structural)]
pub enum RequestType {
    PowerWindowsStop,
    PowerWindowsOpen,
    PowerWindowsClose,
    PowerWindowsOpenFully,
    PowerWindowsCloseFully,
}

pub open spec fn request_type_name(t: RequestType) -> Seq<char> {
    match t {
        RequestType::PowerWindowsStop => "PowerWindowsStop"@,
        RequestType::PowerWindowsOpen => "PowerWindowsOpen"@,
        RequestType::PowerWindowsClose => "PowerWindowsClose"@,
        RequestType::PowerWindowsOpenFully => "PowerWindowsOpenFully"@,
        RequestType::PowerWindowsCloseFully => "PowerWindowsCloseFully"@,
    }
}

impl RequestType {
    /// The variant's name.
    pub fn name(&self) -> (r: &'static str)
        ensures
            r@ == request_type_name(*self),
    {
        match self {
            RequestType::PowerWindowsStop => "PowerWindowsStop",
            RequestType::PowerWindowsOpen => "PowerWindowsOpen",
            RequestType::PowerWindowsClose => "PowerWindowsClose",
            RequestType::PowerWindowsOpenFully => "PowerWindowsOpenFully",
            RequestType::PowerWindowsCloseFully => "PowerWindowsCloseFully",
        }
    }
}

/// Minimum spacing of two debug notifications, in milliseconds.
pub const DEBUG_NOTIFY_INTERVAL_MILLIS: u64 = 200;

/// Diagnostic state that the hub publishes.
#[derive(Debug, Clone, Copy)]
pub struct AppState {
    pub last_request: RequestType,
    pub is_current: bool,
    pub last_debug: u64,
}

pub open spec fn bool_text(b: bool) -> Seq<char> {
    if b {
        "true"@
    } else {
        "false"@
    }
}

/// The human-readable snapshot of a diagnostic state.
pub open spec fn app_state_text(s: AppState) -> Seq<char> {
    "(last_request: "@ + request_type_name(s.last_request) + ", is_current: "@ + bool_text(
        s.is_current,
    ) + ")"@
}

impl AppState {
    /// A human-readable snapshot of the last relayed command and of whether
    /// this door is the current one.
    pub fn describe(&self) -> (r: String)
        ensures
            r@ == app_state_text(*self),
    {
        let mut text = "(last_request: ".to_owned();
        text.append(self.last_request.name());
        text.append(", is_current: ");
        text.append(if self.is_current { "true" } else { "false" });
        text.append(")");
        text
    }

    /// Whether a debug notification is due at `now_millis`: at least
    /// `DEBUG_NOTIFY_INTERVAL_MILLIS` after the last one. A clock reading
    /// before the last one counts as no time elapsed.
    pub fn debug_due(&self, now_millis: u64) -> (r: bool)
        ensures
            r == (now_millis >= self.last_debug && now_millis - self.last_debug
                >= DEBUG_NOTIFY_INTERVAL_MILLIS),
    {
        now_millis.saturating_sub(self.last_debug) >= DEBUG_NOTIFY_INTERVAL_MILLIS
    }
}

/// A channel that the hub publishes its diagnostic state on.
pub trait DebugHandler {
    /// Publishes `app_state` if a notification is due at `now_millis`.
    fn handle_send_debug_info(&mut self, app_state: &AppState, now_millis: u64);
}

} // verus!
