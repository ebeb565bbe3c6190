//! What the status screen must redraw when the run state changes.

use crate::protocol::FanCommand;
use crate::run_logic::{trigger_command, State};
use vstd::prelude::*;

verus! {

/// The state last shown on the main screen and which of its two areas (the
/// fan command and the remaining time) are stale.
#[derive(Clone, Copy, Debug, PartialEq, Eq, Structural)]
pub struct MainScreen {
    pub state: Option<State>,
    pub redraw_cmd: bool,
    pub redraw_time: bool,
}

impl MainScreen {
    /// Nothing shown yet.
    pub fn new() -> (r: Self)
        ensures
            r.state.is_none(),
            !r.redraw_cmd,
            !r.redraw_time,
    {
        MainScreen { state: None, redraw_cmd: false, redraw_time: false }
    }

    /// Takes a new state to show; an area becomes stale when its content
    /// differs from what was shown, and both are stale the first time.
    pub fn update_state(&mut self, state: State)
        ensures
            final(self).state == Some(state),
            final(self).redraw_cmd == (old(self).redraw_cmd || match old(self).state {
                Some(prev) => trigger_command(prev.button_trigger) != trigger_command(
                    state.button_trigger,
                ),
                None => true,
            }),
            final(self).redraw_time == (old(self).redraw_time || match old(self).state {
                Some(prev) => prev.button_trigger.time_remaining
                    != state.button_trigger.time_remaining,
                None => true,
            }),
    {
        match self.state {
            Some(old_state) => {
                let old_cmd: FanCommand = old_state.fan_command();
                if old_cmd != state.fan_command() {
                    self.redraw_cmd = true;
                }
                if old_state.time_remaining() != state.time_remaining() {
                    self.redraw_time = true;
                }
            },
            None => {
                self.redraw_cmd = true;
                self.redraw_time = true;
            },
        }
        self.state = Some(state);
    }

    /// Which areas to redraw, marking both as drawn.
    pub fn take_redraw(&mut self) -> (r: (bool, bool))
        ensures
            r == (old(self).redraw_cmd, old(self).redraw_time),
            final(self).state == old(self).state,
            !final(self).redraw_cmd,
            !final(self).redraw_time,
    {
        let r = (self.redraw_cmd, self.redraw_time);
        self.redraw_cmd = false;
        self.redraw_time = false;
        r
    }
}

} // verus!
