//! Run-state machines that merge button, occupancy, remote and timer events
//! into one fan command.

use crate::buttons::{Button, ButtonEvent, ButtonPushDuration};
use crate::presence::Presence;
use crate::presence_sensors::PresenceDetectionEvent;
use crate::protocol::{next_speed, ExternalCommand, ExternalFanCommand, FanCommand, FanSpeed};
use vstd::prelude::*;

verus! {

/// How long a manual or occupancy run lasts, in milliseconds.
pub const FAN_BUTTON_TIMEOUT_MS: u64 = 1_200_000;

/// The period of the countdown tick, in milliseconds.
pub const TICK_MS: u64 = 1000;

/// Run state driven by the buttons and occupancy: a countdown while running,
/// and the speed the user asked for.
#[derive(Clone, Copy, Debug, PartialEq, Eq, Structural)]
pub struct ManualButtonTrigger {
    pub time_remaining: Option<u64>,
    pub requested_speed: FanSpeed,
}

pub open spec fn idle_trigger() -> ManualButtonTrigger {
    ManualButtonTrigger { time_remaining: None, requested_speed: FanSpeed::Low }
}

pub open spec fn trigger_command(t: ManualButtonTrigger) -> FanCommand {
    match t.time_remaining {
        Some(_) => FanCommand::Run(t.requested_speed),
        None => FanCommand::Stop,
    }
}

/// One tick: the countdown drops by a tick; the run ends when less than a
/// tick would remain. Reports whether anything changed.
pub open spec fn tick_step(t: ManualButtonTrigger) -> (ManualButtonTrigger, bool) {
    match t.time_remaining {
        Some(r) => if r < 2 * TICK_MS {
            (idle_trigger(), true)
        } else {
            (ManualButtonTrigger { time_remaining: Some((r - TICK_MS) as u64), ..t }, true)
        },
        None => (t, false),
    }
}

/// A button event: a short demand press (re)starts a full run; a long demand
/// press stops a run; a short speed press cycles the speed of a run.
pub open spec fn button_event_step(t: ManualButtonTrigger, e: ButtonEvent) -> (
    ManualButtonTrigger,
    bool,
) {
    match (e.button, e.push_duration) {
        (Button::Demand, ButtonPushDuration::Short) => (
            ManualButtonTrigger { time_remaining: Some(FAN_BUTTON_TIMEOUT_MS), ..t },
            true,
        ),
        (Button::Demand, ButtonPushDuration::Long) => if t.time_remaining.is_some() {
            (idle_trigger(), true)
        } else {
            (t, false)
        },
        (Button::Speed, ButtonPushDuration::Short) => if t.time_remaining.is_some() {
            (ManualButtonTrigger { requested_speed: next_speed(t.requested_speed), ..t }, true)
        } else {
            (t, false)
        },
        (Button::Speed, ButtonPushDuration::Long) => (t, false),
    }
}

/// An occupancy event: occupancy (re)starts a full run; a clear changes nothing.
pub open spec fn presence_event_step(t: ManualButtonTrigger, e: PresenceDetectionEvent) -> (
    ManualButtonTrigger,
    bool,
) {
    if e.state == Presence::Occupied {
        (ManualButtonTrigger { time_remaining: Some(FAN_BUTTON_TIMEOUT_MS), ..t }, true)
    } else {
        (t, false)
    }
}

impl ManualButtonTrigger {
    /// Stopped, at low speed.
    pub fn new() -> (r: Self)
        ensures
            r == idle_trigger(),
    {
        ManualButtonTrigger { time_remaining: None, requested_speed: FanSpeed::Low }
    }

    pub fn fan_command(&self) -> (r: FanCommand)
        ensures
            r == trigger_command(*self),
    {
        match self.time_remaining {
            Some(_) => FanCommand::Run(self.requested_speed),
            None => FanCommand::Stop,
        }
    }

    pub fn time_remaining(&self) -> (r: Option<u64>)
        ensures
            r == self.time_remaining,
    {
        self.time_remaining
    }

    pub fn handle_tick(&mut self) -> (r: bool)
        ensures
            (*final(self), r) == tick_step(*old(self)),
    {
        if let Some(time_remaining) = self.time_remaining {
            match time_remaining.checked_sub(TICK_MS) {
                Some(t) => {
                    if t < TICK_MS {
                        *self = ManualButtonTrigger::new();
                    } else {
                        self.time_remaining = Some(t);
                    }
                },
                None => {
                    *self = ManualButtonTrigger::new();
                },
            }
            true
        } else {
            false
        }
    }

    pub fn handle_button(&mut self, event: ButtonEvent) -> (r: bool)
        ensures
            (*final(self), r) == button_event_step(*old(self), event),
    {
        match (event.button, event.push_duration) {
            (Button::Demand, ButtonPushDuration::Short) => {
                self.time_remaining = Some(FAN_BUTTON_TIMEOUT_MS);
                true
            },
            (Button::Demand, ButtonPushDuration::Long) => {
                if self.time_remaining.is_some() {
                    *self = ManualButtonTrigger::new();
                    true
                } else {
                    false
                }
            },
            (Button::Speed, ButtonPushDuration::Short) => {
                if self.time_remaining.is_some() {
                    self.requested_speed.cycle();
                    true
                } else {
                    false
                }
            },
            (Button::Speed, ButtonPushDuration::Long) => false,
        }
    }

    pub fn handle_presence(&mut self, event: PresenceDetectionEvent) -> (r: bool)
        ensures
            (*final(self), r) == presence_event_step(*old(self), event),
    {
        if event.state == Presence::Occupied {
            self.time_remaining = Some(FAN_BUTTON_TIMEOUT_MS);
            true
        } else {
            false
        }
    }
}

/// What the button-driven loop wakes up for.
#[derive(Clone, Copy, Debug, PartialEq, Eq, Structural)]
pub enum RunEvent {
    Tick,
    Button(ButtonEvent),
    Presence(PresenceDetectionEvent),
    /// The subscriber missed this many messages; nothing to do but go on.
    Lagged(u64),
}

/// The state of the button-driven run loop, shown on the display.
#[derive(Clone, Copy, Debug, PartialEq, Eq, Structural)]
pub struct State {
    pub button_trigger: ManualButtonTrigger,
}

pub open spec fn run_event_step(s: State, e: RunEvent) -> (State, bool) {
    let (t, changed) = match e {
        RunEvent::Tick => tick_step(s.button_trigger),
        RunEvent::Button(b) => button_event_step(s.button_trigger, b),
        RunEvent::Presence(p) => presence_event_step(s.button_trigger, p),
        RunEvent::Lagged(_) => (s.button_trigger, false),
    };
    (State { button_trigger: t }, changed)
}

impl State {
    pub fn new() -> (r: Self)
        ensures
            r.button_trigger == idle_trigger(),
    {
        State { button_trigger: ManualButtonTrigger::new() }
    }

    pub fn fan_command(&self) -> (r: FanCommand)
        ensures
            r == trigger_command(self.button_trigger),
    {
        self.button_trigger.fan_command()
    }

    pub fn time_remaining(&self) -> (r: Option<u64>)
        ensures
            r == self.button_trigger.time_remaining,
    {
        self.button_trigger.time_remaining()
    }

    /// Resolves one event; `true` when the state changed and must be
    /// published.
    pub fn handle_event(&mut self, event: RunEvent) -> (r: bool)
        ensures
            (*final(self), r) == run_event_step(*old(self), event),
    {
        match event {
            RunEvent::Tick => self.button_trigger.handle_tick(),
            RunEvent::Button(b) => self.button_trigger.handle_button(b),
            RunEvent::Presence(p) => self.button_trigger.handle_presence(p),
            RunEvent::Lagged(_) => false,
        }
    }
}

/// Whether the fan runs, and until when (milliseconds on the clock).
#[derive(Clone, Copy, Debug, PartialEq, Eq, Structural)]
pub enum FanRunning {
    Stopped,
    Running { until: u64 },
}

/// The run state that a remote fan command asks for at `now`; the deadline
/// saturates at the end of the clock.
pub open spec fn running_for(cmd: ExternalFanCommand, now: u64) -> FanRunning {
    match cmd {
        ExternalFanCommand::Stop => FanRunning::Stopped,
        ExternalFanCommand::RunFor { seconds } => FanRunning::Running {
            until: if now + seconds * 1000 <= u64::MAX {
                (now + seconds * 1000) as u64
            } else {
                u64::MAX
            },
        },
    }
}

impl FanRunning {
    pub fn from_command(cmd: ExternalFanCommand, now: u64) -> (r: Self)
        ensures
            r == running_for(cmd, now),
    {
        match cmd {
            ExternalFanCommand::Stop => FanRunning::Stopped,
            ExternalFanCommand::RunFor { seconds } => {
                let ms = if seconds <= u64::MAX / 1000 {
                    seconds * 1000
                } else {
                    assert(seconds * 1000 > u64::MAX) by (nonlinear_arith)
                        requires
                            seconds > u64::MAX / 1000,
                    ;
                    u64::MAX
                };
                FanRunning::Running { until: now.saturating_add(ms) }
            },
        }
    }
}

/// Run state driven by remote commands.
#[derive(Clone, Copy, Debug, PartialEq, Eq, Structural)]
pub struct CommandState {
    pub fan: FanRunning,
    pub speed: FanSpeed,
}

pub open spec fn command_state_command(s: CommandState) -> FanCommand {
    match s.fan {
        FanRunning::Stopped => FanCommand::Stop,
        FanRunning::Running { .. } => FanCommand::Run(s.speed),
    }
}

/// A remote command patched onto the state: absent fields keep their value,
/// and a run replaces any earlier deadline.
pub open spec fn patch(s: CommandState, cmd: ExternalCommand, now: u64) -> CommandState {
    CommandState {
        fan: match cmd.fan {
            Some(f) => running_for(f, now),
            None => s.fan,
        },
        speed: match cmd.speed {
            Some(sp) => sp,
            None => s.speed,
        },
    }
}

/// What the remote-command loop wakes up for.
#[derive(Clone, Copy, Debug, PartialEq, Eq, Structural)]
pub enum CommandEvent {
    Command(ExternalCommand),
    /// The run deadline passed.
    Expired,
    /// The subscriber missed this many messages.
    Lagged(u64),
}

pub open spec fn command_event_state(s: CommandState, e: CommandEvent, now: u64) -> CommandState {
    match e {
        CommandEvent::Command(cmd) => patch(s, cmd, now),
        CommandEvent::Expired => CommandState { fan: FanRunning::Stopped, ..s },
        CommandEvent::Lagged(_) => s,
    }
}

impl CommandState {
    /// Stopped, at low speed.
    pub fn new() -> (r: Self)
        ensures
            r == (CommandState { fan: FanRunning::Stopped, speed: FanSpeed::Low }),
    {
        CommandState { fan: FanRunning::Stopped, speed: FanSpeed::Low }
    }

    pub fn get_fan_command(&self) -> (r: FanCommand)
        ensures
            r == command_state_command(*self),
    {
        match self.fan {
            FanRunning::Stopped => FanCommand::Stop,
            FanRunning::Running { .. } => FanCommand::Run(self.speed),
        }
    }

    /// The time at which the fan stops by itself, if it runs.
    pub fn deadline(&self) -> (r: Option<u64>)
        ensures
            r == (match self.fan {
                FanRunning::Stopped => None,
                FanRunning::Running { until } => Some(until),
            }),
    {
        match self.fan {
            FanRunning::Stopped => None,
            FanRunning::Running { until } => Some(until),
        }
    }

    /// Resolves one event at `now`. The state changes to the resolved one;
    /// the command to publish is returned only when the state differs from
    /// the previous one.
    pub fn handle_event(&mut self, event: CommandEvent, now: u64) -> (r: Option<FanCommand>)
        ensures
            *final(self) == command_event_state(*old(self), event, now),
            r == (if command_event_state(*old(self), event, now) == *old(self) {
                None
            } else {
                Some(command_state_command(command_event_state(*old(self), event, now)))
            }),
    {
        let new_state = match event {
            CommandEvent::Command(cmd) => CommandState {
                fan: match cmd.fan {
                    Some(f) => FanRunning::from_command(f, now),
                    None => self.fan,
                },
                speed: match cmd.speed {
                    Some(sp) => sp,
                    None => self.speed,
                },
            },
            CommandEvent::Expired => CommandState { fan: FanRunning::Stopped, speed: self.speed },
            CommandEvent::Lagged(_) => *self,
        };
        if new_state == *self {
            None
        } else {
            *self = new_state;
            Some(self.get_fan_command())
        }
    }
}

} // verus!
