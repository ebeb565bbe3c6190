//! Commands exchanged between the decision engine, remote peers and the relays.

use vstd::prelude::*;

verus! {

/// A fan speed level.
#[derive(Clone, Copy, Debug, PartialEq, Eq, Structural)]
pub enum FanSpeed {
    Low,
    Medium,
    High,
}

/// The speed that follows `s` when the speed button cycles it.
pub open spec fn next_speed(s: FanSpeed) -> FanSpeed {
    match s {
        FanSpeed::Low => FanSpeed::Medium,
        FanSpeed::Medium => FanSpeed::High,
        FanSpeed::High => FanSpeed::Low,
    }
}

impl FanSpeed {
    /// Steps to the next speed, wrapping from `High` back to `Low`.
    pub fn cycle(&mut self)
        ensures
            *final(self) == next_speed(*old(self)),
    {
        *self = match *self {
            FanSpeed::Low => FanSpeed::Medium,
            FanSpeed::Medium => FanSpeed::High,
            FanSpeed::High => FanSpeed::Low,
        };
    }
}

/// What a remote peer asks of the fan's run state.
#[derive(Clone, Copy, Debug, PartialEq, Eq, Structural)]
pub enum ExternalFanCommand {
    Stop,
    RunFor { seconds: u64 },
}

/// A partial directive: an absent field leaves the current value unchanged.
#[derive(Clone, Copy, Debug, PartialEq, Eq, Structural)]
pub struct ExternalCommand {
    pub fan: Option<ExternalFanCommand>,
    pub speed: Option<FanSpeed>,
}

/// The target state of the relay bank.
#[derive(Clone, Copy, Debug, PartialEq, Eq, Structural)]
pub enum FanCommand {
    Stop,
    Run(FanSpeed),
}

/// The lowercase status token published for a fan command.
pub open spec fn status_token(c: FanCommand) -> Seq<char> {
    match c {
        FanCommand::Stop => "stop"@,
        FanCommand::Run(FanSpeed::Low) => "low"@,
        FanCommand::Run(FanSpeed::Medium) => "medium"@,
        FanCommand::Run(FanSpeed::High) => "high"@,
    }
}

impl FanCommand {
    /// The lowercase token under which this command is published.
    pub fn status_token(&self) -> (r: &'static str)
        ensures
            r@ == status_token(*self),
    {
        match self {
            FanCommand::Stop => "stop",
            FanCommand::Run(FanSpeed::Low) => "low",
            FanCommand::Run(FanSpeed::Medium) => "medium",
            FanCommand::Run(FanSpeed::High) => "high",
        }
    }
}

} // verus!
