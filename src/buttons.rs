//! Debouncing of the two front-panel buttons into short and long presses.

use vstd::prelude::*;

verus! {

/// The level of a digital input. A button input reads `Low` while pressed.
#[derive(Clone, Copy, Debug, PartialEq, Eq, Structural)]
pub enum Level {
    Low,
    High,
}

#[derive(Clone, Copy, Debug, PartialEq, Eq, Structural)]
pub enum Button {
    Demand,
    Speed,
}

#[derive(Clone, Copy, Debug, PartialEq, Eq, Structural)]
pub enum ButtonPushDuration {
    Short,
    Long,
}

#[derive(Clone, Copy, Debug, PartialEq, Eq, Structural)]
pub struct ButtonEvent {
    pub button: Button,
    pub push_duration: ButtonPushDuration,
}

/// Shortest hold, in milliseconds, that counts as a press.
pub const PUSH_THRESHOLD_MS: u64 = 75;

/// Shortest hold, in milliseconds, that counts as a long press.
pub const LONG_PUSH_THRESHOLD_MS: u64 = 3000;

/// How long, in milliseconds, a button must have been released before a new
/// press is accepted.
pub const RELEASE_THRESHOLD_MS: u64 = 250;

/// The debounce state of one button, with the time of its last accepted
/// transition.
#[derive(Clone, Copy, Debug, PartialEq, Eq, Structural)]
pub enum ButtonState {
    Pressed { at: u64 },
    Released { at: u64 },
}

/// Milliseconds from `at` to `now`, zero if `now` is earlier.
pub open spec fn elapsed(at: u64, now: u64) -> int {
    if now >= at {
        now - at
    } else {
        0
    }
}

/// The next state and the press recognised, if any, when the input reads
/// `level` at `now`.
pub open spec fn button_step(s: ButtonState, level: Level, now: u64) -> (
    ButtonState,
    Option<ButtonPushDuration>,
) {
    match s {
        ButtonState::Pressed { at } => if level == Level::High && elapsed(at, now)
            >= LONG_PUSH_THRESHOLD_MS {
            (ButtonState::Released { at: now }, Some(ButtonPushDuration::Long))
        } else if level == Level::High && elapsed(at, now) >= PUSH_THRESHOLD_MS {
            (ButtonState::Released { at: now }, Some(ButtonPushDuration::Short))
        } else {
            (s, None)
        },
        ButtonState::Released { at } => if level == Level::Low && elapsed(at, now)
            >= RELEASE_THRESHOLD_MS {
            (ButtonState::Pressed { at: now }, None)
        } else {
            (s, None)
        },
    }
}

impl ButtonState {
    /// A button released at `now`.
    pub fn new(now: u64) -> (r: Self)
        ensures
            r == (ButtonState::Released { at: now }),
    {
        ButtonState::Released { at: now }
    }

    /// Feeds the input level read at `now`; returns the press that a release
    /// completes, if it was held long enough.
    pub fn update(&mut self, level: Level, now: u64) -> (r: Option<ButtonPushDuration>)
        ensures
            (*final(self), r) == button_step(*old(self), level, now),
    {
        match *self {
            ButtonState::Pressed { at } => {
                let since = now.saturating_sub(at);
                if level == Level::High {
                    if since >= LONG_PUSH_THRESHOLD_MS {
                        *self = ButtonState::Released { at: now };
                        return Some(ButtonPushDuration::Long);
                    } else if since >= PUSH_THRESHOLD_MS {
                        *self = ButtonState::Released { at: now };
                        return Some(ButtonPushDuration::Short);
                    }
                }
            },
            ButtonState::Released { at } => {
                let since = now.saturating_sub(at);
                if level == Level::Low && since >= RELEASE_THRESHOLD_MS {
                    *self = ButtonState::Pressed { at: now };
                }
            },
        }
        None
    }
}

/// A press starts only after the button was released long enough; a press
/// is reported only when it ends after a hold of at least the push
/// threshold; a shorter hold leaves the press pending without an event; and
/// a hold of the long threshold or more is reported as long, never short.
pub proof fn lemma_button_press_recognition(s: ButtonState, level: Level, now: u64)
    ensures
        s is Released && button_step(s, level, now).0 is Pressed ==> level == Level::Low
            && elapsed(s->Released_at, now) >= RELEASE_THRESHOLD_MS,
        s is Released ==> button_step(s, level, now).1.is_none(),
        button_step(s, level, now).1.is_some() ==> s is Pressed && level == Level::High
            && elapsed(s->Pressed_at, now) >= PUSH_THRESHOLD_MS,
        s is Pressed && elapsed(s->Pressed_at, now) < PUSH_THRESHOLD_MS ==> button_step(
            s,
            level,
            now,
        ) == (s, None::<ButtonPushDuration>),
        s is Pressed && level == Level::High && elapsed(s->Pressed_at, now)
            >= LONG_PUSH_THRESHOLD_MS ==> button_step(s, level, now).1 == Some(
            ButtonPushDuration::Long,
        ),
        s is Pressed && level == Level::High && PUSH_THRESHOLD_MS <= elapsed(s->Pressed_at, now)
            < LONG_PUSH_THRESHOLD_MS ==> button_step(s, level, now).1 == Some(
            ButtonPushDuration::Short,
        ),
{
}

/// An event of the user-interface speed button.
#[derive(Clone, Copy, Debug, PartialEq, Eq, Structural)]
pub enum UiEvent {
    SpeedButtonPushed,
}

/// Shortest hold, in milliseconds, of the user-interface speed button that
/// counts as a push.
pub const UI_PUSH_MIN_MS: u64 = 100;

/// The event for a hold of the user-interface speed button from `high_at` to
/// `low_at`: a push only if it lasted longer than `UI_PUSH_MIN_MS`.
pub fn ui_push_event(high_at: u64, low_at: u64) -> (r: Option<UiEvent>)
    ensures
        r == (if elapsed(high_at, low_at) > UI_PUSH_MIN_MS {
            Some(UiEvent::SpeedButtonPushed)
        } else {
            None
        }),
{
    if low_at.saturating_sub(high_at) > UI_PUSH_MIN_MS {
        Some(UiEvent::SpeedButtonPushed)
    } else {
        None
    }
}

/// The debounce state of both buttons.
#[derive(Clone, Copy, Debug, PartialEq, Eq, Structural)]
pub struct Buttons {
    pub demand: ButtonState,
    pub speed: ButtonState,
}

impl Buttons {
    /// Both buttons released at `now`.
    pub fn new(now: u64) -> (r: Self)
        ensures
            r.demand == (ButtonState::Released { at: now }),
            r.speed == (ButtonState::Released { at: now }),
    {
        Buttons { demand: ButtonState::new(now), speed: ButtonState::new(now) }
    }

    /// Feeds an edge of `button`'s input, which now reads `level`; returns the
    /// event to publish, if any.
    pub fn on_edge(&mut self, button: Button, level: Level, now: u64) -> (r: Option<ButtonEvent>)
        ensures
            button == Button::Demand ==> {
                &&& final(self).speed == old(self).speed
                &&& final(self).demand == button_step(old(self).demand, level, now).0
            },
            button == Button::Speed ==> {
                &&& final(self).demand == old(self).demand
                &&& final(self).speed == button_step(old(self).speed, level, now).0
            },
            r == (match button_step(
                if button == Button::Demand {
                    old(self).demand
                } else {
                    old(self).speed
                },
                level,
                now,
            ).1 {
                Some(d) => Some(ButtonEvent { button, push_duration: d }),
                None => None,
            }),
    {
        let pushed = match button {
            Button::Demand => self.demand.update(level, now),
            Button::Speed => self.speed.update(level, now),
        };
        match pushed {
            Some(push_duration) => Some(ButtonEvent { button, push_duration }),
            None => None,
        }
    }
}

} // verus!
