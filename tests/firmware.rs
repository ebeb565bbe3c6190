use ms_air_filter::buttons::{
    ui_push_event, Button, ButtonEvent, ButtonPushDuration, ButtonState, Buttons, Level, UiEvent,
};
use ms_air_filter::display::MainScreen;
use ms_air_filter::fan::{fail_safe_outputs, RelayLine, RelayOutputs, RelaySequencer, RelayStep};
use ms_air_filter::maybe_timer::{MaybeTimer, TimerPoll};
use ms_air_filter::presence::Presence;
use ms_air_filter::presence_sensors::{PresenceDetectionEvent, PresenceSensor};
use ms_air_filter::protocol::{ExternalCommand, ExternalFanCommand, FanCommand, FanSpeed};
use ms_air_filter::run_logic::{
    CommandEvent, CommandState, FanRunning, ManualButtonTrigger, RunEvent, State,
};

fn apply(o: RelayOutputs, step: &RelayStep) -> RelayOutputs {
    match *step {
        RelayStep::Switch { line, energized } => match line {
            RelayLine::Low => RelayOutputs { low: energized, ..o },
            RelayLine::Medium => RelayOutputs { medium: energized, ..o },
            RelayLine::High => RelayOutputs { high: energized, ..o },
            RelayLine::ContactorVoltage => RelayOutputs { contactor_voltage: energized, ..o },
        },
        RelayStep::Wait { .. } => o,
    }
}

fn speed_lines(o: &RelayOutputs) -> u32 {
    o.low as u32 + o.medium as u32 + o.high as u32
}

#[test]
fn fan_speed_cycles() {
    let mut s = FanSpeed::Low;
    s.cycle();
    assert_eq!(s, FanSpeed::Medium);
    s.cycle();
    assert_eq!(s, FanSpeed::High);
    s.cycle();
    assert_eq!(s, FanSpeed::Low);
}

#[test]
fn status_tokens() {
    assert_eq!(FanCommand::Stop.status_token(), "stop");
    assert_eq!(FanCommand::Run(FanSpeed::Low).status_token(), "low");
    assert_eq!(FanCommand::Run(FanSpeed::Medium).status_token(), "medium");
    assert_eq!(FanCommand::Run(FanSpeed::High).status_token(), "high");
}

#[test]
fn button_press_needs_release_and_hold() {
    let mut b = ButtonState::new(0);
    // Pressed too soon after the release: ignored.
    assert_eq!(b.update(Level::Low, 249), None);
    assert_eq!(b, ButtonState::Released { at: 0 });
    assert_eq!(b.update(Level::Low, 250), None);
    assert_eq!(b, ButtonState::Pressed { at: 250 });
    // Released after a bounce-length hold: no event, still pressed.
    assert_eq!(b.update(Level::High, 324), None);
    assert_eq!(b, ButtonState::Pressed { at: 250 });
    assert_eq!(b.update(Level::High, 325), Some(ButtonPushDuration::Short));
    assert_eq!(b, ButtonState::Released { at: 325 });
}

#[test]
fn button_long_press() {
    let mut b = ButtonState::Released { at: 0 };
    b.update(Level::Low, 1_000);
    assert_eq!(b.update(Level::High, 3_999), Some(ButtonPushDuration::Short));
    b.update(Level::Low, 5_000);
    assert_eq!(b.update(Level::High, 8_000), Some(ButtonPushDuration::Long));
}

#[test]
fn buttons_report_which_button() {
    let mut buttons = Buttons::new(0);
    assert_eq!(buttons.on_edge(Button::Speed, Level::Low, 300), None);
    assert_eq!(buttons.on_edge(Button::Demand, Level::High, 350), None);
    assert_eq!(
        buttons.on_edge(Button::Speed, Level::High, 400),
        Some(ButtonEvent { button: Button::Speed, push_duration: ButtonPushDuration::Short })
    );
    assert_eq!(buttons.demand, ButtonState::Released { at: 0 });
}

#[test]
fn manual_trigger_runs_and_counts_down() {
    let mut t = ManualButtonTrigger::new();
    assert_eq!(t.fan_command(), FanCommand::Stop);
    assert!(!t.handle_tick());
    let demand = ButtonEvent { button: Button::Demand, push_duration: ButtonPushDuration::Short };
    assert!(t.handle_button(demand));
    assert_eq!(t.time_remaining(), Some(1_200_000));
    assert_eq!(t.fan_command(), FanCommand::Run(FanSpeed::Low));
    let speed = ButtonEvent { button: Button::Speed, push_duration: ButtonPushDuration::Short };
    assert!(t.handle_button(speed));
    assert_eq!(t.fan_command(), FanCommand::Run(FanSpeed::Medium));
    assert!(t.handle_tick());
    assert_eq!(t.time_remaining(), Some(1_199_000));
    let mut short = ManualButtonTrigger { time_remaining: Some(1_500), requested_speed: FanSpeed::High };
    assert!(short.handle_tick());
    assert_eq!(short, ManualButtonTrigger::new());
}

#[test]
fn manual_trigger_long_demand_stops() {
    let mut t = ManualButtonTrigger::new();
    let long = ButtonEvent { button: Button::Demand, push_duration: ButtonPushDuration::Long };
    let speed = ButtonEvent { button: Button::Speed, push_duration: ButtonPushDuration::Short };
    assert!(!t.handle_button(long));
    assert!(!t.handle_button(speed));
    assert_eq!(t.fan_command(), FanCommand::Stop);
    t.time_remaining = Some(60_000);
    t.requested_speed = FanSpeed::High;
    assert!(t.handle_button(long));
    assert_eq!(t, ManualButtonTrigger::new());
}

#[test]
fn run_state_handles_presence_and_lag() {
    let mut s = State::new();
    assert!(!s.handle_event(RunEvent::Lagged(3)));
    let clear = PresenceDetectionEvent::from_edge(PresenceSensor::PirA, Level::Low);
    assert_eq!(clear.state, Presence::Clear);
    assert!(!s.handle_event(RunEvent::Presence(clear)));
    let occupied = PresenceDetectionEvent::from_edge(PresenceSensor::PirB, Level::High);
    assert!(s.handle_event(RunEvent::Presence(occupied)));
    assert_eq!(s.fan_command(), FanCommand::Run(FanSpeed::Low));
    assert_eq!(s.time_remaining(), Some(1_200_000));
    assert!(s.handle_event(RunEvent::Tick));
    assert_eq!(s.time_remaining(), Some(1_199_000));
}

#[test]
fn command_state_patches_and_expires() {
    let mut s = CommandState::new();
    let run = ExternalCommand { fan: Some(ExternalFanCommand::RunFor { seconds: 30 }), speed: None };
    assert_eq!(s.handle_event(CommandEvent::Command(run), 1_000), Some(FanCommand::Run(FanSpeed::Low)));
    assert_eq!(s.deadline(), Some(31_000));
    let speed = ExternalCommand { fan: None, speed: Some(FanSpeed::High) };
    assert_eq!(s.handle_event(CommandEvent::Command(speed), 2_000), Some(FanCommand::Run(FanSpeed::High)));
    assert_eq!(s.deadline(), Some(31_000));
    assert_eq!(s.handle_event(CommandEvent::Command(speed), 3_000), None);
    // A new run replaces the deadline instead of adding to it.
    assert_eq!(s.handle_event(CommandEvent::Command(run), 10_000), Some(FanCommand::Run(FanSpeed::High)));
    assert_eq!(s.fan, FanRunning::Running { until: 40_000 });
    assert_eq!(s.handle_event(CommandEvent::Lagged(2), 11_000), None);
    assert_eq!(s.handle_event(CommandEvent::Expired, 40_000), Some(FanCommand::Stop));
    assert_eq!(s.handle_event(CommandEvent::Expired, 40_001), None);
    assert_eq!(s.speed, FanSpeed::High);
}

#[test]
fn run_for_saturates() {
    assert_eq!(
        FanRunning::from_command(ExternalFanCommand::RunFor { seconds: u64::MAX }, 5),
        FanRunning::Running { until: u64::MAX }
    );
    assert_eq!(FanRunning::from_command(ExternalFanCommand::Stop, 5), FanRunning::Stopped);
}

#[test]
fn relay_plan_is_safe() {
    let mut seq = RelaySequencer::new();
    let mut outputs = fail_safe_outputs();
    for cmd in [
        FanCommand::Run(FanSpeed::High),
        FanCommand::Run(FanSpeed::Low),
        FanCommand::Stop,
        FanCommand::Run(FanSpeed::Medium),
    ] {
        let plan = seq.plan(cmd);
        assert!(!plan.is_empty());
        assert!(matches!(plan.last(), Some(RelayStep::Wait { ms: 1000 })));
        for step in plan.iter() {
            outputs = apply(outputs, step);
            assert!(speed_lines(&outputs) <= 1);
        }
        assert!(!outputs.contactor_voltage);
        assert_eq!(seq.last(), cmd);
    }
    assert!(outputs.medium && !outputs.low && !outputs.high);
}

#[test]
fn relay_plan_for_run() {
    let mut seq = RelaySequencer::new();
    let plan = seq.plan(FanCommand::Run(FanSpeed::Medium));
    assert_eq!(
        plan,
        vec![
            RelayStep::Switch { line: RelayLine::Low, energized: false },
            RelayStep::Switch { line: RelayLine::Medium, energized: false },
            RelayStep::Switch { line: RelayLine::High, energized: false },
            RelayStep::Wait { ms: 10 },
            RelayStep::Switch { line: RelayLine::ContactorVoltage, energized: true },
            RelayStep::Wait { ms: 10 },
            RelayStep::Switch { line: RelayLine::Medium, energized: true },
            RelayStep::Wait { ms: 500 },
            RelayStep::Switch { line: RelayLine::ContactorVoltage, energized: false },
            RelayStep::Wait { ms: 1000 },
        ]
    );
}

#[test]
fn relay_repeats_do_nothing() {
    let mut seq = RelaySequencer::new();
    assert!(seq.plan(FanCommand::Stop).is_empty());
    assert_eq!(seq.plan(FanCommand::Run(FanSpeed::Low)).len(), 10);
    assert!(seq.plan(FanCommand::Run(FanSpeed::Low)).is_empty());
    assert_eq!(seq.plan(FanCommand::Stop).len(), 5);
}

#[test]
fn maybe_timer_polls() {
    let mut t = MaybeTimer::at(Some(100));
    assert_eq!(t.poll(200), TimerPoll::Pending { wake_at: 100 });
    assert_eq!(t.poll(99), TimerPoll::Pending { wake_at: 100 });
    assert_eq!(t.poll(100), TimerPoll::Ready);
    let mut idle = MaybeTimer::at(None);
    assert_eq!(idle.poll(1_000), TimerPoll::Pending { wake_at: 6_000 });
    assert_eq!(idle.poll(u64::MAX - 1), TimerPoll::Pending { wake_at: u64::MAX });
}

#[test]
fn main_screen_redraws_changes() {
    let mut screen = MainScreen::new();
    let mut state = State::new();
    screen.update_state(state);
    assert_eq!(screen.take_redraw(), (true, true));
    screen.update_state(state);
    assert_eq!(screen.take_redraw(), (false, false));
    state.handle_event(RunEvent::Button(ButtonEvent {
        button: Button::Demand,
        push_duration: ButtonPushDuration::Short,
    }));
    screen.update_state(state);
    assert_eq!(screen.take_redraw(), (true, true));
    state.handle_event(RunEvent::Tick);
    screen.update_state(state);
    assert_eq!(screen.take_redraw(), (false, true));
}

#[test]
fn ui_push_needs_a_real_hold() {
    assert_eq!(ui_push_event(1_000, 1_100), None);
    assert_eq!(ui_push_event(1_000, 1_101), Some(UiEvent::SpeedButtonPushed));
    assert_eq!(ui_push_event(1_000, 900), None);
}
