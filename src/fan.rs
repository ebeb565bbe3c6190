//! The relay sequencer: switches the fan's contactors without ever closing two
//! speed-select contactors at once, and with the contactor voltage raised only
//! while a contactor is being seated.

use crate::protocol::{FanCommand, FanSpeed};
use vstd::prelude::*;

verus! {

/// A physical output of the relay bank.
#[derive(Clone, Copy, Debug, PartialEq, Eq, Structural)]
pub enum RelayLine {
    Low,
    Medium,
    High,
    ContactorVoltage,
}

/// One action on the relay bank.
#[derive(Clone, Copy, Debug, PartialEq, Eq, Structural)]
pub enum RelayStep {
    /// Energise or de-energise one output.
    Switch { line: RelayLine, energized: bool },
    /// Wait this many milliseconds.
    Wait { ms: u64 },
}

/// The state of the relay bank's outputs; `true` is energised.
#[derive(Clone, Copy, Debug, PartialEq, Eq, Structural)]
pub struct RelayOutputs {
    pub low: bool,
    pub medium: bool,
    pub high: bool,
    pub contactor_voltage: bool,
}

/// Milliseconds for the speed contactors to open.
pub const SETTLE_MS: u64 = 10;

/// Milliseconds for the contactor voltage to stabilise.
pub const VOLTAGE_RISE_MS: u64 = 10;

/// Milliseconds for a contactor to seat under full voltage.
pub const SEAT_MS: u64 = 500;

/// Minimum time, in milliseconds, between two changes.
pub const DWELL_MS: u64 = 1000;

pub open spec fn apply_step(o: RelayOutputs, s: RelayStep) -> RelayOutputs {
    match s {
        RelayStep::Switch { line, energized } => match line {
            RelayLine::Low => RelayOutputs { low: energized, ..o },
            RelayLine::Medium => RelayOutputs { medium: energized, ..o },
            RelayLine::High => RelayOutputs { high: energized, ..o },
            RelayLine::ContactorVoltage => RelayOutputs { contactor_voltage: energized, ..o },
        },
        RelayStep::Wait { .. } => o,
    }
}

/// The outputs after performing `steps` in order from `o`.
pub open spec fn apply_steps(o: RelayOutputs, steps: Seq<RelayStep>) -> RelayOutputs
    decreases steps.len(),
{
    if steps.len() == 0 {
        o
    } else {
        apply_step(apply_steps(o, steps.drop_last()), steps.last())
    }
}

/// How many speed-select outputs are energised.
pub open spec fn speed_lines_energized(o: RelayOutputs) -> int {
    (if o.low {
        1int
    } else {
        0
    }) + (if o.medium {
        1int
    } else {
        0
    }) + (if o.high {
        1int
    } else {
        0
    })
}

pub open spec fn speed_line(speed: FanSpeed) -> RelayLine {
    match speed {
        FanSpeed::Low => RelayLine::Low,
        FanSpeed::Medium => RelayLine::Medium,
        FanSpeed::High => RelayLine::High,
    }
}

/// The outputs that hold a command once it is applied.
pub open spec fn steady_outputs(c: FanCommand) -> RelayOutputs {
    RelayOutputs {
        low: c == FanCommand::Run(FanSpeed::Low),
        medium: c == FanCommand::Run(FanSpeed::Medium),
        high: c == FanCommand::Run(FanSpeed::High),
        contactor_voltage: false,
    }
}

pub open spec fn switch_to(line: RelayLine, energized: bool) -> RelayStep {
    RelayStep::Switch { line, energized }
}

/// The switching sequence for a change to `c`: open every speed contactor,
/// let them settle, then for a run raise the contactor voltage, close the one
/// speed contactor, let it seat and lower the voltage; finally dwell.
pub open spec fn switch_plan(c: FanCommand) -> Seq<RelayStep> {
    let open_all = seq![
        switch_to(RelayLine::Low, false),
        switch_to(RelayLine::Medium, false),
        switch_to(RelayLine::High, false),
        RelayStep::Wait { ms: SETTLE_MS },
    ];
    let seat = match c {
        FanCommand::Stop => Seq::empty(),
        FanCommand::Run(speed) => seq![
            switch_to(RelayLine::ContactorVoltage, true),
            RelayStep::Wait { ms: VOLTAGE_RISE_MS },
            switch_to(speed_line(speed), true),
            RelayStep::Wait { ms: SEAT_MS },
            switch_to(RelayLine::ContactorVoltage, false),
        ],
    };
    open_all + seat + seq![RelayStep::Wait { ms: DWELL_MS }]
}

/// What the sequencer performs for `c` after `last` was applied: nothing for
/// a repeat.
pub open spec fn sequencer_plan(last: FanCommand, c: FanCommand) -> Seq<RelayStep> {
    if c == last {
        Seq::empty()
    } else {
        switch_plan(c)
    }
}

/// During a switch, at no instant are two speed contactors energised; the
/// contactor voltage is high only after every speed contactor was opened and
/// has settled (from the step after the settle wait) and until the new one
/// has seated (the voltage drop, before the dwell); and the sequence ends in
/// the steady outputs of the new command.
pub proof fn lemma_switch_is_safe(start: RelayOutputs, c: FanCommand)
    requires
        speed_lines_energized(start) <= 1,
        !start.contactor_voltage,
    ensures
        forall|k: int|
            0 <= k <= switch_plan(c).len() ==> speed_lines_energized(
                #[trigger] apply_steps(start, switch_plan(c).take(k)),
            ) <= 1,
        forall|k: int|
            0 <= k <= switch_plan(c).len() && (#[trigger] apply_steps(
                start,
                switch_plan(c).take(k),
            )).contactor_voltage ==> {
                &&& c is Run
                &&& 5 <= k <= 8
                &&& switch_plan(c)[3] == (RelayStep::Wait { ms: SETTLE_MS })
                &&& speed_lines_energized(apply_steps(start, switch_plan(c).take(4))) == 0
                &&& switch_plan(c)[8] == switch_to(RelayLine::ContactorVoltage, false)
                &&& switch_plan(c)[7] == (RelayStep::Wait { ms: SEAT_MS })
            },
        apply_steps(start, switch_plan(c)) == steady_outputs(c),
{
    let p = switch_plan(c);
    assert forall|k: int| 0 <= k <= p.len() implies {
        &&& speed_lines_energized(#[trigger] apply_steps(start, p.take(k))) <= 1
        &&& apply_steps(start, p.take(k)).contactor_voltage ==> (c is Run && 5 <= k <= 8)
    } by {
        lemma_switch_prefix(start, c, k);
    }
    lemma_switch_prefix(start, c, 4);
    lemma_switch_prefix(start, c, p.len() as int);
    assert(p.take(p.len() as int) =~= p);
}

/// The outputs after the first `k` steps of a switch to `c`.
proof fn lemma_switch_prefix(start: RelayOutputs, c: FanCommand, k: int)
    requires
        speed_lines_energized(start) <= 1,
        !start.contactor_voltage,
        0 <= k <= switch_plan(c).len(),
    ensures
        ({
            let o = apply_steps(start, switch_plan(c).take(k));
            &&& speed_lines_energized(o) <= 1
            &&& o.contactor_voltage ==> (c is Run && 5 <= k <= 8)
            &&& c is Run && 5 <= k <= 8 ==> o.contactor_voltage
            &&& k < 3 ==> (o.low ==> start.low) && (o.medium ==> start.medium) && (o.high
                ==> start.high)
            &&& (k >= 1 && !(c is Run && k >= 7)) ==> !o.low
            &&& (k >= 2 && !(c is Run && k >= 7)) ==> !o.medium
            &&& (k >= 3 && !(c is Run && k >= 7)) ==> !o.high
            &&& 3 <= k <= 6 ==> speed_lines_energized(o) == 0
            &&& c is Run && k >= 7 ==> o == (RelayOutputs {
                contactor_voltage: o.contactor_voltage,
                ..steady_outputs(c)
            })
            &&& c is Stop && k >= 3 ==> o == steady_outputs(c)
        }),
    decreases k,
{
    let p = switch_plan(c);
    let open_all = seq![
        switch_to(RelayLine::Low, false),
        switch_to(RelayLine::Medium, false),
        switch_to(RelayLine::High, false),
        RelayStep::Wait { ms: SETTLE_MS },
    ];
    match c {
        FanCommand::Stop => {
            assert(p =~= open_all.push(RelayStep::Wait { ms: DWELL_MS }));
        },
        FanCommand::Run(speed) => {
            assert(p =~= open_all + seq![
                switch_to(RelayLine::ContactorVoltage, true),
                RelayStep::Wait { ms: VOLTAGE_RISE_MS },
                switch_to(speed_line(speed), true),
                RelayStep::Wait { ms: SEAT_MS },
                switch_to(RelayLine::ContactorVoltage, false),
                RelayStep::Wait { ms: DWELL_MS },
            ]);
        },
    }
    if k == 0 {
        assert(p.take(0) =~= Seq::<RelayStep>::empty());
    } else {
        lemma_switch_prefix(start, c, k - 1);
        assert(p.take(k).drop_last() =~= p.take(k - 1));
        assert(p.take(k).last() == p[k - 1]);
    }
}

/// Repeating the command just applied performs nothing: two identical
/// commands in a row switch the relays once.
pub proof fn lemma_sequencer_deduplicates(last: FanCommand, c: FanCommand)
    ensures
        sequencer_plan(c, c) == Seq::<RelayStep>::empty(),
        sequencer_plan(last, c) + sequencer_plan(c, c) == sequencer_plan(last, c),
{
    assert(sequencer_plan(last, c) + Seq::<RelayStep>::empty() =~= sequencer_plan(last, c));
}

/// The sequencer that owns the relay outputs; it remembers the last command
/// it applied.
pub struct RelaySequencer {
    last: FanCommand,
}

impl RelaySequencer {
    pub closed spec fn spec_last(&self) -> FanCommand {
        self.last
    }

    /// A sequencer whose outputs are all off.
    pub fn new() -> (r: Self)
        ensures
            r.spec_last() == FanCommand::Stop,
    {
        RelaySequencer { last: FanCommand::Stop }
    }

    pub fn last(&self) -> (r: FanCommand)
        ensures
            r == self.spec_last(),
    {
        self.last
    }

    /// The steps that apply `cmd`; none when it repeats the last command.
    pub fn plan(&mut self, cmd: FanCommand) -> (r: Vec<RelayStep>)
        ensures
            r@ == sequencer_plan(old(self).spec_last(), cmd),
            final(self).spec_last() == cmd,
    {
        let mut steps: Vec<RelayStep> = Vec::new();
        if cmd == self.last {
            return steps;
        }
        steps.push(RelayStep::Switch { line: RelayLine::Low, energized: false });
        steps.push(RelayStep::Switch { line: RelayLine::Medium, energized: false });
        steps.push(RelayStep::Switch { line: RelayLine::High, energized: false });
        steps.push(RelayStep::Wait { ms: SETTLE_MS });
        if let FanCommand::Run(speed) = cmd {
            let line = match speed {
                FanSpeed::Low => RelayLine::Low,
                FanSpeed::Medium => RelayLine::Medium,
                FanSpeed::High => RelayLine::High,
            };
            steps.push(RelayStep::Switch { line: RelayLine::ContactorVoltage, energized: true });
            steps.push(RelayStep::Wait { ms: VOLTAGE_RISE_MS });
            steps.push(RelayStep::Switch { line, energized: true });
            steps.push(RelayStep::Wait { ms: SEAT_MS });
            steps.push(RelayStep::Switch { line: RelayLine::ContactorVoltage, energized: false });
        }
        steps.push(RelayStep::Wait { ms: DWELL_MS });
        self.last = cmd;
        assert(steps@ =~= switch_plan(cmd));
        steps
    }
}

/// The outputs to force when the controller fails: everything off.
pub fn fail_safe_outputs() -> (r: RelayOutputs)
    ensures
        r == steady_outputs(FanCommand::Stop),
        speed_lines_energized(r) == 0,
{
    RelayOutputs { low: false, medium: false, high: false, contactor_voltage: false }
}

} // verus!
