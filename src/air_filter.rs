//! The actuator sink of a zone: forwards commands, dropping repeats.

use crate::protocol::ExternalCommand;
use vstd::prelude::*;

verus! {

/// Where a zone's commands are published.
#[derive(Clone, Debug, PartialEq, Eq)]
pub struct AirFilterConfig {
    pub command_topic: String,
}

/// The command sink of one zone. It remembers the last command that was
/// delivered, so that a repeat of it causes no transport traffic.
pub struct AirFilter {
    config: AirFilterConfig,
    last_command: Option<ExternalCommand>,
}

/// What the sink hands to the transport for `command`, after `last` was
/// delivered: nothing when it repeats `last`.
pub open spec fn sink_output(last: Option<ExternalCommand>, command: ExternalCommand) -> Option<
    ExternalCommand,
> {
    if last == Some(command) {
        None
    } else {
        Some(command)
    }
}

/// The commands that reach the transport when `commands` are offered in turn,
/// starting after `last` was delivered, each delivery succeeding.
pub open spec fn sink_effects(last: Option<ExternalCommand>, commands: Seq<ExternalCommand>) -> Seq<
    ExternalCommand,
>
    decreases commands.len(),
{
    if commands.len() == 0 {
        Seq::empty()
    } else {
        let first = commands[0];
        let rest = sink_effects(Some(first), commands.drop_first());
        match sink_output(last, first) {
            Some(c) => seq![c] + rest,
            None => rest,
        }
    }
}

/// Offering the same command twice in a row reaches the transport at most
/// once, exactly as offering it once does.
pub proof fn lemma_sink_deduplicates(last: Option<ExternalCommand>, command: ExternalCommand)
    ensures
        sink_effects(last, seq![command, command]) == sink_effects(last, seq![command]),
        sink_effects(last, seq![command]).len() <= 1,
{
    let one = seq![command];
    let two = seq![command, command];
    assert(two.drop_first() =~= one);
    assert(one.drop_first() =~= Seq::<ExternalCommand>::empty());
    assert(sink_effects(Some(command), Seq::empty()) == Seq::<ExternalCommand>::empty());
    assert(sink_effects(Some(command), one) == Seq::<ExternalCommand>::empty());
    assert(sink_effects(last, one) == sink_effects(last, two));
    assert(seq![command] + Seq::<ExternalCommand>::empty() =~= seq![command]);
}

impl AirFilter {
    pub closed spec fn spec_config(&self) -> AirFilterConfig {
        self.config
    }

    pub closed spec fn spec_last_command(&self) -> Option<ExternalCommand> {
        self.last_command
    }

    /// A sink that has delivered nothing yet.
    pub fn new(config: AirFilterConfig) -> (r: Self)
        ensures
            r.spec_config() == config,
            r.spec_last_command().is_none(),
    {
        AirFilter { config, last_command: None }
    }

    pub fn command_topic(&self) -> (r: &str)
        ensures
            r@ == self.spec_config().command_topic@,
    {
        self.config.command_topic.as_str()
    }

    /// The command to deliver for `command`: `None` when it repeats the last
    /// delivered one.
    pub fn command(&self, command: ExternalCommand) -> (r: Option<ExternalCommand>)
        ensures
            r == sink_output(self.spec_last_command(), command),
    {
        if self.last_command == Some(command) {
            None
        } else {
            Some(command)
        }
    }

    /// Records that `command` was delivered.
    pub fn command_delivered(&mut self, command: ExternalCommand)
        ensures
            final(self).spec_config() == old(self).spec_config(),
            final(self).spec_last_command() == Some(command),
    {
        self.last_command = Some(command);
    }
}

} // verus!
