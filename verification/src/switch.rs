//! The per-switch toggle state machine.
//!
//! A `Switch` pairs one momentary push button (publishing an incrementing
//! counter) with one bistable light.  It reacts to messages on exactly two
//! topics: the counter topic seeds or advances `counter_value`, and the
//! light-state topic tracks the light's last reported state.  A toggle
//! command is emitted only for a live (non-retained) counter message whose
//! payload differs from the last seen counter value.

use vstd::prelude::*;

verus! {

/// Mathematical model of a [`Switch`]: its three topic identifiers and its
/// two pieces of mutable state, all as plain sequences.
pub ghost struct SwitchModel {
    pub counter_topic: Seq<char>,
    pub light_state_topic: Seq<char>,
    pub light_command_topic: Seq<char>,
    pub is_light_on: bool,
    pub counter_value: Seq<char>,
}

/// Mathematical model of a [`Command`].
pub ghost struct CommandModel {
    pub topic: Seq<char>,
    pub payload: Seq<char>,
}

/// An outbound publication ordered by a switch: a toggle command for its
/// light, to be published on the switch's light-command topic.
pub struct Command {
    pub topic: String,
    pub payload: String,
}

impl View for Command {
    type V = CommandModel;

    open spec fn view(&self) -> CommandModel {
        CommandModel { topic: self.topic@, payload: self.payload@ }
    }
}

/// The payload that means "light on": the single character `1`.
pub open spec fn on_payload() -> Seq<char> {
    "1"@
}

/// The payload that means "light off": the single character `0`.
pub open spec fn off_payload() -> Seq<char> {
    "0"@
}

/// The light state a switch records after a message: a light-state message
/// sets it to whether the payload is `"1"`; any other message leaves it.
pub open spec fn spec_light_after(pre: SwitchModel, topic: Seq<char>, payload: Seq<char>) -> bool {
    if topic == pre.light_state_topic {
        payload == on_payload()
    } else {
        pre.is_light_on
    }
}

/// The full transition of one switch on one decoded message: the state
/// after processing, and the command emitted, if any.
///
/// A retained counter message only seeds `counter_value`.  A live counter
/// message whose payload differs from `counter_value` emits the complement
/// of the recorded light state on the light-command topic and advances
/// `counter_value`; a duplicate changes nothing.  Messages on other topics
/// leave the counter state alone and emit nothing.
pub open spec fn spec_process(
    pre: SwitchModel,
    topic: Seq<char>,
    retain: bool,
    payload: Seq<char>,
) -> (SwitchModel, Option<CommandModel>) {
    let light = spec_light_after(pre, topic, payload);
    let mid = SwitchModel { is_light_on: light, ..pre };
    if topic == pre.counter_topic {
        if retain {
            (SwitchModel { counter_value: payload, ..mid }, None)
        } else if payload != pre.counter_value {
            (
                SwitchModel { counter_value: payload, ..mid },
                Some(
                    CommandModel {
                        topic: pre.light_command_topic,
                        payload: if light {
                            off_payload()
                        } else {
                            on_payload()
                        },
                    },
                ),
            )
        } else {
            (mid, None)
        }
    } else {
        (mid, None)
    }
}

/// The models of an optional command.
pub open spec fn cmd_view(c: Option<Command>) -> Option<CommandModel> {
    match c {
        Some(cmd) => Some(cmd@),
        None => None,
    }
}

/// One button/light pair: the three topics it owns and its cached state.
#[derive(Debug)]
pub struct Switch {
    pub counter_topic: String,
    pub light_state_topic: String,
    pub light_command_topic: String,
    is_light_on: bool,
    counter_value: String,
}

impl View for Switch {
    type V = SwitchModel;

    closed spec fn view(&self) -> SwitchModel {
        SwitchModel {
            counter_topic: self.counter_topic@,
            light_state_topic: self.light_state_topic@,
            light_command_topic: self.light_command_topic@,
            is_light_on: self.is_light_on,
            counter_value: self.counter_value@,
        }
    }
}

/// The string `"1"`, the command payload that turns a light on.
pub fn on_text() -> (s: String)
    ensures
        s@ == on_payload(),
{
    "1".to_owned()
}

/// The string `"0"`, the command payload that turns a light off.
pub fn off_text() -> (s: String)
    ensures
        s@ == off_payload(),
{
    "0".to_owned()
}

impl Switch {
    pub fn new(counter_topic: &str, light_state_topic: &str, light_command_topic: &str) -> (s:
        Switch)
        ensures
            s@ == (SwitchModel {
                counter_topic: counter_topic@,
                light_state_topic: light_state_topic@,
                light_command_topic: light_command_topic@,
                is_light_on: false,
                counter_value: Seq::<char>::empty(),
            }),
    {
        Switch {
            counter_topic: counter_topic.to_owned(),
            light_state_topic: light_state_topic.to_owned(),
            light_command_topic: light_command_topic.to_owned(),
            is_light_on: false,
            counter_value: String::new(),
        }
    }

    /// The light state this switch last recorded.
    pub fn is_light_on(&self) -> (b: bool)
        ensures
            b == self@.is_light_on,
    {
        self.is_light_on
    }

    /// The counter payload this switch last processed.
    pub fn counter_value(&self) -> (v: &String)
        ensures
            v@ == self@.counter_value,
    {
        &self.counter_value
    }

    /// The topics this switch subscribes to, in the order the handshake
    /// must issue them: the light-state topic strictly before the counter
    /// topic, so a retained light-state snapshot is applied before any
    /// counter message is judged against the cached light state.
    pub fn add_subscriptions(&self) -> (topics: Vec<String>)
        ensures
            topics@.len() == 2,
            topics@[0]@ == self@.light_state_topic,
            topics@[1]@ == self@.counter_topic,
    {
        let mut topics: Vec<String> = Vec::new();
        topics.push(self.light_state_topic.clone());
        topics.push(self.counter_topic.clone());
        topics
    }

    /// Processes one decoded message and returns the command to publish,
    /// if the message was a genuinely new press of this switch's button.
    pub fn process(&mut self, topic: &String, retain: bool, payload: &String) -> (cmd: Option<
        Command,
    >)
        ensures
            final(self)@ == spec_process(old(self)@, topic@, retain, payload@).0,
            cmd_view(cmd) == spec_process(old(self)@, topic@, retain, payload@).1,
    {
        let mut emitted: Option<Command> = None;
        if *topic == self.light_state_topic {
            self.is_light_on = *payload == on_text();
        }
        if *topic == self.counter_topic {
            if retain {
                self.counter_value = payload.clone();
            } else if !(self.counter_value == *payload) {
                let command_payload = if self.is_light_on {
                    off_text()
                } else {
                    on_text()
                };
                emitted = Some(
                    Command { topic: self.light_command_topic.clone(), payload: command_payload },
                );
                self.counter_value = payload.clone();
            }
        }
        emitted
    }
}

/// A retained message never commands the light, whatever its topic; a
/// retained counter message always seeds `counter_value` with its payload.
pub proof fn lemma_retained_never_commands(pre: SwitchModel, topic: Seq<char>, payload: Seq<char>)
    ensures
        spec_process(pre, topic, true, payload).1 is None,
        topic == pre.counter_topic ==> spec_process(pre, topic, true, payload).0.counter_value
            == payload,
{
}

/// Two consecutive live messages with the same topic and payload command
/// the light at most once: the second changes nothing and emits nothing.
pub proof fn lemma_duplicate_live_message(pre: SwitchModel, topic: Seq<char>, payload: Seq<char>)
    ensures
        spec_process(spec_process(pre, topic, false, payload).0, topic, false, payload).1 is None,
        spec_process(spec_process(pre, topic, false, payload).0, topic, false, payload).0
            == spec_process(pre, topic, false, payload).0,
{
}

/// Light-state updates are idempotent: for a switch whose light-state
/// topic is not also its counter topic, receiving light-state payload
/// `"1"` twice in a row leaves the light recorded as on, changes nothing
/// else, and emits no command either time.
pub proof fn lemma_light_state_idempotent(pre: SwitchModel, retain1: bool, retain2: bool)
    requires
        pre.light_state_topic != pre.counter_topic,
    ensures
        spec_process(pre, pre.light_state_topic, retain1, on_payload()).0.is_light_on,
        spec_process(pre, pre.light_state_topic, retain1, on_payload()).1 is None,
        spec_process(
            spec_process(pre, pre.light_state_topic, retain1, on_payload()).0,
            pre.light_state_topic,
            retain2,
            on_payload(),
        ).0 == spec_process(pre, pre.light_state_topic, retain1, on_payload()).0,
        spec_process(
            spec_process(pre, pre.light_state_topic, retain1, on_payload()).0,
            pre.light_state_topic,
            retain2,
            on_payload(),
        ).1 is None,
{
}

/// A message on a topic a switch does not own leaves the switch exactly
/// as it was and emits nothing: switches with disjoint topic sets process
/// their own messages independently.
pub proof fn lemma_foreign_topic_no_effect(
    pre: SwitchModel,
    topic: Seq<char>,
    retain: bool,
    payload: Seq<char>,
)
    requires
        topic != pre.counter_topic,
        topic != pre.light_state_topic,
    ensures
        spec_process(pre, topic, retain, payload).0 == pre,
        spec_process(pre, topic, retain, payload).1 is None,
{
}

} // verus!
