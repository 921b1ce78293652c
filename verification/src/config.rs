//! Validation of raw configuration values.
//!
//! The configuration document itself is read and parsed outside this
//! crate; what reaches these functions is each field as a plain optional
//! value.  Every required field that is missing, and a port outside the
//! transport's range, is fatal at startup: these functions say exactly
//! which error each incomplete input produces, so no partially configured
//! system can start.

use vstd::prelude::*;

use crate::switch::Switch;
use crate::switch::SwitchModel;

verus! {

/// Why a configuration was rejected at startup.
#[derive(PartialEq, Eq, Structural, Clone, Copy, Debug)]
pub enum ConfigError {
    MissingHost,
    MissingPort,
    PortOutOfRange,
    MissingLogLevel,
    MissingCounterTopic,
    MissingLightStateTopic,
    MissingLightCommandTopic,
}

/// The broker endpoint: where the session connects.
#[derive(Debug)]
pub struct MqttConfig {
    pub host: String,
    pub port: u16,
}

/// The logging verbosity asked for by the configuration.
#[derive(Debug)]
pub struct LogConfig {
    pub level: String,
}

/// One switch entry as it comes out of the configuration document: each
/// required topic present or not.
pub struct RawSwitchConfig {
    pub counter_topic: Option<String>,
    pub light_state_topic: Option<String>,
    pub light_command_topic: Option<String>,
}

/// Whether a raw switch entry carries all three required topics.
pub open spec fn complete(e: RawSwitchConfig) -> bool {
    e.counter_topic is Some && e.light_state_topic is Some && e.light_command_topic is Some
}

/// The error an incomplete switch entry produces: the first missing field
/// in document order decides.
pub open spec fn entry_error(e: RawSwitchConfig) -> ConfigError {
    if e.counter_topic is None {
        ConfigError::MissingCounterTopic
    } else if e.light_state_topic is None {
        ConfigError::MissingLightStateTopic
    } else {
        ConfigError::MissingLightCommandTopic
    }
}

/// The switch a complete raw entry configures: its three topics, the
/// light taken as off, the counter not yet seeded.
pub open spec fn spec_switch_of(e: RawSwitchConfig) -> SwitchModel
    recommends
        complete(e),
{
    SwitchModel {
        counter_topic: e.counter_topic->0@,
        light_state_topic: e.light_state_topic->0@,
        light_command_topic: e.light_command_topic->0@,
        is_light_on: false,
        counter_value: Seq::<char>::empty(),
    }
}

/// Validates the broker endpoint: host and port must both be present and
/// the port must fit the transport's 16-bit range.  The host is checked
/// first, as the document lists it first.
pub fn read_mqtt_config(host: Option<String>, port: Option<i64>) -> (r: Result<
    MqttConfig,
    ConfigError,
>)
    ensures
        host is None ==> r == Err::<MqttConfig, ConfigError>(ConfigError::MissingHost),
        host is Some && port is None ==> r == Err::<MqttConfig, ConfigError>(
            ConfigError::MissingPort,
        ),
        host is Some && port is Some && !(0 <= port->0 <= u16::MAX) ==> r == Err::<
            MqttConfig,
            ConfigError,
        >(ConfigError::PortOutOfRange),
        host is Some && port is Some && 0 <= port->0 <= u16::MAX ==> (r matches Ok(c) && c.host@
            == host->0@ && c.port == port->0 as u16),
{
    match host {
        None => Err(ConfigError::MissingHost),
        Some(h) => match port {
            None => Err(ConfigError::MissingPort),
            Some(p) => {
                if 0 <= p && p <= 65535 {
                    Ok(MqttConfig { host: h, port: p as u16 })
                } else {
                    Err(ConfigError::PortOutOfRange)
                }
            },
        },
    }
}

/// Validates the logging section: the level must be present.
pub fn read_log_config(level: Option<String>) -> (r: Result<LogConfig, ConfigError>)
    ensures
        level is None ==> r == Err::<LogConfig, ConfigError>(ConfigError::MissingLogLevel),
        level matches Some(l) ==> r matches Ok(c) && c.level@ == l@,
{
    match level {
        None => Err(ConfigError::MissingLogLevel),
        Some(l) => Ok(LogConfig { level: l }),
    }
}

/// Builds the switch registry from the raw switch entries, in document
/// order.  The first missing topic of the first incomplete entry aborts
/// the whole startup; a complete list yields one freshly seeded switch
/// per entry.
pub fn read_switch_config(entries: &Vec<RawSwitchConfig>) -> (r: Result<Vec<Switch>, ConfigError>)
    ensures
        (forall|k: int| 0 <= k < entries@.len() ==> complete(entries@[k])) <==> r is Ok,
        r matches Ok(switches) ==> switches@.len() == entries@.len() && forall|k: int|
            0 <= k < entries@.len() ==> switches@[k]@ == spec_switch_of(entries@[k]),
        r matches Err(e) ==> exists|k: int|
            0 <= k < entries@.len() && !complete(entries@[k]) && e == entry_error(entries@[k])
                && (forall|j: int| 0 <= j < k ==> complete(entries@[j])),
{
    let mut switches: Vec<Switch> = Vec::new();
    let n = entries.len();
    let mut i: usize = 0;
    while i < n
        invariant
            i <= n,
            n == entries@.len(),
            switches@.len() == i,
            forall|k: int| 0 <= k < i ==> complete(entries@[k]),
            forall|k: int| 0 <= k < i ==> switches@[k]@ == spec_switch_of(entries@[k]),
        decreases n - i,
    {
        let entry = &entries[i];
        let counter = match &entry.counter_topic {
            Some(t) => t,
            None => {
                return Err(ConfigError::MissingCounterTopic);
            },
        };
        let light_state = match &entry.light_state_topic {
            Some(t) => t,
            None => {
                return Err(ConfigError::MissingLightStateTopic);
            },
        };
        let light_command = match &entry.light_command_topic {
            Some(t) => t,
            None => {
                return Err(ConfigError::MissingLightCommandTopic);
            },
        };
        let s = Switch::new(counter.as_str(), light_state.as_str(), light_command.as_str());
        switches.push(s);
        i = i + 1;
    }
    Ok(switches)
}

} // verus!
