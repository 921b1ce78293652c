use mqtt_light_switch::config::{
    read_log_config, read_mqtt_config, read_switch_config, ConfigError, RawSwitchConfig,
};

fn entry(counter: Option<&str>, state: Option<&str>, command: Option<&str>) -> RawSwitchConfig {
    RawSwitchConfig {
        counter_topic: counter.map(String::from),
        light_state_topic: state.map(String::from),
        light_command_topic: command.map(String::from),
    }
}

#[test]
fn mqtt_config_accepts_host_and_port() {
    let c = read_mqtt_config(Some(String::from("broker.local")), Some(1883)).unwrap();
    assert_eq!(c.host, "broker.local");
    assert_eq!(c.port, 1883);
}

#[test]
fn mqtt_config_missing_host_is_fatal() {
    assert_eq!(read_mqtt_config(None, Some(1883)).unwrap_err(), ConfigError::MissingHost);
    // The host is checked first even when the port is missing too.
    assert_eq!(read_mqtt_config(None, None).unwrap_err(), ConfigError::MissingHost);
}

#[test]
fn mqtt_config_missing_port_is_fatal() {
    let r = read_mqtt_config(Some(String::from("broker.local")), None);
    assert_eq!(r.unwrap_err(), ConfigError::MissingPort);
}

#[test]
fn mqtt_config_rejects_port_outside_range() {
    let host = || Some(String::from("broker.local"));
    assert_eq!(read_mqtt_config(host(), Some(65536)).unwrap_err(), ConfigError::PortOutOfRange);
    assert_eq!(read_mqtt_config(host(), Some(-1)).unwrap_err(), ConfigError::PortOutOfRange);
    assert_eq!(read_mqtt_config(host(), Some(0)).unwrap().port, 0);
    assert_eq!(read_mqtt_config(host(), Some(65535)).unwrap().port, 65535);
}

#[test]
fn log_config_needs_a_level() {
    assert_eq!(read_log_config(None).unwrap_err(), ConfigError::MissingLogLevel);
    assert_eq!(read_log_config(Some(String::from("info"))).unwrap().level, "info");
}

#[test]
fn switch_config_builds_seeded_switches_in_order() {
    let entries = vec![
        entry(Some("a/cnt"), Some("a/state"), Some("a/cmd")),
        entry(Some("b/cnt"), Some("b/state"), Some("b/cmd")),
    ];
    let switches = read_switch_config(&entries).unwrap();
    assert_eq!(switches.len(), 2);
    assert_eq!(switches[0].counter_topic, "a/cnt");
    assert_eq!(switches[0].light_state_topic, "a/state");
    assert_eq!(switches[0].light_command_topic, "a/cmd");
    assert_eq!(switches[1].counter_topic, "b/cnt");
    assert!(!switches[0].is_light_on());
    assert_eq!(switches[0].counter_value(), "");
}

#[test]
fn switch_config_accepts_an_empty_list() {
    let switches = read_switch_config(&Vec::new()).unwrap();
    assert!(switches.is_empty());
}

#[test]
fn switch_config_reports_each_missing_topic() {
    let missing_counter = vec![entry(None, Some("s"), Some("c"))];
    assert_eq!(
        read_switch_config(&missing_counter).unwrap_err(),
        ConfigError::MissingCounterTopic
    );
    let missing_state = vec![entry(Some("n"), None, Some("c"))];
    assert_eq!(
        read_switch_config(&missing_state).unwrap_err(),
        ConfigError::MissingLightStateTopic
    );
    let missing_command = vec![entry(Some("n"), Some("s"), None)];
    assert_eq!(
        read_switch_config(&missing_command).unwrap_err(),
        ConfigError::MissingLightCommandTopic
    );
}

#[test]
fn switch_config_first_incomplete_entry_decides() {
    let entries = vec![
        entry(Some("a/cnt"), Some("a/state"), Some("a/cmd")),
        entry(Some("b/cnt"), None, None),
        entry(None, None, None),
    ];
    assert_eq!(read_switch_config(&entries).unwrap_err(), ConfigError::MissingLightStateTopic);
}
