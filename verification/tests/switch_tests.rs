use mqtt_light_switch::switch::Switch;

fn text(s: &str) -> String {
    String::from(s)
}

#[test]
fn new_switch_starts_off_and_unseeded() {
    let s = Switch::new("cnt", "state", "cmd");
    assert_eq!(s.counter_topic, "cnt");
    assert_eq!(s.light_state_topic, "state");
    assert_eq!(s.light_command_topic, "cmd");
    assert!(!s.is_light_on());
    assert_eq!(s.counter_value(), "");
}

#[test]
fn retained_counter_seeds_silently() {
    let mut s = Switch::new("cnt", "state", "cmd");
    let cmd = s.process(&text("cnt"), true, &text("5"));
    assert!(cmd.is_none());
    assert_eq!(s.counter_value(), "5");
    assert!(!s.is_light_on());
}

#[test]
fn retained_counter_reseeds_silently_after_state() {
    let mut s = Switch::new("cnt", "state", "cmd");
    assert!(s.process(&text("cnt"), true, &text("5")).is_none());
    assert!(s.process(&text("cnt"), true, &text("9")).is_none());
    assert_eq!(s.counter_value(), "9");
}

#[test]
fn live_counter_on_unseeded_switch_commands_on() {
    let mut s = Switch::new("cnt", "state", "cmd");
    let cmd = s.process(&text("cnt"), false, &text("1")).expect("a fresh value commands");
    assert_eq!(cmd.topic, "cmd");
    assert_eq!(cmd.payload, "1");
    assert_eq!(s.counter_value(), "1");
}

#[test]
fn duplicate_live_counter_emits_at_most_once() {
    let mut s = Switch::new("cnt", "state", "cmd");
    assert!(s.process(&text("cnt"), true, &text("5")).is_none());
    let first = s.process(&text("cnt"), false, &text("6"));
    assert!(first.is_some());
    let second = s.process(&text("cnt"), false, &text("6"));
    assert!(second.is_none());
    assert_eq!(s.counter_value(), "6");
}

#[test]
fn alternation_with_state_echo() {
    // The light reports each commanded state back on the state topic
    // before the next press arrives, so successive presses alternate.
    let mut s = Switch::new("cnt", "state", "cmd");
    assert!(s.process(&text("state"), true, &text("1")).is_none());
    assert!(s.process(&text("cnt"), true, &text("5")).is_none());
    assert!(s.is_light_on());

    let c1 = s.process(&text("cnt"), false, &text("6")).expect("new press commands");
    assert_eq!(c1.payload, "0");
    assert!(s.process(&text("state"), false, &text("0")).is_none());

    let c2 = s.process(&text("cnt"), false, &text("7")).expect("new press commands");
    assert_eq!(c2.payload, "1");
    assert!(s.process(&text("state"), false, &text("1")).is_none());

    let c3 = s.process(&text("cnt"), false, &text("8")).expect("new press commands");
    assert_eq!(c3.payload, "0");
}

#[test]
fn light_state_update_is_idempotent() {
    let mut s = Switch::new("cnt", "state", "cmd");
    assert!(s.process(&text("state"), false, &text("1")).is_none());
    assert!(s.is_light_on());
    assert!(s.process(&text("state"), false, &text("1")).is_none());
    assert!(s.is_light_on());
    assert_eq!(s.counter_value(), "");
}

#[test]
fn light_state_payload_other_than_one_means_off() {
    let mut s = Switch::new("cnt", "state", "cmd");
    assert!(s.process(&text("state"), false, &text("1")).is_none());
    assert!(s.is_light_on());
    assert!(s.process(&text("state"), false, &text("0")).is_none());
    assert!(!s.is_light_on());
    assert!(s.process(&text("state"), false, &text("on")).is_none());
    assert!(!s.is_light_on());
}

#[test]
fn foreign_topic_is_ignored() {
    let mut s = Switch::new("cnt", "state", "cmd");
    assert!(s.process(&text("other/topic"), false, &text("6")).is_none());
    assert!(s.process(&text("other/topic"), true, &text("1")).is_none());
    assert!(!s.is_light_on());
    assert_eq!(s.counter_value(), "");
}

#[test]
fn add_subscriptions_lists_light_state_before_counter() {
    let s = Switch::new("cnt", "state", "cmd");
    let topics = s.add_subscriptions();
    assert_eq!(topics, vec![String::from("state"), String::from("cnt")]);
}
