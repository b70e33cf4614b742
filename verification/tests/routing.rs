use mr_bridge::{
    default_mqtt_port, default_qos, BridgeConfig, BridgeRule, Direction, Forward, Message,
    MqttBrokerConfig, QoS, Side,
};

fn broker(host: &str) -> MqttBrokerConfig {
    MqttBrokerConfig {
        host: host.to_string(),
        port: default_mqtt_port(),
        username: None,
        password: None,
        client_id: format!("test-{}", host),
    }
}

fn rule(topic: &str, direction: Direction, qos: u8, logging: bool) -> BridgeRule {
    BridgeRule { topic: topic.to_string(), direction, logging, qos }
}

fn config(rules: Vec<BridgeRule>) -> BridgeConfig {
    BridgeConfig { near: broker("near.example"), far: broker("far.example"), rules }
}

fn message(topic: &str, payload: &[u8], retain: bool) -> Message {
    Message { topic: topic.to_string(), payload: payload.to_vec(), qos: QoS::AtMostOnce, retain }
}

fn destinations(forwards: &[Forward]) -> Vec<Side> {
    forwards.iter().map(|f| f.destination).collect()
}

#[test]
fn defaults_are_port_1883_and_qos_0() {
    assert_eq!(default_mqtt_port(), 1883);
    assert_eq!(default_qos(), 0);
}

#[test]
fn qos_resolves_the_three_levels() {
    assert_eq!(rule("a", Direction::Wherever, 0, false).qos(), QoS::AtMostOnce);
    assert_eq!(rule("a", Direction::Wherever, 1, false).qos(), QoS::AtLeastOnce);
    assert_eq!(rule("a", Direction::Wherever, 2, false).qos(), QoS::ExactlyOnce);
}

#[test]
fn qos_out_of_range_is_read_as_at_most_once() {
    assert_eq!(rule("a", Direction::Wherever, 3, false).qos(), QoS::AtMostOnce);
    assert_eq!(rule("a", Direction::Wherever, 7, false).qos(), QoS::AtMostOnce);
    assert_eq!(rule("a", Direction::Wherever, 255, false).qos(), QoS::AtMostOnce);
}

#[test]
fn qos_levels_have_their_wire_numbers() {
    assert_eq!(QoS::AtMostOnce.level(), 0);
    assert_eq!(QoS::AtLeastOnce.level(), 1);
    assert_eq!(QoS::ExactlyOnce.level(), 2);
}

#[test]
fn sides_are_opposite_to_each_other() {
    assert_eq!(Side::Near.opposite(), Side::Far);
    assert_eq!(Side::Far.opposite(), Side::Near);
}

#[test]
fn direction_table_has_six_entries() {
    assert_eq!(Direction::NearToFar.destination(Side::Near), Some(Side::Far));
    assert_eq!(Direction::NearToFar.destination(Side::Far), None);
    assert_eq!(Direction::FarToNear.destination(Side::Near), None);
    assert_eq!(Direction::FarToNear.destination(Side::Far), Some(Side::Near));
    assert_eq!(Direction::Wherever.destination(Side::Near), Some(Side::Far));
    assert_eq!(Direction::Wherever.destination(Side::Far), Some(Side::Near));
}

#[test]
fn wherever_rule_forwards_once_to_the_opposite_side() {
    let config = config(vec![rule("home/#", Direction::Wherever, 1, false)]);
    let from_near = config.route(Side::Near, &message("home/temp", b"1", false));
    assert_eq!(destinations(&from_near), vec![Side::Far]);
    let from_far = config.route(Side::Far, &message("home/temp", b"1", false));
    assert_eq!(destinations(&from_far), vec![Side::Near]);
}

#[test]
fn wherever_rule_that_does_not_match_forwards_nothing() {
    let config = config(vec![rule("home/#", Direction::Wherever, 1, false)]);
    assert!(config.route(Side::Near, &message("office/temp", b"1", false)).is_empty());
    assert!(config.route(Side::Far, &message("office/temp", b"1", false)).is_empty());
}

#[test]
fn near_to_far_rule_drops_what_comes_from_far() {
    let config = config(vec![
        rule("#", Direction::NearToFar, 0, false),
        rule("home/+", Direction::NearToFar, 2, true),
    ]);
    assert!(config.route(Side::Far, &message("home/temp", b"x", false)).is_empty());
    assert_eq!(
        destinations(&config.route(Side::Near, &message("home/temp", b"x", false))),
        vec![Side::Far, Side::Far]
    );
}

#[test]
fn far_to_near_rule_drops_what_comes_from_near() {
    let config = config(vec![rule("#", Direction::FarToNear, 0, false)]);
    assert!(config.route(Side::Near, &message("home/temp", b"x", false)).is_empty());
    assert_eq!(
        destinations(&config.route(Side::Far, &message("home/temp", b"x", false))),
        vec![Side::Near]
    );
}

#[test]
fn overlapping_rules_each_forward_with_their_own_qos() {
    let config = config(vec![
        rule("home/#", Direction::NearToFar, 0, false),
        rule("office/#", Direction::NearToFar, 1, false),
        rule("home/+/temp", Direction::Wherever, 2, true),
        rule("home/living/temp", Direction::FarToNear, 1, false),
    ]);
    let owed = config.route(Side::Near, &message("home/living/temp", b"21.5", true));
    assert_eq!(owed.len(), 2);
    assert_eq!(owed[0].destination, Side::Far);
    assert_eq!(owed[0].qos, QoS::AtMostOnce);
    assert!(!owed[0].logging);
    assert_eq!(owed[1].destination, Side::Far);
    assert_eq!(owed[1].qos, QoS::ExactlyOnce);
    assert!(owed[1].logging);
    for forward in &owed {
        assert_eq!(forward.topic, "home/living/temp");
        assert_eq!(forward.payload, b"21.5".to_vec());
        assert!(forward.retain);
    }
}

#[test]
fn forward_keeps_retain_flag_and_ignores_inbound_qos() {
    let config = config(vec![rule("a/b", Direction::Wherever, 1, false)]);
    let inbound = Message {
        topic: "a/b".to_string(),
        payload: vec![0, 255, 7],
        qos: QoS::ExactlyOnce,
        retain: false,
    };
    let owed = config.route(Side::Far, &inbound);
    assert_eq!(owed.len(), 1);
    assert_eq!(owed[0].qos, QoS::AtLeastOnce);
    assert!(!owed[0].retain);
    assert_eq!(owed[0].payload, vec![0, 255, 7]);
}

#[test]
fn rule_forward_is_none_without_match_or_direction() {
    let r = rule("sensors/#", Direction::NearToFar, 1, false);
    assert!(r.forward(Side::Near, &message("sensors/temp", b"22", false)).is_some());
    assert!(r.forward(Side::Far, &message("sensors/temp", b"22", false)).is_none());
    assert!(r.forward(Side::Near, &message("actuators/fan", b"on", false)).is_none());
}

#[test]
fn no_rules_forward_nothing() {
    let config = config(vec![]);
    assert!(config.route(Side::Near, &message("a", b"", false)).is_empty());
}

#[test]
fn end_to_end_near_to_far_sensors() {
    let config = config(vec![rule("sensors/#", Direction::NearToFar, 1, false)]);
    let owed = config.route(Side::Near, &message("sensors/temp", b"22", false));
    assert_eq!(owed.len(), 1);
    assert_eq!(owed[0].destination, Side::Far);
    assert_eq!(owed[0].topic, "sensors/temp");
    assert_eq!(owed[0].qos, QoS::AtLeastOnce);
    assert_eq!(owed[0].payload, b"22".to_vec());
    assert!(config.route(Side::Far, &message("sensors/temp", b"22", false)).is_empty());
}
