use mr_bridge::{
    side_named, Action, Args, Bridge, BridgeConfig, BridgeRule, Direction, Event, Message,
    MqttBrokerConfig, QoS, Side, Subscription, Unsubscription, RECONNECT_DELAY_SECS,
};
use std::collections::BTreeMap;
use std::path::PathBuf;

fn endpoint(host: &str) -> MqttBrokerConfig {
    MqttBrokerConfig {
        host: host.to_string(),
        port: 1883,
        username: None,
        password: None,
        client_id: format!("engine-{}", host),
    }
}

fn a_rule(topic: &str, direction: Direction, qos: u8) -> BridgeRule {
    BridgeRule { topic: topic.to_string(), direction, logging: false, qos }
}

fn a_config(rules: Vec<BridgeRule>) -> BridgeConfig {
    BridgeConfig { near: endpoint("near"), far: endpoint("far"), rules }
}

fn args(reload_topic: Option<&str>, reload_broker: &str) -> Args {
    Args {
        config: PathBuf::from("bridge.toml"),
        reload_topic: reload_topic.map(|t| t.to_string()),
        reload_broker: reload_broker.to_string(),
    }
}

fn publish(topic: &str) -> Message {
    Message { topic: topic.to_string(), payload: b"payload".to_vec(), qos: QoS::AtMostOnce, retain: true }
}

fn subs(plan: &[Subscription]) -> Vec<(Side, String, QoS)> {
    plan.iter().map(|s| (s.side, s.topic.clone(), s.qos)).collect()
}

fn unsubs(plan: &[Unsubscription]) -> Vec<(Side, String)> {
    plan.iter().map(|u| (u.side, u.topic.clone())).collect()
}

fn key(side: Side) -> u8 {
    match side {
        Side::Near => 0,
        Side::Far => 1,
    }
}

/// The subscriptions that a broker pair holds after the given requests.
fn apply(
    mut active: BTreeMap<(u8, String), u8>,
    drop: &[Unsubscription],
    make: &[Subscription],
) -> BTreeMap<(u8, String), u8> {
    for u in drop {
        active.remove(&(key(u.side), u.topic.clone()));
    }
    for s in make {
        active.insert((key(s.side), s.topic.clone()), s.qos.level());
    }
    active
}

fn three_rules() -> Vec<BridgeRule> {
    vec![
        a_rule("sensors/#", Direction::NearToFar, 1),
        a_rule("commands/+", Direction::FarToNear, 2),
        a_rule("status", Direction::Wherever, 9),
    ]
}

#[test]
fn side_names_are_near_and_far_only() {
    assert_eq!(side_named("near"), Some(Side::Near));
    assert_eq!(side_named("far"), Some(Side::Far));
    assert_eq!(side_named("Near"), None);
    assert_eq!(side_named("both"), None);
    assert_eq!(side_named(""), None);
    assert_eq!(side_named("near "), None);
}

#[test]
fn subscriptions_follow_rule_order_and_direction() {
    let bridge = Bridge::new(&args(None, "near"), a_config(three_rules()));
    assert_eq!(
        subs(&bridge.subscribe_to_topics()),
        vec![
            (Side::Near, "sensors/#".to_string(), QoS::AtLeastOnce),
            (Side::Far, "commands/+".to_string(), QoS::ExactlyOnce),
            (Side::Near, "status".to_string(), QoS::AtMostOnce),
            (Side::Far, "status".to_string(), QoS::AtMostOnce),
        ]
    );
}

#[test]
fn reload_topic_is_subscribed_last_at_least_once() {
    let rules = vec![a_rule("sensors/#", Direction::NearToFar, 0)];
    let near = Bridge::new(&args(Some("bridge/reload"), "near"), a_config(rules.clone()));
    assert_eq!(
        subs(&near.subscribe_to_topics()),
        vec![
            (Side::Near, "sensors/#".to_string(), QoS::AtMostOnce),
            (Side::Near, "bridge/reload".to_string(), QoS::AtLeastOnce),
        ]
    );
    let far = Bridge::new(&args(Some("bridge/reload"), "far"), a_config(rules));
    assert_eq!(
        subs(&far.subscribe_to_topics()),
        vec![
            (Side::Near, "sensors/#".to_string(), QoS::AtMostOnce),
            (Side::Far, "bridge/reload".to_string(), QoS::AtLeastOnce),
        ]
    );
}

#[test]
fn invalid_reload_broker_subscribes_no_reload_topic() {
    let bridge = Bridge::new(
        &args(Some("bridge/reload"), "middle"),
        a_config(vec![a_rule("a", Direction::FarToNear, 1)]),
    );
    assert_eq!(bridge.reload_side(), None);
    assert_eq!(
        subs(&bridge.subscribe_to_topics()),
        vec![(Side::Far, "a".to_string(), QoS::AtLeastOnce)]
    );
    assert!(!bridge.is_reload_trigger(Side::Near, "bridge/reload"));
    assert!(!bridge.is_reload_trigger(Side::Far, "bridge/reload"));
}

#[test]
fn unsubscriptions_cover_the_rules_but_not_the_reload_topic() {
    let bridge = Bridge::new(&args(Some("bridge/reload"), "near"), a_config(three_rules()));
    assert_eq!(
        unsubs(&bridge.unsubscribe_from_topics()),
        vec![
            (Side::Near, "sensors/#".to_string()),
            (Side::Far, "commands/+".to_string()),
            (Side::Near, "status".to_string()),
            (Side::Far, "status".to_string()),
        ]
    );
}

#[test]
fn no_rules_and_no_reload_topic_subscribe_nothing() {
    let bridge = Bridge::new(&args(None, "near"), a_config(vec![]));
    assert!(bridge.subscribe_to_topics().is_empty());
    assert!(bridge.unsubscribe_from_topics().is_empty());
}

#[test]
fn reload_trigger_needs_exact_topic_and_watched_side() {
    let bridge = Bridge::new(&args(Some("bridge/reload"), "far"), a_config(vec![]));
    assert!(bridge.is_reload_trigger(Side::Far, "bridge/reload"));
    assert!(!bridge.is_reload_trigger(Side::Near, "bridge/reload"));
    assert!(!bridge.is_reload_trigger(Side::Far, "bridge/reload/now"));
    assert!(!bridge.is_reload_trigger(Side::Far, "bridge"));
    let none = Bridge::new(&args(None, "far"), a_config(vec![]));
    assert!(!none.is_reload_trigger(Side::Far, "bridge/reload"));
}

#[test]
fn reload_message_asks_for_reload_and_is_not_forwarded() {
    let bridge = Bridge::new(
        &args(Some("bridge/reload"), "near"),
        a_config(vec![a_rule("#", Direction::Wherever, 1)]),
    );
    assert!(matches!(bridge.handle_near_publish(&publish("bridge/reload")), Action::Reload));
    match bridge.handle_far_publish(&publish("bridge/reload")) {
        Action::Forward(owed) => {
            assert_eq!(owed.len(), 1);
            assert_eq!(owed[0].destination, Side::Near);
        }
        other => panic!("expected a forward, got {:?}", other),
    }
}

#[test]
fn handle_publish_forwards_by_the_rules() {
    let bridge = Bridge::new(&args(None, "near"), a_config(three_rules()));
    match bridge.handle_near_publish(&publish("sensors/temp")) {
        Action::Forward(owed) => {
            assert_eq!(owed.len(), 1);
            assert_eq!(owed[0].destination, Side::Far);
            assert_eq!(owed[0].qos, QoS::AtLeastOnce);
            assert_eq!(owed[0].topic, "sensors/temp");
            assert_eq!(owed[0].payload, b"payload".to_vec());
            assert!(owed[0].retain);
        }
        other => panic!("expected a forward, got {:?}", other),
    }
    match bridge.handle_far_publish(&publish("sensors/temp")) {
        Action::Forward(owed) => assert!(owed.is_empty()),
        other => panic!("expected a forward, got {:?}", other),
    }
    match bridge.handle_publish(Side::Far, &publish("commands/start")) {
        Action::Forward(owed) => {
            assert_eq!(owed.len(), 1);
            assert_eq!(owed[0].destination, Side::Near);
            assert_eq!(owed[0].qos, QoS::ExactlyOnce);
        }
        other => panic!("expected a forward, got {:?}", other),
    }
}

#[test]
fn events_other_than_publish_owe_nothing_or_a_pause() {
    let bridge = Bridge::new(&args(None, "near"), a_config(three_rules()));
    assert!(matches!(bridge.on_event(Side::Near, &Event::Incoming), Action::Ignore));
    assert!(matches!(bridge.on_event(Side::Far, &Event::Outgoing), Action::Ignore));
    assert_eq!(RECONNECT_DELAY_SECS, 5);
    match bridge.on_event(Side::Far, &Event::ConnectionError) {
        Action::Pause { side, seconds } => {
            assert_eq!(side, Side::Far);
            assert_eq!(seconds, 5);
        }
        other => panic!("expected a pause, got {:?}", other),
    }
    match bridge.on_event(Side::Near, &Event::ConnectionError) {
        Action::Pause { side, seconds } => {
            assert_eq!(side, Side::Near);
            assert_eq!(seconds, 5);
        }
        other => panic!("expected a pause, got {:?}", other),
    }
}

#[test]
fn publish_event_is_handled_as_a_publish() {
    let bridge = Bridge::new(&args(Some("reload"), "near"), a_config(three_rules()));
    assert!(matches!(
        bridge.on_event(Side::Near, &Event::Publish(publish("reload"))),
        Action::Reload
    ));
    match bridge.on_event(Side::Near, &Event::Publish(publish("status"))) {
        Action::Forward(owed) => {
            assert_eq!(owed.len(), 1);
            assert_eq!(owed[0].destination, Side::Far);
        }
        other => panic!("expected a forward, got {:?}", other),
    }
}

#[test]
fn reload_replaces_the_configuration_whole() {
    let mut bridge = Bridge::new(&args(Some("reload"), "near"), a_config(three_rules()));
    let plan = bridge.reload_config(a_config(vec![a_rule("new/#", Direction::FarToNear, 2)]));
    assert_eq!(
        unsubs(&plan.unsubscribe),
        vec![
            (Side::Near, "sensors/#".to_string()),
            (Side::Far, "commands/+".to_string()),
            (Side::Near, "status".to_string()),
            (Side::Far, "status".to_string()),
        ]
    );
    assert_eq!(
        subs(&plan.subscribe),
        vec![
            (Side::Far, "new/#".to_string(), QoS::ExactlyOnce),
            (Side::Near, "reload".to_string(), QoS::AtLeastOnce),
        ]
    );
    assert_eq!(bridge.config().rules.len(), 1);
    assert_eq!(bridge.config().rules[0].topic, "new/#");
    match bridge.handle_near_publish(&publish("sensors/temp")) {
        Action::Forward(owed) => assert!(owed.is_empty()),
        other => panic!("expected a forward, got {:?}", other),
    }
    assert!(bridge.is_reload_trigger(Side::Near, "reload"));
}

#[test]
fn reload_with_the_same_configuration_keeps_the_subscriptions() {
    let mut rules = three_rules();
    rules.push(a_rule("reload", Direction::NearToFar, 0));
    rules.push(a_rule("sensors/#", Direction::Wherever, 2));
    let mut bridge = Bridge::new(&args(Some("reload"), "near"), a_config(rules.clone()));
    let before = apply(BTreeMap::new(), &[], &bridge.subscribe_to_topics());
    let plan = bridge.reload_config(a_config(rules));
    let after = apply(before.clone(), &plan.unsubscribe, &plan.subscribe);
    assert_eq!(after, before);
    assert_eq!(after.get(&(0, "reload".to_string())), Some(&1));
    assert_eq!(after.get(&(0, "sensors/#".to_string())), Some(&2));
    assert_eq!(after.len(), 6);
}

#[test]
fn reload_with_the_same_configuration_survives_failed_unsubscribes() {
    let mut bridge = Bridge::new(&args(Some("reload"), "far"), a_config(three_rules()));
    let before = apply(BTreeMap::new(), &[], &bridge.subscribe_to_topics());
    let plan = bridge.reload_config(a_config(three_rules()));
    let only_some: Vec<Unsubscription> = plan.unsubscribe.iter().take(2).cloned().collect();
    assert_eq!(apply(before.clone(), &only_some, &plan.subscribe), before);
    assert_eq!(apply(before.clone(), &[], &plan.subscribe), before);
    assert_eq!(before.get(&(1, "reload".to_string())), Some(&1));
}

#[test]
fn reload_to_other_rules_leaves_no_old_subscription() {
    let mut bridge = Bridge::new(&args(Some("reload"), "near"), a_config(three_rules()));
    let before = apply(BTreeMap::new(), &[], &bridge.subscribe_to_topics());
    let plan = bridge.reload_config(a_config(vec![a_rule("only", Direction::Wherever, 1)]));
    let after = apply(before, &plan.unsubscribe, &plan.subscribe);
    let fresh = Bridge::new(
        &args(Some("reload"), "near"),
        a_config(vec![a_rule("only", Direction::Wherever, 1)]),
    );
    assert_eq!(after, apply(BTreeMap::new(), &[], &fresh.subscribe_to_topics()));
}
