//! The bridge's configuration: two broker endpoints and the forwarding rules.

use std::path::PathBuf;
use vstd::prelude::*;

verus! {

/// `std::path::PathBuf`, carried through as an opaque value: nothing in this
/// crate looks inside a path.
#[verifier::external_type_specification]
#[verifier::external_body]
pub struct ExPathBuf(PathBuf);

/// The port a broker endpoint listens on when none is configured.
pub const DEFAULT_MQTT_PORT: u16 = 1883;

/// The delivery level a rule uses when none is configured.
pub const DEFAULT_QOS: u8 = 0;

/// One of the two brokers that the bridge connects.
#[derive(Debug, Clone, Copy, PartialEq, Eq, Structural)]
pub enum Side {
    Near,
    Far,
}

impl Side {
    /// The other broker.
    pub open spec fn spec_opposite(self) -> Side {
        match self {
            Side::Near => Side::Far,
            Side::Far => Side::Near,
        }
    }

    /// The other broker.
    #[verifier::when_used_as_spec(spec_opposite)]
    pub fn opposite(self) -> (other: Side)
        ensures
            other == self.spec_opposite(),
    {
        match self {
            Side::Near => Side::Far,
            Side::Far => Side::Near,
        }
    }
}

/// MQTT quality of service of a single hop.
#[derive(Debug, Clone, Copy, PartialEq, Eq, Structural)]
pub enum QoS {
    AtMostOnce,
    AtLeastOnce,
    ExactlyOnce,
}

impl QoS {
    /// The delivery level that a configured number stands for: 0, 1 and 2
    /// are the three levels, and every other number is read as 0.
    pub open spec fn from_level(level: u8) -> QoS {
        if level == 1 {
            QoS::AtLeastOnce
        } else if level == 2 {
            QoS::ExactlyOnce
        } else {
            QoS::AtMostOnce
        }
    }

    /// The number of this level on the wire.
    pub open spec fn spec_level(self) -> u8 {
        match self {
            QoS::AtMostOnce => 0,
            QoS::AtLeastOnce => 1,
            QoS::ExactlyOnce => 2,
        }
    }

    /// The number of this level on the wire.
    #[verifier::when_used_as_spec(spec_level)]
    pub fn level(self) -> (level: u8)
        ensures
            level == self.spec_level(),
    {
        match self {
            QoS::AtMostOnce => 0,
            QoS::AtLeastOnce => 1,
            QoS::ExactlyOnce => 2,
        }
    }
}

/// Which way a rule forwards.
#[derive(Debug, Clone, Copy, PartialEq, Eq, Structural)]
pub enum Direction {
    NearToFar,
    FarToNear,
    Wherever,
}

/// How to reach one broker.
#[derive(Debug, Clone)]
pub struct MqttBrokerConfig {
    pub host: String,
    pub port: u16,
    pub username: Option<String>,
    pub password: Option<String>,
    pub client_id: String,
}

/// What a [`MqttBrokerConfig`] says.
pub struct BrokerView {
    pub host: Seq<char>,
    pub port: u16,
    pub username: Option<Seq<char>>,
    pub password: Option<Seq<char>>,
    pub client_id: Seq<char>,
}

/// The text of an optional string.
pub open spec fn optional_text(s: Option<String>) -> Option<Seq<char>> {
    match s {
        Some(text) => Some(text@),
        None => None,
    }
}

impl View for MqttBrokerConfig {
    type V = BrokerView;

    open spec fn view(&self) -> BrokerView {
        BrokerView {
            host: self.host@,
            port: self.port,
            username: optional_text(self.username),
            password: optional_text(self.password),
            client_id: self.client_id@,
        }
    }
}

/// One forwarding rule.
#[derive(Debug, Clone)]
pub struct BridgeRule {
    /// Subscription pattern; `+` stands for one level, a trailing `#` for
    /// any number of levels.
    pub topic: String,
    /// Which way messages on matching topics are forwarded.
    pub direction: Direction,
    /// Whether each forwarded message is reported.
    pub logging: bool,
    /// Delivery level of the forwarded message: 0, 1 or 2.
    pub qos: u8,
}

/// What a [`BridgeRule`] says.
pub struct RuleView {
    pub topic: Seq<char>,
    pub direction: Direction,
    pub logging: bool,
    pub qos: u8,
}

impl RuleView {
    /// The delivery level the rule resolves to.
    pub open spec fn qos_level(self) -> QoS {
        QoS::from_level(self.qos)
    }
}

impl View for BridgeRule {
    type V = RuleView;

    open spec fn view(&self) -> RuleView {
        RuleView {
            topic: self.topic@,
            direction: self.direction,
            logging: self.logging,
            qos: self.qos,
        }
    }
}

impl BridgeRule {
    /// The delivery level of this rule. A configured number other than 0, 1
    /// or 2 is no error: it is read as 0.
    pub fn qos(&self) -> (level: QoS)
        ensures
            level == self@.qos_level(),
    {
        match self.qos {
            0 => QoS::AtMostOnce,
            1 => QoS::AtLeastOnce,
            2 => QoS::ExactlyOnce,
            _ => QoS::AtMostOnce,
        }
    }
}

/// The whole configuration: both endpoints and the rules, in their order.
#[derive(Debug, Clone)]
pub struct BridgeConfig {
    pub near: MqttBrokerConfig,
    pub far: MqttBrokerConfig,
    pub rules: Vec<BridgeRule>,
}

/// What a [`BridgeConfig`] says.
pub struct ConfigView {
    pub near: BrokerView,
    pub far: BrokerView,
    pub rules: Seq<RuleView>,
}

/// What each rule of a list says.
pub open spec fn rule_views(rules: Seq<BridgeRule>) -> Seq<RuleView> {
    rules.map_values(|rule: BridgeRule| rule@)
}

impl View for BridgeConfig {
    type V = ConfigView;

    open spec fn view(&self) -> ConfigView {
        ConfigView { near: self.near@, far: self.far@, rules: rule_views(self.rules@) }
    }
}

/// What the process was started with.
#[derive(Debug)]
pub struct Args {
    /// Where the configuration document lies.
    pub config: PathBuf,
    /// Topic on which a message asks for the configuration to be read again.
    pub reload_topic: Option<String>,
    /// Which broker is watched for that message: `near` or `far`.
    pub reload_broker: String,
}

/// The port used where an endpoint names none.
pub fn default_mqtt_port() -> (port: u16)
    ensures
        port == DEFAULT_MQTT_PORT,
{
    DEFAULT_MQTT_PORT
}

/// The delivery level used where a rule names none.
pub fn default_qos() -> (level: u8)
    ensures
        level == DEFAULT_QOS,
        QoS::from_level(level) == QoS::AtMostOnce,
{
    DEFAULT_QOS
}

} // verus!
