//! Routing and reload engine of a bridge between two MQTT brokers.

pub mod bridge;
pub mod client;
pub mod config;
pub mod ident;
pub mod reconcile;
pub mod routing;
pub mod source;
pub mod subscription;
pub mod text;
pub mod topic;

pub use bridge::{side_named, Action, Bridge, Event, ReloadPlan, RECONNECT_DELAY_SECS};
pub use client::{create_mqtt_options, KEEP_ALIVE_SECS, REQUEST_CAPACITY};
pub use config::{
    default_mqtt_port, default_qos, Args, BridgeConfig, BridgeRule, Direction, MqttBrokerConfig,
    QoS, Side,
};
pub use ident::default_client_id;
pub use routing::{Forward, Message};
pub use source::{config_format, ConfigFormat};
pub use subscription::{Subscription, Unsubscription};
pub use topic::matches_topic;
