//! The engine of the bridge: what to do about each event of a broker
//! connection, and how to move from one configuration to the next.
//!
//! The engine does no I/O. Each of its functions turns what happened into
//! what is owed: subscriptions to make, messages to publish, a pause to
//! take, a configuration to read again. Whoever drives the connections
//! carries these out and reports back.

use crate::config::{optional_text, Args, BridgeConfig, ConfigView, QoS, Side};
use crate::routing::{forward_views, forwards, Forward, ForwardView, Message, MessageView};
use crate::subscription::{
    rules_subscriptions, rules_unsubscriptions, subscription_views, subscriptions_of,
    unsubscription_views, unsubscriptions_of, Subscription, SubscriptionView, Unsubscription,
    UnsubscriptionView,
};
use crate::text::same_text;
use vstd::prelude::*;

verus! {

/// Seconds to wait, after a connection error, before polling that broker again.
pub const RECONNECT_DELAY_SECS: u64 = 5;

/// The broker that `text` names: `near`, `far`, or none.
pub open spec fn parse_side(text: Seq<char>) -> Option<Side> {
    if text == "near"@ {
        Some(Side::Near)
    } else if text == "far"@ {
        Some(Side::Far)
    } else {
        None
    }
}

/// The broker that `text` names: `near`, `far`, or none.
pub fn side_named(text: &str) -> (side: Option<Side>)
    ensures
        side == parse_side(text@),
{
    if same_text(text, "near") {
        Some(Side::Near)
    } else if same_text(text, "far") {
        Some(Side::Far)
    } else {
        None
    }
}

/// What a broker connection reported.
#[derive(Debug, Clone)]
pub enum Event {
    /// A message was delivered.
    Publish(Message),
    /// Another packet came in.
    Incoming,
    /// A packet went out.
    Outgoing,
    /// The connection failed.
    ConnectionError,
}

/// What an [`Event`] says.
pub enum EventView {
    Publish(MessageView),
    Incoming,
    Outgoing,
    ConnectionError,
}

impl View for Event {
    type V = EventView;

    open spec fn view(&self) -> EventView {
        match *self {
            Event::Publish(message) => EventView::Publish(message@),
            Event::Incoming => EventView::Incoming,
            Event::Outgoing => EventView::Outgoing,
            Event::ConnectionError => EventView::ConnectionError,
        }
    }
}

/// What the bridge owes after an event.
#[derive(Debug, Clone)]
pub enum Action {
    /// Read the configuration again and hand it to [`Bridge::reload_config`].
    Reload,
    /// Publish each of these, in this order. A publish that fails ends the
    /// handling of this message and of no other.
    Forward(Vec<Forward>),
    /// Nothing.
    Ignore,
    /// Let `seconds` pass before polling `side` again; the other broker is
    /// polled meanwhile.
    Pause { side: Side, seconds: u64 },
}

/// What an [`Action`] says.
pub enum ActionView {
    Reload,
    Forward(Seq<ForwardView>),
    Ignore,
    Pause { side: Side, seconds: u64 },
}

impl View for Action {
    type V = ActionView;

    open spec fn view(&self) -> ActionView {
        match *self {
            Action::Reload => ActionView::Reload,
            Action::Forward(owed) => ActionView::Forward(forward_views(owed@)),
            Action::Ignore => ActionView::Ignore,
            Action::Pause { side, seconds } => ActionView::Pause { side, seconds },
        }
    }
}

/// What a reload owes to the brokers.
#[derive(Debug, Clone)]
pub struct ReloadPlan {
    /// Subscriptions of the previous configuration, to be dropped first. One
    /// that cannot be dropped is reported and passed over.
    pub unsubscribe: Vec<Unsubscription>,
    /// Subscriptions of the new configuration, to be made next, in this
    /// order. The first that fails ends the reload with an error.
    pub subscribe: Vec<Subscription>,
}

/// What a [`Bridge`] knows.
pub struct BridgeView {
    /// The active configuration.
    pub config: ConfigView,
    /// The topic that asks for a reload, if any.
    pub reload_topic: Option<Seq<char>>,
    /// The name of the broker watched for it.
    pub reload_broker: Seq<char>,
}

impl BridgeView {
    /// The broker watched for the reload topic; none if its name is
    /// neither `near` nor `far`.
    pub open spec fn reload_side(self) -> Option<Side> {
        parse_side(self.reload_broker)
    }

    /// The subscription that lets the reload topic through: at least once,
    /// on the watched broker. Empty if no reload topic is set or the
    /// broker's name is not valid.
    pub open spec fn reload_subscription(self) -> Seq<SubscriptionView> {
        match (self.reload_topic, self.reload_side()) {
            (Some(topic), Some(side)) => seq![
                SubscriptionView { side, topic, qos: QoS::AtLeastOnce },
            ],
            _ => Seq::empty(),
        }
    }

    /// All that the bridge subscribes to: what the rules imply, then the
    /// reload topic.
    pub open spec fn subscriptions(self) -> Seq<SubscriptionView> {
        rules_subscriptions(self.config.rules) + self.reload_subscription()
    }

    /// All that a reload drops: what the rules imply. The reload topic
    /// stays subscribed.
    pub open spec fn unsubscriptions(self) -> Seq<UnsubscriptionView> {
        rules_unsubscriptions(self.config.rules)
    }

    /// Whether a message on `topic`, come in on `origin`, asks for a reload:
    /// the topic is exactly the reload topic and `origin` is the watched
    /// broker.
    pub open spec fn is_reload_trigger(self, origin: Side, topic: Seq<char>) -> bool {
        self.reload_topic == Some(topic) && self.reload_side() == Some(origin)
    }

    /// What is owed for a message come in on `origin`: a reload if it asks
    /// for one, else the forwards of the rules.
    pub open spec fn on_publish(self, origin: Side, message: MessageView) -> ActionView {
        if self.is_reload_trigger(origin, message.topic) {
            ActionView::Reload
        } else {
            ActionView::Forward(forwards(self.config.rules, origin, message))
        }
    }

    /// What is owed for an event on the connection to `origin`.
    pub open spec fn on_event(self, origin: Side, event: EventView) -> ActionView {
        match event {
            EventView::Publish(message) => self.on_publish(origin, message),
            EventView::Incoming => ActionView::Ignore,
            EventView::Outgoing => ActionView::Ignore,
            EventView::ConnectionError => ActionView::Pause {
                side: origin,
                seconds: RECONNECT_DELAY_SECS,
            },
        }
    }

    /// The same bridge with another configuration.
    pub open spec fn with_config(self, config: ConfigView) -> BridgeView {
        BridgeView { config, reload_topic: self.reload_topic, reload_broker: self.reload_broker }
    }
}

/// The state of the bridge: the active configuration, and how a reload is
/// asked for. The configuration is only ever replaced whole.
#[derive(Debug)]
pub struct Bridge {
    config: BridgeConfig,
    reload_topic: Option<String>,
    reload_broker: String,
}

impl View for Bridge {
    type V = BridgeView;

    closed spec fn view(&self) -> BridgeView {
        BridgeView {
            config: self.config@,
            reload_topic: optional_text(self.reload_topic),
            reload_broker: self.reload_broker@,
        }
    }
}

impl Bridge {
    /// A bridge that runs `config` and takes its reload settings from `args`.
    pub fn new(args: &Args, config: BridgeConfig) -> (bridge: Bridge)
        ensures
            bridge@ == (BridgeView {
                config: config@,
                reload_topic: optional_text(args.reload_topic),
                reload_broker: args.reload_broker@,
            }),
    {
        let reload_topic = match &args.reload_topic {
            Some(topic) => Some(topic.clone()),
            None => None,
        };
        Bridge { config, reload_topic, reload_broker: args.reload_broker.clone() }
    }

    /// The active configuration.
    pub fn config(&self) -> (config: &BridgeConfig)
        ensures
            config@ == self@.config,
    {
        &self.config
    }

    /// The broker watched for the reload topic.
    pub fn reload_side(&self) -> (side: Option<Side>)
        ensures
            side == self@.reload_side(),
    {
        side_named(self.reload_broker.as_str())
    }

    /// Everything to subscribe to, in order: for each rule its pattern on
    /// the broker or brokers it listens on, then the reload topic, at least
    /// once, on the watched broker.
    ///
    /// At startup a subscription that fails is fatal: the bridge does not
    /// run on a part of its subscriptions.
    pub fn subscribe_to_topics(&self) -> (plan: Vec<Subscription>)
        ensures
            subscription_views(plan@) == self@.subscriptions(),
    {
        let mut plan = subscriptions_of(&self.config.rules);
        let ghost of_rules = subscription_views(plan@);
        match &self.reload_topic {
            Some(topic) => match self.reload_side() {
                Some(side) => {
                    let reload = Subscription { side, topic: topic.clone(), qos: QoS::AtLeastOnce };
                    plan.push(reload);
                    proof {
                        assert(subscription_views(plan@) =~= of_rules + seq![reload@]);
                    }
                },
                None => {
                    proof {
                        assert(of_rules + Seq::<SubscriptionView>::empty() =~= of_rules);
                    }
                },
            },
            None => {
                proof {
                    assert(of_rules + Seq::<SubscriptionView>::empty() =~= of_rules);
                }
            },
        }
        plan
    }

    /// Everything a reload drops: for each rule its pattern on the broker or
    /// brokers it listens on.
    pub fn unsubscribe_from_topics(&self) -> (plan: Vec<Unsubscription>)
        ensures
            unsubscription_views(plan@) == self@.unsubscriptions(),
    {
        unsubscriptions_of(&self.config.rules)
    }

    /// Replaces the active configuration by `new_config`, whole, and says
    /// what that owes to the brokers: the previous configuration's
    /// subscriptions to drop, then the new one's to make, the reload topic
    /// among them.
    ///
    /// The configuration is replaced before the new subscriptions are made.
    /// If one of them fails, the bridge goes on with the new configuration
    /// and the subscriptions made so far.
    pub fn reload_config(&mut self, new_config: BridgeConfig) -> (plan: ReloadPlan)
        ensures
            unsubscription_views(plan.unsubscribe@) == old(self)@.unsubscriptions(),
            final(self)@ == old(self)@.with_config(new_config@),
            subscription_views(plan.subscribe@) == final(self)@.subscriptions(),
    {
        let unsubscribe = self.unsubscribe_from_topics();
        self.config = new_config;
        let subscribe = self.subscribe_to_topics();
        ReloadPlan { unsubscribe, subscribe }
    }

    /// Whether a message on `topic`, come in on `origin`, asks for a reload.
    pub fn is_reload_trigger(&self, origin: Side, topic: &str) -> (asks: bool)
        ensures
            asks == self@.is_reload_trigger(origin, topic@),
    {
        match &self.reload_topic {
            Some(reload_topic) => {
                self.reload_side() == Some(origin) && same_text(topic, reload_topic.as_str())
            },
            None => false,
        }
    }

    /// What is owed for `message`, come in on `origin`: a reload if it asks
    /// for one, else one forward for every rule that matches its topic and
    /// leads away from `origin`.
    pub fn handle_publish(&self, origin: Side, message: &Message) -> (action: Action)
        ensures
            action@ == self@.on_publish(origin, message@),
    {
        if self.is_reload_trigger(origin, message.topic.as_str()) {
            Action::Reload
        } else {
            Action::Forward(self.config.route(origin, message))
        }
    }

    /// What is owed for `message`, come in on the near broker.
    pub fn handle_near_publish(&self, message: &Message) -> (action: Action)
        ensures
            action@ == self@.on_publish(Side::Near, message@),
    {
        self.handle_publish(Side::Near, message)
    }

    /// What is owed for `message`, come in on the far broker.
    pub fn handle_far_publish(&self, message: &Message) -> (action: Action)
        ensures
            action@ == self@.on_publish(Side::Far, message@),
    {
        self.handle_publish(Side::Far, message)
    }

    /// What is owed for `event`, reported by the connection to `origin`.
    ///
    /// A delivered message is handled as [`Bridge::handle_publish`] says.
    /// Other packets, in or out, owe nothing. A connection error owes a
    /// pause of [`RECONNECT_DELAY_SECS`] on that connection alone.
    pub fn on_event(&self, origin: Side, event: &Event) -> (action: Action)
        ensures
            action@ == self@.on_event(origin, event@),
    {
        match event {
            Event::Publish(message) => self.handle_publish(origin, message),
            Event::Incoming => Action::Ignore,
            Event::Outgoing => Action::Ignore,
            Event::ConnectionError => Action::Pause { side: origin, seconds: RECONNECT_DELAY_SECS },
        }
    }
}

} // verus!
