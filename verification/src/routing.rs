//! The routing decision: which rules forward an inbound message, and where.
//!
//! Every rule is looked at on its own. A message that several rules match is
//! forwarded once per rule, also when that sends it to the same broker twice.

use crate::config::{BridgeConfig, BridgeRule, Direction, QoS, RuleView, Side};
use crate::topic::{matches_topic, topic_matches};
use vstd::prelude::*;

verus! {

/// A message as a broker delivered it.
#[derive(Debug, Clone)]
pub struct Message {
    pub topic: String,
    pub payload: Vec<u8>,
    pub qos: QoS,
    pub retain: bool,
}

/// What a [`Message`] says.
pub struct MessageView {
    pub topic: Seq<char>,
    pub payload: Seq<u8>,
    pub qos: QoS,
    pub retain: bool,
}

impl View for Message {
    type V = MessageView;

    open spec fn view(&self) -> MessageView {
        MessageView {
            topic: self.topic@,
            payload: self.payload@,
            qos: self.qos,
            retain: self.retain,
        }
    }
}

/// One publish that the bridge owes to a broker.
#[derive(Debug, Clone)]
pub struct Forward {
    /// The broker to publish to.
    pub destination: Side,
    /// The topic of the inbound message.
    pub topic: String,
    /// The payload of the inbound message.
    pub payload: Vec<u8>,
    /// The delivery level of the rule that matched.
    pub qos: QoS,
    /// The retain flag of the inbound message.
    pub retain: bool,
    /// Whether the rule that matched asks for the message to be reported.
    pub logging: bool,
}

/// What a [`Forward`] says.
pub struct ForwardView {
    pub destination: Side,
    pub topic: Seq<char>,
    pub payload: Seq<u8>,
    pub qos: QoS,
    pub retain: bool,
    pub logging: bool,
}

impl View for Forward {
    type V = ForwardView;

    open spec fn view(&self) -> ForwardView {
        ForwardView {
            destination: self.destination,
            topic: self.topic@,
            payload: self.payload@,
            qos: self.qos,
            retain: self.retain,
            logging: self.logging,
        }
    }
}

/// What each forward of a list says.
pub open spec fn forward_views(forwards: Seq<Forward>) -> Seq<ForwardView> {
    forwards.map_values(|forward: Forward| forward@)
}

/// Where a rule of the given direction sends a message that came in on
/// `origin`, if anywhere.
///
/// | direction   | from near | from far |
/// |-------------|-----------|----------|
/// | `NearToFar` | to far    | dropped  |
/// | `FarToNear` | dropped   | to near  |
/// | `Wherever`  | to far    | to near  |
pub open spec fn forward_side(direction: Direction, origin: Side) -> Option<Side> {
    match (direction, origin) {
        (Direction::NearToFar, Side::Near) => Some(Side::Far),
        (Direction::NearToFar, Side::Far) => None,
        (Direction::FarToNear, Side::Near) => None,
        (Direction::FarToNear, Side::Far) => Some(Side::Near),
        (Direction::Wherever, Side::Near) => Some(Side::Far),
        (Direction::Wherever, Side::Far) => Some(Side::Near),
    }
}

/// The forward that one rule owes for a message that came in on `origin`:
/// none unless the rule's pattern matches the topic and its direction leads
/// away from `origin`.
pub open spec fn rule_forward(rule: RuleView, origin: Side, message: MessageView) -> Option<
    ForwardView,
> {
    if topic_matches(rule.topic, message.topic) {
        match forward_side(rule.direction, origin) {
            Some(destination) => Some(
                ForwardView {
                    destination,
                    topic: message.topic,
                    payload: message.payload,
                    qos: rule.qos_level(),
                    retain: message.retain,
                    logging: rule.logging,
                },
            ),
            None => None,
        }
    } else {
        None
    }
}

/// The forwards that the rules owe for a message that came in on `origin`,
/// one per rule that forwards it, in the order of the rules.
pub open spec fn forwards(rules: Seq<RuleView>, origin: Side, message: MessageView) -> Seq<
    ForwardView,
> {
    rules.filter_map(|rule: RuleView| rule_forward(rule, origin, message))
}

impl Direction {
    /// Where a rule of this direction sends a message that came in on
    /// `origin`, if anywhere.
    pub fn destination(self, origin: Side) -> (to: Option<Side>)
        ensures
            to == forward_side(self, origin),
    {
        match self {
            Direction::NearToFar => match origin {
                Side::Near => Some(Side::Far),
                Side::Far => None,
            },
            Direction::FarToNear => match origin {
                Side::Near => None,
                Side::Far => Some(Side::Near),
            },
            Direction::Wherever => Some(origin.opposite()),
        }
    }
}

impl BridgeRule {
    /// The forward that this rule owes for `message`, come in on `origin`.
    pub fn forward(&self, origin: Side, message: &Message) -> (owed: Option<Forward>)
        ensures
            match owed {
                Some(forward) => rule_forward(self@, origin, message@) == Some(forward@),
                None => rule_forward(self@, origin, message@).is_none(),
            },
    {
        if !matches_topic(self.topic.as_str(), message.topic.as_str()) {
            return None;
        }
        match self.direction.destination(origin) {
            Some(destination) => Some(
                Forward {
                    destination,
                    topic: message.topic.clone(),
                    payload: message.payload.clone(),
                    qos: self.qos(),
                    retain: message.retain,
                    logging: self.logging,
                },
            ),
            None => None,
        }
    }
}

impl BridgeConfig {
    /// The forwards owed for `message`, come in on `origin`: one for every
    /// rule whose pattern matches the topic and whose direction leads away
    /// from `origin`, in the order of the rules.
    pub fn route(&self, origin: Side, message: &Message) -> (owed: Vec<Forward>)
        ensures
            forward_views(owed@) == forwards(self@.rules, origin, message@),
    {
        let ghost rules = self@.rules;
        let ghost each = |rule: RuleView| rule_forward(rule, origin, message@);
        let mut owed: Vec<Forward> = Vec::new();
        let mut i: usize = 0;
        proof {
            assert(rules.take(0).filter_map(each) =~= Seq::<ForwardView>::empty());
            assert(forward_views(owed@) =~= Seq::<ForwardView>::empty());
        }
        while i < self.rules.len()
            invariant
                i <= self.rules.len(),
                rules == self@.rules,
                each == |rule: RuleView| rule_forward(rule, origin, message@),
                forward_views(owed@) == rules.take(i as int).filter_map(each),
            decreases self.rules.len() - i,
        {
            let ghost before = forward_views(owed@);
            proof {
                rules.lemma_filter_map_take_succ(each, i as int);
                assert(rules[i as int] == self.rules[i as int]@);
            }
            match self.rules[i].forward(origin, message) {
                Some(forward) => {
                    owed.push(forward);
                    proof {
                        assert(forward_views(owed@) =~= before + seq![forward@]);
                    }
                },
                None => {
                    proof {
                        assert(before + Seq::<ForwardView>::empty() =~= before);
                    }
                },
            }
            i += 1;
        }
        proof {
            assert(rules.take(i as int) =~= rules);
        }
        owed
    }
}

/// Whatever the rules, a message is never forwarded to the broker it came
/// from, and no rule forwards it twice.
pub proof fn lemma_forwards_lead_away(rules: Seq<RuleView>, origin: Side, message: MessageView)
    ensures
        forwards(rules, origin, message).len() <= rules.len(),
        forall|k: int|
            0 <= k < forwards(rules, origin, message).len() ==> (#[trigger] forwards(
                rules,
                origin,
                message,
            )[k]).destination == origin.opposite(),
    decreases rules.len(),
{
    if rules.len() > 0 {
        lemma_forwards_lead_away(rules.drop_last(), origin, message);
    }
}

/// A rule that forwards `Wherever`, and whose pattern matches, forwards a
/// message exactly once: to the broker opposite the one it came in on.
pub proof fn lemma_wherever_forwards_once_to_opposite(
    rule: RuleView,
    origin: Side,
    message: MessageView,
)
    requires
        rule.direction == Direction::Wherever,
        topic_matches(rule.topic, message.topic),
    ensures
        forwards(seq![rule], origin, message).len() == 1,
        forwards(seq![rule], origin, message)[0].destination == origin.opposite(),
{
    let each = |rule: RuleView| rule_forward(rule, origin, message);
    Seq::lemma_filter_map_singleton(rule, each);
}

/// Among rules that all forward `Wherever`, a message is forwarded once for
/// every rule whose pattern matches, each time to the broker opposite the
/// one it came in on.
pub proof fn lemma_wherever_rules_forward_to_opposite(
    rules: Seq<RuleView>,
    origin: Side,
    message: MessageView,
)
    requires
        forall|i: int| 0 <= i < rules.len() ==> (#[trigger] rules[i]).direction == Direction::Wherever,
    ensures
        forwards(rules, origin, message).len() == rules.filter(
            |rule: RuleView| topic_matches(rule.topic, message.topic),
        ).len(),
        forall|k: int|
            0 <= k < forwards(rules, origin, message).len() ==> (#[trigger] forwards(
                rules,
                origin,
                message,
            )[k]).destination == origin.opposite(),
    decreases rules.len(),
{
    let matching = |rule: RuleView| topic_matches(rule.topic, message.topic);
    lemma_forwards_lead_away(rules, origin, message);
    if rules.len() > 0 {
        lemma_wherever_rules_forward_to_opposite(rules.drop_last(), origin, message);
        rules.drop_last().lemma_filter_push(rules.last(), matching);
        assert(rules.drop_last().push(rules.last()) =~= rules);
    } else {
        rules.lemma_filter_len(matching);
    }
}

/// Rules that all forward `NearToFar` forward nothing that comes in on the
/// far broker.
pub proof fn lemma_near_to_far_drops_from_far(rules: Seq<RuleView>, message: MessageView)
    requires
        forall|i: int| 0 <= i < rules.len() ==> (#[trigger] rules[i]).direction == Direction::NearToFar,
    ensures
        forwards(rules, Side::Far, message) == Seq::<ForwardView>::empty(),
    decreases rules.len(),
{
    if rules.len() > 0 {
        lemma_near_to_far_drops_from_far(rules.drop_last(), message);
    }
}

/// Rules that all forward `FarToNear` forward nothing that comes in on the
/// near broker.
pub proof fn lemma_far_to_near_drops_from_near(rules: Seq<RuleView>, message: MessageView)
    requires
        forall|i: int| 0 <= i < rules.len() ==> (#[trigger] rules[i]).direction == Direction::FarToNear,
    ensures
        forwards(rules, Side::Near, message) == Seq::<ForwardView>::empty(),
    decreases rules.len(),
{
    if rules.len() > 0 {
        lemma_far_to_near_drops_from_near(rules.drop_last(), message);
    }
}

} // verus!
