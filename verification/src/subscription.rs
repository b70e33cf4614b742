//! The subscriptions that a set of rules implies.
//!
//! A rule listens where its messages come from: a `NearToFar` rule on the
//! near broker, a `FarToNear` rule on the far broker, a `Wherever` rule on
//! both, near first. The subscriptions of a rule list follow the order of the
//! rules.

use crate::config::{BridgeRule, Direction, QoS, RuleView, Side, rule_views};
use vstd::prelude::*;

verus! {

/// A request to subscribe to a pattern on one broker.
#[derive(Debug, Clone)]
pub struct Subscription {
    pub side: Side,
    pub topic: String,
    pub qos: QoS,
}

/// What a [`Subscription`] says.
pub struct SubscriptionView {
    pub side: Side,
    pub topic: Seq<char>,
    pub qos: QoS,
}

impl View for Subscription {
    type V = SubscriptionView;

    open spec fn view(&self) -> SubscriptionView {
        SubscriptionView { side: self.side, topic: self.topic@, qos: self.qos }
    }
}

/// A request to drop the subscription to a pattern on one broker.
#[derive(Debug, Clone)]
pub struct Unsubscription {
    pub side: Side,
    pub topic: String,
}

/// What an [`Unsubscription`] says.
pub struct UnsubscriptionView {
    pub side: Side,
    pub topic: Seq<char>,
}

impl View for Unsubscription {
    type V = UnsubscriptionView;

    open spec fn view(&self) -> UnsubscriptionView {
        UnsubscriptionView { side: self.side, topic: self.topic@ }
    }
}

/// What each subscription of a list says.
pub open spec fn subscription_views(subscriptions: Seq<Subscription>) -> Seq<SubscriptionView> {
    subscriptions.map_values(|subscription: Subscription| subscription@)
}

/// What each unsubscription of a list says.
pub open spec fn unsubscription_views(unsubscriptions: Seq<Unsubscription>) -> Seq<
    UnsubscriptionView,
> {
    unsubscriptions.map_values(|unsubscription: Unsubscription| unsubscription@)
}

/// The brokers on which a rule of the given direction listens.
pub open spec fn listening_sides(direction: Direction) -> Seq<Side> {
    match direction {
        Direction::NearToFar => seq![Side::Near],
        Direction::FarToNear => seq![Side::Far],
        Direction::Wherever => seq![Side::Near, Side::Far],
    }
}

/// The subscriptions of one rule: its pattern, at its delivery level, on
/// each broker it listens on.
pub open spec fn rule_subscriptions(rule: RuleView) -> Seq<SubscriptionView> {
    listening_sides(rule.direction).map_values(
        |side: Side| SubscriptionView { side, topic: rule.topic, qos: rule.qos_level() },
    )
}

/// The unsubscriptions of one rule: its pattern on each broker it listens on.
pub open spec fn rule_unsubscriptions(rule: RuleView) -> Seq<UnsubscriptionView> {
    listening_sides(rule.direction).map_values(
        |side: Side| UnsubscriptionView { side, topic: rule.topic },
    )
}

/// The subscriptions of all the rules, rule by rule.
pub open spec fn rules_subscriptions(rules: Seq<RuleView>) -> Seq<SubscriptionView> {
    rules.flat_map(|rule: RuleView| rule_subscriptions(rule))
}

/// The unsubscriptions of all the rules, rule by rule.
pub open spec fn rules_unsubscriptions(rules: Seq<RuleView>) -> Seq<UnsubscriptionView> {
    rules.flat_map(|rule: RuleView| rule_unsubscriptions(rule))
}

/// Where each subscription of a list is made: its broker and pattern.
pub open spec fn subscription_targets(subscriptions: Seq<SubscriptionView>) -> Seq<
    (Side, Seq<char>),
> {
    subscriptions.map_values(|subscription: SubscriptionView| (subscription.side, subscription.topic))
}

/// Where each unsubscription of a list is made: its broker and pattern.
pub open spec fn unsubscription_targets(unsubscriptions: Seq<UnsubscriptionView>) -> Seq<
    (Side, Seq<char>),
> {
    unsubscriptions.map_values(
        |unsubscription: UnsubscriptionView| (unsubscription.side, unsubscription.topic),
    )
}

/// What the rules drop is what they subscribe to: the same brokers and
/// patterns, in the same order.
pub proof fn lemma_rules_drop_what_they_subscribe(rules: Seq<RuleView>)
    ensures
        unsubscription_targets(rules_unsubscriptions(rules)) == subscription_targets(
            rules_subscriptions(rules),
        ),
    decreases rules.len(),
{
    let subscribe = |rule: RuleView| rule_subscriptions(rule);
    let unsubscribe = |rule: RuleView| rule_unsubscriptions(rule);
    if rules.len() == 0 {
        assert(rules.map_values(subscribe) =~= Seq::<Seq<SubscriptionView>>::empty());
        assert(rules.map_values(unsubscribe) =~= Seq::<Seq<UnsubscriptionView>>::empty());
        assert(unsubscription_targets(rules_unsubscriptions(rules)) =~= subscription_targets(
            rules_subscriptions(rules),
        ));
    } else {
        let last = rules.len() - 1;
        let before = rules.drop_last();
        lemma_rules_drop_what_they_subscribe(before);
        lemma_flat_map_take_succ(rules, subscribe, last);
        lemma_flat_map_take_succ(rules, unsubscribe, last);
        assert(rules.take(last + 1) =~= rules);
        assert(rules.take(last) =~= before);
        assert(subscription_targets(rule_subscriptions(rules[last])) =~= unsubscription_targets(
            rule_unsubscriptions(rules[last]),
        ));
        assert(subscription_targets(rules_subscriptions(rules)) =~= subscription_targets(
            rules_subscriptions(before),
        ) + subscription_targets(rule_subscriptions(rules[last])));
        assert(unsubscription_targets(rules_unsubscriptions(rules)) =~= unsubscription_targets(
            rules_unsubscriptions(before),
        ) + unsubscription_targets(rule_unsubscriptions(rules[last])));
    }
}

/// Flat-mapping one more element appends what it maps to.
proof fn lemma_flat_map_take_succ<A, B>(s: Seq<A>, f: spec_fn(A) -> Seq<B>, i: int)
    requires
        0 <= i < s.len(),
    ensures
        s.take(i + 1).flat_map(f) == s.take(i).flat_map(f) + f(s[i]),
{
    assert(s.take(i + 1).map_values(f) =~= s.take(i).map_values(f).push(f(s[i])));
    s.take(i).map_values(f).lemma_flatten_push(f(s[i]));
}

/// The subscriptions that `rules` imply, rule by rule.
pub fn subscriptions_of(rules: &Vec<BridgeRule>) -> (plan: Vec<Subscription>)
    ensures
        subscription_views(plan@) == rules_subscriptions(rule_views(rules@)),
{
    let ghost views = rule_views(rules@);
    let ghost each = |rule: RuleView| rule_subscriptions(rule);
    let mut plan: Vec<Subscription> = Vec::new();
    let mut i: usize = 0;
    proof {
        assert(views.take(0).map_values(each) =~= Seq::<Seq<SubscriptionView>>::empty());
        assert(subscription_views(plan@) =~= views.take(0).flat_map(each));
    }
    while i < rules.len()
        invariant
            i <= rules.len(),
            views == rule_views(rules@),
            each == |rule: RuleView| rule_subscriptions(rule),
            subscription_views(plan@) == views.take(i as int).flat_map(each),
        decreases rules.len() - i,
    {
        let rule = &rules[i];
        let ghost before = subscription_views(plan@);
        proof {
            lemma_flat_map_take_succ(views, each, i as int);
            assert(views[i as int] == rule@);
        }
        match rule.direction {
            Direction::NearToFar => {
                plan.push(Subscription { side: Side::Near, topic: rule.topic.clone(), qos: rule.qos() });
            },
            Direction::FarToNear => {
                plan.push(Subscription { side: Side::Far, topic: rule.topic.clone(), qos: rule.qos() });
            },
            Direction::Wherever => {
                plan.push(Subscription { side: Side::Near, topic: rule.topic.clone(), qos: rule.qos() });
                plan.push(Subscription { side: Side::Far, topic: rule.topic.clone(), qos: rule.qos() });
            },
        }
        proof {
            assert(subscription_views(plan@) =~= before + rule_subscriptions(rule@));
        }
        i += 1;
    }
    proof {
        assert(views.take(i as int) =~= views);
    }
    plan
}

/// The unsubscriptions that `rules` imply, rule by rule.
pub fn unsubscriptions_of(rules: &Vec<BridgeRule>) -> (plan: Vec<Unsubscription>)
    ensures
        unsubscription_views(plan@) == rules_unsubscriptions(rule_views(rules@)),
{
    let ghost views = rule_views(rules@);
    let ghost each = |rule: RuleView| rule_unsubscriptions(rule);
    let mut plan: Vec<Unsubscription> = Vec::new();
    let mut i: usize = 0;
    proof {
        assert(views.take(0).map_values(each) =~= Seq::<Seq<UnsubscriptionView>>::empty());
        assert(unsubscription_views(plan@) =~= views.take(0).flat_map(each));
    }
    while i < rules.len()
        invariant
            i <= rules.len(),
            views == rule_views(rules@),
            each == |rule: RuleView| rule_unsubscriptions(rule),
            unsubscription_views(plan@) == views.take(i as int).flat_map(each),
        decreases rules.len() - i,
    {
        let rule = &rules[i];
        let ghost before = unsubscription_views(plan@);
        proof {
            lemma_flat_map_take_succ(views, each, i as int);
            assert(views[i as int] == rule@);
        }
        match rule.direction {
            Direction::NearToFar => {
                plan.push(Unsubscription { side: Side::Near, topic: rule.topic.clone() });
            },
            Direction::FarToNear => {
                plan.push(Unsubscription { side: Side::Far, topic: rule.topic.clone() });
            },
            Direction::Wherever => {
                plan.push(Unsubscription { side: Side::Near, topic: rule.topic.clone() });
                plan.push(Unsubscription { side: Side::Far, topic: rule.topic.clone() });
            },
        }
        proof {
            assert(unsubscription_views(plan@) =~= before + rule_unsubscriptions(rule@));
        }
        i += 1;
    }
    proof {
        assert(views.take(i as int) =~= views);
    }
    plan
}

} // verus!
