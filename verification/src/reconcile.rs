//! What the brokers hold after the bridge's requests, and what a reload
//! does to it.
//!
//! A broker keeps at most one subscription per pattern for a client: a
//! second request for the same pattern replaces the delivery level of the
//! first. So what is active is a map from broker and pattern to delivery
//! level, and requests are applied to it one after the other.

use crate::bridge::BridgeView;
use crate::config::{ConfigView, QoS, Side};
use crate::subscription::{
    lemma_rules_drop_what_they_subscribe, rules_subscriptions, subscription_targets,
    unsubscription_targets, SubscriptionView, UnsubscriptionView,
};
use vstd::prelude::*;

verus! {

/// The subscriptions that the brokers hold: for a broker and a pattern, the
/// delivery level.
pub type Active = Map<(Side, Seq<char>), QoS>;

/// What is active once each of `requests` was granted, in order.
pub open spec fn subscribed(active: Active, requests: Seq<SubscriptionView>) -> Active
    decreases requests.len(),
{
    if requests.len() == 0 {
        active
    } else {
        let last = requests.last();
        subscribed(active, requests.drop_last()).insert((last.side, last.topic), last.qos)
    }
}

/// What is active once each of `requests` was carried out, in order.
pub open spec fn unsubscribed(active: Active, requests: Seq<UnsubscriptionView>) -> Active
    decreases requests.len(),
{
    if requests.len() == 0 {
        active
    } else {
        let last = requests.last();
        unsubscribed(active, requests.drop_last()).remove((last.side, last.topic))
    }
}

/// What is active when a bridge has started: its subscriptions, granted
/// where nothing was active.
pub open spec fn started(bridge: BridgeView) -> Active {
    subscribed(Map::empty(), bridge.subscriptions())
}

/// What is active after a reload to `config`, if every request of the
/// reload was granted: the previous subscriptions dropped, then the new ones
/// made.
pub open spec fn reloaded(active: Active, bridge: BridgeView, config: ConfigView) -> Active {
    subscribed(
        unsubscribed(active, bridge.unsubscriptions()),
        bridge.with_config(config).subscriptions(),
    )
}

/// Granting requests overrides what was active under the same broker and
/// pattern and leaves the rest alone.
pub proof fn lemma_subscribed_overrides(active: Active, requests: Seq<SubscriptionView>)
    ensures
        subscribed(active, requests) == active.union_prefer_right(
            subscribed(Map::empty(), requests),
        ),
    decreases requests.len(),
{
    if requests.len() == 0 {
        assert(active.union_prefer_right(Map::empty()) =~= active);
    } else {
        let last = requests.last();
        let key = (last.side, last.topic);
        lemma_subscribed_overrides(active, requests.drop_last());
        let from_nothing = subscribed(Map::empty(), requests.drop_last());
        assert(active.union_prefer_right(from_nothing).insert(key, last.qos)
            =~= active.union_prefer_right(from_nothing.insert(key, last.qos)));
    }
}

/// A list with one more element holds what the shorter list held, and that
/// element.
proof fn lemma_contains_last<A>(s: Seq<A>, needle: A)
    requires
        s.len() > 0,
    ensures
        s.contains(needle) <==> (s.drop_last().contains(needle) || s.last() == needle),
{
    if s.drop_last().contains(needle) {
        let i = choose|i: int| 0 <= i < s.drop_last().len() && s.drop_last()[i] == needle;
        assert(s[i] == needle);
    }
    if s.last() == needle {
        assert(s[s.len() - 1] == needle);
    }
    if s.contains(needle) {
        let i = choose|i: int| 0 <= i < s.len() && s[i] == needle;
        if i < s.len() - 1 {
            assert(s.drop_last()[i] == needle);
        }
    }
}

/// After requests were granted, a broker and pattern is active exactly if
/// it was active before or one of the requests named it.
pub proof fn lemma_subscribed_domain(active: Active, requests: Seq<SubscriptionView>)
    ensures
        forall|target: (Side, Seq<char>)|
            #[trigger] subscribed(active, requests).dom().contains(target) <==> (
            active.dom().contains(target) || subscription_targets(requests).contains(target)),
    decreases requests.len(),
{
    let targets = subscription_targets(requests);
    if requests.len() > 0 {
        let before = requests.drop_last();
        let earlier = subscribed(active, before);
        let named = (requests.last().side, requests.last().topic);
        lemma_subscribed_domain(active, before);
        assert(subscription_targets(before) =~= targets.drop_last());
        assert(targets.last() == named);
        assert forall|target: (Side, Seq<char>)|
            #[trigger] subscribed(active, requests).dom().contains(target) <==> (
            active.dom().contains(target) || targets.contains(target)) by {
            lemma_contains_last(targets, target);
            assert(subscribed(active, requests).dom().contains(target) <==> (target == named
                || earlier.dom().contains(target)));
        }
    }
}

/// After subscriptions were dropped, a broker and pattern is active exactly
/// if it was active before and none of the requests named it.
pub proof fn lemma_unsubscribed_domain(active: Active, requests: Seq<UnsubscriptionView>)
    ensures
        forall|target: (Side, Seq<char>)|
            #[trigger] unsubscribed(active, requests).dom().contains(target) <==> (
            active.dom().contains(target) && !unsubscription_targets(requests).contains(target)),
    decreases requests.len(),
{
    let targets = unsubscription_targets(requests);
    if requests.len() > 0 {
        let before = requests.drop_last();
        let earlier = unsubscribed(active, before);
        let named = (requests.last().side, requests.last().topic);
        lemma_unsubscribed_domain(active, before);
        assert(unsubscription_targets(before) =~= targets.drop_last());
        assert(targets.last() == named);
        assert forall|target: (Side, Seq<char>)|
            #[trigger] unsubscribed(active, requests).dom().contains(target) <==> (
            active.dom().contains(target) && !targets.contains(target)) by {
            lemma_contains_last(targets, target);
            assert(unsubscribed(active, requests).dom().contains(target) <==> (target != named
                && earlier.dom().contains(target)));
        }
    }
}

/// Dropping subscriptions adds none.
pub proof fn lemma_unsubscribed_within(active: Active, requests: Seq<UnsubscriptionView>)
    ensures
        unsubscribed(active, requests).dom().subset_of(active.dom()),
    decreases requests.len(),
{
    if requests.len() > 0 {
        lemma_unsubscribed_within(active, requests.drop_last());
    }
}

/// Making a bridge's subscriptions where only some of them are still active,
/// and nothing else is, ends with exactly what is active after a start.
pub proof fn lemma_resubscribe_restores(bridge: BridgeView, left: Active)
    requires
        left.dom().subset_of(started(bridge).dom()),
    ensures
        subscribed(left, bridge.subscriptions()) == started(bridge),
{
    lemma_subscribed_overrides(left, bridge.subscriptions());
    assert(left.union_prefer_right(started(bridge)) =~= started(bridge));
}

/// The reload topic is active after a start, at least once, on the watched
/// broker.
pub proof fn lemma_started_watches_reload_topic(bridge: BridgeView)
    requires
        bridge.reload_topic.is_some(),
        bridge.reload_side().is_some(),
    ensures
        started(bridge).contains_pair(
            (bridge.reload_side().unwrap(), bridge.reload_topic.unwrap()),
            QoS::AtLeastOnce,
        ),
{
    let requests = bridge.subscriptions();
    assert(requests.last() == bridge.reload_subscription().last());
}

/// A reload to the configuration that is already active leaves the brokers
/// with the subscriptions they had after the start: none is lost, none is
/// left over, and the reload topic is still watched.
pub proof fn lemma_reload_same_config_keeps_subscriptions(bridge: BridgeView)
    ensures
        reloaded(started(bridge), bridge, bridge.config) == started(bridge),
        bridge.reload_topic.is_some() && bridge.reload_side().is_some() ==> reloaded(
            started(bridge),
            bridge,
            bridge.config,
        ).contains_pair(
            (bridge.reload_side().unwrap(), bridge.reload_topic.unwrap()),
            QoS::AtLeastOnce,
        ),
{
    let left = unsubscribed(started(bridge), bridge.unsubscriptions());
    lemma_unsubscribed_within(started(bridge), bridge.unsubscriptions());
    assert(bridge.with_config(bridge.config) == bridge);
    lemma_resubscribe_restores(bridge, left);
    if bridge.reload_topic.is_some() && bridge.reload_side().is_some() {
        lemma_started_watches_reload_topic(bridge);
    }
}

/// The same holds when some of the previous subscriptions could not be
/// dropped: whichever of them are still active, a reload to the active
/// configuration ends with what was active after the start.
pub proof fn lemma_reload_same_config_despite_failures(bridge: BridgeView, left: Active)
    requires
        left.dom().subset_of(started(bridge).dom()),
    ensures
        subscribed(left, bridge.with_config(bridge.config).subscriptions()) == started(bridge),
{
    assert(bridge.with_config(bridge.config) == bridge);
    lemma_resubscribe_restores(bridge, left);
}

/// A reload to any configuration, every request of it granted, leaves the
/// brokers with exactly what a start with that configuration would: no
/// subscription of the previous rules is left over, and the reload topic is
/// still watched.
pub proof fn lemma_reload_reaches_fresh_start(bridge: BridgeView, config: ConfigView)
    ensures
        reloaded(started(bridge), bridge, config) == started(bridge.with_config(config)),
{
    let next = bridge.with_config(config);
    let left = unsubscribed(started(bridge), bridge.unsubscriptions());
    lemma_subscribed_domain(Map::empty(), bridge.subscriptions());
    lemma_subscribed_domain(Map::empty(), next.subscriptions());
    lemma_unsubscribed_domain(started(bridge), bridge.unsubscriptions());
    lemma_rules_drop_what_they_subscribe(bridge.config.rules);
    let of_rules = subscription_targets(rules_subscriptions(bridge.config.rules));
    let of_reload = subscription_targets(bridge.reload_subscription());
    assert(subscription_targets(bridge.subscriptions()) =~= of_rules + of_reload);
    assert(subscription_targets(next.subscriptions()) =~= subscription_targets(
        rules_subscriptions(config.rules),
    ) + of_reload);
    assert forall|target: (Side, Seq<char>)| left.dom().contains(target) implies started(
        next,
    ).dom().contains(target) by {
        let all = subscription_targets(bridge.subscriptions());
        assert(all.contains(target));
        let i = choose|i: int| 0 <= i < all.len() && all[i] == target;
        if i < of_rules.len() {
            assert(of_rules[i] == target);
            assert(of_rules.contains(target));
        } else {
            let j = i - of_rules.len();
            assert(of_reload[j] == target);
            let fresh = subscription_targets(next.subscriptions());
            assert(fresh[fresh.len() - of_reload.len() + j] == target);
            assert(fresh.contains(target));
        }
    }
    lemma_resubscribe_restores(next, left);
}

} // verus!
