//! Matching of wildcarded subscription patterns against concrete topics.
//!
//! A topic is a string of levels separated by `/`. A pattern is a topic in
//! which a level may be the single-level wildcard `+`, and whose last level
//! may be the multi-level wildcard `#`. A `#` anywhere else is an ordinary
//! level that only matches the same text.

use vstd::prelude::*;

verus! {

/// The character that separates the levels of a topic.
pub const LEVEL_SEPARATOR: char = '/';

/// The character that, alone in a level, matches any one level.
pub const SINGLE_LEVEL_WILDCARD: char = '+';

/// The character that, alone in the last level, matches any remaining levels.
pub const MULTI_LEVEL_WILDCARD: char = '#';

/// The levels of `s`: the pieces between its separators, in order.
///
/// There is always at least one level; the empty string has one empty level,
/// and every separator starts a new one.
pub open spec fn split_levels(s: Seq<char>) -> Seq<Seq<char>>
    decreases s.len(),
{
    if s.len() == 0 {
        seq![Seq::<char>::empty()]
    } else {
        let before = split_levels(s.drop_last());
        if s.last() == LEVEL_SEPARATOR {
            before.push(Seq::<char>::empty())
        } else {
            before.drop_last().push(before.last().push(s.last()))
        }
    }
}

/// The levels joined again, with one separator between neighbours.
pub open spec fn join_levels(levels: Seq<Seq<char>>) -> Seq<char>
    decreases levels.len(),
{
    if levels.len() == 0 {
        Seq::<char>::empty()
    } else if levels.len() == 1 {
        levels[0]
    } else {
        join_levels(levels.drop_last()).push(LEVEL_SEPARATOR) + levels.last()
    }
}

/// Whether `level` is exactly the single-level wildcard.
pub open spec fn is_single_level_wildcard(level: Seq<char>) -> bool {
    level =~= seq![SINGLE_LEVEL_WILDCARD]
}

/// Whether `level` is exactly the multi-level wildcard.
pub open spec fn is_multi_level_wildcard(level: Seq<char>) -> bool {
    level =~= seq![MULTI_LEVEL_WILDCARD]
}

/// Whether one pattern level accepts one topic level.
pub open spec fn level_matches(pattern_level: Seq<char>, topic_level: Seq<char>) -> bool {
    is_single_level_wildcard(pattern_level) || pattern_level =~= topic_level
}

/// Whether each pattern level accepts the topic level at the same position.
pub open spec fn levels_match(pattern_levels: Seq<Seq<char>>, topic_levels: Seq<Seq<char>>) -> bool
    recommends
        pattern_levels.len() <= topic_levels.len(),
{
    forall|i: int|
        #![trigger pattern_levels[i]]
        0 <= i < pattern_levels.len() ==> level_matches(pattern_levels[i], topic_levels[i])
}

/// Whether the subscription pattern `pattern` matches the topic `topic`.
///
/// With a trailing `#`, the levels before it must accept the topic's first
/// levels and the topic may go on for any number of further levels, none
/// included. Without one, pattern and topic must have the same number of
/// levels, each accepted in turn.
pub open spec fn topic_matches(pattern: Seq<char>, topic: Seq<char>) -> bool {
    let pattern_levels = split_levels(pattern);
    let topic_levels = split_levels(topic);
    if is_multi_level_wildcard(pattern_levels.last()) {
        &&& pattern_levels.len() - 1 <= topic_levels.len()
        &&& levels_match(pattern_levels.drop_last(), topic_levels)
    } else {
        &&& pattern_levels.len() == topic_levels.len()
        &&& levels_match(pattern_levels, topic_levels)
    }
}

/// The views of a vector of levels.
spec fn level_views(levels: Seq<Vec<char>>) -> Seq<Seq<char>> {
    levels.map_values(|level: Vec<char>| level@)
}

/// Splitting always yields at least one level.
pub proof fn lemma_split_levels_nonempty(s: Seq<char>)
    ensures
        split_levels(s).len() >= 1,
    decreases s.len(),
{
    if s.len() > 0 {
        lemma_split_levels_nonempty(s.drop_last());
    }
}

/// No level holds a separator.
pub proof fn lemma_levels_hold_no_separator(s: Seq<char>)
    ensures
        forall|i: int, k: int|
            0 <= i < split_levels(s).len() && 0 <= k < split_levels(s)[i].len() ==> (
            #[trigger] split_levels(s)[i][k]) != LEVEL_SEPARATOR,
    decreases s.len(),
{
    if s.len() > 0 {
        lemma_levels_hold_no_separator(s.drop_last());
        lemma_split_levels_nonempty(s.drop_last());
    }
}

/// Joining the levels of a string gives the string back: splitting loses
/// nothing, so two strings with the same levels are the same string.
pub proof fn lemma_join_of_split(s: Seq<char>)
    ensures
        join_levels(split_levels(s)) == s,
    decreases s.len(),
{
    if s.len() > 0 {
        let shorter = s.drop_last();
        let before = split_levels(shorter);
        lemma_join_of_split(shorter);
        lemma_split_levels_nonempty(shorter);
        if s.last() == LEVEL_SEPARATOR {
            let levels = before.push(Seq::<char>::empty());
            assert(levels.drop_last() =~= before);
            assert(join_levels(levels) =~= shorter.push(LEVEL_SEPARATOR));
            assert(shorter.push(s.last()) =~= s);
        } else {
            let grown = before.last().push(s.last());
            let levels = before.drop_last().push(grown);
            assert(levels.drop_last() =~= before.drop_last());
            if before.len() == 1 {
                assert(join_levels(levels) =~= shorter.push(s.last()));
            } else {
                assert(join_levels(before) == join_levels(before.drop_last()).push(
                    LEVEL_SEPARATOR,
                ) + before.last());
                assert(join_levels(levels) =~= join_levels(before).push(s.last()));
            }
            assert(shorter.push(s.last()) =~= s);
        }
    }
}

/// The multi-level wildcard alone matches every topic, the empty one too.
pub proof fn lemma_wildcard_alone_matches_all(topic: Seq<char>)
    ensures
        topic_matches(seq![MULTI_LEVEL_WILDCARD], topic),
{
    let pattern = seq![MULTI_LEVEL_WILDCARD];
    assert(pattern.drop_last() =~= Seq::<char>::empty());
    assert(split_levels(pattern.drop_last()) =~= seq![Seq::<char>::empty()]);
    assert(split_levels(pattern) =~= seq![seq![MULTI_LEVEL_WILDCARD]]);
    lemma_split_levels_nonempty(topic);
}

/// A pattern that ends in `/#` matches the topic before the `/#` itself:
/// the multi-level wildcard stands for no level as well as for many.
pub proof fn lemma_trailing_wildcard_matches_parent(parent: Seq<char>)
    ensures
        topic_matches(parent.push(LEVEL_SEPARATOR).push(MULTI_LEVEL_WILDCARD), parent),
{
    let opened = parent.push(LEVEL_SEPARATOR);
    let pattern = opened.push(MULTI_LEVEL_WILDCARD);
    let levels = split_levels(parent);
    lemma_split_levels_nonempty(parent);
    assert(opened.drop_last() =~= parent);
    assert(pattern.drop_last() =~= opened);
    assert(split_levels(opened) == levels.push(Seq::<char>::empty()));
    assert(split_levels(pattern) =~= levels.push(seq![MULTI_LEVEL_WILDCARD]));
    assert(split_levels(pattern).drop_last() =~= levels);
}

/// A pattern without wildcards matches one topic only: itself.
pub proof fn lemma_literal_pattern_matches_itself_only(pattern: Seq<char>, topic: Seq<char>)
    requires
        !is_multi_level_wildcard(split_levels(pattern).last()),
        forall|i: int|
            0 <= i < split_levels(pattern).len() ==> !is_single_level_wildcard(
                #[trigger] split_levels(pattern)[i],
            ),
    ensures
        topic_matches(pattern, topic) <==> pattern == topic,
{
    if topic_matches(pattern, topic) {
        assert(split_levels(pattern) =~= split_levels(topic));
        lemma_join_of_split(pattern);
        lemma_join_of_split(topic);
    }
}

/// Splits `s` at every separator.
fn split_topic(s: &str) -> (levels: Vec<Vec<char>>)
    ensures
        level_views(levels@) == split_levels(s@),
{
    let mut done: Vec<Vec<char>> = Vec::new();
    let mut current: Vec<char> = Vec::new();
    proof {
        assert(level_views(done@).push(current@) =~= split_levels(Seq::<char>::empty()));
    }
    for c in it: s.chars()
        invariant
            level_views(done@).push(current@) == split_levels(it.seq().take(it.index() as int)),
    {
        proof {
            let seen = it.seq().take(it.index() as int);
            let next = it.seq().take(it.index() + 1);
            assert(next.drop_last() =~= seen);
            assert(next.last() == c);
        }
        if c == LEVEL_SEPARATOR {
            let ghost before = level_views(done@).push(current@);
            done.push(current);
            current = Vec::new();
            proof {
                assert(level_views(done@).push(current@) =~= before.push(Seq::<char>::empty()));
            }
        } else {
            let ghost before = level_views(done@).push(current@);
            current.push(c);
            proof {
                assert(level_views(done@).push(current@) =~= before.drop_last().push(
                    before.last().push(c),
                ));
            }
        }
    }
    let ghost before = level_views(done@).push(current@);
    done.push(current);
    proof {
        assert(s@.take(s@.len() as int) =~= s@);
        assert(level_views(done@) =~= before);
    }
    done
}

/// Whether two levels hold the same characters.
fn same_level(a: &Vec<char>, b: &Vec<char>) -> (same: bool)
    ensures
        same == (a@ =~= b@),
{
    if a.len() != b.len() {
        return false;
    }
    let mut i: usize = 0;
    while i < a.len()
        invariant
            a.len() == b.len(),
            i <= a.len(),
            forall|k: int| 0 <= k < i ==> a@[k] == b@[k],
        decreases a.len() - i,
    {
        if a[i] != b[i] {
            return false;
        }
        i += 1;
    }
    true
}

/// Whether `level` is the one character `wildcard`.
fn is_wildcard(level: &Vec<char>, wildcard: char) -> (is: bool)
    ensures
        is == (level@ =~= seq![wildcard]),
{
    level.len() == 1 && level[0] == wildcard
}

/// Whether the first `count` pattern levels accept the topic levels at their
/// positions.
fn first_levels_match(
    pattern_levels: &Vec<Vec<char>>,
    topic_levels: &Vec<Vec<char>>,
    count: usize,
) -> (all: bool)
    requires
        count <= pattern_levels.len(),
        count <= topic_levels.len(),
    ensures
        all == levels_match(
            level_views(pattern_levels@).take(count as int),
            level_views(topic_levels@),
        ),
{
    let ghost patterns = level_views(pattern_levels@).take(count as int);
    let ghost topics = level_views(topic_levels@);
    let mut i: usize = 0;
    while i < count
        invariant
            i <= count,
            count <= pattern_levels.len(),
            count <= topic_levels.len(),
            patterns == level_views(pattern_levels@).take(count as int),
            topics == level_views(topic_levels@),
            forall|k: int| 0 <= k < i ==> level_matches(#[trigger] patterns[k], topics[k]),
        decreases count - i,
    {
        let pattern_level = &pattern_levels[i];
        let topic_level = &topic_levels[i];
        assert(patterns[i as int] == pattern_level@);
        assert(topics[i as int] == topic_level@);
        if !is_wildcard(pattern_level, SINGLE_LEVEL_WILDCARD) && !same_level(
            pattern_level,
            topic_level,
        ) {
            return false;
        }
        i += 1;
    }
    true
}

/// Whether a message published on `topic` matches the subscription pattern
/// `subscription`.
pub fn matches_topic(subscription: &str, topic: &str) -> (matched: bool)
    ensures
        matched == topic_matches(subscription@, topic@),
{
    let pattern_levels = split_topic(subscription);
    let topic_levels = split_topic(topic);
    proof {
        lemma_split_levels_nonempty(subscription@);
    }
    let last = pattern_levels.len() - 1;
    assert(level_views(pattern_levels@).last() == pattern_levels@[last as int]@);
    if is_wildcard(&pattern_levels[last], MULTI_LEVEL_WILDCARD) {
        assert(level_views(pattern_levels@).take(last as int) =~= level_views(
            pattern_levels@,
        ).drop_last());
        last <= topic_levels.len() && first_levels_match(&pattern_levels, &topic_levels, last)
    } else {
        assert(level_views(pattern_levels@).take(last + 1) =~= level_views(pattern_levels@));
        pattern_levels.len() == topic_levels.len() && first_levels_match(
            &pattern_levels,
            &topic_levels,
            pattern_levels.len(),
        )
    }
}

} // verus!
