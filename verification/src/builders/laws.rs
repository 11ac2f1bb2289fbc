//! What holds of every chain of option-setting calls.

use super::config::Options;
use vstd::prelude::*;

verus! {

/// One option-setting call: the option's name and the text of the value.
pub type Call = (Seq<char>, Seq<char>);

/// The options after a chain of calls, made in order on a builder whose
/// options were `start`: each call inserts its value under its name, as
/// `set` and every named setter do.
pub open spec fn after_calls(start: Options, calls: Seq<Call>) -> Options
    decreases calls.len(),
{
    if calls.len() == 0 {
        start
    } else {
        after_calls(start, calls.drop_last()).insert(calls.last().0, calls.last().1)
    }
}

/// The value of the last call in the chain that names `name`, if any does.
pub open spec fn last_value(calls: Seq<Call>, name: Seq<char>) -> Option<Seq<char>>
    decreases calls.len(),
{
    if calls.len() == 0 {
        None
    } else if calls.last().0 == name {
        Some(calls.last().1)
    } else {
        last_value(calls.drop_last(), name)
    }
}

/// Last write wins. After any chain of calls, an option that some call
/// named holds the value of the last such call; an option that no call
/// named is as it was before the chain. On a new builder, which starts
/// empty, the configuration therefore holds exactly the options that were
/// named, each with its last value.
pub proof fn lemma_last_write_wins(start: Options, calls: Seq<Call>, name: Seq<char>)
    ensures
        ({
            let after = after_calls(start, calls);
            match last_value(calls, name) {
                Some(value) => after.contains_key(name) && after[name] == value,
                None => after.contains_key(name) == start.contains_key(name) && (
                start.contains_key(name) ==> after[name] == start[name]),
            }
        }),
    decreases calls.len(),
{
    if calls.len() > 0 {
        lemma_last_write_wins(start, calls.drop_last(), name);
    }
}

/// On a builder that started empty, the configuration holds exactly the
/// options that the chain named, each with the value of the last call that
/// named it.
pub proof fn lemma_exactly_the_last_values(calls: Seq<Call>, name: Seq<char>)
    ensures
        after_calls(Options::empty(), calls).contains_key(name) <==> last_value(calls, name)
            is Some,
        last_value(calls, name) matches Some(value) ==> after_calls(Options::empty(), calls)[name]
            == value,
{
    lemma_last_write_wins(Options::empty(), calls, name);
}

/// The order of calls matters only among calls that name the same option:
/// two chains in which every name has the same last value leave the same
/// options behind.
pub proof fn lemma_order_among_names(start: Options, first: Seq<Call>, second: Seq<Call>)
    requires
        forall|name: Seq<char>| last_value(first, name) == last_value(second, name),
    ensures
        after_calls(start, first) == after_calls(start, second),
{
    let a = after_calls(start, first);
    let b = after_calls(start, second);
    assert forall|name: Seq<char>|
        #[trigger] a.dom().contains(name) == b.dom().contains(name) && (a.dom().contains(name)
            ==> a[name] == b[name]) by {
        lemma_last_write_wins(start, first, name);
        lemma_last_write_wins(start, second, name);
        assert(last_value(first, name) == last_value(second, name));
    }
    assert(a =~= b);
}

/// Two calls that name different options may be made in either order.
pub proof fn lemma_distinct_names_commute(
    start: Options,
    name: Seq<char>,
    value: Seq<char>,
    other: Seq<char>,
    other_value: Seq<char>,
)
    requires
        name != other,
    ensures
        start.insert(name, value).insert(other, other_value) == start.insert(
            other,
            other_value,
        ).insert(name, value),
{
    assert(start.insert(name, value).insert(other, other_value) =~= start.insert(
        other,
        other_value,
    ).insert(name, value));
}

/// A later call on the same name replaces the earlier one entirely.
pub proof fn lemma_same_name_overwrites(
    start: Options,
    name: Seq<char>,
    value: Seq<char>,
    later: Seq<char>,
)
    ensures
        start.insert(name, value).insert(name, later) == start.insert(name, later),
{
    assert(start.insert(name, value).insert(name, later) =~= start.insert(name, later));
}

} // verus!
