//! Lists of named values, where the first value of a name counts.

use vstd::prelude::*;

verus! {

/// The position of the first pair named `name`, or `pairs.len()` where
/// there is none.
pub open spec fn position_named<T>(pairs: Seq<(Seq<char>, T)>, name: Seq<char>) -> int
    decreases pairs.len(),
{
    if pairs.len() == 0 || pairs[0].0 == name {
        0
    } else {
        1 + position_named(pairs.skip(1), name)
    }
}

/// The value of the first pair named `name`, if there is one.
pub open spec fn value_named<T>(pairs: Seq<(Seq<char>, T)>, name: Seq<char>) -> Option<T> {
    if position_named(pairs, name) < pairs.len() {
        Some(pairs[position_named(pairs, name)].1)
    } else {
        None
    }
}

/// Whether no name occurs twice in `pairs`.
pub open spec fn names_distinct<T>(pairs: Seq<(Seq<char>, T)>) -> bool {
    forall|i: int, j: int| 0 <= i < j < pairs.len() ==> (#[trigger] pairs[i]).0 != (#[trigger] pairs[j]).0
}

/// The pairs after `value` is put under `name`: in the place of the pair
/// of that name where there is one, and at the end otherwise.
pub open spec fn with_entry<T>(pairs: Seq<(Seq<char>, T)>, name: Seq<char>, value: T) -> Seq<
    (Seq<char>, T),
> {
    if position_named(pairs, name) < pairs.len() {
        pairs.update(position_named(pairs, name), (name, value))
    } else {
        pairs.push((name, value))
    }
}

/// What `position_named` means: no pair before it has the name, and the
/// pair at it has, unless it is the end.
pub proof fn lemma_position_named<T>(pairs: Seq<(Seq<char>, T)>, name: Seq<char>)
    ensures
        0 <= position_named(pairs, name) <= pairs.len(),
        forall|j: int| 0 <= j < position_named(pairs, name) ==> (#[trigger] pairs[j]).0 != name,
        position_named(pairs, name) < pairs.len() ==> pairs[position_named(pairs, name)].0 == name,
    decreases pairs.len(),
{
    if !(pairs.len() == 0 || pairs[0].0 == name) {
        let rest = pairs.skip(1);
        lemma_position_named(rest, name);
        assert forall|j: int| 0 <= j < position_named(pairs, name) implies (#[trigger] pairs[j]).0
            != name by {
            if j > 0 {
                assert(rest[j - 1] == pairs[j]);
            }
        }
    }
}

/// A position before which no pair has the name, and which is the end or
/// holds a pair of that name, is the position of the name.
pub proof fn lemma_position_named_found<T>(pairs: Seq<(Seq<char>, T)>, name: Seq<char>, i: int)
    requires
        0 <= i <= pairs.len(),
        forall|j: int| 0 <= j < i ==> (#[trigger] pairs[j]).0 != name,
        i == pairs.len() || pairs[i].0 == name,
    ensures
        position_named(pairs, name) == i,
    decreases i,
{
    if i > 0 {
        let rest = pairs.skip(1);
        assert forall|j: int| 0 <= j < i - 1 implies (#[trigger] rest[j]).0 != name by {
            assert(rest[j] == pairs[j + 1]);
        }
        lemma_position_named_found(rest, name, i - 1);
    }
}

/// Putting a value under a name keeps the names distinct, and the value is
/// then the one of that name.
pub proof fn lemma_with_entry<T>(pairs: Seq<(Seq<char>, T)>, name: Seq<char>, value: T)
    ensures
        names_distinct(pairs) ==> names_distinct(with_entry(pairs, name, value)),
        value_named(with_entry(pairs, name, value), name) == Some(value),
{
    lemma_position_named(pairs, name);
    let after = with_entry(pairs, name, value);
    let at = position_named(pairs, name);
    assert forall|j: int| 0 <= j < at implies (#[trigger] after[j]).0 != name by {
        assert(after[j] == pairs[j]);
    }
    lemma_position_named_found(after, name, at);
    if names_distinct(pairs) {
        assert forall|i: int, j: int| 0 <= i < j < after.len() implies (#[trigger] after[i]).0 != (
        #[trigger] after[j]).0 by {
            if at < pairs.len() {
                if i != at && j != at {
                    assert(after[i] == pairs[i]);
                    assert(after[j] == pairs[j]);
                } else if i == at {
                    assert(after[j] == pairs[j]);
                    assert(pairs[at].0 != pairs[j].0);
                } else {
                    assert(after[i] == pairs[i]);
                    assert(pairs[i].0 != pairs[at].0);
                }
            } else {
                if j < pairs.len() {
                    assert(after[i] == pairs[i]);
                    assert(after[j] == pairs[j]);
                } else {
                    assert(after[i] == pairs[i]);
                }
            }
        }
    }
}

} // verus!
