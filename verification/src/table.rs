//! Tables from texts to values, kept in the order of their keys.

use vstd::prelude::*;
use crate::order::precedes;
use crate::order::precedes_total;
use crate::order::precedes_transitive;
use crate::order::text_precedes;
use crate::text::same;
use crate::text::texts;
use crate::text::texts_empty;
use crate::text::texts_push;
use crate::views::Duplicate;

verus! {

broadcast use {texts_push, texts_empty};

/// What the rows of a table hold.
pub open spec fn pairs_of<V: View>(rows: Seq<(String, V)>) -> Seq<(Seq<char>, V::V)> {
    Seq::new(rows.len(), |i: int| (rows[i].0@, rows[i].1@))
}

/// The value of the first row with a key.
pub open spec fn lookup<T>(pairs: Seq<(Seq<char>, T)>, key: Seq<char>) -> Option<T>
    decreases pairs.len(),
{
    if pairs.len() == 0 {
        None
    } else if pairs[0].0 == key {
        Some(pairs[0].1)
    } else {
        lookup(pairs.skip(1), key)
    }
}

/// A table with a row for a key: the row replaces the one with its key, or goes to its place
/// in the order.
pub open spec fn put<T>(pairs: Seq<(Seq<char>, T)>, key: Seq<char>, value: T) -> Seq<
    (Seq<char>, T),
>
    decreases pairs.len(),
{
    if pairs.len() == 0 {
        seq![(key, value)]
    } else if pairs[0].0 == key {
        seq![(key, value)] + pairs.skip(1)
    } else if precedes(key, pairs[0].0) {
        seq![(key, value)] + pairs
    } else {
        seq![pairs[0]] + put(pairs.skip(1), key, value)
    }
}

/// A table without the rows of a key.
pub open spec fn without<T>(pairs: Seq<(Seq<char>, T)>, key: Seq<char>) -> Seq<(Seq<char>, T)>
    decreases pairs.len(),
{
    if pairs.len() == 0 {
        Seq::empty()
    } else if pairs.last().0 == key {
        without(pairs.drop_last(), key)
    } else {
        without(pairs.drop_last(), key).push(pairs.last())
    }
}

/// The keys of a table, in order.
pub open spec fn keys_of<T>(pairs: Seq<(Seq<char>, T)>) -> Seq<Seq<char>> {
    Seq::new(pairs.len(), |i: int| pairs[i].0)
}

/// Whether the keys of a table stand in order, each once.
pub open spec fn ordered<T>(pairs: Seq<(Seq<char>, T)>) -> bool {
    forall|i: int, j: int|
        0 <= i < j < pairs.len() ==> precedes((#[trigger] pairs[i]).0, (#[trigger] pairs[j]).0)
}

/// Pushing a row pushes what it holds.
pub broadcast proof fn pairs_push<V: View>(rows: Seq<(String, V)>, row: (String, V))
    ensures
        #[trigger] pairs_of(rows.push(row)) == pairs_of(rows).push((row.0@, row.1@)),
{
    assert(pairs_of(rows.push(row)) =~= pairs_of(rows).push((row.0@, row.1@)));
}

/// Putting a row keeps the keys in order.
pub proof fn put_keeps_order<T>(pairs: Seq<(Seq<char>, T)>, key: Seq<char>, value: T)
    requires
        ordered(pairs),
    ensures
        ordered(put(pairs, key, value)),
        forall|i: int|
            0 <= i < put(pairs, key, value).len() ==> (#[trigger] put(pairs, key, value)[i]).0
                == key || exists|j: int| 0 <= j < pairs.len() && pairs[j].0 == put(pairs, key, value)[i].0,
    decreases pairs.len(),
{
    let after = put(pairs, key, value);
    if pairs.len() == 0 {
    } else if pairs[0].0 == key {
        assert forall|i: int| 0 <= i < after.len() implies (#[trigger] after[i]).0 == pairs[i].0 by {}
    } else if precedes(key, pairs[0].0) {
        assert forall|i: int, j: int| 0 <= i < j < after.len() implies precedes(
            (#[trigger] after[i]).0,
            (#[trigger] after[j]).0,
        ) by {
            assert(after[j] == pairs[j - 1]);
            if i == 0 {
                precedes_transitive(key, pairs[0].0, pairs[j - 1].0);
            } else {
                assert(after[i] == pairs[i - 1]);
            }
        }
        assert forall|i: int| 0 <= i < after.len() implies (#[trigger] after[i]).0 == key || exists|
            j: int,
        |
            0 <= j < pairs.len() && pairs[j].0 == after[i].0 by {
            if i > 0 {
                assert(after[i] == pairs[i - 1]);
            }
        }
    } else {
        let rest = pairs.skip(1);
        assert forall|i: int, j: int| 0 <= i < j < rest.len() implies precedes(
            (#[trigger] rest[i]).0,
            (#[trigger] rest[j]).0,
        ) by {
            assert(rest[i] == pairs[i + 1] && rest[j] == pairs[j + 1]);
        }
        put_keeps_order(rest, key, value);
        let below = put(rest, key, value);
        precedes_total(key, pairs[0].0);
        assert forall|i: int| 0 <= i < below.len() implies precedes(
            pairs[0].0,
            (#[trigger] below[i]).0,
        ) && (below[i].0 == key || exists|j: int| 0 <= j < pairs.len() && pairs[j].0 == below[i].0) by {
            if below[i].0 != key {
                let j = choose|j: int| 0 <= j < rest.len() && rest[j].0 == below[i].0;
                assert(rest[j] == pairs[j + 1]);
            }
        }
        assert forall|i: int, j: int| 0 <= i < j < after.len() implies precedes(
            (#[trigger] after[i]).0,
            (#[trigger] after[j]).0,
        ) by {
            assert(after[j] == below[j - 1]);
            if i > 0 {
                assert(after[i] == below[i - 1]);
            }
        }
        assert forall|i: int| 0 <= i < after.len() implies (#[trigger] after[i]).0 == key || exists|
            j: int,
        |
            0 <= j < pairs.len() && pairs[j].0 == after[i].0 by {
            if i > 0 {
                assert(after[i] == below[i - 1]);
            }
        }
    }
}

/// What was put in a table is found there; every other key gives what it gave.
pub proof fn put_is_found<T>(
    pairs: Seq<(Seq<char>, T)>,
    key: Seq<char>,
    value: T,
    other: Seq<char>,
)
    ensures
        lookup(put(pairs, key, value), key) == Some(value),
        other != key ==> lookup(put(pairs, key, value), other) == lookup(pairs, other),
    decreases pairs.len(),
{
    let after = put(pairs, key, value);
    if pairs.len() == 0 {
        assert(after.skip(1).len() == 0);
        assert(lookup(after.skip(1), other) is None);
    } else if pairs[0].0 == key {
        assert(after.skip(1) =~= pairs.skip(1));
    } else if precedes(key, pairs[0].0) {
        assert(after.skip(1) =~= pairs);
    } else {
        put_is_found(pairs.skip(1), key, value, other);
        assert(after[0] == pairs[0]);
        assert(after.skip(1) =~= put(pairs.skip(1), key, value));
    }
}

/// Nothing is found for a key that was removed.
pub proof fn removed_is_gone<T>(pairs: Seq<(Seq<char>, T)>, key: Seq<char>)
    ensures
        lookup(without(pairs, key), key) is None,
        forall|i: int| 0 <= i < without(pairs, key).len() ==> #[trigger] without(pairs, key)[i].0 != key,
        without(pairs, key).len() <= pairs.len(),
    decreases pairs.len(),
{
    if pairs.len() > 0 {
        removed_is_gone(pairs.drop_last(), key);
    }
    absent_is_not_found(without(pairs, key), key);
}

/// A key that no row has is not found.
pub proof fn absent_is_not_found<T>(pairs: Seq<(Seq<char>, T)>, key: Seq<char>)
    requires
        forall|i: int| 0 <= i < pairs.len() ==> (#[trigger] pairs[i]).0 != key,
    ensures
        lookup(pairs, key) is None,
    decreases pairs.len(),
{
    if pairs.len() > 0 {
        let rest = pairs.skip(1);
        assert forall|i: int| 0 <= i < rest.len() implies (#[trigger] rest[i]).0 != key by {
            assert(rest[i] == pairs[i + 1]);
        }
        absent_is_not_found(rest, key);
        assert(pairs[0].0 != key);
    }
}

/// The place of a key.
proof fn put_at<T>(pairs: Seq<(Seq<char>, T)>, key: Seq<char>, value: T, i: int)
    requires
        0 <= i <= pairs.len(),
        forall|k: int|
            0 <= k < i ==> (#[trigger] pairs[k]).0 != key && !precedes(key, pairs[k].0),
        i < pairs.len() ==> pairs[i].0 == key || precedes(key, pairs[i].0),
    ensures
        put(pairs, key, value) == if i < pairs.len() && pairs[i].0 == key {
            pairs.update(i, (key, value))
        } else {
            pairs.insert(i, (key, value))
        },
    decreases i,
{
    let target = if i < pairs.len() && pairs[i].0 == key {
        pairs.update(i, (key, value))
    } else {
        pairs.insert(i, (key, value))
    };
    if i == 0 {
        assert(put(pairs, key, value) =~= target);
    } else {
        let rest = pairs.skip(1);
        assert(pairs[0].0 != key);
        assert forall|k: int| 0 <= k < i - 1 implies (#[trigger] rest[k]).0 != key && !precedes(
            key,
            rest[k].0,
        ) by {
            assert(rest[k] == pairs[k + 1]);
        }
        if i < pairs.len() {
            assert(rest[i - 1] == pairs[i]);
        }
        put_at(rest, key, value, i - 1);
        assert(put(pairs, key, value) =~= target);
    }
}

/// The value of a key.
pub fn table_get<'a, V: View>(rows: &'a Vec<(String, V)>, key: &str) -> (result: Option<&'a V>)
    ensures
        match result {
            Some(value) => lookup(pairs_of(rows@), key@) == Some(value@),
            None => lookup(pairs_of(rows@), key@) is None,
        },
{
    let ghost all = pairs_of(rows@);
    let mut i: usize = 0;
    assert(all.skip(0) =~= all);
    while i < rows.len()
        invariant
            i <= rows@.len(),
            all == pairs_of(rows@),
            lookup(all, key@) == lookup(all.skip(i as int), key@),
        decreases rows@.len() - i,
    {
        assert(all.skip(i as int)[0] == (rows@[i as int].0@, rows@[i as int].1@));
        if same(&rows[i].0, key) {
            return Some(&rows[i].1);
        }
        assert(all.skip(i as int).skip(1) =~= all.skip(i + 1));
        i = i + 1;
    }
    None
}

/// Sets the value of a key.
pub fn table_put<V: View>(rows: &mut Vec<(String, V)>, key: String, value: V)
    ensures
        pairs_of(final(rows)@) == put(pairs_of(old(rows)@), key@, value@),
{
    let ghost all = pairs_of(rows@);
    let mut i: usize = 0;
    while i < rows.len() && rows[i].0 != key && !text_precedes(&key, &rows[i].0)
        invariant
            i <= rows@.len(),
            rows@ == old(rows)@,
            all == pairs_of(rows@),
            forall|k: int|
                0 <= k < i ==> (#[trigger] all[k]).0 != key@ && !precedes(key@, all[k].0),
        decreases rows@.len() - i,
    {
        assert(all[i as int] == (rows@[i as int].0@, rows@[i as int].1@));
        i = i + 1;
    }
    proof {
        if i < rows@.len() {
            assert(all[i as int] == (rows@[i as int].0@, rows@[i as int].1@));
        }
        put_at(all, key@, value@, i as int);
    }
    if i < rows.len() && rows[i].0 == key {
        rows.set(i, (key, value));
        assert(pairs_of(rows@) =~= all.update(i as int, (key@, value@)));
    } else {
        rows.insert(i, (key, value));
        assert(pairs_of(rows@) =~= all.insert(i as int, (key@, value@)));
    }
}

/// Removes the rows of a key.
pub fn table_remove<V: Duplicate>(rows: &mut Vec<(String, V)>, key: &str)
    ensures
        pairs_of(final(rows)@) == without(pairs_of(old(rows)@), key@),
{
    let ghost all = pairs_of(rows@);
    let mut kept: Vec<(String, V)> = Vec::new();
    let mut i: usize = 0;
    while i < rows.len()
        invariant
            i <= rows@.len(),
            all == pairs_of(rows@),
            pairs_of(kept@) == without(all.take(i as int), key@),
        decreases rows@.len() - i,
    {
        let ghost part = all.take(i + 1);
        assert(part.drop_last() =~= all.take(i as int));
        assert(part.last() == (rows@[i as int].0@, rows@[i as int].1@));
        if !same(&rows[i].0, key) {
            let ghost before = kept@;
            let row = (rows[i].0.clone(), rows[i].1.duplicate());
            kept.push(row);
            proof {
                pairs_push(before, row);
            }
        }
        i = i + 1;
    }
    assert(all.take(i as int) =~= all);
    *rows = kept;
}

/// The keys of a table, in order.
pub fn table_keys<V: View>(rows: &Vec<(String, V)>) -> (result: Vec<String>)
    ensures
        texts(result@) == keys_of(pairs_of(rows@)),
{
    let ghost wanted = keys_of(pairs_of(rows@));
    let mut result: Vec<String> = Vec::new();
    let mut i: usize = 0;
    while i < rows.len()
        invariant
            i <= rows@.len(),
            wanted == keys_of(pairs_of(rows@)),
            texts(result@) == wanted.take(i as int),
        decreases rows@.len() - i,
    {
        result.push(rows[i].0.clone());
        assert(wanted.take(i + 1) =~= wanted.take(i as int).push(wanted[i as int]));
        i = i + 1;
    }
    assert(wanted.take(i as int) =~= wanted);
    result
}

/// Copies a table.
pub fn duplicate_pairs<V: Duplicate>(rows: &Vec<(String, V)>) -> (result: Vec<(String, V)>)
    ensures
        pairs_of(result@) == pairs_of(rows@),
{
    let ghost all = pairs_of(rows@);
    let mut result: Vec<(String, V)> = Vec::new();
    let mut i: usize = 0;
    while i < rows.len()
        invariant
            i <= rows@.len(),
            all == pairs_of(rows@),
            pairs_of(result@) == all.take(i as int),
        decreases rows@.len() - i,
    {
        let ghost before = result@;
        let row = (rows[i].0.clone(), rows[i].1.duplicate());
        result.push(row);
        proof {
            pairs_push(before, row);
        }
        assert(all.take(i + 1) =~= all.take(i as int).push(all[i as int]));
        i = i + 1;
    }
    assert(all.take(i as int) =~= all);
    result
}

impl Duplicate for u64 {
    fn duplicate(&self) -> (result: Self) {
        *self
    }
}

} // verus!
