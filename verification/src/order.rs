//! The order of texts: character by character, by code point.

use vstd::prelude::*;
use vstd::relations::sorted_by;
use vstd::relations::total_ordering;
use crate::text::chars_of;
use crate::text::texts;
use crate::text::texts_empty;
use crate::text::texts_push;

verus! {

broadcast use {texts_push, texts_empty};

/// Whether a text stands before another one.
pub open spec fn precedes(a: Seq<char>, b: Seq<char>) -> bool
    decreases a.len(),
{
    if b.len() == 0 {
        false
    } else if a.len() == 0 {
        true
    } else if a[0] != b[0] {
        a[0] < b[0]
    } else {
        precedes(a.skip(1), b.skip(1))
    }
}

/// Whether a text stands before another one or is the same.
pub open spec fn not_after() -> spec_fn(Seq<char>, Seq<char>) -> bool {
    |a: Seq<char>, b: Seq<char>| !precedes(b, a)
}

/// Texts in order. Equal texts stay side by side.
pub open spec fn in_order(list: Seq<Seq<char>>) -> Seq<Seq<char>> {
    list.sort_by(not_after())
}

proof fn precedes_irreflexive(a: Seq<char>)
    ensures
        !precedes(a, a),
    decreases a.len(),
{
    if a.len() > 0 {
        precedes_irreflexive(a.skip(1));
    }
}

/// The order of texts is transitive.
pub proof fn precedes_transitive(a: Seq<char>, b: Seq<char>, c: Seq<char>)
    ensures
        precedes(a, b) && precedes(b, c) ==> precedes(a, c),
        !precedes(b, a) && !precedes(c, b) ==> !precedes(c, a),
    decreases a.len() + b.len() + c.len(),
{
    if a.len() > 0 && b.len() > 0 && c.len() > 0 {
        precedes_transitive(a.skip(1), b.skip(1), c.skip(1));
    }
}

/// Of two texts one stands before the other, or they are the same.
pub proof fn precedes_total(a: Seq<char>, b: Seq<char>)
    ensures
        a == b || precedes(a, b) || precedes(b, a),
        !(precedes(a, b) && precedes(b, a)),
    decreases a.len(),
{
    if a.len() > 0 && b.len() > 0 {
        precedes_total(a.skip(1), b.skip(1));
        if a[0] == b[0] && a.skip(1) == b.skip(1) {
            assert(a =~= seq![a[0]] + a.skip(1));
            assert(b =~= seq![b[0]] + b.skip(1));
        }
    } else if a.len() == 0 && b.len() == 0 {
        assert(a =~= b);
    }
}

/// The order of texts is total.
pub proof fn texts_are_ordered()
    ensures
        total_ordering(not_after()),
{
    let leq = not_after();
    assert forall|x: Seq<char>| #[trigger] leq(x, x) by {
        precedes_irreflexive(x);
    }
    assert forall|x: Seq<char>, y: Seq<char>| #[trigger] leq(x, y) && #[trigger] leq(y, x) implies x
        == y by {
        precedes_total(x, y);
    }
    assert forall|x: Seq<char>, y: Seq<char>, z: Seq<char>| #[trigger] leq(x, y) && #[trigger] leq(
        y,
        z,
    ) implies leq(x, z) by {
        precedes_transitive(x, y, z);
    }
    assert forall|x: Seq<char>, y: Seq<char>| #[trigger] leq(x, y) || #[trigger] leq(y, x) by {
        precedes_total(x, y);
    }
}

/// Tells whether `a` stands before `b`.
pub fn text_precedes(a: &str, b: &str) -> (result: bool)
    ensures
        result == precedes(a@, b@),
{
    let x = chars_of(a);
    let y = chars_of(b);
    let mut i: usize = 0;
    assert(x@.skip(0) =~= x@);
    assert(y@.skip(0) =~= y@);
    while i < x.len() && i < y.len()
        invariant
            i <= x@.len(),
            i <= y@.len(),
            x@ == a@,
            y@ == b@,
            precedes(x@, y@) == precedes(x@.skip(i as int), y@.skip(i as int)),
        decreases x@.len() - i,
    {
        let ghost p = x@.skip(i as int);
        let ghost q = y@.skip(i as int);
        assert(p[0] == x@[i as int] && q[0] == y@[i as int]);
        if x[i] != y[i] {
            return x[i] < y[i];
        }
        assert(p.skip(1) =~= x@.skip(i + 1));
        assert(q.skip(1) =~= y@.skip(i + 1));
        i = i + 1;
    }
    x.len() == i && y.len() > i
}

/// Puts texts in order.
pub fn sort_texts(list: Vec<String>) -> (result: Vec<String>)
    ensures
        texts(result@) == in_order(texts(list@)),
{
    broadcast use {vstd::seq_lib::group_to_multiset_ensures};

    let ghost leq = not_after();
    let ghost all = texts(list@);
    let mut result: Vec<String> = Vec::new();
    let mut i: usize = 0;
    assert(all.take(0) =~= Seq::<Seq<char>>::empty());
    proof {
        texts_are_ordered();
    }
    while i < list.len()
        invariant
            i <= list@.len(),
            all == texts(list@),
            leq == not_after(),
            total_ordering(leq),
            sorted_by(texts(result@), leq),
            texts(result@).to_multiset() == all.take(i as int).to_multiset(),
        decreases list@.len() - i,
    {
        broadcast use {vstd::seq_lib::group_to_multiset_ensures};

        let item = list[i].clone();
        let ghost before = result@;
        let mut p: usize = 0;
        while p < result.len() && !text_precedes(&item, &result[p])
            invariant
                p <= result@.len(),
                result@ == before,
                leq == not_after(),
                forall|k: int| 0 <= k < p ==> leq(#[trigger] texts(before)[k], item@),
            decreases result@.len() - p,
        {
            assert(texts(before)[p as int] == before[p as int]@);
            p = p + 1;
        }
        let ghost held = texts(before);
        result.insert(p, item);
        assert(texts(result@) =~= held.insert(p as int, item@));
        assert(sorted_by(texts(result@), leq)) by {
            let after = texts(result@);
            assert forall|j: int, k: int| 0 <= j < k < after.len() implies #[trigger] leq(
                after[j],
                after[k],
            ) by {
                if p < held.len() {
                    assert(precedes(item@, held[p as int]));
                    precedes_total(item@, held[p as int]);
                }
                if j < p && k < p {
                    assert(leq(held[j], held[k]));
                } else if j < p && k == p {
                    assert(leq(held[j], item@));
                } else if j < p {
                    assert(leq(held[j], held[k - 1]));
                } else if j == p {
                    assert(leq(item@, held[p as int]));
                    if k - 1 > p {
                        assert(leq(held[p as int], held[k - 1]));
                    }
                    precedes_transitive(item@, held[p as int], held[k - 1]);
                } else {
                    assert(leq(held[j - 1], held[k - 1]));
                }
            }
        }
        assert(all.take(i + 1) =~= all.take(i as int).push(item@));
        proof {
            vstd::seq_lib::to_multiset_insert(held, p as int, item@);
            vstd::seq_lib::to_multiset_build(all.take(i as int), item@);
        }
        i = i + 1;
    }
    assert(all.take(i as int) =~= all);
    proof {
        all.lemma_sort_by_ensures(leq);
        vstd::seq_lib::lemma_sorted_unique(texts(result@), all.sort_by(leq), leq);
    }
    result
}

/// Putting texts in order keeps each of them.
pub proof fn in_order_keeps_all(list: Seq<Seq<char>>, item: Seq<char>)
    ensures
        in_order(list).contains(item) <==> list.contains(item),
        in_order(list).len() == list.len(),
        sorted_by(in_order(list), not_after()),
{
    broadcast use {vstd::seq_lib::group_to_multiset_ensures};

    texts_are_ordered();
    list.lemma_sort_by_ensures(not_after());
    assert(list.to_multiset().len() == in_order(list).to_multiset().len());
    assert(list.to_multiset().count(item) == in_order(list).to_multiset().count(item));
}

} // verus!
