//! What lists and optional values hold, and copies that hold the same.

use vstd::prelude::*;
use crate::json::Json;

verus! {

/// What the items of a list hold.
pub open spec fn views<T: View>(items: Seq<T>) -> Seq<T::V> {
    Seq::new(items.len(), |i: int| items[i]@)
}

/// What an optional value holds.
pub open spec fn opt<T: View>(value: Option<T>) -> Option<T::V> {
    match value {
        Some(inner) => Some(inner@),
        None => None,
    }
}

/// Pushing an item pushes what it holds.
pub broadcast proof fn views_push<T: View>(items: Seq<T>, item: T)
    ensures
        #[trigger] views(items.push(item)) == views(items).push(item@),
{
    assert(views(items.push(item)) =~= views(items).push(item@));
}

/// The empty list holds nothing.
pub broadcast proof fn views_empty<T: View>()
    ensures
        #[trigger] views(Seq::<T>::empty()) == Seq::<T::V>::empty(),
{
    assert(views(Seq::<T>::empty()) =~= Seq::<T::V>::empty());
}

/// Two lists, one after the other, hold what each of them holds.
pub broadcast proof fn views_add<T: View>(a: Seq<T>, b: Seq<T>)
    ensures
        #[trigger] views(a + b) == views(a) + views(b),
{
    assert(views(a + b) =~= views(a) + views(b));
}

pub broadcast group group_views {
    views_push,
    views_empty,
    views_add,
}

/// Types whose values can be copied so that the copy holds the same.
pub trait Duplicate: View + Sized {
    /// Copies the value.
    fn duplicate(&self) -> (result: Self)
        ensures
            result@ == self@,
    ;
}

impl Duplicate for String {
    fn duplicate(&self) -> (result: Self) {
        self.clone()
    }
}

impl Duplicate for Json {
    fn duplicate(&self) -> (result: Self) {
        self.copy()
    }
}

/// Copies every item of a list.
pub fn duplicate_all<T: Duplicate>(items: &Vec<T>) -> (result: Vec<T>)
    ensures
        views(result@) == views(items@),
{
    let mut result: Vec<T> = Vec::new();
    let mut i: usize = 0;
    while i < items.len()
        invariant
            i <= items@.len(),
            views(result@) == views(items@).take(i as int),
        decreases items@.len() - i,
    {
        let item = items[i].duplicate();
        let ghost before = result@;
        result.push(item);
        proof {
            views_push(before, item);
        }
        assert(views(result@) =~= views(items@).take(i + 1));
        i = i + 1;
    }
    assert(views(items@).take(i as int) =~= views(items@));
    result
}

/// Copies an optional value.
pub fn duplicate_opt<T: Duplicate>(value: &Option<T>) -> (result: Option<T>)
    ensures
        opt(result) == opt(*value),
{
    match value {
        Some(inner) => Some(inner.duplicate()),
        None => None,
    }
}

} // verus!
