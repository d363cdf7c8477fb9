//! Taking a vector apart from the front without shifting what is left.

use vstd::prelude::*;

verus! {

/// Whether `turned` holds the items of `items` in the opposite order.
pub open spec fn is_reverse_of<T>(turned: Seq<T>, items: Seq<T>) -> bool {
    &&& turned.len() == items.len()
    &&& forall|i: int| 0 <= i < turned.len() ==> turned[i] == items[items.len() - 1 - i]
}

/// Turns a vector round, so that popping it yields its items first to last.
pub fn reversed<T>(items: Vec<T>) -> (turned: Vec<T>)
    ensures
        is_reverse_of(turned@, items@),
{
    let ghost all = items@;
    let mut rest = items;
    let mut turned: Vec<T> = Vec::new();
    while rest.len() > 0
        invariant
            turned@.len() + rest@.len() == all.len(),
            forall|j: int| 0 <= j < rest@.len() ==> rest@[j] == all[j],
            forall|i: int| 0 <= i < turned@.len() ==> turned@[i] == all[all.len() - 1 - i],
        decreases rest@.len(),
    {
        let item = rest.pop().unwrap();
        turned.push(item);
    }
    turned
}

} // verus!
