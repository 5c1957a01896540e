//! Views of containers, element by element, and the loops that copy or convert
//! a vector while keeping those views.

use vstd::prelude::*;

verus! {

/// The views of the elements of `items`, in order.
pub open spec fn seq_view<T: View>(items: Seq<T>) -> Seq<T::V> {
    Seq::new(items.len(), |i: int| items[i]@)
}

/// The view of what `item` holds, if it holds anything.
pub open spec fn option_view<T: View>(item: Option<T>) -> Option<T::V> {
    match item {
        Some(inner) => Some(inner@),
        None => None,
    }
}

/// Whether every clone of a `T` has the view of the value it was made from.
pub open spec fn clone_keeps_view<T: Clone + View>() -> bool {
    forall|item: T, copy: T| call_ensures(T::clone, (&item,), copy) ==> item@ == copy@
}

/// Pushing an element pushes its view.
pub proof fn lemma_seq_view_push<T: View>(items: Seq<T>, item: T)
    ensures
        seq_view(items.push(item)) == seq_view(items).push(item@),
{
    assert(seq_view(items.push(item)) =~= seq_view(items).push(item@));
}

/// A copy of `items`: its elements have the views of those of `items`, in order.
pub fn clone_all<T: Clone + View>(items: &Vec<T>) -> (copy: Vec<T>)
    requires
        clone_keeps_view::<T>(),
    ensures
        seq_view(copy@) == seq_view(items@),
{
    let mut copy: Vec<T> = Vec::new();
    let mut i: usize = 0;
    while i < items.len()
        invariant
            i <= items.len(),
            copy@.len() == i,
            clone_keeps_view::<T>(),
            forall|j: int| 0 <= j < i ==> copy@[j]@ == items@[j]@,
        decreases items.len() - i,
    {
        let item = items[i].clone();
        copy.push(item);
        i += 1;
    }
    copy
}

/// A copy of `item`, with the same view.
pub fn clone_option<T: Clone + View>(item: &Option<T>) -> (copy: Option<T>)
    requires
        clone_keeps_view::<T>(),
    ensures
        option_view(copy) == option_view(*item),
{
    match item {
        Some(inner) => Some(inner.clone()),
        None => None,
    }
}

/// Applies `convert` to each element in turn. Where `convert` keeps the view of
/// what it is given, the result has the views of `items`.
pub fn convert_all<T: View, U: View<V = T::V>, F: Fn(&T) -> U>(items: &Vec<T>, convert: F) -> (out:
    Vec<U>)
    requires
        forall|item: T| call_requires(convert, (&item,)),
        forall|item: T, made: U| call_ensures(convert, (&item,), made) ==> made@ == item@,
    ensures
        seq_view(out@) == seq_view(items@),
{
    let mut out: Vec<U> = Vec::new();
    let mut i: usize = 0;
    while i < items.len()
        invariant
            i <= items.len(),
            out@.len() == i,
            forall|item: T| call_requires(convert, (&item,)),
            forall|item: T, made: U| call_ensures(convert, (&item,), made) ==> made@ == item@,
            forall|j: int| 0 <= j < i ==> out@[j]@ == items@[j]@,
        decreases items.len() - i,
    {
        let made = convert(&items[i]);
        out.push(made);
        i += 1;
    }
    out
}

} // verus!
