//! Interface to the `nonempty` crate's `NonEmpty` vector.
//!
//! `NonEmpty<T>` is an ordered sequence guaranteed, by construction, to hold
//! at least one element: a `head` followed by a possibly-empty `tail`. Both
//! fields are public in the `nonempty` crate, so contracts can speak of them
//! directly through [`ne_seq`], the sequence a `NonEmpty` value represents.

use vstd::prelude::*;

verus! {

#[verifier::external_type_specification]
#[verifier::reject_recursive_types(T)]
pub struct ExNonEmpty<T>(nonempty::NonEmpty<T>);

/// The sequence of elements of a `NonEmpty` list: its head followed by its
/// tail, in order. Never empty.
pub open spec fn ne_seq<T>(ne: nonempty::NonEmpty<T>) -> Seq<T> {
    seq![ne.head] + ne.tail@
}

/// The sequence of a `NonEmpty` list always has at least one element.
pub proof fn lemma_ne_seq_nonempty<T>(ne: nonempty::NonEmpty<T>)
    ensures
        ne_seq(ne).len() >= 1,
{
}

/// Relies on `nonempty::NonEmpty::from_vec`: an empty vector yields `None`;
/// otherwise the first element becomes the head and the rest the tail.
pub assume_specification<T>[ nonempty::NonEmpty::<T>::from_vec ](
    vec: Vec<T>,
) -> (r: Option<nonempty::NonEmpty<T>>)
    ensures
        r is None <==> vec@.len() == 0,
        r matches Some(ne) ==> ne.head == vec@[0] && ne.tail@ == vec@.skip(1),
;

} // verus!
