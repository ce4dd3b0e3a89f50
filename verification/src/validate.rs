//! The validation capability and the error aggregator.

use vstd::prelude::*;
use crate::nonempty_list::ne_seq;

verus! {

/// What a validation outcome `r` must say about an object whose errors, in
/// production order, are `errors`: success exactly when there are no errors,
/// and otherwise a nonempty list holding exactly those errors, in order.
pub open spec fn outcome_matches<E>(errors: Seq<E>, r: Result<(), nonempty::NonEmpty<E>>) -> bool {
    &&& r is Ok <==> errors.len() == 0
    &&& r matches Err(es) ==> ne_seq(es) == errors
}

/// Collect errors into a `Result`.
///
/// An empty input is the normal success case, not an error. A nonempty input
/// yields `Err` wrapping a nonempty list of exactly the input's elements with
/// no reordering, deduplication, or filtering, so the wrapped list's length
/// always equals the input's length.
pub fn collect_errors<E>(errors: Vec<E>) -> (r: Result<(), nonempty::NonEmpty<E>>)
    ensures
        outcome_matches(errors@, r),
{
    let ghost input = errors@;
    match nonempty::NonEmpty::from_vec(errors) {
        Some(es) => {
            proof {
                assert(ne_seq(es) =~= input);
            }
            Err(es)
        },
        None => Ok(()),
    }
}

/// An object that can validate itself.
///
/// Such an object is either valid, a state which carries no additional
/// information, or is invalid, a state described by a nonempty list of
/// validation errors.
pub trait Validate {
    /// The type of a validation error.
    type ValidationError;

    /// The errors the object would report, in the order it produces them.
    /// Empty exactly when the object is valid.
    spec fn invalid_seq(&self) -> Seq<Self::ValidationError>;

    /// Iterates over validation errors: zero errors when the object is fully
    /// valid, otherwise one error per violated rule, in a stable order.
    fn iter_invalid(&self) -> (errors: Vec<Self::ValidationError>)
        ensures
            errors@ == self.invalid_seq(),
    ;

    /// Validates the object: `Ok` exactly when the object reports no errors,
    /// otherwise a nonempty list of its errors in production order.
    fn validate(&self) -> (r: Result<(), nonempty::NonEmpty<Self::ValidationError>>)
        ensures
            outcome_matches(self.invalid_seq(), r),
    {
        collect_errors(self.iter_invalid())
    }
}

/// The concatenation of a sequence of error sequences, in order.
pub open spec fn concat_all<E>(parts: Seq<Seq<E>>) -> Seq<E>
    decreases parts.len(),
{
    if parts.len() == 0 {
        Seq::empty()
    } else {
        parts.first() + concat_all(parts.drop_first())
    }
}

/// Appending one more part to a concatenation appends its elements at the end.
pub proof fn lemma_concat_all_push<E>(parts: Seq<Seq<E>>, part: Seq<E>)
    ensures
        concat_all(parts.push(part)) == concat_all(parts) + part,
    decreases parts.len(),
{
    if parts.len() == 0 {
        assert(parts.push(part).drop_first() =~= Seq::<Seq<E>>::empty());
        assert(parts.push(part).first() + concat_all(parts.push(part).drop_first()) =~= part);
        assert(concat_all(parts) + part =~= part);
    } else {
        assert(parts.push(part).drop_first() =~= parts.drop_first().push(part));
        lemma_concat_all_push(parts.drop_first(), part);
        assert(parts.first() + (concat_all(parts.drop_first()) + part) =~= (parts.first()
            + concat_all(parts.drop_first())) + part);
    }
}

/// Composition law: a container whose errors are its own local errors followed
/// by the errors of each of its parts, in order, is valid exactly when it has
/// no local errors and every part is valid.
pub proof fn lemma_composed_validity<E>(local: Seq<E>, children: Seq<Seq<E>>)
    ensures
        (local + concat_all(children)).len() == 0 <==> local.len() == 0 && (forall|i: int|
            0 <= i < children.len() ==> children[i].len() == 0),
{
    lemma_concat_all_empty_iff(children);
}

/// A concatenation is empty exactly when every part is empty.
pub proof fn lemma_concat_all_empty_iff<E>(children: Seq<Seq<E>>)
    ensures
        concat_all(children).len() == 0 <==> (forall|i: int|
            0 <= i < children.len() ==> children[i].len() == 0),
    decreases children.len(),
{
    if children.len() > 0 {
        lemma_concat_all_empty_iff(children.drop_first());
        assert(forall|i: int|
            0 <= i < children.drop_first().len() ==> children.drop_first()[i] == children[i + 1]);
        if concat_all(children).len() == 0 {
            assert(forall|i: int| 0 <= i < children.len() ==> children[i].len() == 0) by {
                assert(forall|i: int|
                    1 <= i < children.len() ==> children[i] == children.drop_first()[i - 1]);
            }
        }
    }
}

/// Validation is idempotent: two outcomes for the same unmodified object agree
/// on the variant and, when invalid, on the error lists' contents and order.
pub proof fn lemma_validate_idempotent<T: Validate>(
    o: &T,
    r1: Result<(), nonempty::NonEmpty<T::ValidationError>>,
    r2: Result<(), nonempty::NonEmpty<T::ValidationError>>,
)
    requires
        outcome_matches(o.invalid_seq(), r1),
        outcome_matches(o.invalid_seq(), r2),
    ensures
        r1 is Ok <==> r2 is Ok,
        r1 matches Err(e1) ==> r2 matches Err(e2) ==> ne_seq(e1) == ne_seq(e2),
{
}

} // verus!
