//! The mathematical stack that the contracts speak of: a sequence of
//! elements, bottom first and top last, so that a push is `Seq::push`.
//! The laws at the end relate the operations to each other.

use vstd::prelude::*;
use vstd::std_specs::cmp::PartialEqSpec;

verus! {

/// What is on top of the stack `s`: its last element, or nothing where `s` is
/// empty.
pub open spec fn top_of<T>(s: Seq<T>) -> Option<T> {
    if s.len() == 0 {
        None
    } else {
        Some(s.last())
    }
}

/// The stack that is left when the top of `s` is taken off: `s` without its
/// last element, or `s` itself where it is empty.
pub open spec fn popped<T>(s: Seq<T>) -> Seq<T> {
    if s.len() == 0 {
        s
    } else {
        s.drop_last()
    }
}

/// The stack that is left when the elements of `values` have been pushed onto
/// `s` one after another, the first of them first.
pub open spec fn pushed_all<T>(s: Seq<T>, values: Seq<T>) -> Seq<T>
    decreases values.len(),
{
    if values.len() == 0 {
        s
    } else {
        pushed_all(s.push(values.first()), values.drop_first())
    }
}

/// Whether the comparison `a == b` of two elements can give `answer`.
///
/// This is the contract of the element type's own `eq`. Where the type's
/// equality obeys `eq_spec`, the only answer is `a.eq_spec(&b)`.
pub open spec fn compares<T: PartialEq>(a: T, b: T, answer: bool) -> bool {
    call_ensures(<T as PartialEq>::eq, (&a, &b), answer)
}

/// Whether `found` answers a search for `value` in the stack `s`.
///
/// Positions count from 1 at the bottom, so the element at index `i` has
/// position `i + 1` and the top has position `s.len()`. The answer is the
/// position of the topmost element that compares equal to `value`, or nothing
/// where no element does.
pub open spec fn is_search_result<T: PartialEq>(s: Seq<T>, value: T, found: Option<usize>) -> bool {
    match found {
        Some(pos) => {
            &&& 1 <= pos <= s.len()
            &&& compares(s[pos - 1], value, true)
            &&& forall|i: int| pos <= i < s.len() ==> compares(#[trigger] s[i], value, false)
        },
        None => forall|i: int| 0 <= i < s.len() ==> compares(#[trigger] s[i], value, false),
    }
}

/// After any number of pushes onto an empty stack, and no pop, the stack
/// holds as many elements as were pushed: the pushed values themselves, in
/// the order of the pushes.
pub proof fn lemma_count_after_pushes<T>(values: Seq<T>)
    ensures
        pushed_all(Seq::empty(), values) == values,
        pushed_all(Seq::empty(), values).len() == values.len(),
{
    lemma_pushed_all_appends(Seq::empty(), values);
}

/// Pushing the elements of `values` onto `s` one after another appends them
/// to `s`, so the count grows by their number.
pub proof fn lemma_pushed_all_appends<T>(s: Seq<T>, values: Seq<T>)
    ensures
        pushed_all(s, values) == s + values,
        pushed_all(s, values).len() == s.len() + values.len(),
    decreases values.len(),
{
    if values.len() > 0 {
        lemma_pushed_all_appends(s.push(values.first()), values.drop_first());
        assert(s.push(values.first()) + values.drop_first() =~= s + values);
    } else {
        assert(s + values =~= s);
    }
}

/// A pop on an empty stack returns nothing and leaves the stack empty, with a
/// count of 0.
pub proof fn lemma_pop_on_empty<T>(s: Seq<T>)
    requires
        s.len() == 0,
    ensures
        top_of(s) is None,
        popped(s) == s,
        popped(s).len() == 0,
{
}

/// On a stack that is not empty, the top is the last element: a pop returns
/// what a peek shows. The pop leaves one element fewer, and pushing the
/// returned element again gives the stack back.
pub proof fn lemma_pop_returns_top<T>(s: Seq<T>)
    requires
        s.len() > 0,
    ensures
        top_of(s) == Some(s.last()),
        popped(s).len() == s.len() - 1,
        popped(s).push(s.last()) == s,
{
}

/// A value that is pushed and popped at once comes back, and the stack is
/// then what it was before the push, with the count it had.
pub proof fn lemma_push_then_pop<T>(s: Seq<T>, value: T)
    ensures
        top_of(s.push(value)) == Some(value),
        popped(s.push(value)) == s,
        popped(s.push(value)).len() == s.len(),
{
}

/// A search in an empty stack finds nothing, whatever is looked for.
pub proof fn lemma_search_in_empty<T: PartialEq>(s: Seq<T>, value: T, found: Option<usize>)
    requires
        s.len() == 0,
        is_search_result(s, value, found),
    ensures
        found is None,
{
}

/// Where the element type's equality obeys `eq_spec`, the answer of a search
/// is the position of the topmost element `e` with `e.eq_spec(&value)`, and
/// nothing exactly where there is no such element.
pub proof fn lemma_search_result_by_eq_spec<T: PartialEq>(
    s: Seq<T>,
    value: T,
    found: Option<usize>,
)
    requires
        T::obeys_eq_spec(),
        is_search_result(s, value, found),
    ensures
        found matches Some(pos) ==> 1 <= pos <= s.len() && s[pos - 1].eq_spec(&value),
        found matches Some(pos) ==> forall|i: int|
            pos <= i < s.len() ==> !(#[trigger] s[i]).eq_spec(&value),
        found is None <==> forall|i: int| 0 <= i < s.len() ==> !(#[trigger] s[i]).eq_spec(&value),
{
}

/// Where the element type's equality obeys `eq_spec`, a search has one answer
/// only: two answers for the same stack and value are the same.
pub proof fn lemma_search_result_unique<T: PartialEq>(
    s: Seq<T>,
    value: T,
    a: Option<usize>,
    b: Option<usize>,
)
    requires
        T::obeys_eq_spec(),
        is_search_result(s, value, a),
        is_search_result(s, value, b),
    ensures
        a == b,
{
}

} // verus!
