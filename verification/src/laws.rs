//! Laws of the arena: what holds across insertions and lookups.
//!
//! Each law is stated over the views of arenas and handles, and over the
//! relations in which the contracts of `append`, `fetch_or_append` and
//! `iter` are stated. An arena named `before` or `start` is the one that a
//! call found, `after` or `end` the one that it left.

use crate::arena::{compares, enumerates, fetched, Arena};
use crate::handle::{lemma_handle_identity, Handle};
use vstd::prelude::*;
use vstd::std_specs::cmp::PartialEqSpec;

verus! {

/// Two appends return two different handles, whether or not the values are
/// equal, and each handle finds the value that was appended with it.
pub proof fn lemma_append_twice<T>(
    start: Arena<T>,
    first: T,
    first_handle: Handle<T>,
    between: Arena<T>,
    second: T,
    second_handle: Handle<T>,
    end: Arena<T>,
)
    requires
        between@ == start@.push(first),
        first_handle@ == start@.len(),
        end@ == between@.push(second),
        second_handle@ == between@.len(),
    ensures
        first_handle != second_handle,
        end.contains(first_handle),
        end.contains(second_handle),
        end[first_handle] == first,
        end[second_handle] == second,
{
    lemma_handle_identity(first_handle, second_handle);
}

/// An append returns a handle that no element had before: it differs from
/// every handle that named an element of the arena up to then.
pub proof fn lemma_append_is_fresh<T>(before: Arena<T>, handle: Handle<T>, earlier: Handle<T>)
    requires
        handle@ == before@.len(),
        before.contains(earlier),
    ensures
        handle != earlier,
{
    lemma_handle_identity(handle, earlier);
}

/// Neither insertion moves or drops an element: the arena is no shorter
/// after the call, and every handle that named an element before it names
/// the same element after it.
pub proof fn lemma_positions_are_stable<T: PartialEq>(
    before: Arena<T>,
    value: T,
    returned: Handle<T>,
    after: Arena<T>,
)
    requires
        after@ == before@.push(value) || fetched(before@, value, after@, returned@),
    ensures
        before@.len() <= after@.len(),
        after.keeps(&before),
{
}

/// The reserved handle names no element of a well-formed arena: no
/// insertion returns it, and no lookup finds anything under it.
pub proof fn lemma_dummy_names_nothing<T>(arena: Arena<T>, handle: Handle<T>)
    requires
        arena.wf(),
        handle.is_dummy(),
    ensures
        !arena.contains(handle),
{
}

/// For a type whose `==` is `eq_spec`, `fetch_or_append` returns the first
/// position whose element equals the value, and stores the value exactly
/// when there is no such position.
pub proof fn lemma_fetched_first_equal<T: PartialEq>(
    before: Seq<T>,
    value: T,
    after: Seq<T>,
    position: nat,
)
    requires
        T::obeys_eq_spec(),
        fetched(before, value, after, position),
    ensures
        forall|j: int| 0 <= j < position ==> !(#[trigger] before[j]).eq_spec(&value),
        position < before.len() ==> before[position as int].eq_spec(&value) && after == before,
        position == before.len() <==> after == before.push(value),
        position == before.len() <==> forall|j: int|
            0 <= j < before.len() ==> !(#[trigger] before[j]).eq_spec(&value),
{
    assert forall|j: int| 0 <= j < position implies !(#[trigger] before[j]).eq_spec(&value) by {
        assert(compares(before[j], value, false));
    }
    if position < before.len() {
        assert(compares(before[position as int], value, true));
        assert(before.push(value).len() != before.len());
    }
}

/// Asked twice for a value that equals itself, `fetch_or_append` returns
/// the same handle both times, and the second call stores nothing. Where
/// `==` is also symmetric and transitive, the element under that handle
/// equals itself.
pub proof fn lemma_fetch_or_append_again<T: PartialEq>(
    start: Arena<T>,
    value: T,
    first_handle: Handle<T>,
    between: Arena<T>,
    second_handle: Handle<T>,
    end: Arena<T>,
)
    requires
        T::obeys_eq_spec(),
        value.eq_spec(&value),
        fetched(start@, value, between@, first_handle@),
        fetched(between@, value, end@, second_handle@),
    ensures
        first_handle == second_handle,
        end@ == between@,
        end[first_handle] == end[second_handle],
        vstd::laws_eq::obeys_eq::<T>() ==> end[first_handle].eq_spec(&end[second_handle]),
{
    lemma_fetched_first_equal(start@, value, between@, first_handle@);
    lemma_fetched_first_equal(between@, value, end@, second_handle@);
    let found: int = first_handle@ as int;
    assert(between@[found].eq_spec(&value));
    if second_handle@ < first_handle@ {
        assert(between@[second_handle@ as int] == start@[second_handle@ as int]);
    }
    lemma_handle_identity(first_handle, second_handle);
    if vstd::laws_eq::obeys_eq::<T>() {
        reveal(vstd::laws_eq::obeys_eq_spec_properties);
        let element: T = end[first_handle];
        assert(element.eq_spec(&value));
        assert(value.eq_spec(&element));
    }
}

/// A value that does not equal itself is never found. Asked for it twice,
/// `fetch_or_append` stores it twice and returns two different handles,
/// and the two stored elements do not equal each other.
///
/// This rests on `==` being symmetric and transitive: with another `==`,
/// an element could equal a value that does not equal itself.
pub proof fn lemma_fetch_or_append_self_unequal<T: PartialEq>(
    start: Arena<T>,
    value: T,
    first_handle: Handle<T>,
    between: Arena<T>,
    second_handle: Handle<T>,
    end: Arena<T>,
)
    requires
        vstd::laws_eq::obeys_eq::<T>(),
        !value.eq_spec(&value),
        fetched(start@, value, between@, first_handle@),
        fetched(between@, value, end@, second_handle@),
    ensures
        first_handle != second_handle,
        first_handle@ == start@.len(),
        second_handle@ == start@.len() + 1,
        end@ == start@.push(value).push(value),
        !end[first_handle].eq_spec(&end[second_handle]),
{
    reveal(vstd::laws_eq::obeys_eq_spec_properties);
    lemma_fetched_first_equal(start@, value, between@, first_handle@);
    lemma_fetched_first_equal(between@, value, end@, second_handle@);
    assert forall|element: T| !element.eq_spec(&value) by {
        if element.eq_spec(&value) {
            assert(value.eq_spec(&element));
        }
    }
    lemma_handle_identity(first_handle, second_handle);
}

/// Whether `history` records the appending of `values`, one by one, to an
/// empty arena: it holds the contents before the first append and after
/// each one.
pub open spec fn appended_in_turn<T>(values: Seq<T>, history: Seq<Seq<T>>) -> bool {
    &&& history.len() == values.len() + 1
    &&& history[0] == Seq::<T>::empty()
    &&& forall|k: int|
        0 <= k < values.len() ==> #[trigger] history[k + 1] == history[k].push(values[k])
}

/// Values appended one by one to an empty arena are held in the order of
/// the appends.
pub proof fn lemma_appended_in_order<T>(values: Seq<T>, history: Seq<Seq<T>>)
    requires
        appended_in_turn(values, history),
    ensures
        history.last() == values,
    decreases values.len(),
{
    if values.len() > 0 {
        let last: int = values.len() - 1;
        assert(history[last + 1] == history[last].push(values[last]));
        assert forall|k: int| 0 <= k < last implies #[trigger] history.drop_last()[k + 1]
            == history.drop_last()[k].push(values.drop_last()[k]) by {
            assert(history[k + 1] == history[k].push(values[k]));
        }
        lemma_appended_in_order(values.drop_last(), history.drop_last());
        assert(values.drop_last().push(values[last]) == values);
    }
}

/// Iterating over an arena to which `values` were appended one by one
/// yields one pair for each value, in the order of the appends, and the
/// handle of each pair finds the value of its turn.
pub proof fn lemma_iter_after_appends<T>(
    values: Seq<T>,
    history: Seq<Seq<T>>,
    arena: Arena<T>,
    pairs: Seq<(Handle<T>, &T)>,
)
    requires
        appended_in_turn(values, history),
        arena@ == history.last(),
        enumerates(pairs, arena@),
    ensures
        pairs.len() == values.len(),
        forall|k: int|
            0 <= k < values.len() ==> {
                &&& (#[trigger] pairs[k]).0 == Handle::<T>::at(k as nat)
                &&& pairs[k].0@ == k
                &&& *pairs[k].1 == values[k]
                &&& arena.contains(pairs[k].0)
                &&& arena[pairs[k].0] == values[k]
            },
{
    lemma_appended_in_order(values, history);
}

/// Whether a call of `append` or of `fetch_or_append` with `value` can lead
/// from the contents `before` to the contents `after`.
pub open spec fn inserted<T: PartialEq>(before: Seq<T>, value: T, after: Seq<T>) -> bool {
    ||| after == before.push(value)
    ||| exists|position: nat| #[trigger] fetched(before, value, after, position)
}

/// Whether `history` records the inserting of `values`, one by one and each
/// by `append` or by `fetch_or_append`, into an empty arena: it holds the
/// contents before the first call and after each one.
pub open spec fn inserted_in_turn<T: PartialEq>(values: Seq<T>, history: Seq<Seq<T>>) -> bool {
    &&& history.len() == values.len() + 1
    &&& history[0] == Seq::<T>::empty()
    &&& forall|k: int|
        0 <= k < values.len() ==> #[trigger] inserted(history[k], values[k], history[k + 1])
}

/// The number of recorded calls that stored their value: the appends and
/// the misses of `fetch_or_append`.
pub open spec fn stores<T>(values: Seq<T>, history: Seq<Seq<T>>) -> nat
    decreases values.len(),
{
    if values.len() == 0 {
        0
    } else {
        let last: int = values.len() - 1;
        let earlier: nat = stores(values.drop_last(), history.drop_last());
        if history[last + 1] == history[last].push(values[last]) {
            earlier + 1
        } else {
            earlier
        }
    }
}

/// The number of recorded calls that left the arena as it was: the hits of
/// `fetch_or_append`.
pub open spec fn hits<T>(values: Seq<T>, history: Seq<Seq<T>>) -> nat
    decreases values.len(),
{
    if values.len() == 0 {
        0
    } else {
        let last: int = values.len() - 1;
        let earlier: nat = hits(values.drop_last(), history.drop_last());
        if history[last + 1] == history[last] {
            earlier + 1
        } else {
            earlier
        }
    }
}

/// An arena that started empty holds as many elements as there were calls
/// that stored their value. Each append and each miss of `fetch_or_append`
/// adds one element, a hit adds none, every call is one or the other, and
/// nothing is ever taken away.
pub proof fn lemma_length_counts_stores<T: PartialEq>(values: Seq<T>, history: Seq<Seq<T>>)
    requires
        inserted_in_turn(values, history),
    ensures
        history.last().len() == stores(values, history),
        stores(values, history) + hits(values, history) == values.len(),
    decreases values.len(),
{
    if values.len() > 0 {
        let last: int = values.len() - 1;
        assert(inserted(history[last], values[last], history[last + 1]));
        assert(history[last].push(values[last]).len() != history[last].len());
        assert forall|k: int| 0 <= k < last implies #[trigger] inserted(
            history.drop_last()[k],
            values.drop_last()[k],
            history.drop_last()[k + 1],
        ) by {
            assert(inserted(history[k], values[k], history[k + 1]));
        }
        lemma_length_counts_stores(values.drop_last(), history.drop_last());
        assert(history.drop_last().last() == history[last]);
    }
}

} // verus!
