//! The arena: an append-only store whose elements are found again by handle.

use crate::handle::Handle;
use vstd::prelude::*;

verus! {

/// An append-only store of `T`.
///
/// Elements are never moved or removed, so the handle that an insertion
/// returns names the same element for as long as the arena lives.
#[derive(Debug)]
pub struct Arena<T> {
    data: Vec<T>,
}

impl<T> View for Arena<T> {
    type V = Seq<T>;

    /// The elements in the order in which they were inserted.
    closed spec fn view(&self) -> Seq<T> {
        self.data@
    }
}

/// Whether `stored == sought`, as `T` compares its values, can come out as
/// `verdict`.
///
/// Where `T::obeys_eq_spec()` holds, only `stored.eq_spec(&sought)` can
/// come out. Of other types, floating-point numbers among them, nothing
/// more is known than what their `eq` promises.
pub open spec fn compares<T: PartialEq>(stored: T, sought: T, verdict: bool) -> bool {
    call_ensures(T::eq, (&stored, &sought), verdict)
}

/// Whether each of the first `end` elements can compare unequal to `value`.
pub open spec fn none_equal<T: PartialEq>(elements: Seq<T>, value: T, end: int) -> bool {
    forall|j: int| 0 <= j < end ==> compares(#[trigger] elements[j], value, false)
}

/// What one call of `fetch_or_append` with `value` makes of the contents
/// `before`: the contents `after`, and a handle at `position`.
///
/// A position inside `before` is a hit: the element there compared equal,
/// each one in front of it compared unequal, and nothing was stored. The
/// position at the end of `before` is a miss: every element compared
/// unequal, and `value` went into a new slot there.
pub open spec fn fetched<T: PartialEq>(
    before: Seq<T>,
    value: T,
    after: Seq<T>,
    position: nat,
) -> bool {
    &&& position <= before.len()
    &&& none_equal(before, value, position as int)
    &&& if position < before.len() {
        after == before && compares(after[position as int], value, true)
    } else {
        after == before.push(value) && after[position as int] == value
    }
}

/// Whether `pairs` holds each element of `elements` once, in order, beside
/// the handle of its position.
pub open spec fn enumerates<T>(pairs: Seq<(Handle<T>, &T)>, elements: Seq<T>) -> bool {
    &&& pairs.len() == elements.len()
    &&& forall|k: int|
        0 <= k < pairs.len() ==> {
            &&& (#[trigger] pairs[k]).0 == Handle::<T>::at(k as nat)
            &&& pairs[k].0@ == k
            &&& *pairs[k].1 == elements[k]
        }
}

impl<T> Arena<T> {
    /// Every position fits in a handle, and none is the reserved one.
    pub open spec fn wf(&self) -> bool {
        self@.len() <= u32::MAX
    }

    /// Whether `handle` names an element of this arena.
    pub open spec fn contains(&self, handle: Handle<T>) -> bool {
        handle@ < self@.len()
    }

    /// The element that `handle` names.
    pub open spec fn spec_index(&self, handle: Handle<T>) -> T
        recommends
            self.contains(handle),
    {
        self@[handle@ as int]
    }

    /// Whether each handle that names an element of `earlier` names the
    /// same element of this arena.
    pub open spec fn keeps(&self, earlier: &Self) -> bool {
        forall|handle: Handle<T>| #[trigger]
            earlier.contains(handle) ==> self.contains(handle) && self[handle] == earlier[handle]
    }

    /// An arena without elements.
    pub fn new() -> (arena: Self)
        ensures
            arena@ == Seq::<T>::empty(),
            arena.wf(),
    {
        Arena { data: Vec::new() }
    }

    /// The number of elements.
    pub fn len(&self) -> (count: usize)
        ensures
            count == self@.len(),
    {
        self.data.len()
    }

    /// Every element with its handle, in the order of insertion.
    pub fn iter(&self) -> (pairs: Vec<(Handle<T>, &T)>)
        requires
            self.wf(),
        ensures
            enumerates(pairs@, self@),
    {
        let count: usize = self.data.len();
        let mut pairs: Vec<(Handle<T>, &T)> = Vec::with_capacity(count);
        let mut position: usize = 0;
        while position < count
            invariant
                count == self.data@.len(),
                count <= u32::MAX,
                position <= count,
                enumerates(pairs@, self.data@.take(position as int)),
            decreases count - position,
        {
            pairs.push((Handle::new(position as u32), &self.data[position]));
            position += 1;
        }
        pairs
    }

    /// Stores `value` in a new slot at the end, whether or not an equal
    /// element is there already, and returns the handle of that slot.
    pub fn append(&mut self, value: T) -> (handle: Handle<T>)
        requires
            old(self)@.len() < u32::MAX,
        ensures
            final(self)@ == old(self)@.push(value),
            handle == Handle::<T>::at(old(self)@.len()),
            handle@ == old(self)@.len(),
            !old(self).contains(handle),
            final(self).contains(handle),
            final(self)[handle] == value,
            final(self).keeps(old(self)),
            final(self).wf(),
    {
        let index: u32 = self.data.len() as u32;
        self.data.push(value);
        Handle::new(index)
    }

    /// The element that `handle` names, or `None` where it names none.
    pub fn get(&self, handle: Handle<T>) -> (element: Option<&T>)
        ensures
            self.contains(handle) ==> element == Some(&self[handle]),
            !self.contains(handle) ==> element is None,
    {
        let position: usize = handle.index();
        if position < self.data.len() {
            Some(&self.data[position])
        } else {
            None
        }
    }
}

impl<T: PartialEq> Arena<T> {
    /// Returns the handle of the first element that equals `value`, and
    /// leaves the arena as it is; where no element equals `value`, stores
    /// it as `append` does.
    ///
    /// Elements are compared with `T`'s own `==`, the stored element on the
    /// left. A value that does not equal itself is therefore never found.
    /// A full arena takes no new element: it must hold one that equals
    /// `value`.
    pub fn fetch_or_append(&mut self, value: T) -> (handle: Handle<T>)
        requires
            old(self).wf(),
            old(self)@.len() == u32::MAX ==> !none_equal(
                old(self)@,
                value,
                old(self)@.len() as int,
            ),
        ensures
            fetched(old(self)@, value, final(self)@, handle@),
            handle == Handle::<T>::at(handle@),
            final(self).contains(handle),
            final(self).keeps(old(self)),
            final(self).wf(),
    {
        let count: usize = self.data.len();
        let mut position: usize = 0;
        while position < count
            invariant
                count == self.data@.len(),
                count <= u32::MAX,
                position <= count,
                self.data@ == old(self)@,
                none_equal(self.data@, value, position as int),
            decreases count - position,
        {
            if self.data[position] == value {
                return Handle::new(position as u32);
            }
            position += 1;
        }
        self.append(value)
    }
}

impl<T> std::ops::Index<Handle<T>> for Arena<T> {
    type Output = T;

    /// The element that `handle` names. The handle must name one: see
    /// `index_req`.
    fn index(&self, handle: Handle<T>) -> (element: &T)
        ensures
            *element == self.spec_index(handle),
    {
        &self.data[handle.index()]
    }
}

impl<T> vstd::std_specs::core::IndexSpecImpl<Handle<T>> for Arena<T> {
    /// Indexing asks for a handle that names an element of this arena.
    open spec fn index_req(&self, handle: &Handle<T>) -> bool {
        self.contains(*handle)
    }
}

} // verus!
