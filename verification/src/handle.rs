//! Typed handles: positions in an arena, tagged with the element type.

use std::marker::PhantomData;
use vstd::prelude::*;

verus! {

/// A position in an arena of `T`.
///
/// The element type is part of the handle's type only: at run time a
/// handle is its index and nothing else. A handle owns nothing and keeps
/// nothing alive; it means something only to the arena that returned it.
pub struct Handle<T> {
    index: u32,
    marker: PhantomData<T>,
}

impl<T> View for Handle<T> {
    type V = nat;

    /// The position that the handle names.
    closed spec fn view(&self) -> nat {
        self.index as nat
    }
}

impl<T> Handle<T> {
    /// The handle that names `position`.
    pub closed spec fn at(position: nat) -> Self
        recommends
            position <= u32::MAX,
    {
        Handle { index: position as u32, marker: PhantomData }
    }

    /// Whether this is the reserved handle, which names the one position
    /// that no arena ever fills.
    pub open spec fn is_dummy(&self) -> bool {
        self@ == u32::MAX
    }

    /// The handle for the position `index`.
    pub(crate) fn new(index: u32) -> (handle: Self)
        ensures
            handle == Self::at(index as nat),
            handle@ == index,
    {
        Handle { index, marker: PhantomData }
    }

    /// The reserved handle: a placeholder that no insertion returns and no
    /// lookup finds.
    pub fn dummy() -> (handle: Self)
        ensures
            handle == Self::at(u32::MAX as nat),
            handle.is_dummy(),
    {
        Handle { index: 0xffff_ffff, marker: PhantomData }
    }

    /// The position as a plain integer, for indexing tables kept beside
    /// the arena.
    pub fn index(&self) -> (position: usize)
        ensures
            position == self@,
    {
        self.index as usize
    }
}

impl<T> Clone for Handle<T> {
    fn clone(&self) -> (copy: Self)
        ensures
            copy == *self,
    {
        Handle { index: self.index, marker: self.marker }
    }
}

impl<T> Copy for Handle<T> {

}

impl<T> PartialEq for Handle<T> {
    /// Compares the positions; the elements they name are not looked at.
    fn eq(&self, other: &Self) -> (same: bool) {
        self.index == other.index
    }
}

impl<T> Eq for Handle<T> {

}

impl<T> vstd::std_specs::cmp::PartialEqSpecImpl for Handle<T> {
    open spec fn obeys_eq_spec() -> bool {
        true
    }

    open spec fn eq_spec(&self, other: &Self) -> bool {
        *self == *other
    }
}

/// `u32`'s `Hash::hash`, which feeds the number to the hasher. Nothing is
/// claimed of the hasher's state.
pub assume_specification<H: std::hash::Hasher>[ <u32 as std::hash::Hash>::hash::<H> ](
    value: &u32,
    state: &mut H,
);

impl<T> std::hash::Hash for Handle<T> {
    /// Hashes the index and nothing else, so that equal handles hash alike.
    fn hash<H: std::hash::Hasher>(&self, state: &mut H) {
        self.index.hash(state)
    }
}

/// The character for the decimal digit `digit`, which is below ten.
pub open spec fn digit_char(digit: nat) -> char
    recommends
        digit < 10,
{
    seq!['0', '1', '2', '3', '4', '5', '6', '7', '8', '9'][digit as int]
}

/// The decimal numeral of `number`: its digits from the highest to the
/// lowest, without a sign and without leading zeros; `0` for zero.
pub open spec fn decimal(number: nat) -> Seq<char>
    decreases number,
{
    if number < 10 {
        seq![digit_char(number)]
    } else {
        decimal(number / 10).push(digit_char(number % 10))
    }
}

/// The text that shows the handle at `position`: `Handle(`, the position
/// in decimal, and `)`.
pub open spec fn shown(position: nat) -> Seq<char> {
    "Handle("@ + decimal(position) + ")"@
}

/// std's `fmt::Formatter`, the sink that `Debug::fmt` writes to. Nothing
/// inside it is visible here.
#[verifier::external_type_specification]
#[verifier::external_body]
pub struct ExFormatter<'a>(std::fmt::Formatter<'a>);

/// std's `fmt::Error`, which a formatter returns when its sink fails.
#[verifier::external_type_specification]
#[verifier::external_body]
pub struct ExFmtError(std::fmt::Error);

/// The characters that `formatter` has been handed so far, in the order in
/// which they came.
pub uninterp spec fn written(formatter: std::fmt::Formatter<'_>) -> Seq<char>;

/// Writes `Handle(`, `index` and `)` to `formatter` with std's `write!`,
/// and hands back what the formatter returned.
///
/// `write!` hands the pieces of its format string to the formatter in
/// order, and `{}` shows a `u32` in decimal without sign, padding or
/// leading zeros. It returns `Ok` only when the formatter took every
/// piece, so after an `Ok` the formatter has been handed `shown(index)`
/// after what it held. Of a failed write nothing is claimed.
#[verifier::external_body]
fn write_handle(formatter: &mut std::fmt::Formatter<'_>, index: u32) -> (outcome: Result<
    (),
    std::fmt::Error,
>)
    ensures
        outcome is Ok ==> written(*final(formatter)) == written(*old(formatter)) + shown(
            index as nat,
        ),
{
    write!(formatter, "Handle({})", index)
}

impl<T> std::fmt::Debug for Handle<T> {
    /// Shows the handle as `Handle(`, its position in decimal, and `)`:
    /// a token for diagnostics, not a format to read handles back from.
    fn fmt(&self, formatter: &mut std::fmt::Formatter<'_>) -> (outcome: std::fmt::Result)
        ensures
            outcome is Ok ==> written(*final(formatter)) == written(*old(formatter)) + shown(
                self@,
            ),
    {
        write_handle(formatter, self.index)
    }
}

/// Handles of one element type are equal exactly when they name the same
/// position: a handle is the handle at its position, and nothing else.
pub proof fn lemma_handle_identity<T>(a: Handle<T>, b: Handle<T>)
    ensures
        a == b <==> a@ == b@,
        a == Handle::<T>::at(a@),
{
}

/// A handle's position fits the 32-bit index.
pub proof fn lemma_handle_position_bounded<T>(handle: Handle<T>)
    ensures
        handle@ <= u32::MAX,
{
}

/// Each position that fits the 32-bit index has its handle.
pub proof fn lemma_handle_at<T>(position: nat)
    requires
        position <= u32::MAX,
    ensures
        Handle::<T>::at(position)@ == position,
{
}

} // verus!
