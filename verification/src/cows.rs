//! Covariant borrow-or-own containers.
//!
//! A clone-on-demand wrapper built on a general "clone on demand" capability
//! is invariant in its payload, which forces a second lifetime parameter on
//! every use whose payload itself carries a borrow. These containers define
//! their own minimal surface instead, so they stay covariant: a container
//! over a payload with a longer embedded lifetime can stand in for one over
//! the shorter-lifetime version of the same payload.

use vstd::prelude::*;

verus! {

/// A two-variant value: an owned payload, or a borrowed reference to a
/// payload.
#[derive(Debug, Clone, Copy, PartialEq, Eq, PartialOrd, Ord, Hash)]
pub enum CoCow<'a, T> {
    Owned(T),
    Borrowed(&'a T),
}

/// The slice-specialized sibling of [`CoCow`]: a growable sequence when
/// owned, a borrowed sequence view when borrowed.
#[derive(Debug, Clone, PartialEq, Eq, PartialOrd, Ord, Hash)]
pub enum CoCowSlice<'a, T> {
    Owned(Vec<T>),
    Borrowed(&'a [T]),
}

/// The value `into_owned` may extract from a container: the payload itself if
/// owned, a clone of the referent if borrowed.
pub open spec fn cocow_extract<'a, T: Clone>(c: CoCow<'a, T>, t: T) -> bool {
    match c {
        CoCow::Owned(x) => t == x,
        CoCow::Borrowed(b) => cloned(*b, t),
    }
}

/// The sequence `into_owned` may extract from a slice container: the owned
/// sequence itself, or an item-for-item clone of the borrowed view.
pub open spec fn cocowslice_extract<'a, T: Clone>(c: CoCowSlice<'a, T>, v: Vec<T>) -> bool {
    match c {
        CoCowSlice::Owned(u) => v == u,
        CoCowSlice::Borrowed(s) => v@.len() == s@.len() && forall|i: int|
            0 <= i < s@.len() ==> cloned(s@[i], #[trigger] v@[i]),
    }
}

impl<'a, T> CoCow<'a, T> {
    /// The payload this container gives access to: its own if `Owned`, the
    /// referent if `Borrowed`.
    pub open spec fn spec_get(self) -> T {
        match self {
            CoCow::Owned(t) => t,
            CoCow::Borrowed(b) => *b,
        }
    }
}

impl<'a, T> CoCowSlice<'a, T> {
    /// The items this container gives access to, in order.
    pub open spec fn spec_items(self) -> Seq<T> {
        match self {
            CoCowSlice::Owned(v) => v@,
            CoCowSlice::Borrowed(s) => s@,
        }
    }
}

/// Clones every item of a slice into a fresh vector, in order.
fn clone_slice_items<T: Clone>(s: &[T]) -> (v: Vec<T>)
    ensures
        v@.len() == s@.len(),
        forall|i: int| 0 <= i < s@.len() ==> cloned(s@[i], #[trigger] v@[i]),
{
    let mut v: Vec<T> = Vec::new();
    let mut i: usize = 0;
    while i < s.len()
        invariant
            i <= s@.len(),
            v@.len() == i,
            forall|j: int| 0 <= j < i ==> cloned(s@[j], #[trigger] v@[j]),
        decreases s@.len() - i,
    {
        v.push(s[i].clone());
        i = i + 1;
    }
    v
}

impl<'a, T: Clone> CoCow<'a, T> {
    /// Returns the inner owned value, cloning if it was borrowed.
    pub fn into_owned(self) -> (r: T)
        ensures
            cocow_extract(self, r),
    {
        match self {
            CoCow::Owned(owned) => owned,
            CoCow::Borrowed(borrowed) => borrowed.clone(),
        }
    }

    /// Returns a mutable reference to the inner owned value, cloning first if
    /// it was borrowed; afterwards the container is `Owned`, holding whatever
    /// the caller leaves behind the returned reference.
    pub fn to_mut(&mut self) -> (r: &mut T)
        ensures
            cocow_extract(*old(self), *r),
            *final(self) == CoCow::<'a, T>::Owned(*final(r)),
    {
        match self {
            CoCow::Owned(owned) => owned,
            CoCow::Borrowed(borrowed) => {
                let t = (*borrowed).clone();
                *self = CoCow::Owned(t);
                match self {
                    CoCow::Owned(owned) => owned,
                    CoCow::Borrowed(_) => unreached(),
                }
            },
        }
    }
}

impl<'a, T> CoCow<'a, T> {
    /// Returns `true` if the value is borrowed.
    pub fn is_borrowed(&self) -> (r: bool)
        ensures
            r == (self is Borrowed),
    {
        matches!(self, CoCow::Borrowed(_))
    }

    /// Returns `true` if the value is owned.
    pub fn is_owned(&self) -> (r: bool)
        ensures
            r == (self is Owned),
    {
        matches!(self, CoCow::Owned(_))
    }

    /// A shared reference to the payload the container gives access to.
    pub fn get(&self) -> (r: &T)
        ensures
            *r == self.spec_get(),
    {
        match self {
            CoCow::Owned(owned) => owned,
            CoCow::Borrowed(borrowed) => borrowed,
        }
    }
}

impl<'a, T: Clone> CoCowSlice<'a, T> {
    /// Returns the inner owned vector, cloning item for item if it was
    /// borrowed.
    pub fn into_owned(self) -> (r: Vec<T>)
        ensures
            cocowslice_extract(self, r),
    {
        match self {
            CoCowSlice::Owned(owned) => owned,
            CoCowSlice::Borrowed(borrowed) => clone_slice_items(borrowed),
        }
    }

    /// Returns a mutable reference to the inner owned vector, cloning item
    /// for item first if it was borrowed; afterwards the container is
    /// `Owned`, holding whatever the caller leaves behind the returned
    /// reference.
    pub fn to_mut(&mut self) -> (r: &mut Vec<T>)
        ensures
            cocowslice_extract(*old(self), *r),
            *final(self) == CoCowSlice::<'a, T>::Owned(*final(r)),
    {
        match self {
            CoCowSlice::Owned(owned) => owned,
            CoCowSlice::Borrowed(borrowed) => {
                let v = clone_slice_items(borrowed);
                *self = CoCowSlice::Owned(v);
                match self {
                    CoCowSlice::Owned(owned) => owned,
                    CoCowSlice::Borrowed(_) => unreached(),
                }
            },
        }
    }
}

impl<'a, T> CoCowSlice<'a, T> {
    /// Returns `true` if the value is borrowed.
    pub fn is_borrowed(&self) -> (r: bool)
        ensures
            r == (self is Borrowed),
    {
        matches!(self, CoCowSlice::Borrowed(_))
    }

    /// Returns `true` if the value is owned.
    pub fn is_owned(&self) -> (r: bool)
        ensures
            r == (self is Owned),
    {
        matches!(self, CoCowSlice::Owned(_))
    }

    /// A view of the items the container gives access to.
    pub fn get(&self) -> (r: &[T])
        ensures
            r@ == self.spec_items(),
    {
        match self {
            CoCowSlice::Owned(owned) => owned.as_slice(),
            CoCowSlice::Borrowed(borrowed) => borrowed,
        }
    }
}

impl<'a, T: Default> Default for CoCow<'a, T> {
    /// The default container owns the payload type's default value.
    fn default() -> (r: Self)
        ensures
            r matches CoCow::Owned(t) && call_ensures(T::default, (), t),
    {
        CoCow::Owned(T::default())
    }
}

impl<'a, T> Default for CoCowSlice<'a, T> {
    /// The default container owns an empty sequence.
    fn default() -> (r: Self)
        ensures
            r matches CoCowSlice::Owned(v) && v@.len() == 0,
    {
        CoCowSlice::Owned(Vec::new())
    }
}

impl<'a, T> From<T> for CoCow<'a, T> {
    fn from(value: T) -> (r: Self) {
        CoCow::Owned(value)
    }
}

impl<'a, T> vstd::std_specs::convert::FromSpecImpl<T> for CoCow<'a, T> {
    open spec fn obeys_from_spec() -> bool {
        true
    }

    open spec fn from_spec(v: T) -> Self {
        CoCow::Owned(v)
    }
}

impl<'a, T> From<&'a T> for CoCow<'a, T> {
    fn from(value: &'a T) -> (r: Self) {
        CoCow::Borrowed(value)
    }
}

impl<'a, T> vstd::std_specs::convert::FromSpecImpl<&'a T> for CoCow<'a, T> {
    open spec fn obeys_from_spec() -> bool {
        true
    }

    open spec fn from_spec(v: &'a T) -> Self {
        CoCow::Borrowed(v)
    }
}

impl<'a, T> From<Vec<T>> for CoCowSlice<'a, T> {
    fn from(value: Vec<T>) -> (r: Self) {
        CoCowSlice::Owned(value)
    }
}

impl<'a, T> vstd::std_specs::convert::FromSpecImpl<Vec<T>> for CoCowSlice<'a, T> {
    open spec fn obeys_from_spec() -> bool {
        true
    }

    open spec fn from_spec(v: Vec<T>) -> Self {
        CoCowSlice::Owned(v)
    }
}

impl<'a, T> From<&'a [T]> for CoCowSlice<'a, T> {
    fn from(value: &'a [T]) -> (r: Self) {
        CoCowSlice::Borrowed(value)
    }
}

impl<'a, T> vstd::std_specs::convert::FromSpecImpl<&'a [T]> for CoCowSlice<'a, T> {
    open spec fn obeys_from_spec() -> bool {
        true
    }

    open spec fn from_spec(v: &'a [T]) -> Self {
        CoCowSlice::Borrowed(v)
    }
}

} // verus!
