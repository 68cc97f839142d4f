//! The ownership-detachment transformation trait and its base-case
//! implementations: a value becomes a fully self-contained copy with no
//! remaining borrows.

use vstd::prelude::*;
use core::marker::PhantomData;
use crate::cows::{cocow_extract, cocowslice_extract, CoCow, CoCowSlice};
use crate::shallowclone::ShallowClone;

verus! {

/// Consume a value and produce an equivalent that is free of borrows,
/// duplicating referenced parts where necessary. The output type must itself
/// support structural duplication and carry no borrow.
pub trait MakeOwned: Clone + Sized {
    type Owned: Clone + 'static;

    /// The relation every detached value returned by `make_owned` satisfies.
    spec fn owned_rel(self, o: Self::Owned) -> bool;

    fn make_owned(self) -> (o: Self::Owned)
        ensures
            self.owned_rel(o),
    ;
}

impl MakeOwned for u8 {
    type Owned = u8;

    open spec fn owned_rel(self, o: u8) -> bool {
        o == self
    }

    fn make_owned(self) -> (o: u8) {
        self
    }
}

impl MakeOwned for i8 {
    type Owned = i8;

    open spec fn owned_rel(self, o: i8) -> bool {
        o == self
    }

    fn make_owned(self) -> (o: i8) {
        self
    }
}

impl MakeOwned for u16 {
    type Owned = u16;

    open spec fn owned_rel(self, o: u16) -> bool {
        o == self
    }

    fn make_owned(self) -> (o: u16) {
        self
    }
}

impl MakeOwned for i16 {
    type Owned = i16;

    open spec fn owned_rel(self, o: i16) -> bool {
        o == self
    }

    fn make_owned(self) -> (o: i16) {
        self
    }
}

impl MakeOwned for u32 {
    type Owned = u32;

    open spec fn owned_rel(self, o: u32) -> bool {
        o == self
    }

    fn make_owned(self) -> (o: u32) {
        self
    }
}

impl MakeOwned for i32 {
    type Owned = i32;

    open spec fn owned_rel(self, o: i32) -> bool {
        o == self
    }

    fn make_owned(self) -> (o: i32) {
        self
    }
}

impl MakeOwned for u64 {
    type Owned = u64;

    open spec fn owned_rel(self, o: u64) -> bool {
        o == self
    }

    fn make_owned(self) -> (o: u64) {
        self
    }
}

impl MakeOwned for i64 {
    type Owned = i64;

    open spec fn owned_rel(self, o: i64) -> bool {
        o == self
    }

    fn make_owned(self) -> (o: i64) {
        self
    }
}

impl MakeOwned for u128 {
    type Owned = u128;

    open spec fn owned_rel(self, o: u128) -> bool {
        o == self
    }

    fn make_owned(self) -> (o: u128) {
        self
    }
}

impl MakeOwned for i128 {
    type Owned = i128;

    open spec fn owned_rel(self, o: i128) -> bool {
        o == self
    }

    fn make_owned(self) -> (o: i128) {
        self
    }
}

impl MakeOwned for bool {
    type Owned = bool;

    open spec fn owned_rel(self, o: bool) -> bool {
        o == self
    }

    fn make_owned(self) -> (o: bool) {
        self
    }
}

impl MakeOwned for char {
    type Owned = char;

    open spec fn owned_rel(self, o: char) -> bool {
        o == self
    }

    fn make_owned(self) -> (o: char) {
        self
    }
}

impl MakeOwned for String {
    type Owned = String;

    open spec fn owned_rel(self, o: String) -> bool {
        o == self
    }

    fn make_owned(self) -> (o: String) {
        self
    }
}

impl<T: 'static + Clone> MakeOwned for PhantomData<T> {
    type Owned = PhantomData<T>;

    open spec fn owned_rel(self, o: PhantomData<T>) -> bool {
        true
    }

    fn make_owned(self) -> (o: PhantomData<T>) {
        self
    }
}

/// Relies on std's array map, which applies the closure to each element in
/// order and builds the array of the results.
#[verifier::external_body]
fn array_make_owned<T: MakeOwned, const N: usize>(a: [T; N]) -> (r: [T::Owned; N])
    ensures
        forall|i: int| 0 <= i < N ==> a@[i].owned_rel(#[trigger] r@[i]),
{
    a.map(|x| x.make_owned())
}

impl<T: MakeOwned, const N: usize> MakeOwned for [T; N] {
    type Owned = [T::Owned; N];

    open spec fn owned_rel(self, o: [T::Owned; N]) -> bool {
        forall|i: int| 0 <= i < N ==> self@[i].owned_rel(#[trigger] o@[i])
    }

    fn make_owned(self) -> (o: [T::Owned; N]) {
        array_make_owned(self)
    }
}

impl<T: MakeOwned> MakeOwned for Option<T> {
    type Owned = Option<T::Owned>;

    open spec fn owned_rel(self, o: Option<T::Owned>) -> bool {
        match self {
            None => o is None,
            Some(x) => o matches Some(y) && x.owned_rel(y),
        }
    }

    fn make_owned(self) -> (o: Option<T::Owned>) {
        match self {
            None => None,
            Some(x) => Some(x.make_owned()),
        }
    }
}

impl<T: MakeOwned> MakeOwned for Vec<T> {
    type Owned = Vec<T::Owned>;

    open spec fn owned_rel(self, o: Vec<T::Owned>) -> bool {
        &&& o@.len() == self@.len()
        &&& forall|i: int| 0 <= i < self@.len() ==> self@[i].owned_rel(#[trigger] o@[i])
    }

    fn make_owned(self) -> (o: Vec<T::Owned>) {
        let ghost orig = self@;
        let mut v = self;
        let mut o: Vec<T::Owned> = Vec::new();
        while v.len() > 0
            invariant
                o@.len() + v@.len() == orig.len(),
                v@ == orig.skip(o@.len() as int),
                forall|i: int| 0 <= i < o@.len() ==> orig[i].owned_rel(#[trigger] o@[i]),
            decreases v@.len(),
        {
            let x = v.remove(0);
            o.push(x.make_owned());
            proof {
                assert(v@ =~= orig.skip(o@.len() as int));
            }
        }
        o
    }
}

impl<T: MakeOwned> MakeOwned for Box<T> {
    type Owned = Box<T::Owned>;

    open spec fn owned_rel(self, o: Box<T::Owned>) -> bool {
        (*self).owned_rel(*o)
    }

    fn make_owned(self) -> (o: Box<T::Owned>) {
        Box::new((*self).make_owned())
    }
}

impl<'a, T: MakeOwned> MakeOwned for CoCow<'a, T> where <T as MakeOwned>::Owned: Clone {
    type Owned = CoCow<'static, T::Owned>;

    /// The detached container owns its payload, which is the detachment of
    /// what the subject gave access to (extracted by cloning if the subject
    /// was borrowed).
    open spec fn owned_rel(self, o: CoCow<'static, T::Owned>) -> bool {
        o matches CoCow::Owned(w) && exists|t: T| cocow_extract(self, t) && t.owned_rel(w)
    }

    fn make_owned(self) -> (o: CoCow<'static, T::Owned>) {
        let ghost c = self;
        let t = self.into_owned();
        let w = t.make_owned();
        proof {
            assert(cocow_extract(c, t) && t.owned_rel(w));
        }
        CoCow::Owned(w)
    }
}

impl<'a, T: MakeOwned> MakeOwned for CoCowSlice<'a, T> where <T as MakeOwned>::Owned: Clone {
    type Owned = CoCowSlice<'static, T::Owned>;

    /// The detached container owns a sequence whose items are the detachments
    /// of the items the subject gave access to, in order.
    open spec fn owned_rel(self, o: CoCowSlice<'static, T::Owned>) -> bool {
        o matches CoCowSlice::Owned(w) && exists|v: Vec<T>|
            cocowslice_extract(self, v) && v.owned_rel(w)
    }

    fn make_owned(self) -> (o: CoCowSlice<'static, T::Owned>) {
        let ghost c = self;
        let v = self.into_owned();
        let w = v.make_owned();
        proof {
            assert(cocowslice_extract(c, v) && v.owned_rel(w));
        }
        CoCowSlice::Owned(w)
    }
}

/// Round trip through the container: whatever detachment produces is an
/// `Owned` container, and taking a shallow view of that detached container
/// yields a `Borrowed` alias whose referent is exactly the detached payload —
/// the view reaches only data of the detached result, never the
/// pre-detachment input.
pub proof fn lemma_detach_then_view<'a, T: MakeOwned>(
    c: CoCow<'a, T>,
    o: CoCow<'static, T::Owned>,
    v: CoCow<'static, T::Owned>,
) where <T as MakeOwned>::Owned: Clone
    requires
        c.owned_rel(o),
        o.shallow_rel(&v),
    ensures
        o is Owned,
        v is Borrowed,
        v->Borrowed_0 == o->Owned_0,
{
}

/// The same round trip for the slice container: detachment yields an `Owned`
/// sequence, and a shallow view of it is a `Borrowed` view of exactly that
/// sequence's items.
pub proof fn lemma_detach_then_view_slice<'a, T: MakeOwned>(
    c: CoCowSlice<'a, T>,
    o: CoCowSlice<'static, T::Owned>,
    v: CoCowSlice<'static, T::Owned>,
) where <T as MakeOwned>::Owned: Clone
    requires
        c.owned_rel(o),
        o.shallow_rel(&v),
    ensures
        o is Owned,
        v is Borrowed,
        v->Borrowed_0@ == o->Owned_0@,
{
}

} // verus!
