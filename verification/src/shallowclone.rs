//! The shallow-view transformation trait and its base-case implementations:
//! a value becomes a cheaper, lifetime-bounded alias of itself, sharing data
//! with the original instead of copying it.

use vstd::prelude::*;
use core::marker::PhantomData;
use crate::cows::{CoCow, CoCowSlice};

verus! {

/// Produce a cheaper, lifetime-bounded alias of a value under the borrow
/// lifetime `'a`, sharing data with the original instead of copying it.
pub trait ShallowClone<'a> {
    type Target;

    /// The relation every alias returned by `shallow_clone` satisfies.
    spec fn shallow_rel(&'a self, t: &Self::Target) -> bool;

    fn shallow_clone(&'a self) -> (t: Self::Target)
        ensures
            self.shallow_rel(&t),
    ;
}

impl<'a> ShallowClone<'a> for u8 {
    type Target = u8;

    open spec fn shallow_rel(&'a self, t: &u8) -> bool {
        *t == *self
    }

    fn shallow_clone(&'a self) -> (t: u8) {
        *self
    }
}

impl<'a> ShallowClone<'a> for i8 {
    type Target = i8;

    open spec fn shallow_rel(&'a self, t: &i8) -> bool {
        *t == *self
    }

    fn shallow_clone(&'a self) -> (t: i8) {
        *self
    }
}

impl<'a> ShallowClone<'a> for u16 {
    type Target = u16;

    open spec fn shallow_rel(&'a self, t: &u16) -> bool {
        *t == *self
    }

    fn shallow_clone(&'a self) -> (t: u16) {
        *self
    }
}

impl<'a> ShallowClone<'a> for i16 {
    type Target = i16;

    open spec fn shallow_rel(&'a self, t: &i16) -> bool {
        *t == *self
    }

    fn shallow_clone(&'a self) -> (t: i16) {
        *self
    }
}

impl<'a> ShallowClone<'a> for u32 {
    type Target = u32;

    open spec fn shallow_rel(&'a self, t: &u32) -> bool {
        *t == *self
    }

    fn shallow_clone(&'a self) -> (t: u32) {
        *self
    }
}

impl<'a> ShallowClone<'a> for i32 {
    type Target = i32;

    open spec fn shallow_rel(&'a self, t: &i32) -> bool {
        *t == *self
    }

    fn shallow_clone(&'a self) -> (t: i32) {
        *self
    }
}

impl<'a> ShallowClone<'a> for u64 {
    type Target = u64;

    open spec fn shallow_rel(&'a self, t: &u64) -> bool {
        *t == *self
    }

    fn shallow_clone(&'a self) -> (t: u64) {
        *self
    }
}

impl<'a> ShallowClone<'a> for i64 {
    type Target = i64;

    open spec fn shallow_rel(&'a self, t: &i64) -> bool {
        *t == *self
    }

    fn shallow_clone(&'a self) -> (t: i64) {
        *self
    }
}

impl<'a> ShallowClone<'a> for u128 {
    type Target = u128;

    open spec fn shallow_rel(&'a self, t: &u128) -> bool {
        *t == *self
    }

    fn shallow_clone(&'a self) -> (t: u128) {
        *self
    }
}

impl<'a> ShallowClone<'a> for i128 {
    type Target = i128;

    open spec fn shallow_rel(&'a self, t: &i128) -> bool {
        *t == *self
    }

    fn shallow_clone(&'a self) -> (t: i128) {
        *self
    }
}

impl<'a> ShallowClone<'a> for bool {
    type Target = bool;

    open spec fn shallow_rel(&'a self, t: &bool) -> bool {
        *t == *self
    }

    fn shallow_clone(&'a self) -> (t: bool) {
        *self
    }
}

impl<'a> ShallowClone<'a> for char {
    type Target = char;

    open spec fn shallow_rel(&'a self, t: &char) -> bool {
        *t == *self
    }

    fn shallow_clone(&'a self) -> (t: char) {
        *self
    }
}

impl<'a> ShallowClone<'a> for String {
    type Target = String;

    open spec fn shallow_rel(&'a self, t: &String) -> bool {
        *t == *self
    }

    fn shallow_clone(&'a self) -> (t: String) {
        self.clone()
    }
}

impl<'a, T> ShallowClone<'a> for PhantomData<T> {
    type Target = PhantomData<T>;

    open spec fn shallow_rel(&'a self, t: &PhantomData<T>) -> bool {
        true
    }

    fn shallow_clone(&'a self) -> (t: PhantomData<T>) {
        *self
    }
}

impl<'a, 'b, T> ShallowClone<'a> for &'b T where 'b: 'a {
    type Target = &'a T;

    open spec fn shallow_rel(&'a self, t: &&'a T) -> bool {
        **t == **self
    }

    fn shallow_clone(&'a self) -> (t: &'a T) {
        *self
    }
}

/// Relies on core::array::from_fn, which builds the array by applying the
/// closure to each index in order.
#[verifier::external_body]
fn array_shallow_clone<'a, T: ShallowClone<'a>, const N: usize>(a: &'a [T; N]) -> (r: [
    T::Target; N])
    ensures
        forall|i: int| 0 <= i < N ==> a@[i].shallow_rel(&#[trigger] r@[i]),
{
    core::array::from_fn(|i| a[i].shallow_clone())
}

impl<'a, T: ShallowClone<'a>, const N: usize> ShallowClone<'a> for [T; N] {
    type Target = [T::Target; N];

    open spec fn shallow_rel(&'a self, t: &[T::Target; N]) -> bool {
        forall|i: int| 0 <= i < N ==> self@[i].shallow_rel(&#[trigger] t@[i])
    }

    fn shallow_clone(&'a self) -> (t: [T::Target; N]) {
        array_shallow_clone(self)
    }
}

impl<'a, T: ShallowClone<'a>> ShallowClone<'a> for Option<T> {
    type Target = Option<T::Target>;

    open spec fn shallow_rel(&'a self, t: &Option<T::Target>) -> bool {
        match *self {
            None => *t is None,
            Some(ref x) => *t matches Some(y) && x.shallow_rel(&y),
        }
    }

    fn shallow_clone(&'a self) -> (t: Option<T::Target>) {
        match self {
            None => None,
            Some(x) => Some(x.shallow_clone()),
        }
    }
}

impl<'a, T: ShallowClone<'a>> ShallowClone<'a> for Vec<T> {
    type Target = Vec<T::Target>;

    open spec fn shallow_rel(&'a self, t: &Vec<T::Target>) -> bool {
        &&& t@.len() == self@.len()
        &&& forall|i: int| 0 <= i < self@.len() ==> self@[i].shallow_rel(&#[trigger] t@[i])
    }

    fn shallow_clone(&'a self) -> (t: Vec<T::Target>) {
        let mut t: Vec<T::Target> = Vec::new();
        let mut i: usize = 0;
        while i < self.len()
            invariant
                i <= self@.len(),
                t@.len() == i,
                forall|j: int| 0 <= j < i ==> self@[j].shallow_rel(&#[trigger] t@[j]),
            decreases self@.len() - i,
        {
            t.push(self[i].shallow_clone());
            i = i + 1;
        }
        t
    }
}

impl<'a, T: ShallowClone<'a>> ShallowClone<'a> for Box<T> {
    type Target = Box<T::Target>;

    open spec fn shallow_rel(&'a self, t: &Box<T::Target>) -> bool {
        (**self).shallow_rel(&**t)
    }

    fn shallow_clone(&'a self) -> (t: Box<T::Target>) {
        Box::new((**self).shallow_clone())
    }
}

impl<'a, T> ShallowClone<'a> for CoCow<'a, T> {
    type Target = CoCow<'a, T>;

    /// The alias is always `Borrowed`, referencing the subject's payload
    /// directly: an `Owned` subject lends out its payload, a `Borrowed`
    /// subject repeats its referent with no added indirection.
    open spec fn shallow_rel(&'a self, t: &CoCow<'a, T>) -> bool {
        &&& *t is Borrowed
        &&& (*t)->Borrowed_0 == self.spec_get()
    }

    fn shallow_clone(&'a self) -> (t: CoCow<'a, T>) {
        match self {
            CoCow::Owned(owned) => CoCow::Borrowed(owned),
            CoCow::Borrowed(borrowed) => CoCow::Borrowed(*borrowed),
        }
    }
}

impl<'a, T> ShallowClone<'a> for CoCowSlice<'a, T> {
    type Target = CoCowSlice<'a, T>;

    /// The alias is always `Borrowed`, viewing the subject's items directly:
    /// an `Owned` subject lends out its sequence, a `Borrowed` subject
    /// repeats its view with no added indirection.
    open spec fn shallow_rel(&'a self, t: &CoCowSlice<'a, T>) -> bool {
        &&& *t is Borrowed
        &&& (*t)->Borrowed_0@ == self.spec_items()
    }

    fn shallow_clone(&'a self) -> (t: CoCowSlice<'a, T>) {
        match self {
            CoCowSlice::Owned(owned) => CoCowSlice::Borrowed(owned.as_slice()),
            CoCowSlice::Borrowed(borrowed) => CoCowSlice::Borrowed(*borrowed),
        }
    }
}

/// Idempotence of the borrow-or-own container under the shallow view:
/// viewing an already-borrowed container yields a borrowed alias of the very
/// same referent, with no added indirection.
pub proof fn lemma_borrowed_view_idempotent<'a, T>(c: CoCow<'a, T>, v: CoCow<'a, T>)
    requires
        c is Borrowed,
        c.shallow_rel(&v),
    ensures
        v is Borrowed,
        v->Borrowed_0 == c->Borrowed_0,
{
}

/// The same idempotence for the slice container: viewing an already-borrowed
/// slice container yields a borrowed view of the very same items.
pub proof fn lemma_borrowed_view_idempotent_slice<'a, T>(c: CoCowSlice<'a, T>, v: CoCowSlice<'a, T>)
    requires
        c is Borrowed,
        c.shallow_rel(&v),
    ensures
        v is Borrowed,
        v->Borrowed_0@ == c->Borrowed_0@,
{
}

} // verus!
