//! Structural transformations for copy-on-write data: a `ShallowClone` trait
//! that produces a borrowed, lifetime-bounded alias of a value, a `MakeOwned`
//! trait that produces a fully self-contained copy with no remaining borrows,
//! covariant borrow-or-own containers that exercise both, and a code-generation
//! core that synthesizes implementations of the two traits for arbitrary
//! struct and enum declarations.

pub mod assemble;
pub mod attributes;
mod cows;
pub mod decl;
pub mod gen_impl;
mod makeowned;
mod maps;
mod sample;
mod shallowclone;
pub mod target_type;

pub use cows::CoCow;
pub use cows::CoCowSlice;
pub use makeowned::MakeOwned;
pub use sample::HoverActionShowEntity;
pub use shallowclone::ShallowClone;
