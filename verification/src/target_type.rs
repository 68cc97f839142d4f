//! Target-type synthesis: the type expression that results from applying a
//! transformation kind to every non-excluded generic parameter of the
//! declared type.

use vstd::prelude::*;
use crate::decl::{clone_string, DeriveType, GenericParam, TypeDeclaration};

verus! {

/// One generic argument of the synthesized target type.
#[derive(Clone, Debug, PartialEq, Eq)]
pub enum TargetArg {
    /// The parameter passed through unchanged, under its declared name.
    Keep(String),
    /// The distinguished borrow lifetime shared by the whole generated
    /// implementation.
    BorrowLifetime,
    /// The unbounded lifetime, signalling that no borrows remain.
    StaticLifetime,
    /// The shallow-view target type associated with the named parameter under
    /// the borrow lifetime.
    ShallowTarget(String),
    /// The fully-owned type associated with the named parameter.
    OwnedType(String),
}

/// The synthesized target type: the original type's name applied to one
/// argument per declared generic parameter, in declaration order.
#[derive(Clone, Debug, PartialEq, Eq)]
pub struct TargetType {
    pub name: String,
    pub args: Vec<TargetArg>,
}

/// The argument the target type carries for one parameter: const parameters
/// and excluded parameters pass through unchanged; a lifetime becomes the
/// borrow lifetime or the unbounded one, and a type parameter becomes the
/// associated projection of the kind.
pub open spec fn spec_target_arg(k: DeriveType, p: GenericParam, skipped: bool) -> TargetArg {
    match p {
        GenericParam::Lifetime(lp) => if skipped {
            TargetArg::Keep(lp.name)
        } else if k is ShallowClone {
            TargetArg::BorrowLifetime
        } else {
            TargetArg::StaticLifetime
        },
        GenericParam::Type(tp) => if skipped {
            TargetArg::Keep(tp.name)
        } else if k is ShallowClone {
            TargetArg::ShallowTarget(tp.name)
        } else {
            TargetArg::OwnedType(tp.name)
        },
        GenericParam::Const(cp) => TargetArg::Keep(cp.name),
    }
}

/// Synthesizes the target type of the declaration for the given kind:
/// the declared name applied to one argument per generic parameter, each
/// rewritten exactly as `spec_target_arg` says for its exclusion flag.
pub fn get_target_type(
    input: &TypeDeclaration,
    derive_type: DeriveType,
    skipped: &Vec<bool>,
) -> (t: TargetType)
    requires
        skipped@.len() == input.generics@.len(),
    ensures
        t.name == input.name,
        t.args@.len() == input.generics@.len(),
        forall|i: int|
            0 <= i < t.args@.len() ==> t.args@[i] == spec_target_arg(
                derive_type,
                input.generics@[i],
                skipped@[i],
            ),
{
    let mut args: Vec<TargetArg> = Vec::new();
    let mut i: usize = 0;
    while i < input.generics.len()
        invariant
            i <= input.generics@.len(),
            skipped@.len() == input.generics@.len(),
            args@.len() == i,
            forall|j: int|
                0 <= j < i ==> args@[j] == spec_target_arg(
                    derive_type,
                    input.generics@[j],
                    skipped@[j],
                ),
        decreases input.generics@.len() - i,
    {
        let skip = skipped[i];
        let arg = match &input.generics[i] {
            GenericParam::Lifetime(lp) => {
                if skip {
                    TargetArg::Keep(clone_string(&lp.name))
                } else {
                    match derive_type {
                        DeriveType::ShallowClone => TargetArg::BorrowLifetime,
                        DeriveType::MakeOwned => TargetArg::StaticLifetime,
                    }
                }
            },
            GenericParam::Type(tp) => {
                if skip {
                    TargetArg::Keep(clone_string(&tp.name))
                } else {
                    match derive_type {
                        DeriveType::ShallowClone => TargetArg::ShallowTarget(
                            clone_string(&tp.name),
                        ),
                        DeriveType::MakeOwned => TargetArg::OwnedType(clone_string(&tp.name)),
                    }
                }
            },
            GenericParam::Const(cp) => TargetArg::Keep(clone_string(&cp.name)),
        };
        args.push(arg);
        i = i + 1;
    }
    TargetType { name: clone_string(&input.name), args }
}

} // verus!
