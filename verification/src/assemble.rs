//! Assembly of one generated implementation unit: the re-declared generic
//! parameter list, the extra capability constraints each parameter needs for
//! the transformation kind, the synthesized target type, and the synthesized
//! body, stitched together per declaration.

use vstd::prelude::*;
use crate::attributes::{
    resolve_exclusions, spec_all_diags_to, spec_no_fatal_to, spec_param_fatal, spec_skipped,
};
use crate::decl::{
    clone_string, clone_strings, DeriveType, Diagnostic, Fatal, GenericParam, Shape,
    TypeDeclaration,
};
use crate::gen_impl::{body_matches, gen_impl, Body};
use crate::target_type::{get_target_type, spec_target_arg, TargetType};

verus! {

/// One re-declared generic parameter of the generated implementation,
/// carrying the original declaration's own bounds verbatim.
#[derive(Clone, Debug, PartialEq, Eq)]
pub enum ImplParam {
    Lifetime { name: String, bounds: Vec<String> },
    Type { name: String, bounds: Vec<String> },
    Const { name: String, ty: String },
}

/// One generic argument in the universally-quantified duplication constraint:
/// every lifetime parameter is replaced by the arbitrary substitute lifetime,
/// type and const parameters keep their names.
#[derive(Clone, Debug, PartialEq, Eq)]
pub enum HktArg {
    AnyLifetime,
    Named(String),
}

/// One extra constraint the assembler attaches to the generated
/// implementation.
#[derive(Clone, Debug, PartialEq, Eq)]
pub enum ExtraBound {
    /// The named lifetime parameter outlives (or equals) the borrow lifetime.
    LifetimeOutlivesBorrow(String),
    /// The named excluded type parameter must already be free of any
    /// non-static borrow, since it is not recursively transformed.
    TypeStatic(String),
    /// The named type parameter supports the shallow-view transformation
    /// under the borrow lifetime.
    TypeShallowClone(String),
    /// The named type parameter supports ownership detachment.
    TypeMakeOwned(String),
    /// The named type parameter's detached-output type satisfies the
    /// parameter's own declared capability bounds, which the re-declared
    /// parameter of the same name carries verbatim.
    OwnedKeepsBounds(String),
    /// The whole original type, under every instantiation of its lifetime
    /// parameters, supports structural duplication: detachment is defined as
    /// duplicate-then-strip-borrows.
    SelfCloneForAll { name: String, args: Vec<HktArg> },
}

/// The synthesized implementation for one (declaration, kind) pair: enough
/// for an emission layer to render a complete implementation of the kind's
/// transformation trait.
#[derive(Clone, Debug, PartialEq, Eq)]
pub struct GeneratedUnit {
    pub kind: DeriveType,
    pub impl_params: Vec<ImplParam>,
    pub extra_bounds: Vec<ExtraBound>,
    pub where_bounds: Vec<String>,
    pub target: TargetType,
    pub body: Body,
}

/// Whether one re-declared parameter reproduces the original parameter:
/// same kind of parameter, same name, and the original bounds element for
/// element.
pub open spec fn impl_param_matches(p: GenericParam, ip: ImplParam) -> bool {
    match p {
        GenericParam::Lifetime(lp) => ip matches ImplParam::Lifetime { name, bounds } && name
            == lp.name && bounds@ == lp.bounds@,
        GenericParam::Type(tp) => ip matches ImplParam::Type { name, bounds } && name == tp.name
            && bounds@ == tp.bounds@,
        GenericParam::Const(cp) => ip matches ImplParam::Const { name, ty } && name == cp.name && ty
            == cp.ty,
    }
}

/// The extra constraints one parameter contributes, in order. Const
/// parameters contribute none; the rest branch on kind and exclusion exactly
/// as the assembler's rules say.
pub open spec fn spec_param_extra(k: DeriveType, p: GenericParam, skipped: bool) -> Seq<
    ExtraBound,
> {
    match p {
        GenericParam::Lifetime(lp) => if !skipped && k is ShallowClone {
            seq![ExtraBound::LifetimeOutlivesBorrow(lp.name)]
        } else {
            Seq::empty()
        },
        GenericParam::Type(tp) => if skipped {
            if k is MakeOwned {
                seq![ExtraBound::TypeStatic(tp.name)]
            } else {
                Seq::empty()
            }
        } else if k is ShallowClone {
            seq![ExtraBound::TypeShallowClone(tp.name)]
        } else {
            seq![ExtraBound::TypeMakeOwned(tp.name), ExtraBound::OwnedKeepsBounds(tp.name)]
        },
        GenericParam::Const(_) => Seq::empty(),
    }
}

/// The concatenated extra constraints of the first `i` parameters.
pub open spec fn spec_all_extra_to(
    k: DeriveType,
    ps: Seq<GenericParam>,
    skips: Seq<bool>,
    i: int,
) -> Seq<ExtraBound>
    decreases i,
{
    if i <= 0 {
        Seq::empty()
    } else {
        spec_all_extra_to(k, ps, skips, i - 1) + spec_param_extra(k, ps[i - 1], skips[i - 1])
    }
}

/// The generic arguments of the duplication constraint: one per declared
/// parameter, lifetimes replaced by the substitute lifetime.
pub open spec fn spec_hkt_args(ps: Seq<GenericParam>) -> Seq<HktArg> {
    Seq::new(
        ps.len(),
        |i: int|
            match ps[i] {
                GenericParam::Lifetime(_) => HktArg::AnyLifetime,
                GenericParam::Type(tp) => HktArg::Named(tp.name),
                GenericParam::Const(cp) => HktArg::Named(cp.name),
            },
    )
}

/// Whether a constraint is the declaration's universally-quantified
/// duplication constraint.
pub open spec fn clone_for_all_matches(d: TypeDeclaration, b: ExtraBound) -> bool {
    b matches ExtraBound::SelfCloneForAll { name, args } && name == d.name && args@
        == spec_hkt_args(d.generics@)
}

/// The exclusion flags of a declaration's parameters, in order.
pub open spec fn spec_skips(k: DeriveType, ps: Seq<GenericParam>) -> Seq<bool> {
    Seq::new(ps.len(), |i: int| spec_skipped(k, ps[i]))
}

/// Whether a target type is the one synthesized for the declaration under
/// the kind's rewriting rules and the declaration's own exclusion set.
pub open spec fn target_matches(k: DeriveType, d: TypeDeclaration, t: TargetType) -> bool {
    &&& t.name == d.name
    &&& t.args@.len() == d.generics@.len()
    &&& forall|i: int|
        0 <= i < t.args@.len() ==> t.args@[i] == spec_target_arg(
            k,
            d.generics@[i],
            spec_skipped(k, d.generics@[i]),
        )
}

/// Whether a generated unit is exactly the implementation the assembler owes
/// the declaration for the kind: parameters reproduced with their bounds,
/// the kind's extra constraints in declaration order (with the duplication
/// constraint last for detachment), the trailing constraint clause reproduced
/// verbatim for both kinds (for detachment deliberately not rewritten onto
/// the projected owned types: a documented limitation), the synthesized
/// target type, and the synthesized body.
pub open spec fn unit_matches(k: DeriveType, d: TypeDeclaration, u: GeneratedUnit) -> bool {
    let base = spec_all_extra_to(k, d.generics@, spec_skips(k, d.generics@), d.generics@.len() as int);
    &&& u.kind == k
    &&& u.impl_params@.len() == d.generics@.len()
    &&& forall|i: int|
        0 <= i < u.impl_params@.len() ==> impl_param_matches(d.generics@[i], u.impl_params@[i])
    &&& (k is ShallowClone ==> u.extra_bounds@ == base)
    &&& (k is MakeOwned ==> u.extra_bounds@.len() == base.len() + 1 && u.extra_bounds@.take(
        base.len() as int,
    ) == base && clone_for_all_matches(d, u.extra_bounds@.last()))
    &&& u.where_bounds@ == d.where_bounds@
    &&& target_matches(k, d, u.target)
    &&& body_matches(k, d, u.body)
}

/// Whether generation succeeds for the declaration under the kind: resolution
/// hits no const parameter carrying the kind's marker, and the shape is a
/// struct or an enum.
pub open spec fn spec_generation_ok(k: DeriveType, d: TypeDeclaration) -> bool {
    &&& spec_no_fatal_to(k, d.generics@, d.generics@.len() as int)
    &&& !(d.shape is Union)
}

/// Const parameters pass through unchanged, for both transformation kinds:
/// a generated unit re-declares every const parameter with its own name and
/// value type, the target type carries it under its own name in its own
/// position, and the assembler attaches no constraint to it.
pub proof fn lemma_const_param_passthrough(
    k: DeriveType,
    d: TypeDeclaration,
    u: GeneratedUnit,
    i: int,
)
    requires
        unit_matches(k, d, u),
        0 <= i < d.generics@.len(),
        d.generics@[i] is Const,
    ensures
        u.impl_params@[i] matches ImplParam::Const { name, ty } && name
            == d.generics@[i].spec_name() && ty == d.generics@[i]->Const_0.ty,
        u.target.args@[i] == crate::target_type::TargetArg::Keep(d.generics@[i].spec_name()),
        spec_param_extra(k, d.generics@[i], spec_skipped(k, d.generics@[i])) =~= Seq::<
            ExtraBound,
        >::empty(),
{
}

/// An excluded type parameter is never required to support either
/// transformation: resolving it is not fatal, the target type passes it
/// through unchanged, and its only extra constraint (under detachment) is
/// borrow-freedom — never a transformation-support bound.
pub proof fn lemma_skipped_type_param_unconstrained(k: DeriveType, p: GenericParam)
    requires
        p is Type,
        spec_skipped(k, p),
    ensures
        !spec_param_fatal(k, p),
        spec_target_arg(k, p, spec_skipped(k, p)) == crate::target_type::TargetArg::Keep(
            p.spec_name(),
        ),
        k is MakeOwned ==> spec_param_extra(k, p, spec_skipped(k, p)) =~= seq![
            ExtraBound::TypeStatic(p.spec_name()),
        ],
        k is ShallowClone ==> spec_param_extra(k, p, spec_skipped(k, p)) =~= Seq::<
            ExtraBound,
        >::empty(),
{
}

/// Builds one re-declared parameter.
fn impl_param_of(p: &GenericParam) -> (ip: ImplParam)
    ensures
        impl_param_matches(*p, ip),
{
    match p {
        GenericParam::Lifetime(lp) => ImplParam::Lifetime {
            name: clone_string(&lp.name),
            bounds: clone_strings(&lp.bounds),
        },
        GenericParam::Type(tp) => ImplParam::Type {
            name: clone_string(&tp.name),
            bounds: clone_strings(&tp.bounds),
        },
        GenericParam::Const(cp) => ImplParam::Const {
            name: clone_string(&cp.name),
            ty: clone_string(&cp.ty),
        },
    }
}

/// Derives the whole generated implementation unit of one declaration for one
/// transformation kind: resolves the exclusion set (accumulating a diagnostic
/// per malformed marker), synthesizes body and target type, re-declares every
/// generic parameter with its original bounds, and attaches the kind's extra
/// constraints. Fails, producing no unit, on a const parameter carrying the
/// kind's marker or on a union shape.
pub fn derive(
    input: &TypeDeclaration,
    derive_type: DeriveType,
    diags: &mut Vec<Diagnostic>,
) -> (r: Result<GeneratedUnit, Fatal>)
    ensures
        spec_generation_ok(derive_type, *input) ==> (r matches Ok(u) && unit_matches(
            derive_type,
            *input,
            u,
        ) && final(diags)@ == old(diags)@ + spec_all_diags_to(
            derive_type,
            input.generics@,
            input.generics@.len() as int,
        )),
        !spec_no_fatal_to(derive_type, input.generics@, input.generics@.len() as int) ==> (r matches Err(
            e,
        ) && exists|i: int|
            0 <= i < input.generics@.len() && spec_param_fatal(derive_type, input.generics@[i])
                && spec_no_fatal_to(derive_type, input.generics@, i) && e
                == Fatal::MarkerOnConstParam { param: input.generics@[i].spec_name() }
                && final(diags)@ == old(diags)@ + spec_all_diags_to(derive_type, input.generics@, i)),
        spec_no_fatal_to(derive_type, input.generics@, input.generics@.len() as int) && input.shape
            is Union ==> r == Err::<GeneratedUnit, Fatal>(Fatal::UnsupportedShape) && final(diags)@
            == old(diags)@ + spec_all_diags_to(
            derive_type,
            input.generics@,
            input.generics@.len() as int,
        ),
{
    let skipped = match resolve_exclusions(derive_type, input, diags) {
        Ok(v) => v,
        Err(e) => {
            return Err(e);
        },
    };
    proof {
        assert(skipped@ =~= spec_skips(derive_type, input.generics@));
    }
    let body = match gen_impl(derive_type, input) {
        Ok(b) => b,
        Err(e) => {
            return Err(e);
        },
    };
    let target = get_target_type(input, derive_type, &skipped);

    let ghost ps = input.generics@;
    let ghost skips = spec_skips(derive_type, input.generics@);

    let mut impl_params: Vec<ImplParam> = Vec::new();
    let mut extra_bounds: Vec<ExtraBound> = Vec::new();
    let mut i: usize = 0;
    while i < input.generics.len()
        invariant
            i <= ps.len(),
            ps == input.generics@,
            skips == spec_skips(derive_type, input.generics@),
            skipped@ == skips,
            impl_params@.len() == i,
            forall|j: int| 0 <= j < i ==> impl_param_matches(ps[j], impl_params@[j]),
            extra_bounds@ == spec_all_extra_to(derive_type, ps, skips, i as int),
        decreases ps.len() - i,
    {
        let p = &input.generics[i];
        impl_params.push(impl_param_of(p));
        let skip = skipped[i];
        match p {
            GenericParam::Lifetime(lp) => {
                if !skip && matches!(derive_type, DeriveType::ShallowClone) {
                    extra_bounds.push(ExtraBound::LifetimeOutlivesBorrow(clone_string(&lp.name)));
                }
            },
            GenericParam::Type(tp) => {
                if skip {
                    if matches!(derive_type, DeriveType::MakeOwned) {
                        extra_bounds.push(ExtraBound::TypeStatic(clone_string(&tp.name)));
                    }
                } else {
                    match derive_type {
                        DeriveType::ShallowClone => {
                            extra_bounds.push(
                                ExtraBound::TypeShallowClone(clone_string(&tp.name)),
                            );
                        },
                        DeriveType::MakeOwned => {
                            extra_bounds.push(ExtraBound::TypeMakeOwned(clone_string(&tp.name)));
                            extra_bounds.push(ExtraBound::OwnedKeepsBounds(clone_string(&tp.name)));
                        },
                    }
                }
            },
            GenericParam::Const(_) => {},
        }
        i = i + 1;
        proof {
            assert(extra_bounds@ =~= spec_all_extra_to(derive_type, ps, skips, i as int));
        }
    }

    if matches!(derive_type, DeriveType::MakeOwned) {
        let mut args: Vec<HktArg> = Vec::new();
        let mut j: usize = 0;
        while j < input.generics.len()
            invariant
                j <= ps.len(),
                ps == input.generics@,
                args@.len() == j,
                forall|l: int| 0 <= l < j ==> args@[l] == spec_hkt_args(ps)[l],
            decreases ps.len() - j,
        {
            let arg = match &input.generics[j] {
                GenericParam::Lifetime(_) => HktArg::AnyLifetime,
                GenericParam::Type(tp) => HktArg::Named(clone_string(&tp.name)),
                GenericParam::Const(cp) => HktArg::Named(clone_string(&cp.name)),
            };
            args.push(arg);
            j = j + 1;
        }
        proof {
            assert(args@ =~= spec_hkt_args(ps));
        }
        let ghost base = spec_all_extra_to(derive_type, ps, skips, ps.len() as int);
        extra_bounds.push(
            ExtraBound::SelfCloneForAll { name: clone_string(&input.name), args },
        );
        proof {
            assert(extra_bounds@.take(base.len() as int) =~= base);
            assert(clone_for_all_matches(*input, extra_bounds@.last()));
        }
    }

    Ok(
        GeneratedUnit {
            kind: derive_type,
            impl_params,
            extra_bounds,
            where_bounds: clone_strings(&input.where_bounds),
            target,
            body,
        },
    )
}

} // verus!
