//! Body synthesis: for every field of the subject, a recursive invocation of
//! the transformation on that field, reassembled into the target container;
//! for an enum, one reconstruction arm per variant, in declaration order.

use vstd::prelude::*;
use crate::decl::{
    clone_string, DeriveType, Fatal, FieldList, NamedField, Shape, TypeDeclaration, Variant,
};

verus! {

/// A field position: a declared name, or an index into a positional list.
/// An indexed place also serves as the fresh binding name of a positional
/// field in a reconstruction arm.
#[derive(Clone, Debug, PartialEq, Eq)]
pub enum Place {
    Named(String),
    Indexed(usize),
}

/// How the synthesized body reaches one field of the subject before
/// transforming it: by reference into the subject, by value out of the
/// consumed subject, or through a binding introduced by a reconstruction arm.
#[derive(Clone, Debug, PartialEq, Eq)]
pub enum FieldAccess {
    Ref(Place),
    Val(Place),
    Bound(Place),
}

/// One field of the reassembled container: the target field it initializes
/// (named, or positional when `name` is absent), and the access expression
/// the recursive transformation of the same kind is applied to.
#[derive(Clone, Debug, PartialEq, Eq)]
pub struct FieldInit {
    pub name: Option<String>,
    pub access: FieldAccess,
}

/// The reconstruction syntax of a container: named braces, positional
/// parentheses, or a bare unit.
#[derive(Clone, Copy, Debug, PartialEq, Eq, Structural)]
pub enum BodyStyle {
    Named,
    Positional,
    Unit,
}

/// One reconstruction arm of an enum body: the variant it destructures, the
/// bindings of its fields (every field bound, in order), and the field
/// initializers of the rebuilt variant.
#[derive(Clone, Debug, PartialEq, Eq)]
pub struct Arm {
    pub variant: String,
    pub style: BodyStyle,
    pub bindings: Vec<Place>,
    pub fields: Vec<FieldInit>,
}

/// The synthesized body expression: a struct reconstruction, or an exhaustive
/// per-variant match without a wildcard arm.
#[derive(Clone, Debug, PartialEq, Eq)]
pub enum Body {
    Struct { name: String, style: BodyStyle, fields: Vec<FieldInit> },
    Match { name: String, arms: Vec<Arm> },
}

/// How one field is accessed: through its arm binding inside an enum,
/// otherwise by reference for the shallow view (the subject is only examined
/// under its borrow) and by value for detachment (the subject is consumed).
pub open spec fn spec_field_access(k: DeriveType, is_enum: bool, place: Place) -> FieldAccess {
    if is_enum {
        FieldAccess::Bound(place)
    } else if k is ShallowClone {
        FieldAccess::Ref(place)
    } else {
        FieldAccess::Val(place)
    }
}

/// The field initializers synthesized for one field list: one per field, in
/// order, preserving names of named fields and positions of positional ones.
pub open spec fn spec_fields(k: DeriveType, fl: FieldList, is_enum: bool) -> Seq<FieldInit> {
    match fl {
        FieldList::Named(fs) => Seq::new(
            fs@.len(),
            |i: int|
                FieldInit {
                    name: Some(fs@[i].name),
                    access: spec_field_access(k, is_enum, Place::Named(fs@[i].name)),
                },
        ),
        FieldList::Positional(ts) => Seq::new(
            ts@.len(),
            |i: int|
                FieldInit {
                    name: None,
                    access: spec_field_access(k, is_enum, Place::Indexed(i as usize)),
                },
        ),
        FieldList::Unit => Seq::empty(),
    }
}

/// The reconstruction syntax a field list calls for.
pub open spec fn spec_style(fl: FieldList) -> BodyStyle {
    match fl {
        FieldList::Named(_) => BodyStyle::Named,
        FieldList::Positional(_) => BodyStyle::Positional,
        FieldList::Unit => BodyStyle::Unit,
    }
}

/// The bindings a reconstruction arm introduces: every field of the variant,
/// in order, under its name or its position.
pub open spec fn spec_bindings(fl: FieldList) -> Seq<Place> {
    match fl {
        FieldList::Named(fs) => Seq::new(fs@.len(), |i: int| Place::Named(fs@[i].name)),
        FieldList::Positional(ts) => Seq::new(ts@.len(), |i: int| Place::Indexed(i as usize)),
        FieldList::Unit => Seq::empty(),
    }
}

/// Whether an arm is exactly the reconstruction of the given variant:
/// it destructures every field and rebuilds the same variant, field for field.
pub open spec fn arm_matches(k: DeriveType, v: Variant, a: Arm) -> bool {
    &&& a.variant == v.name
    &&& a.style == spec_style(v.fields)
    &&& a.bindings@ == spec_bindings(v.fields)
    &&& a.fields@ == spec_fields(k, v.fields, true)
}

/// Whether a body is exactly the one synthesized for the declaration under
/// the given kind. No body fits a union shape.
pub open spec fn body_matches(k: DeriveType, decl: TypeDeclaration, b: Body) -> bool {
    match decl.shape {
        Shape::Struct(fl) => b matches Body::Struct { name, style, fields } && name == decl.name
            && style == spec_style(fl) && fields@ == spec_fields(k, fl, false),
        Shape::Enum(vs) => b matches Body::Match { name, arms } && name == decl.name && arms@.len()
            == vs@.len() && (forall|i: int|
            0 <= i < vs@.len() ==> arm_matches(k, vs@[i], arms@[i])),
        Shape::Union => false,
    }
}

/// The number of fields in a field list.
pub open spec fn spec_field_count(fl: FieldList) -> nat {
    match fl {
        FieldList::Named(fs) => fs@.len(),
        FieldList::Positional(ts) => ts@.len(),
        FieldList::Unit => 0,
    }
}

/// For every struct declaration with named fields, the generated shallow-view
/// body produces exactly one field assignment per declared field, in order,
/// preserving the field's name and applying the transformation recursively to
/// a reference to that same field of the subject.
pub proof fn lemma_shallow_struct_named_fields(d: TypeDeclaration, b: Body, fs: Vec<NamedField>)
    requires
        d.shape == Shape::Struct(FieldList::Named(fs)),
        body_matches(DeriveType::ShallowClone, d, b),
    ensures
        b matches Body::Struct { name, style, fields } && name == d.name && style
            == BodyStyle::Named && fields@.len() == fs@.len() && (forall|i: int|
            0 <= i < fs@.len() ==> (#[trigger] fields@[i]).name == Some(fs@[i].name)
                && fields@[i].access == FieldAccess::Ref(Place::Named(fs@[i].name))),
{
}

/// For every enum declaration, the generated body has exactly one
/// reconstruction arm per variant, in declaration order, each destructuring
/// every field of its variant (one binding per field) and rebuilding the same
/// variant field for field — with no wildcard arm, since no other arm shape
/// satisfies the relation.
pub proof fn lemma_enum_variant_arms(k: DeriveType, d: TypeDeclaration, b: Body, vs: Vec<Variant>)
    requires
        d.shape == Shape::Enum(vs),
        body_matches(k, d, b),
    ensures
        b matches Body::Match { name, arms } && name == d.name && arms@.len() == vs@.len() && (
        forall|i: int|
            0 <= i < vs@.len() ==> (#[trigger] arms@[i]).variant == vs@[i].name && arms@[i].style
                == spec_style(vs@[i].fields) && arms@[i].bindings@ == spec_bindings(vs@[i].fields)
                && arms@[i].bindings@.len() == spec_field_count(vs@[i].fields) && arms@[i].fields@
                == spec_fields(k, vs@[i].fields, true)),
{
}

/// Builds the access of one field.
fn field_access(derive_type: DeriveType, is_enum: bool, place: Place) -> (r: FieldAccess)
    ensures
        r == spec_field_access(derive_type, is_enum, place),
{
    if is_enum {
        FieldAccess::Bound(place)
    } else {
        match derive_type {
            DeriveType::ShallowClone => FieldAccess::Ref(place),
            DeriveType::MakeOwned => FieldAccess::Val(place),
        }
    }
}

/// Synthesizes the field initializers of one field list: one per field, each
/// wrapping the field's access in a recursive transformation of the same kind.
pub fn gen_fields(derive_type: DeriveType, fields: &FieldList, is_enum: bool) -> (r: Vec<FieldInit>)
    ensures
        r@ == spec_fields(derive_type, *fields, is_enum),
{
    let mut r: Vec<FieldInit> = Vec::new();
    match fields {
        FieldList::Named(fs) => {
            let mut i: usize = 0;
            while i < fs.len()
                invariant
                    i <= fs@.len(),
                    r@.len() == i,
                    forall|j: int|
                        0 <= j < i ==> r@[j] == spec_fields(
                            derive_type,
                            FieldList::Named(*fs),
                            is_enum,
                        )[j],
                decreases fs@.len() - i,
            {
                let access = field_access(
                    derive_type,
                    is_enum,
                    Place::Named(clone_string(&fs[i].name)),
                );
                r.push(FieldInit { name: Some(clone_string(&fs[i].name)), access });
                i = i + 1;
            }
            proof {
                assert(r@ =~= spec_fields(derive_type, *fields, is_enum));
            }
        },
        FieldList::Positional(ts) => {
            let mut i: usize = 0;
            while i < ts.len()
                invariant
                    i <= ts@.len(),
                    r@.len() == i,
                    forall|j: int|
                        0 <= j < i ==> r@[j] == spec_fields(
                            derive_type,
                            FieldList::Positional(*ts),
                            is_enum,
                        )[j],
                decreases ts@.len() - i,
            {
                let access = field_access(derive_type, is_enum, Place::Indexed(i));
                r.push(FieldInit { name: None, access });
                i = i + 1;
            }
            proof {
                assert(r@ =~= spec_fields(derive_type, *fields, is_enum));
            }
        },
        FieldList::Unit => {
            proof {
                assert(r@ =~= spec_fields(derive_type, *fields, is_enum));
            }
        },
    }
    r
}

/// The reconstruction syntax of a field list.
fn style_of(fields: &FieldList) -> (r: BodyStyle)
    ensures
        r == spec_style(*fields),
{
    match fields {
        FieldList::Named(_) => BodyStyle::Named,
        FieldList::Positional(_) => BodyStyle::Positional,
        FieldList::Unit => BodyStyle::Unit,
    }
}

/// The bindings of one reconstruction arm: every field of the list, in order.
fn gen_bindings(fields: &FieldList) -> (r: Vec<Place>)
    ensures
        r@ == spec_bindings(*fields),
{
    let mut r: Vec<Place> = Vec::new();
    match fields {
        FieldList::Named(fs) => {
            let mut i: usize = 0;
            while i < fs.len()
                invariant
                    i <= fs@.len(),
                    r@.len() == i,
                    forall|j: int| 0 <= j < i ==> r@[j] == spec_bindings(FieldList::Named(*fs))[j],
                decreases fs@.len() - i,
            {
                r.push(Place::Named(clone_string(&fs[i].name)));
                i = i + 1;
            }
            proof {
                assert(r@ =~= spec_bindings(*fields));
            }
        },
        FieldList::Positional(ts) => {
            let mut i: usize = 0;
            while i < ts.len()
                invariant
                    i <= ts@.len(),
                    r@.len() == i,
                    forall|j: int|
                        0 <= j < i ==> r@[j] == spec_bindings(FieldList::Positional(*ts))[j],
                decreases ts@.len() - i,
            {
                r.push(Place::Indexed(i));
                i = i + 1;
            }
            proof {
                assert(r@ =~= spec_bindings(*fields));
            }
        },
        FieldList::Unit => {
            proof {
                assert(r@ =~= spec_bindings(*fields));
            }
        },
    }
    r
}

/// Synthesizes the body of the generated implementation: a reconstruction of
/// the struct, or an exhaustive match with one reconstruction arm per variant
/// in declaration order. A raw union is not representable by either
/// transformation kind and aborts synthesis.
pub fn gen_impl(derive_type: DeriveType, input: &TypeDeclaration) -> (r: Result<Body, Fatal>)
    ensures
        !(input.shape is Union) ==> (r matches Ok(b) && body_matches(derive_type, *input, b)),
        input.shape is Union ==> r == Err::<Body, Fatal>(Fatal::UnsupportedShape),
{
    match &input.shape {
        Shape::Struct(fl) => Ok(
            Body::Struct {
                name: clone_string(&input.name),
                style: style_of(fl),
                fields: gen_fields(derive_type, fl, false),
            },
        ),
        Shape::Enum(vs) => {
            let mut arms: Vec<Arm> = Vec::new();
            let mut i: usize = 0;
            while i < vs.len()
                invariant
                    i <= vs@.len(),
                    arms@.len() == i,
                    forall|j: int| 0 <= j < i ==> arm_matches(derive_type, vs@[j], arms@[j]),
                decreases vs@.len() - i,
            {
                let v = &vs[i];
                arms.push(
                    Arm {
                        variant: clone_string(&v.name),
                        style: style_of(&v.fields),
                        bindings: gen_bindings(&v.fields),
                        fields: gen_fields(derive_type, &v.fields, true),
                    },
                );
                i = i + 1;
            }
            Ok(Body::Match { name: clone_string(&input.name), arms })
        },
        Shape::Union => Err(Fatal::UnsupportedShape),
    }
}

} // verus!
