//! The structured form of a type declaration that the code-generation core
//! consumes: generic parameters with their attached markers, the shape of the
//! body (struct fields or enum variants), and the diagnostics that resolution
//! and synthesis can attach to a declaration.

use vstd::prelude::*;

verus! {

/// The two transformation kinds the generator synthesizes code for. Every
/// decision point in the resolver, the target-type synthesizer, the body
/// transformer and the bound assembler branches on this tag.
#[derive(Clone, Copy, Debug, PartialEq, Eq, Structural)]
pub enum DeriveType {
    ShallowClone,
    MakeOwned,
}

/// The argument carried by a marker attached to a generic parameter: a single
/// bare word, or anything else (which no marker form recognizes).
#[derive(Clone, Debug, PartialEq, Eq)]
pub enum MarkerArg {
    Word(String),
    Unparsed,
}

/// One marker attached to a generic parameter, such as the opt-out marker
/// written as the kind's root tag with the argument `skip`.
#[derive(Clone, Debug, PartialEq, Eq)]
pub struct Marker {
    pub tag: String,
    pub arg: MarkerArg,
}

/// A declared lifetime parameter: its name (without the leading apostrophe),
/// its outlived-lifetime bounds, and its markers.
#[derive(Clone, Debug, PartialEq, Eq)]
pub struct LifetimeParam {
    pub name: String,
    pub bounds: Vec<String>,
    pub markers: Vec<Marker>,
}

/// A declared type parameter: its name, its capability bounds (kept verbatim),
/// and its markers.
#[derive(Clone, Debug, PartialEq, Eq)]
pub struct TypeParam {
    pub name: String,
    pub bounds: Vec<String>,
    pub markers: Vec<Marker>,
}

/// A declared const parameter: its name, the text of its value type, and its
/// markers.
#[derive(Clone, Debug, PartialEq, Eq)]
pub struct ConstParam {
    pub name: String,
    pub ty: String,
    pub markers: Vec<Marker>,
}

/// One generic parameter of the original declaration.
#[derive(Clone, Debug, PartialEq, Eq)]
pub enum GenericParam {
    Lifetime(LifetimeParam),
    Type(TypeParam),
    Const(ConstParam),
}

/// A named field: its name and the text of its type.
#[derive(Clone, Debug, PartialEq, Eq)]
pub struct NamedField {
    pub name: String,
    pub ty: String,
}

/// The field list of a struct or of one enum variant.
#[derive(Clone, Debug, PartialEq, Eq)]
pub enum FieldList {
    Named(Vec<NamedField>),
    Positional(Vec<String>),
    Unit,
}

/// One variant of an enum declaration.
#[derive(Clone, Debug, PartialEq, Eq)]
pub struct Variant {
    pub name: String,
    pub fields: FieldList,
}

/// The body shape of the declaration. A raw union is carried so that the
/// generator can reject it; neither transformation kind can represent one.
#[derive(Clone, Debug, PartialEq, Eq)]
pub enum Shape {
    Struct(FieldList),
    Enum(Vec<Variant>),
    Union,
}

/// A fully parsed type declaration, as the front end hands it to the core:
/// the type's name, its ordered generic parameters, the verbatim constraints
/// of its trailing `where` clause, and its shape.
#[derive(Clone, Debug, PartialEq, Eq)]
pub struct TypeDeclaration {
    pub name: String,
    pub generics: Vec<GenericParam>,
    pub where_bounds: Vec<String>,
    pub shape: Shape,
}

/// A reported, non-fatal diagnostic, attached to the offending declaration
/// element: the named parameter and the position of the offending marker in
/// its marker list.
#[derive(Clone, Debug, PartialEq, Eq)]
pub enum Diagnostic {
    UnknownAttribute { param: String, marker: usize },
}

/// A fatal condition: the declaration is invalid and code generation for it
/// aborts, producing no unit.
#[derive(Clone, Debug, PartialEq, Eq)]
pub enum Fatal {
    MarkerOnConstParam { param: String },
    UnsupportedShape,
}

impl GenericParam {
    /// The declared name of the parameter.
    pub open spec fn spec_name(self) -> String {
        match self {
            GenericParam::Lifetime(p) => p.name,
            GenericParam::Type(p) => p.name,
            GenericParam::Const(p) => p.name,
        }
    }

    /// The markers attached to the parameter.
    pub open spec fn spec_markers(self) -> Seq<Marker> {
        match self {
            GenericParam::Lifetime(p) => p.markers@,
            GenericParam::Type(p) => p.markers@,
            GenericParam::Const(p) => p.markers@,
        }
    }
}

/// Clones a string; the copy equals the original.
pub fn clone_string(s: &String) -> (r: String)
    ensures
        r == *s,
{
    s.clone()
}

/// Clones a list of strings; the copy's contents equal the original's.
pub fn clone_strings(v: &Vec<String>) -> (r: Vec<String>)
    ensures
        r@ == v@,
{
    let mut r: Vec<String> = Vec::new();
    let mut i: usize = 0;
    while i < v.len()
        invariant
            i <= v.len(),
            r@ == v@.take(i as int),
        decreases v.len() - i,
    {
        r.push(clone_string(&v[i]));
        i = i + 1;
        proof {
            assert(r@ =~= v@.take(i as int));
        }
    }
    proof {
        assert(v@.take(v@.len() as int) =~= v@);
    }
    r
}

} // verus!
