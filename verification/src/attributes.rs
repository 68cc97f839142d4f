//! Marker resolution: deciding, per transformation kind, which generic
//! parameters are opted out, while accumulating a diagnostic for every
//! malformed marker instead of stopping at the first.

use vstd::prelude::*;
use crate::decl::{
    clone_string, DeriveType, Diagnostic, Fatal, GenericParam, Marker, MarkerArg, TypeDeclaration,
};

verus! {

/// The root tag that the given transformation kind recognizes on a marker;
/// the two kinds use two distinct tags and never recognize each other's.
pub open spec fn spec_root_tag(k: DeriveType) -> Seq<char> {
    match k {
        DeriveType::ShallowClone => "shallowclone"@,
        DeriveType::MakeOwned => "makeowned"@,
    }
}

/// Whether a marker carries the root tag of the given kind.
pub open spec fn marker_matches(k: DeriveType, m: Marker) -> bool {
    m.tag@ == spec_root_tag(k)
}

/// Whether a marker's argument is the one recognized opt-out word.
pub open spec fn marker_is_skip(m: Marker) -> bool {
    m.arg matches MarkerArg::Word(w) && w@ == "skip"@
}

/// Scanning a marker list from position `i`: does a marker with the kind's
/// root tag and the opt-out argument occur?
pub open spec fn spec_scan_skip(k: DeriveType, ms: Seq<Marker>, i: int) -> bool
    decreases ms.len() - i,
{
    if i < 0 || i >= ms.len() {
        false
    } else if marker_matches(k, ms[i]) && marker_is_skip(ms[i]) {
        true
    } else {
        spec_scan_skip(k, ms, i + 1)
    }
}

/// The diagnostics the scan reports from position `i` on: one per marker that
/// carries the kind's root tag but not the opt-out argument, stopping at the
/// first marker that is a recognized opt-out.
pub open spec fn spec_scan_diags(k: DeriveType, param: String, ms: Seq<Marker>, i: int) -> Seq<
    Diagnostic,
>
    decreases ms.len() - i,
{
    if i < 0 || i >= ms.len() {
        Seq::empty()
    } else if marker_matches(k, ms[i]) {
        if marker_is_skip(ms[i]) {
            Seq::empty()
        } else {
            seq![Diagnostic::UnknownAttribute { param: param, marker: i as usize }]
                + spec_scan_diags(k, param, ms, i + 1)
        }
    } else {
        spec_scan_diags(k, param, ms, i + 1)
    }
}

/// Whether any marker from position `i` on carries the kind's root tag at all.
pub open spec fn spec_has_match(k: DeriveType, ms: Seq<Marker>, i: int) -> bool
    decreases ms.len() - i,
{
    if i < 0 || i >= ms.len() {
        false
    } else {
        marker_matches(k, ms[i]) || spec_has_match(k, ms, i + 1)
    }
}

/// Whether the parameter is opted out of the given transformation kind.
/// Const parameters are never opted out.
pub open spec fn spec_skipped(k: DeriveType, p: GenericParam) -> bool {
    match p {
        GenericParam::Lifetime(lp) => spec_scan_skip(k, lp.markers@, 0),
        GenericParam::Type(tp) => spec_scan_skip(k, tp.markers@, 0),
        GenericParam::Const(_) => false,
    }
}

/// Whether resolving the parameter is fatal: a const parameter carrying a
/// marker with the kind's root tag.
pub open spec fn spec_param_fatal(k: DeriveType, p: GenericParam) -> bool {
    p matches GenericParam::Const(cp) && spec_has_match(k, cp.markers@, 0)
}

/// The diagnostics that resolving the parameter reports.
pub open spec fn spec_param_diags(k: DeriveType, p: GenericParam) -> Seq<Diagnostic> {
    match p {
        GenericParam::Lifetime(lp) => spec_scan_diags(k, lp.name, lp.markers@, 0),
        GenericParam::Type(tp) => spec_scan_diags(k, tp.name, tp.markers@, 0),
        GenericParam::Const(_) => Seq::empty(),
    }
}

/// The root tag of the kind, as a string.
fn root_tag(derive_type: DeriveType) -> (r: String)
    ensures
        r@ == spec_root_tag(derive_type),
{
    match derive_type {
        DeriveType::ShallowClone => "shallowclone".to_owned(),
        DeriveType::MakeOwned => "makeowned".to_owned(),
    }
}

/// Walks the marker list from `i`, reporting one diagnostic per malformed
/// marker with the kind's tag, and answers whether a recognized opt-out
/// marker occurs.
fn scan_markers(
    derive_type: DeriveType,
    param: &String,
    markers: &Vec<Marker>,
    i: usize,
    diags: &mut Vec<Diagnostic>,
) -> (r: bool)
    requires
        i <= markers@.len(),
    ensures
        r == spec_scan_skip(derive_type, markers@, i as int),
        final(diags)@ == old(diags)@ + spec_scan_diags(derive_type, *param, markers@, i as int),
    decreases markers@.len() - i,
{
    if i == markers.len() {
        proof {
            assert(diags@ =~= diags@ + spec_scan_diags(derive_type, *param, markers@, i as int));
        }
        return false;
    }
    let m = &markers[i];
    let tag = root_tag(derive_type);
    if m.tag == tag {
        let is_skip = match &m.arg {
            MarkerArg::Word(w) => *w == "skip".to_owned(),
            MarkerArg::Unparsed => false,
        };
        if is_skip {
            proof {
                assert(diags@ =~= diags@ + spec_scan_diags(
                    derive_type,
                    *param,
                    markers@,
                    i as int,
                ));
            }
            true
        } else {
            let ghost pre = diags@;
            diags.push(Diagnostic::UnknownAttribute { param: clone_string(param), marker: i });
            let r = scan_markers(derive_type, param, markers, i + 1, diags);
            proof {
                assert(diags@ =~= pre + spec_scan_diags(derive_type, *param, markers@, i as int));
            }
            r
        }
    } else {
        scan_markers(derive_type, param, markers, i + 1, diags)
    }
}

/// Whether any marker from `i` on carries the kind's root tag.
fn has_matching_marker(derive_type: DeriveType, markers: &Vec<Marker>, i: usize) -> (r: bool)
    requires
        i <= markers@.len(),
    ensures
        r == spec_has_match(derive_type, markers@, i as int),
    decreases markers@.len() - i,
{
    if i == markers.len() {
        false
    } else {
        let tag = root_tag(derive_type);
        if markers[i].tag == tag {
            true
        } else {
            has_matching_marker(derive_type, markers, i + 1)
        }
    }
}

/// Decides whether one generic parameter is opted out of the given
/// transformation kind, reporting a diagnostic for every malformed marker and
/// failing on a const parameter that carries the kind's marker at all.
pub fn is_generic_skipped(
    derive_type: DeriveType,
    input: &GenericParam,
    diags: &mut Vec<Diagnostic>,
) -> (r: Result<bool, Fatal>)
    ensures
        !spec_param_fatal(derive_type, *input) ==> r == Ok::<bool, Fatal>(
            spec_skipped(derive_type, *input),
        ) && final(diags)@ == old(diags)@ + spec_param_diags(derive_type, *input),
        spec_param_fatal(derive_type, *input) ==> r == Err::<bool, Fatal>(
            Fatal::MarkerOnConstParam { param: input.spec_name() },
        ) && final(diags)@ == old(diags)@,
{
    match input {
        GenericParam::Lifetime(lp) => Ok(scan_markers(derive_type, &lp.name, &lp.markers, 0, diags)),
        GenericParam::Type(tp) => Ok(scan_markers(derive_type, &tp.name, &tp.markers, 0, diags)),
        GenericParam::Const(cp) => {
            if has_matching_marker(derive_type, &cp.markers, 0) {
                Err(Fatal::MarkerOnConstParam { param: clone_string(&cp.name) })
            } else {
                Ok(false)
            }
        },
    }
}

/// The diagnostics reported by resolving the first `i` parameters, in order.
pub open spec fn spec_all_diags_to(k: DeriveType, ps: Seq<GenericParam>, i: int) -> Seq<Diagnostic>
    decreases i,
{
    if i <= 0 {
        Seq::empty()
    } else {
        spec_all_diags_to(k, ps, i - 1) + spec_param_diags(k, ps[i - 1])
    }
}

/// No parameter among the first `i` is fatal to resolve.
pub open spec fn spec_no_fatal_to(k: DeriveType, ps: Seq<GenericParam>, i: int) -> bool {
    forall|j: int| 0 <= j < i ==> !spec_param_fatal(k, ps[j])
}

/// Resolves the whole exclusion set of a declaration for one transformation
/// kind: one flag per generic parameter, in declaration order, together with
/// every diagnostic of every parameter. Fails at the first const parameter
/// that carries the kind's marker, keeping the diagnostics reported so far.
pub fn resolve_exclusions(
    derive_type: DeriveType,
    decl: &TypeDeclaration,
    diags: &mut Vec<Diagnostic>,
) -> (r: Result<Vec<bool>, Fatal>)
    ensures
        spec_no_fatal_to(derive_type, decl.generics@, decl.generics@.len() as int) ==> (r matches Ok(
            v,
        ) && v@.len() == decl.generics@.len() && (forall|i: int|
            0 <= i < v@.len() ==> v@[i] == spec_skipped(derive_type, decl.generics@[i]))
            && final(diags)@ == old(diags)@ + spec_all_diags_to(
            derive_type,
            decl.generics@,
            decl.generics@.len() as int,
        )),
        !spec_no_fatal_to(derive_type, decl.generics@, decl.generics@.len() as int) ==> (r matches Err(
            e,
        ) && exists|i: int|
            0 <= i < decl.generics@.len() && spec_param_fatal(derive_type, decl.generics@[i])
                && spec_no_fatal_to(derive_type, decl.generics@, i) && e
                == Fatal::MarkerOnConstParam { param: decl.generics@[i].spec_name() } && final(diags)@
                == old(diags)@ + spec_all_diags_to(derive_type, decl.generics@, i)),
{
    let mut v: Vec<bool> = Vec::new();
    let mut i: usize = 0;
    while i < decl.generics.len()
        invariant
            i <= decl.generics@.len(),
            v@.len() == i,
            forall|j: int| 0 <= j < i ==> v@[j] == spec_skipped(derive_type, decl.generics@[j]),
            spec_no_fatal_to(derive_type, decl.generics@, i as int),
            diags@ == old(diags)@ + spec_all_diags_to(derive_type, decl.generics@, i as int),
        decreases decl.generics@.len() - i,
    {
        match is_generic_skipped(derive_type, &decl.generics[i], diags) {
            Ok(b) => {
                v.push(b);
            },
            Err(e) => {
                return Err(e);
            },
        }
        i = i + 1;
    }
    Ok(v)
}

} // verus!
