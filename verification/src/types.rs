//! Type mapper: renders a field type into its target-language type name and
//! into the explicit-destructor spelling needed to release such a value when
//! it is embedded in a raw union.

use vstd::prelude::*;

use crate::decl::{
    fields_dv, lemma_segs_dv, lemma_types_dv, seg_dv, segs_dv, type_dv, types_dv, wf_spec_fields,
    wf_spec_type, Fields, PathArguments, PathSegment, SpecFields, SpecPathArguments,
    SpecPathSegment, SpecType, Type,
};
use crate::error::{Error, SpecError};
use crate::names::{pascal_of, IdentName};

verus! {

/// Relies on str's PartialEq: two string slices are equal exactly when their
/// character sequences are equal.
#[verifier::external_body]
fn str_eq(a: &str, b: &str) -> (r: bool)
    ensures
        r == (a@ == b@),
{
    a == b
}

/// View of a mapper result: the rendered text, or the error, at the
/// mathematical level.
pub open spec fn res_view(r: Result<String, Error>) -> Result<Seq<char>, SpecError> {
    match r {
        Ok(s) => Ok(s@),
        Err(e) => Err(e.deep_view()),
    }
}

/// The fixed-width numeric source types that render as namespaced aliases.
pub open spec fn spec_prefixed_primitive(id: Seq<char>) -> bool {
    ||| id == "u8"@
    ||| id == "u16"@
    ||| id == "u32"@
    ||| id == "u64"@
    ||| id == "i8"@
    ||| id == "i16"@
    ||| id == "i32"@
    ||| id == "i64"@
    ||| id == "f32"@
    ||| id == "f64"@
    ||| id == "usize"@
    ||| id == "isize"@
}

/// Target type name of one path-segment identifier: the growable sequence and
/// the text string map to the target's canonical types, fixed-width numerics
/// to a namespaced alias of the same name, and any other identifier to its
/// PascalCase rendering.
pub open spec fn spec_mapped_type_ident(id: Seq<char>) -> Seq<char> {
    if id == "Vec"@ {
        "std::vector"@
    } else if id == "String"@ {
        "std::string"@
    } else if spec_prefixed_primitive(id) {
        "::cppust::"@ + id
    } else {
        pascal_of(id)
    }
}

/// Destructor spelling of one path-segment identifier, matching the type-name
/// mapping.
pub open spec fn spec_mapped_dtor_ident(id: Seq<char>) -> Seq<char> {
    if id == "Vec"@ {
        "~vector"@
    } else if id == "String"@ {
        "~string"@
    } else if spec_prefixed_primitive(id) {
        "~"@ + id
    } else {
        "~"@ + pascal_of(id)
    }
}

/// Target rendering of a field type: the rendering of its path, or the
/// unrepresentable-type error.
pub open spec fn spec_type_cpp(t: SpecType) -> Result<Seq<char>, SpecError>
    decreases t, 2int,
{
    match t {
        SpecType::Path(segs) => spec_segs_cpp(segs, 0),
        SpecType::Unsupported(_) => Err(SpecError::UnknownType(t)),
    }
}

/// Target rendering of the path segments from position `i` on, joined with the
/// target's scope separator; the first failing segment fails the whole path.
pub open spec fn spec_segs_cpp(segs: Seq<SpecPathSegment>, i: int) -> Result<Seq<char>, SpecError>
    decreases segs, 1int, segs.len() - i,
{
    if i < 0 || i >= segs.len() {
        Ok(Seq::empty())
    } else if i == segs.len() - 1 {
        spec_seg_cpp(segs[i])
    } else {
        match spec_seg_cpp(segs[i]) {
            Err(e) => Err(e),
            Ok(s) => match spec_segs_cpp(segs, i + 1) {
                Err(e) => Err(e),
                Ok(r) => Ok(s + "::"@ + r),
            },
        }
    }
}

/// Target rendering of one path segment: its mapped identifier, with its
/// bracketed type arguments rendered recursively as the target's parametric
/// type syntax; any other argument shape is rejected.
pub open spec fn spec_seg_cpp(seg: SpecPathSegment) -> Result<Seq<char>, SpecError>
    decreases seg, 2int,
{
    match seg.arguments {
        SpecPathArguments::Empty => Ok(spec_mapped_type_ident(seg.ident)),
        SpecPathArguments::AngleBracketed(args) => match spec_types_joined(args, 0) {
            Err(e) => Err(e),
            Ok(a) => Ok(spec_mapped_type_ident(seg.ident) + "<"@ + a + ">"@),
        },
        SpecPathArguments::Unsupported => Err(SpecError::InvalidTypePathSegment(seg)),
    }
}

/// Target renderings of the field types from position `i` on, joined with a
/// comma; the first failing type fails the whole list.
pub open spec fn spec_types_joined(tys: Seq<SpecType>, i: int) -> Result<Seq<char>, SpecError>
    decreases tys, 3int, tys.len() - i,
{
    if i < 0 || i >= tys.len() {
        Ok(Seq::empty())
    } else if i == tys.len() - 1 {
        spec_type_cpp(tys[i])
    } else {
        match spec_type_cpp(tys[i]) {
            Err(e) => Err(e),
            Ok(s) => match spec_types_joined(tys, i + 1) {
                Err(e) => Err(e),
                Ok(r) => Ok(s + ", "@ + r),
            },
        }
    }
}

/// Payload type string of a variant's payload shape: the void-equivalent for
/// an empty payload, the mapped type for a single field, and a fixed-arity
/// tuple of the mapped types, in declared order, for several fields;
/// record-style fields are rejected.
pub open spec fn spec_fields_cpp(f: SpecFields) -> Result<Seq<char>, SpecError> {
    match f {
        SpecFields::Unit => Ok("void"@),
        SpecFields::Named => Err(SpecError::UnknownFieldsType(f)),
        SpecFields::Unnamed(tys) => {
            if tys.len() == 0 {
                Ok("void"@)
            } else if tys.len() == 1 {
                spec_type_cpp(tys[0])
            } else {
                match spec_types_joined(tys, 0) {
                    Err(e) => Err(e),
                    Ok(s) => Ok("std::tuple<"@ + s + ">"@),
                }
            }
        },
    }
}

/// Destructor spelling of a field type: only the outermost path segment is
/// inspected, because the aggregate's own destructor releases its elements.
pub open spec fn spec_type_dtor(t: SpecType) -> Result<Seq<char>, SpecError> {
    match t {
        SpecType::Path(segs) => Ok(spec_mapped_dtor_ident(segs.last().ident)),
        SpecType::Unsupported(_) => Err(SpecError::UnknownType(t)),
    }
}

/// Destructor spelling of a variant's payload shape: a single field uses its
/// own type's destructor, several fields use the tuple aggregate's; an empty
/// or record-style payload has no destructor to spell.
pub open spec fn spec_fields_dtor(f: SpecFields) -> Result<Seq<char>, SpecError> {
    match f {
        SpecFields::Unit => Err(SpecError::UnknownFieldsType(f)),
        SpecFields::Named => Err(SpecError::UnknownFieldsType(f)),
        SpecFields::Unnamed(tys) => {
            if tys.len() == 0 {
                Err(SpecError::UnknownFieldsType(f))
            } else if tys.len() == 1 {
                spec_type_dtor(tys[0])
            } else {
                Ok("~tuple"@)
            }
        },
    }
}

// ---------------------------------------------------------------------------
// Deep copies, used to carry the offending element inside an error.
// ---------------------------------------------------------------------------

fn clone_type(t: &Type) -> (r: Type)
    ensures
        type_dv(r) == type_dv(*t),
    decreases *t, 2int,
{
    match t {
        Type::Path(segs) => Type::Path(clone_segments(segs)),
        Type::Unsupported(d) => Type::Unsupported(d.clone()),
    }
}

fn clone_segments(segs: &Vec<PathSegment>) -> (r: Vec<PathSegment>)
    ensures
        segs_dv(r@) == segs_dv(segs@),
    decreases *segs, 1int,
{
    let mut out: Vec<PathSegment> = Vec::new();
    let n = segs.len();
    let mut i: usize = 0;
    while i < n
        invariant
            n == segs@.len(),
            0 <= i <= n,
            out@.len() == i,
            forall|j: int| 0 <= j < i ==> seg_dv(#[trigger] out@[j]) == seg_dv(segs@[j]),
        decreases n - i,
    {
        let seg = clone_segment(&segs[i]);
        out.push(seg);
        i = i + 1;
    }
    proof {
        lemma_segs_dv(out@);
        lemma_segs_dv(segs@);
        assert forall|j: int| 0 <= j < n implies segs_dv(out@)[j] == segs_dv(segs@)[j] by {
            assert(seg_dv(out@[j]) == seg_dv(segs@[j]));
        }
        assert(segs_dv(out@) =~= segs_dv(segs@));
    }
    out
}

fn clone_segment(seg: &PathSegment) -> (r: PathSegment)
    ensures
        seg_dv(r) == seg_dv(*seg),
    decreases *seg, 3int,
{
    let arguments = match &seg.arguments {
        PathArguments::Empty => PathArguments::Empty,
        PathArguments::AngleBracketed(args) => PathArguments::AngleBracketed(clone_types(args)),
        PathArguments::Unsupported => PathArguments::Unsupported,
    };
    PathSegment { ident: seg.ident.clone(), arguments }
}

fn clone_types(tys: &Vec<Type>) -> (r: Vec<Type>)
    ensures
        types_dv(r@) == types_dv(tys@),
    decreases *tys, 3int,
{
    let mut out: Vec<Type> = Vec::new();
    let n = tys.len();
    let mut i: usize = 0;
    while i < n
        invariant
            n == tys@.len(),
            0 <= i <= n,
            out@.len() == i,
            forall|j: int| 0 <= j < i ==> type_dv(#[trigger] out@[j]) == type_dv(tys@[j]),
        decreases n - i,
    {
        let ty = clone_type(&tys[i]);
        out.push(ty);
        i = i + 1;
    }
    proof {
        lemma_types_dv(out@);
        lemma_types_dv(tys@);
        assert forall|j: int| 0 <= j < n implies types_dv(out@)[j] == types_dv(tys@)[j] by {
            assert(type_dv(out@[j]) == type_dv(tys@[j]));
        }
        assert(types_dv(out@) =~= types_dv(tys@));
    }
    out
}

fn clone_fields(f: &Fields) -> (r: Fields)
    ensures
        fields_dv(r) == fields_dv(*f),
{
    match f {
        Fields::Unit => Fields::Unit,
        Fields::Named => Fields::Named,
        Fields::Unnamed(tys) => Fields::Unnamed(clone_types(tys)),
    }
}

// ---------------------------------------------------------------------------
// Executable mapper.
// ---------------------------------------------------------------------------

/// Maps one path-segment identifier to its target type name.
fn mapped_type_ident(ident: &str) -> (r: String)
    ensures
        r@ == spec_mapped_type_ident(ident@),
{
    if str_eq(ident, "Vec") {
        String::from_str("std::vector")
    } else if str_eq(ident, "String") {
        String::from_str("std::string")
    } else if is_prefixed_primitive(ident) {
        let mut r = String::from_str("::cppust::");
        r.append(ident);
        r
    } else {
        IdentName::from(ident).to_class_name()
    }
}

/// Maps one path-segment identifier to its destructor spelling.
fn mapped_dtor_ident(ident: &str) -> (r: String)
    ensures
        r@ == spec_mapped_dtor_ident(ident@),
{
    if str_eq(ident, "Vec") {
        String::from_str("~vector")
    } else if str_eq(ident, "String") {
        String::from_str("~string")
    } else if is_prefixed_primitive(ident) {
        let mut r = String::from_str("~");
        r.append(ident);
        r
    } else {
        let mut r = String::from_str("~");
        let cls = IdentName::from(ident).to_class_name();
        r.append(cls.as_str());
        r
    }
}

fn is_prefixed_primitive(ident: &str) -> (r: bool)
    ensures
        r == spec_prefixed_primitive(ident@),
{
    str_eq(ident, "u8") || str_eq(ident, "u16") || str_eq(ident, "u32") || str_eq(ident, "u64")
        || str_eq(ident, "i8") || str_eq(ident, "i16") || str_eq(ident, "i32") || str_eq(
        ident,
        "i64",
    ) || str_eq(ident, "f32") || str_eq(ident, "f64") || str_eq(ident, "usize") || str_eq(
        ident,
        "isize",
    )
}

/// Renders a field type into its target type name; fails when the type is not
/// expressible as a named path.
pub fn type_to_cpp_type(ty: &Type) -> (r: Result<String, Error>)
    ensures
        res_view(r) == spec_type_cpp(type_dv(*ty)),
    decreases *ty, 2int,
{
    match ty {
        Type::Path(segs) => type_path_to_cpp_type(segs),
        Type::Unsupported(_) => Err(Error::UnknownType(clone_type(ty))),
    }
}

/// Renders a whole type path: the segments joined with the scope separator.
fn type_path_to_cpp_type(segs: &Vec<PathSegment>) -> (r: Result<String, Error>)
    ensures
        res_view(r) == spec_segs_cpp(segs_dv(segs@), 0),
    decreases *segs, 1int, segs@.len() + 1,
{
    path_segments_to_cpp_type_from(segs, 0)
}

fn path_segments_to_cpp_type_from(segs: &Vec<PathSegment>, i: usize) -> (r: Result<String, Error>)
    requires
        i <= segs@.len(),
    ensures
        res_view(r) == spec_segs_cpp(segs_dv(segs@), i as int),
    decreases *segs, 1int, segs@.len() - i,
{
    proof {
        lemma_segs_dv(segs@);
    }
    let n = segs.len();
    if i >= n {
        Ok(String::new())
    } else if i == n - 1 {
        path_segment_to_cpp_type(&segs[i])
    } else {
        match path_segment_to_cpp_type(&segs[i]) {
            Err(e) => Err(e),
            Ok(s) => match path_segments_to_cpp_type_from(segs, i + 1) {
                Err(e) => Err(e),
                Ok(r) => {
                    let mut out = s;
                    out.append("::");
                    out.append(r.as_str());
                    proof {
                        reveal_strlit("::");
                    }
                    Ok(out)
                },
            },
        }
    }
}

/// Renders one path segment: its mapped identifier plus its rendered type
/// arguments, if any.
fn path_segment_to_cpp_type(seg: &PathSegment) -> (r: Result<String, Error>)
    ensures
        res_view(r) == spec_seg_cpp(seg_dv(*seg)),
    decreases *seg, 2int,
{
    match &seg.arguments {
        PathArguments::Empty => Ok(mapped_type_ident(seg.ident.as_str())),
        PathArguments::AngleBracketed(args) => match types_joined_from(args, 0) {
            Err(e) => Err(e),
            Ok(a) => {
                let mut out = mapped_type_ident(seg.ident.as_str());
                out.append("<");
                out.append(a.as_str());
                out.append(">");
                proof {
                    reveal_strlit("<");
                    reveal_strlit(">");
                }
                Ok(out)
            },
        },
        PathArguments::Unsupported => Err(Error::InvalidTypePathSegment(clone_segment(seg))),
    }
}

fn types_joined_from(tys: &Vec<Type>, i: usize) -> (r: Result<String, Error>)
    requires
        i <= tys@.len(),
    ensures
        res_view(r) == spec_types_joined(types_dv(tys@), i as int),
    decreases *tys, 3int, tys@.len() - i,
{
    proof {
        lemma_types_dv(tys@);
    }
    let n = tys.len();
    if i >= n {
        Ok(String::new())
    } else if i == n - 1 {
        type_to_cpp_type(&tys[i])
    } else {
        match type_to_cpp_type(&tys[i]) {
            Err(e) => Err(e),
            Ok(s) => match types_joined_from(tys, i + 1) {
                Err(e) => Err(e),
                Ok(r) => {
                    let mut out = s;
                    out.append(", ");
                    out.append(r.as_str());
                    proof {
                        reveal_strlit(", ");
                    }
                    Ok(out)
                },
            },
        }
    }
}

/// Renders a variant's payload into its payload type string: `void` for an
/// empty payload, the single field's type, or a tuple of the field types in
/// declared order; record-style fields are rejected.
pub fn fields_to_cpp_type(ty: &Fields) -> (r: Result<String, Error>)
    ensures
        res_view(r) == spec_fields_cpp(fields_dv(*ty)),
{
    match ty {
        Fields::Unit => Ok(String::from_str("void")),
        Fields::Named => Err(Error::UnknownFieldsType(clone_fields(ty))),
        Fields::Unnamed(_) => unnamed_to_cpp_type(ty),
    }
}

fn unnamed_to_cpp_type(whole: &Fields) -> (r: Result<String, Error>)
    requires
        whole is Unnamed,
    ensures
        res_view(r) == spec_fields_cpp(fields_dv(*whole)),
{
    match whole {
        Fields::Unnamed(tys) => {
            proof {
                lemma_types_dv(tys@);
            }
            let n = tys.len();
            if n == 0 {
                Ok(String::from_str("void"))
            } else if n == 1 {
                type_to_cpp_type(&tys[0])
            } else {
                match types_joined_from(tys, 0) {
                    Err(e) => Err(e),
                    Ok(s) => {
                        let mut out = String::from_str("std::tuple<");
                        out.append(s.as_str());
                        out.append(">");
                        proof {
                            reveal_strlit(">");
                        }
                        Ok(out)
                    },
                }
            }
        },
        _ => {
            proof {
                assert(false);
            }
            Err(Error::UnknownFieldsType(clone_fields(whole)))
        },
    }
}

/// Renders a field type into its destructor spelling; only the outermost path
/// segment decides it.
pub fn type_to_cpp_dtor(ty: &Type) -> (r: Result<String, Error>)
    requires
        wf_spec_type(type_dv(*ty)),
    ensures
        res_view(r) == spec_type_dtor(type_dv(*ty)),
{
    match ty {
        Type::Path(segs) => {
            proof {
                lemma_segs_dv(segs@);
            }
            type_path_to_cpp_dtor(segs)
        },
        Type::Unsupported(_) => Err(Error::UnknownType(clone_type(ty))),
    }
}

fn type_path_to_cpp_dtor(segs: &Vec<PathSegment>) -> (r: Result<String, Error>)
    requires
        segs@.len() >= 1,
    ensures
        r is Ok,
        res_view(r) == Ok::<Seq<char>, SpecError>(
            spec_mapped_dtor_ident(segs_dv(segs@).last().ident),
        ),
{
    proof {
        lemma_segs_dv(segs@);
    }
    let last = &segs[segs.len() - 1];
    Ok(mapped_dtor_ident(last.ident.as_str()))
}

/// Renders a variant's payload into its destructor spelling: the single
/// field's own destructor, or the tuple aggregate's for several fields; an
/// empty or record-style payload has none.
pub fn fields_to_cpp_dtor(ty: &Fields) -> (r: Result<String, Error>)
    requires
        wf_spec_fields(fields_dv(*ty)),
    ensures
        res_view(r) == spec_fields_dtor(fields_dv(*ty)),
{
    match ty {
        Fields::Unit => Err(Error::UnknownFieldsType(clone_fields(ty))),
        Fields::Named => Err(Error::UnknownFieldsType(clone_fields(ty))),
        Fields::Unnamed(_) => unnamed_to_cpp_dtor(ty),
    }
}

fn unnamed_to_cpp_dtor(whole: &Fields) -> (r: Result<String, Error>)
    requires
        whole is Unnamed,
        wf_spec_fields(fields_dv(*whole)),
    ensures
        res_view(r) == spec_fields_dtor(fields_dv(*whole)),
{
    match whole {
        Fields::Unnamed(tys) => {
            proof {
                lemma_types_dv(tys@);
            }
            let n = tys.len();
            if n == 0 {
                Err(Error::UnknownFieldsType(clone_fields(whole)))
            } else if n == 1 {
                proof {
                    assert(wf_spec_type(types_dv(tys@)[0]));
                }
                type_to_cpp_dtor(&tys[0])
            } else {
                Ok(String::from_str("~tuple"))
            }
        },
        _ => {
            proof {
                assert(false);
            }
            Err(Error::UnknownFieldsType(clone_fields(whole)))
        },
    }
}

} // verus!
