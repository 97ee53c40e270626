//! The declaration model: a sum-type declaration as the external parser hands
//! it over, with named variants and positional field lists. Field types are
//! named paths of segments, each segment possibly carrying bracketed type
//! arguments.

use vstd::prelude::*;

verus! {

/// Mathematical model of a field type.
pub enum SpecType {
    /// A named path, e.g. a dotted type reference with optional bracketed
    /// arguments on its segments.
    Path(Seq<SpecPathSegment>),
    /// A type that is not expressible as a named path (a reference, an inline
    /// tuple, a function type), kept only for error reporting.
    Unsupported(Seq<char>),
}

/// Mathematical model of one path segment.
pub struct SpecPathSegment {
    pub ident: Seq<char>,
    pub arguments: SpecPathArguments,
}

/// Mathematical model of a segment's argument list.
pub enum SpecPathArguments {
    Empty,
    AngleBracketed(Seq<SpecType>),
    Unsupported,
}

/// Mathematical model of a variant's payload shape.
pub enum SpecFields {
    Unit,
    Named,
    Unnamed(Seq<SpecType>),
}

/// Mathematical model of one declared variant.
pub struct SpecVariant {
    pub ident: Seq<char>,
    pub fields: SpecFields,
}

/// Mathematical model of a whole sum-type declaration.
pub struct SpecItemEnum {
    pub ident: Seq<char>,
    pub variants: Seq<SpecVariant>,
}

/// A field type: a named path, or an unsupported shape kept for error
/// reporting.
#[derive(Debug)]
pub enum Type {
    Path(Vec<PathSegment>),
    Unsupported(String),
}

/// One segment of a type path: an identifier with optional bracketed type
/// arguments.
#[derive(Debug)]
pub struct PathSegment {
    pub ident: String,
    pub arguments: PathArguments,
}

/// The argument list of a path segment. `Unsupported` stands for an argument
/// shape other than bracketed type arguments (e.g. parenthesized arguments).
#[derive(Debug)]
pub enum PathArguments {
    Empty,
    AngleBracketed(Vec<Type>),
    Unsupported,
}

/// The payload shape of a variant: no payload, named (record-style) fields,
/// or positional fields.
#[derive(Debug)]
pub enum Fields {
    Unit,
    Named,
    Unnamed(Vec<Type>),
}

/// One declared variant: its name and its payload shape.
#[derive(Debug)]
pub struct Variant {
    pub ident: String,
    pub fields: Fields,
}

/// A sum-type declaration: its name and its variants, in declaration order.
#[derive(Debug)]
pub struct ItemEnum {
    pub ident: String,
    pub variants: Vec<Variant>,
}

/// Mathematical view of a field type.
pub open spec fn type_dv(t: Type) -> SpecType
    decreases t, 1int,
{
    match t {
        Type::Path(segs) => SpecType::Path(segs_dv(segs@)),
        Type::Unsupported(d) => SpecType::Unsupported(d@),
    }
}

/// Mathematical view of a sequence of path segments, elementwise.
pub open spec fn segs_dv(segs: Seq<PathSegment>) -> Seq<SpecPathSegment>
    decreases segs, 0int, segs.len(),
{
    if segs.len() == 0 {
        Seq::empty()
    } else {
        segs_dv(segs.drop_last()).push(seg_dv(segs.last()))
    }
}

/// Mathematical view of one path segment.
pub open spec fn seg_dv(seg: PathSegment) -> SpecPathSegment
    decreases seg, 1int,
{
    SpecPathSegment { ident: seg.ident@, arguments: args_dv(seg.arguments) }
}

/// Mathematical view of a segment's argument list.
pub open spec fn args_dv(a: PathArguments) -> SpecPathArguments
    decreases a, 1int,
{
    match a {
        PathArguments::Empty => SpecPathArguments::Empty,
        PathArguments::AngleBracketed(args) => SpecPathArguments::AngleBracketed(types_dv(args@)),
        PathArguments::Unsupported => SpecPathArguments::Unsupported,
    }
}

/// Mathematical view of a sequence of field types, elementwise.
pub open spec fn types_dv(tys: Seq<Type>) -> Seq<SpecType>
    decreases tys, 0int, tys.len(),
{
    if tys.len() == 0 {
        Seq::empty()
    } else {
        types_dv(tys.drop_last()).push(type_dv(tys.last()))
    }
}

/// The view of a segment sequence is elementwise.
pub proof fn lemma_segs_dv(segs: Seq<PathSegment>)
    ensures
        segs_dv(segs).len() == segs.len(),
        forall|i: int| 0 <= i < segs.len() ==> segs_dv(segs)[i] == seg_dv(#[trigger] segs[i]),
    decreases segs.len(),
{
    if segs.len() > 0 {
        lemma_segs_dv(segs.drop_last());
        assert forall|i: int| 0 <= i < segs.len() implies segs_dv(segs)[i] == seg_dv(
            #[trigger] segs[i],
        ) by {
            if i < segs.len() - 1 {
                assert(segs.drop_last()[i] == segs[i]);
                assert(segs_dv(segs)[i] == segs_dv(segs.drop_last())[i]);
            } else {
                assert(segs[i] == segs.last());
            }
        }
    }
}

/// The view of a field-type sequence is elementwise.
pub proof fn lemma_types_dv(tys: Seq<Type>)
    ensures
        types_dv(tys).len() == tys.len(),
        forall|i: int| 0 <= i < tys.len() ==> types_dv(tys)[i] == type_dv(#[trigger] tys[i]),
    decreases tys.len(),
{
    if tys.len() > 0 {
        lemma_types_dv(tys.drop_last());
        assert forall|i: int| 0 <= i < tys.len() implies types_dv(tys)[i] == type_dv(
            #[trigger] tys[i],
        ) by {
            if i < tys.len() - 1 {
                assert(tys.drop_last()[i] == tys[i]);
                assert(types_dv(tys)[i] == types_dv(tys.drop_last())[i]);
            } else {
                assert(tys[i] == tys.last());
            }
        }
    }
}

/// Mathematical view of a payload shape.
pub open spec fn fields_dv(f: Fields) -> SpecFields {
    match f {
        Fields::Unit => SpecFields::Unit,
        Fields::Named => SpecFields::Named,
        Fields::Unnamed(tys) => SpecFields::Unnamed(types_dv(tys@)),
    }
}

impl DeepView for Variant {
    type V = SpecVariant;

    open spec fn deep_view(&self) -> SpecVariant {
        SpecVariant { ident: self.ident@, fields: fields_dv(self.fields) }
    }
}

impl DeepView for ItemEnum {
    type V = SpecItemEnum;

    open spec fn deep_view(&self) -> SpecItemEnum {
        SpecItemEnum { ident: self.ident@, variants: self.variants.deep_view() }
    }
}

/// Validity of a field type: every path, outer or nested, has at least one
/// segment, as the external parser guarantees of a named path.
pub open spec fn wf_spec_type(t: SpecType) -> bool
    decreases t,
{
    match t {
        SpecType::Path(segs) => segs.len() >= 1 && forall|i: int|
            0 <= i < segs.len() ==> wf_spec_args(#[trigger] segs[i].arguments),
        SpecType::Unsupported(_) => true,
    }
}

/// Validity of a segment's argument list.
pub open spec fn wf_spec_args(a: SpecPathArguments) -> bool
    decreases a,
{
    match a {
        SpecPathArguments::AngleBracketed(args) => forall|i: int|
            0 <= i < args.len() ==> wf_spec_type(#[trigger] args[i]),
        _ => true,
    }
}

/// Validity of a payload shape: every positional field type is valid.
pub open spec fn wf_spec_fields(f: SpecFields) -> bool {
    match f {
        SpecFields::Unnamed(tys) => forall|i: int|
            0 <= i < tys.len() ==> wf_spec_type(#[trigger] tys[i]),
        _ => true,
    }
}

/// Validity of a whole declaration: every variant's payload is valid.
pub open spec fn wf_spec_item(item: SpecItemEnum) -> bool {
    forall|i: int| 0 <= i < item.variants.len() ==> wf_spec_fields(#[trigger] item.variants[i].fields)
}

} // verus!
