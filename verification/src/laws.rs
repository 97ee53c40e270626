//! Laws of the lowering: properties of the emitted artifacts that hold for
//! every declaration, proved over the same specification functions the
//! emitters are verified against.

use vstd::prelude::*;

use crate::decl::{SpecFields, SpecItemEnum, SpecType, SpecVariant};
use crate::enum_hdr::{spec_hdr_tags_upto, spec_hdr_union_upto};
use crate::enum_impl::{
    spec_accessor_block, spec_ctor_params_upto, spec_enum_ctor_block, spec_priv_deinit_upto,
};
use crate::error::SpecError;
use crate::lower::{
    spec_dec, spec_discriminants, spec_member_name, spec_payload_type, spec_tag_name,
};
use crate::types::spec_type_cpp;

verus! {

/// For every declaration, the discriminant enumeration has exactly one entry
/// per declared variant, in declaration order; the declaration surface
/// renders entry `i` as exactly this name, and the definition surface's
/// dispatch arms name their tags through the same rendering of the same
/// variant sequence, so the two independently emitted artifacts cannot
/// disagree on discriminant identity or order.
pub proof fn lemma_discriminant_agreement(item: SpecItemEnum, i: int)
    requires
        0 <= i < item.variants.len(),
    ensures
        spec_discriminants(item).len() == item.variants.len(),
        spec_discriminants(item)[i] == spec_tag_name(item.variants[i]),
        spec_hdr_tags_upto(item, i + 1) == spec_hdr_tags_upto(item, i) + "        "@
            + spec_discriminants(item)[i] + ",\n"@,
{
}

/// For a variant declared without any payload, the declaration surface emits
/// no storage member for it, the definition surface emits no destroy-dispatch
/// arm for it, its accessor group is the tag predicate alone, and its
/// labelled constructor takes no parameters.
pub proof fn lemma_empty_variant_lowering(class: Seq<char>, item: SpecItemEnum, i: int)
    requires
        0 <= i < item.variants.len(),
        item.variants[i].fields is Unit,
    ensures
        spec_hdr_union_upto(item, i + 1) == spec_hdr_union_upto(item, i),
        spec_priv_deinit_upto(item, i + 1) == spec_priv_deinit_upto(item, i),
        spec_accessor_block(class, item.variants[i]) == Ok::<Seq<char>, SpecError>(
            "bool "@ + class + "::is_"@ + spec_member_name(item.variants[i])
                + "() const {\n    return tag_ == _Tag::"@ + spec_tag_name(item.variants[i])
                + ";\n}\n"@ + "\n"@,
        ),
        spec_enum_ctor_block(class, item.variants[i]) == Ok::<Seq<char>, SpecError>(
            class + " "@ + class + "::"@ + spec_tag_name(item.variants[i]) + "() {\n    return "@
                + class + "(_Tag::"@ + spec_tag_name(item.variants[i]) + ");\n}\n"@ + "\n"@,
        ),
{
}

/// For a variant whose payload is exactly two positional fields, the payload
/// type string is a two-element heterogeneous aggregate of the two mapped
/// types, in declared order, and the labelled constructor takes exactly two
/// const-reference parameters in that same order.
pub proof fn lemma_pair_payload(v: SpecVariant, a: SpecType, b: SpecType, ta: Seq<char>, tb: Seq<char>)
    requires
        v.fields == SpecFields::Unnamed(seq![a, b]),
        spec_type_cpp(a) == Ok::<Seq<char>, SpecError>(ta),
        spec_type_cpp(b) == Ok::<Seq<char>, SpecError>(tb),
    ensures
        spec_payload_type(v) == Ok::<Seq<char>, SpecError>(
            "std::tuple<"@ + (ta + ", "@ + tb) + ">"@,
        ),
        spec_ctor_params_upto(seq![a, b], 2) == Ok::<Seq<char>, SpecError>(
            "const "@ + ta + "& v0, const "@ + tb + "& v1"@,
        ),
{
    let tys = seq![a, b];
    assert(tys.len() == 2);
    assert(tys[0] == a);
    assert(tys[1] == b);
    assert(crate::types::spec_types_joined(tys, 1) == Ok::<Seq<char>, SpecError>(tb));
    assert(crate::types::spec_types_joined(tys, 0) == Ok::<Seq<char>, SpecError>(
        ta + ", "@ + tb,
    ));
    assert(spec_payload_type(v) == Ok::<Seq<char>, SpecError>(
        "std::tuple<"@ + (ta + ", "@ + tb) + ">"@,
    ));

    assert(spec_ctor_params_upto(tys, 0) == Ok::<Seq<char>, SpecError>(Seq::<char>::empty()));
    assert(spec_ctor_params_upto(tys, 1) == Ok::<Seq<char>, SpecError>(
        Seq::<char>::empty() + "const "@ + ta + "& v"@ + spec_dec(0),
    ));
    assert(spec_ctor_params_upto(tys, 2) == Ok::<Seq<char>, SpecError>(
        (Seq::<char>::empty() + "const "@ + ta + "& v"@ + spec_dec(0)) + ", "@ + "const "@ + tb
            + "& v"@ + spec_dec(1),
    ));
    assert(spec_dec(0) =~= seq!['0']);
    assert(spec_dec(1) =~= seq!['1']);
    reveal_strlit("const ");
    reveal_strlit("& v0, const ");
    reveal_strlit("& v1");
    reveal_strlit("& v");
    reveal_strlit(", ");
    assert((Seq::<char>::empty() + "const "@ + ta + "& v"@ + spec_dec(0)) + ", "@ + "const "@ + tb
        + "& v"@ + spec_dec(1) =~= "const "@ + ta + "& v0, const "@ + tb + "& v1"@);
}

} // verus!
