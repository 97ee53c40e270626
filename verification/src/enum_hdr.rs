//! Declaration-surface emitter: renders the class declaration of one lowered
//! sum-type declaration — the discriminant enumeration, the raw-union storage
//! with one member per payload-carrying variant, and the full method surface
//! that the definition emitter implements. Both emitters iterate the variants
//! in declaration order and derive every name from the same lowering
//! functions.

use vstd::prelude::*;

use crate::decl::{wf_spec_item, Fields, ItemEnum, SpecFields, SpecItemEnum, SpecVariant, Variant};
use crate::enum_impl::{spec_ctor_params_upto, spec_ns_close_upto, spec_ns_open_upto, write_ctor_params};
use crate::error::{Error, SpecError};
use crate::lower::{
    class_name, member_name, spec_has_payload, spec_member_name, spec_payload_type, spec_tag_name,
    tag_name,
};
use crate::names::pascal_of;
use crate::types::{fields_to_cpp_type, res_view};

verus! {

/// Banner, include block and pragma of the declaration surface.
pub open spec fn spec_hdr_banner() -> Seq<char> {
    "// THIS FILE IS GENERATED AND MANAGED BY cppust-gen, DO NOT CHANGE\n\n#pragma once\n\n#include <cassert>\n#include <cstdint>\n#include <stdexcept>\n#include <string>\n#include <tuple>\n#include <vector>\n\n"@
}

/// Class opening and discriminant enumeration, up to the entries of the first
/// `i` variants: one entry per variant, in declaration order.
pub open spec fn spec_hdr_tags_upto(item: SpecItemEnum, i: int) -> Seq<char>
    decreases i,
{
    if i <= 0 {
        "class "@ + pascal_of(item.ident) + " {\npublic:\n    enum class _Tag {\n"@
    } else {
        spec_hdr_tags_upto(item, i - 1) + "        "@ + spec_tag_name(item.variants[i - 1])
            + ",\n"@
    }
}

/// Signatures of the special members: constructors, destructor and operators.
pub open spec fn spec_hdr_fixed_methods(class: Seq<char>) -> Seq<char> {
    "    };\n\n    // public constructors\n    "@ + class + "(const "@ + class
        + "& rhs); // copy constructor\n    "@ + class + "("@ + class
        + "&& rhs); // move constructor\n    ~"@ + class
        + "();\n\n    // operators\n    "@ + class + "& operator=(const "@ + class
        + "& rhs);\n    "@ + class + "& operator=("@ + class
        + "&& rhs);\n    bool operator==(const "@ + class
        + "& rhs) const;\n    bool operator!=(const "@ + class
        + "& rhs) const;\n\n    // enum constructors\n"@
}

/// Labelled-constructor signature of one variant: zero-argument for a variant
/// without payload, one const-reference parameter per field otherwise;
/// record-style fields are rejected.
pub open spec fn spec_hdr_ctor_sig(class: Seq<char>, v: SpecVariant) -> Result<
    Seq<char>,
    SpecError,
> {
    if !spec_has_payload(v) {
        Ok("    static "@ + class + " "@ + spec_tag_name(v) + "();\n"@)
    } else {
        match v.fields {
            SpecFields::Unnamed(tys) => match spec_ctor_params_upto(tys, tys.len() as int) {
                Err(e) => Err(e),
                Ok(ps) => Ok(
                    "    static "@ + class + " "@ + spec_tag_name(v) + "("@ + ps + ");\n"@,
                ),
            },
            _ => Err(SpecError::UnknownFieldsType(v.fields)),
        }
    }
}

/// Labelled-constructor signatures up to the first `i` variants.
pub open spec fn spec_hdr_ctor_sigs_upto(item: SpecItemEnum, i: int) -> Result<
    Seq<char>,
    SpecError,
>
    decreases i,
{
    if i <= 0 {
        Ok(
            spec_hdr_tags_upto(item, item.variants.len() as int) + spec_hdr_fixed_methods(
                pascal_of(item.ident),
            ),
        )
    } else {
        match spec_hdr_ctor_sigs_upto(item, i - 1) {
            Err(e) => Err(e),
            Ok(t) => match spec_hdr_ctor_sig(pascal_of(item.ident), item.variants[i - 1]) {
                Err(e) => Err(e),
                Ok(b) => Ok(t + b),
            },
        }
    }
}

/// Accessor signatures of one variant: the tag predicate for every variant,
/// and for a payload-carrying variant the unchecked references, checked
/// references and nullable pointers.
pub open spec fn spec_hdr_acc_block(v: SpecVariant) -> Result<Seq<char>, SpecError> {
    let isb = "    bool is_"@ + spec_member_name(v) + "() const;\n"@;
    if !spec_has_payload(v) {
        Ok(isb)
    } else {
        match spec_payload_type(v) {
            Err(e) => Err(e),
            Ok(vt) => Ok(
                isb + "    const "@ + vt + "& "@ + spec_member_name(v)
                    + "_ref_uncheck() const;\n    "@ + vt + "& "@ + spec_member_name(v)
                    + "_ref_uncheck();\n    const "@ + vt + "& "@ + spec_member_name(v)
                    + "_ref() const;\n    "@ + vt + "& "@ + spec_member_name(v)
                    + "_ref();\n    const "@ + vt + "* "@ + spec_member_name(v)
                    + "_ptr() const;\n    "@ + vt + "* "@ + spec_member_name(v) + "_ptr();\n"@,
            ),
        }
    }
}

/// Accessor signatures up to the first `i` variants.
pub open spec fn spec_hdr_acc_upto(item: SpecItemEnum, i: int) -> Result<Seq<char>, SpecError>
    decreases i,
{
    if i <= 0 {
        match spec_hdr_ctor_sigs_upto(item, item.variants.len() as int) {
            Err(e) => Err(e),
            Ok(t) => Ok(t + "\n    // accessors\n"@),
        }
    } else {
        match spec_hdr_acc_upto(item, i - 1) {
            Err(e) => Err(e),
            Ok(t) => match spec_hdr_acc_block(item.variants[i - 1]) {
                Err(e) => Err(e),
                Ok(b) => Ok(t + b),
            },
        }
    }
}

/// Raw-union storage members up to the first `i` variants: one member per
/// payload-carrying variant, named by its rendered member name suffixed to
/// mark the raw payload slot; a variant without payload contributes none.
pub open spec fn spec_hdr_union_upto(item: SpecItemEnum, i: int) -> Result<Seq<char>, SpecError>
    decreases i,
{
    if i <= 0 {
        match spec_hdr_acc_upto(item, item.variants.len() as int) {
            Err(e) => Err(e),
            Ok(t) => Ok(
                t + "\nprivate:\n    union _Union {\n        _Union() { }\n        ~_Union() { }\n"@,
            ),
        }
    } else if !spec_has_payload(item.variants[i - 1]) {
        spec_hdr_union_upto(item, i - 1)
    } else {
        match spec_hdr_union_upto(item, i - 1) {
            Err(e) => Err(e),
            Ok(t) => match spec_payload_type(item.variants[i - 1]) {
                Err(e) => Err(e),
                Ok(vt) => Ok(
                    t + "        "@ + vt + " "@ + spec_member_name(item.variants[i - 1])
                        + "_val;\n"@,
                ),
            },
        }
    }
}

/// Closing of the class: the private tagged constructors, the two dispatch
/// methods, the explicit destroyer, and the tag and storage fields.
pub open spec fn spec_hdr_tail(class: Seq<char>) -> Seq<char> {
    "    };\n\n    "@ + class + "(_Tag tag);\n    "@ + class
        + "(_Tag tag, const _Union& union_val);\n    "@ + class
        + "(_Tag tag, _Union&& union_val);\n\n    void tagged_init_(_Tag tag, const _Union& union_val);\n    void tagged_init_(_Tag tag, _Union&& union_val);\n    void deinit_union_();\n\n    _Tag tag_;\n    _Union union_;\n};\n"@
}

/// The whole declaration surface of one declaration, or the first failure.
pub open spec fn spec_hdr_text(item: SpecItemEnum, ns: Seq<Seq<char>>) -> Result<
    Seq<char>,
    SpecError,
> {
    match spec_hdr_union_upto(item, item.variants.len() as int) {
        Err(e) => Err(e),
        Ok(t) => {
            let head = if ns.len() > 0 {
                spec_ns_open_upto(spec_hdr_banner(), ns, ns.len() as int) + "\n\n"@
            } else {
                spec_hdr_banner()
            };
            let whole = head + (t + spec_hdr_tail(pascal_of(item.ident)));
            if ns.len() > 0 {
                Ok(spec_ns_close_upto(whole + "\n"@, ns, ns.len() as int) + "\n"@)
            } else {
                Ok(whole)
            }
        },
    }
}

proof fn lemma_hdr_ctor_sigs_err(item: SpecItemEnum, j: int, k: int)
    requires
        0 <= j <= k,
        spec_hdr_ctor_sigs_upto(item, j) is Err,
    ensures
        spec_hdr_ctor_sigs_upto(item, k) == spec_hdr_ctor_sigs_upto(item, j),
    decreases k - j,
{
    if k > j {
        lemma_hdr_ctor_sigs_err(item, j, k - 1);
    }
}

proof fn lemma_hdr_acc_err(item: SpecItemEnum, j: int, k: int)
    requires
        0 <= j <= k,
        spec_hdr_acc_upto(item, j) is Err,
    ensures
        spec_hdr_acc_upto(item, k) == spec_hdr_acc_upto(item, j),
    decreases k - j,
{
    if k > j {
        lemma_hdr_acc_err(item, j, k - 1);
    }
}

proof fn lemma_hdr_union_err(item: SpecItemEnum, j: int, k: int)
    requires
        0 <= j <= k,
        spec_hdr_union_upto(item, j) is Err,
    ensures
        spec_hdr_union_upto(item, k) == spec_hdr_union_upto(item, j),
    decreases k - j,
{
    if k > j {
        lemma_hdr_union_err(item, j, k - 1);
    }
}

fn write_hdr_ctor_sig(class: &String, v: &Variant) -> (r: Result<String, Error>)
    ensures
        res_view(r) == spec_hdr_ctor_sig(class@, v.deep_view()),
{
    let t = tag_name(v);
    match &v.fields {
        Fields::Unit => {
            let mut w = String::from_str("    static ");
            w.append(class.as_str());
            w.append(" ");
            w.append(t.as_str());
            w.append("();\n");
            Ok(w)
        },
        Fields::Named => Err(Error::UnknownFieldsType(Fields::Named)),
        Fields::Unnamed(tys) => {
            proof {
                crate::decl::lemma_types_dv(tys@);
            }
            match write_ctor_params(tys) {
                Err(e) => Err(e),
                Ok(ps) => {
                    let mut w = String::from_str("    static ");
                    w.append(class.as_str());
                    w.append(" ");
                    w.append(t.as_str());
                    w.append("(");
                    w.append(ps.as_str());
                    w.append(");\n");
                    Ok(w)
                },
            }
        },
    }
}

fn write_hdr_acc_block(v: &Variant) -> (r: Result<String, Error>)
    ensures
        res_view(r) == spec_hdr_acc_block(v.deep_view()),
{
    let m = member_name(v);
    let mut w = String::from_str("    bool is_");
    w.append(m.as_str());
    w.append("() const;\n");
    match &v.fields {
        Fields::Unit => Ok(w),
        _ => {
            match fields_to_cpp_type(&v.fields) {
                Err(e) => Err(e),
                Ok(vt) => {
                    let vts = vt.as_str();
                    let ms = m.as_str();
                    w.append("    const ");
                    w.append(vts);
                    w.append("& ");
                    w.append(ms);
                    w.append("_ref_uncheck() const;\n    ");
                    w.append(vts);
                    w.append("& ");
                    w.append(ms);
                    w.append("_ref_uncheck();\n    const ");
                    w.append(vts);
                    w.append("& ");
                    w.append(ms);
                    w.append("_ref() const;\n    ");
                    w.append(vts);
                    w.append("& ");
                    w.append(ms);
                    w.append("_ref();\n    const ");
                    w.append(vts);
                    w.append("* ");
                    w.append(ms);
                    w.append("_ptr() const;\n    ");
                    w.append(vts);
                    w.append("* ");
                    w.append(ms);
                    w.append("_ptr();\n");
                    Ok(w)
                },
            }
        },
    }
}

/// Renders the declaration surface of one declaration into the given
/// namespace: the discriminant enumeration with one entry per variant in
/// declaration order, the full method surface, and the raw-union storage with
/// one member per payload-carrying variant. Any failure aborts the whole
/// declaration with no partial artifact.
#[verifier::rlimit(100)]
pub fn write(item: &ItemEnum, namespace: &Vec<String>) -> (r: Result<String, Error>)
    requires
        wf_spec_item(item.deep_view()),
    ensures
        res_view(r) == spec_hdr_text(item.deep_view(), namespace.deep_view()),
{
    let class = class_name(item);
    let c = class.as_str();
    let n = item.variants.len();

    // The class body: discriminant enumeration first.
    let mut body = String::from_str("class ");
    body.append(c);
    body.append(" {\npublic:\n    enum class _Tag {\n");
    let mut i: usize = 0;
    while i < n
        invariant
            n == item.variants@.len(),
            0 <= i <= n,
            class@ == pascal_of(item.deep_view().ident),
            body@ == spec_hdr_tags_upto(item.deep_view(), i as int),
        decreases n - i,
    {
        let v = &item.variants[i];
        proof {
            assert(v.deep_view() == item.deep_view().variants[i as int]);
        }
        let t = tag_name(v);
        body.append("        ");
        body.append(t.as_str());
        body.append(",\n");
        i = i + 1;
    }

    body.append("    };\n\n    // public constructors\n    ");
    body.append(c);
    body.append("(const ");
    body.append(c);
    body.append("& rhs); // copy constructor\n    ");
    body.append(c);
    body.append("(");
    body.append(c);
    body.append("&& rhs); // move constructor\n    ~");
    body.append(c);
    body.append("();\n\n    // operators\n    ");
    body.append(c);
    body.append("& operator=(const ");
    body.append(c);
    body.append("& rhs);\n    ");
    body.append(c);
    body.append("& operator=(");
    body.append(c);
    body.append("&& rhs);\n    bool operator==(const ");
    body.append(c);
    body.append("& rhs) const;\n    bool operator!=(const ");
    body.append(c);
    body.append("& rhs) const;\n\n    // enum constructors\n");
    proof {
        assert(body@ =~= spec_hdr_tags_upto(item.deep_view(), item.variants@.len() as int)
            + spec_hdr_fixed_methods(class@));
        assert(spec_hdr_ctor_sigs_upto(item.deep_view(), 0) == Ok::<Seq<char>, SpecError>(body@));
    }

    let mut i: usize = 0;
    while i < n
        invariant
            n == item.variants@.len(),
            0 <= i <= n,
            class@ == pascal_of(item.deep_view().ident),
            spec_hdr_ctor_sigs_upto(item.deep_view(), i as int) == Ok::<Seq<char>, SpecError>(
                body@,
            ),
        decreases n - i,
    {
        let v = &item.variants[i];
        proof {
            assert(v.deep_view() == item.deep_view().variants[i as int]);
        }
        match write_hdr_ctor_sig(&class, v) {
            Err(e) => {
                proof {
                    lemma_hdr_ctor_sigs_err(item.deep_view(), i + 1, item.variants@.len() as int);
                    lemma_hdr_acc_err(item.deep_view(), 0, item.variants@.len() as int);
                    lemma_hdr_union_err(item.deep_view(), 0, item.variants@.len() as int);
                }
                return Err(e);
            },
            Ok(b) => {
                body.append(b.as_str());
            },
        }
        i = i + 1;
    }

    body.append("\n    // accessors\n");
    proof {
        assert(spec_hdr_acc_upto(item.deep_view(), 0) == Ok::<Seq<char>, SpecError>(body@));
    }
    let mut i: usize = 0;
    while i < n
        invariant
            n == item.variants@.len(),
            0 <= i <= n,
            class@ == pascal_of(item.deep_view().ident),
            spec_hdr_acc_upto(item.deep_view(), i as int) == Ok::<Seq<char>, SpecError>(body@),
        decreases n - i,
    {
        let v = &item.variants[i];
        proof {
            assert(v.deep_view() == item.deep_view().variants[i as int]);
        }
        match write_hdr_acc_block(v) {
            Err(e) => {
                proof {
                    lemma_hdr_acc_err(item.deep_view(), i + 1, item.variants@.len() as int);
                    lemma_hdr_union_err(item.deep_view(), 0, item.variants@.len() as int);
                }
                return Err(e);
            },
            Ok(b) => {
                body.append(b.as_str());
            },
        }
        i = i + 1;
    }

    body.append("\nprivate:\n    union _Union {\n        _Union() { }\n        ~_Union() { }\n");
    proof {
        assert(spec_hdr_union_upto(item.deep_view(), 0) == Ok::<Seq<char>, SpecError>(body@));
    }
    let mut i: usize = 0;
    while i < n
        invariant
            n == item.variants@.len(),
            0 <= i <= n,
            class@ == pascal_of(item.deep_view().ident),
            spec_hdr_union_upto(item.deep_view(), i as int) == Ok::<Seq<char>, SpecError>(body@),
        decreases n - i,
    {
        let v = &item.variants[i];
        proof {
            assert(v.deep_view() == item.deep_view().variants[i as int]);
        }
        match &v.fields {
            Fields::Unit => {},
            _ => {
                match fields_to_cpp_type(&v.fields) {
                    Err(e) => {
                        proof {
                            lemma_hdr_union_err(
                                item.deep_view(),
                                i + 1,
                                item.variants@.len() as int,
                            );
                        }
                        return Err(e);
                    },
                    Ok(vt) => {
                        let m = member_name(v);
                        body.append("        ");
                        body.append(vt.as_str());
                        body.append(" ");
                        body.append(m.as_str());
                        body.append("_val;\n");
                    },
                }
            },
        }
        i = i + 1;
    }

    let ghost t_members = body@;
    body.append("    };\n\n    ");
    body.append(c);
    body.append("(_Tag tag);\n    ");
    body.append(c);
    body.append("(_Tag tag, const _Union& union_val);\n    ");
    body.append(c);
    body.append("(_Tag tag, _Union&& union_val);\n\n    void tagged_init_(_Tag tag, const _Union& union_val);\n    void tagged_init_(_Tag tag, _Union&& union_val);\n    void deinit_union_();\n\n    _Tag tag_;\n    _Union union_;\n};\n");
    proof {
        assert(body@ =~= t_members + spec_hdr_tail(class@));
    }

    // The surrounding file: banner, namespace opening, class body, closing.
    let nn = namespace.len();
    proof {
        assert(namespace.deep_view().len() == namespace@.len());
    }
    let mut w = String::from_str(
        "// THIS FILE IS GENERATED AND MANAGED BY cppust-gen, DO NOT CHANGE\n\n#pragma once\n\n#include <cassert>\n#include <cstdint>\n#include <stdexcept>\n#include <string>\n#include <tuple>\n#include <vector>\n\n",
    );
    proof {
        assert(w@ == spec_hdr_banner());
    }
    if nn > 0 {
        let mut j: usize = 0;
        while j < nn
            invariant
                nn == namespace@.len(),
                0 <= j <= nn,
                namespace.deep_view().len() == namespace@.len(),
                w@ == spec_ns_open_upto(spec_hdr_banner(), namespace.deep_view(), j as int),
            decreases nn - j,
        {
            proof {
                assert(namespace@[j as int]@ == namespace.deep_view()[j as int]);
            }
            if j == 0 {
                w.append("namespace ");
            } else {
                w.append(" namespace ");
            }
            w.append(namespace[j].as_str());
            w.append(" {");
            j = j + 1;
        }
        w.append("\n\n");
    }
    w.append(body.as_str());

    if nn > 0 {
        w.append("\n");
        let ghost whole_nl = w@;
        let mut j: usize = 0;
        while j < nn
            invariant
                nn == namespace@.len(),
                0 <= j <= nn,
                w@ == spec_ns_close_upto(whole_nl, namespace.deep_view(), j as int),
            decreases nn - j,
        {
            if j == 0 {
                w.append("}");
            } else {
                w.append(" }");
            }
            j = j + 1;
        }
        w.append("\n");
    }
    Ok(w)
}

} // verus!
