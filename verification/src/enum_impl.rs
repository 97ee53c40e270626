//! Definition-surface emitter: renders the method bodies of one lowered
//! sum-type declaration, matching every signature the declaration surface
//! declares, with every lifetime transition of the raw storage cell spelled
//! out.

use vstd::prelude::*;

use crate::decl::{
    lemma_types_dv, types_dv, wf_spec_item, Fields, ItemEnum, SpecFields, SpecItemEnum,
    SpecType, SpecVariant, Type, Variant,
};
use crate::error::{Error, SpecError};
use crate::lower::{
    class_name, dec_str, member_name, spec_dec, spec_has_payload, spec_member_name,
    spec_payload_dtor, spec_payload_type, spec_tag_name, tag_name,
};
use crate::names::{pascal_of, snake_of, IdentName};
use crate::types::{
    fields_to_cpp_dtor, fields_to_cpp_type, res_view, spec_type_cpp, type_to_cpp_type,
};

verus! {

/// True when `prefix` is an initial piece of `s`.
pub open spec fn begins_with(s: Seq<char>, prefix: Seq<char>) -> bool {
    prefix.len() <= s.len() && s.take(prefix.len() as int) == prefix
}

// ---------------------------------------------------------------------------
// Constructors and destructor: fixed texts over the class name.
// ---------------------------------------------------------------------------

/// Text of the copy/move constructors and the private tagged constructors.
pub open spec fn spec_impl_ctors(class: Seq<char>) -> Seq<char> {
    "// public constructors\n"@ + class + "::"@ + class + "(const "@ + class + "& rhs): "@ + class
        + "(rhs.tag_, rhs.union_) { } // copy constructor\n"@ + class + "::"@ + class + "("@
        + class + "&& rhs): "@ + class
        + "(rhs.tag_, std::move(rhs.union_)) { } // move constructor\n"@
        + "\n// private constructors\n"@ + class + "::"@ + class + "(_Tag tag): tag_(tag) { }\n\n"@
        + class + "::"@ + class
        + "(_Tag tag, const _Union& union_val): tag_(tag) {\n    tagged_init_(tag, union_val);\n}\n\n"@
        + class + "::"@ + class
        + "(_Tag tag, _Union&& union_val): tag_(tag) {\n    tagged_init_(tag, std::move(union_val));\n}\n\n"@
}

/// Renders the constructors: the public copy and move constructors and the
/// private tagged constructors that placement-construct the storage.
fn write_ctors(item: &ItemEnum) -> (r: String)
    ensures
        r@ == spec_impl_ctors(pascal_of(item.deep_view().ident)),
{
    let class = class_name(item);
    let c = class.as_str();
    let mut w = String::from_str("// public constructors\n");
    w.append(c);
    w.append("::");
    w.append(c);
    w.append("(const ");
    w.append(c);
    w.append("& rhs): ");
    w.append(c);
    w.append("(rhs.tag_, rhs.union_) { } // copy constructor\n");
    w.append(c);
    w.append("::");
    w.append(c);
    w.append("(");
    w.append(c);
    w.append("&& rhs): ");
    w.append(c);
    w.append("(rhs.tag_, std::move(rhs.union_)) { } // move constructor\n");
    w.append("\n// private constructors\n");
    w.append(c);
    w.append("::");
    w.append(c);
    w.append("(_Tag tag): tag_(tag) { }\n\n");
    w.append(c);
    w.append("::");
    w.append(c);
    w.append("(_Tag tag, const _Union& union_val): tag_(tag) {\n    tagged_init_(tag, union_val);\n}\n\n");
    w.append(c);
    w.append("::");
    w.append(c);
    w.append("(_Tag tag, _Union&& union_val): tag_(tag) {\n    tagged_init_(tag, std::move(union_val));\n}\n\n");
    w
}

/// Text of the destructor: it releases whatever payload is live.
pub open spec fn spec_impl_dtors(class: Seq<char>) -> Seq<char> {
    "// destructor\n"@ + class + "::~"@ + class + "() {\n    deinit_union_();\n}\n"@
}

/// Renders the destructor.
fn write_dtors(item: &ItemEnum) -> (r: String)
    ensures
        r@ == spec_impl_dtors(pascal_of(item.deep_view().ident)),
{
    let class = class_name(item);
    let c = class.as_str();
    let mut w = String::from_str("// destructor\n");
    w.append(c);
    w.append("::~");
    w.append(c);
    w.append("() {\n    deinit_union_();\n}\n");
    w
}

// ---------------------------------------------------------------------------
// Assignment and equality operators.
// ---------------------------------------------------------------------------

/// The self-assignment guard: assignment returns at once when source and
/// destination are the same object, so the payload is never destroyed before
/// it is read.
pub open spec fn spec_guard() -> Seq<char> {
    "    if (this == &rhs) { return *this; }\n"@
}

/// Signature line of the copy-assignment operator.
pub open spec fn spec_assign_copy_sig(class: Seq<char>) -> Seq<char> {
    class + "& "@ + class + "::operator=(const "@ + class + "& rhs) { // assign\n"@
}

/// Signature line of the move-assignment operator.
pub open spec fn spec_assign_move_sig(class: Seq<char>) -> Seq<char> {
    class + "& "@ + class + "::operator=("@ + class + "&& rhs) { // move\n"@
}

/// Same-tag copy arm of one variant: the payload is copied in place, with no
/// destroy-then-construct cycle.
pub open spec fn spec_copy_arm(v: SpecVariant) -> Seq<char> {
    "        case _Tag::"@ + spec_tag_name(v) + ":\n            union_."@ + spec_member_name(v)
        + "_val = rhs.union_."@ + spec_member_name(v) + "_val;\n            break;\n"@
}

/// Same-tag move arm of one variant.
pub open spec fn spec_move_arm(v: SpecVariant) -> Seq<char> {
    "        case _Tag::"@ + spec_tag_name(v) + ":\n            union_."@ + spec_member_name(v)
        + "_val = std::move(rhs.union_."@ + spec_member_name(v)
        + "_val);\n            break;\n"@
}

/// Equality arm of one variant: payloads of instances already known to share
/// this tag are compared by value.
pub open spec fn spec_eq_arm(v: SpecVariant) -> Seq<char> {
    "    case _Tag::"@ + spec_tag_name(v) + ":\n        return union_."@ + spec_member_name(v)
        + "_val == rhs.union_."@ + spec_member_name(v) + "_val;\n"@
}

/// Copy-assignment text up to and including the same-tag arms of the first
/// `i` variants; variants without payload contribute no arm.
pub open spec fn spec_ops_copy_upto(item: SpecItemEnum, i: int) -> Seq<char>
    decreases i,
{
    if i <= 0 {
        "// operators\n"@ + spec_assign_copy_sig(pascal_of(item.ident)) + spec_guard()
            + "\n    if (tag_ == rhs.tag_) {\n        switch (tag_) {\n"@
    } else if !spec_has_payload(item.variants[i - 1]) {
        spec_ops_copy_upto(item, i - 1)
    } else {
        spec_ops_copy_upto(item, i - 1) + spec_copy_arm(item.variants[i - 1])
    }
}

/// Tail of the copy-assignment operator: on a tag change the old payload is
/// destroyed first and the new one placement-constructed after.
pub open spec fn spec_ops_copy_tail() -> Seq<char> {
    "        default:\n            break;\n        }\n    } else {\n        deinit_union_();\n        tag_ = rhs.tag_;\n        tagged_init_(rhs.tag_, rhs.union_);\n    }\n    return *this;\n}\n\n"@
}

/// Move-assignment text up to and including the same-tag arms of the first
/// `i` variants.
pub open spec fn spec_ops_move_upto(item: SpecItemEnum, i: int) -> Seq<char>
    decreases i,
{
    if i <= 0 {
        spec_ops_copy_upto(item, item.variants.len() as int) + spec_ops_copy_tail()
            + spec_assign_move_sig(pascal_of(item.ident)) + spec_guard()
            + "\n    if (tag_ == rhs.tag_) {\n        switch (tag_) {\n"@
    } else if !spec_has_payload(item.variants[i - 1]) {
        spec_ops_move_upto(item, i - 1)
    } else {
        spec_ops_move_upto(item, i - 1) + spec_move_arm(item.variants[i - 1])
    }
}

/// Tail of the move-assignment operator.
pub open spec fn spec_ops_move_tail() -> Seq<char> {
    "        default:\n            break;\n        }\n    } else {\n        deinit_union_();\n        tag_ = rhs.tag_;\n        tagged_init_(rhs.tag_, std::move(rhs.union_));\n    }\n    return *this;\n}\n\n"@
}

/// Equality text up to and including the arms of the first `i` variants;
/// equality returns false whenever the tags differ, whatever the payload bits.
pub open spec fn spec_ops_eq_upto(item: SpecItemEnum, i: int) -> Seq<char>
    decreases i,
{
    if i <= 0 {
        spec_ops_move_upto(item, item.variants.len() as int) + spec_ops_move_tail() + "bool "@
            + pascal_of(item.ident) + "::operator==(const "@ + pascal_of(item.ident)
            + "& rhs) const { // equal\n    if (this == &rhs) { return true; }\n    if (tag_ != rhs.tag_) { return false; }\n    switch (tag_) {\n"@
    } else if !spec_has_payload(item.variants[i - 1]) {
        spec_ops_eq_upto(item, i - 1)
    } else {
        spec_ops_eq_upto(item, i - 1) + spec_eq_arm(item.variants[i - 1])
    }
}

/// Full text of the operators section: copy assignment, move assignment,
/// equality and inequality.
pub open spec fn spec_impl_operators(item: SpecItemEnum) -> Seq<char> {
    spec_ops_eq_upto(item, item.variants.len() as int)
        + "    default:\n        break;\n    }\n    return true;\n}\n\n"@ + "bool "@
        + pascal_of(item.ident) + "::operator!=(const "@ + pascal_of(item.ident)
        + "& rhs) const { // not equal\n    return !(*this == rhs);\n}\n"@
}

/// Renders the assignment and equality operators.
fn write_operators(item: &ItemEnum) -> (r: String)
    ensures
        r@ == spec_impl_operators(item.deep_view()),
{
    let class = class_name(item);
    let c = class.as_str();
    let n = item.variants.len();

    let mut w = String::from_str("// operators\n");
    w.append(c);
    w.append("& ");
    w.append(c);
    w.append("::operator=(const ");
    w.append(c);
    w.append("& rhs) { // assign\n");
    w.append("    if (this == &rhs) { return *this; }\n");
    w.append("\n    if (tag_ == rhs.tag_) {\n        switch (tag_) {\n");
    proof {
        assert(w@ =~= spec_ops_copy_upto(item.deep_view(), 0));
    }
    let mut i: usize = 0;
    while i < n
        invariant
            n == item.variants@.len(),
            0 <= i <= n,
            w@ == spec_ops_copy_upto(item.deep_view(), i as int),
        decreases n - i,
    {
        let v = &item.variants[i];
        proof {
            assert(v.deep_view() == item.deep_view().variants[i as int]);
        }
        match &v.fields {
            crate::decl::Fields::Unit => {},
            _ => {
                let t = tag_name(v);
                let m = member_name(v);
                w.append("        case _Tag::");
                w.append(t.as_str());
                w.append(":\n            union_.");
                w.append(m.as_str());
                w.append("_val = rhs.union_.");
                w.append(m.as_str());
                w.append("_val;\n            break;\n");
                proof {
                    assert(w@ =~= spec_ops_copy_upto(item.deep_view(), i + 1));
                }
            },
        }
        i = i + 1;
    }
    w.append("        default:\n            break;\n        }\n    } else {\n        deinit_union_();\n        tag_ = rhs.tag_;\n        tagged_init_(rhs.tag_, rhs.union_);\n    }\n    return *this;\n}\n\n");

    w.append(c);
    w.append("& ");
    w.append(c);
    w.append("::operator=(");
    w.append(c);
    w.append("&& rhs) { // move\n");
    w.append("    if (this == &rhs) { return *this; }\n");
    w.append("\n    if (tag_ == rhs.tag_) {\n        switch (tag_) {\n");
    proof {
        assert(w@ =~= spec_ops_move_upto(item.deep_view(), 0));
    }
    let mut i: usize = 0;
    while i < n
        invariant
            n == item.variants@.len(),
            0 <= i <= n,
            w@ == spec_ops_move_upto(item.deep_view(), i as int),
        decreases n - i,
    {
        let v = &item.variants[i];
        proof {
            assert(v.deep_view() == item.deep_view().variants[i as int]);
        }
        match &v.fields {
            crate::decl::Fields::Unit => {},
            _ => {
                let t = tag_name(v);
                let m = member_name(v);
                w.append("        case _Tag::");
                w.append(t.as_str());
                w.append(":\n            union_.");
                w.append(m.as_str());
                w.append("_val = std::move(rhs.union_.");
                w.append(m.as_str());
                w.append("_val);\n            break;\n");
                proof {
                    assert(w@ =~= spec_ops_move_upto(item.deep_view(), i + 1));
                }
            },
        }
        i = i + 1;
    }
    w.append("        default:\n            break;\n        }\n    } else {\n        deinit_union_();\n        tag_ = rhs.tag_;\n        tagged_init_(rhs.tag_, std::move(rhs.union_));\n    }\n    return *this;\n}\n\n");

    w.append("bool ");
    w.append(c);
    w.append("::operator==(const ");
    w.append(c);
    w.append("& rhs) const { // equal\n    if (this == &rhs) { return true; }\n    if (tag_ != rhs.tag_) { return false; }\n    switch (tag_) {\n");
    proof {
        assert(w@ =~= spec_ops_eq_upto(item.deep_view(), 0));
    }
    let mut i: usize = 0;
    while i < n
        invariant
            n == item.variants@.len(),
            0 <= i <= n,
            w@ == spec_ops_eq_upto(item.deep_view(), i as int),
        decreases n - i,
    {
        let v = &item.variants[i];
        proof {
            assert(v.deep_view() == item.deep_view().variants[i as int]);
        }
        match &v.fields {
            crate::decl::Fields::Unit => {},
            _ => {
                let t = tag_name(v);
                let m = member_name(v);
                w.append("    case _Tag::");
                w.append(t.as_str());
                w.append(":\n        return union_.");
                w.append(m.as_str());
                w.append("_val == rhs.union_.");
                w.append(m.as_str());
                w.append("_val;\n");
                proof {
                    assert(w@ =~= spec_ops_eq_upto(item.deep_view(), i + 1));
                }
            },
        }
        i = i + 1;
    }
    w.append("    default:\n        break;\n    }\n    return true;\n}\n\n");
    w.append("bool ");
    w.append(c);
    w.append("::operator!=(const ");
    w.append(c);
    w.append("& rhs) const { // not equal\n    return !(*this == rhs);\n}\n");
    proof {
        assert(w@ =~= spec_impl_operators(item.deep_view()));
    }
    w
}

// ---------------------------------------------------------------------------
// Self-assignment law: both generated assignment operators test for
// self-assignment before anything else in their bodies, so a payload can
// never be destroyed before it is read from itself.
// ---------------------------------------------------------------------------

proof fn lemma_copy_upto_extends(item: SpecItemEnum, i: int)
    requires
        0 <= i,
    ensures
        begins_with(spec_ops_copy_upto(item, i), spec_ops_copy_upto(item, 0)),
    decreases i,
{
    let p0 = spec_ops_copy_upto(item, 0);
    assert(p0.take(p0.len() as int) =~= p0);
    if i > 0 {
        lemma_copy_upto_extends(item, i - 1);
        if spec_has_payload(item.variants[i - 1]) {
            let a = spec_ops_copy_upto(item, i - 1);
            let b = spec_copy_arm(item.variants[i - 1]);
            let p = spec_ops_copy_upto(item, 0);
            assert((a + b).take(p.len() as int) =~= a.take(p.len() as int));
        }
    }
}

proof fn lemma_move_upto_extends(item: SpecItemEnum, i: int)
    requires
        0 <= i,
    ensures
        begins_with(spec_ops_move_upto(item, i), spec_ops_move_upto(item, 0)),
    decreases i,
{
    let p0 = spec_ops_move_upto(item, 0);
    assert(p0.take(p0.len() as int) =~= p0);
    if i > 0 {
        lemma_move_upto_extends(item, i - 1);
        if spec_has_payload(item.variants[i - 1]) {
            let a = spec_ops_move_upto(item, i - 1);
            let b = spec_move_arm(item.variants[i - 1]);
            let p = spec_ops_move_upto(item, 0);
            assert((a + b).take(p.len() as int) =~= a.take(p.len() as int));
        }
    }
}

proof fn lemma_eq_upto_extends(item: SpecItemEnum, i: int)
    requires
        0 <= i,
    ensures
        begins_with(spec_ops_eq_upto(item, i), spec_ops_eq_upto(item, 0)),
    decreases i,
{
    let p0 = spec_ops_eq_upto(item, 0);
    assert(p0.take(p0.len() as int) =~= p0);
    if i > 0 {
        lemma_eq_upto_extends(item, i - 1);
        if spec_has_payload(item.variants[i - 1]) {
            let a = spec_ops_eq_upto(item, i - 1);
            let b = spec_eq_arm(item.variants[i - 1]);
            let p = spec_ops_eq_upto(item, 0);
            assert((a + b).take(p.len() as int) =~= a.take(p.len() as int));
        }
    }
}

proof fn lemma_begins_with_trans(s: Seq<char>, p: Seq<char>, q: Seq<char>)
    requires
        begins_with(s, p),
        begins_with(p, q),
    ensures
        begins_with(s, q),
{
    assert(s.take(q.len() as int) =~= s.take(p.len() as int).take(q.len() as int));
}

proof fn lemma_begins_with_concat(a: Seq<char>, b: Seq<char>)
    ensures
        begins_with(a + b, a),
{
    assert((a + b).take(a.len() as int) =~= a);
}

/// In the rendered operators section, the copy-assignment operator's body
/// starts with the self-assignment guard, directly after its signature line
/// and before any storage is touched; the move-assignment operator's body
/// starts the same way. Self-assignment therefore returns before any payload
/// is destroyed.
pub proof fn lemma_self_assignment_guard(item: SpecItemEnum)
    ensures
        begins_with(
            spec_impl_operators(item),
            "// operators\n"@ + spec_assign_copy_sig(pascal_of(item.ident)) + spec_guard(),
        ),
        begins_with(
            spec_impl_operators(item),
            spec_ops_copy_upto(item, item.variants.len() as int) + spec_ops_copy_tail()
                + spec_assign_move_sig(pascal_of(item.ident)) + spec_guard(),
        ),
{
    let n = item.variants.len() as int;
    let ops = spec_impl_operators(item);
    let eq0 = spec_ops_eq_upto(item, 0);
    let mv0 = spec_ops_move_upto(item, 0);
    let cp0 = spec_ops_copy_upto(item, 0);

    lemma_begins_with_concat(
        spec_ops_eq_upto(item, n),
        "    default:\n        break;\n    }\n    return true;\n}\n\n"@ + "bool "@
            + pascal_of(item.ident) + "::operator!=(const "@ + pascal_of(item.ident)
            + "& rhs) const { // not equal\n    return !(*this == rhs);\n}\n"@,
    );
    assert(begins_with(ops, spec_ops_eq_upto(item, n))) by {
        assert(ops.take(spec_ops_eq_upto(item, n).len() as int) =~= spec_ops_eq_upto(item, n));
    }
    lemma_eq_upto_extends(item, n);
    lemma_begins_with_trans(ops, spec_ops_eq_upto(item, n), eq0);

    // The equality section's head extends the whole move section.
    let mvfull = spec_ops_move_upto(item, n) + spec_ops_move_tail();
    assert(begins_with(eq0, mvfull)) by {
        assert(eq0.take(mvfull.len() as int) =~= mvfull);
    }
    lemma_begins_with_trans(ops, eq0, mvfull);
    assert(begins_with(mvfull, spec_ops_move_upto(item, n))) by {
        assert(mvfull.take(spec_ops_move_upto(item, n).len() as int) =~= spec_ops_move_upto(
            item,
            n,
        ));
    }
    lemma_begins_with_trans(ops, mvfull, spec_ops_move_upto(item, n));
    lemma_move_upto_extends(item, n);
    lemma_begins_with_trans(ops, spec_ops_move_upto(item, n), mv0);

    // The move section's head extends the whole copy section, whose own head
    // carries the guard.
    let guard_move = spec_ops_copy_upto(item, n) + spec_ops_copy_tail() + spec_assign_move_sig(
        pascal_of(item.ident),
    ) + spec_guard();
    assert(begins_with(mv0, guard_move)) by {
        assert(mv0.take(guard_move.len() as int) =~= guard_move);
    }
    lemma_begins_with_trans(ops, mv0, guard_move);

    assert(begins_with(mv0, spec_ops_copy_upto(item, n))) by {
        assert(mv0.take(spec_ops_copy_upto(item, n).len() as int) =~= spec_ops_copy_upto(item, n));
    }
    lemma_begins_with_trans(ops, mv0, spec_ops_copy_upto(item, n));
    lemma_copy_upto_extends(item, n);
    lemma_begins_with_trans(ops, spec_ops_copy_upto(item, n), cp0);

    let guard_copy = "// operators\n"@ + spec_assign_copy_sig(pascal_of(item.ident))
        + spec_guard();
    assert(begins_with(cp0, guard_copy)) by {
        assert(cp0.take(guard_copy.len() as int) =~= guard_copy);
    }
    lemma_begins_with_trans(ops, cp0, guard_copy);
}

/// In the rendered operators section, the equality operator tests the two
/// tags and returns false on a mismatch before the switch that compares any
/// payload: the text up to and including that test — which ends with the tag
/// test and the switch opening — precedes every equality arm, whatever the
/// payload bits hold.
pub proof fn lemma_equality_checks_tag_first(item: SpecItemEnum)
    ensures
        begins_with(spec_impl_operators(item), spec_ops_eq_upto(item, 0)),
{
    let n = item.variants.len() as int;
    let ops = spec_impl_operators(item);
    let eq0 = spec_ops_eq_upto(item, 0);
    assert(begins_with(ops, spec_ops_eq_upto(item, n))) by {
        assert(ops.take(spec_ops_eq_upto(item, n).len() as int) =~= spec_ops_eq_upto(item, n));
    }
    lemma_eq_upto_extends(item, n);
    lemma_begins_with_trans(ops, spec_ops_eq_upto(item, n), eq0);
}

// ---------------------------------------------------------------------------
// Labelled constructors.
// ---------------------------------------------------------------------------

/// Parameter list of a labelled constructor, up to the first `j` fields: one
/// const-reference parameter per field, in declared order.
pub open spec fn spec_ctor_params_upto(tys: Seq<SpecType>, j: int) -> Result<Seq<char>, SpecError>
    decreases j,
{
    if j <= 0 {
        Ok(Seq::empty())
    } else {
        match spec_ctor_params_upto(tys, j - 1) {
            Err(e) => Err(e),
            Ok(t) => match spec_type_cpp(tys[j - 1]) {
                Err(e) => Err(e),
                Ok(ty) => {
                    if j - 1 == 0 {
                        Ok(t + "const "@ + ty + "& v"@ + spec_dec((j - 1) as nat))
                    } else {
                        Ok(t + ", "@ + "const "@ + ty + "& v"@ + spec_dec((j - 1) as nat))
                    }
                },
            },
        }
    }
}

proof fn lemma_ctor_params_err(tys: Seq<SpecType>, j: int, k: int)
    requires
        0 <= j <= k,
        spec_ctor_params_upto(tys, j) is Err,
    ensures
        spec_ctor_params_upto(tys, k) == spec_ctor_params_upto(tys, j),
    decreases k - j,
{
    if k > j {
        lemma_ctor_params_err(tys, j, k - 1);
    }
}

pub(crate) fn write_ctor_params(tys: &Vec<Type>) -> (r: Result<String, Error>)
    ensures
        res_view(r) == spec_ctor_params_upto(types_dv(tys@), tys@.len() as int),
{
    proof {
        lemma_types_dv(tys@);
    }
    let n = tys.len();
    let mut w = String::new();
    let mut j: usize = 0;
    while j < n
        invariant
            n == tys@.len(),
            0 <= j <= n,
            spec_ctor_params_upto(types_dv(tys@), j as int) == Ok::<Seq<char>, SpecError>(w@),
            forall|i: int|
                0 <= i < tys@.len() ==> types_dv(tys@)[i] == crate::decl::type_dv(
                    #[trigger] tys@[i],
                ),
            types_dv(tys@).len() == tys@.len(),
        decreases n - j,
    {
        match type_to_cpp_type(&tys[j]) {
            Err(e) => {
                proof {
                    lemma_ctor_params_err(types_dv(tys@), j + 1, tys@.len() as int);
                }
                return Err(e);
            },
            Ok(ty) => {
                if j > 0 {
                    w.append(", ");
                }
                w.append("const ");
                w.append(ty.as_str());
                w.append("& v");
                let d = dec_str(j);
                w.append(d.as_str());
            },
        }
        j = j + 1;
    }
    Ok(w)
}

/// Argument list handed to the placement-constructed aggregate: `v0, v1, ...`
/// up to the first `j` fields.
pub open spec fn spec_ctor_args_upto(j: int) -> Seq<char>
    decreases j,
{
    if j <= 0 {
        Seq::empty()
    } else if j == 1 {
        spec_ctor_args_upto(0) + "v"@ + spec_dec(0)
    } else {
        spec_ctor_args_upto(j - 1) + ", "@ + "v"@ + spec_dec((j - 1) as nat)
    }
}

fn write_ctor_args(n: usize) -> (r: String)
    ensures
        r@ == spec_ctor_args_upto(n as int),
{
    let mut w = String::new();
    let mut j: usize = 0;
    while j < n
        invariant
            0 <= j <= n,
            w@ == spec_ctor_args_upto(j as int),
        decreases n - j,
    {
        if j > 0 {
            w.append(", ");
        }
        w.append("v");
        let d = dec_str(j);
        w.append(d.as_str());
        j = j + 1;
    }
    w
}

/// Labelled constructor of one variant: a variant without payload gets a
/// zero-argument factory; a variant with positional fields gets one
/// const-reference parameter per field and placement-constructs the storage
/// directly from the parameter list; record-style fields are rejected.
pub open spec fn spec_enum_ctor_block(class: Seq<char>, v: SpecVariant) -> Result<
    Seq<char>,
    SpecError,
> {
    if !spec_has_payload(v) {
        Ok(
            class + " "@ + class + "::"@ + spec_tag_name(v) + "() {\n    return "@ + class
                + "(_Tag::"@ + spec_tag_name(v) + ");\n}\n"@ + "\n"@,
        )
    } else {
        match v.fields {
            SpecFields::Unnamed(tys) => match spec_ctor_params_upto(tys, tys.len() as int) {
                Err(e) => Err(e),
                Ok(ps) => match spec_payload_type(v) {
                    Err(e) => Err(e),
                    Ok(pt) => {
                        let head = class + " "@ + class + "::"@ + spec_tag_name(v) + "("@ + ps
                            + ") {\n"@ + "    "@ + class + " output(_Tag::"@ + spec_tag_name(v)
                            + ");\n"@;
                        let init = if tys.len() == 1 {
                            head + "    new (&output.union_."@ + spec_member_name(v) + "_val) "@
                                + pt + "(v0);\n"@
                        } else {
                            head + "    new (&output.union_."@ + spec_member_name(v) + "_val) "@
                                + pt + "("@ + spec_ctor_args_upto(tys.len() as int) + ");\n"@
                        };
                        Ok(init + "    return output;\n}\n"@ + "\n"@)
                    },
                },
            },
            _ => Err(SpecError::UnknownFieldsType(v.fields)),
        }
    }
}

fn write_enum_ctor_block(class: &String, v: &Variant) -> (r: Result<String, Error>)
    ensures
        res_view(r) == spec_enum_ctor_block(class@, v.deep_view()),
{
    let c = class.as_str();
    let t = tag_name(v);
    match &v.fields {
        Fields::Unit => {
            let mut w = class.clone();
            w.append(" ");
            w.append(c);
            w.append("::");
            w.append(t.as_str());
            w.append("() {\n    return ");
            w.append(c);
            w.append("(_Tag::");
            w.append(t.as_str());
            w.append(");\n}\n");
            w.append("\n");
            Ok(w)
        },
        Fields::Named => Err(Error::UnknownFieldsType(Fields::Named)),
        Fields::Unnamed(tys) => {
            proof {
                lemma_types_dv(tys@);
            }
            match write_ctor_params(tys) {
                Err(e) => Err(e),
                Ok(ps) => match fields_to_cpp_type(&v.fields) {
                    Err(e) => Err(e),
                    Ok(pt) => {
                        let m = member_name(v);
                        let mut w = class.clone();
                        w.append(" ");
                        w.append(c);
                        w.append("::");
                        w.append(t.as_str());
                        w.append("(");
                        w.append(ps.as_str());
                        w.append(") {\n");
                        w.append("    ");
                        w.append(c);
                        w.append(" output(_Tag::");
                        w.append(t.as_str());
                        w.append(");\n");
                        if tys.len() == 1 {
                            w.append("    new (&output.union_.");
                            w.append(m.as_str());
                            w.append("_val) ");
                            w.append(pt.as_str());
                            w.append("(v0);\n");
                        } else {
                            w.append("    new (&output.union_.");
                            w.append(m.as_str());
                            w.append("_val) ");
                            w.append(pt.as_str());
                            w.append("(");
                            let args = write_ctor_args(tys.len());
                            w.append(args.as_str());
                            w.append(");\n");
                        }
                        w.append("    return output;\n}\n");
                        w.append("\n");
                        Ok(w)
                    },
                },
            }
        },
    }
}

/// Labelled-constructor section up to the first `i` variants.
pub open spec fn spec_enum_ctors_upto(item: SpecItemEnum, i: int) -> Result<Seq<char>, SpecError>
    decreases i,
{
    if i <= 0 {
        Ok("// enum constructors\n"@)
    } else {
        match spec_enum_ctors_upto(item, i - 1) {
            Err(e) => Err(e),
            Ok(t) => match spec_enum_ctor_block(pascal_of(item.ident), item.variants[i - 1]) {
                Err(e) => Err(e),
                Ok(b) => Ok(t + b),
            },
        }
    }
}

/// Full text of the labelled-constructor section, or the first failure.
pub open spec fn spec_impl_enum_ctors(item: SpecItemEnum) -> Result<Seq<char>, SpecError> {
    spec_enum_ctors_upto(item, item.variants.len() as int)
}

proof fn lemma_enum_ctors_err(item: SpecItemEnum, j: int, k: int)
    requires
        0 <= j <= k,
        spec_enum_ctors_upto(item, j) is Err,
    ensures
        spec_enum_ctors_upto(item, k) == spec_enum_ctors_upto(item, j),
    decreases k - j,
{
    if k > j {
        lemma_enum_ctors_err(item, j, k - 1);
    }
}

/// Renders every labelled constructor, in declaration order.
fn write_enum_ctors(item: &ItemEnum) -> (r: Result<String, Error>)
    ensures
        res_view(r) == spec_impl_enum_ctors(item.deep_view()),
{
    let class = class_name(item);
    let n = item.variants.len();
    let mut w = String::from_str("// enum constructors\n");
    let mut i: usize = 0;
    while i < n
        invariant
            n == item.variants@.len(),
            0 <= i <= n,
            class@ == pascal_of(item.deep_view().ident),
            spec_enum_ctors_upto(item.deep_view(), i as int) == Ok::<Seq<char>, SpecError>(w@),
        decreases n - i,
    {
        let v = &item.variants[i];
        proof {
            assert(v.deep_view() == item.deep_view().variants[i as int]);
        }
        match write_enum_ctor_block(&class, v) {
            Err(e) => {
                proof {
                    lemma_enum_ctors_err(item.deep_view(), i + 1, item.variants@.len() as int);
                }
                return Err(e);
            },
            Ok(b) => {
                w.append(b.as_str());
            },
        }
        i = i + 1;
    }
    Ok(w)
}

// ---------------------------------------------------------------------------
// Accessors.
// ---------------------------------------------------------------------------

/// Accessor group of one variant: the tag predicate for every variant; for a
/// variant with payload additionally the unchecked references, the checked
/// references that fail on a wrong tag, and the nullable pointers that are
/// absent on a wrong tag.
pub open spec fn spec_accessor_block(class: Seq<char>, v: SpecVariant) -> Result<
    Seq<char>,
    SpecError,
> {
    let isb = "bool "@ + class + "::is_"@ + spec_member_name(v)
        + "() const {\n    return tag_ == _Tag::"@ + spec_tag_name(v) + ";\n}\n"@ + "\n"@;
    if !spec_has_payload(v) {
        Ok(isb)
    } else {
        match spec_payload_type(v) {
            Err(e) => Err(e),
            Ok(vt) => Ok(
                isb + "const "@ + vt + "& "@ + class + "::"@ + spec_member_name(v)
                    + "_ref_uncheck() const {\n    assert(tag_ == _Tag::"@ + spec_tag_name(v)
                    + ");\n    return union_."@ + spec_member_name(v) + "_val;\n}\n"@ + "\n"@ + vt
                    + "& "@ + class + "::"@ + spec_member_name(v)
                    + "_ref_uncheck() {\n    assert(tag_ == _Tag::"@ + spec_tag_name(v)
                    + ");\n    return union_."@ + spec_member_name(v) + "_val;\n}\n"@ + "\n"@
                    + "const "@ + vt + "& "@ + class + "::"@ + spec_member_name(v)
                    + "_ref() const {\n    if (tag_ != _Tag::"@ + spec_tag_name(v)
                    + ") {\n        throw std::runtime_error(\"requires "@ + spec_tag_name(v)
                    + "\");\n    }\n    return union_."@ + spec_member_name(v) + "_val;\n}\n"@
                    + "\n"@ + vt + "& "@ + class + "::"@ + spec_member_name(v)
                    + "_ref() {\n    if (tag_ != _Tag::"@ + spec_tag_name(v)
                    + ") {\n        throw std::runtime_error(\"requires "@ + spec_tag_name(v)
                    + "\");\n    }\n    return union_."@ + spec_member_name(v) + "_val;\n}\n"@
                    + "\n"@ + "const "@ + vt + "* "@ + class + "::"@ + spec_member_name(v)
                    + "_ptr() const {\n    if (tag_ != _Tag::"@ + spec_tag_name(v)
                    + ") {\n        return nullptr;\n    }\n    return &union_."@
                    + spec_member_name(v) + "_val;\n}\n"@ + "\n"@ + vt + "* "@ + class + "::"@
                    + spec_member_name(v) + "_ptr() {\n    if (tag_ != _Tag::"@ + spec_tag_name(v)
                    + ") {\n        return nullptr;\n    }\n    return &union_."@
                    + spec_member_name(v) + "_val;\n}\n"@ + "\n"@,
            ),
        }
    }
}

fn write_accessor_block(class: &String, v: &Variant) -> (r: Result<String, Error>)
    ensures
        res_view(r) == spec_accessor_block(class@, v.deep_view()),
{
    let c = class.as_str();
    let t = tag_name(v);
    let m = member_name(v);
    let mut w = String::from_str("bool ");
    w.append(c);
    w.append("::is_");
    w.append(m.as_str());
    w.append("() const {\n    return tag_ == _Tag::");
    w.append(t.as_str());
    w.append(";\n}\n");
    w.append("\n");
    match &v.fields {
        Fields::Unit => Ok(w),
        _ => {
            match fields_to_cpp_type(&v.fields) {
                Err(e) => Err(e),
                Ok(vt) => {
                    let vts = vt.as_str();
                    let ms = m.as_str();
                    let ts = t.as_str();
                    w.append("const ");
                    w.append(vts);
                    w.append("& ");
                    w.append(c);
                    w.append("::");
                    w.append(ms);
                    w.append("_ref_uncheck() const {\n    assert(tag_ == _Tag::");
                    w.append(ts);
                    w.append(");\n    return union_.");
                    w.append(ms);
                    w.append("_val;\n}\n");
                    w.append("\n");
                    w.append(vts);
                    w.append("& ");
                    w.append(c);
                    w.append("::");
                    w.append(ms);
                    w.append("_ref_uncheck() {\n    assert(tag_ == _Tag::");
                    w.append(ts);
                    w.append(");\n    return union_.");
                    w.append(ms);
                    w.append("_val;\n}\n");
                    w.append("\n");
                    w.append("const ");
                    w.append(vts);
                    w.append("& ");
                    w.append(c);
                    w.append("::");
                    w.append(ms);
                    w.append("_ref() const {\n    if (tag_ != _Tag::");
                    w.append(ts);
                    w.append(") {\n        throw std::runtime_error(\"requires ");
                    w.append(ts);
                    w.append("\");\n    }\n    return union_.");
                    w.append(ms);
                    w.append("_val;\n}\n");
                    w.append("\n");
                    w.append(vts);
                    w.append("& ");
                    w.append(c);
                    w.append("::");
                    w.append(ms);
                    w.append("_ref() {\n    if (tag_ != _Tag::");
                    w.append(ts);
                    w.append(") {\n        throw std::runtime_error(\"requires ");
                    w.append(ts);
                    w.append("\");\n    }\n    return union_.");
                    w.append(ms);
                    w.append("_val;\n}\n");
                    w.append("\n");
                    w.append("const ");
                    w.append(vts);
                    w.append("* ");
                    w.append(c);
                    w.append("::");
                    w.append(ms);
                    w.append("_ptr() const {\n    if (tag_ != _Tag::");
                    w.append(ts);
                    w.append(") {\n        return nullptr;\n    }\n    return &union_.");
                    w.append(ms);
                    w.append("_val;\n}\n");
                    w.append("\n");
                    w.append(vts);
                    w.append("* ");
                    w.append(c);
                    w.append("::");
                    w.append(ms);
                    w.append("_ptr() {\n    if (tag_ != _Tag::");
                    w.append(ts);
                    w.append(") {\n        return nullptr;\n    }\n    return &union_.");
                    w.append(ms);
                    w.append("_val;\n}\n");
                    w.append("\n");
                    Ok(w)
                },
            }
        },
    }
}

/// Accessor section up to the first `i` variants.
pub open spec fn spec_accessors_upto(item: SpecItemEnum, i: int) -> Result<Seq<char>, SpecError>
    decreases i,
{
    if i <= 0 {
        Ok("// accessors\n"@)
    } else {
        match spec_accessors_upto(item, i - 1) {
            Err(e) => Err(e),
            Ok(t) => match spec_accessor_block(pascal_of(item.ident), item.variants[i - 1]) {
                Err(e) => Err(e),
                Ok(b) => Ok(t + b),
            },
        }
    }
}

/// Full text of the accessor section, or the first failure.
pub open spec fn spec_impl_accessors(item: SpecItemEnum) -> Result<Seq<char>, SpecError> {
    spec_accessors_upto(item, item.variants.len() as int)
}

proof fn lemma_accessors_err(item: SpecItemEnum, j: int, k: int)
    requires
        0 <= j <= k,
        spec_accessors_upto(item, j) is Err,
    ensures
        spec_accessors_upto(item, k) == spec_accessors_upto(item, j),
    decreases k - j,
{
    if k > j {
        lemma_accessors_err(item, j, k - 1);
    }
}

/// Renders the accessor groups of every variant, in declaration order.
#[verifier::rlimit(50)]
fn write_accessors(item: &ItemEnum) -> (r: Result<String, Error>)
    ensures
        res_view(r) == spec_impl_accessors(item.deep_view()),
{
    let class = class_name(item);
    let n = item.variants.len();
    let mut w = String::from_str("// accessors\n");
    let mut i: usize = 0;
    while i < n
        invariant
            n == item.variants@.len(),
            0 <= i <= n,
            class@ == pascal_of(item.deep_view().ident),
            spec_accessors_upto(item.deep_view(), i as int) == Ok::<Seq<char>, SpecError>(w@),
        decreases n - i,
    {
        let v = &item.variants[i];
        proof {
            assert(v.deep_view() == item.deep_view().variants[i as int]);
        }
        match write_accessor_block(&class, v) {
            Err(e) => {
                proof {
                    lemma_accessors_err(item.deep_view(), i + 1, item.variants@.len() as int);
                }
                return Err(e);
            },
            Ok(b) => {
                w.append(b.as_str());
            },
        }
        i = i + 1;
    }
    Ok(w)
}

// ---------------------------------------------------------------------------
// Private dispatch methods: placement construction and explicit destruction.
// ---------------------------------------------------------------------------

/// Copy placement-construction text up to the arms of the first `i` variants:
/// for a tag with payload, the destination's field of that variant is
/// placement-constructed from the source's field of the same variant.
pub open spec fn spec_priv_copy_upto(item: SpecItemEnum, i: int) -> Result<Seq<char>, SpecError>
    decreases i,
{
    if i <= 0 {
        Ok(
            "// private methods\n"@ + "void "@ + pascal_of(item.ident)
                + "::tagged_init_(_Tag tag, const _Union& union_val) {\n    switch (tag) {\n"@,
        )
    } else if !spec_has_payload(item.variants[i - 1]) {
        spec_priv_copy_upto(item, i - 1)
    } else {
        match spec_priv_copy_upto(item, i - 1) {
            Err(e) => Err(e),
            Ok(t) => match spec_payload_type(item.variants[i - 1]) {
                Err(e) => Err(e),
                Ok(vt) => Ok(
                    t + "    case _Tag::"@ + spec_tag_name(item.variants[i - 1])
                        + ":\n        new (&union_."@ + spec_member_name(item.variants[i - 1])
                        + "_val) "@ + vt + "(union_val."@ + spec_member_name(item.variants[i - 1])
                        + "_val);\n        break;\n"@,
                ),
            },
        }
    }
}

/// Move placement-construction text up to the arms of the first `i` variants.
pub open spec fn spec_priv_move_upto(item: SpecItemEnum, i: int) -> Result<Seq<char>, SpecError>
    decreases i,
{
    if i <= 0 {
        match spec_priv_copy_upto(item, item.variants.len() as int) {
            Err(e) => Err(e),
            Ok(t) => Ok(
                t + "    default:\n        break;\n    }\n}\n\n"@ + "void "@ + pascal_of(
                    item.ident,
                ) + "::tagged_init_(_Tag tag, _Union&& union_val) {\n    switch (tag) {\n"@,
            ),
        }
    } else if !spec_has_payload(item.variants[i - 1]) {
        spec_priv_move_upto(item, i - 1)
    } else {
        match spec_priv_move_upto(item, i - 1) {
            Err(e) => Err(e),
            Ok(t) => match spec_payload_type(item.variants[i - 1]) {
                Err(e) => Err(e),
                Ok(vt) => Ok(
                    t + "    case _Tag::"@ + spec_tag_name(item.variants[i - 1])
                        + ":\n        new (&union_."@ + spec_member_name(item.variants[i - 1])
                        + "_val) "@ + vt + "(std::move(union_val."@ + spec_member_name(
                        item.variants[i - 1],
                    ) + "_val));\n        break;\n"@,
                ),
            },
        }
    }
}

/// Explicit-destruction text up to the arms of the first `i` variants: for a
/// tag with payload, the payload's destroy expression is invoked on the
/// storage's field; a tag without payload contributes no arm.
pub open spec fn spec_priv_deinit_upto(item: SpecItemEnum, i: int) -> Result<Seq<char>, SpecError>
    decreases i,
{
    if i <= 0 {
        match spec_priv_move_upto(item, item.variants.len() as int) {
            Err(e) => Err(e),
            Ok(t) => Ok(
                t + "    default:\n        break;\n    }\n}\n\n"@ + "void "@ + pascal_of(
                    item.ident,
                ) + "::deinit_union_() {\n    switch (tag_) {\n"@,
            ),
        }
    } else if !spec_has_payload(item.variants[i - 1]) {
        spec_priv_deinit_upto(item, i - 1)
    } else {
        match spec_priv_deinit_upto(item, i - 1) {
            Err(e) => Err(e),
            Ok(t) => match spec_payload_dtor(item.variants[i - 1]) {
                Err(e) => Err(e),
                Ok(dt) => Ok(
                    t + "    case _Tag::"@ + spec_tag_name(item.variants[i - 1])
                        + ":\n        union_."@ + spec_member_name(item.variants[i - 1])
                        + "_val."@ + dt + "();\n        break;\n"@,
                ),
            },
        }
    }
}

/// Full text of the private dispatch methods, or the first failure.
pub open spec fn spec_impl_private(item: SpecItemEnum) -> Result<Seq<char>, SpecError> {
    match spec_priv_deinit_upto(item, item.variants.len() as int) {
        Err(e) => Err(e),
        Ok(t) => Ok(t + "    default:\n        break;\n    }\n}\n\n"@),
    }
}

proof fn lemma_priv_copy_err(item: SpecItemEnum, j: int, k: int)
    requires
        0 <= j <= k,
        spec_priv_copy_upto(item, j) is Err,
    ensures
        spec_priv_copy_upto(item, k) == spec_priv_copy_upto(item, j),
    decreases k - j,
{
    if k > j {
        lemma_priv_copy_err(item, j, k - 1);
    }
}

proof fn lemma_priv_move_err(item: SpecItemEnum, j: int, k: int)
    requires
        0 <= j <= k,
        spec_priv_move_upto(item, j) is Err,
    ensures
        spec_priv_move_upto(item, k) == spec_priv_move_upto(item, j),
    decreases k - j,
{
    if k > j {
        lemma_priv_move_err(item, j, k - 1);
    }
}

proof fn lemma_priv_deinit_err(item: SpecItemEnum, j: int, k: int)
    requires
        0 <= j <= k,
        spec_priv_deinit_upto(item, j) is Err,
    ensures
        spec_priv_deinit_upto(item, k) == spec_priv_deinit_upto(item, j),
    decreases k - j,
{
    if k > j {
        lemma_priv_deinit_err(item, j, k - 1);
    }
}

/// Renders the two placement-construct dispatchers and the explicit-destroy
/// dispatcher. Every lifetime transition of the storage cell goes through
/// these three methods.
fn write_private_methods(item: &ItemEnum) -> (r: Result<String, Error>)
    requires
        wf_spec_item(item.deep_view()),
    ensures
        res_view(r) == spec_impl_private(item.deep_view()),
{
    let class = class_name(item);
    let c = class.as_str();
    let n = item.variants.len();

    let mut w = String::from_str("// private methods\n");
    w.append("void ");
    w.append(c);
    w.append("::tagged_init_(_Tag tag, const _Union& union_val) {\n    switch (tag) {\n");
    let mut i: usize = 0;
    while i < n
        invariant
            n == item.variants@.len(),
            0 <= i <= n,
            class@ == pascal_of(item.deep_view().ident),
            wf_spec_item(item.deep_view()),
            spec_priv_copy_upto(item.deep_view(), i as int) == Ok::<Seq<char>, SpecError>(w@),
        decreases n - i,
    {
        let v = &item.variants[i];
        proof {
            assert(v.deep_view() == item.deep_view().variants[i as int]);
        }
        match &v.fields {
            Fields::Unit => {},
            _ => {
                match fields_to_cpp_type(&v.fields) {
                    Err(e) => {
                        proof {
                            lemma_priv_copy_err(
                                item.deep_view(),
                                i + 1,
                                item.variants@.len() as int,
                            );
                            lemma_priv_move_err(item.deep_view(), 0, item.variants@.len() as int);
                            lemma_priv_deinit_err(
                                item.deep_view(),
                                0,
                                item.variants@.len() as int,
                            );
                        }
                        return Err(e);
                    },
                    Ok(vt) => {
                        let t = tag_name(v);
                        let m = member_name(v);
                        w.append("    case _Tag::");
                        w.append(t.as_str());
                        w.append(":\n        new (&union_.");
                        w.append(m.as_str());
                        w.append("_val) ");
                        w.append(vt.as_str());
                        w.append("(union_val.");
                        w.append(m.as_str());
                        w.append("_val);\n        break;\n");
                    },
                }
            },
        }
        i = i + 1;
    }
    w.append("    default:\n        break;\n    }\n}\n\n");
    w.append("void ");
    w.append(c);
    w.append("::tagged_init_(_Tag tag, _Union&& union_val) {\n    switch (tag) {\n");
    proof {
        assert(spec_priv_move_upto(item.deep_view(), 0) == Ok::<Seq<char>, SpecError>(w@));
    }
    let mut i: usize = 0;
    while i < n
        invariant
            n == item.variants@.len(),
            0 <= i <= n,
            class@ == pascal_of(item.deep_view().ident),
            wf_spec_item(item.deep_view()),
            spec_priv_move_upto(item.deep_view(), i as int) == Ok::<Seq<char>, SpecError>(w@),
        decreases n - i,
    {
        let v = &item.variants[i];
        proof {
            assert(v.deep_view() == item.deep_view().variants[i as int]);
        }
        match &v.fields {
            Fields::Unit => {},
            _ => {
                match fields_to_cpp_type(&v.fields) {
                    Err(e) => {
                        proof {
                            lemma_priv_move_err(
                                item.deep_view(),
                                i + 1,
                                item.variants@.len() as int,
                            );
                            lemma_priv_deinit_err(
                                item.deep_view(),
                                0,
                                item.variants@.len() as int,
                            );
                        }
                        return Err(e);
                    },
                    Ok(vt) => {
                        let t = tag_name(v);
                        let m = member_name(v);
                        w.append("    case _Tag::");
                        w.append(t.as_str());
                        w.append(":\n        new (&union_.");
                        w.append(m.as_str());
                        w.append("_val) ");
                        w.append(vt.as_str());
                        w.append("(std::move(union_val.");
                        w.append(m.as_str());
                        w.append("_val));\n        break;\n");
                    },
                }
            },
        }
        i = i + 1;
    }
    w.append("    default:\n        break;\n    }\n}\n\n");
    w.append("void ");
    w.append(c);
    w.append("::deinit_union_() {\n    switch (tag_) {\n");
    proof {
        assert(spec_priv_deinit_upto(item.deep_view(), 0) == Ok::<Seq<char>, SpecError>(w@));
    }
    let mut i: usize = 0;
    while i < n
        invariant
            n == item.variants@.len(),
            0 <= i <= n,
            class@ == pascal_of(item.deep_view().ident),
            wf_spec_item(item.deep_view()),
            spec_priv_deinit_upto(item.deep_view(), i as int) == Ok::<Seq<char>, SpecError>(w@),
        decreases n - i,
    {
        let v = &item.variants[i];
        proof {
            assert(v.deep_view() == item.deep_view().variants[i as int]);
            assert(crate::decl::wf_spec_fields(v.deep_view().fields));
        }
        match &v.fields {
            Fields::Unit => {},
            _ => {
                match fields_to_cpp_dtor(&v.fields) {
                    Err(e) => {
                        proof {
                            lemma_priv_deinit_err(
                                item.deep_view(),
                                i + 1,
                                item.variants@.len() as int,
                            );
                        }
                        return Err(e);
                    },
                    Ok(dt) => {
                        let t = tag_name(v);
                        let m = member_name(v);
                        w.append("    case _Tag::");
                        w.append(t.as_str());
                        w.append(":\n        union_.");
                        w.append(m.as_str());
                        w.append("_val.");
                        w.append(dt.as_str());
                        w.append("();\n        break;\n");
                    },
                }
            },
        }
        i = i + 1;
    }
    w.append("    default:\n        break;\n    }\n}\n\n");
    Ok(w)
}

// ---------------------------------------------------------------------------
// Whole definition surface.
// ---------------------------------------------------------------------------

/// Banner and include line, up to the first `j` namespace parts of the
/// include path.
pub open spec fn spec_impl_head_upto(item: SpecItemEnum, ns: Seq<Seq<char>>, j: int) -> Seq<char>
    decreases j,
{
    if j <= 0 {
        "// THIS FILE IS GENERATED AND MANAGED BY cppust-gen, DO NOT CHANGE\n// PLEASE CHANGE "@
            + snake_of(item.ident) + ".cpp INSTEAD\n\n#include \""@
    } else {
        spec_impl_head_upto(item, ns, j - 1) + ns[j - 1] + "/"@
    }
}

/// Namespace opening line, up to the first `j` parts, appended to `prior`.
pub open spec fn spec_ns_open_upto(prior: Seq<char>, ns: Seq<Seq<char>>, j: int) -> Seq<char>
    decreases j,
{
    if j <= 0 {
        prior
    } else if j == 1 {
        spec_ns_open_upto(prior, ns, 0) + "namespace "@ + ns[0] + " {"@
    } else {
        spec_ns_open_upto(prior, ns, j - 1) + " namespace "@ + ns[j - 1] + " {"@
    }
}

/// Namespace closing line, up to the first `j` parts, appended to `prior`.
pub open spec fn spec_ns_close_upto(prior: Seq<char>, ns: Seq<Seq<char>>, j: int) -> Seq<char>
    decreases j,
{
    if j <= 0 {
        prior
    } else if j == 1 {
        spec_ns_close_upto(prior, ns, 0) + "}"@
    } else {
        spec_ns_close_upto(prior, ns, j - 1) + " }"@
    }
}

/// The failure-free part of the definition surface: banner, include line,
/// namespace opening, constructors, destructor and operators.
pub open spec fn spec_impl_fixed(item: SpecItemEnum, ns: Seq<Seq<char>>) -> Seq<char> {
    let afterinc = spec_impl_head_upto(item, ns, ns.len() as int) + snake_of(item.ident)
        + ".hpp\"\n\n"@;
    let h2 = if ns.len() > 0 {
        spec_ns_open_upto(afterinc, ns, ns.len() as int) + "\n\n"@
    } else {
        afterinc
    };
    h2 + spec_impl_ctors(pascal_of(item.ident)) + "\n"@ + spec_impl_dtors(pascal_of(item.ident))
        + "\n"@ + spec_impl_operators(item) + "\n"@
}

/// The whole definition surface of one declaration, or the first failure: the
/// method bodies for every signature the declaration surface declares,
/// iterating the variants in declaration order throughout.
pub open spec fn spec_impl_text(item: SpecItemEnum, ns: Seq<Seq<char>>) -> Result<
    Seq<char>,
    SpecError,
> {
    match spec_impl_enum_ctors(item) {
        Err(e) => Err(e),
        Ok(ec) => match spec_impl_accessors(item) {
            Err(e) => Err(e),
            Ok(ac) => match spec_impl_private(item) {
                Err(e) => Err(e),
                Ok(pm) => {
                    let body = spec_impl_fixed(item, ns) + ec + ac + pm;
                    if ns.len() > 0 {
                        Ok(spec_ns_close_upto(body + "\n"@, ns, ns.len() as int) + "\n"@)
                    } else {
                        Ok(body)
                    }
                },
            },
        },
    }
}

/// Renders the definition surface of one declaration into the given
/// namespace: every method body, referencing the discriminant entries and
/// member names exactly as the declaration surface declares them. Any failure
/// aborts the whole declaration with no partial artifact.
pub fn write(item: &ItemEnum, namespace: &Vec<String>) -> (r: Result<String, Error>)
    requires
        wf_spec_item(item.deep_view()),
    ensures
        res_view(r) == spec_impl_text(item.deep_view(), namespace.deep_view()),
{
    let file = IdentName::from(item.ident.as_str()).to_file_name();
    let nn = namespace.len();
    proof {
        assert(namespace.deep_view().len() == namespace@.len());
    }

    let mut w = String::from_str(
        "// THIS FILE IS GENERATED AND MANAGED BY cppust-gen, DO NOT CHANGE\n// PLEASE CHANGE ",
    );
    w.append(file.as_str());
    w.append(".cpp INSTEAD\n\n#include \"");
    let mut j: usize = 0;
    while j < nn
        invariant
            nn == namespace@.len(),
            0 <= j <= nn,
            namespace.deep_view().len() == namespace@.len(),
            w@ == spec_impl_head_upto(item.deep_view(), namespace.deep_view(), j as int),
        decreases nn - j,
    {
        proof {
            assert(namespace@[j as int]@ == namespace.deep_view()[j as int]);
        }
        w.append(namespace[j].as_str());
        w.append("/");
        j = j + 1;
    }
    w.append(file.as_str());
    w.append(".hpp\"\n\n");

    if nn > 0 {
        let ghost afterinc = w@;
        let mut j: usize = 0;
        while j < nn
            invariant
                nn == namespace@.len(),
                0 <= j <= nn,
                namespace.deep_view().len() == namespace@.len(),
                w@ == spec_ns_open_upto(afterinc, namespace.deep_view(), j as int),
            decreases nn - j,
        {
            proof {
                assert(namespace@[j as int]@ == namespace.deep_view()[j as int]);
            }
            if j == 0 {
                w.append("namespace ");
            } else {
                w.append(" namespace ");
            }
            w.append(namespace[j].as_str());
            w.append(" {");
            j = j + 1;
        }
        w.append("\n\n");
    }
    proof {
        let h2 = w@;
        assert(h2 == {
            let afterinc = spec_impl_head_upto(
                item.deep_view(),
                namespace.deep_view(),
                namespace.deep_view().len() as int,
            ) + snake_of(item.deep_view().ident) + ".hpp\"\n\n"@;
            if namespace.deep_view().len() > 0 {
                spec_ns_open_upto(
                    afterinc,
                    namespace.deep_view(),
                    namespace.deep_view().len() as int,
                ) + "\n\n"@
            } else {
                afterinc
            }
        });
    }

    let ctors = write_ctors(item);
    w.append(ctors.as_str());
    w.append("\n");
    let dtors = write_dtors(item);
    w.append(dtors.as_str());
    w.append("\n");
    let ops = write_operators(item);
    w.append(ops.as_str());
    w.append("\n");
    proof {
        assert(w@ == spec_impl_fixed(item.deep_view(), namespace.deep_view()));
    }

    let ec = match write_enum_ctors(item) {
        Err(e) => {
            return Err(e);
        },
        Ok(ec) => ec,
    };
    w.append(ec.as_str());
    let ac = match write_accessors(item) {
        Err(e) => {
            return Err(e);
        },
        Ok(ac) => ac,
    };
    w.append(ac.as_str());
    let pm = match write_private_methods(item) {
        Err(e) => {
            return Err(e);
        },
        Ok(pm) => pm,
    };
    w.append(pm.as_str());

    if nn > 0 {
        w.append("\n");
        let ghost body_nl = w@;
        let mut j: usize = 0;
        while j < nn
            invariant
                nn == namespace@.len(),
                0 <= j <= nn,
                w@ == spec_ns_close_upto(body_nl, namespace.deep_view(), j as int),
            decreases nn - j,
        {
            if j == 0 {
                w.append("}");
            } else {
                w.append(" }");
            }
            j = j + 1;
        }
        w.append("\n");
    }
    Ok(w)
}

} // verus!
