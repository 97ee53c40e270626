//! Variant lowering engine: per-variant names and code fragments shared by the
//! declaration and definition emitters. Both emitters derive every name and
//! every fragment from these functions, in declaration order, so that the two
//! artifacts can never disagree on discriminant identity or member naming.

use vstd::prelude::*;

use crate::decl::{ItemEnum, SpecItemEnum, SpecVariant, Variant};
use crate::error::SpecError;
use crate::names::{pascal_of, push_char, snake_of, IdentName};
use crate::types::{spec_fields_cpp, spec_fields_dtor};

verus! {

/// The decimal digit character for one digit value.
pub open spec fn spec_digit(d: nat) -> char {
    if d == 0 {
        '0'
    } else if d == 1 {
        '1'
    } else if d == 2 {
        '2'
    } else if d == 3 {
        '3'
    } else if d == 4 {
        '4'
    } else if d == 5 {
        '5'
    } else if d == 6 {
        '6'
    } else if d == 7 {
        '7'
    } else if d == 8 {
        '8'
    } else {
        '9'
    }
}

/// Decimal rendering of a number, most significant digit first.
pub open spec fn spec_dec(n: nat) -> Seq<char>
    decreases n,
{
    if n < 10 {
        seq![spec_digit(n)]
    } else {
        spec_dec(n / 10).push(spec_digit(n % 10))
    }
}

fn digit_char(d: usize) -> (r: char)
    requires
        d < 10,
    ensures
        r == spec_digit(d as nat),
{
    if d == 0 {
        '0'
    } else if d == 1 {
        '1'
    } else if d == 2 {
        '2'
    } else if d == 3 {
        '3'
    } else if d == 4 {
        '4'
    } else if d == 5 {
        '5'
    } else if d == 6 {
        '6'
    } else if d == 7 {
        '7'
    } else if d == 8 {
        '8'
    } else {
        '9'
    }
}

/// Renders a number in decimal.
pub fn dec_str(n: usize) -> (r: String)
    ensures
        r@ == spec_dec(n as nat),
    decreases n,
{
    if n < 10 {
        let mut r = String::new();
        push_char(&mut r, digit_char(n));
        proof {
            assert(r@ =~= seq![spec_digit(n as nat)]);
        }
        r
    } else {
        let mut r = dec_str(n / 10);
        push_char(&mut r, digit_char(n % 10));
        r
    }
}

/// Discriminant-entry name of a variant: the PascalCase rendering of its
/// identifier.
pub open spec fn spec_tag_name(v: SpecVariant) -> Seq<char> {
    pascal_of(v.ident)
}

/// Union-member base name of a variant: the snake_case rendering of its
/// identifier (the raw payload slot is this name suffixed with `_val`).
pub open spec fn spec_member_name(v: SpecVariant) -> Seq<char> {
    snake_of(v.ident)
}

/// True when the variant carries a payload: only a variant declared without
/// any field list has none.
pub open spec fn spec_has_payload(v: SpecVariant) -> bool {
    !(v.fields is Unit)
}

/// Payload type string of a variant.
pub open spec fn spec_payload_type(v: SpecVariant) -> Result<Seq<char>, SpecError> {
    spec_fields_cpp(v.fields)
}

/// Destructor spelling of a variant's payload.
pub open spec fn spec_payload_dtor(v: SpecVariant) -> Result<Seq<char>, SpecError> {
    spec_fields_dtor(v.fields)
}

/// The discriminant entries of a declaration: one entry per variant, in
/// declaration order. Both emitted artifacts reference exactly this sequence.
pub open spec fn spec_discriminants(item: SpecItemEnum) -> Seq<Seq<char>> {
    Seq::new(item.variants.len(), |i: int| spec_tag_name(item.variants[i]))
}

/// Discriminant-entry name of a variant.
pub fn tag_name(v: &Variant) -> (r: String)
    ensures
        r@ == spec_tag_name(v.deep_view()),
{
    IdentName::from(v.ident.as_str()).to_enum_variant_name()
}

/// Union-member base name of a variant.
pub fn member_name(v: &Variant) -> (r: String)
    ensures
        r@ == spec_member_name(v.deep_view()),
{
    IdentName::from(v.ident.as_str()).to_public_member_name()
}

/// Class name of the declared type.
pub fn class_name(item: &ItemEnum) -> (r: String)
    ensures
        r@ == pascal_of(item.deep_view().ident),
{
    IdentName::from(item.ident.as_str()).to_class_name()
}

} // verus!
