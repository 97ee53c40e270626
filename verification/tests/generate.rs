use cppust_gen::decl::{Fields, ItemEnum, PathArguments, PathSegment, Type, Variant};
use cppust_gen::error::Error;
use cppust_gen::{enum_hdr, enum_impl};

fn simple(ident: &str) -> Type {
    Type::Path(vec![PathSegment {
        ident: ident.to_owned(),
        arguments: PathArguments::Empty,
    }])
}

fn three_variant_decl() -> ItemEnum {
    ItemEnum {
        ident: "Foo".to_owned(),
        variants: vec![
            Variant { ident: "Empty".to_owned(), fields: Fields::Unit },
            Variant {
                ident: "Single".to_owned(),
                fields: Fields::Unnamed(vec![simple("u32")]),
            },
            Variant {
                ident: "Multiple".to_owned(),
                fields: Fields::Unnamed(vec![simple("u16"), simple("u16")]),
            },
        ],
    }
}

#[test]
fn test_discriminants_agree_between_artifacts() {
    let item = three_variant_decl();
    let ns: Vec<String> = vec![];
    let hdr = enum_hdr::write(&item, &ns).unwrap();
    let imp = enum_impl::write(&item, &ns).unwrap();

    // One entry per variant, in declaration order, in the header.
    assert!(hdr.contains(
        "    enum class _Tag {\n        Empty,\n        Single,\n        Multiple,\n    };"
    ));
    // The definition surface references every tag by the same name the
    // header declares.
    for tag in ["Empty", "Single", "Multiple"] {
        assert!(hdr.contains(&format!("        {},\n", tag)));
        assert!(imp.contains(&format!("_Tag::{}", tag)));
    }
}

#[test]
fn test_empty_variant_contributes_no_storage_or_destroy() {
    let item = three_variant_decl();
    let ns: Vec<String> = vec![];
    let hdr = enum_hdr::write(&item, &ns).unwrap();
    let imp = enum_impl::write(&item, &ns).unwrap();

    // No storage member and no accessor quartet for the empty variant.
    assert!(!hdr.contains("empty_val"));
    assert!(!hdr.contains("empty_ref"));
    assert!(!hdr.contains("empty_ptr"));
    assert!(!imp.contains("empty_val"));
    // Only the predicate and the zero-argument labelled constructor.
    assert!(hdr.contains("    bool is_empty() const;\n"));
    assert!(hdr.contains("    static Foo Empty();\n"));
    assert!(imp.contains("Foo Foo::Empty() {\n    return Foo(_Tag::Empty);\n}\n"));
    assert!(imp.contains("bool Foo::is_empty() const {\n    return tag_ == _Tag::Empty;\n}\n"));
}

#[test]
fn test_pair_payload_uses_tuple_and_two_parameters() {
    let item = three_variant_decl();
    let ns: Vec<String> = vec![];
    let hdr = enum_hdr::write(&item, &ns).unwrap();
    let imp = enum_impl::write(&item, &ns).unwrap();

    assert!(hdr.contains(
        "    static Foo Multiple(const ::cppust::u16& v0, const ::cppust::u16& v1);\n"
    ));
    assert!(hdr.contains("        std::tuple<::cppust::u16, ::cppust::u16> multiple_val;\n"));
    assert!(imp.contains(
        "Foo Foo::Multiple(const ::cppust::u16& v0, const ::cppust::u16& v1) {"
    ));
    assert!(imp.contains(
        "    new (&output.union_.multiple_val) std::tuple<::cppust::u16, ::cppust::u16>(v0, v1);\n"
    ));
}

#[test]
fn test_accessors_guard_the_live_tag() {
    let item = three_variant_decl();
    let ns: Vec<String> = vec![];
    let imp = enum_impl::write(&item, &ns).unwrap();

    // The nullable accessor returns an absent pointer when the live tag
    // differs, and the payload pointer otherwise.
    assert!(imp.contains(
        "const ::cppust::u32* Foo::single_ptr() const {\n    if (tag_ != _Tag::Single) {\n        return nullptr;\n    }\n    return &union_.single_val;\n}\n"
    ));
    // The checked reference fails on a wrong tag.
    assert!(imp.contains(
        "const ::cppust::u32& Foo::single_ref() const {\n    if (tag_ != _Tag::Single) {\n        throw std::runtime_error(\"requires Single\");\n    }\n    return union_.single_val;\n}\n"
    ));
    // Equality decides on the tag before any payload comparison.
    let eq_at = imp.find("::operator==(").unwrap();
    let eq_body = &imp[eq_at..];
    let tag_check = eq_body.find("if (tag_ != rhs.tag_) { return false; }").unwrap();
    let payload_cmp = eq_body.find("return union_.").unwrap();
    assert!(tag_check < payload_cmp);
}

#[test]
fn test_self_assignment_checked_before_destroy() {
    let item = three_variant_decl();
    let ns: Vec<String> = vec![];
    let imp = enum_impl::write(&item, &ns).unwrap();

    let copy_at = imp.find("::operator=(const").unwrap();
    let copy_body = &imp[copy_at..];
    let guard = copy_body.find("if (this == &rhs) { return *this; }").unwrap();
    let destroy = copy_body.find("deinit_union_();").unwrap();
    assert!(guard < destroy);

    let move_at = imp.find("::operator=(Foo&&").unwrap();
    let move_body = &imp[move_at..];
    let guard = move_body.find("if (this == &rhs) { return *this; }").unwrap();
    let destroy = move_body.find("deinit_union_();").unwrap();
    assert!(guard < destroy);
}

#[test]
fn test_same_tag_assignment_reuses_storage() {
    let item = three_variant_decl();
    let ns: Vec<String> = vec![];
    let imp = enum_impl::write(&item, &ns).unwrap();

    // Matching tags copy the payload in place instead of destroying it.
    assert!(imp.contains(
        "        case _Tag::Single:\n            union_.single_val = rhs.union_.single_val;\n            break;\n"
    ));
    assert!(imp.contains(
        "        case _Tag::Single:\n            union_.single_val = std::move(rhs.union_.single_val);\n            break;\n"
    ));
    // Differing tags destroy the old payload, then construct the new one.
    assert!(imp.contains(
        "    } else {\n        deinit_union_();\n        tag_ = rhs.tag_;\n        tagged_init_(rhs.tag_, rhs.union_);\n    }\n"
    ));
    // The destroy dispatcher invokes each payload's own destructor spelling.
    assert!(imp.contains(
        "    case _Tag::Multiple:\n        union_.multiple_val.~tuple();\n        break;\n"
    ));
    assert!(imp.contains(
        "    case _Tag::Single:\n        union_.single_val.~u32();\n        break;\n"
    ));
}

#[test]
fn test_namespace_wraps_both_artifacts() {
    let item = three_variant_decl();
    let ns: Vec<String> = vec!["my".to_owned(), "ns".to_owned()];
    let hdr = enum_hdr::write(&item, &ns).unwrap();
    let imp = enum_impl::write(&item, &ns).unwrap();

    assert!(hdr.contains("namespace my { namespace ns {"));
    assert!(hdr.trim_end().ends_with("} }"));
    assert!(imp.contains("namespace my { namespace ns {"));
    assert!(imp.trim_end().ends_with("} }"));
    assert!(imp.starts_with(
        "// THIS FILE IS GENERATED AND MANAGED BY cppust-gen, DO NOT CHANGE\n// PLEASE CHANGE foo.cpp INSTEAD\n\n#include \"my/ns/foo.hpp\"\n"
    ));
}

#[test]
fn test_minimal_definition_surface_is_exact() {
    let item = ItemEnum {
        ident: "Tiny".to_owned(),
        variants: vec![Variant { ident: "A".to_owned(), fields: Fields::Unit }],
    };
    let ns: Vec<String> = vec![];
    let imp = enum_impl::write(&item, &ns).unwrap();
    let mut expected = String::new();
    expected.push_str("// THIS FILE IS GENERATED AND MANAGED BY cppust-gen, DO NOT CHANGE\n");
    expected.push_str("// PLEASE CHANGE tiny.cpp INSTEAD\n");
    expected.push_str("\n");
    expected.push_str("#include \"tiny.hpp\"\n");
    expected.push_str("\n");
    expected.push_str("// public constructors\n");
    expected.push_str("Tiny::Tiny(const Tiny& rhs): Tiny(rhs.tag_, rhs.union_) { } // copy constructor\n");
    expected.push_str("Tiny::Tiny(Tiny&& rhs): Tiny(rhs.tag_, std::move(rhs.union_)) { } // move constructor\n");
    expected.push_str("\n");
    expected.push_str("// private constructors\n");
    expected.push_str("Tiny::Tiny(_Tag tag): tag_(tag) { }\n");
    expected.push_str("\n");
    expected.push_str("Tiny::Tiny(_Tag tag, const _Union& union_val): tag_(tag) {\n");
    expected.push_str("    tagged_init_(tag, union_val);\n");
    expected.push_str("}\n");
    expected.push_str("\n");
    expected.push_str("Tiny::Tiny(_Tag tag, _Union&& union_val): tag_(tag) {\n");
    expected.push_str("    tagged_init_(tag, std::move(union_val));\n");
    expected.push_str("}\n");
    expected.push_str("\n");
    expected.push_str("\n");
    expected.push_str("// destructor\n");
    expected.push_str("Tiny::~Tiny() {\n");
    expected.push_str("    deinit_union_();\n");
    expected.push_str("}\n");
    expected.push_str("\n");
    expected.push_str("// operators\n");
    expected.push_str("Tiny& Tiny::operator=(const Tiny& rhs) { // assign\n");
    expected.push_str("    if (this == &rhs) { return *this; }\n");
    expected.push_str("\n");
    expected.push_str("    if (tag_ == rhs.tag_) {\n");
    expected.push_str("        switch (tag_) {\n");
    expected.push_str("        default:\n");
    expected.push_str("            break;\n");
    expected.push_str("        }\n");
    expected.push_str("    } else {\n");
    expected.push_str("        deinit_union_();\n");
    expected.push_str("        tag_ = rhs.tag_;\n");
    expected.push_str("        tagged_init_(rhs.tag_, rhs.union_);\n");
    expected.push_str("    }\n");
    expected.push_str("    return *this;\n");
    expected.push_str("}\n");
    expected.push_str("\n");
    expected.push_str("Tiny& Tiny::operator=(Tiny&& rhs) { // move\n");
    expected.push_str("    if (this == &rhs) { return *this; }\n");
    expected.push_str("\n");
    expected.push_str("    if (tag_ == rhs.tag_) {\n");
    expected.push_str("        switch (tag_) {\n");
    expected.push_str("        default:\n");
    expected.push_str("            break;\n");
    expected.push_str("        }\n");
    expected.push_str("    } else {\n");
    expected.push_str("        deinit_union_();\n");
    expected.push_str("        tag_ = rhs.tag_;\n");
    expected.push_str("        tagged_init_(rhs.tag_, std::move(rhs.union_));\n");
    expected.push_str("    }\n");
    expected.push_str("    return *this;\n");
    expected.push_str("}\n");
    expected.push_str("\n");
    expected.push_str("bool Tiny::operator==(const Tiny& rhs) const { // equal\n");
    expected.push_str("    if (this == &rhs) { return true; }\n");
    expected.push_str("    if (tag_ != rhs.tag_) { return false; }\n");
    expected.push_str("    switch (tag_) {\n");
    expected.push_str("    default:\n");
    expected.push_str("        break;\n");
    expected.push_str("    }\n");
    expected.push_str("    return true;\n");
    expected.push_str("}\n");
    expected.push_str("\n");
    expected.push_str("bool Tiny::operator!=(const Tiny& rhs) const { // not equal\n");
    expected.push_str("    return !(*this == rhs);\n");
    expected.push_str("}\n");
    expected.push_str("\n");
    expected.push_str("// enum constructors\n");
    expected.push_str("Tiny Tiny::A() {\n");
    expected.push_str("    return Tiny(_Tag::A);\n");
    expected.push_str("}\n");
    expected.push_str("\n");
    expected.push_str("// accessors\n");
    expected.push_str("bool Tiny::is_a() const {\n");
    expected.push_str("    return tag_ == _Tag::A;\n");
    expected.push_str("}\n");
    expected.push_str("\n");
    expected.push_str("// private methods\n");
    expected.push_str("void Tiny::tagged_init_(_Tag tag, const _Union& union_val) {\n");
    expected.push_str("    switch (tag) {\n");
    expected.push_str("    default:\n");
    expected.push_str("        break;\n");
    expected.push_str("    }\n");
    expected.push_str("}\n");
    expected.push_str("\n");
    expected.push_str("void Tiny::tagged_init_(_Tag tag, _Union&& union_val) {\n");
    expected.push_str("    switch (tag) {\n");
    expected.push_str("    default:\n");
    expected.push_str("        break;\n");
    expected.push_str("    }\n");
    expected.push_str("}\n");
    expected.push_str("\n");
    expected.push_str("void Tiny::deinit_union_() {\n");
    expected.push_str("    switch (tag_) {\n");
    expected.push_str("    default:\n");
    expected.push_str("        break;\n");
    expected.push_str("    }\n");
    expected.push_str("}\n");
    expected.push_str("\n");
    assert_eq!(imp, expected);
}

#[test]
fn test_record_style_variant_fails_whole_declaration() {
    let item = ItemEnum {
        ident: "Bad".to_owned(),
        variants: vec![
            Variant { ident: "Fine".to_owned(), fields: Fields::Unit },
            Variant { ident: "Record".to_owned(), fields: Fields::Named },
        ],
    };
    let ns: Vec<String> = vec![];
    assert!(matches!(
        enum_hdr::write(&item, &ns),
        Err(Error::UnknownFieldsType(Fields::Named))
    ));
    assert!(matches!(
        enum_impl::write(&item, &ns),
        Err(Error::UnknownFieldsType(Fields::Named))
    ));
}

#[test]
fn test_bad_field_type_fails_whole_declaration() {
    let item = ItemEnum {
        ident: "Bad".to_owned(),
        variants: vec![Variant {
            ident: "Holds".to_owned(),
            fields: Fields::Unnamed(vec![Type::Unsupported("&str".to_owned())]),
        }],
    };
    let ns: Vec<String> = vec![];
    assert!(matches!(enum_hdr::write(&item, &ns), Err(Error::UnknownType(_))));
    assert!(matches!(enum_impl::write(&item, &ns), Err(Error::UnknownType(_))));
}

#[test]
fn test_empty_positional_payload_fails_on_destroy_dispatch() {
    let item = ItemEnum {
        ident: "Odd".to_owned(),
        variants: vec![Variant {
            ident: "Zero".to_owned(),
            fields: Fields::Unnamed(vec![]),
        }],
    };
    let ns: Vec<String> = vec![];
    // The definition surface needs a destroy expression for the payload and
    // there is none for an empty positional list.
    assert!(matches!(
        enum_impl::write(&item, &ns),
        Err(Error::UnknownFieldsType(Fields::Unnamed(_)))
    ));
}
