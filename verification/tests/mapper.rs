use cppust_gen::decl::{Fields, PathArguments, PathSegment, Type};
use cppust_gen::error::Error;
use cppust_gen::types::{
    fields_to_cpp_dtor, fields_to_cpp_type, type_to_cpp_dtor, type_to_cpp_type,
};
use cppust_gen::Builder;

fn simple(ident: &str) -> Type {
    Type::Path(vec![PathSegment {
        ident: ident.to_owned(),
        arguments: PathArguments::Empty,
    }])
}

fn generic(ident: &str, arg: Type) -> Type {
    Type::Path(vec![PathSegment {
        ident: ident.to_owned(),
        arguments: PathArguments::AngleBracketed(vec![arg]),
    }])
}

#[test]
fn test_primitive_types_are_namespaced() {
    assert_eq!(type_to_cpp_type(&simple("u8")).unwrap(), "::cppust::u8");
    assert_eq!(type_to_cpp_type(&simple("i64")).unwrap(), "::cppust::i64");
    assert_eq!(type_to_cpp_type(&simple("usize")).unwrap(), "::cppust::usize");
    assert_eq!(type_to_cpp_dtor(&simple("u32")).unwrap(), "~u32");
}

#[test]
fn test_builtin_aggregates_map_to_canonical_types() {
    assert_eq!(type_to_cpp_type(&simple("String")).unwrap(), "std::string");
    assert_eq!(
        type_to_cpp_type(&generic("Vec", simple("u8"))).unwrap(),
        "std::vector<::cppust::u8>"
    );
    assert_eq!(
        type_to_cpp_type(&generic("Vec", generic("Vec", simple("String")))).unwrap(),
        "std::vector<std::vector<std::string>>"
    );
    assert_eq!(type_to_cpp_dtor(&simple("String")).unwrap(), "~string");
    assert_eq!(type_to_cpp_dtor(&generic("Vec", simple("u8"))).unwrap(), "~vector");
}

#[test]
fn test_nominal_types_render_in_pascal_case() {
    assert_eq!(type_to_cpp_type(&simple("my_type")).unwrap(), "MyType");
    assert_eq!(type_to_cpp_type(&simple("USBDriver")).unwrap(), "USBDriver");
    assert_eq!(type_to_cpp_dtor(&simple("my_type")).unwrap(), "~MyType");
    let dotted = Type::Path(vec![
        PathSegment { ident: "my_mod".to_owned(), arguments: PathArguments::Empty },
        PathSegment { ident: "my_type".to_owned(), arguments: PathArguments::Empty },
    ]);
    assert_eq!(type_to_cpp_type(&dotted).unwrap(), "MyMod::MyType");
    assert_eq!(type_to_cpp_dtor(&dotted).unwrap(), "~MyType");
}

#[test]
fn test_unrepresentable_types_are_rejected() {
    let bad = Type::Unsupported("&u32".to_owned());
    assert!(matches!(type_to_cpp_type(&bad), Err(Error::UnknownType(_))));
    assert!(matches!(type_to_cpp_dtor(&bad), Err(Error::UnknownType(_))));

    let odd_args = Type::Path(vec![PathSegment {
        ident: "Fn".to_owned(),
        arguments: PathArguments::Unsupported,
    }]);
    assert!(matches!(
        type_to_cpp_type(&odd_args),
        Err(Error::InvalidTypePathSegment(_))
    ));
}

#[test]
fn test_payload_type_strings() {
    assert_eq!(fields_to_cpp_type(&Fields::Unit).unwrap(), "void");
    assert_eq!(fields_to_cpp_type(&Fields::Unnamed(vec![])).unwrap(), "void");
    assert_eq!(
        fields_to_cpp_type(&Fields::Unnamed(vec![simple("u32")])).unwrap(),
        "::cppust::u32"
    );
    assert_eq!(
        fields_to_cpp_type(&Fields::Unnamed(vec![simple("u16"), simple("u16")])).unwrap(),
        "std::tuple<::cppust::u16, ::cppust::u16>"
    );
    assert!(matches!(
        fields_to_cpp_type(&Fields::Named),
        Err(Error::UnknownFieldsType(_))
    ));
}

#[test]
fn test_payload_destructor_spellings() {
    assert!(matches!(
        fields_to_cpp_dtor(&Fields::Unit),
        Err(Error::UnknownFieldsType(_))
    ));
    assert!(matches!(
        fields_to_cpp_dtor(&Fields::Unnamed(vec![])),
        Err(Error::UnknownFieldsType(_))
    ));
    assert_eq!(
        fields_to_cpp_dtor(&Fields::Unnamed(vec![simple("String")])).unwrap(),
        "~string"
    );
    assert_eq!(
        fields_to_cpp_dtor(&Fields::Unnamed(vec![simple("u16"), simple("u16")])).unwrap(),
        "~tuple"
    );
}

#[test]
fn test_builder_requires_both_directories() {
    let r = Builder::new("enum A { B }").build();
    assert!(matches!(r, Err(Error::ConfigError(k, _)) if k == "header_dir"));

    let r = Builder::new("enum A { B }").save_headers_at("inc").build();
    assert!(matches!(r, Err(Error::ConfigError(k, _)) if k == "source_dir"));

    let r = Builder::new("enum A { B }").save_sources_at("src").build();
    assert!(matches!(r, Err(Error::ConfigError(k, _)) if k == "header_dir"));
}

#[test]
fn test_builder_splits_namespace() {
    let cfg = Builder::new("enum A { B }")
        .with_namespace("my::ns")
        .save_headers_at("inc")
        .save_sources_at("src")
        .build()
        .unwrap();
    assert_eq!(cfg.namespace, vec!["my".to_owned(), "ns".to_owned()]);
    assert_eq!(cfg.header_dir, "inc");
    assert_eq!(cfg.source_dir, "src");
    assert_eq!(cfg.source_code, "enum A { B }");

    let cfg = Builder::new("")
        .save_headers_at("inc")
        .save_sources_at("src")
        .build()
        .unwrap();
    assert!(cfg.namespace.is_empty());
}
