use cppust_gen::names::{parse_ident_part, segment_ident_name, IdentName, IdentPart};

#[test]
fn test_segment_ident_name() {
    assert_eq!(segment_ident_name("lower"), vec!["lower".to_owned()]);
    assert_eq!(segment_ident_name("UPPER"), vec!["UPPER".to_owned()]);
    assert_eq!(segment_ident_name("Capital"), vec!["Capital".to_owned()]);
    assert_eq!(
        segment_ident_name("under_score"),
        vec!["under".to_owned(), "score".to_owned()]
    );
    assert_eq!(
        segment_ident_name("USBDriver"),
        vec!["USB".to_owned(), "Driver".to_owned()]
    );
    assert_eq!(
        segment_ident_name("USB_Driver"),
        vec!["USB".to_owned(), "Driver".to_owned()]
    );
    assert_eq!(
        segment_ident_name("camelCase"),
        vec!["camel".to_owned(), "Case".to_owned()]
    );
    assert_eq!(
        segment_ident_name("camelCase123"),
        vec!["camel".to_owned(), "Case123".to_owned()]
    );
    assert_eq!(
        segment_ident_name("USB2Driver"),
        vec!["USB2".to_owned(), "Driver".to_owned()]
    );
    assert_eq!(
        segment_ident_name("Usb2Driver"),
        vec!["Usb2".to_owned(), "Driver".to_owned()]
    );
    assert_eq!(
        segment_ident_name("usb2_driver"),
        vec!["usb2".to_owned(), "driver".to_owned()]
    );
}

#[test]
fn test_parse_ident_part() {
    assert_eq!(
        parse_ident_part("lower".to_owned()),
        IdentPart::AllLowerCase("lower".to_owned())
    );
    assert_eq!(
        parse_ident_part("UPPER".to_owned()),
        IdentPart::AllUpperCase("UPPER".to_owned())
    );
    assert_eq!(
        parse_ident_part("Capital".to_owned()),
        IdentPart::CapitalFirst("Capital".to_owned())
    );
    assert_eq!(
        parse_ident_part("Case123".to_owned()),
        IdentPart::CapitalFirst("Case123".to_owned())
    );
    assert_eq!(
        parse_ident_part("USB2".to_owned()),
        IdentPart::AllUpperCase("USB2".to_owned())
    );
    assert_eq!(
        parse_ident_part("Usb2".to_owned()),
        IdentPart::CapitalFirst("Usb2".to_owned())
    );
    assert_eq!(
        parse_ident_part("usb2".to_owned()),
        IdentPart::AllLowerCase("usb2".to_owned())
    );
}

#[test]
fn test_pascal_and_snake_rendering() {
    let name = IdentName::from("USB_Driver");
    assert_eq!(name.to_class_name(), "USBDriver");
    assert_eq!(name.to_file_name(), "usb_driver");
    assert_eq!(name.to_enum_variant_name(), "USBDriver");
    assert_eq!(name.to_public_member_name(), "usb_driver");

    let name = IdentName::from("USBDriver");
    assert_eq!(name.to_class_name(), "USBDriver");
    assert_eq!(name.to_file_name(), "usb_driver");

    let name = IdentName::from("camelCase123");
    assert_eq!(name.to_class_name(), "CamelCase123");
    assert_eq!(name.to_file_name(), "camel_case123");
}

#[test]
fn test_capital_first_and_lower_forms() {
    assert_eq!(
        IdentPart::AllLowerCase("driver".to_owned()).to_capital_first(),
        "Driver"
    );
    assert_eq!(
        IdentPart::AllUpperCase("USB".to_owned()).to_capital_first(),
        "USB"
    );
    assert_eq!(
        IdentPart::CapitalFirst("Case123".to_owned()).to_capital_first(),
        "Case123"
    );
    assert_eq!(
        IdentPart::AllUpperCase("USB2".to_owned()).to_all_lower_case(),
        "usb2"
    );
    assert_eq!(
        IdentPart::CapitalFirst("Driver".to_owned()).to_all_lower_case(),
        "driver"
    );
    assert_eq!(
        IdentPart::AllLowerCase("usb2".to_owned()).to_all_lower_case(),
        "usb2"
    );
}

#[test]
fn test_snake_then_resegment_keeps_tokens() {
    for ident in ["USBDriver", "USB_Driver", "camelCase123", "USB2Driver", "Usb2Driver", "plain"] {
        let snake = IdentName::from(ident).to_file_name();
        let lowered: Vec<String> = segment_ident_name(ident)
            .into_iter()
            .map(|t| t.to_lowercase())
            .collect();
        assert_eq!(segment_ident_name(&snake), lowered);
    }
}

#[test]
fn test_segment_edge_cases() {
    let empty: Vec<String> = vec![];
    assert_eq!(segment_ident_name(""), empty);
    assert_eq!(IdentName::from("").to_class_name(), "");
    assert_eq!(IdentName::from("").to_file_name(), "");
    // A separating underscore is dropped; one opening a piece stays with it.
    assert_eq!(segment_ident_name("foo_"), vec!["foo".to_owned()]);
    assert_eq!(segment_ident_name("_foo"), vec!["_foo".to_owned()]);
    assert_eq!(
        segment_ident_name("a__b"),
        vec!["a".to_owned(), "_b".to_owned()]
    );
    // The boundary falls before the last uppercase letter of an uppercase
    // run, and a digit continues whatever run it terminates.
    assert_eq!(
        segment_ident_name("ABcDE"),
        vec!["A".to_owned(), "BcDE".to_owned()]
    );
    assert_eq!(segment_ident_name("123abc"), vec!["123abc".to_owned()]);
}

#[test]
fn test_uppercase_first_letter() {
    assert_eq!(cppust_gen::names::uppercase_first_letter("driver"), "Driver");
    assert_eq!(cppust_gen::names::uppercase_first_letter(""), "");
    assert_eq!(cppust_gen::names::uppercase_first_letter("2nd"), "2nd");
}
