use adhoc_derive::adhoc::{
    decimal_text, determine_data_type, extract_regex, from_str_derive, from_str_derive_enum,
    from_str_derive_struct, generate_enum_instantiation, generate_struct_instantiation,
    generate_variant_instantiation_preamble, get_enum_variants, parse_attributes, parse_fields,
    parse_fields_internal, positional_field_name, DeriveError, EnumParser, EnumVariant, Parser,
    StructParser, VariantParser,
};
use adhoc_derive::expr::{Expr, FieldValue};
use adhoc_derive::regex::PatternErrorKind;
use adhoc_derive::routine::{extract, select_variant, ParseError};
use adhoc_derive::schema::{
    Arg, Attribute, Data, DataType, DeriveInput, Field, FieldAttributes, Fields, Lit, Variant,
};
use adhoc_derive::transform_idents::RewriteError;

fn id(name: &str) -> Expr {
    Expr::Ident(name.to_string())
}

fn cap(name: &str, ty: &str) -> Expr {
    Expr::Capture { name: name.to_string(), target: Some(ty.to_string()) }
}

fn free(name: &str) -> Expr {
    Expr::Capture { name: name.to_string(), target: None }
}

fn named(name: &str, ty: &str) -> Field {
    Field { ident: Some(name.to_string()), ty: ty.to_string(), construct_with: None }
}

fn positional(ty: &str) -> Field {
    Field { ident: None, ty: ty.to_string(), construct_with: None }
}

fn init(member: &str, value: Expr) -> FieldValue {
    FieldValue { member: member.to_string(), shorthand: false, value }
}

fn name_value(name: &str, value: &str) -> Arg {
    Arg::NameValue { name: name.to_string(), value: Lit::Str(value.to_string()) }
}

fn adhoc(args: Vec<Arg>) -> Attribute {
    Attribute { name: "adhoc".to_string(), args: Some(args) }
}

fn input(name: &str, regex: Option<&str>, data: Data) -> DeriveInput {
    DeriveInput { ident: name.to_string(), regex: regex.map(|r| r.to_string()), data }
}

fn variant(name: &str, regex: Option<&str>, fields: Fields) -> Variant {
    Variant { ident: name.to_string(), regex: regex.map(|r| r.to_string()), fields }
}

#[test]
fn regex_is_the_first_one_given() {
    let attrs = vec![
        Attribute { name: "derive".to_string(), args: Some(vec![Arg::Other]) },
        Attribute { name: "doc".to_string(), args: None },
        adhoc(vec![Arg::Other, name_value("other", "x"), name_value("regex", "^a$")]),
        adhoc(vec![name_value("regex", "^b$")]),
    ];
    assert_eq!(Some("^a$".to_string()), extract_regex(&attrs));
}

#[test]
fn regex_that_is_no_string_is_passed_over() {
    let attrs = vec![
        adhoc(vec![Arg::NameValue { name: "regex".to_string(), value: Lit::Other }]),
        adhoc(vec![name_value("regex", "^b$")]),
    ];
    assert_eq!(Some("^b$".to_string()), extract_regex(&attrs));
}

#[test]
fn regex_outside_adhoc_does_not_count() {
    let attrs = vec![
        Attribute { name: "other".to_string(), args: Some(vec![name_value("regex", "^a$")]) },
        Attribute { name: "adhoc".to_string(), args: None },
        adhoc(vec![name_value("construct_with", "a + b")]),
    ];
    assert_eq!(None, extract_regex(&attrs));
    assert_eq!(None, extract_regex(&vec![]));
}

#[test]
fn construct_with_is_the_last_one_given() {
    let attrs = vec![
        adhoc(vec![name_value("construct_with", "a"), name_value("regex", "x")]),
        Attribute { name: "other".to_string(), args: Some(vec![name_value("construct_with", "z")]) },
        adhoc(vec![Arg::Other, name_value("construct_with", "a + b")]),
    ];
    assert_eq!(
        Ok(FieldAttributes { construct_with: Some("a + b".to_string()) }),
        parse_attributes(&attrs)
    );
    assert_eq!(Ok(FieldAttributes { construct_with: None }), parse_attributes(&vec![]));
}

#[test]
fn construct_with_must_be_a_string() {
    let attrs = vec![
        adhoc(vec![name_value("construct_with", "a")]),
        adhoc(vec![Arg::NameValue { name: "construct_with".to_string(), value: Lit::Other }]),
        adhoc(vec![name_value("construct_with", "b")]),
    ];
    assert_eq!(Err(DeriveError::ConstructWith), parse_attributes(&attrs));
    assert_eq!(
        "construct_with must be a function call expression!",
        DeriveError::ConstructWith.message()
    );
}

#[test]
fn data_types_are_told_apart() {
    assert_eq!(DataType::Struct, determine_data_type(&Data::Struct(Fields::Named(vec![]))));
    assert_eq!(
        DataType::TupleStruct,
        determine_data_type(&Data::Struct(Fields::Unnamed(vec![positional("u32")])))
    );
    assert_eq!(DataType::UnitStruct, determine_data_type(&Data::Struct(Fields::Unit)));
    assert_eq!(DataType::Enum, determine_data_type(&Data::Enum(vec![])));
    assert_eq!(DataType::Union, determine_data_type(&Data::Union));
}

#[test]
fn numbers_are_written_in_decimal() {
    assert_eq!("0", decimal_text(0));
    assert_eq!("7", decimal_text(7));
    assert_eq!("10", decimal_text(10));
    assert_eq!("99", decimal_text(99));
    assert_eq!("100", decimal_text(100));
    assert_eq!("12345", decimal_text(12345));
    assert_eq!(usize::MAX.to_string(), decimal_text(usize::MAX));
}

#[test]
fn positional_fields_read_prefixed_groups() {
    assert_eq!("__0", positional_field_name(0));
    assert_eq!("__3", positional_field_name(3));
    assert_eq!("__12", positional_field_name(12));
}

#[test]
fn fields_read_the_capture_of_their_name() {
    let fields = vec![named("id", "usize"), named("x", "u8")];
    assert_eq!(
        Ok((
            vec!["id".to_string(), "x".to_string()],
            vec![cap("id", "usize"), cap("x", "u8")]
        )),
        parse_fields_internal(fields)
    );
    let fields = vec![positional("u32"), positional("String")];
    assert_eq!(
        Ok((vec![], vec![cap("__0", "u32"), cap("__1", "String")])),
        parse_fields_internal(fields)
    );
    assert_eq!(Ok((vec![], vec![])), parse_fields_internal(vec![]));
}

#[test]
fn construction_expression_replaces_the_default() {
    let sum = Expr::Binary {
        left: Box::new(id("a")),
        op: "+".to_string(),
        right: Box::new(id("b")),
    };
    let fields = vec![
        positional("u32"),
        Field { ident: None, ty: "u32".to_string(), construct_with: Some(sum) },
    ];
    let expected = Expr::Binary {
        left: Box::new(free("a")),
        op: "+".to_string(),
        right: Box::new(free("b")),
    };
    assert_eq!(Ok((vec![], vec![cap("__0", "u32"), expected])), parse_fields_internal(fields));
}

#[test]
fn first_refused_field_ends_the_parsing_of_fields() {
    let fields = vec![
        named("a", "u8"),
        Field { ident: Some("b".to_string()), ty: "u8".to_string(), construct_with: Some(Expr::Closure) },
        Field { ident: Some("c".to_string()), ty: "u8".to_string(), construct_with: Some(Expr::Loop) },
    ];
    assert_eq!(
        Err(DeriveError::Expression(RewriteError::Closure)),
        parse_fields_internal(fields)
    );
    assert_eq!(
        "Closures are not supported in construct_with attribute",
        DeriveError::Expression(RewriteError::Closure).message()
    );
}

#[test]
fn fields_of_a_struct() {
    assert_eq!(
        Ok((Some(vec!["a".to_string()]), vec![cap("a", "u8")])),
        parse_fields(Data::Struct(Fields::Named(vec![named("a", "u8")])))
    );
    assert_eq!(
        Ok((None, vec![cap("__0", "u8")])),
        parse_fields(Data::Struct(Fields::Unnamed(vec![positional("u8")])))
    );
    assert_eq!(Err(DeriveError::ExpectedFields), parse_fields(Data::Struct(Fields::Unit)));
    assert_eq!(Err(DeriveError::ExpectedStruct), parse_fields(Data::Enum(vec![])));
    assert_eq!(Err(DeriveError::ExpectedStruct), parse_fields(Data::Union));
    assert_eq!("Expected named or unnamed fields", DeriveError::ExpectedFields.message());
    assert_eq!("Expected struct", DeriveError::ExpectedStruct.message());
}

#[test]
fn struct_with_named_fields_is_a_literal_of_self() {
    let made = generate_struct_instantiation(
        &"Rectangle".to_string(),
        Some(vec!["x".to_string(), "y".to_string()]),
        vec![cap("x", "u8"), cap("y", "u8")],
    );
    assert_eq!(
        Expr::Struct {
            path: "Self".to_string(),
            fields: vec![init("x", cap("x", "u8")), init("y", cap("y", "u8"))],
            rest: None,
        },
        made
    );
}

#[test]
fn struct_with_positional_fields_is_a_call_of_its_name() {
    let made = generate_struct_instantiation(
        &"Velocity".to_string(),
        None,
        vec![cap("__0", "u32")],
    );
    assert_eq!(
        Expr::Call {
            func: Box::new(Expr::Path("Velocity".to_string())),
            args: vec![cap("__0", "u32")],
        },
        made
    );
}

#[test]
fn names_and_expressions_pair_up_as_far_as_both_go() {
    let made = generate_struct_instantiation(
        &"S".to_string(),
        Some(vec!["x".to_string()]),
        vec![cap("x", "u8"), cap("y", "u8")],
    );
    assert_eq!(
        Expr::Struct {
            path: "Self".to_string(),
            fields: vec![init("x", cap("x", "u8"))],
            rest: None,
        },
        made
    );
    let made = generate_struct_instantiation(
        &"S".to_string(),
        Some(vec!["x".to_string(), "y".to_string()]),
        vec![cap("x", "u8")],
    );
    assert_eq!(
        Expr::Struct {
            path: "Self".to_string(),
            fields: vec![init("x", cap("x", "u8"))],
            rest: None,
        },
        made
    );
}

#[test]
fn variant_is_made_by_its_path() {
    assert_eq!(
        Expr::Path("Foo::Bar".to_string()),
        generate_enum_instantiation("Foo::Bar".to_string(), None, vec![])
    );
    assert_eq!(
        Expr::Path("Foo::Bar".to_string()),
        generate_enum_instantiation("Foo::Bar".to_string(), Some(vec![]), vec![])
    );
    assert_eq!(
        Expr::Call {
            func: Box::new(Expr::Path("Foo::Baz".to_string())),
            args: vec![cap("__0", "u32")],
        },
        generate_enum_instantiation("Foo::Baz".to_string(), None, vec![cap("__0", "u32")])
    );
    assert_eq!(
        Expr::Struct {
            path: "Foo::Quux".to_string(),
            fields: vec![init("a", cap("a", "u32"))],
            rest: None,
        },
        generate_enum_instantiation(
            "Foo::Quux".to_string(),
            Some(vec!["a".to_string()]),
            vec![cap("a", "u32")]
        )
    );
}

#[test]
fn only_variants_with_fields_match_again() {
    let regex = "^bar (?P<__0>\\d+)$".to_string();
    assert_eq!(Some(regex.clone()), generate_variant_instantiation_preamble(true, &regex));
    assert_eq!(None, generate_variant_instantiation_preamble(false, &regex));
}

#[test]
fn variants_come_in_declaration_order() {
    let data = Data::Enum(vec![
        variant("Bar", Some("^bar$"), Fields::Unit),
        variant("Baz", Some(r"^baz (?P<0>\d+)$"), Fields::Unnamed(vec![positional("u32")])),
        variant(
            "Quux",
            Some(r"^quux (?P<a>\d+)$"),
            Fields::Named(vec![named("a", "u32")]),
        ),
    ]);
    assert_eq!(
        Ok(vec![
            EnumVariant {
                ident: "Bar".to_string(),
                regex: "^bar$".to_string(),
                fields: (None, vec![]),
            },
            EnumVariant {
                ident: "Baz".to_string(),
                regex: r"^baz (?P<0>\d+)$".to_string(),
                fields: (None, vec![cap("__0", "u32")]),
            },
            EnumVariant {
                ident: "Quux".to_string(),
                regex: r"^quux (?P<a>\d+)$".to_string(),
                fields: (Some(vec!["a".to_string()]), vec![cap("a", "u32")]),
            },
        ]),
        get_enum_variants(data)
    );
}

#[test]
fn variant_without_pattern_is_refused() {
    let data = Data::Enum(vec![
        variant("Bar", Some("^bar$"), Fields::Unit),
        variant("Baz", None, Fields::Unit),
        variant("Quux", None, Fields::Unit),
    ]);
    let error = get_enum_variants(data).unwrap_err();
    assert_eq!(DeriveError::VariantMissingRegex("Baz".to_string()), error);
    assert_eq!("Variant Baz is missing a regex attribute.", error.message());
}

#[test]
fn variants_of_a_struct_are_refused() {
    assert_eq!(Err(DeriveError::ExpectedEnum), get_enum_variants(Data::Struct(Fields::Unit)));
    assert_eq!(Err(DeriveError::ExpectedEnum), get_enum_variants(Data::Union));
    assert_eq!("Expected enum", DeriveError::ExpectedEnum.message());
}

#[test]
fn struct_parser_has_the_normalized_pattern() {
    let parser = from_str_derive_struct(input(
        "Tuple",
        Some(r"^\((?P<0>\d+),(?P<1>\d+)\)$"),
        Data::Struct(Fields::Unnamed(vec![positional("u32"), positional("u32")])),
    ));
    assert_eq!(
        Ok(StructParser {
            regex: r"^\((?P<__0>\d+),(?P<__1>\d+)\)$".to_string(),
            instantiation: Expr::Call {
                func: Box::new(Expr::Path("Tuple".to_string())),
                args: vec![cap("__0", "u32"), cap("__1", "u32")],
            },
        }),
        parser
    );
}

#[test]
fn struct_without_pattern_is_refused() {
    let error = from_str_derive_struct(input(
        "S",
        None,
        Data::Struct(Fields::Named(vec![named("a", "u8")])),
    ))
    .unwrap_err();
    assert_eq!(DeriveError::MissingRegex, error);
    assert_eq!("No regex found!", error.message());
}

#[test]
fn struct_with_broken_pattern_is_refused() {
    let error = from_str_derive_struct(input(
        "S",
        Some(r"^(?P<a>\d+$"),
        Data::Struct(Fields::Named(vec![named("a", "u8")])),
    ))
    .unwrap_err();
    match &error {
        DeriveError::InvalidRegex(e) => {
            assert_eq!(PatternErrorKind::Other, e.kind);
            assert_eq!(format!("Invalid regex: {}", e.message), error.message());
            assert!(e.message.contains("unclosed group"));
        }
        other => panic!("unexpected error {:?}", other),
    }
}

#[test]
fn pattern_is_looked_at_before_the_fields() {
    let error = from_str_derive_struct(input("S", None, Data::Struct(Fields::Unit))).unwrap_err();
    assert_eq!(DeriveError::MissingRegex, error);
    let error = from_str_derive_struct(input("S", Some("("), Data::Union)).unwrap_err();
    assert!(matches!(error, DeriveError::InvalidRegex(_)));
    let error = from_str_derive_struct(input("S", Some("a"), Data::Union)).unwrap_err();
    assert_eq!(DeriveError::ExpectedStruct, error);
}

#[test]
fn enum_with_a_pattern_of_its_own_is_refused() {
    let error = from_str_derive_enum(input(
        "Foo",
        Some("^foo$"),
        Data::Enum(vec![variant("Bar", Some("^bar$"), Fields::Unit)]),
    ))
    .unwrap_err();
    assert_eq!(DeriveError::UnexpectedRegex, error);
    assert_eq!(
        "Unexpected regex as enum attribute. For enums, each variant needs to be annotated with a regex.",
        error.message()
    );
}

#[test]
fn enum_parser_keeps_the_order_of_the_variants() {
    let parser = from_str_derive_enum(input(
        "Foo",
        None,
        Data::Enum(vec![
            variant("Bar", Some("^bar$"), Fields::Unit),
            variant("Baz", Some(r"^baz (?P<0>\d+)$"), Fields::Unnamed(vec![positional("u32")])),
            variant(
                "Quux",
                Some(r"^quux (?P<a>\d+) (?P<b>\d+)$"),
                Fields::Named(vec![named("a", "u32"), named("b", "u32")]),
            ),
        ]),
    ));
    assert_eq!(
        Ok(EnumParser {
            regexes: vec![
                "^bar$".to_string(),
                r"^baz (?P<__0>\d+)$".to_string(),
                r"^quux (?P<a>\d+) (?P<b>\d+)$".to_string(),
            ],
            variants: vec![
                VariantParser { preamble: None, instantiation: Expr::Path("Foo::Bar".to_string()) },
                VariantParser {
                    preamble: Some(r"^baz (?P<__0>\d+)$".to_string()),
                    instantiation: Expr::Call {
                        func: Box::new(Expr::Path("Foo::Baz".to_string())),
                        args: vec![cap("__0", "u32")],
                    },
                },
                VariantParser {
                    preamble: Some(r"^quux (?P<a>\d+) (?P<b>\d+)$".to_string()),
                    instantiation: Expr::Struct {
                        path: "Foo::Quux".to_string(),
                        fields: vec![init("a", cap("a", "u32")), init("b", cap("b", "u32"))],
                        rest: None,
                    },
                },
            ],
        }),
        parser
    );
}

#[test]
fn all_variants_are_read_before_any_pattern() {
    let error = from_str_derive_enum(input(
        "Foo",
        None,
        Data::Enum(vec![
            variant("Bar", Some("("), Fields::Unit),
            variant("Baz", None, Fields::Unit),
        ]),
    ))
    .unwrap_err();
    assert_eq!(DeriveError::VariantMissingRegex("Baz".to_string()), error);
    let error = from_str_derive_enum(input(
        "Foo",
        None,
        Data::Enum(vec![
            variant("Bar", Some("^bar$"), Fields::Unit),
            variant("Baz", Some("("), Fields::Unit),
        ]),
    ))
    .unwrap_err();
    assert!(matches!(error, DeriveError::InvalidRegex(_)));
}

#[test]
fn enum_without_variants_has_an_empty_parser() {
    assert_eq!(
        Ok(EnumParser { regexes: vec![], variants: vec![] }),
        from_str_derive_enum(input("Never", None, Data::Enum(vec![])))
    );
}

#[test]
fn parser_follows_the_shape_of_the_type() {
    let parser = from_str_derive(input(
        "S",
        Some("^(?P<a>.)$"),
        Data::Struct(Fields::Named(vec![named("a", "char")])),
    ));
    assert!(matches!(parser, Ok(Parser::Struct(_))));
    let parser = from_str_derive(input(
        "T",
        Some("^(?P<0>.)$"),
        Data::Struct(Fields::Unnamed(vec![positional("char")])),
    ));
    assert!(matches!(parser, Ok(Parser::Struct(_))));
    let parser = from_str_derive(input(
        "E",
        None,
        Data::Enum(vec![variant("A", Some("a"), Fields::Unit)]),
    ));
    assert!(matches!(parser, Ok(Parser::Enum(_))));
}

#[test]
fn unit_structs_and_unions_have_no_parser() {
    let error = from_str_derive(input("U", Some("^$"), Data::Struct(Fields::Unit))).unwrap_err();
    assert_eq!(DeriveError::UnitStruct, error);
    assert_eq!("Not implemented for unit structs!", error.message());
    let error = from_str_derive(input("U", Some("^$"), Data::Union)).unwrap_err();
    assert_eq!(DeriveError::Union, error);
    assert_eq!("Not implemented for unions!", error.message());
}

#[test]
fn first_matching_variant_is_selected() {
    assert_eq!(Ok(0), select_variant(&vec![true]));
    assert_eq!(Ok(0), select_variant(&vec![true, true, true]));
    assert_eq!(Ok(1), select_variant(&vec![false, true, true]));
    assert_eq!(Ok(2), select_variant(&vec![false, false, true]));
    assert_eq!(Ok(1), select_variant(&vec![false, true, false, true]));
}

#[test]
fn no_match_is_a_failure_with_a_message() {
    assert_eq!(Err(ParseError::NoMatch), select_variant(&vec![]));
    assert_eq!(Err(ParseError::NoMatch), select_variant(&vec![false]));
    assert_eq!(Err(ParseError::NoMatch), select_variant(&vec![false, false, false]));
    assert_eq!("input does not match expected format", ParseError::NoMatch.message());
}

#[test]
fn missing_capture_is_a_failure_with_a_message() {
    assert_eq!(Ok("12".to_string()), extract("id", Some("12".to_string())));
    let error = extract("id", None).unwrap_err();
    assert_eq!(ParseError::MissingCapture("id".to_string()), error);
    assert_eq!("no capture group named id", error.message());
}
