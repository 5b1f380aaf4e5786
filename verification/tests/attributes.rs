use ownable::attribute::{
    Classification, DeriveAttribute, FieldAttribute, LifetimesAttribute, OrAssign,
};
use ownable::attribute_parser::{Error, Features, Param};
use ownable::derive::Derive;
use ownable::diagnostic::{Diagnostic, ErrorKind};
use ownable::syntax::{
    Attribute, ConstParam, Data, DeriveInput, Fields, GenericParam, Generics, LifetimeParam, Lit,
    LitKind, Meta, NestedMeta, Path, Span, TypeParam,
};
use ownable::Mode;

fn span(index: usize) -> Span {
    Span { index }
}

fn problem(index: usize, kind: ErrorKind, message: &str) -> Diagnostic {
    Diagnostic { span: span(index), kind, message: message.to_string() }
}

fn ident(name: &str, index: usize) -> Path {
    Path { ident: Some(name.to_string()), span: span(index) }
}

fn list(name: &str, items: Vec<NestedMeta>, index: usize) -> Attribute {
    Attribute { path: ident(name, index), meta: Meta::List { nested: Ok(items) }, span: span(index) }
}

fn flag(name: &str, index: usize) -> NestedMeta {
    NestedMeta::Path { path: ident(name, index), span: span(index) }
}

fn value(name: &str, kind: LitKind, index: usize) -> NestedMeta {
    NestedMeta::NameValue {
        path: ident(name, index),
        value: Some(Lit { kind, span: span(index + 1) }),
        span: span(index),
    }
}

fn text(content: &str) -> LitKind {
    LitKind::Str(content.to_string())
}

fn names(list: &[&str]) -> Vec<String> {
    list.iter().map(|name| name.to_string()).collect()
}

fn references(list: &[&str]) -> DeriveAttribute {
    DeriveAttribute {
        reference_lifetime: LifetimesAttribute(names(list)),
        reference_span: span(7),
        clone: None,
        function: None,
    }
}

fn lifetimes(list: &[&str]) -> Generics {
    Generics {
        params: list
            .iter()
            .map(|l| {
                GenericParam::Lifetime(LifetimeParam { lifetime: l.to_string(), bounds: vec![] })
            })
            .collect(),
        where_clause: vec![],
    }
}

fn unit(attrs: Vec<Attribute>) -> DeriveInput {
    DeriveInput {
        attrs,
        ident: "Unit".to_string(),
        generics: lifetimes(&["a", "b"]),
        data: Data::Struct(Fields::Unit),
        span: span(1),
    }
}

#[test]
fn features_are_collected_from_all_attributes_of_the_name() {
    let attrs = vec![
        list("ownable", vec![flag("clone", 10)], 11),
        list("other", vec![flag("skipped", 12)], 13),
        list("ownable", vec![value("reference", text("'a"), 14)], 16),
    ];
    let mut features = Features::parse("ownable", &attrs).unwrap();
    assert_eq!(features.get("skipped"), None);
    assert_eq!(features.get("clone"), Some(Param { span: span(10), lit: None }));
    assert_eq!(features.get("clone"), None);
    assert_eq!(
        features.get("reference"),
        Some(Param { span: span(14), lit: Some(Lit { kind: text("'a"), span: span(15) }) })
    );
    assert_eq!(features.finish(5), Ok(5));
}

#[test]
fn features_of_another_name() {
    let attrs = vec![list("other", vec![flag("skipped", 12)], 13)];
    let mut features = Features::parse("other", &attrs).unwrap();
    assert_eq!(features.get("skipped"), Some(Param { span: span(12), lit: None }));
}

#[test]
fn finish_reports_the_first_option_that_is_left() {
    let attrs = vec![list("ownable", vec![flag("one", 10), flag("two", 11), flag("three", 12)], 13)];
    let mut features = Features::parse("ownable", &attrs).unwrap();
    assert!(features.get("one").is_some());
    assert_eq!(
        features.finish("value"),
        Err(problem(11, ErrorKind::UnknownOption, "unknown feature"))
    );
}

#[test]
fn parse_meta_adds_to_what_is_there() {
    let mut features = Features::parse("ownable", &vec![]).unwrap();
    let first = Meta::List { nested: Ok(vec![flag("clone", 10)]) };
    assert_eq!(features.parse_meta(&first, span(20)), Ok(()));
    let second = Meta::List { nested: Ok(vec![flag("function", 11), flag("clone", 12)]) };
    assert_eq!(
        features.parse_meta(&second, span(21)),
        Err(problem(10, ErrorKind::DuplicateOption, "duplicate feature"))
    );
    assert_eq!(
        features.parse_meta(&Meta::Path, span(22)),
        Err(problem(22, ErrorKind::MalformedValue, "unsupported attribute type"))
    );
}

#[test]
fn path_to_name_wants_one_identifier() {
    assert_eq!(Features::path_to_name(&ident("clone", 3)), Ok("clone".to_string()));
    assert_eq!(
        Features::path_to_name(&Path { ident: None, span: span(3) }),
        Err(problem(3, ErrorKind::MalformedValue, "unsupported path"))
    );
}

#[test]
fn param_as_boolean() {
    assert_eq!(Param { span: span(1), lit: None }.get_bool(), Ok(true));
    let on = Param { span: span(1), lit: Some(Lit { kind: LitKind::Bool(true), span: span(2) }) };
    assert_eq!(on.get_bool(), Ok(true));
    let off = Param { span: span(1), lit: Some(Lit { kind: LitKind::Bool(false), span: span(2) }) };
    assert_eq!(off.get_bool(), Ok(false));
    let other = Param { span: span(1), lit: Some(Lit { kind: LitKind::Other, span: span(2) }) };
    assert_eq!(
        other.get_bool(),
        Err(problem(2, ErrorKind::MalformedValue, "expected literal: bool (or no literal)"))
    );
}

#[test]
fn param_as_string() {
    let none = Param { span: span(1), lit: None };
    assert_eq!(none.opt_str(), Ok(None));
    assert_eq!(
        none.req_str(),
        Err(problem(1, ErrorKind::MalformedValue, "missing literal: str"))
    );
    let some = Param { span: span(1), lit: Some(Lit { kind: text("'a"), span: span(2) }) };
    assert_eq!(some.opt_str(), Ok(Some("'a".to_string())));
    assert_eq!(some.req_str(), Ok("'a".to_string()));
    let bad = Param { span: span(1), lit: Some(Lit { kind: LitKind::Bool(true), span: span(2) }) };
    let expected = problem(2, ErrorKind::MalformedValue, "expected literal: str (or no literal)");
    assert_eq!(bad.opt_str(), Err(expected));
    let expected = problem(2, ErrorKind::MalformedValue, "expected literal: str (or no literal)");
    assert_eq!(bad.req_str(), Err(expected));
}

#[test]
fn lifetimes_from_string() {
    assert_eq!(
        LifetimesAttribute::from_string("'a", span(3)),
        Ok(LifetimesAttribute(names(&["a"])))
    );
    assert_eq!(
        LifetimesAttribute::from_string(" 'a ,\t'long_name,'b\n", span(3)),
        Ok(LifetimesAttribute(names(&["a", "long_name", "b"])))
    );
    // what follows the apostrophe is taken as it stands
    assert_eq!(
        LifetimesAttribute::from_string("'a b", span(3)),
        Ok(LifetimesAttribute(names(&["a b"])))
    );
    assert_eq!(LifetimesAttribute::from_string("'", span(3)), Ok(LifetimesAttribute(names(&[""]))));
}

#[test]
fn lifetimes_from_string_rejects_what_is_no_lifetime() {
    let expected = || Err(problem(3, ErrorKind::MalformedValue, "not a lifetime"));
    assert_eq!(LifetimesAttribute::from_string("a", span(3)), expected());
    assert_eq!(LifetimesAttribute::from_string("", span(3)), expected());
    assert_eq!(LifetimesAttribute::from_string("'a,", span(3)), expected());
    assert_eq!(LifetimesAttribute::from_string("'a,,'b", span(3)), expected());
    assert_eq!(LifetimesAttribute::from_string("'a, b", span(3)), expected());
    assert_eq!(LifetimesAttribute::from_string("   ", span(3)), expected());
}

#[test]
fn field_attribute_is_read() {
    assert_eq!(FieldAttribute::new(&vec![]), Ok(FieldAttribute { clone: None }));
    let bare = vec![list("ownable", vec![flag("clone", 10)], 11)];
    assert_eq!(FieldAttribute::new(&bare), Ok(FieldAttribute { clone: Some(true) }));
    let off = vec![list("ownable", vec![value("clone", LitKind::Bool(false), 10)], 12)];
    assert_eq!(FieldAttribute::new(&off), Ok(FieldAttribute { clone: Some(false) }));
}

#[test]
fn derive_attribute_is_read() {
    let attrs = vec![list(
        "ownable",
        vec![
            value("reference", text("'b"), 10),
            value("function", LitKind::Bool(false), 12),
            flag("clone", 14),
        ],
        15,
    )];
    assert_eq!(
        DeriveAttribute::from_derive_input(&unit(attrs)),
        Ok(DeriveAttribute {
            reference_lifetime: LifetimesAttribute(names(&["b"])),
            reference_span: span(11),
            clone: Some(true),
            function: Some(false),
        })
    );
    assert_eq!(DeriveAttribute::from_derive_input(&unit(vec![])), Ok(DeriveAttribute::new()));
    assert_eq!(
        DeriveAttribute::new(),
        DeriveAttribute {
            reference_lifetime: LifetimesAttribute(vec![]),
            reference_span: span(0),
            clone: None,
            function: None,
        }
    );
}

#[test]
fn derive_attribute_reads_clone_before_function_before_reference() {
    let attrs = vec![list(
        "ownable",
        vec![
            value("reference", text("b"), 10),
            value("function", text("no"), 12),
            value("clone", text("no"), 14),
        ],
        16,
    )];
    assert_eq!(
        DeriveAttribute::from_derive_input(&unit(attrs)),
        Err(problem(15, ErrorKind::MalformedValue, "expected literal: bool (or no literal)"))
    );
    let attrs = vec![list(
        "ownable",
        vec![value("reference", text("b"), 10), value("function", text("no"), 12)],
        16,
    )];
    assert_eq!(
        DeriveAttribute::from_derive_input(&unit(attrs)),
        Err(problem(13, ErrorKind::MalformedValue, "expected literal: bool (or no literal)"))
    );
}

#[test]
fn or_assign_fills_what_is_open() {
    let mut field = FieldAttribute { clone: None };
    field.or_assign(&FieldAttribute { clone: None });
    assert_eq!(field.clone, None);
    field.or_assign(&FieldAttribute { clone: Some(false) });
    assert_eq!(field.clone, Some(false));
    field.or_assign(&FieldAttribute { clone: Some(true) });
    assert_eq!(field.clone, Some(false));
    let mut derived = references(&[]);
    derived.clone = Some(true);
    field.or_assign(&derived);
    assert_eq!(field.clone, Some(false));
    let mut open = FieldAttribute { clone: None };
    open.or_assign(&derived);
    assert_eq!(open.clone, Some(true));
}

#[test]
fn reference_lifetimes_are_recognised() {
    let attribute = references(&["a", "long"]);
    assert!(attribute.is_reference_lifetime("a"));
    assert!(attribute.is_reference_lifetime("long"));
    assert!(!attribute.is_reference_lifetime("lon"));
    assert!(!attribute.is_reference_lifetime("'a"));
    assert!(!references(&[]).is_reference_lifetime("a"));
}

#[test]
fn new_lifetime_is_the_shortest_that_is_free() {
    let none = lifetimes(&[]);
    assert_eq!(references(&[]).new_lifetime(&none), Ok("o".to_string()));
    assert_eq!(references(&["a", "own"]).new_lifetime(&none), Ok("o".to_string()));
    assert_eq!(references(&["o"]).new_lifetime(&none), Ok("ow".to_string()));
    assert_eq!(references(&["ow", "o", "own"]).new_lifetime(&none), Ok("owna".to_string()));
    assert_eq!(
        references(&["o", "ow", "own", "owna", "ownab", "ownabl"]).new_lifetime(&none),
        Ok("ownable".to_string())
    );
    let exhausted = || {
        Err(problem(
            0,
            ErrorKind::LifetimeExhausted,
            "all of the following lifetimes are already used: 'o, 'ow, .. 'ownable",
        ))
    };
    assert_eq!(
        references(&["ownable", "ownabl", "ownab", "owna", "own", "ow", "o"]).new_lifetime(&none),
        exhausted()
    );
}

#[test]
fn new_lifetime_is_none_that_the_type_declares() {
    assert_eq!(references(&[]).new_lifetime(&lifetimes(&["a", "b"])), Ok("o".to_string()));
    assert_eq!(references(&[]).new_lifetime(&lifetimes(&["o"])), Ok("ow".to_string()));
    assert_eq!(references(&["ow"]).new_lifetime(&lifetimes(&["own", "o"])), Ok("owna".to_string()));
    assert_eq!(
        references(&["o"]).new_lifetime(&lifetimes(&["o", "ow", "ownable"])),
        Ok("own".to_string())
    );
    let all = ["o", "ow", "own", "owna", "ownab", "ownabl", "ownable"];
    assert_eq!(
        references(&[]).new_lifetime(&lifetimes(&all)),
        Err(problem(
            0,
            ErrorKind::LifetimeExhausted,
            "all of the following lifetimes are already used: 'o, 'ow, .. 'ownable",
        ))
    );
    assert_eq!(
        references(&["o", "ow", "own"]).new_lifetime(&lifetimes(&all[3..])),
        Err(problem(
            0,
            ErrorKind::LifetimeExhausted,
            "all of the following lifetimes are already used: 'o, 'ow, .. 'ownable",
        ))
    );
}

#[test]
fn declared_lifetimes_are_found() {
    let generics = Generics {
        params: vec![
            GenericParam::Lifetime(LifetimeParam { lifetime: "a".to_string(), bounds: vec![] }),
            GenericParam::Type(TypeParam { ident: "T".to_string(), bounds: vec![] }),
            GenericParam::Const(ConstParam { ident: "N".to_string(), ty: "usize".to_string() }),
        ],
        where_clause: vec![],
    };
    assert!(DeriveAttribute::contains_lifetime(&generics, "a"));
    assert!(!DeriveAttribute::contains_lifetime(&generics, "T"));
    assert!(!DeriveAttribute::contains_lifetime(&generics, "N"));
    assert!(!DeriveAttribute::contains_lifetime(&generics, "b"));
    assert!(generics.declares_lifetime());
    assert!(!lifetimes(&[]).declares_lifetime());
}

#[test]
fn undeclared_reference_lifetimes_are_reported() {
    let input = unit(vec![]);
    let attribute = references(&["x", "a", "y"]);
    let derive = Derive { input: &input, attribute: &attribute, mode: Mode::ToOwned };
    assert_eq!(
        derive.verify_lifetimes(),
        vec![
            problem(7, ErrorKind::UndeclaredLifetime, "lifetime \"'x\" is not used"),
            problem(7, ErrorKind::UndeclaredLifetime, "lifetime \"'y\" is not used"),
        ]
    );
    let attribute = references(&["b", "a"]);
    let derive = Derive { input: &input, attribute: &attribute, mode: Mode::ToOwned };
    assert_eq!(derive.verify_lifetimes(), vec![]);
}

#[test]
fn problems_of_options_have_their_messages() {
    assert_eq!(Error::MetaParseError("oops".to_string()).message(), "meta parse error: oops");
    assert_eq!(Error::DuplicateFeature.message(), "duplicate feature");
    assert_eq!(Error::UnsupportedAttributeType.message(), "unsupported attribute type");
    assert_eq!(Error::UnknownFeature.message(), "unknown feature");
    assert_eq!(Error::UnsupportedPath.message(), "unsupported path");
    assert_eq!(Error::ExpectedLiteral("bool").message(), "expected literal: bool (or no literal)");
    assert_eq!(Error::MissingLiteral("str").message(), "missing literal: str");
    assert_eq!(Error::DuplicateFeature.kind(), ErrorKind::DuplicateOption);
    assert_eq!(Error::UnknownFeature.kind(), ErrorKind::UnknownOption);
    assert_eq!(Error::UnsupportedPath.kind(), ErrorKind::MalformedValue);
    assert_eq!(Error::UnsupportedAttributeType.kind(), ErrorKind::MalformedValue);
    assert_eq!(Error::MetaParseError(String::new()).kind(), ErrorKind::MalformedValue);
    assert_eq!(Error::ExpectedLiteral("str").kind(), ErrorKind::MalformedValue);
    assert_eq!(Error::MissingLiteral("str").kind(), ErrorKind::MalformedValue);
    assert_eq!(
        Error::MissingLiteral("str").at(span(4)),
        problem(4, ErrorKind::MalformedValue, "missing literal: str")
    );
}

#[test]
fn lifetimes_are_sorted_into_two_classes() {
    let attribute = references(&["c", "a", "z"]);
    assert_eq!(
        attribute.classify(&lifetimes(&["a", "b", "c", "d"])),
        Classification { pass_through: names(&["a", "c"]), rewritable: names(&["b", "d"]) }
    );
    assert_eq!(
        references(&[]).classify(&lifetimes(&["a"])),
        Classification { pass_through: vec![], rewritable: names(&["a"]) }
    );
}
