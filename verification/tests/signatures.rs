use std::sync::Arc;

use static_dbus_signature::ChildSignature;
use static_dbus_signature::FieldsSignatures;
use static_dbus_signature::Signature;
use static_dbus_signature::parse;
use static_dbus_signature::validate;

fn dyn_child(sig: Signature) -> ChildSignature {
    ChildSignature::Dynamic { child: Arc::new(sig) }
}

fn static_child(sig: Signature) -> ChildSignature {
    ChildSignature::Static { child: Arc::new(sig) }
}

fn static_fields(fields: Vec<Signature>) -> FieldsSignatures {
    FieldsSignatures::Static { fields: Arc::new(fields) }
}

fn check(text: &str, expected: Signature) {
    assert!(validate(text).is_ok());
    let parsed = text.parse::<Signature>().unwrap();
    assert_eq!(parsed, expected);
}

#[test]
fn validate_strings() {
    check("", Signature::Unit);
    check("y", Signature::U8);
    check("b", Signature::Bool);
    check("n", Signature::I16);
    check("q", Signature::U16);
    check("i", Signature::I32);
    check("u", Signature::U32);
    check("x", Signature::I64);
    check("t", Signature::U64);
    check("d", Signature::F64);
    check("s", Signature::Str);
    check("g", Signature::Signature);
    check("o", Signature::ObjectPath);
    check("v", Signature::Value);
    check(
        "xs",
        Signature::Structure(static_fields(vec![Signature::I64, Signature::Str])),
    );
    check(
        "(ysa{sd})",
        Signature::Structure(static_fields(vec![
            Signature::U8,
            Signature::Str,
            Signature::Dict {
                key: static_child(Signature::Str),
                value: static_child(Signature::F64),
            },
        ])),
    );
    check(
        "a(y)",
        Signature::Array(static_child(Signature::Structure(static_fields(vec![
            Signature::U8,
        ])))),
    );
    check(
        "a{yy}",
        Signature::Dict {
            key: static_child(Signature::U8),
            value: static_child(Signature::U8),
        },
    );
    check(
        "(yy)",
        Signature::Structure(static_fields(vec![Signature::U8, Signature::U8])),
    );
    check(
        "a{sd}",
        Signature::Dict {
            key: static_child(Signature::Str),
            value: static_child(Signature::F64),
        },
    );
    check(
        "a{yy}",
        Signature::Dict {
            key: static_child(Signature::U8),
            value: static_child(Signature::U8),
        },
    );
    check(
        "a{sv}",
        Signature::Dict {
            key: static_child(Signature::Str),
            value: static_child(Signature::Value),
        },
    );
    check(
        "a{sa{sv}}",
        Signature::Dict {
            key: static_child(Signature::Str),
            value: static_child(Signature::Dict {
                key: static_child(Signature::Str),
                value: static_child(Signature::Value),
            }),
        },
    );
    check(
        "a{sa(ux)}",
        Signature::Dict {
            key: static_child(Signature::Str),
            value: static_child(Signature::Array(static_child(Signature::Structure(
                static_fields(vec![Signature::U32, Signature::I64]),
            )))),
        },
    );
    check(
        "(x)",
        Signature::Structure(static_fields(vec![Signature::I64])),
    );
    check(
        "(x(isy))",
        Signature::Structure(static_fields(vec![
            Signature::I64,
            Signature::Structure(static_fields(vec![
                Signature::I32,
                Signature::Str,
                Signature::U8,
            ])),
        ])),
    );
    check(
        "(xa(isy))",
        Signature::Structure(static_fields(vec![
            Signature::I64,
            Signature::Array(static_child(Signature::Structure(static_fields(vec![
                Signature::I32,
                Signature::Str,
                Signature::U8,
            ])))),
        ])),
    );
    check(
        "(xa(s))",
        Signature::Structure(static_fields(vec![
            Signature::I64,
            Signature::Array(static_child(Signature::Structure(static_fields(vec![
                Signature::Str,
            ])))),
        ])),
    );
    check("h", Signature::Fd);
}

#[test]
fn invalid_strings() {
    assert!(validate("a").is_err());
    assert!(validate("a{}").is_err());
    assert!(validate("a{y").is_err());
    assert!(validate("a{y}").is_err());
    assert!(validate("a{y}a{y}").is_err());
    assert!(validate("a{y}a{y}a{y}").is_err());
    assert!(validate("z").is_err());
    assert!(validate("()").is_err());
    assert!(validate("(x").is_err());
    assert!(validate("(x())").is_err());
    assert!(validate("(xa()").is_err());
    assert!(validate("(xa(s)").is_err());
    assert!(validate("(xs").is_err());
    assert!(validate("xs)").is_err());
    assert!(validate("s/").is_err());
    assert!(validate("a{yz}").is_err());
}

#[test]
fn parse_rejects_like_validate() {
    let samples = [
        "", "i", "ii", "a{sv}", "a", "a{}", "a{y", "a{y}", "()", "(x", "z", "xs)", "s/",
        "(xs", "a{sa{sv}}", "(isaaib)", "h",
    ];
    for text in samples {
        assert_eq!(parse(text).is_ok(), validate(text).is_ok());
    }
}

#[test]
fn top_level_collapsing() {
    assert_eq!(parse("").unwrap(), Signature::Unit);
    assert_eq!(parse("i").unwrap(), Signature::I32);
    assert_eq!(
        parse("ii").unwrap(),
        Signature::Structure(static_fields(vec![Signature::I32, Signature::I32])),
    );
}

#[test]
fn round_trip_single_signatures() {
    let samples = ["", "y", "i", "a{sv}", "a{sa{sv}}", "(isaaib)", "a(y)", "(x(isy))", "aai"];
    for text in samples {
        assert!(validate(text).is_ok());
        let sig = parse(text).unwrap();
        assert_eq!(sig.to_string(), text);
        assert_eq!(sig.string_len(), text.len());
    }
}

#[test]
fn nested_dict_structure() {
    let sig = parse("a{sa{sv}}").unwrap();
    let expected = Signature::Dict {
        key: dyn_child(Signature::Str),
        value: dyn_child(Signature::Dict {
            key: dyn_child(Signature::Str),
            value: dyn_child(Signature::Value),
        }),
    };
    assert_eq!(sig, expected);
    assert_eq!(sig.to_string(), "a{sa{sv}}");
}

#[test]
fn unit_formats_to_empty_string() {
    assert_eq!(Signature::Unit.to_string(), "");
    assert_eq!(Signature::Unit.string_len(), 0);
}

#[test]
fn fields_iter_lists_fields_in_order() {
    let sig = parse("(ysx)").unwrap();
    match sig {
        Signature::Structure(fields) => {
            let listed = fields.iter();
            assert_eq!(
                listed,
                vec![Signature::U8, Signature::Str, Signature::I64],
            );
            assert_eq!(fields.len(), 3);
        },
        _ => panic!("expected a structure"),
    }
}

#[test]
fn clone_preserves_value_and_shares_children() {
    let sig = parse("a{s(iu)}").unwrap();
    let copy = sig.clone();
    assert_eq!(sig, copy);
    assert_eq!(copy.to_string(), "a{s(iu)}");
    let child = match &sig {
        Signature::Dict { value: ChildSignature::Dynamic { child }, .. } => Arc::clone(child),
        _ => panic!("expected a dynamic dict"),
    };
    // the first signature, its clone, and the local handle all share one child
    assert_eq!(Arc::strong_count(&child), 3);
    drop(copy);
    assert_eq!(Arc::strong_count(&child), 2);
}

#[test]
fn ordering_is_total_and_structural() {
    let i32_sig = parse("i").unwrap();
    let u32_sig = parse("u").unwrap();
    // ranks follow declaration order: i32 before u32
    assert_eq!(i32_sig.compare(&u32_sig), std::cmp::Ordering::Less);
    assert_eq!(u32_sig.compare(&i32_sig), std::cmp::Ordering::Greater);
    assert_eq!(i32_sig.compare(&i32_sig), std::cmp::Ordering::Equal);
    // a basic type orders before any container
    let arr = parse("ai").unwrap();
    assert_eq!(i32_sig.compare(&arr), std::cmp::Ordering::Less);
    // like containers compare by their children
    assert_eq!(parse("ai").unwrap().compare(&parse("au").unwrap()), std::cmp::Ordering::Less);
    // a structure that is a proper prefix orders first
    assert_eq!(parse("(ii)").unwrap().compare(&parse("(iii)").unwrap()), std::cmp::Ordering::Less);
    // partial_cmp always answers
    assert_eq!(i32_sig.partial_cmp(&arr), Some(std::cmp::Ordering::Less));
    assert!(i32_sig < arr);
}
