use std::sync::Arc;

use static_dbus_signature::ChildSignature;
use static_dbus_signature::DynamicType;
use static_dbus_signature::FieldsSignatures;
use static_dbus_signature::Signature;
use static_dbus_signature::Structure;
use static_dbus_signature::Type;

#[test]
fn test_signature() {
    // Let's start with ()
    assert_eq!(<() as Type>::signature(), Signature::Unit);
    assert_eq!(<() as Type>::signature().to_string(), "");
    let sig = <() as Type>::signature().to_string().parse::<Signature>().unwrap();
    assert_eq!(sig, Signature::Unit);

    // i32
    assert_eq!(<i32 as Type>::signature(), Signature::I32);
    assert_eq!(<i32 as Type>::signature().to_string(), "i");
    let sig = <i32 as Type>::signature().to_string().parse::<Signature>().unwrap();
    assert_eq!(sig, Signature::I32);

    // Array of i32
    let sig = <&[i32] as Type>::signature();
    assert_eq!(
        sig,
        Signature::Array(ChildSignature::Static { child: Arc::new(Signature::I32) }),
    );
    let sig_str = sig.to_string();
    assert_eq!(sig_str, "ai");
    let sig = sig_str.parse::<Signature>().unwrap();
    assert_eq!(
        sig,
        Signature::Array(ChildSignature::Static { child: Arc::new(Signature::I32) }),
    );

    // Structure of (i32, &str, &[&[i32]], bool)
    let sig = <(i32, &str, &[&[i32]], bool) as Type>::signature();
    assert_eq!(
        sig,
        Signature::Structure(FieldsSignatures::Dynamic {
            fields: Arc::new(vec![
                Signature::I32,
                Signature::Str,
                Signature::Array(ChildSignature::Dynamic {
                    child: Arc::new(Signature::Array(ChildSignature::Static {
                        child: Arc::new(Signature::I32),
                    })),
                }),
                Signature::Bool,
            ]),
        }),
    );
    assert_eq!(sig.to_string(), "(isaaib)");
}

#[test]
fn static_and_parsed_signatures_agree() {
    let built = <(i32, bool) as Type>::signature();
    let parsed = "(ib)".parse::<Signature>().unwrap();
    // the same printed form, from either origin, is one logical value
    assert_eq!(built, parsed);
    assert_eq!(built.compare(&parsed), std::cmp::Ordering::Equal);
    assert_eq!(built.to_string(), parsed.to_string());
    // both order identically against a third signature
    let other = "(ic)".parse::<Signature>();
    assert!(other.is_err());
    let other = "(iy)".parse::<Signature>().unwrap();
    assert_eq!(built.compare(&other), parsed.compare(&other));
}

#[test]
fn tuple_signatures_compose() {
    assert_eq!(<(i32,) as Type>::signature().to_string(), "(i)");
    assert_eq!(<(bool, &str) as Type>::signature().to_string(), "(bs)");
    assert_eq!(
        <(i32, (bool, &[i32]), &str) as Type>::signature().to_string(),
        "(i(bai)s)",
    );
}

#[test]
fn structure_builder_collects_fields() {
    let built = Structure::new().field::<i32>().field::<&[&[i32]]>();
    let sig = built.signature();
    assert_eq!(sig.to_string(), "(iaai)");
    let reference = "(iaai)".parse::<Signature>().unwrap();
    assert_eq!(sig, reference);
}

#[test]
fn child_and_fields_conversions() {
    let child: ChildSignature = Signature::Str.into();
    assert!(matches!(child, ChildSignature::Dynamic { .. }));
    let shared: ChildSignature = Arc::new(Signature::U8).into();
    assert!(matches!(shared, ChildSignature::Dynamic { .. }));
    let fields: FieldsSignatures = vec![Signature::I32, Signature::Bool].into();
    let sig = Signature::Structure(fields);
    assert_eq!(sig.to_string(), "(ib)");
}

#[test]
fn dynamic_signature_cloning_shares_children() {
    let parsed = "a{sv}".parse::<Signature>().unwrap();
    let key = match &parsed {
        Signature::Dict { key: ChildSignature::Dynamic { child }, .. } => Arc::clone(child),
        _ => panic!("expected a dynamic dict"),
    };
    assert_eq!(Arc::strong_count(&key), 2);
    let copy = parsed.clone();
    // the clone holds the same key signature, not a deep copy of it
    assert_eq!(Arc::strong_count(&key), 3);
    assert_eq!(copy, parsed);
    drop(parsed);
    drop(copy);
    assert_eq!(Arc::strong_count(&key), 1);
}
