//! The static association from native types to constant signatures.

use vstd::prelude::*;
use std::sync::Arc;

use crate::child::ChildSignature;
use crate::fields::FieldsSignatures;
use crate::model::SigView;
use crate::signature::Signature;
use crate::signature::lemma_views_of_index;
use crate::signature::lemma_views_of_len;

verus! {

/// A native type with a statically known signature.
///
/// The signature depends on the type alone: `signature_spec()` fixes its
/// model once and for all, and `signature()` builds that tree on every
/// call, with `Static`-backed children. Composition is automatic: a
/// reference has the signature of its referent, a slice of a mapped
/// element type maps to an array, and a tuple of mapped types maps to a
/// structure of its components in order. Mapping a new native type only
/// requires implementing this trait for it.
pub trait Type {
    /// The signature associated with `Self`, as a model value.
    spec fn signature_spec() -> SigView;

    /// The signature associated with `Self`.
    fn signature() -> (s: Signature)
        ensures
            s@ == Self::signature_spec(),
    ;
}

impl Type for i32 {
    open spec fn signature_spec() -> SigView {
        SigView::I32
    }

    fn signature() -> (s: Signature) {
        Signature::I32
    }
}

impl Type for bool {
    open spec fn signature_spec() -> SigView {
        SigView::Bool
    }

    fn signature() -> (s: Signature) {
        Signature::Bool
    }
}

impl Type for str {
    open spec fn signature_spec() -> SigView {
        SigView::Str
    }

    fn signature() -> (s: Signature) {
        Signature::Str
    }
}

impl Type for () {
    open spec fn signature_spec() -> SigView {
        SigView::Unit
    }

    fn signature() -> (s: Signature) {
        Signature::Unit
    }
}

impl<T: Type + ?Sized> Type for &T {
    open spec fn signature_spec() -> SigView {
        T::signature_spec()
    }

    fn signature() -> (s: Signature) {
        T::signature()
    }
}

impl<T: Type> Type for [T] {
    open spec fn signature_spec() -> SigView {
        SigView::Array(Box::new(T::signature_spec()))
    }

    fn signature() -> (s: Signature) {
        Signature::Array(ChildSignature::Static { child: Arc::new(T::signature()) })
    }
}

impl<T0: Type> Type for (T0,) {
    open spec fn signature_spec() -> SigView {
        SigView::Structure(seq![T0::signature_spec()])
    }

    fn signature() -> (s: Signature) {
        let mut fields: Vec<Signature> = Vec::new();
        fields.push(T0::signature());
        proof {
            lemma_views_of_len(fields@);
            lemma_views_of_index(fields@, 0);
            assert(crate::signature::views_of(fields@) =~= seq![T0::signature_spec()]);
        }
        Signature::Structure(FieldsSignatures::Static { fields: Arc::new(fields) })
    }
}

impl<T0: Type, T1: Type> Type for (T0, T1) {
    open spec fn signature_spec() -> SigView {
        SigView::Structure(seq![T0::signature_spec(), T1::signature_spec()])
    }

    fn signature() -> (s: Signature) {
        let mut fields: Vec<Signature> = Vec::new();
        fields.push(T0::signature());
        fields.push(T1::signature());
        proof {
            lemma_views_of_len(fields@);
            lemma_views_of_index(fields@, 0);
            lemma_views_of_index(fields@, 1);
            assert(crate::signature::views_of(fields@) =~= seq![
                T0::signature_spec(),
                T1::signature_spec(),
            ]);
        }
        Signature::Structure(FieldsSignatures::Static { fields: Arc::new(fields) })
    }
}

impl<T0: Type, T1: Type, T2: Type> Type for (T0, T1, T2) {
    open spec fn signature_spec() -> SigView {
        SigView::Structure(seq![
            T0::signature_spec(),
            T1::signature_spec(),
            T2::signature_spec(),
        ])
    }

    fn signature() -> (s: Signature) {
        let mut fields: Vec<Signature> = Vec::new();
        fields.push(T0::signature());
        fields.push(T1::signature());
        fields.push(T2::signature());
        proof {
            lemma_views_of_len(fields@);
            lemma_views_of_index(fields@, 0);
            lemma_views_of_index(fields@, 1);
            lemma_views_of_index(fields@, 2);
            assert(crate::signature::views_of(fields@) =~= seq![
                T0::signature_spec(),
                T1::signature_spec(),
                T2::signature_spec(),
            ]);
        }
        Signature::Structure(FieldsSignatures::Static { fields: Arc::new(fields) })
    }
}

impl<T0: Type, T1: Type, T2: Type, T3: Type> Type for (T0, T1, T2, T3) {
    open spec fn signature_spec() -> SigView {
        SigView::Structure(seq![
            T0::signature_spec(),
            T1::signature_spec(),
            T2::signature_spec(),
            T3::signature_spec(),
        ])
    }

    fn signature() -> (s: Signature) {
        let mut fields: Vec<Signature> = Vec::new();
        fields.push(T0::signature());
        fields.push(T1::signature());
        fields.push(T2::signature());
        fields.push(T3::signature());
        proof {
            lemma_views_of_len(fields@);
            lemma_views_of_index(fields@, 0);
            lemma_views_of_index(fields@, 1);
            lemma_views_of_index(fields@, 2);
            lemma_views_of_index(fields@, 3);
            assert(crate::signature::views_of(fields@) =~= seq![
                T0::signature_spec(),
                T1::signature_spec(),
                T2::signature_spec(),
                T3::signature_spec(),
            ]);
        }
        Signature::Structure(FieldsSignatures::Static { fields: Arc::new(fields) })
    }
}

impl<T0: Type, T1: Type, T2: Type, T3: Type, T4: Type> Type for (T0, T1, T2, T3, T4) {
    open spec fn signature_spec() -> SigView {
        SigView::Structure(seq![
            T0::signature_spec(),
            T1::signature_spec(),
            T2::signature_spec(),
            T3::signature_spec(),
            T4::signature_spec(),
        ])
    }

    fn signature() -> (s: Signature) {
        let mut fields: Vec<Signature> = Vec::new();
        fields.push(T0::signature());
        fields.push(T1::signature());
        fields.push(T2::signature());
        fields.push(T3::signature());
        fields.push(T4::signature());
        proof {
            lemma_views_of_len(fields@);
            lemma_views_of_index(fields@, 0);
            lemma_views_of_index(fields@, 1);
            lemma_views_of_index(fields@, 2);
            lemma_views_of_index(fields@, 3);
            lemma_views_of_index(fields@, 4);
            assert(crate::signature::views_of(fields@) =~= seq![
                T0::signature_spec(),
                T1::signature_spec(),
                T2::signature_spec(),
                T3::signature_spec(),
                T4::signature_spec(),
            ]);
        }
        Signature::Structure(FieldsSignatures::Static { fields: Arc::new(fields) })
    }
}

impl<T0: Type, T1: Type, T2: Type, T3: Type, T4: Type, T5: Type> Type for (T0, T1, T2, T3, T4, T5) {
    open spec fn signature_spec() -> SigView {
        SigView::Structure(seq![
            T0::signature_spec(),
            T1::signature_spec(),
            T2::signature_spec(),
            T3::signature_spec(),
            T4::signature_spec(),
            T5::signature_spec(),
        ])
    }

    fn signature() -> (s: Signature) {
        let mut fields: Vec<Signature> = Vec::new();
        fields.push(T0::signature());
        fields.push(T1::signature());
        fields.push(T2::signature());
        fields.push(T3::signature());
        fields.push(T4::signature());
        fields.push(T5::signature());
        proof {
            lemma_views_of_len(fields@);
            lemma_views_of_index(fields@, 0);
            lemma_views_of_index(fields@, 1);
            lemma_views_of_index(fields@, 2);
            lemma_views_of_index(fields@, 3);
            lemma_views_of_index(fields@, 4);
            lemma_views_of_index(fields@, 5);
            assert(crate::signature::views_of(fields@) =~= seq![
                T0::signature_spec(),
                T1::signature_spec(),
                T2::signature_spec(),
                T3::signature_spec(),
                T4::signature_spec(),
                T5::signature_spec(),
            ]);
        }
        Signature::Structure(FieldsSignatures::Static { fields: Arc::new(fields) })
    }
}

impl<T0: Type, T1: Type, T2: Type, T3: Type, T4: Type, T5: Type, T6: Type> Type for (T0, T1, T2, T3, T4, T5, T6) {
    open spec fn signature_spec() -> SigView {
        SigView::Structure(seq![
            T0::signature_spec(),
            T1::signature_spec(),
            T2::signature_spec(),
            T3::signature_spec(),
            T4::signature_spec(),
            T5::signature_spec(),
            T6::signature_spec(),
        ])
    }

    fn signature() -> (s: Signature) {
        let mut fields: Vec<Signature> = Vec::new();
        fields.push(T0::signature());
        fields.push(T1::signature());
        fields.push(T2::signature());
        fields.push(T3::signature());
        fields.push(T4::signature());
        fields.push(T5::signature());
        fields.push(T6::signature());
        proof {
            lemma_views_of_len(fields@);
            lemma_views_of_index(fields@, 0);
            lemma_views_of_index(fields@, 1);
            lemma_views_of_index(fields@, 2);
            lemma_views_of_index(fields@, 3);
            lemma_views_of_index(fields@, 4);
            lemma_views_of_index(fields@, 5);
            lemma_views_of_index(fields@, 6);
            assert(crate::signature::views_of(fields@) =~= seq![
                T0::signature_spec(),
                T1::signature_spec(),
                T2::signature_spec(),
                T3::signature_spec(),
                T4::signature_spec(),
                T5::signature_spec(),
                T6::signature_spec(),
            ]);
        }
        Signature::Structure(FieldsSignatures::Static { fields: Arc::new(fields) })
    }
}

impl<T0: Type, T1: Type, T2: Type, T3: Type, T4: Type, T5: Type, T6: Type, T7: Type> Type for (T0, T1, T2, T3, T4, T5, T6, T7) {
    open spec fn signature_spec() -> SigView {
        SigView::Structure(seq![
            T0::signature_spec(),
            T1::signature_spec(),
            T2::signature_spec(),
            T3::signature_spec(),
            T4::signature_spec(),
            T5::signature_spec(),
            T6::signature_spec(),
            T7::signature_spec(),
        ])
    }

    fn signature() -> (s: Signature) {
        let mut fields: Vec<Signature> = Vec::new();
        fields.push(T0::signature());
        fields.push(T1::signature());
        fields.push(T2::signature());
        fields.push(T3::signature());
        fields.push(T4::signature());
        fields.push(T5::signature());
        fields.push(T6::signature());
        fields.push(T7::signature());
        proof {
            lemma_views_of_len(fields@);
            lemma_views_of_index(fields@, 0);
            lemma_views_of_index(fields@, 1);
            lemma_views_of_index(fields@, 2);
            lemma_views_of_index(fields@, 3);
            lemma_views_of_index(fields@, 4);
            lemma_views_of_index(fields@, 5);
            lemma_views_of_index(fields@, 6);
            lemma_views_of_index(fields@, 7);
            assert(crate::signature::views_of(fields@) =~= seq![
                T0::signature_spec(),
                T1::signature_spec(),
                T2::signature_spec(),
                T3::signature_spec(),
                T4::signature_spec(),
                T5::signature_spec(),
                T6::signature_spec(),
                T7::signature_spec(),
            ]);
        }
        Signature::Structure(FieldsSignatures::Static { fields: Arc::new(fields) })
    }
}

impl<T0: Type, T1: Type, T2: Type, T3: Type, T4: Type, T5: Type, T6: Type, T7: Type, T8: Type> Type for (T0, T1, T2, T3, T4, T5, T6, T7, T8) {
    open spec fn signature_spec() -> SigView {
        SigView::Structure(seq![
            T0::signature_spec(),
            T1::signature_spec(),
            T2::signature_spec(),
            T3::signature_spec(),
            T4::signature_spec(),
            T5::signature_spec(),
            T6::signature_spec(),
            T7::signature_spec(),
            T8::signature_spec(),
        ])
    }

    fn signature() -> (s: Signature) {
        let mut fields: Vec<Signature> = Vec::new();
        fields.push(T0::signature());
        fields.push(T1::signature());
        fields.push(T2::signature());
        fields.push(T3::signature());
        fields.push(T4::signature());
        fields.push(T5::signature());
        fields.push(T6::signature());
        fields.push(T7::signature());
        fields.push(T8::signature());
        proof {
            lemma_views_of_len(fields@);
            lemma_views_of_index(fields@, 0);
            lemma_views_of_index(fields@, 1);
            lemma_views_of_index(fields@, 2);
            lemma_views_of_index(fields@, 3);
            lemma_views_of_index(fields@, 4);
            lemma_views_of_index(fields@, 5);
            lemma_views_of_index(fields@, 6);
            lemma_views_of_index(fields@, 7);
            lemma_views_of_index(fields@, 8);
            assert(crate::signature::views_of(fields@) =~= seq![
                T0::signature_spec(),
                T1::signature_spec(),
                T2::signature_spec(),
                T3::signature_spec(),
                T4::signature_spec(),
                T5::signature_spec(),
                T6::signature_spec(),
                T7::signature_spec(),
                T8::signature_spec(),
            ]);
        }
        Signature::Structure(FieldsSignatures::Static { fields: Arc::new(fields) })
    }
}

impl<T0: Type, T1: Type, T2: Type, T3: Type, T4: Type, T5: Type, T6: Type, T7: Type, T8: Type, T9: Type> Type for (T0, T1, T2, T3, T4, T5, T6, T7, T8, T9) {
    open spec fn signature_spec() -> SigView {
        SigView::Structure(seq![
            T0::signature_spec(),
            T1::signature_spec(),
            T2::signature_spec(),
            T3::signature_spec(),
            T4::signature_spec(),
            T5::signature_spec(),
            T6::signature_spec(),
            T7::signature_spec(),
            T8::signature_spec(),
            T9::signature_spec(),
        ])
    }

    fn signature() -> (s: Signature) {
        let mut fields: Vec<Signature> = Vec::new();
        fields.push(T0::signature());
        fields.push(T1::signature());
        fields.push(T2::signature());
        fields.push(T3::signature());
        fields.push(T4::signature());
        fields.push(T5::signature());
        fields.push(T6::signature());
        fields.push(T7::signature());
        fields.push(T8::signature());
        fields.push(T9::signature());
        proof {
            lemma_views_of_len(fields@);
            lemma_views_of_index(fields@, 0);
            lemma_views_of_index(fields@, 1);
            lemma_views_of_index(fields@, 2);
            lemma_views_of_index(fields@, 3);
            lemma_views_of_index(fields@, 4);
            lemma_views_of_index(fields@, 5);
            lemma_views_of_index(fields@, 6);
            lemma_views_of_index(fields@, 7);
            lemma_views_of_index(fields@, 8);
            lemma_views_of_index(fields@, 9);
            assert(crate::signature::views_of(fields@) =~= seq![
                T0::signature_spec(),
                T1::signature_spec(),
                T2::signature_spec(),
                T3::signature_spec(),
                T4::signature_spec(),
                T5::signature_spec(),
                T6::signature_spec(),
                T7::signature_spec(),
                T8::signature_spec(),
                T9::signature_spec(),
            ]);
        }
        Signature::Structure(FieldsSignatures::Static { fields: Arc::new(fields) })
    }
}

impl<T0: Type, T1: Type, T2: Type, T3: Type, T4: Type, T5: Type, T6: Type, T7: Type, T8: Type, T9: Type, T10: Type> Type for (T0, T1, T2, T3, T4, T5, T6, T7, T8, T9, T10) {
    open spec fn signature_spec() -> SigView {
        SigView::Structure(seq![
            T0::signature_spec(),
            T1::signature_spec(),
            T2::signature_spec(),
            T3::signature_spec(),
            T4::signature_spec(),
            T5::signature_spec(),
            T6::signature_spec(),
            T7::signature_spec(),
            T8::signature_spec(),
            T9::signature_spec(),
            T10::signature_spec(),
        ])
    }

    fn signature() -> (s: Signature) {
        let mut fields: Vec<Signature> = Vec::new();
        fields.push(T0::signature());
        fields.push(T1::signature());
        fields.push(T2::signature());
        fields.push(T3::signature());
        fields.push(T4::signature());
        fields.push(T5::signature());
        fields.push(T6::signature());
        fields.push(T7::signature());
        fields.push(T8::signature());
        fields.push(T9::signature());
        fields.push(T10::signature());
        proof {
            lemma_views_of_len(fields@);
            lemma_views_of_index(fields@, 0);
            lemma_views_of_index(fields@, 1);
            lemma_views_of_index(fields@, 2);
            lemma_views_of_index(fields@, 3);
            lemma_views_of_index(fields@, 4);
            lemma_views_of_index(fields@, 5);
            lemma_views_of_index(fields@, 6);
            lemma_views_of_index(fields@, 7);
            lemma_views_of_index(fields@, 8);
            lemma_views_of_index(fields@, 9);
            lemma_views_of_index(fields@, 10);
            assert(crate::signature::views_of(fields@) =~= seq![
                T0::signature_spec(),
                T1::signature_spec(),
                T2::signature_spec(),
                T3::signature_spec(),
                T4::signature_spec(),
                T5::signature_spec(),
                T6::signature_spec(),
                T7::signature_spec(),
                T8::signature_spec(),
                T9::signature_spec(),
                T10::signature_spec(),
            ]);
        }
        Signature::Structure(FieldsSignatures::Static { fields: Arc::new(fields) })
    }
}

impl<T0: Type, T1: Type, T2: Type, T3: Type, T4: Type, T5: Type, T6: Type, T7: Type, T8: Type, T9: Type, T10: Type, T11: Type> Type for (T0, T1, T2, T3, T4, T5, T6, T7, T8, T9, T10, T11) {
    open spec fn signature_spec() -> SigView {
        SigView::Structure(seq![
            T0::signature_spec(),
            T1::signature_spec(),
            T2::signature_spec(),
            T3::signature_spec(),
            T4::signature_spec(),
            T5::signature_spec(),
            T6::signature_spec(),
            T7::signature_spec(),
            T8::signature_spec(),
            T9::signature_spec(),
            T10::signature_spec(),
            T11::signature_spec(),
        ])
    }

    fn signature() -> (s: Signature) {
        let mut fields: Vec<Signature> = Vec::new();
        fields.push(T0::signature());
        fields.push(T1::signature());
        fields.push(T2::signature());
        fields.push(T3::signature());
        fields.push(T4::signature());
        fields.push(T5::signature());
        fields.push(T6::signature());
        fields.push(T7::signature());
        fields.push(T8::signature());
        fields.push(T9::signature());
        fields.push(T10::signature());
        fields.push(T11::signature());
        proof {
            lemma_views_of_len(fields@);
            lemma_views_of_index(fields@, 0);
            lemma_views_of_index(fields@, 1);
            lemma_views_of_index(fields@, 2);
            lemma_views_of_index(fields@, 3);
            lemma_views_of_index(fields@, 4);
            lemma_views_of_index(fields@, 5);
            lemma_views_of_index(fields@, 6);
            lemma_views_of_index(fields@, 7);
            lemma_views_of_index(fields@, 8);
            lemma_views_of_index(fields@, 9);
            lemma_views_of_index(fields@, 10);
            lemma_views_of_index(fields@, 11);
            assert(crate::signature::views_of(fields@) =~= seq![
                T0::signature_spec(),
                T1::signature_spec(),
                T2::signature_spec(),
                T3::signature_spec(),
                T4::signature_spec(),
                T5::signature_spec(),
                T6::signature_spec(),
                T7::signature_spec(),
                T8::signature_spec(),
                T9::signature_spec(),
                T10::signature_spec(),
                T11::signature_spec(),
            ]);
        }
        Signature::Structure(FieldsSignatures::Static { fields: Arc::new(fields) })
    }
}

impl<T0: Type, T1: Type, T2: Type, T3: Type, T4: Type, T5: Type, T6: Type, T7: Type, T8: Type, T9: Type, T10: Type, T11: Type, T12: Type> Type for (T0, T1, T2, T3, T4, T5, T6, T7, T8, T9, T10, T11, T12) {
    open spec fn signature_spec() -> SigView {
        SigView::Structure(seq![
            T0::signature_spec(),
            T1::signature_spec(),
            T2::signature_spec(),
            T3::signature_spec(),
            T4::signature_spec(),
            T5::signature_spec(),
            T6::signature_spec(),
            T7::signature_spec(),
            T8::signature_spec(),
            T9::signature_spec(),
            T10::signature_spec(),
            T11::signature_spec(),
            T12::signature_spec(),
        ])
    }

    fn signature() -> (s: Signature) {
        let mut fields: Vec<Signature> = Vec::new();
        fields.push(T0::signature());
        fields.push(T1::signature());
        fields.push(T2::signature());
        fields.push(T3::signature());
        fields.push(T4::signature());
        fields.push(T5::signature());
        fields.push(T6::signature());
        fields.push(T7::signature());
        fields.push(T8::signature());
        fields.push(T9::signature());
        fields.push(T10::signature());
        fields.push(T11::signature());
        fields.push(T12::signature());
        proof {
            lemma_views_of_len(fields@);
            lemma_views_of_index(fields@, 0);
            lemma_views_of_index(fields@, 1);
            lemma_views_of_index(fields@, 2);
            lemma_views_of_index(fields@, 3);
            lemma_views_of_index(fields@, 4);
            lemma_views_of_index(fields@, 5);
            lemma_views_of_index(fields@, 6);
            lemma_views_of_index(fields@, 7);
            lemma_views_of_index(fields@, 8);
            lemma_views_of_index(fields@, 9);
            lemma_views_of_index(fields@, 10);
            lemma_views_of_index(fields@, 11);
            lemma_views_of_index(fields@, 12);
            assert(crate::signature::views_of(fields@) =~= seq![
                T0::signature_spec(),
                T1::signature_spec(),
                T2::signature_spec(),
                T3::signature_spec(),
                T4::signature_spec(),
                T5::signature_spec(),
                T6::signature_spec(),
                T7::signature_spec(),
                T8::signature_spec(),
                T9::signature_spec(),
                T10::signature_spec(),
                T11::signature_spec(),
                T12::signature_spec(),
            ]);
        }
        Signature::Structure(FieldsSignatures::Static { fields: Arc::new(fields) })
    }
}

impl<T0: Type, T1: Type, T2: Type, T3: Type, T4: Type, T5: Type, T6: Type, T7: Type, T8: Type, T9: Type, T10: Type, T11: Type, T12: Type, T13: Type> Type for (T0, T1, T2, T3, T4, T5, T6, T7, T8, T9, T10, T11, T12, T13) {
    open spec fn signature_spec() -> SigView {
        SigView::Structure(seq![
            T0::signature_spec(),
            T1::signature_spec(),
            T2::signature_spec(),
            T3::signature_spec(),
            T4::signature_spec(),
            T5::signature_spec(),
            T6::signature_spec(),
            T7::signature_spec(),
            T8::signature_spec(),
            T9::signature_spec(),
            T10::signature_spec(),
            T11::signature_spec(),
            T12::signature_spec(),
            T13::signature_spec(),
        ])
    }

    fn signature() -> (s: Signature) {
        let mut fields: Vec<Signature> = Vec::new();
        fields.push(T0::signature());
        fields.push(T1::signature());
        fields.push(T2::signature());
        fields.push(T3::signature());
        fields.push(T4::signature());
        fields.push(T5::signature());
        fields.push(T6::signature());
        fields.push(T7::signature());
        fields.push(T8::signature());
        fields.push(T9::signature());
        fields.push(T10::signature());
        fields.push(T11::signature());
        fields.push(T12::signature());
        fields.push(T13::signature());
        proof {
            lemma_views_of_len(fields@);
            lemma_views_of_index(fields@, 0);
            lemma_views_of_index(fields@, 1);
            lemma_views_of_index(fields@, 2);
            lemma_views_of_index(fields@, 3);
            lemma_views_of_index(fields@, 4);
            lemma_views_of_index(fields@, 5);
            lemma_views_of_index(fields@, 6);
            lemma_views_of_index(fields@, 7);
            lemma_views_of_index(fields@, 8);
            lemma_views_of_index(fields@, 9);
            lemma_views_of_index(fields@, 10);
            lemma_views_of_index(fields@, 11);
            lemma_views_of_index(fields@, 12);
            lemma_views_of_index(fields@, 13);
            assert(crate::signature::views_of(fields@) =~= seq![
                T0::signature_spec(),
                T1::signature_spec(),
                T2::signature_spec(),
                T3::signature_spec(),
                T4::signature_spec(),
                T5::signature_spec(),
                T6::signature_spec(),
                T7::signature_spec(),
                T8::signature_spec(),
                T9::signature_spec(),
                T10::signature_spec(),
                T11::signature_spec(),
                T12::signature_spec(),
                T13::signature_spec(),
            ]);
        }
        Signature::Structure(FieldsSignatures::Static { fields: Arc::new(fields) })
    }
}

impl<T0: Type, T1: Type, T2: Type, T3: Type, T4: Type, T5: Type, T6: Type, T7: Type, T8: Type, T9: Type, T10: Type, T11: Type, T12: Type, T13: Type, T14: Type> Type for (T0, T1, T2, T3, T4, T5, T6, T7, T8, T9, T10, T11, T12, T13, T14) {
    open spec fn signature_spec() -> SigView {
        SigView::Structure(seq![
            T0::signature_spec(),
            T1::signature_spec(),
            T2::signature_spec(),
            T3::signature_spec(),
            T4::signature_spec(),
            T5::signature_spec(),
            T6::signature_spec(),
            T7::signature_spec(),
            T8::signature_spec(),
            T9::signature_spec(),
            T10::signature_spec(),
            T11::signature_spec(),
            T12::signature_spec(),
            T13::signature_spec(),
            T14::signature_spec(),
        ])
    }

    fn signature() -> (s: Signature) {
        let mut fields: Vec<Signature> = Vec::new();
        fields.push(T0::signature());
        fields.push(T1::signature());
        fields.push(T2::signature());
        fields.push(T3::signature());
        fields.push(T4::signature());
        fields.push(T5::signature());
        fields.push(T6::signature());
        fields.push(T7::signature());
        fields.push(T8::signature());
        fields.push(T9::signature());
        fields.push(T10::signature());
        fields.push(T11::signature());
        fields.push(T12::signature());
        fields.push(T13::signature());
        fields.push(T14::signature());
        proof {
            lemma_views_of_len(fields@);
            lemma_views_of_index(fields@, 0);
            lemma_views_of_index(fields@, 1);
            lemma_views_of_index(fields@, 2);
            lemma_views_of_index(fields@, 3);
            lemma_views_of_index(fields@, 4);
            lemma_views_of_index(fields@, 5);
            lemma_views_of_index(fields@, 6);
            lemma_views_of_index(fields@, 7);
            lemma_views_of_index(fields@, 8);
            lemma_views_of_index(fields@, 9);
            lemma_views_of_index(fields@, 10);
            lemma_views_of_index(fields@, 11);
            lemma_views_of_index(fields@, 12);
            lemma_views_of_index(fields@, 13);
            lemma_views_of_index(fields@, 14);
            assert(crate::signature::views_of(fields@) =~= seq![
                T0::signature_spec(),
                T1::signature_spec(),
                T2::signature_spec(),
                T3::signature_spec(),
                T4::signature_spec(),
                T5::signature_spec(),
                T6::signature_spec(),
                T7::signature_spec(),
                T8::signature_spec(),
                T9::signature_spec(),
                T10::signature_spec(),
                T11::signature_spec(),
                T12::signature_spec(),
                T13::signature_spec(),
                T14::signature_spec(),
            ]);
        }
        Signature::Structure(FieldsSignatures::Static { fields: Arc::new(fields) })
    }
}

impl<T0: Type, T1: Type, T2: Type, T3: Type, T4: Type, T5: Type, T6: Type, T7: Type, T8: Type, T9: Type, T10: Type, T11: Type, T12: Type, T13: Type, T14: Type, T15: Type> Type for (T0, T1, T2, T3, T4, T5, T6, T7, T8, T9, T10, T11, T12, T13, T14, T15) {
    open spec fn signature_spec() -> SigView {
        SigView::Structure(seq![
            T0::signature_spec(),
            T1::signature_spec(),
            T2::signature_spec(),
            T3::signature_spec(),
            T4::signature_spec(),
            T5::signature_spec(),
            T6::signature_spec(),
            T7::signature_spec(),
            T8::signature_spec(),
            T9::signature_spec(),
            T10::signature_spec(),
            T11::signature_spec(),
            T12::signature_spec(),
            T13::signature_spec(),
            T14::signature_spec(),
            T15::signature_spec(),
        ])
    }

    fn signature() -> (s: Signature) {
        let mut fields: Vec<Signature> = Vec::new();
        fields.push(T0::signature());
        fields.push(T1::signature());
        fields.push(T2::signature());
        fields.push(T3::signature());
        fields.push(T4::signature());
        fields.push(T5::signature());
        fields.push(T6::signature());
        fields.push(T7::signature());
        fields.push(T8::signature());
        fields.push(T9::signature());
        fields.push(T10::signature());
        fields.push(T11::signature());
        fields.push(T12::signature());
        fields.push(T13::signature());
        fields.push(T14::signature());
        fields.push(T15::signature());
        proof {
            lemma_views_of_len(fields@);
            lemma_views_of_index(fields@, 0);
            lemma_views_of_index(fields@, 1);
            lemma_views_of_index(fields@, 2);
            lemma_views_of_index(fields@, 3);
            lemma_views_of_index(fields@, 4);
            lemma_views_of_index(fields@, 5);
            lemma_views_of_index(fields@, 6);
            lemma_views_of_index(fields@, 7);
            lemma_views_of_index(fields@, 8);
            lemma_views_of_index(fields@, 9);
            lemma_views_of_index(fields@, 10);
            lemma_views_of_index(fields@, 11);
            lemma_views_of_index(fields@, 12);
            lemma_views_of_index(fields@, 13);
            lemma_views_of_index(fields@, 14);
            lemma_views_of_index(fields@, 15);
            assert(crate::signature::views_of(fields@) =~= seq![
                T0::signature_spec(),
                T1::signature_spec(),
                T2::signature_spec(),
                T3::signature_spec(),
                T4::signature_spec(),
                T5::signature_spec(),
                T6::signature_spec(),
                T7::signature_spec(),
                T8::signature_spec(),
                T9::signature_spec(),
                T10::signature_spec(),
                T11::signature_spec(),
                T12::signature_spec(),
                T13::signature_spec(),
                T14::signature_spec(),
                T15::signature_spec(),
            ]);
        }
        Signature::Structure(FieldsSignatures::Static { fields: Arc::new(fields) })
    }
}

} // verus!
