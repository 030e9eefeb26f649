//! A builder for structure signatures composed at run time.

use vstd::prelude::*;
use std::sync::Arc;

use crate::dynamic_type::DynamicType;
use crate::fields::FieldsSignatures;
use crate::mapping::Type;
use crate::model::SigView;
use crate::signature::Signature;
use crate::signature::lemma_views_of_push;
use crate::signature::views_of;

verus! {

/// An ordered collection of field signatures, built one statically
/// mapped type at a time. Its signature is a structure of those fields;
/// the built value is immutable once handed out.
pub struct Structure {
    fields: Vec<Signature>,
}

impl View for Structure {
    type V = Seq<SigView>;

    closed spec fn view(&self) -> Seq<SigView> {
        views_of(self.fields@)
    }
}

impl Structure {
    /// A builder with no fields yet.
    pub fn new() -> (s: Self)
        ensures
            s@ == Seq::<SigView>::empty(),
    {
        Structure { fields: Vec::new() }
    }

    /// Extends the builder with the signature of the native type `T`.
    pub fn field<T: Type + ?Sized>(self) -> (r: Self)
        ensures
            r@ == self@.push(T::signature_spec()),
    {
        let mut fields = self.fields;
        let ghost pre = fields@;
        fields.push(T::signature());
        proof {
            lemma_views_of_push(pre, fields@[pre.len() as int]);
            assert(fields@ =~= pre.push(fields@[pre.len() as int]));
        }
        Structure { fields }
    }
}

impl DynamicType for Structure {
    open spec fn signature_spec(&self) -> SigView {
        SigView::Structure(self@)
    }

    /// The structure signature over the fields collected so far.
    fn signature(&self) -> (s: Signature) {
        let copy: Vec<Signature> = self.fields.clone();
        proof {
            assert(copy@ =~= self.fields@);
        }
        Signature::Structure(FieldsSignatures::Dynamic { fields: Arc::new(copy) })
    }
}

} // verus!
