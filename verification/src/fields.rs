//! A structure node's handle on its ordered field signatures.

use vstd::prelude::*;
use std::sync::Arc;

use crate::model::SigView;
use crate::signature::Signature;
use crate::signature::arc_clone;
use crate::signature::fields_view;
use crate::signature::views_of;

verus! {

/// The fields of a structure signature.
///
/// The `Static` variant marks fields that the static type mapping
/// produced from natively known types; the `Dynamic` variant marks
/// fields composed at run time. Both back the fields with shared
/// ownership, so cloning a handle never copies the field signatures, and
/// the view of a handle erases the distinction.
#[derive(Debug)]
pub enum FieldsSignatures {
    Static { fields: Arc<Vec<Signature>> },
    Dynamic { fields: Arc<Vec<Signature>> },
}

impl View for FieldsSignatures {
    type V = Seq<SigView>;

    open spec fn view(&self) -> Seq<SigView> {
        fields_view(*self)
    }
}

/// The field signatures a fields handle holds, whichever backing holds
/// them.
pub open spec fn fields_sigs(fs: FieldsSignatures) -> Seq<Signature> {
    match fs {
        FieldsSignatures::Static { fields } => fields@,
        FieldsSignatures::Dynamic { fields } => fields@,
    }
}

impl FieldsSignatures {
    /// The number of fields.
    pub fn len(&self) -> (n: usize)
        ensures
            n == self@.len(),
    {
        let v: &Vec<Signature> = match self {
            FieldsSignatures::Static { fields } => &*fields,
            FieldsSignatures::Dynamic { fields } => &*fields,
        };
        proof {
            crate::signature::lemma_views_of_len(v@);
        }
        v.len()
    }

    /// A read-only reference to the field at `i`.
    pub fn field(&self, i: usize) -> (r: &Signature)
        requires
            i < self@.len(),
        ensures
            *r == fields_sigs(*self)[i as int],
            r@ == self@[i as int],
    {
        let v: &Vec<Signature> = match self {
            FieldsSignatures::Static { fields } => &*fields,
            FieldsSignatures::Dynamic { fields } => &*fields,
        };
        proof {
            crate::signature::lemma_views_of_len(v@);
            crate::signature::lemma_views_of_index(v@, i as int);
        }
        &v[i]
    }

    /// The field signatures in order, each sharing its children with
    /// `self`.
    pub fn iter(&self) -> (r: Vec<Signature>)
        ensures
            r@.len() == self@.len(),
            forall|i: int| 0 <= i < r@.len() ==> #[trigger] r@[i]@ == self@[i],
    {
        let v: &Vec<Signature> = match self {
            FieldsSignatures::Static { fields } => &*fields,
            FieldsSignatures::Dynamic { fields } => &*fields,
        };
        proof {
            crate::signature::lemma_views_of_len(v@);
        }
        let mut out: Vec<Signature> = Vec::new();
        let mut i: usize = 0;
        while i < v.len()
            invariant
                i <= v@.len(),
                out@.len() == i,
                forall|k: int| 0 <= k < i ==> #[trigger] out@[k]@ == views_of(v@)[k],
            decreases v@.len() - i,
        {
            proof {
                crate::signature::lemma_views_of_index(v@, i as int);
            }
            out.push(v[i].clone());
            i = i + 1;
        }
        out
    }
}

impl From<Vec<Signature>> for FieldsSignatures {
    /// Takes ownership of run-time field signatures as dynamic fields.
    fn from(fields: Vec<Signature>) -> (r: FieldsSignatures) {
        FieldsSignatures::Dynamic { fields: Arc::new(fields) }
    }
}

impl vstd::std_specs::convert::FromSpecImpl<Vec<Signature>> for FieldsSignatures {
    open spec fn obeys_from_spec() -> bool {
        true
    }

    open spec fn from_spec(fields: Vec<Signature>) -> FieldsSignatures {
        FieldsSignatures::Dynamic { fields: Arc::new(fields) }
    }
}

impl From<Arc<Vec<Signature>>> for FieldsSignatures {
    /// Shares already shared run-time field signatures as dynamic
    /// fields.
    fn from(fields: Arc<Vec<Signature>>) -> (r: FieldsSignatures) {
        FieldsSignatures::Dynamic { fields }
    }
}

impl vstd::std_specs::convert::FromSpecImpl<Arc<Vec<Signature>>> for FieldsSignatures {
    open spec fn obeys_from_spec() -> bool {
        true
    }

    open spec fn from_spec(fields: Arc<Vec<Signature>>) -> FieldsSignatures {
        FieldsSignatures::Dynamic { fields }
    }
}

impl Clone for FieldsSignatures {
    /// Clones the handle only: the field signatures stay shared.
    fn clone(&self) -> (r: Self)
        ensures
            r == *self,
    {
        match self {
            FieldsSignatures::Static { fields } => FieldsSignatures::Static {
                fields: arc_clone(fields),
            },
            FieldsSignatures::Dynamic { fields } => FieldsSignatures::Dynamic {
                fields: arc_clone(fields),
            },
        }
    }
}

} // verus!
