//! Signatures of values whose shape is known only at run time.

use vstd::prelude::*;

use crate::mapping::Type;
use crate::model::SigView;
use crate::signature::Signature;

verus! {

/// A value that can describe its own signature.
///
/// Unlike [`Type`], the signature may depend on the value, not only on
/// its native type; every statically mapped type describes itself
/// through the blanket implementation.
pub trait DynamicType {
    /// The signature describing `self`, as a model value.
    spec fn signature_spec(&self) -> SigView;

    /// The signature describing `self`.
    fn signature(&self) -> (s: Signature)
        ensures
            s@ == self.signature_spec(),
    ;
}

impl<T: Type> DynamicType for T {
    open spec fn signature_spec(&self) -> SigView {
        T::signature_spec()
    }

    fn signature(&self) -> (s: Signature) {
        T::signature()
    }
}

} // verus!
