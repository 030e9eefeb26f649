//! A container node's handle on a single child signature.

use vstd::prelude::*;
use std::sync::Arc;

use crate::model::SigView;
use crate::signature::Signature;
use crate::signature::arc_clone;
use crate::signature::child_view;

verus! {

/// One child of an array or dictionary signature.
///
/// The `Static` variant marks a child that the static type mapping
/// produced from a natively known type; the `Dynamic` variant marks a
/// child composed at run time, by the parser or by hand. Both back the
/// child with shared ownership, so cloning a handle never copies the
/// tree, and the view of a handle erases the distinction: every contract
/// in this crate treats the two origins identically.
#[derive(Debug)]
pub enum ChildSignature {
    Static { child: Arc<Signature> },
    Dynamic { child: Arc<Signature> },
}

impl View for ChildSignature {
    type V = SigView;

    open spec fn view(&self) -> SigView {
        child_view(*self)
    }
}

/// The signature a child handle holds, whichever backing holds it.
pub open spec fn child_sig(c: ChildSignature) -> Signature {
    match c {
        ChildSignature::Static { child } => *child,
        ChildSignature::Dynamic { child } => *child,
    }
}

impl ChildSignature {
    /// A read-only reference to the contained signature.
    pub fn get(&self) -> (r: &Signature)
        ensures
            *r == child_sig(*self),
            r@ == self@,
    {
        match self {
            ChildSignature::Static { child } => &*child,
            ChildSignature::Dynamic { child } => &*child,
        }
    }
}

impl From<Signature> for ChildSignature {
    /// Takes ownership of a run-time signature as a dynamic child.
    fn from(child: Signature) -> (r: ChildSignature) {
        ChildSignature::Dynamic { child: Arc::new(child) }
    }
}

impl vstd::std_specs::convert::FromSpecImpl<Signature> for ChildSignature {
    open spec fn obeys_from_spec() -> bool {
        true
    }

    open spec fn from_spec(child: Signature) -> ChildSignature {
        ChildSignature::Dynamic { child: Arc::new(child) }
    }
}

impl From<Arc<Signature>> for ChildSignature {
    /// Shares an already shared run-time signature as a dynamic child.
    fn from(child: Arc<Signature>) -> (r: ChildSignature) {
        ChildSignature::Dynamic { child }
    }
}

impl vstd::std_specs::convert::FromSpecImpl<Arc<Signature>> for ChildSignature {
    open spec fn obeys_from_spec() -> bool {
        true
    }

    open spec fn from_spec(child: Arc<Signature>) -> ChildSignature {
        ChildSignature::Dynamic { child }
    }
}

impl Clone for ChildSignature {
    /// Clones the handle only: the contained signature stays shared.
    fn clone(&self) -> (r: Self)
        ensures
            r == *self,
    {
        match self {
            ChildSignature::Static { child } => ChildSignature::Static { child: arc_clone(child) },
            ChildSignature::Dynamic { child } => ChildSignature::Dynamic {
                child: arc_clone(child),
            },
        }
    }
}

} // verus!
