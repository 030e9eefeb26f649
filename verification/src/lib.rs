//! Type signatures for a D-Bus-style wire protocol.
//!
//! A signature is a compact string describing the shape of a structured
//! value: single-character codes for the basic types, `a<sig>` for an
//! array, `a{<key><value>}` for a dictionary and `(<sig>+)` for a
//! structure. This crate models such signatures as a value type that can
//! be built from statically known native types or parsed from a wire
//! string, with both origins comparing and serializing identically.

pub mod child;
pub mod fields;
pub mod dynamic_type;
pub mod laws;
pub mod mapping;
pub mod model;
pub mod parse;
pub mod signature;
pub mod structure;

pub use child::ChildSignature;
pub use fields::FieldsSignatures;
pub use dynamic_type::DynamicType;
pub use mapping::Type;
pub use model::SigView;
pub use parse::parse;
pub use parse::validate;
pub use signature::Signature;
pub use structure::Structure;
