//! Domain-scoped identifiers with verified value semantics.
//!
//! A category of identifiable things (a "domain") is declared once, as a type
//! implementing [`IdDomain`]: it fixes the backing value type that stores the
//! identifier, an optional generator for fresh identifiers, and an optional
//! constant representation. [`StableId<D>`] then wraps exactly one backing
//! value, and identifiers of two different domains are two different types,
//! so they can never be compared or mixed by a well-typed program.
//!
//! [`tiny_id`] provides a fixed-capacity string backing type together with a
//! random generator for it, for callers who just want a cheap identifier.

pub use {
    domain::{IdDomain, IdDomainExt},
    generate::{GenerateIdStateful, GenerateIdStateless},
    id::StableId,
    identify::{IdentifyAs, StableTypeId},
};

mod domain;
mod generate;
mod id;
mod identify;

pub mod tiny_id;
