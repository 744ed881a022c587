use vstd::prelude::*;
use vstd::std_specs::convert::IntoSpec;

use crate::generate::{GenerateIdStateful, GenerateIdStateless};
use crate::id::StableId;

verus! {

/// Defines a "domain" of identifiable entities.
///
/// Any concrete type — usually a zero-sized marker struct — can act as the
/// generic argument of [`StableId`] by declaring a concrete backing type for
/// its identifiers, along with extra types that select optional behaviour.
/// Each of those can be left as `()` when the behaviour is not desired.
///
/// The construction and generation conveniences live on [`IdDomainExt`],
/// which every domain implements automatically.
pub trait IdDomain: Sized {
    /// A presentable name for the identifier domain, useful in diagnostics.
    const NAME: &'static str;

    /// The concrete data type that stores identifiers of this domain.
    type Backing;

    /// A type that can generate new identifiers in this domain: any type
    /// implementing [`GenerateIdStateless`] or [`GenerateIdStateful`], or
    /// `()` if generation is not desired.
    type Generator;

    /// A type used for constant representations of [`IdDomain::Backing`],
    /// consumed by [`crate::identify::StableTypeId`]; `()` if constant
    /// identifiers are not desired.
    type ConstRepr;
}

/// Construction and generation conveniences for every [`IdDomain`].
///
/// This is implemented once, for all domains; a domain only declares its
/// associated types and gets these operations for free. The generation
/// methods exist exactly when the declared generator has the corresponding
/// capability, so calling the wrong one fails to compile rather than at run
/// time.
pub trait IdDomainExt: IdDomain {
    /// Construct a new identifier from any value convertible into the
    /// backing type. No validation happens beyond the conversion itself.
    fn new_id<V: Into<Self::Backing>>(from_value: V) -> (r: StableId<Self>)
        ensures
            <V as IntoSpec<Self::Backing>>::obeys_into_spec() ==> r@ == from_value.into_spec(),
    ;

    /// Generate a new identifier; available only when the declared generator
    /// is stateless.
    fn generate_id() -> (r: StableId<Self>) where
        Self::Generator: GenerateIdStateless<StableId<Self>>
        ensures
            <Self::Generator as GenerateIdStateless<StableId<Self>>>::generated(r),
    ;

    /// Generate an identifier using a given stateful generator, taking
    /// exclusive access to it for the duration of the call.
    fn generate_id_stateful(generator: &mut Self::Generator) -> (r: StableId<Self>) where
        Self::Generator: GenerateIdStateful<StableId<Self>>
        ensures
            <Self::Generator as GenerateIdStateful<StableId<Self>>>::generated_stateful(
                *old(generator),
                *final(generator),
                r,
            ),
    ;
}

impl<D: IdDomain> IdDomainExt for D {
    fn new_id<V: Into<Self::Backing>>(from_value: V) -> (r: StableId<Self>) {
        StableId::new(from_value.into())
    }

    fn generate_id() -> (r: StableId<Self>) where
        Self::Generator: GenerateIdStateless<StableId<Self>>
    {
        Self::Generator::generate_id()
    }

    fn generate_id_stateful(generator: &mut Self::Generator) -> (r: StableId<Self>) where
        Self::Generator: GenerateIdStateful<StableId<Self>>
    {
        generator.generate_id_stateful()
    }
}

} // verus!
