use vstd::prelude::*;
use vstd::std_specs::convert::FromSpec;

use crate::domain::IdDomain;
use crate::id::StableId;

verus! {

/// Lets a *type* declare a stable identifier of a chosen [`IdDomain`].
///
/// Like `core::any::TypeId`, implementing this trait identifies a type; but
/// the identifier here is chosen by the implementer and stays stable across
/// renames and refactorings until the implementer changes it. Each declared
/// constant is assumed unique within its domain: that obligation rests on
/// the implementers and is not enforced here.
///
/// The domain must declare a `ConstRepr` such that its backing type
/// implements `From<ConstRepr>`; without that conversion the trait is
/// unusable for the domain.
pub trait StableTypeId<D> where D: IdDomain, D::Backing: From<D::ConstRepr> {
    /// A constant identifier representation of this type.
    const STABLE_TYPE_ID: D::ConstRepr;

    /// Get the identifier associated with this concrete type, by converting
    /// the declared constant into the domain's backing type.
    fn stable_type_id() -> (r: StableId<D>)
        ensures
            <D::Backing as FromSpec<D::ConstRepr>>::obeys_from_spec() ==> r@
                == <D::Backing as FromSpec<D::ConstRepr>>::from_spec(Self::STABLE_TYPE_ID),
    {
        StableId::new(D::Backing::from(Self::STABLE_TYPE_ID))
    }
}

/// Used to identify `Self` by some identifier in domain `D`.
///
/// A value may carry identities in several domains at once; callers select
/// the domain through the expected return type.
pub trait IdentifyAs<D: IdDomain> {
    /// Gets a stable identifier that this value considers to be its own.
    fn identify_as(&self) -> StableId<D>;
}

/// Distinct constants stay distinct: whenever the conversions of two
/// declared constants into the backing type differ, the identifiers built
/// from them differ as well, because an identifier is nothing but its
/// backing value.
pub proof fn lemma_distinct_constants_distinct_ids<D: IdDomain>(b1: D::Backing, b2: D::Backing)
    requires
        b1 != b2,
    ensures
        StableId::<D>::spec_new(b1) != StableId::<D>::spec_new(b2),
{
    crate::id::lemma_new_injective::<D>(b1, b2);
}

/// Two types that declare constants converting to different backing values
/// get different identifiers from `stable_type_id`: a type's identifier is
/// nothing but its converted constant. A conversion that collapses two
/// constants into one backing value — a capacity-limited backing truncating
/// two long constants to the same prefix, say — is exactly the case this
/// leaves out.
pub proof fn lemma_stable_type_ids_distinct<D, T1, T2>() where
    D: IdDomain,
    D::Backing: From<D::ConstRepr>,
    T1: StableTypeId<D>,
    T2: StableTypeId<D>,

    requires
        <D::Backing as FromSpec<D::ConstRepr>>::from_spec(T1::STABLE_TYPE_ID)
            != <D::Backing as FromSpec<D::ConstRepr>>::from_spec(T2::STABLE_TYPE_ID),
    ensures
        StableId::<D>::spec_new(
            <D::Backing as FromSpec<D::ConstRepr>>::from_spec(T1::STABLE_TYPE_ID),
        ) != StableId::<D>::spec_new(
            <D::Backing as FromSpec<D::ConstRepr>>::from_spec(T2::STABLE_TYPE_ID),
        ),
{
    lemma_distinct_constants_distinct_ids::<D>(
        <D::Backing as FromSpec<D::ConstRepr>>::from_spec(T1::STABLE_TYPE_ID),
        <D::Backing as FromSpec<D::ConstRepr>>::from_spec(T2::STABLE_TYPE_ID),
    );
}

} // verus!
