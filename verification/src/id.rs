use vstd::prelude::*;
use vstd::std_specs::cmp::{PartialEqSpec, PartialOrdSpec};

use crate::domain::IdDomain;

verus! {

/// A container for one identifier of an entity in domain `D`.
///
/// The container holds exactly one value of the backing type that `D`
/// declares, and nothing else; its view is that value. Identifiers over
/// different domains are different types even when the backing types agree,
/// so a well-typed program can never compare or exchange them.
pub struct StableId<D: IdDomain> {
    backing: D::Backing,
}

impl<D: IdDomain> View for StableId<D> {
    type V = D::Backing;

    closed spec fn view(&self) -> D::Backing {
        self.backing
    }
}

impl<D: IdDomain> StableId<D> {
    /// The identifier that wraps `value`, as a specification-level value.
    pub closed spec fn spec_new(value: D::Backing) -> StableId<D> {
        StableId { backing: value }
    }

    /// Wrap a backing value into an identifier of domain `D`.
    pub fn new(value: D::Backing) -> (r: Self)
        ensures
            r == Self::spec_new(value),
            r@ == value,
    {
        StableId { backing: value }
    }

    /// Read-only access to the wrapped backing value.
    pub fn backing(&self) -> (r: &D::Backing)
        ensures
            *r == self@,
    {
        &self.backing
    }

    /// Consume the identifier, returning ownership of the backing value.
    pub fn into_backing(self) -> (r: D::Backing)
        ensures
            r == self@,
    {
        self.backing
    }
}

impl<D: IdDomain> Clone for StableId<D> where D::Backing: Clone {
    fn clone(&self) -> Self {
        StableId { backing: self.backing.clone() }
    }
}

impl<D: IdDomain> Copy for StableId<D> where D::Backing: Copy {

}

impl<D: IdDomain> PartialEq for StableId<D> where D::Backing: PartialEq {
    fn eq(&self, other: &Self) -> (r: bool) {
        self.backing.eq(&other.backing)
    }
}

impl<D: IdDomain> vstd::std_specs::cmp::PartialEqSpecImpl for StableId<D> where
    D::Backing: PartialEq
 {
    open spec fn obeys_eq_spec() -> bool {
        <D::Backing as PartialEqSpec>::obeys_eq_spec()
    }

    open spec fn eq_spec(&self, other: &Self) -> bool {
        <D::Backing as PartialEqSpec>::eq_spec(&self@, &other@)
    }
}

impl<D: IdDomain> Eq for StableId<D> where D::Backing: Eq {

}

impl<D: IdDomain> PartialOrd for StableId<D> where D::Backing: PartialOrd {
    fn partial_cmp(&self, other: &Self) -> (r: Option<core::cmp::Ordering>) {
        self.backing.partial_cmp(&other.backing)
    }
}

impl<D: IdDomain> vstd::std_specs::cmp::PartialOrdSpecImpl for StableId<D> where
    D::Backing: PartialOrd
 {
    open spec fn obeys_partial_cmp_spec() -> bool {
        <D::Backing as PartialOrdSpec>::obeys_partial_cmp_spec()
    }

    open spec fn partial_cmp_spec(&self, other: &Self) -> Option<core::cmp::Ordering> {
        <D::Backing as PartialOrdSpec>::partial_cmp_spec(&self@, &other@)
    }
}

/// Wrapping a backing value and taking it back out returns that very value:
/// an identifier has no state besides its payload.
pub proof fn lemma_new_into_backing<D: IdDomain>(value: D::Backing)
    ensures
        StableId::<D>::spec_new(value)@ == value,
{
}

/// Two identifiers of one domain are equal exactly when their backing values
/// are: wrapping loses nothing and adds nothing.
pub proof fn lemma_new_injective<D: IdDomain>(v1: D::Backing, v2: D::Backing)
    ensures
        StableId::<D>::spec_new(v1) == StableId::<D>::spec_new(v2) <==> v1 == v2,
{
}

} // verus!
