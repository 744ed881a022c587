use vstd::prelude::*;

verus! {

/// Allows a type to generate identifiers of type `I` in a 'stateless'
/// manner.
///
/// The generation call keeps no state that the caller can observe; it may be
/// impure internally (for example, draw randomness).
pub trait GenerateIdStateless<I> {
    /// The property that every identifier this generator returns satisfies.
    /// A generator drawing from an opaque random source can promise no
    /// particular value, but it can promise the shape of what comes back;
    /// a generator that promises nothing leaves this at its default.
    open spec fn generated(id: I) -> bool {
        true
    }

    /// Generates a new stable identifier.
    fn generate_id() -> (r: I)
        ensures
            Self::generated(r),
    ;
}

/// Allows a type to generate identifiers of type `I` in a 'stateful' manner.
///
/// Useful when the act of generating identifiers has side effects, like
/// incrementing a counter. The caller owns the generator instance and must
/// hand over exclusive access for the duration of each call.
pub trait GenerateIdStateful<I>: Sized {
    /// Relates the generator's state before and after a call to the
    /// identifier produced, carrying whatever ordering property a concrete
    /// generator advertises across successive calls on one instance; a
    /// generator that promises nothing leaves this at its default.
    open spec fn generated_stateful(pre: Self, post: Self, id: I) -> bool {
        true
    }

    /// Generates a new stable identifier using the state of `self`.
    fn generate_id_stateful(&mut self) -> (r: I)
        ensures
            Self::generated_stateful(*old(self), *final(self), r),
    ;
}

} // verus!
