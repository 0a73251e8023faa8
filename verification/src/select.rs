use vstd::prelude::*;

verus! {

/// The error of a combined upgrade: which of the two components failed.
#[derive(Debug, Clone, Copy, PartialEq, Eq)]
pub enum Either<L, R> {
    /// The first component failed.
    Left(L),
    /// The second component failed.
    Right(R),
}

/// Upgrade that offers the security upgrade `A` first and `B` second.
#[derive(Debug, Clone, Copy, PartialEq, Eq)]
pub struct SelectSecurityUpgrade<A, B>(pub A, pub B);

impl<A, B> SelectSecurityUpgrade<A, B> {
    /// Combines two security upgrades, keeping their order.
    pub fn new(a: A, b: B) -> (r: Self)
        ensures
            r.0 == a,
            r.1 == b,
    {
        SelectSecurityUpgrade(a, b)
    }
}

/// Upgrade that offers the multiplexer upgrade `A` first and `B` second.
#[derive(Debug, Clone, Copy, PartialEq, Eq)]
pub struct SelectMuxerUpgrade<A, B>(pub A, pub B);

impl<A, B> SelectMuxerUpgrade<A, B> {
    /// Combines two multiplexer upgrades, keeping their order.
    pub fn new(a: A, b: B) -> (r: Self)
        ensures
            r.0 == a,
            r.1 == b,
    {
        SelectMuxerUpgrade(a, b)
    }
}

} // verus!
