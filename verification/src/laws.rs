use vstd::prelude::*;

use libp2p_identity::Keypair;

use crate::select::{Either, SelectMuxerUpgrade, SelectSecurityUpgrade};
use crate::upgrade::{IntoMultiplexerUpgrade, IntoSecurityUpgrade};

verus! {

/// What a pair of security constructors returns once the first has returned
/// `first` and, where the first succeeded, the second has returned `second`.
pub open spec fn security_pair_result<U1, U2, E1, E2>(
    first: Result<U1, E1>,
    second: Result<U2, E2>,
) -> Result<SelectSecurityUpgrade<U1, U2>, Either<E1, E2>> {
    match first {
        Err(e1) => Err(Either::Left(e1)),
        Ok(u1) => match second {
            Err(e2) => Err(Either::Right(e2)),
            Ok(u2) => Ok(SelectSecurityUpgrade(u1, u2)),
        },
    }
}

/// A pair of security constructors whose outcomes are determined is
/// determined too: when the first can only return `first` and, where that
/// is a success, the second can only return `second`, the pair returns
/// `security_pair_result(first, second)`.
pub proof fn lemma_security_pair_determined<C, F1, F2>(
    pair: (F1, F2),
    keypair: &Keypair,
    first: Result<F1::Upgrade, F1::Error>,
    second: Result<F2::Upgrade, F2::Error>,
    result: Result<SelectSecurityUpgrade<F1::Upgrade, F2::Upgrade>, Either<F1::Error, F2::Error>>,
) where F1: IntoSecurityUpgrade<C>, F2: IntoSecurityUpgrade<C>
    requires
        <(F1, F2) as IntoSecurityUpgrade<C>>::security_ensures(&pair, keypair, result),
        forall|r: Result<F1::Upgrade, F1::Error>| #[trigger] pair.0.security_ensures(keypair, r) ==> r == first,
        first is Ok ==> forall|r: Result<F2::Upgrade, F2::Error>|
            #[trigger] pair.1.security_ensures(keypair, r) ==> r == second,
    ensures
        result == security_pair_result(first, second),
{
    match result {
        Ok(u) => {
            assert(pair.0.security_ensures(keypair, Ok(u.0)));
            assert(pair.1.security_ensures(keypair, Ok(u.1)));
        },
        Err(Either::Left(e1)) => {
            assert(pair.0.security_ensures(keypair, Err(e1)));
        },
        Err(Either::Right(e2)) => {
            let u1 = choose|u1: F1::Upgrade| pair.0.security_ensures(keypair, Ok(u1));
            assert(pair.0.security_ensures(keypair, Ok(u1)));
            assert(pair.1.security_ensures(keypair, Err(e2)));
        },
    }
}

/// A pair of multiplexer constructors whose upgrades are determined yields
/// exactly the pair of those upgrades, first then second.
pub proof fn lemma_muxer_pair_determined<C, U1, U2>(
    pair: (U1, U2),
    first: U1::Upgrade,
    second: U2::Upgrade,
    upgrade: SelectMuxerUpgrade<U1::Upgrade, U2::Upgrade>,
) where U1: IntoMultiplexerUpgrade<C>, U2: IntoMultiplexerUpgrade<C>
    requires
        <(U1, U2) as IntoMultiplexerUpgrade<C>>::muxer_ensures(&pair, upgrade),
        forall|u: U1::Upgrade| #[trigger] pair.0.muxer_ensures(u) ==> u == first,
        forall|u: U2::Upgrade| #[trigger] pair.1.muxer_ensures(u) ==> u == second,
    ensures
        upgrade == SelectMuxerUpgrade(first, second),
{
    assert(pair.0.muxer_ensures(upgrade.0));
    assert(pair.1.muxer_ensures(upgrade.1));
}

/// A pair of security constructors that can only succeed yields a combined
/// upgrade: every result the pair may produce is `Ok`.
pub proof fn lemma_security_pair_succeeds<C, F1, F2>(
    pair: (F1, F2),
    keypair: &Keypair,
    result: Result<SelectSecurityUpgrade<F1::Upgrade, F2::Upgrade>, Either<F1::Error, F2::Error>>,
) where F1: IntoSecurityUpgrade<C>, F2: IntoSecurityUpgrade<C>
    requires
        <(F1, F2) as IntoSecurityUpgrade<C>>::security_ensures(&pair, keypair, result),
        forall|r: Result<F1::Upgrade, F1::Error>| #[trigger] pair.0.security_ensures(keypair, r) ==> r is Ok,
        forall|r: Result<F2::Upgrade, F2::Error>| #[trigger] pair.1.security_ensures(keypair, r) ==> r is Ok,
    ensures
        result is Ok,
{
    match result {
        Ok(_) => {},
        Err(Either::Left(e1)) => {
            assert(pair.0.security_ensures(keypair, Err(e1)));
        },
        Err(Either::Right(e2)) => {
            assert(pair.1.security_ensures(keypair, Err(e2)));
        },
    }
}

/// When the first constructor of a pair can only fail, the pair fails with
/// the first constructor's error, reported as `Left`.
pub proof fn lemma_security_pair_first_failure_wins<C, F1, F2>(
    pair: (F1, F2),
    keypair: &Keypair,
    result: Result<SelectSecurityUpgrade<F1::Upgrade, F2::Upgrade>, Either<F1::Error, F2::Error>>,
) where F1: IntoSecurityUpgrade<C>, F2: IntoSecurityUpgrade<C>
    requires
        <(F1, F2) as IntoSecurityUpgrade<C>>::security_ensures(&pair, keypair, result),
        forall|r: Result<F1::Upgrade, F1::Error>| #[trigger] pair.0.security_ensures(keypair, r) ==> r is Err,
    ensures
        result matches Err(Either::Left(e1)) && pair.0.security_ensures(keypair, Err(e1)),
{
    match result {
        Ok(u) => {
            assert(pair.0.security_ensures(keypair, Ok(u.0)));
        },
        Err(Either::Left(_)) => {},
        Err(Either::Right(_)) => {
            let u1 = choose|u1: F1::Upgrade| pair.0.security_ensures(keypair, Ok(u1));
            assert(pair.0.security_ensures(keypair, Ok(u1)));
        },
    }
}

/// A second constructor's error is reported only after the first
/// constructor could have succeeded: a `Right` error never stands for a pair
/// whose first constructor can only fail.
pub proof fn lemma_security_pair_right_after_left_success<C, F1, F2>(
    pair: (F1, F2),
    keypair: &Keypair,
    e2: F2::Error,
) where F1: IntoSecurityUpgrade<C>, F2: IntoSecurityUpgrade<C>
    requires
        <(F1, F2) as IntoSecurityUpgrade<C>>::security_ensures(&pair, keypair, Err(Either::Right(e2))),
    ensures
        exists|u1: F1::Upgrade| #[trigger] pair.0.security_ensures(keypair, Ok(u1)),
        pair.1.security_ensures(keypair, Err(e2)),
{
}

/// Nesting pairs keeps the order of the constructors: in `((a, b), c)` the
/// combined multiplexer upgrade holds `a`'s, then `b`'s, then `c`'s upgrade.
pub proof fn lemma_muxer_nested_pairs_keep_order<C, U1, U2, U3>(
    nested: ((U1, U2), U3),
    upgrade: <((U1, U2), U3) as IntoMultiplexerUpgrade<C>>::Upgrade,
) where U1: IntoMultiplexerUpgrade<C>, U2: IntoMultiplexerUpgrade<C>, U3: IntoMultiplexerUpgrade<C>
    requires
        nested.muxer_ensures(upgrade),
    ensures
        nested.0.0.muxer_ensures(upgrade.0.0),
        nested.0.1.muxer_ensures(upgrade.0.1),
        nested.1.muxer_ensures(upgrade.1),
{
}

} // verus!
