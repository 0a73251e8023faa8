use vstd::prelude::*;

use libp2p_identity::Keypair;

use crate::select::{Either, SelectMuxerUpgrade, SelectSecurityUpgrade};

verus! {

/// Declares libp2p_identity's `Keypair` to Verus as an opaque type: the
/// library only hands it on to the constructors it converts and never reads it.
#[verifier::external_type_specification]
#[verifier::external_body]
pub struct ExKeypair(Keypair);

/// A value that can be turned into a security upgrade, given the local
/// identity keypair.
///
/// `security_requires` says when the conversion may run, `security_ensures`
/// which results it may produce.
///
/// Verus unfolds these two spec functions only where the constructor type is
/// a generic parameter: at a concrete closure or function type it resolves
/// neither the blanket impl nor its `Upgrade` and `Error` types. There the
/// precondition can still be met through `lemma_constructor_security_requires`
/// and `lemma_pair_security_requires`, but nothing follows of the result; a
/// verified caller holding concrete constructors calls `security_upgrade` or
/// `security_upgrade_pair`, whose contracts speak of the constructors
/// directly.
pub trait IntoSecurityUpgrade<C>: Sized {
    type Upgrade;

    type Error;

    /// When the conversion may run with this keypair.
    spec fn security_requires(&self, keypair: &Keypair) -> bool;

    /// Whether `result` is one the conversion may return for this keypair.
    spec fn security_ensures(&self, keypair: &Keypair, result: Result<Self::Upgrade, Self::Error>) -> bool;

    /// Builds the upgrade from the local identity keypair.
    fn into_security_upgrade(self, keypair: &Keypair) -> (result: Result<Self::Upgrade, Self::Error>)
        requires
            self.security_requires(keypair),
        ensures
            self.security_ensures(keypair, result),
    ;
}

/// A constructor closure is converted by calling it once on the keypair; its
/// result, success or error, is handed back unchanged.
impl<C, T, F, E> IntoSecurityUpgrade<C> for F where F: for <'a>FnOnce(&'a Keypair) -> Result<T, E> {
    type Upgrade = T;

    type Error = E;

    open spec fn security_requires(&self, keypair: &Keypair) -> bool {
        call_requires(*self, (keypair,))
    }

    open spec fn security_ensures(&self, keypair: &Keypair, result: Result<T, E>) -> bool {
        call_ensures(*self, (keypair,), result)
    }

    fn into_security_upgrade(self, keypair: &Keypair) -> (result: Result<T, E>) {
        (self)(keypair)
    }
}

/// A pair is converted first component first, on the same keypair. The
/// second is converted only once the first has succeeded; a failure is
/// reported as `Left` for the first component and `Right` for the second.
impl<F1, F2, C> IntoSecurityUpgrade<C> for (F1, F2) where
    F1: IntoSecurityUpgrade<C>,
    F2: IntoSecurityUpgrade<C>,
 {
    type Upgrade = SelectSecurityUpgrade<F1::Upgrade, F2::Upgrade>;

    type Error = Either<F1::Error, F2::Error>;

    open spec fn security_requires(&self, keypair: &Keypair) -> bool {
        &&& self.0.security_requires(keypair)
        &&& forall|u1: F1::Upgrade| #[trigger] self.0.security_ensures(keypair, Ok(u1))
            ==> self.1.security_requires(keypair)
    }

    open spec fn security_ensures(&self, keypair: &Keypair, result: Result<Self::Upgrade, Self::Error>) -> bool {
        match result {
            Ok(upgrade) => {
                &&& self.0.security_ensures(keypair, Ok(upgrade.0))
                &&& self.1.security_ensures(keypair, Ok(upgrade.1))
            },
            Err(Either::Left(e1)) => self.0.security_ensures(keypair, Err(e1)),
            Err(Either::Right(e2)) => {
                &&& exists|u1: F1::Upgrade| #[trigger] self.0.security_ensures(keypair, Ok(u1))
                &&& self.1.security_ensures(keypair, Err(e2))
            },
        }
    }

    fn into_security_upgrade(self, keypair: &Keypair) -> (result: Result<Self::Upgrade, Self::Error>) {
        let (f1, f2) = self;

        let u1 = match f1.into_security_upgrade(keypair) {
            Ok(u1) => u1,
            Err(e1) => return Err(Either::Left(e1)),
        };
        let u2 = match f2.into_security_upgrade(keypair) {
            Ok(u2) => u2,
            Err(e2) => return Err(Either::Right(e2)),
        };

        Ok(SelectSecurityUpgrade::new(u1, u2))
    }
}

/// A value that can be turned into a stream-multiplexer upgrade.
///
/// `muxer_requires` says when the conversion may run, `muxer_ensures` which
/// upgrades it may produce.
///
/// Verus unfolds these two spec functions only where the constructor type is
/// a generic parameter: at a concrete closure or function type it resolves
/// neither the blanket impl nor its `Upgrade` type. There the precondition
/// can still be met through `lemma_constructor_muxer_requires` and
/// `lemma_pair_muxer_requires`, but nothing follows of the result; a verified
/// caller holding concrete constructors calls `multiplexer_upgrade` or
/// `multiplexer_upgrade_pair`, whose contracts speak of the constructors
/// directly.
pub trait IntoMultiplexerUpgrade<C>: Sized {
    type Upgrade;

    /// When the conversion may run.
    spec fn muxer_requires(&self) -> bool;

    /// Whether `upgrade` is one the conversion may return.
    spec fn muxer_ensures(&self, upgrade: Self::Upgrade) -> bool;

    /// Builds the upgrade.
    fn into_multiplexer_upgrade(self) -> (upgrade: Self::Upgrade)
        requires
            self.muxer_requires(),
        ensures
            self.muxer_ensures(upgrade),
    ;
}

/// A constructor closure is converted by calling it once.
impl<C, U, F> IntoMultiplexerUpgrade<C> for F where F: FnOnce() -> U {
    type Upgrade = U;

    open spec fn muxer_requires(&self) -> bool {
        call_requires(*self, ())
    }

    open spec fn muxer_ensures(&self, upgrade: U) -> bool {
        call_ensures(*self, (), upgrade)
    }

    fn into_multiplexer_upgrade(self) -> (upgrade: U) {
        (self)()
    }
}

/// A pair is converted component by component, first then second, and the
/// two upgrades are offered in that order.
impl<C, U1, U2> IntoMultiplexerUpgrade<C> for (U1, U2) where
    U1: IntoMultiplexerUpgrade<C>,
    U2: IntoMultiplexerUpgrade<C>,
 {
    type Upgrade = SelectMuxerUpgrade<U1::Upgrade, U2::Upgrade>;

    open spec fn muxer_requires(&self) -> bool {
        &&& self.0.muxer_requires()
        &&& forall|u1: U1::Upgrade| #[trigger] self.0.muxer_ensures(u1) ==> self.1.muxer_requires()
    }

    open spec fn muxer_ensures(&self, upgrade: Self::Upgrade) -> bool {
        self.0.muxer_ensures(upgrade.0) && self.1.muxer_ensures(upgrade.1)
    }

    fn into_multiplexer_upgrade(self) -> (upgrade: Self::Upgrade) {
        let (f1, f2) = self;

        let u1 = f1.into_multiplexer_upgrade();
        let u2 = f2.into_multiplexer_upgrade();

        SelectMuxerUpgrade::new(u1, u2)
    }
}

/// Converts one security constructor, stated directly over what the
/// constructor may return: the result is one the constructor gives for this
/// keypair.
pub fn security_upgrade<C, T, E, F>(f: F, keypair: &Keypair) -> (result: Result<T, E>) where
    F: for <'a>FnOnce(&'a Keypair) -> Result<T, E>,
    requires
        call_requires(f, (keypair,)),
    ensures
        call_ensures(f, (keypair,), result),
{
    <F as IntoSecurityUpgrade<C>>::into_security_upgrade(f, keypair)
}

/// Converts a pair of security constructors, stated directly over what each
/// may return. The second needs to be callable only where the first can
/// succeed. On success both upgrades come from their constructors, in order;
/// `Left(e)` is a failure of the first, `Right(e)` a failure of the second
/// after the first could succeed.
pub fn security_upgrade_pair<C, T1, E1, F1, T2, E2, F2>(f1: F1, f2: F2, keypair: &Keypair) -> (result:
    Result<SelectSecurityUpgrade<T1, T2>, Either<E1, E2>>) where
    F1: for <'a>FnOnce(&'a Keypair) -> Result<T1, E1>,
    F2: for <'a>FnOnce(&'a Keypair) -> Result<T2, E2>,
    requires
        call_requires(f1, (keypair,)),
        forall|u1: T1| #[trigger] call_ensures(f1, (keypair,), Ok(u1)) ==> call_requires(f2, (keypair,)),
    ensures
        match result {
            Ok(upgrade) => {
                &&& call_ensures(f1, (keypair,), Ok(upgrade.0))
                &&& call_ensures(f2, (keypair,), Ok(upgrade.1))
            },
            Err(Either::Left(e1)) => call_ensures(f1, (keypair,), Err(e1)),
            Err(Either::Right(e2)) => {
                &&& exists|u1: T1| #[trigger] call_ensures(f1, (keypair,), Ok(u1))
                &&& call_ensures(f2, (keypair,), Err(e2))
            },
        },
{
    <(F1, F2) as IntoSecurityUpgrade<C>>::into_security_upgrade((f1, f2), keypair)
}

/// Converts one multiplexer constructor, stated directly over what the
/// constructor may return.
pub fn multiplexer_upgrade<C, U, F>(f: F) -> (upgrade: U) where F: FnOnce() -> U
    requires
        call_requires(f, ()),
    ensures
        call_ensures(f, (), upgrade),
{
    <F as IntoMultiplexerUpgrade<C>>::into_multiplexer_upgrade(f)
}

/// Converts a pair of multiplexer constructors, stated directly over what
/// each may return: both upgrades come from their constructors, in order.
pub fn multiplexer_upgrade_pair<C, U1, F1, U2, F2>(f1: F1, f2: F2) -> (upgrade: SelectMuxerUpgrade<U1, U2>) where
    F1: FnOnce() -> U1,
    F2: FnOnce() -> U2,
    requires
        call_requires(f1, ()),
        forall|u1: U1| #[trigger] call_ensures(f1, (), u1) ==> call_requires(f2, ()),
    ensures
        call_ensures(f1, (), upgrade.0),
        call_ensures(f2, (), upgrade.1),
{
    <(F1, F2) as IntoMultiplexerUpgrade<C>>::into_multiplexer_upgrade((f1, f2))
}

/// At a concrete constructor type, the closure impl's precondition is the
/// constructor's own: `security_requires` is `call_requires` on the keypair.
/// (Verus resolves the blanket impl only where the constructor type is a
/// generic parameter, so callers holding a concrete closure or function use
/// this to meet `into_security_upgrade`'s precondition.)
pub proof fn lemma_constructor_security_requires<C, T, E, F>(f: F, keypair: &Keypair) where
    F: for <'a>FnOnce(&'a Keypair) -> Result<T, E>,
    ensures
        <F as IntoSecurityUpgrade<C>>::security_requires(&f, keypair) == call_requires(f, (keypair,)),
{
}

/// The precondition of a security pair, at any component types: the first
/// component may run, and the second may run wherever the first can succeed.
pub proof fn lemma_pair_security_requires<C, F1, F2>(pair: (F1, F2), keypair: &Keypair) where
    F1: IntoSecurityUpgrade<C>,
    F2: IntoSecurityUpgrade<C>,
    ensures
        <(F1, F2) as IntoSecurityUpgrade<C>>::security_requires(&pair, keypair) == (
        pair.0.security_requires(keypair) && forall|u1: F1::Upgrade| #[trigger]
            pair.0.security_ensures(keypair, Ok(u1)) ==> pair.1.security_requires(keypair)),
{
}

/// At a concrete constructor type, the closure impl's precondition is the
/// constructor's own: `muxer_requires` is `call_requires`.
pub proof fn lemma_constructor_muxer_requires<C, U, F>(f: F) where F: FnOnce() -> U
    ensures
        <F as IntoMultiplexerUpgrade<C>>::muxer_requires(&f) == call_requires(f, ()),
{
}

/// The precondition of a multiplexer pair, at any component types: the
/// first component may run, and the second may run after any upgrade the
/// first can give.
pub proof fn lemma_pair_muxer_requires<C, U1, U2>(pair: (U1, U2)) where
    U1: IntoMultiplexerUpgrade<C>,
    U2: IntoMultiplexerUpgrade<C>,
    ensures
        <(U1, U2) as IntoMultiplexerUpgrade<C>>::muxer_requires(&pair) == (pair.0.muxer_requires()
            && forall|u1: U1::Upgrade| #[trigger] pair.0.muxer_ensures(u1) ==> pair.1.muxer_requires()),
{
}

} // verus!
