use std::cell::Cell;

use libp2p_builder_phase::select::{Either, SelectMuxerUpgrade, SelectSecurityUpgrade};
use libp2p_builder_phase::upgrade::{
    multiplexer_upgrade, multiplexer_upgrade_pair, security_upgrade, security_upgrade_pair,
    IntoMultiplexerUpgrade, IntoSecurityUpgrade,
};
use libp2p_identity::Keypair;

fn keypair() -> Keypair {
    Keypair::generate_ed25519()
}

fn security<F: IntoSecurityUpgrade<()>>(f: F, keypair: &Keypair) -> Result<F::Upgrade, F::Error> {
    f.into_security_upgrade(keypair)
}

fn muxer<F: IntoMultiplexerUpgrade<()>>(f: F) -> F::Upgrade {
    f.into_multiplexer_upgrade()
}

#[test]
fn closure_security_upgrade_returns_the_closures_success() {
    let kp = keypair();
    let r = security(|_: &Keypair| -> Result<u32, String> { Ok(7) }, &kp);
    assert_eq!(r, Ok(7));
}

#[test]
fn closure_security_upgrade_returns_the_closures_error() {
    let kp = keypair();
    let r = security(|_: &Keypair| -> Result<u32, String> { Err("no".to_string()) }, &kp);
    assert_eq!(r, Err("no".to_string()));
}

#[test]
fn closure_security_upgrade_sees_the_given_keypair() {
    let kp = keypair();
    let expected = kp.public().to_peer_id();
    let r = security(
        |k: &Keypair| -> Result<libp2p_identity::PeerId, ()> { Ok(k.public().to_peer_id()) },
        &kp,
    );
    assert_eq!(r, Ok(expected));
}

#[test]
fn security_pair_of_successes_is_selected_in_order() {
    let kp = keypair();
    let pair = (
        |_: &Keypair| -> Result<u8, u16> { Ok(1) },
        |_: &Keypair| -> Result<&'static str, u32> { Ok("two") },
    );
    assert_eq!(security(pair, &kp), Ok(SelectSecurityUpgrade(1u8, "two")));
}

#[test]
fn security_pair_first_failure_is_left_and_second_not_run() {
    let kp = keypair();
    let second_ran = Cell::new(false);
    let pair = (
        |_: &Keypair| -> Result<u8, u16> { Err(5) },
        |_: &Keypair| -> Result<u8, u32> {
            second_ran.set(true);
            Ok(2)
        },
    );
    assert_eq!(security(pair, &kp), Err(Either::Left(5u16)));
    assert!(!second_ran.get());
}

#[test]
fn security_pair_both_failing_reports_the_first() {
    let kp = keypair();
    let pair = (
        |_: &Keypair| -> Result<u8, u16> { Err(5) },
        |_: &Keypair| -> Result<u8, u32> { Err(6) },
    );
    assert_eq!(security(pair, &kp), Err(Either::Left(5u16)));
}

#[test]
fn security_pair_second_failure_is_right() {
    let kp = keypair();
    let first_ran = Cell::new(false);
    let pair = (
        |_: &Keypair| -> Result<u8, u16> {
            first_ran.set(true);
            Ok(1)
        },
        |_: &Keypair| -> Result<u8, u32> { Err(9) },
    );
    assert_eq!(security(pair, &kp), Err(Either::Right(9u32)));
    assert!(first_ran.get());
}

#[test]
fn security_nested_pairs_nest_errors_and_upgrades() {
    let kp = keypair();
    let ok = (
        (
            |_: &Keypair| -> Result<u8, ()> { Ok(1) },
            |_: &Keypair| -> Result<u8, ()> { Ok(2) },
        ),
        |_: &Keypair| -> Result<u8, ()> { Ok(3) },
    );
    assert_eq!(
        security(ok, &kp),
        Ok(SelectSecurityUpgrade(SelectSecurityUpgrade(1, 2), 3))
    );

    let inner_right = (
        (
            |_: &Keypair| -> Result<u8, u8> { Ok(1) },
            |_: &Keypair| -> Result<u8, u8> { Err(22) },
        ),
        |_: &Keypair| -> Result<u8, u8> { Ok(3) },
    );
    assert_eq!(
        security(inner_right, &kp),
        Err(Either::Left(Either::Right(22)))
    );

    let outer_right = (
        (
            |_: &Keypair| -> Result<u8, u8> { Ok(1) },
            |_: &Keypair| -> Result<u8, u8> { Ok(2) },
        ),
        |_: &Keypair| -> Result<u8, u8> { Err(33) },
    );
    assert_eq!(security(outer_right, &kp), Err(Either::Right(33)));
}

#[test]
fn closure_multiplexer_upgrade_returns_the_closures_value() {
    assert_eq!(muxer(|| 42u64), 42);
}

#[test]
fn multiplexer_pair_is_selected_in_order() {
    let order = Cell::new(0u8);
    let pair = (
        || {
            order.set(order.get() * 10 + 1);
            "yamux"
        },
        || {
            order.set(order.get() * 10 + 2);
            "mplex"
        },
    );
    assert_eq!(muxer(pair), SelectMuxerUpgrade("yamux", "mplex"));
    assert_eq!(order.get(), 12);
}

#[test]
fn multiplexer_nested_pairs_keep_order() {
    let nested = ((|| 1u8, || 2u8), || 3u8);
    assert_eq!(
        muxer(nested),
        SelectMuxerUpgrade(SelectMuxerUpgrade(1, 2), 3)
    );
}

#[test]
fn select_constructors_keep_their_arguments() {
    let s = SelectSecurityUpgrade::new("noise", "tls");
    assert_eq!(s.0, "noise");
    assert_eq!(s.1, "tls");
    let m = SelectMuxerUpgrade::new(1u8, 2u16);
    assert_eq!(m.0, 1);
    assert_eq!(m.1, 2);
}

fn default_muxer() -> &'static str {
    "yamux"
}

fn failing_security(_: &Keypair) -> Result<u8, &'static str> {
    Err("handshake config")
}

#[test]
fn free_security_upgrade_returns_the_constructors_result() {
    let kp = keypair();
    assert_eq!(security_upgrade::<(), _, _, _>(failing_security, &kp), Err("handshake config"));
    assert_eq!(
        security_upgrade::<(), _, _, _>(|_: &Keypair| -> Result<u8, ()> { Ok(4) }, &kp),
        Ok(4)
    );
}

#[test]
fn free_security_upgrade_pair_tags_the_failing_side() {
    let kp = keypair();
    let second_ran = Cell::new(false);
    let r = security_upgrade_pair::<(), _, _, _, _, _, _>(
        failing_security,
        |_: &Keypair| -> Result<u8, u8> {
            second_ran.set(true);
            Ok(1)
        },
        &kp,
    );
    assert_eq!(r, Err(Either::Left("handshake config")));
    assert!(!second_ran.get());

    let r = security_upgrade_pair::<(), _, _, _, _, _, _>(
        |_: &Keypair| -> Result<u8, ()> { Ok(1) },
        failing_security,
        &kp,
    );
    assert_eq!(r, Err(Either::Right("handshake config")));

    let r = security_upgrade_pair::<(), _, _, _, _, _, _>(
        |_: &Keypair| -> Result<u8, ()> { Ok(1) },
        |_: &Keypair| -> Result<u16, ()> { Ok(2) },
        &kp,
    );
    assert_eq!(r, Ok(SelectSecurityUpgrade(1u8, 2u16)));
}

#[test]
fn free_multiplexer_upgrades_take_function_items() {
    assert_eq!(multiplexer_upgrade::<(), _, _>(default_muxer), "yamux");
    assert_eq!(
        multiplexer_upgrade_pair::<(), _, _, _, _>(default_muxer, || 9u8),
        SelectMuxerUpgrade("yamux", 9u8)
    );
}
