# libp2p_builder_phase

The upgrade phases of a libp2p swarm builder, verified with Verus.

A swarm builder takes user-supplied constructors for a security upgrade
(given the local identity keypair, returning a `Result`) and for a
stream-multiplexer upgrade. A single constructor, or a pair of them, is
turned into an upgrade. A pair offers both upgrades, the first one first. A
pair of security constructors stops at the first failure and reports which
side failed (`Left` for the first, `Right` for the second).

- `src/select.rs`: the combined upgrades and the `Either` error of a pair.
- `src/upgrade.rs`: the traits `IntoSecurityUpgrade` and
  `IntoMultiplexerUpgrade`, their impls for constructors and pairs, and free
  functions that state the same contracts directly over the constructors,
  which are what verified callers with concrete constructors use.
- `src/laws.rs`: laws about pairs, proved.
- `app/lib.rs`: the `AuthenticatedMultiplexedTransport` alias over
  libp2p-core's `Transport` and conversions to and from `either::Either`.
- `tests/`: run-time tests.
