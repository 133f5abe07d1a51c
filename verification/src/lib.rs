//! A shielded-withdrawal proof library: a prover shows, without revealing
//! which deposit it owns, that it knows a secret opening a note committed
//! into a fixed-height Merkle accumulator, and publishes a one-time
//! nullifier that marks the note as spent.
//!
//! The membership-and-nullifier relation is expressed as an arithmetic
//! circuit over the Goldilocks field. The polynomial-commitment proving and
//! verifying engine and the collision-resistant hash primitive are external
//! collaborators: the library lays the circuit out as a symbolic operation
//! list for a backend to replay, asks for hash values through the request
//! and response steps of its fold machine, and proves its validation and
//! assignment logic relative to every hash the collaborator could compute.

pub mod accumulator;
pub mod circuit;
pub mod digest;
pub mod error;
pub mod ledger;
pub mod merkle;
pub mod prover;
pub mod sample;
pub mod witness;

pub use digest::Digest;
pub use digest::FIELD_ORDER;
pub use error::WithdrawError;
