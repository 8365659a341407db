//! Transaction admission and dispatch for a parachain runtime that mixes
//! classically signed extrinsics with self-contained (Ethereum-style) calls.
pub mod call;
pub mod envelope;
pub mod executive;
pub mod extension;
pub mod fee;
pub mod self_contained;
pub mod validity;
pub mod version;
pub mod weight;
