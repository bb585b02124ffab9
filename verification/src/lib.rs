//! Core of a Stratum V2 mining proxy: the certified Noise session between a
//! mining client and a mining server, and the connection-wide dispatcher that
//! routes typed mining messages between downstream devices and upstream pools.
//!
//! Every function is verified against its contract. The cryptography itself
//! (the Noise handshake, the transport cipher, Ed25519) is done by the crates
//! `snow` and `ed25519-dalek`, and certificate messages are kept in the
//! buffers of `bytes`: all of it behind a small number of wrappers whose
//! contracts are assumed and documented where they stand.

pub mod error;
pub mod wire;
pub mod buffers;
pub mod clock;
pub mod ed25519;
pub mod auth;
pub mod noise;
pub mod transport;
pub mod handshake;
pub mod mining;
pub mod handlers;
pub mod delivery;
pub mod jobs;
pub mod downstream;
