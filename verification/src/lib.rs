pub mod attestation;
pub mod bytes;
pub mod dispatch;
pub mod error;
pub mod handshake;
pub mod nitro_rng;
pub mod primitives;
pub mod store;
pub mod suite;
pub mod text;
pub mod types;
pub mod utils;
