//! A session-oriented digest and HMAC service for a root-of-trust
//! controller, with the pure parts of the tasks around it.
//!
//! The heart of the crate is [`server::ServerImpl`]: it shares one hashing
//! engine among the sessions of many clients. What its operations promise
//! is written down in [`model`], and what follows from those promises is
//! proved in [`laws`]. The engine is anything that implements
//! [`engine::HashEngine`]; [`rustcrypto::RustCryptoController`] is the one
//! that computes in software.
//!
//! Around the server stand the computations of its request adapter
//! ([`adapter`]), the hash platform of the SPDM responder ([`platform`]),
//! the key containers and stand-ins of the ECDSA service ([`ecdsa`]), and
//! what the drivers of the random number generator ([`trng`]), the serial
//! port ([`uart`]) and the I2C bus ([`i2c`]) decide and compute between
//! two accesses to their hardware.

pub mod adapter;
pub mod algorithm;
pub mod ecdsa;
pub mod engine;
pub mod error;
pub mod hashers;
pub mod i2c;
pub mod laws;
pub mod model;
pub mod output;
pub mod platform;
pub mod rustcrypto;
pub mod server;
pub mod session;
pub mod trng;
pub mod uart;
