//! Sidecar lifecycle library: a credential store with one-time legacy
//! migration, a canonical codec for the persisted record, a readiness
//! prober, and the state machine that supervises the backend process.

pub mod codec;
pub mod credentials;
pub mod keychain;
pub mod lifecycle;
pub mod probe;
pub mod store;
