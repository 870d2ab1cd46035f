//! Authorization, result translation and session sequencing for a forwarding
//! proxy that speaks the PostgreSQL wire protocol.

pub mod auth;
pub mod config;
pub mod encoding;
pub mod session;
pub mod session_proofs;
pub mod translate;
pub mod translate_proofs;
