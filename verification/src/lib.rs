//! A non-custodial payment gateway engine.
//!
//! The library issues a unique, deterministically derived deposit account for
//! each (recipient, order) pair, tracks the invoice lifecycle from creation
//! through payment observation to withdrawal, and exposes the state of the
//! service to callers. Transport, persistence I/O and chain access live
//! outside the library; the engine works on plain values.

pub mod account;
pub mod derive;
pub mod invoice;
pub mod engine;
pub mod http;
pub mod laws;
pub mod store;
pub mod withdraw;
