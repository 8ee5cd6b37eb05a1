//! Verified core of a Rust API for the Mosaik co-simulation framework.

pub mod types;
pub mod decimal;
pub mod framing;
pub mod handling;
pub mod json;
pub mod meta;
pub mod mosaik_protocol;
pub mod request;
pub mod text;
