//! Local-network control of smart lights: the frame codec, discovery,
//! request/response correlation and status decoding, with their contracts.
pub mod json;
pub mod frame;
pub mod correlator;
pub mod address;
pub mod discovery;
pub mod status;
pub mod bridge;
