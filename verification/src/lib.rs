//! Diagnostic client core for automotive control (CAN) networks.
//!
//! The crate models the pure heart of an OBD-II diagnostic scanner: the
//! reserved identifier spaces and the translation between request and
//! response addresses, the bitmap-walking decoder that enumerates which
//! diagnostic parameters (PIDs) a control unit supports, the validation of
//! service responses, the configuration of raw and segmented (ISO-TP)
//! sockets, and the decision logic of the two-phase discovery run. All socket
//! I/O happens outside this crate; the library hands out the next action to
//! perform and consumes the event that came back.

pub mod addressing;
pub mod adapter;
pub mod config;
pub mod decoder;
pub mod discovery;
pub mod errors;
pub mod frame;
pub mod service;
pub mod sockets;
