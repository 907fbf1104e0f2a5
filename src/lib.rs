//! Product barcodes and label-printer commands: EAN-13 generation from a
//! running sequence, command streams in two printer dialects, device and
//! endpoint selection, and the state of the shared printer session.
pub mod barcode;
pub mod error;
pub mod config;
pub mod encoder;
pub mod transport;
pub mod session;
pub mod spooler;
pub mod samples;
