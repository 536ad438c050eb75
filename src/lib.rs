//! QR code generation: option handling, validation and output assembly around
//! the `qrcode_generator` encoder, with contracts checked by Verus.
pub mod options;
pub mod outside;
pub mod symbol;
pub mod qrgen;
