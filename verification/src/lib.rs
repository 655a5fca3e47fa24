//! Error-classification core for a library that creates and drives virtual
//! input devices: a single discriminated error type that absorbs syscall
//! failures, name-encoding failures, device-enumeration failures and a
//! "device not found" condition, together with a rendering facility that
//! turns any such value into a one-line message and a short description.

pub mod decimal;
pub mod error;
