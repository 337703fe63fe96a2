//! Publicly accessible flags for controlling device features.
/// Flags of a raw I2C transfer.
pub mod i2c;
