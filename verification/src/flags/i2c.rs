//! Flags of the I2C OUT report that a raw transfer sends.
pub use crate::consts::I2C_ACK_LAST_READ as ACK_LAST_READ;
pub use crate::consts::I2C_START_BIT as START_BIT;
pub use crate::consts::I2C_STOP_BIT as STOP_BIT;
