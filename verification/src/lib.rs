//! Verified core of a driver for the MaxLinear/Exar XR2280x USB-to-I2C/GPIO/PWM bridges.
//!
//! The library computes what the device is told and what its answers mean: register reports,
//! the register steps of each GPIO, PWM and interrupt operation, I2C transfer reports and their
//! status, the I2C scan and the verified GPIO write as state machines, device grouping and
//! selection, and the PWM time conversions. A program that owns the HID handles performs the
//! reports and feeds the answers back.
pub mod consts;
pub mod device;
pub mod error;
pub mod flags;
pub mod gpio;
pub mod i2c;
pub mod interrupt;
pub mod pwm;
pub mod register;
pub mod text;

pub use consts::{EXAR_VID, XR2280X_EDGE_PID, XR2280X_I2C_PID};
pub use device::{device_find, Capabilities, InterfaceInfo, XrDeviceDetails, XrDeviceInfo};
pub use error::{Error, Result};
pub use gpio::{GpioDirection, GpioEdge, GpioGroup, GpioLevel, GpioPin, GpioPull, GpioTransaction};
pub use i2c::{timeouts, I2cAddress};
pub use interrupt::{GpioInterruptReport, ParsedGpioInterruptReport};
pub use pwm::{PwmChannel, PwmCommand};
