//! The error type of every fallible operation, and helpers that build its common values.
use crate::gpio::GpioLevel;
use crate::i2c::I2cAddress;
use crate::text::{decimal_digits, decimal_text};
use vstd::prelude::*;

verus! {

#[verifier::external_type_specification]
#[verifier::external_body]
pub struct ExHidError(hidapi::HidError);

#[verifier::external_type_specification]
#[verifier::external_body]
pub struct ExIoError(std::io::Error);

/// Errors that can occur when using XR2280x devices.
#[derive(Debug)]
#[allow(inconsistent_fields)]
pub enum Error {
    /// Error from the underlying HID API layer.
    Hid(hidapi::HidError),
    /// No XR2280x device was found with the specified vendor/product ID.
    DeviceNotFound,
    /// No XR2280x device was found with the specified serial number.
    DeviceNotFoundBySerial {
        /// The serial number that was searched for.
        serial: String,
        /// Additional error details.
        message: String,
    },
    /// No XR2280x device was found at the specified path.
    DeviceNotFoundByPath {
        /// The device path that was searched for.
        path: String,
        /// Additional error details.
        message: String,
    },
    /// No XR2280x device was found at the specified index.
    DeviceNotFoundByIndex {
        /// The index that was requested.
        index: usize,
        /// Additional error details.
        message: String,
    },
    /// Multiple XR2280x devices were found when only one was expected.
    MultipleDevicesFound {
        /// The number of devices that were found.
        count: usize,
        /// Additional context about the ambiguity.
        message: String,
    },
    /// General I/O error during device communication.
    Io(std::io::Error),
    /// Invalid or malformed HID report received from the device.
    InvalidReport(usize),
    /// Timeout waiting for a device response.
    Timeout,
    /// Function argument is outside the valid range.
    ArgumentOutOfRange(String),
    /// GPIO pin number is outside the valid range.
    PinArgumentOutOfRange {
        /// The invalid pin number.
        pin: u8,
        /// Why it is invalid.
        message: String,
    },
    /// GPIO register read failed.
    GpioRegisterReadError {
        /// Pin (or group index) being accessed.
        pin: u8,
        /// Register address that failed to read.
        register: u16,
        /// Additional error details.
        message: String,
    },
    /// GPIO register write failed.
    GpioRegisterWriteError {
        /// Pin (or group index) being accessed.
        pin: u8,
        /// Register address that failed to write.
        register: u16,
        /// Additional error details.
        message: String,
    },
    /// Invalid GPIO configuration combination.
    GpioConfigurationError {
        /// The pin with the invalid configuration.
        pin: u8,
        /// Description of the conflict.
        message: String,
    },
    /// GPIO hardware-specific error.
    GpioHardwareError {
        /// The pin where the error occurred.
        pin: u8,
        /// Description of the hardware issue.
        message: String,
    },
    /// A verified GPIO write read back a different level.
    GpioWriteVerificationFailed {
        /// The pin that failed verification.
        pin: u8,
        /// The level that was written.
        expected: GpioLevel,
        /// The level that was read back.
        actual: GpioLevel,
        /// The attempt number (1-based).
        attempt: u32,
    },
    /// A GPIO operation ran past its time budget.
    GpioOperationTimeout {
        /// The pin of the operation.
        pin: u8,
        /// The operation that timed out.
        operation: String,
        /// The time budget in milliseconds.
        timeout_ms: u32,
    },
    /// All GPIO write attempts were used up.
    GpioWriteRetriesExhausted {
        /// The pin of the write.
        pin: u8,
        /// The number of attempts made.
        attempts: u32,
    },
    /// PWM channel configuration error.
    PwmConfigurationError {
        /// The channel number (0 or 1).
        channel: u8,
        /// Description of the issue.
        message: String,
    },
    /// PWM parameter validation error.
    PwmParameterError {
        /// The channel number.
        channel: u8,
        /// Description of the parameter issue.
        message: String,
    },
    /// PWM hardware-specific error.
    PwmHardwareError {
        /// The channel number.
        channel: u8,
        /// Description of the hardware issue.
        message: String,
    },
    /// The I2C slave answered NACK.
    I2cNack {
        /// The address that was not acknowledged.
        address: I2cAddress,
    },
    /// I2C bus arbitration was lost.
    I2cArbitrationLost {
        /// The address being accessed.
        address: I2cAddress,
    },
    /// The I2C bus timed out.
    I2cTimeout {
        /// The address being accessed.
        address: I2cAddress,
    },
    /// The bridge firmware rejected the I2C request.
    I2cRequestError {
        /// The address being accessed.
        address: I2cAddress,
    },
    /// The bridge firmware reported an unknown I2C status.
    I2cUnknownError {
        /// The address being accessed.
        address: I2cAddress,
        /// Raw status flags.
        flags: u8,
    },
    /// A buffer is smaller than the operation needs.
    BufferTooSmall {
        /// Minimum required size.
        expected: usize,
        /// Size provided.
        actual: usize,
    },
    /// The operation exceeds a device or protocol limit.
    OperationTooLarge {
        /// Largest allowed size.
        max: usize,
        /// Size requested.
        actual: usize,
    },
    /// The feature is not supported by this chip model.
    UnsupportedFeature(String),
    /// Invalid 10-bit I2C address.
    InvalidI2c10BitAddress(u16),
    /// A GPIO interrupt report could not be parsed.
    InterruptParseError(String),
}

/// Result type alias for XR2280x operations.
pub type Result<T> = core::result::Result<T, Error>;

/// Text of the unsupported-group error.
pub open spec fn group1_unsupported_text() -> Seq<char> {
    "GPIO Group 1 (pins 8-31) requires XR22802/XR22804"@
}

/// Text of the unsupported-PWM-pin error for `pin`.
pub open spec fn pwm_pin_unsupported_text(pin: u8) -> Seq<char> {
    "Assigning PWM to pin "@ + decimal_digits(pin as nat)
        + " requires XR22802/XR22804 (XR22800/1 only support pins 0-7)"@
}

/// The error for a group 1 operation on a model with only 8 GPIOs.
pub fn unsupported_gpio_group1() -> (e: Error)
    ensures
        e matches Error::UnsupportedFeature(m) && m@ == group1_unsupported_text(),
{
    Error::UnsupportedFeature(String::from_str("GPIO Group 1 (pins 8-31) requires XR22802/XR22804"))
}

/// The error for assigning PWM to a pin the model lacks.
pub fn unsupported_pwm_pin(pin: u8) -> (e: Error)
    ensures
        e matches Error::UnsupportedFeature(m) && m@ == pwm_pin_unsupported_text(pin),
{
    let mut m = String::from_str("Assigning PWM to pin ");
    m.append(decimal_text(pin as u64).as_str());
    m.append(" requires XR22802/XR22804 (XR22800/1 only support pins 0-7)");
    Error::UnsupportedFeature(m)
}

/// A GPIO register read error.
pub fn gpio_register_read_error(pin: u8, register: u16, message: String) -> (e: Error)
    ensures
        e == (Error::GpioRegisterReadError { pin, register, message }),
{
    Error::GpioRegisterReadError { pin, register, message }
}

/// A GPIO register write error.
pub fn gpio_register_write_error(pin: u8, register: u16, message: String) -> (e: Error)
    ensures
        e == (Error::GpioRegisterWriteError { pin, register, message }),
{
    Error::GpioRegisterWriteError { pin, register, message }
}

/// A PWM parameter error.
pub fn pwm_parameter_error(channel: u8, message: String) -> (e: Error)
    ensures
        e == (Error::PwmParameterError { channel, message }),
{
    Error::PwmParameterError { channel, message }
}

/// A PWM hardware error.
pub fn pwm_hardware_error(channel: u8, message: String) -> (e: Error)
    ensures
        e == (Error::PwmHardwareError { channel, message }),
{
    Error::PwmHardwareError { channel, message }
}

} // verus!
