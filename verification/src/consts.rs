//! Vendor and product identifiers, report identifiers, register addresses and bit definitions.
use vstd::prelude::*;

verus! {

/// Exar Corporation vendor ID.
pub const EXAR_VID: u16 = 0x04E2;

/// Product ID of the I2C interface (XR22800/1/2/4).
pub const XR2280X_I2C_PID: u16 = 0x1100;

/// Product ID of the EDGE (GPIO/PWM/interrupt) interface (XR22800/1/2/4).
pub const XR2280X_EDGE_PID: u16 = 0x1200;

/// Feature report that writes one register.
pub const REPORT_ID_WRITE_HID_REGISTER: u8 = 0x3C;

/// Feature report that selects the register the next read returns.
pub const REPORT_ID_SET_HID_READ_ADDRESS: u8 = 0x4B;

/// Feature report that returns the selected register.
pub const REPORT_ID_READ_HID_REGISTER: u8 = 0x5A;

/// Largest payload of one I2C transfer, in bytes.
pub const I2C_REPORT_MAX_DATA_SIZE: usize = 32;

/// Size of the I2C OUT report: flags, write size, read size, slave address and 32 data bytes.
pub const I2C_OUT_REPORT_SIZE: usize = 36;

/// Size of the buffer an I2C IN report is read into.
pub const I2C_IN_REPORT_SIZE: usize = 36;

/// Lowest register of the I2C interface.
pub const I2C_REG_FIRST: u16 = 0x0340;

/// Highest register of the I2C interface.
pub const I2C_REG_LAST: u16 = 0x0342;

/// SCL low period register.
pub const REG_SCL_LOW: u16 = 0x0341;

/// SCL high period register.
pub const REG_SCL_HIGH: u16 = 0x0342;

/// I2C OUT flag: generate a START condition.
pub const I2C_START_BIT: u8 = 0x01;

/// I2C OUT flag: generate a STOP condition.
pub const I2C_STOP_BIT: u8 = 0x02;

/// I2C OUT flag: acknowledge the last byte read (the default is NACK).
pub const I2C_ACK_LAST_READ: u8 = 0x04;

/// I2C IN status: the request was malformed.
pub const I2C_IN_REQUEST_ERROR: u8 = 0x01;

/// I2C IN status: the slave answered NACK.
pub const I2C_IN_NAK_RECEIVED: u8 = 0x02;

/// I2C IN status: bus arbitration was lost.
pub const I2C_IN_ARBITRATION_LOST: u8 = 0x04;

/// I2C IN status: the bus timed out.
pub const I2C_IN_TIMEOUT: u8 = 0x08;

/// Function select register, pins 0-15.
pub const REG_FUNC_SEL_0: u16 = 0x03C0;
/// Direction register, pins 0-15.
pub const REG_DIR_0: u16 = 0x03C1;
/// Output SET strobe register, pins 0-15.
pub const REG_SET_0: u16 = 0x03C2;
/// Output CLEAR strobe register, pins 0-15.
pub const REG_CLEAR_0: u16 = 0x03C3;
/// Pin state register, pins 0-15.
pub const REG_STATE_0: u16 = 0x03C4;
/// Tri-state register, pins 0-15.
pub const REG_TRI_STATE_0: u16 = 0x03C5;
/// Open-drain register, pins 0-15.
pub const REG_OPEN_DRAIN_0: u16 = 0x03C6;
/// Pull-up register, pins 0-15.
pub const REG_PULL_UP_0: u16 = 0x03C7;
/// Pull-down register, pins 0-15.
pub const REG_PULL_DOWN_0: u16 = 0x03C8;
/// Interrupt enable register, pins 0-15.
pub const REG_INTR_MASK_0: u16 = 0x03C9;
/// Rising-edge interrupt register, pins 0-15.
pub const REG_INTR_POS_EDGE_0: u16 = 0x03CA;
/// Falling-edge interrupt register, pins 0-15.
pub const REG_INTR_NEG_EDGE_0: u16 = 0x03CB;

/// Function select register, pins 16-31.
pub const REG_FUNC_SEL_1: u16 = 0x03CC;
/// Direction register, pins 16-31.
pub const REG_DIR_1: u16 = 0x03CD;
/// Output SET strobe register, pins 16-31.
pub const REG_SET_1: u16 = 0x03CE;
/// Output CLEAR strobe register, pins 16-31.
pub const REG_CLEAR_1: u16 = 0x03CF;
/// Pin state register, pins 16-31.
pub const REG_STATE_1: u16 = 0x03D0;
/// Tri-state register, pins 16-31.
pub const REG_TRI_STATE_1: u16 = 0x03D1;
/// Open-drain register, pins 16-31.
pub const REG_OPEN_DRAIN_1: u16 = 0x03D2;
/// Pull-up register, pins 16-31.
pub const REG_PULL_UP_1: u16 = 0x03D3;
/// Pull-down register, pins 16-31.
pub const REG_PULL_DOWN_1: u16 = 0x03D4;
/// Interrupt enable register, pins 16-31.
pub const REG_INTR_MASK_1: u16 = 0x03D5;
/// Rising-edge interrupt register, pins 16-31.
pub const REG_INTR_POS_EDGE_1: u16 = 0x03D6;
/// Falling-edge interrupt register, pins 16-31.
pub const REG_INTR_NEG_EDGE_1: u16 = 0x03D7;

/// PWM0 control register.
pub const REG_PWM0_CTRL: u16 = 0x03D8;
/// PWM0 high period register.
pub const REG_PWM0_HIGH: u16 = 0x03D9;
/// PWM0 low period register.
pub const REG_PWM0_LOW: u16 = 0x03DA;
/// PWM1 control register.
pub const REG_PWM1_CTRL: u16 = 0x03DB;
/// PWM1 high period register.
pub const REG_PWM1_HIGH: u16 = 0x03DC;
/// PWM1 low period register.
pub const REG_PWM1_LOW: u16 = 0x03DD;

/// PWM control: pin field, bits 4:0.
pub const PWM_PIN_MASK: u16 = 0x001F;
/// PWM control: pin field shift.
pub const PWM_PIN_SHIFT: u16 = 0;
/// PWM control: enable bit 5.
pub const PWM_ENABLE_MASK: u16 = 0x0020;
/// PWM control: command field, bits 8:6.
pub const PWM_CMD_MASK: u16 = 0x01C0;
/// PWM control: command field shift.
pub const PWM_CMD_SHIFT: u16 = 6;
/// PWM command: idle.
pub const PWM_CMD_IDLE: u16 = 0;
/// PWM command: assert low.
pub const PWM_CMD_ASSERT_LOW: u16 = 4;
/// PWM command: one shot.
pub const PWM_CMD_ONE_SHOT: u16 = 5;
/// PWM command: free run.
pub const PWM_CMD_FREE_RUN: u16 = 6;

/// Fewest PWM period units a channel accepts.
pub const PWM_MIN_UNITS: u16 = 1;
/// Most PWM period units a channel accepts.
pub const PWM_MAX_UNITS: u16 = 4095;

} // verus!
