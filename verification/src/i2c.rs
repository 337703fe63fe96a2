//! I2C addresses, the I2C report format and the decisions of a bus scan.
use crate::consts::{
    I2C_START_BIT, I2C_STOP_BIT, I2C_IN_ARBITRATION_LOST, I2C_IN_NAK_RECEIVED, I2C_IN_REPORT_SIZE, I2C_IN_REQUEST_ERROR, I2C_IN_TIMEOUT,
    I2C_OUT_REPORT_SIZE, I2C_REPORT_MAX_DATA_SIZE, REG_SCL_HIGH, REG_SCL_LOW,
};
use crate::error::{Error, Result};
use crate::register::{write_step, ErrorScope, RegisterOp, RegisterPlan, RegisterStep};
use crate::text::{decimal_digits, decimal_text, hex_digits, hex_text};
use vstd::prelude::*;

pub mod timeouts;

verus! {

/// A 7-bit or 10-bit I2C slave address.
#[derive(Debug, Clone, Copy, PartialEq, Eq, Hash, Structural)]
pub enum I2cAddress {
    /// Standard 7-bit address (0x00 - 0x7F).
    Bit7(u8),
    /// Extended 10-bit address (0x000 - 0x3FF).
    Bit10(u16),
}

/// Text of the error for a 7-bit address above 0x7F.
pub open spec fn bad_7bit_text() -> Seq<char> {
    "7-bit I2C address must be 0-127"@
}

/// How an address is written in messages: "7-bit 0x50" or "10-bit 0x150".
pub open spec fn address_text(a: I2cAddress) -> Seq<char> {
    match a {
        I2cAddress::Bit7(v) => "7-bit 0x"@ + hex_digits(v as nat, 2),
        I2cAddress::Bit10(v) => "10-bit 0x"@ + hex_digits(v as nat, 3),
    }
}

impl I2cAddress {
    /// Creates a 7-bit address, checking that it is at most 0x7F.
    pub fn new_7bit(addr: u8) -> (r: Result<Self>)
        ensures
            addr <= 0x7F ==> r == Ok::<I2cAddress, Error>(I2cAddress::Bit7(addr)),
            addr > 0x7F ==> (r matches Err(Error::ArgumentOutOfRange(m)) && m@ == bad_7bit_text()),
    {
        if addr <= 0x7F {
            Ok(I2cAddress::Bit7(addr))
        } else {
            Err(Error::ArgumentOutOfRange(String::from_str("7-bit I2C address must be 0-127")))
        }
    }

    /// Creates a 10-bit address, checking that it is at most 0x3FF.
    pub fn new_10bit(addr: u16) -> (r: Result<Self>)
        ensures
            addr <= 0x3FF ==> r == Ok::<I2cAddress, Error>(I2cAddress::Bit10(addr)),
            addr > 0x3FF ==> r == Err::<I2cAddress, Error>(Error::InvalidI2c10BitAddress(addr)),
    {
        if addr <= 0x03FF {
            Ok(I2cAddress::Bit10(addr))
        } else {
            Err(Error::InvalidI2c10BitAddress(addr))
        }
    }

    /// The address as written in messages, such as "7-bit 0x50" or "10-bit 0x150".
    pub fn to_display_string(&self) -> (s: String)
        ensures
            s@ == address_text(*self),
    {
        match self {
            I2cAddress::Bit7(a) => {
                let mut s = String::from_str("7-bit 0x");
                s.append(hex_text(*a as u64, 2).as_str());
                s
            },
            I2cAddress::Bit10(a) => {
                let mut s = String::from_str("10-bit 0x");
                s.append(hex_text(*a as u64, 3).as_str());
                s
            },
        }
    }
}


/// Text of the error for a bus speed outside 1-400 kHz.
pub open spec fn speed_range_text(speed_khz: u32) -> Seq<char> {
    "I2C speed "@ + decimal_digits(speed_khz as nat) + " kHz out of range (1-400)"@
}

/// SCL low and high periods, in 60 MHz cycles, for `speed_khz`: the cycle count of one clock
/// period split in half (the extra cycle going high), each raised to the minimum of standard
/// mode (252 low, 240 high) up to 100 kHz, or of fast mode (78 low, 36 high) above.
pub open spec fn scl_periods(speed_khz: u32) -> (u16, u16) {
    let total = 60000int / (speed_khz as int);
    let low = total / 2;
    let high = total - low;
    let (min_low, min_high) = if speed_khz <= 100 { (252int, 240int) } else { (78int, 36int) };
    (
        (if low >= min_low { low } else { min_low }) as u16,
        (if high >= min_high { high } else { min_high }) as u16,
    )
}

/// Steps of setting the bus speed: the SCL low register, then the SCL high register.
pub open spec fn speed_steps(speed_khz: u32) -> Seq<RegisterStep> {
    seq![
        write_step(REG_SCL_LOW, scl_periods(speed_khz).0, ErrorScope::Device),
        write_step(REG_SCL_HIGH, scl_periods(speed_khz).1, ErrorScope::Device),
    ]
}

/// Plan of setting the I2C bus speed to about `speed_khz` kHz, which must be in 1-400.
pub fn set_speed_plan(speed_khz: u32) -> (r: Result<RegisterPlan>)
    ensures
        (1 <= speed_khz <= 400) <==> r is Ok,
        r matches Ok(p) ==> p.steps@ == speed_steps(speed_khz) && p.failure is None,
        r matches Err(e) ==> (e matches Error::ArgumentOutOfRange(m) && m@ == speed_range_text(speed_khz)),
{
    if speed_khz == 0 || speed_khz > 400 {
        let mut m = String::from_str("I2C speed ");
        m.append(decimal_text(speed_khz as u64).as_str());
        m.append(" kHz out of range (1-400)");
        return Err(Error::ArgumentOutOfRange(m));
    }
    let target_total_cycles: u32 = 60000 / speed_khz;
    let low_cycles: u32 = target_total_cycles / 2;
    let high_cycles: u32 = target_total_cycles - low_cycles;
    let (min_low, min_high): (u32, u32) = if speed_khz <= 100 { (252, 240) } else { (78, 36) };
    let final_low: u32 = if low_cycles >= min_low { low_cycles } else { min_low };
    let final_high: u32 = if high_cycles >= min_high { high_cycles } else { min_high };
    let mut steps: Vec<RegisterStep> = Vec::new();
    steps.push(RegisterStep { register: REG_SCL_LOW, op: RegisterOp::Write(final_low as u16), scope: ErrorScope::Device });
    steps.push(RegisterStep { register: REG_SCL_HIGH, op: RegisterOp::Write(final_high as u16), scope: ErrorScope::Device });
    assert(steps@ =~= speed_steps(speed_khz));
    Ok(RegisterPlan { steps, failure: None })
}

/// The address byte of an OUT report: a 7-bit address shifted left (R/W bit 0), or the
/// 10-bit prefix 11110xx0 carrying address bits 9:8.
pub open spec fn address_byte(address: I2cAddress) -> u8 {
    match address {
        I2cAddress::Bit7(a) => (a << 1u8) as u8,
        I2cAddress::Bit10(a) => (0xF0u8 | ((((a >> 8u16) & 3u16) as u8) << 1u8)) as u8,
    }
}

/// The I2C OUT report: flags, write size, read size, address byte, then the data, zero-padded
/// to 36 bytes. A 10-bit address sends its low byte as the first data byte, which counts in the
/// write size.
pub open spec fn out_report(address: I2cAddress, data: Seq<u8>, read_len: nat, flags: u8) -> Seq<u8> {
    let wl = data.len();
    Seq::new(
        36,
        |i: int|
            if i == 0 {
                flags
            } else if i == 1 {
                match address {
                    I2cAddress::Bit7(_) => wl as u8,
                    I2cAddress::Bit10(_) => (wl + 1) as u8,
                }
            } else if i == 2 {
                read_len as u8
            } else if i == 3 {
                address_byte(address)
            } else {
                match address {
                    I2cAddress::Bit7(_) => if i - 4 < wl { data[i - 4] } else { 0u8 },
                    I2cAddress::Bit10(a) => if i == 4 {
                        (a & 0xFFu16) as u8
                    } else if i - 5 < wl {
                        data[i - 5]
                    } else {
                        0u8
                    },
                }
            },
    )
}

/// One I2C transaction: the OUT report to send, then what to make of the IN report.
#[derive(Debug)]
pub struct I2cTransfer {
    address: I2cAddress,
    read_len: usize,
    timeout_ms: i32,
    report: Vec<u8>,
}

/// The error the status byte of an IN report announces, if any: request error, NACK,
/// arbitration lost, timeout, checked in that order.
pub open spec fn status_error(flags: u8, address: I2cAddress) -> Option<Error> {
    if flags & I2C_IN_REQUEST_ERROR != 0 {
        Some(Error::I2cRequestError { address })
    } else if flags & I2C_IN_NAK_RECEIVED != 0 {
        Some(Error::I2cNack { address })
    } else if flags & I2C_IN_ARBITRATION_LOST != 0 {
        Some(Error::I2cArbitrationLost { address })
    } else if flags & I2C_IN_TIMEOUT != 0 {
        Some(Error::I2cTimeout { address })
    } else if flags & 0x0F != 0 {
        Some(Error::I2cUnknownError { address, flags })
    } else {
        None
    }
}

/// Number of bytes copied out of an IN report of `received` bytes: the reported read size,
/// at most the size asked for and at most the bytes after the 4-byte header.
pub open spec fn copied_len(reported: u8, read_len: nat, received: nat) -> nat {
    let a = if (reported as nat) < read_len { reported as nat } else { read_len };
    let avail = if received >= 4 { (received - 4) as nat } else { 0 };
    if a < avail { a } else { avail }
}

/// Calls `std::io::Error::other` with `message`. Nothing is stated of the result, whose
/// content Verus cannot see.
#[verifier::external_body]
fn io_error(message: &str) -> std::io::Error {
    std::io::Error::other(message)
}

/// `r` is the transaction of `data` written to and `read_len` bytes read from `address`, with
/// these flags and this timeout; or, when either length is above 32 bytes, the error for the
/// first one that is; or, for a 10-bit address with 32 data bytes, the error for the 33 bytes
/// (low address byte and data) that the 32-byte data area cannot hold.
pub open spec fn transfer_started(
    r: Result<I2cTransfer>,
    address: I2cAddress,
    data: Seq<u8>,
    read_len: usize,
    flags: u8,
    timeout: i32,
) -> bool {
    if data.len() > 32 {
        r == Err::<I2cTransfer, Error>(Error::OperationTooLarge { max: 32, actual: data.len() as usize })
    } else if read_len > 32 {
        r == Err::<I2cTransfer, Error>(Error::OperationTooLarge { max: 32, actual: read_len })
    } else if address is Bit10 && data.len() == 32 {
        r == Err::<I2cTransfer, Error>(Error::OperationTooLarge { max: 32, actual: 33 })
    } else {
        r matches Ok(t) && t.address() == address && t.read_len() == read_len && t.report_bytes()
            == out_report(address, data, read_len as nat, flags) && t.timeout() == timeout
    }
}

impl I2cTransfer {
    /// The address of the transaction.
    pub closed spec fn address(&self) -> I2cAddress {
        self.address
    }

    /// The number of bytes to read.
    pub closed spec fn read_len(&self) -> nat {
        self.read_len as nat
    }

    /// The OUT report.
    pub closed spec fn report_bytes(&self) -> Seq<u8> {
        self.report@
    }

    /// The IN report timeout in milliseconds.
    pub closed spec fn timeout(&self) -> i32 {
        self.timeout_ms
    }

    /// Prepares a transaction that writes `write_data`, then reads `read_len` bytes, from
    /// `address`; without a timeout the read timeout (100 ms) applies.
    ///
    /// Either length above 32 bytes is refused, the write length first; so are 32 data bytes to
    /// a 10-bit address, whose low byte takes the first place of the data area.
    pub fn start(address: I2cAddress, write_data: &[u8], read_len: usize, flags: u8, timeout_ms: Option<i32>) -> (r: Result<I2cTransfer>)
        ensures
            transfer_started(r, address, write_data@, read_len, flags, match timeout_ms {
                Some(ms) => ms,
                None => timeouts::READ,
            }),
    {
        let timeout = match timeout_ms {
            Some(ms) => ms,
            None => timeouts::READ,
        };
        let write_len = write_data.len();
        if write_len > I2C_REPORT_MAX_DATA_SIZE {
            return Err(Error::OperationTooLarge { max: I2C_REPORT_MAX_DATA_SIZE, actual: write_len });
        }
        if read_len > I2C_REPORT_MAX_DATA_SIZE {
            return Err(Error::OperationTooLarge { max: I2C_REPORT_MAX_DATA_SIZE, actual: read_len });
        }
        if matches!(address, I2cAddress::Bit10(_)) && write_len == I2C_REPORT_MAX_DATA_SIZE {
            return Err(Error::OperationTooLarge { max: I2C_REPORT_MAX_DATA_SIZE, actual: write_len + 1 });
        }
        let mut out: Vec<u8> = vec![0u8; I2C_OUT_REPORT_SIZE];
        out.set(0, flags);
        out.set(1, write_len as u8);
        out.set(2, read_len as u8);
        let data_start: usize = match address {
            I2cAddress::Bit7(a) => {
                out.set(3, a << 1u8);
                4
            },
            I2cAddress::Bit10(a) => {
                out.set(3, 0xF0u8 | ((((a >> 8u16) & 3u16) as u8) << 1u8));
                out.set(4, (a & 0xFF) as u8);
                out.set(1, (write_len + 1) as u8);
                5
            },
        };
        let ghost before = out@;
        assert(before[0] == flags);
        assert(before[2] == read_len as u8);
        assert(before[3] == address_byte(address));
        assert(before[1] == out_report(address, write_data@, read_len as nat, flags)[1]);
        assert(address is Bit10 ==> before[4] == out_report(address, write_data@, read_len as nat, flags)[4]);
        assert(forall|j: int| data_start <= j < 36 ==> before[j] == 0);
        let mut i: usize = 0;
        while i < write_len
            invariant
                i <= write_len,
                write_len == write_data@.len(),
                write_len <= 32,
                data_start == 4 || data_start == 5,
                data_start == 5 ==> write_len < 32,
                out@.len() == 36,
                forall|j: int| 0 <= j < 36 && !(data_start <= j < data_start + i) ==> out@[j] == before[j],
                forall|j: int| data_start <= j < data_start + i ==> out@[j] == write_data@[j - data_start],
            decreases write_len - i,
        {
            out.set(data_start + i, write_data[i]);
            i = i + 1;
        }
        assert forall|j: int| 0 <= j < 36 implies out@[j] == out_report(address, write_data@, read_len as nat, flags)[j] by {
            if j >= data_start {
                if j < data_start + write_len {
                    assert(out@[j] == write_data@[j - data_start]);
                } else {
                    assert(out@[j] == before[j]);
                }
            }
        }
        assert(out@ =~= out_report(address, write_data@, read_len as nat, flags));
        Ok(I2cTransfer { address, read_len, timeout_ms: timeout, report: out })
    }

    /// The OUT report to send.
    pub fn report(&self) -> (r: &Vec<u8>)
        ensures
            r@ == self.report_bytes(),
    {
        &self.report
    }

    /// The IN report timeout in milliseconds.
    pub fn timeout_ms(&self) -> (ms: i32)
        ensures
            ms == self.timeout(),
    {
        self.timeout_ms
    }

    /// Checks the result of sending the OUT report: all 36 bytes must have gone out.
    pub fn check_sent(&self, written: core::result::Result<usize, hidapi::HidError>) -> (r: Result<()>)
        ensures
            match written {
                Err(h) => r == Err::<(), Error>(Error::Hid(h)),
                Ok(n) => (n == 36 <==> r is Ok) && (n != 36 ==> r matches Err(Error::Io(_))),
            },
    {
        match written {
            Err(h) => Err(Error::Hid(h)),
            Ok(n) => {
                if n != I2C_OUT_REPORT_SIZE {
                    Err(Error::Io(io_error("Partial HID write")))
                } else {
                    Ok(())
                }
            },
        }
    }

    /// Takes the IN report (`received` bytes of `in_buf`) and copies the data read into `read_buf`.
    ///
    /// No report at all (0 bytes: the firmware stayed silent) is a timeout for the transaction's
    /// address; a short report of 1 to 3 bytes is `InvalidReport`; a status byte with an error flag is that error, for the
    /// transaction's address. Otherwise, when bytes were asked for, the reported read size
    /// (bounded by the size asked for and the bytes received) is copied from offset 4.
    pub fn finish(&self, received: core::result::Result<usize, hidapi::HidError>, in_buf: &[u8], read_buf: &mut [u8]) -> (r: Result<()>)
        requires
            in_buf@.len() == I2C_IN_REPORT_SIZE,
            received matches Ok(n) ==> n <= I2C_IN_REPORT_SIZE,
            old(read_buf)@.len() == self.read_len(),
        ensures
            match received {
                Err(h) => r == Err::<(), Error>(Error::Hid(h)) && final(read_buf)@ == old(read_buf)@,
                Ok(n) => if n == 0 {
                    r == Err::<(), Error>(Error::I2cTimeout { address: self.address() }) && final(read_buf)@ == old(read_buf)@
                } else if n < 4 {
                    r == Err::<(), Error>(Error::InvalidReport(n)) && final(read_buf)@ == old(read_buf)@
                } else {
                    match status_error(in_buf@[0], self.address()) {
                        Some(e) => r == Err::<(), Error>(e) && final(read_buf)@ == old(read_buf)@,
                        None => r is Ok && {
                            let c = copied_len(in_buf@[2], self.read_len(), n as nat);
                            final(read_buf)@ == in_buf@.subrange(4, 4 + c as int) + old(read_buf)@.skip(c as int)
                        },
                    }
                },
            },
    {
        let n = match received {
            Err(h) => {
                return Err(Error::Hid(h));
            },
            Ok(n) => n,
        };
        if n == 0 {
            return Err(Error::I2cTimeout { address: self.address });
        }
        if n < 4 {
            return Err(Error::InvalidReport(n));
        }
        let flags = in_buf[0];
        let address = self.address;
        if flags & I2C_IN_REQUEST_ERROR != 0 {
            return Err(Error::I2cRequestError { address });
        }
        if flags & I2C_IN_NAK_RECEIVED != 0 {
            return Err(Error::I2cNack { address });
        }
        if flags & I2C_IN_ARBITRATION_LOST != 0 {
            return Err(Error::I2cArbitrationLost { address });
        }
        if flags & I2C_IN_TIMEOUT != 0 {
            return Err(Error::I2cTimeout { address });
        }
        if flags & 0x0F != 0 {
            return Err(Error::I2cUnknownError { address, flags });
        }
        let read_len = self.read_len;
        let reported = in_buf[2] as usize;
        let mut actual = if reported < read_len { reported } else { read_len };
        let avail = n - 4;
        if avail < actual {
            actual = avail;
        }
        if read_len == 0 {
            actual = 0;
        }
        let ghost orig = read_buf@;
        let mut i: usize = 0;
        while i < actual
            invariant
                i <= actual,
                actual <= read_len,
                actual + 4 <= 36,
                in_buf@.len() == 36,
                read_buf@.len() == read_len,
                orig.len() == read_len,
                forall|j: int| 0 <= j < i ==> read_buf@[j] == in_buf@[4 + j],
                forall|j: int| i <= j < read_len ==> read_buf@[j] == orig[j],
            decreases actual - i,
        {
            read_buf[i] = in_buf[4 + i];
            i = i + 1;
        }
        assert(read_buf@ =~= in_buf@.subrange(4, 4 + actual as int) + orig.skip(actual as int));
        Ok(())
    }
}


/// `r` is the START/STOP transaction with the 7-bit address `slave_addr`, or the error for an
/// address above 0x7F.
pub open spec fn requested_7bit(r: Result<I2cTransfer>, slave_addr: u8, data: Seq<u8>, read_len: usize, timeout: i32) -> bool {
    if slave_addr > 0x7F {
        r matches Err(Error::ArgumentOutOfRange(m)) && m@ == bad_7bit_text()
    } else {
        transfer_started(r, I2cAddress::Bit7(slave_addr), data, read_len, I2C_START_BIT | I2C_STOP_BIT, timeout)
    }
}

/// `r` is the START/STOP transaction with the 10-bit address `slave_addr`, or the error for an
/// address above 0x3FF.
pub open spec fn requested_10bit(r: Result<I2cTransfer>, slave_addr: u16, data: Seq<u8>, read_len: usize, timeout: i32) -> bool {
    if slave_addr > 0x3FF {
        r == Err::<I2cTransfer, Error>(Error::InvalidI2c10BitAddress(slave_addr))
    } else {
        transfer_started(r, I2cAddress::Bit10(slave_addr), data, read_len, I2C_START_BIT | I2C_STOP_BIT, timeout)
    }
}

/// The START/STOP transaction with a 7-bit address.
fn transfer_7bit(slave_addr: u8, data: &[u8], read_len: usize, timeout: i32) -> (r: Result<I2cTransfer>)
    ensures
        requested_7bit(r, slave_addr, data@, read_len, timeout),
{
    let address = I2cAddress::new_7bit(slave_addr)?;
    I2cTransfer::start(address, data, read_len, I2C_START_BIT | I2C_STOP_BIT, Some(timeout))
}

/// The START/STOP transaction with a 10-bit address.
fn transfer_10bit(slave_addr: u16, data: &[u8], read_len: usize, timeout: i32) -> (r: Result<I2cTransfer>)
    ensures
        requested_10bit(r, slave_addr, data@, read_len, timeout),
{
    let address = I2cAddress::new_10bit(slave_addr)?;
    I2cTransfer::start(address, data, read_len, I2C_START_BIT | I2C_STOP_BIT, Some(timeout))
}

/// The transaction that writes `data` to a 7-bit address, with the write timeout (200 ms).
pub fn i2c_write_7bit(slave_addr: u8, data: &[u8]) -> (r: Result<I2cTransfer>)
    ensures
        requested_7bit(r, slave_addr, data@, 0, timeouts::WRITE),
{
    transfer_7bit(slave_addr, data, 0, timeouts::WRITE)
}

/// The transaction that writes `data` to a 10-bit address, with the write timeout (200 ms).
pub fn i2c_write_10bit(slave_addr: u16, data: &[u8]) -> (r: Result<I2cTransfer>)
    ensures
        requested_10bit(r, slave_addr, data@, 0, timeouts::WRITE),
{
    transfer_10bit(slave_addr, data, 0, timeouts::WRITE)
}

/// The transaction that reads `read_len` bytes from a 7-bit address, with the read timeout (100 ms).
pub fn i2c_read_7bit(slave_addr: u8, read_len: usize) -> (r: Result<I2cTransfer>)
    ensures
        requested_7bit(r, slave_addr, Seq::empty(), read_len, timeouts::READ),
{
    let none: Vec<u8> = Vec::new();
    transfer_7bit(slave_addr, none.as_slice(), read_len, timeouts::READ)
}

/// The transaction that reads `read_len` bytes from a 10-bit address, with the read timeout (100 ms).
pub fn i2c_read_10bit(slave_addr: u16, read_len: usize) -> (r: Result<I2cTransfer>)
    ensures
        requested_10bit(r, slave_addr, Seq::empty(), read_len, timeouts::READ),
{
    let none: Vec<u8> = Vec::new();
    transfer_10bit(slave_addr, none.as_slice(), read_len, timeouts::READ)
}

/// The transaction that writes `write_data` to, then reads `read_len` bytes from, a 7-bit
/// address, with the write-read timeout (250 ms).
pub fn i2c_write_read_7bit(slave_addr: u8, write_data: &[u8], read_len: usize) -> (r: Result<I2cTransfer>)
    ensures
        requested_7bit(r, slave_addr, write_data@, read_len, timeouts::WRITE_READ),
{
    transfer_7bit(slave_addr, write_data, read_len, timeouts::WRITE_READ)
}

/// The transaction that writes `write_data` to, then reads `read_len` bytes from, a 10-bit
/// address, with the write-read timeout (250 ms).
pub fn i2c_write_read_10bit(slave_addr: u16, write_data: &[u8], read_len: usize) -> (r: Result<I2cTransfer>)
    ensures
        requested_10bit(r, slave_addr, write_data@, read_len, timeouts::WRITE_READ),
{
    transfer_10bit(slave_addr, write_data, read_len, timeouts::WRITE_READ)
}

/// The transaction that writes `data` to a 7-bit address, with the timeout given.
pub fn i2c_write_7bit_with_timeout(slave_addr: u8, data: &[u8], timeout_ms: i32) -> (r: Result<I2cTransfer>)
    ensures
        requested_7bit(r, slave_addr, data@, 0, timeout_ms),
{
    transfer_7bit(slave_addr, data, 0, timeout_ms)
}

/// The transaction that writes `data` to a 10-bit address, with the timeout given.
pub fn i2c_write_10bit_with_timeout(slave_addr: u16, data: &[u8], timeout_ms: i32) -> (r: Result<I2cTransfer>)
    ensures
        requested_10bit(r, slave_addr, data@, 0, timeout_ms),
{
    transfer_10bit(slave_addr, data, 0, timeout_ms)
}

/// The transaction that reads `read_len` bytes from a 7-bit address, with the timeout given.
pub fn i2c_read_7bit_with_timeout(slave_addr: u8, read_len: usize, timeout_ms: i32) -> (r: Result<I2cTransfer>)
    ensures
        requested_7bit(r, slave_addr, Seq::empty(), read_len, timeout_ms),
{
    let none: Vec<u8> = Vec::new();
    transfer_7bit(slave_addr, none.as_slice(), read_len, timeout_ms)
}

/// The transaction that reads `read_len` bytes from a 10-bit address, with the timeout given.
pub fn i2c_read_10bit_with_timeout(slave_addr: u16, read_len: usize, timeout_ms: i32) -> (r: Result<I2cTransfer>)
    ensures
        requested_10bit(r, slave_addr, Seq::empty(), read_len, timeout_ms),
{
    let none: Vec<u8> = Vec::new();
    transfer_10bit(slave_addr, none.as_slice(), read_len, timeout_ms)
}

/// The write-then-read transaction with a 7-bit address, with the timeout given.
pub fn i2c_write_read_7bit_with_timeout(slave_addr: u8, write_data: &[u8], read_len: usize, timeout_ms: i32) -> (r: Result<I2cTransfer>)
    ensures
        requested_7bit(r, slave_addr, write_data@, read_len, timeout_ms),
{
    transfer_7bit(slave_addr, write_data, read_len, timeout_ms)
}

/// The write-then-read transaction with a 10-bit address, with the timeout given.
pub fn i2c_write_read_10bit_with_timeout(slave_addr: u16, write_data: &[u8], read_len: usize, timeout_ms: i32) -> (r: Result<I2cTransfer>)
    ensures
        requested_10bit(r, slave_addr, write_data@, read_len, timeout_ms),
{
    transfer_10bit(slave_addr, write_data, read_len, timeout_ms)
}

/// The EEPROM write of `data` to a 7-bit address, with the EEPROM timeout (5 s) that covers
/// its write cycle.
pub fn i2c_eeprom_write_7bit(slave_addr: u8, data: &[u8]) -> (r: Result<I2cTransfer>)
    ensures
        requested_7bit(r, slave_addr, data@, 0, timeouts::EEPROM_WRITE),
{
    transfer_7bit(slave_addr, data, 0, timeouts::EEPROM_WRITE)
}

/// The EEPROM write of `data` to a 10-bit address, with the EEPROM timeout (5 s).
pub fn i2c_eeprom_write_10bit(slave_addr: u16, data: &[u8]) -> (r: Result<I2cTransfer>)
    ensures
        requested_10bit(r, slave_addr, data@, 0, timeouts::EEPROM_WRITE),
{
    transfer_10bit(slave_addr, data, 0, timeouts::EEPROM_WRITE)
}

/// The EEPROM write of `data` to a 7-bit address, with the timeout given.
pub fn i2c_eeprom_write_7bit_with_timeout(slave_addr: u8, data: &[u8], timeout_ms: i32) -> (r: Result<I2cTransfer>)
    ensures
        requested_7bit(r, slave_addr, data@, 0, timeout_ms),
{
    transfer_7bit(slave_addr, data, 0, timeout_ms)
}

/// The EEPROM write of `data` to a 10-bit address, with the timeout given.
pub fn i2c_eeprom_write_10bit_with_timeout(slave_addr: u16, data: &[u8], timeout_ms: i32) -> (r: Result<I2cTransfer>)
    ensures
        requested_10bit(r, slave_addr, data@, 0, timeout_ms),
{
    transfer_10bit(slave_addr, data, 0, timeout_ms)
}

/// The raw transaction: `write_data` (none for a pure read) written to, and `read_len` bytes
/// read from, `slave_addr`, with these flags; without a timeout the read timeout (100 ms) applies.
pub fn i2c_transfer_raw(
    slave_addr: I2cAddress,
    write_data: Option<&[u8]>,
    read_len: usize,
    flags: u8,
    timeout_ms: Option<i32>,
) -> (r: Result<I2cTransfer>)
    ensures
        transfer_started(
            r,
            slave_addr,
            match write_data {
                Some(d) => d@,
                None => Seq::empty(),
            },
            read_len,
            flags,
            match timeout_ms {
                Some(ms) => ms,
                None => timeouts::READ,
            },
        ),
{
    let none: Vec<u8> = Vec::new();
    let data = match write_data {
        Some(d) => d,
        None => none.as_slice(),
    };
    I2cTransfer::start(slave_addr, data, read_len, flags, timeout_ms)
}

/// What the caller of an [`I2cScan`] does next.
#[derive(Debug)]
#[allow(inconsistent_fields)]
pub enum ScanAction {
    /// Address `address` with an empty START/STOP transaction of this timeout, and hand the
    /// result to [`I2cScan::on_probe`].
    Probe {
        /// Address to probe.
        address: I2cAddress,
        /// Timeout of the transaction, in milliseconds.
        timeout_ms: i32,
    },
    /// Report progress (address, whether it answered, index, number of addresses) and call
    /// [`I2cScan::on_reported`].
    Report {
        /// The 7-bit address just probed.
        address: u8,
        /// Whether a device acknowledged it.
        found: bool,
        /// Index of the address in the scan, from 0.
        index: usize,
        /// Number of addresses in the scan.
        total: usize,
    },
    /// The scan is over: the addresses that answered, in increasing order, or the error that stopped it.
    Finished(Result<Vec<u8>>),
}

/// What an [`I2cScan`] waits for.
#[derive(Debug, Clone, Copy, PartialEq, Eq, Structural)]
pub enum ScanPhase {
    /// The result of the responsiveness probe of the reserved address 0x00.
    Responsiveness,
    /// The result of probing the current address.
    Probing,
    /// The end of the progress report of the current address.
    Reporting,
    /// Nothing: the scan is over.
    Done,
}

/// A scan of the 7-bit addresses `start..=end` for devices that acknowledge.
///
/// The scan first probes the reserved address 0x00 with a 3 ms timeout: a timeout there means
/// the firmware or bus is stuck and ends the scan at once; any other outcome shows the firmware
/// responds. Then each address is probed in turn. A timeout, lost arbitration or any error other
/// than NACK ends the scan with that error.
pub struct I2cScan {
    start: u8,
    end: u8,
    timeout_ms: i32,
    current: u8,
    found: Vec<u8>,
    last_found: bool,
    phase: ScanPhase,
    answers: Ghost<Seq<bool>>,
}

/// The addresses among `start, start + 1, ...` whose probe answers (in that order) are `true`.
pub open spec fn acknowledged(start: u8, answers: Seq<bool>) -> Seq<u8>
    decreases answers.len(),
{
    if answers.len() == 0 {
        Seq::empty()
    } else {
        let before = acknowledged(start, answers.drop_last());
        if answers.last() {
            before.push((start + answers.len() - 1) as u8)
        } else {
            before
        }
    }
}

/// The addresses of `found` are strictly increasing and lie in `start..=bound`.
pub open spec fn ascending_within(found: Seq<u8>, start: u8, bound: int) -> bool {
    &&& forall|i: int, j: int| 0 <= i < j < found.len() ==> found[i] < found[j]
    &&& forall|i: int| 0 <= i < found.len() ==> start <= #[trigger] found[i] <= bound
}

impl I2cScan {
    /// First address of the scan.
    pub closed spec fn first(&self) -> u8 {
        self.start
    }

    /// Last address of the scan.
    pub closed spec fn last(&self) -> u8 {
        self.end
    }

    /// Timeout of each probe.
    pub closed spec fn probe_timeout(&self) -> i32 {
        self.timeout_ms
    }

    /// Address being probed or reported.
    pub closed spec fn current(&self) -> u8 {
        self.current
    }

    /// Addresses found so far.
    pub closed spec fn found(&self) -> Seq<u8> {
        self.found@
    }

    /// What the scan waits for.
    pub closed spec fn phase(&self) -> ScanPhase {
        self.phase
    }

    /// Whether the address being reported answered.
    pub closed spec fn last_found(&self) -> bool {
        self.last_found
    }

    /// For each address probed so far, from the first, whether a device acknowledged it.
    pub closed spec fn answers(&self) -> Seq<bool> {
        self.answers@
    }

    /// The scan's state is consistent: addresses found so far ascend and precede the current
    /// address (or include it once it is being reported as found).
    pub closed spec fn wf(&self) -> bool {
        &&& self.start <= self.current
        &&& self.start <= self.end ==> self.current <= self.end
        &&& self.start > self.end ==> self.current == self.start && self.found@.len() == 0 && (self.phase
            == ScanPhase::Responsiveness || self.phase == ScanPhase::Done)
        &&& self.phase == ScanPhase::Reporting ==> ascending_within(self.found@, self.start, self.current as int)
            && (self.last_found ==> self.found@.len() > 0 && self.found@.last() == self.current)
            && (!self.last_found ==> ascending_within(self.found@, self.start, self.current - 1))
        &&& (self.phase == ScanPhase::Probing || self.phase == ScanPhase::Responsiveness) ==> ascending_within(
            self.found@,
            self.start,
            self.current - 1,
        )
        &&& self.phase == ScanPhase::Done ==> ascending_within(self.found@, self.start, self.current as int)
        &&& self.phase == ScanPhase::Responsiveness ==> self.current == self.start && self.found@.len() == 0
        &&& self.found@ == acknowledged(self.start, self.answers@)
        &&& (self.phase == ScanPhase::Probing || self.phase == ScanPhase::Responsiveness) ==> self.answers@.len()
            == self.current - self.start
        &&& self.phase == ScanPhase::Reporting ==> self.answers@.len() == self.current - self.start + 1
            && self.answers@.last() == self.last_found
    }

    /// Starts a scan of `start_addr..=end_addr` with probes of `scan_timeout_ms`; the range is
    /// looked at only once the firmware has answered the responsiveness probe.
    pub fn start(start_addr: u8, end_addr: u8, scan_timeout_ms: i32) -> (res: (I2cScan, ScanAction))
        ensures
            res.0.wf(),
            res.0.first() == start_addr,
            res.0.last() == end_addr,
            res.0.probe_timeout() == scan_timeout_ms,
            res.0.phase() == ScanPhase::Responsiveness,
            res.0.answers() == Seq::<bool>::empty(),
            res.1 == (ScanAction::Probe { address: I2cAddress::Bit7(0), timeout_ms: timeouts::PROBE }),
    {
        let scan = I2cScan {
            start: start_addr,
            end: end_addr,
            timeout_ms: scan_timeout_ms,
            current: start_addr,
            found: Vec::new(),
            last_found: false,
            phase: ScanPhase::Responsiveness,
            answers: Ghost(Seq::empty()),
        };
        (scan, ScanAction::Probe { address: I2cAddress::Bit7(0), timeout_ms: timeouts::PROBE })
    }

    /// Probes the current address, or ends the scan if it is not a valid 7-bit address.
    fn probe_current(&mut self) -> (action: ScanAction)
        requires
            old(self).wf(),
            old(self).phase() == ScanPhase::Probing,
        ensures
            final(self).wf(),
            final(self).first() == old(self).first() && final(self).last() == old(self).last()
                && final(self).probe_timeout() == old(self).probe_timeout() && final(self).current()
                == old(self).current() && final(self).found() == old(self).found()
                && final(self).answers() == old(self).answers(),
            old(self).current() <= 0x7F ==> action == (ScanAction::Probe {
                address: I2cAddress::Bit7(old(self).current()),
                timeout_ms: old(self).probe_timeout(),
            }) && final(self).phase() == ScanPhase::Probing,
            old(self).current() > 0x7F ==> (action matches ScanAction::Finished(Err(Error::ArgumentOutOfRange(m)))
                && m@ == bad_7bit_text()) && final(self).phase() == ScanPhase::Done,
    {
        match I2cAddress::new_7bit(self.current) {
            Ok(address) => {
                self.phase = ScanPhase::Probing;
                ScanAction::Probe { address, timeout_ms: self.timeout_ms }
            },
            Err(e) => {
                self.phase = ScanPhase::Done;
                ScanAction::Finished(Err(e))
            },
        }
    }

    /// Takes the result of the probe the scan asked for.
    ///
    /// For the responsiveness probe, only a timeout ends the scan (with a timeout for address
    /// 0x00); the scan then probes its first address, or, for an empty range (start after end),
    /// ends with no address found. For an address, an acknowledgement records
    /// it as found and a NACK as absent, and both are reported; a timeout ends the scan with a
    /// timeout for that address, lost arbitration with that error, and any other error with itself.
    pub fn on_probe(&mut self, result: Result<()>) -> (action: ScanAction)
        requires
            old(self).wf(),
            old(self).phase() == ScanPhase::Responsiveness || old(self).phase() == ScanPhase::Probing,
        ensures
            final(self).wf(),
            final(self).first() == old(self).first() && final(self).last() == old(self).last()
                && final(self).probe_timeout() == old(self).probe_timeout() && final(self).current()
                == old(self).current(),
            old(self).phase() == ScanPhase::Responsiveness ==> final(self).answers() == old(self).answers(),
            old(self).phase() == ScanPhase::Probing && (result is Ok || result matches Err(Error::I2cNack { .. }))
                ==> final(self).answers() == old(self).answers().push(result is Ok),
            old(self).phase() == ScanPhase::Responsiveness ==> match result {
                Err(Error::I2cTimeout { .. }) => action == ScanAction::Finished(Err(
                    Error::I2cTimeout { address: I2cAddress::Bit7(0) },
                )) && final(self).phase() == ScanPhase::Done,
                _ => if old(self).first() > old(self).last() {
                    (action matches ScanAction::Finished(Ok(v)) && v@.len() == 0) && final(self).phase() == ScanPhase::Done
                } else if old(self).current() <= 0x7F {
                    action == (ScanAction::Probe {
                        address: I2cAddress::Bit7(old(self).current()),
                        timeout_ms: old(self).probe_timeout(),
                    }) && final(self).phase() == ScanPhase::Probing
                } else {
                    (action matches ScanAction::Finished(Err(Error::ArgumentOutOfRange(m))) && m@ == bad_7bit_text())
                        && final(self).phase() == ScanPhase::Done
                },
            },
            old(self).phase() == ScanPhase::Probing ==> match result {
                Ok(()) => action == (ScanAction::Report {
                    address: old(self).current(),
                    found: true,
                    index: (old(self).current() - old(self).first()) as usize,
                    total: (old(self).last() - old(self).first() + 1) as usize,
                }) && final(self).found() == old(self).found().push(old(self).current())
                    && final(self).phase() == ScanPhase::Reporting,
                Err(Error::I2cNack { .. }) => action == (ScanAction::Report {
                    address: old(self).current(),
                    found: false,
                    index: (old(self).current() - old(self).first()) as usize,
                    total: (old(self).last() - old(self).first() + 1) as usize,
                }) && final(self).found() == old(self).found() && final(self).phase() == ScanPhase::Reporting,
                Err(Error::I2cTimeout { .. }) => action == ScanAction::Finished(Err(
                    Error::I2cTimeout { address: I2cAddress::Bit7(old(self).current()) },
                )) && final(self).phase() == ScanPhase::Done,
                Err(e) => action == ScanAction::Finished(Err(e)) && final(self).phase() == ScanPhase::Done,
            },
    {
        if self.phase == ScanPhase::Responsiveness {
            match result {
                Err(Error::I2cTimeout { .. }) => {
                    self.phase = ScanPhase::Done;
                    ScanAction::Finished(Err(Error::I2cTimeout { address: I2cAddress::Bit7(0) }))
                },
                _ => {
                    if self.start > self.end {
                        self.phase = ScanPhase::Done;
                        ScanAction::Finished(Ok(Vec::new()))
                    } else {
                        self.phase = ScanPhase::Probing;
                        self.probe_current()
                    }
                },
            }
        } else {
            let index = (self.current - self.start) as usize;
            let total = (self.end - self.start) as usize + 1;
            match result {
                Ok(()) => {
                    proof {
                        let ghost pushed = self.answers@.push(true);
                        assert(pushed.drop_last() =~= self.answers@);
                    }
                    self.found.push(self.current);
                    self.answers = Ghost(self.answers@.push(true));
                    self.last_found = true;
                    self.phase = ScanPhase::Reporting;
                    ScanAction::Report { address: self.current, found: true, index, total }
                },
                Err(Error::I2cNack { .. }) => {
                    proof {
                        let ghost pushed = self.answers@.push(false);
                        assert(pushed.drop_last() =~= self.answers@);
                    }
                    self.answers = Ghost(self.answers@.push(false));
                    self.last_found = false;
                    self.phase = ScanPhase::Reporting;
                    ScanAction::Report { address: self.current, found: false, index, total }
                },
                Err(Error::I2cTimeout { .. }) => {
                    self.phase = ScanPhase::Done;
                    ScanAction::Finished(Err(Error::I2cTimeout { address: I2cAddress::Bit7(self.current) }))
                },
                Err(e) => {
                    self.phase = ScanPhase::Done;
                    ScanAction::Finished(Err(e))
                },
            }
        }
    }

    /// The progress report is done: the scan ends with the addresses found after the last
    /// address, and probes the next address otherwise.
    pub fn on_reported(&mut self) -> (action: ScanAction)
        requires
            old(self).wf(),
            old(self).phase() == ScanPhase::Reporting,
        ensures
            final(self).wf(),
            final(self).first() == old(self).first() && final(self).last() == old(self).last()
                && final(self).probe_timeout() == old(self).probe_timeout() && final(self).found()
                == old(self).found() && final(self).answers() == old(self).answers(),
            old(self).current() == old(self).last() ==> (action matches ScanAction::Finished(Ok(v))
                && v@ == old(self).found()) && final(self).phase() == ScanPhase::Done,
            old(self).current() < old(self).last() ==> final(self).current() == old(self).current() + 1 && if old(self).current() + 1 <= 0x7F {
                action == (ScanAction::Probe {
                    address: I2cAddress::Bit7((old(self).current() + 1) as u8),
                    timeout_ms: old(self).probe_timeout(),
                }) && final(self).phase() == ScanPhase::Probing
            } else {
                (action matches ScanAction::Finished(Err(Error::ArgumentOutOfRange(m))) && m@ == bad_7bit_text())
                    && final(self).phase() == ScanPhase::Done
            },
            action matches ScanAction::Finished(Ok(v)) ==> ascending_within(v@, old(self).first(), old(self).last() as int),
            action matches ScanAction::Finished(Ok(v)) ==> v@ == acknowledged(old(self).first(), old(self).answers())
                && old(self).answers().len() == old(self).last() - old(self).first() + 1,
    {
        if self.current == self.end {
            self.phase = ScanPhase::Done;
            let out = self.found.clone();
            assert(out@ =~= self.found@);
            ScanAction::Finished(Ok(out))
        } else {
            self.current = self.current + 1;
            self.phase = ScanPhase::Probing;
            self.probe_current()
        }
    }
}

/// A scan result lists an address exactly when it lies in the probed range and its probe was
/// acknowledged; the addresses come in increasing order.
pub proof fn acknowledged_addresses(start: u8, answers: Seq<bool>, a: u8)
    requires
        start + answers.len() <= 256,
    ensures
        acknowledged(start, answers).contains(a) <==> (start <= a < start + answers.len() && answers[a - start]),
        forall|i: int, j: int|
            0 <= i < j < acknowledged(start, answers).len() ==> acknowledged(start, answers)[i]
                < acknowledged(start, answers)[j],
    decreases answers.len(),
{
    if answers.len() > 0 {
        let before = answers.drop_last();
        let last = (start + answers.len() - 1) as u8;
        assert(last == start + answers.len() - 1);
        acknowledged_addresses(start, before, a);
        lemma_acknowledged_below(start, before);
        let prev = acknowledged(start, before);
        assert(before.len() == answers.len() - 1);
        assert(forall|k: int| 0 <= k < before.len() ==> before[k] == answers[k]);
        if answers.last() {
            let now = prev.push(last);
            assert(acknowledged(start, answers) == now);
            if now.contains(a) {
                let k = choose|k: int| 0 <= k < now.len() && now[k] == a;
                if k < prev.len() {
                    assert(prev.contains(a));
                }
            }
            if prev.contains(a) {
                let k = choose|k: int| 0 <= k < prev.len() && prev[k] == a;
                assert(now[k] == a);
            }
            if a == last {
                assert(now[prev.len() as int] == a);
            }
            assert forall|i: int, j: int| 0 <= i < j < now.len() implies now[i] < now[j] by {
                if j == prev.len() {
                    assert(prev[i] < start + before.len());
                }
            }
        } else {
            assert(acknowledged(start, answers) == prev);
            if prev.contains(a) {
                let k = choose|k: int| 0 <= k < prev.len() && prev[k] == a;
                assert(prev[k] < start + before.len());
            }
        }
    }
}

/// Every address listed for `answers` lies below the next address to be probed.
proof fn lemma_acknowledged_below(start: u8, answers: Seq<bool>)
    requires
        start + answers.len() <= 256,
    ensures
        forall|i: int|
            0 <= i < acknowledged(start, answers).len() ==> start <= #[trigger] acknowledged(start, answers)[i]
                < start + answers.len(),
    decreases answers.len(),
{
    if answers.len() > 0 {
        let before = answers.drop_last();
        lemma_acknowledged_below(start, before);
        let last = (start + answers.len() - 1) as u8;
        assert(last == start + answers.len() - 1);
        let prev = acknowledged(start, before);
        if answers.last() {
            assert forall|i: int| 0 <= i < prev.push(last).len() implies start <= #[trigger] prev.push(last)[i]
                < start + answers.len() by {
                if i < prev.len() {
                    assert(prev.push(last)[i] == prev[i]);
                }
            }
        }
    }
}

/// The address frames of an OUT report follow the I2C addressing rules: a 7-bit address is sent
/// shifted left with the write bit 0; a 10-bit address is sent as 11110xx0, with xx its bits 9:8,
/// followed by its low byte.
pub proof fn address_frames(a7: u8, a10: u16, data: Seq<u8>, read_len: nat, flags: u8)
    requires
        a7 <= 0x7F,
        a10 <= 0x3FF,
    ensures
        address_byte(I2cAddress::Bit7(a7)) == 2 * a7,
        address_byte(I2cAddress::Bit10(a10)) & 0xF8 == 0xF0,
        address_byte(I2cAddress::Bit10(a10)) & 0x01 == 0,
        (address_byte(I2cAddress::Bit10(a10)) >> 1u8) & 3 == a10 / 256,
        out_report(I2cAddress::Bit10(a10), data, read_len, flags)[4] == a10 % 256,
        out_report(I2cAddress::Bit10(a10), data, read_len, flags)[3] == address_byte(I2cAddress::Bit10(a10)),
{
    assert(a7 <= 0x7F ==> (a7 << 1u8) as u8 == 2 * a7) by (bit_vector);
    let b = (0xF0u8 | ((((a10 >> 8u16) & 3u16) as u8) << 1u8)) as u8;
    assert(a10 <= 0x3FF ==> (0xF0u8 | ((((a10 >> 8u16) & 3u16) as u8) << 1u8)) & 0xF8 == 0xF0) by (bit_vector);
    assert(a10 <= 0x3FF ==> (0xF0u8 | ((((a10 >> 8u16) & 3u16) as u8) << 1u8)) & 0x01 == 0) by (bit_vector);
    assert(a10 <= 0x3FF ==> ((0xF0u8 | ((((a10 >> 8u16) & 3u16) as u8) << 1u8)) >> 1u8) & 3 == a10 / 256) by (bit_vector);
    assert((a10 & 0xFFu16) as u8 == a10 % 256) by (bit_vector);
}

} // verus!
