//! GPIO interrupt configuration, and the interrupt reports the EDGE interface sends.
use crate::consts::{REG_INTR_MASK_0, REG_INTR_NEG_EDGE_0, REG_INTR_POS_EDGE_0};
use crate::device::Capabilities;
use crate::error::{Error, Result};
use crate::gpio::{
    gpio_register_for_group, group_of, group_register, pin_checked, pin_group, pin_mask, set_bits_step,
    GpioPin,
};
use crate::register::{ErrorScope, RegisterOp, RegisterPlan, RegisterStep};
use crate::text::{decimal_digits, decimal_text};
use vstd::prelude::*;
use vstd::slice::slice_subrange;

verus! {

/// Raw bytes of a GPIO interrupt report: the HID report ID, then data of undocumented format.
#[derive(Debug, Clone)]
pub struct GpioInterruptReport {
    /// The bytes received; index 0 is the HID report ID.
    pub raw_data: Vec<u8>,
}

/// Fields read from an interrupt report under an unverified assumption about its layout.
///
/// The layout assumed is: report ID, group 0 state and group 1 state (little-endian u16 each),
/// then optionally group 0 and group 1 trigger masks. The hardware format is undocumented;
/// the values may not mean what their names say.
#[derive(Debug, Clone, PartialEq, Eq, Structural)]
pub struct ParsedGpioInterruptReport {
    /// Bytes 5-6, if present: possibly the pins of group 0 that triggered.
    pub trigger_mask_group0: u16,
    /// Bytes 7-8, if present: possibly the pins of group 1 that triggered.
    pub trigger_mask_group1: u16,
    /// Bytes 1-2: possibly the state of pins 0-15.
    pub current_state_group0: u16,
    /// Bytes 3-4: possibly the state of pins 16-31.
    pub current_state_group1: u16,
}

/// Steps of configuring the interrupt of `pin`: its enable bit, then, when enabling, its
/// rising-edge and falling-edge bits.
pub open spec fn interrupt_steps(pin: u8, enable: bool, positive_edge: bool, negative_edge: bool) -> Seq<RegisterStep> {
    let g = group_of(pin);
    let m = pin_mask(pin);
    seq![set_bits_step(group_register(g, REG_INTR_MASK_0), m, enable, ErrorScope::Device)] + if enable {
        seq![
            set_bits_step(group_register(g, REG_INTR_POS_EDGE_0), m, positive_edge, ErrorScope::Device),
            set_bits_step(group_register(g, REG_INTR_NEG_EDGE_0), m, negative_edge, ErrorScope::Device),
        ]
    } else {
        Seq::empty()
    }
}

fn set_bits(register: u16, mask: u16, enable: bool) -> (s: RegisterStep)
    ensures
        s == set_bits_step(register, mask, enable, ErrorScope::Device),
{
    if enable {
        RegisterStep { register, op: RegisterOp::Update { clear: 0, set: mask }, scope: ErrorScope::Device }
    } else {
        RegisterStep { register, op: RegisterOp::Update { clear: mask, set: 0 }, scope: ErrorScope::Device }
    }
}

/// Plan of enabling or disabling the interrupt of `pin` and choosing its edges.
///
/// Disabling only clears the enable bit; the edge bits are left as they are.
pub fn configure_interrupt_plan(
    c: &Capabilities,
    pin: GpioPin,
    enable: bool,
    positive_edge: bool,
    negative_edge: bool,
) -> (r: Result<RegisterPlan>)
    ensures
        pin_checked(*c, pin@, r),
        r matches Ok(p) ==> p.steps@ == interrupt_steps(pin@, enable, positive_edge, negative_edge)
            && p.failure is None,
{
    c.check_gpio_pin_support(pin)?;
    let g = pin_group(pin);
    let m = pin.mask();
    let mut steps: Vec<RegisterStep> = Vec::new();
    steps.push(set_bits(gpio_register_for_group(g, REG_INTR_MASK_0), m, enable));
    if enable {
        steps.push(set_bits(gpio_register_for_group(g, REG_INTR_POS_EDGE_0), m, positive_edge));
        steps.push(set_bits(gpio_register_for_group(g, REG_INTR_NEG_EDGE_0), m, negative_edge));
    }
    assert(steps@ =~= interrupt_steps(pin@, enable, positive_edge, negative_edge));
    Ok(RegisterPlan { steps, failure: None })
}

impl GpioInterruptReport {
    /// The report made of the first `size` bytes of `buffer`.
    pub fn from_buffer(buffer: &[u8], size: usize) -> (r: GpioInterruptReport)
        requires
            size <= buffer@.len(),
        ensures
            r.raw_data@ == buffer@.take(size as int),
    {
        let mut raw_data: Vec<u8> = Vec::new();
        let mut i: usize = 0;
        while i < size
            invariant
                i <= size,
                size <= buffer@.len(),
                raw_data@ == buffer@.take(i as int),
            decreases size - i,
        {
            raw_data.push(buffer[i]);
            i = i + 1;
            assert(raw_data@ =~= buffer@.take(i as int));
        }
        GpioInterruptReport { raw_data }
    }
}

/// The little-endian u16 of bytes `lo` and `hi`.
pub open spec fn le16(lo: u8, hi: u8) -> u16 {
    (lo as u16 | ((hi as u16) << 8)) as u16
}

fn le16_of(lo: u8, hi: u8) -> (v: u16)
    ensures
        v == le16(lo, hi),
{
    lo as u16 | ((hi as u16) << 8)
}

/// Text of the error for an empty report.
pub open spec fn empty_report_text() -> Seq<char> {
    "Interrupt report is empty - no data to parse"@
}

/// Text of the error for a report of `len` bytes, fewer than 5.
pub open spec fn short_report_text(len: usize) -> Seq<char> {
    "Interrupt report too small: got "@ + decimal_digits(len as nat)
        + " bytes, need at least 5 bytes (Report ID + 4 state bytes). This may indicate an incompatible hardware report format."@
}

/// Fields of the report `raw` under the assumed layout, for a report of at least 5 bytes.
pub open spec fn parsed_fields(raw: Seq<u8>) -> ParsedGpioInterruptReport {
    ParsedGpioInterruptReport {
        trigger_mask_group0: if raw.len() >= 9 { le16(raw[5], raw[6]) } else { 0 },
        trigger_mask_group1: if raw.len() >= 9 { le16(raw[7], raw[8]) } else { 0 },
        current_state_group0: le16(raw[1], raw[2]),
        current_state_group1: le16(raw[3], raw[4]),
    }
}

/// Reads the fields of an interrupt report under the assumed, unverified layout.
///
/// An empty report, or one shorter than 5 bytes, is refused. The trigger masks are read only
/// from a report of at least 9 bytes, and are 0 otherwise.
pub fn parse_gpio_interrupt_report(report: &GpioInterruptReport) -> (r: Result<ParsedGpioInterruptReport>)
    ensures
        report.raw_data@.len() == 0 ==> (r matches Err(Error::InterruptParseError(m)) && m@ == empty_report_text()),
        0 < report.raw_data@.len() < 5 ==> (r matches Err(Error::InterruptParseError(m)) && m@
            == short_report_text(report.raw_data@.len() as usize)),
        report.raw_data@.len() >= 5 ==> r == Ok::<ParsedGpioInterruptReport, Error>(parsed_fields(report.raw_data@)),
{
    let raw = &report.raw_data;
    let len = raw.len();
    if len == 0 {
        return Err(Error::InterruptParseError(String::from_str("Interrupt report is empty - no data to parse")));
    }
    if len < 5 {
        let mut m = String::from_str("Interrupt report too small: got ");
        m.append(decimal_text(len as u64).as_str());
        m.append(" bytes, need at least 5 bytes (Report ID + 4 state bytes). This may indicate an incompatible hardware report format.");
        return Err(Error::InterruptParseError(m));
    }
    let current_state_group0 = le16_of(raw[1], raw[2]);
    let current_state_group1 = le16_of(raw[3], raw[4]);
    let (trigger_mask_group0, trigger_mask_group1) = if len >= 9 {
        (le16_of(raw[5], raw[6]), le16_of(raw[7], raw[8]))
    } else {
        (0, 0)
    };
    Ok(ParsedGpioInterruptReport { trigger_mask_group0, trigger_mask_group1, current_state_group0, current_state_group1 })
}

/// The data of a report without its leading report ID; empty for an empty report.
pub fn get_raw_interrupt_data(report: &GpioInterruptReport) -> (data: &[u8])
    ensures
        report.raw_data@.len() == 0 ==> data@ == Seq::<u8>::empty(),
        report.raw_data@.len() > 0 ==> data@ == report.raw_data@.drop_first(),
{
    let raw = report.raw_data.as_slice();
    if raw.len() == 0 {
        slice_subrange(raw, 0, 0)
    } else {
        let d = slice_subrange(raw, 1, raw.len());
        assert(d@ =~= report.raw_data@.drop_first());
        d
    }
}

} // verus!
