//! PWM channels: time conversion, period and control register plans, and their decoding.
use crate::consts::{
    PWM_CMD_ASSERT_LOW, PWM_CMD_FREE_RUN, PWM_CMD_IDLE, PWM_CMD_MASK, PWM_CMD_ONE_SHOT, PWM_CMD_SHIFT,
    PWM_ENABLE_MASK, PWM_MAX_UNITS, PWM_MIN_UNITS, PWM_PIN_MASK, PWM_PIN_SHIFT, REG_PWM0_CTRL,
    REG_PWM0_HIGH, REG_PWM0_LOW, REG_PWM1_CTRL, REG_PWM1_HIGH, REG_PWM1_LOW,
};
use crate::device::Capabilities;
use crate::error::{pwm_pin_unsupported_text, unsupported_pwm_pin, Error, Result};
use crate::gpio::GpioPin;
use crate::register::{read_step, update_step, write_step, ErrorScope, RegisterOp, RegisterPlan, RegisterStep};
use crate::text::{decimal_digits, decimal_text};
use vstd::prelude::*;

pub mod properties;

verus! {

/// One of the two PWM channels.
#[derive(Debug, Clone, Copy, PartialEq, Eq, Structural)]
pub enum PwmChannel {
    /// PWM channel 0.
    Pwm0,
    /// PWM channel 1.
    Pwm1,
}

/// Mode of a PWM channel.
#[derive(Debug, Clone, Copy, PartialEq, Eq, Structural)]
pub enum PwmCommand {
    /// No output.
    Idle,
    /// Output held low.
    AssertLow,
    /// One pulse, then stop.
    OneShot,
    /// Continuous pulses.
    FreeRun,
    /// Another raw command value.
    Undefined(u16),
}

/// Largest power of two not above `m` (1 for `m` at most 1).
pub open spec fn highest_pow2(m: nat) -> nat
    decreases m,
{
    if m <= 1 {
        1
    } else {
        2 * highest_pow2(m / 2)
    }
}

/// Number of PWM units (of 800/3 ns, about 266.667 ns) nearest to `ns` nanoseconds.
///
/// This is `ns / 266.6666666666667` computed in IEEE double precision and rounded half away
/// from zero. Away from exact halves that is the nearest integer to 3·ns/800. The double constant
/// lies just above 800/3, so an exact half t = k + 1/2 comes out just below t or exactly t,
/// depending on t's binary mantissa: it rounds up exactly when t / 2^⌊log2 t⌋ is at most 25/16,
/// that is when 16·(2k+1) ≤ 25·2^⌊log2 (2k+1)⌋.
pub open spec fn pwm_units_of_ns(ns: nat) -> nat {
    let n3 = 3 * ns;
    let k = n3 / 800;
    let r = n3 % 800;
    if r < 400 {
        k
    } else if r > 400 {
        k + 1
    } else if 16 * (2 * k + 1) <= 25 * highest_pow2(2 * k + 1) {
        k + 1
    } else {
        k
    }
}

/// Nanoseconds of `units` PWM units, rounded to the nearest integer: round(units · 800/3).
pub open spec fn pwm_ns_of_units(units: nat) -> nat {
    (800 * units + 1) / 3
}

/// Text of the error for a zero time.
pub open spec fn zero_time_text() -> Seq<char> {
    "PWM time must be greater than 0 ns"@
}

/// Text of the error for a time below one unit.
pub open spec fn too_small_text(ns: u64) -> Seq<char> {
    "PWM time "@ + decimal_digits(ns as nat) + " ns is too small (min 267 ns)"@
}

/// Text of the error for a time above 4095 units.
pub open spec fn too_large_text(ns: u64) -> Seq<char> {
    "PWM time "@ + decimal_digits(ns as nat) + " ns is too large (max 1092000 ns)"@
}

proof fn lemma_highest_pow2_bounds(m: nat)
    ensures
        1 <= highest_pow2(m),
        m >= 1 ==> highest_pow2(m) <= m,
    decreases m,
{
    if m > 1 {
        lemma_highest_pow2_bounds(m / 2);
    }
}

fn highest_pow2_of(m: u128) -> (p: u128)
    requires
        m < 0x1_0000_0000_0000_0000_0000,
    ensures
        p == highest_pow2(m as nat),
    decreases m,
{
    proof {
        lemma_highest_pow2_bounds(m as nat);
        lemma_highest_pow2_bounds((m / 2) as nat);
    }
    if m <= 1 {
        1
    } else {
        2 * highest_pow2_of(m / 2)
    }
}

/// Whether `ns` converts to a valid number of units (1-4095).
pub open spec fn ns_convertible(ns: u64) -> bool {
    ns > 0 && 1 <= pwm_units_of_ns(ns as nat) <= 4095
}

/// `e` is the error of converting `ns`, which does not convert.
pub open spec fn conversion_error(ns: u64, e: Error) -> bool {
    e matches Error::ArgumentOutOfRange(m) && m@ == if ns == 0 {
        zero_time_text()
    } else if pwm_units_of_ns(ns as nat) < 1 {
        too_small_text(ns)
    } else {
        too_large_text(ns)
    }
}

/// Converts nanoseconds to PWM units of about 266.667 ns.
///
/// Zero is refused, and so is a time that rounds to fewer than 1 or more than 4095 units.
pub fn ns_to_pwm_units(nanoseconds: u64) -> (r: Result<u16>)
    ensures
        nanoseconds == 0 ==> (r matches Err(Error::ArgumentOutOfRange(m)) && m@ == zero_time_text()),
        nanoseconds > 0 && pwm_units_of_ns(nanoseconds as nat) < 1 ==> (r matches Err(
            Error::ArgumentOutOfRange(m),
        ) && m@ == too_small_text(nanoseconds)),
        nanoseconds > 0 && pwm_units_of_ns(nanoseconds as nat) > 4095 ==> (r matches Err(
            Error::ArgumentOutOfRange(m),
        ) && m@ == too_large_text(nanoseconds)),
        nanoseconds > 0 && 1 <= pwm_units_of_ns(nanoseconds as nat) <= 4095 ==> r == Ok::<u16, Error>(
            pwm_units_of_ns(nanoseconds as nat) as u16,
        ),
{
    if nanoseconds == 0 {
        return Err(Error::ArgumentOutOfRange(String::from_str("PWM time must be greater than 0 ns")));
    }
    let n3: u128 = 3 * (nanoseconds as u128);
    let k: u128 = n3 / 800;
    let rem: u128 = n3 % 800;
    proof {
        lemma_highest_pow2_bounds((2 * k + 1) as nat);
    }
    let units: u128 = if rem < 400 {
        k
    } else if rem > 400 {
        k + 1
    } else if 16 * (2 * k + 1) <= 25 * highest_pow2_of(2 * k + 1) {
        k + 1
    } else {
        k
    };
    if units < PWM_MIN_UNITS as u128 {
        let mut m = String::from_str("PWM time ");
        m.append(decimal_text(nanoseconds).as_str());
        m.append(" ns is too small (min 267 ns)");
        Err(Error::ArgumentOutOfRange(m))
    } else if units > PWM_MAX_UNITS as u128 {
        let mut m = String::from_str("PWM time ");
        m.append(decimal_text(nanoseconds).as_str());
        m.append(" ns is too large (max 1092000 ns)");
        Err(Error::ArgumentOutOfRange(m))
    } else {
        Ok(units as u16)
    }
}

/// Converts PWM units to nanoseconds, rounded to the nearest nanosecond.
pub fn pwm_units_to_ns(units: u16) -> (ns: u64)
    ensures
        ns == pwm_ns_of_units(units as nat),
{
    ((800 * (units as u64) + 1) / 3)
}

/// Control register of `channel`.
pub open spec fn ctrl_register(channel: PwmChannel) -> u16 {
    match channel {
        PwmChannel::Pwm0 => REG_PWM0_CTRL,
        PwmChannel::Pwm1 => REG_PWM1_CTRL,
    }
}

/// High and low period registers of `channel`.
pub open spec fn period_registers(channel: PwmChannel) -> (u16, u16) {
    match channel {
        PwmChannel::Pwm0 => (REG_PWM0_HIGH, REG_PWM0_LOW),
        PwmChannel::Pwm1 => (REG_PWM1_HIGH, REG_PWM1_LOW),
    }
}

/// The control register of `channel`.
pub fn pwm_ctrl_register(channel: PwmChannel) -> (r: u16)
    ensures
        r == ctrl_register(channel),
{
    match channel {
        PwmChannel::Pwm0 => REG_PWM0_CTRL,
        PwmChannel::Pwm1 => REG_PWM1_CTRL,
    }
}

/// The high and low period registers of `channel`.
pub fn pwm_period_registers(channel: PwmChannel) -> (r: (u16, u16))
    ensures
        r == period_registers(channel),
{
    match channel {
        PwmChannel::Pwm0 => (REG_PWM0_HIGH, REG_PWM0_LOW),
        PwmChannel::Pwm1 => (REG_PWM1_HIGH, REG_PWM1_LOW),
    }
}

/// Text of the error for period units out of 1-4095.
pub open spec fn period_range_text(high: u16, low: u16) -> Seq<char> {
    "PWM period units must be 1-4095 (got high="@ + decimal_digits(high as nat) + ", low="@
        + decimal_digits(low as nat) + ")"@
}

/// Steps of setting the periods of `channel`: the high period, then the low period.
pub open spec fn set_periods_steps(channel: PwmChannel, high: u16, low: u16) -> Seq<RegisterStep> {
    seq![
        write_step(period_registers(channel).0, high, ErrorScope::Device),
        write_step(period_registers(channel).1, low, ErrorScope::Device),
    ]
}

/// `r` is a plan made of exactly `steps`, ending without error.
pub open spec fn plan_of(r: Result<RegisterPlan>, steps: Seq<RegisterStep>) -> bool {
    r matches Ok(p) && p.steps@ == steps && p.failure is None
}

fn two_steps(a: RegisterStep, b: RegisterStep, failure: Option<Error>) -> (p: RegisterPlan)
    ensures
        p.steps@ == seq![a, b],
        p.failure == failure,
{
    let mut steps = Vec::new();
    steps.push(a);
    steps.push(b);
    assert(steps@ =~= seq![a, b]);
    RegisterPlan { steps, failure }
}

fn one_step(a: RegisterStep, failure: Option<Error>) -> (p: RegisterPlan)
    ensures
        p.steps@ == seq![a],
        p.failure == failure,
{
    let mut steps = Vec::new();
    steps.push(a);
    assert(steps@ =~= seq![a]);
    RegisterPlan { steps, failure }
}

/// Plan of setting the high and low periods of `channel`, in units; each must be in 1-4095.
pub fn set_periods_plan(channel: PwmChannel, high_units: u16, low_units: u16) -> (r: Result<RegisterPlan>)
    ensures
        (1 <= high_units <= 4095 && 1 <= low_units <= 4095) <==> r is Ok,
        r is Ok ==> plan_of(r, set_periods_steps(channel, high_units, low_units)),
        r matches Err(e) ==> (e matches Error::ArgumentOutOfRange(m) && m@ == period_range_text(high_units, low_units)),
{
    let (reg_high, reg_low) = pwm_period_registers(channel);
    if !(1 <= high_units && high_units <= 4095) || !(1 <= low_units && low_units <= 4095) {
        let mut m = String::from_str("PWM period units must be 1-4095 (got high=");
        m.append(decimal_text(high_units as u64).as_str());
        m.append(", low=");
        m.append(decimal_text(low_units as u64).as_str());
        m.append(")");
        return Err(Error::ArgumentOutOfRange(m));
    }
    Ok(two_steps(
        RegisterStep { register: reg_high, op: RegisterOp::Write(high_units), scope: ErrorScope::Device },
        RegisterStep { register: reg_low, op: RegisterOp::Write(low_units), scope: ErrorScope::Device },
        None,
    ))
}

/// Plan of setting the periods of `channel` in nanoseconds: both are converted to units, the
/// high period first, and the first conversion error is returned.
pub fn set_periods_ns_plan(channel: PwmChannel, high_ns: u64, low_ns: u64) -> (r: Result<RegisterPlan>)
    ensures
        r is Ok <==> (ns_convertible(high_ns) && ns_convertible(low_ns)),
        r matches Err(e) ==> if !ns_convertible(high_ns) {
            conversion_error(high_ns, e)
        } else {
            conversion_error(low_ns, e)
        },
        r is Ok ==> plan_of(
            r,
            set_periods_steps(channel, pwm_units_of_ns(high_ns as nat) as u16, pwm_units_of_ns(low_ns as nat) as u16),
        ),
{
    let high_units = ns_to_pwm_units(high_ns)?;
    let low_units = ns_to_pwm_units(low_ns)?;
    set_periods_plan(channel, high_units, low_units)
}

/// Steps of reading the periods of `channel`: high, then low.
pub open spec fn get_periods_steps(channel: PwmChannel) -> Seq<RegisterStep> {
    seq![
        read_step(period_registers(channel).0, ErrorScope::Device),
        read_step(period_registers(channel).1, ErrorScope::Device),
    ]
}

/// Plan of reading the high and low periods of `channel`, in units.
pub fn get_periods_plan(channel: PwmChannel) -> (p: RegisterPlan)
    ensures
        p.steps@ == get_periods_steps(channel),
        p.failure is None,
{
    let (reg_high, reg_low) = pwm_period_registers(channel);
    two_steps(
        RegisterStep { register: reg_high, op: RegisterOp::Read, scope: ErrorScope::Device },
        RegisterStep { register: reg_low, op: RegisterOp::Read, scope: ErrorScope::Device },
        None,
    )
}

/// The high and low periods in nanoseconds, given them in units.
pub fn periods_to_ns(high_units: u16, low_units: u16) -> (r: (u64, u64))
    ensures
        r == (pwm_ns_of_units(high_units as nat) as u64, pwm_ns_of_units(low_units as nat) as u64),
{
    (pwm_units_to_ns(high_units), pwm_units_to_ns(low_units))
}

/// Steps of assigning `pin` to `channel`: its number replaces the pin field of the control register.
pub open spec fn set_pin_steps(channel: PwmChannel, pin: u8) -> Seq<RegisterStep> {
    seq![update_step(ctrl_register(channel), PWM_PIN_MASK, ((pin as u16) << PWM_PIN_SHIFT) as u16, ErrorScope::Device)]
}

/// Plan of assigning `pin` to `channel`; a model with 8 GPIOs has PWM only on pins 0-7.
pub fn set_pin_plan(c: &Capabilities, channel: PwmChannel, pin: GpioPin) -> (r: Result<RegisterPlan>)
    ensures
        !(c.gpio_count == 8 && pin@ > 7) <==> r is Ok,
        r is Ok ==> plan_of(r, set_pin_steps(channel, pin@)),
        r matches Err(e) ==> (e matches Error::UnsupportedFeature(m) && m@ == pwm_pin_unsupported_text(pin@)),
{
    if c.gpio_count == 8 && pin.number() > 7 {
        return Err(unsupported_pwm_pin(pin.number()));
    }
    let reg = pwm_ctrl_register(channel);
    Ok(one_step(
        RegisterStep {
            register: reg,
            op: RegisterOp::Update { clear: PWM_PIN_MASK, set: (pin.number() as u16) << PWM_PIN_SHIFT },
            scope: ErrorScope::Device,
        },
        None,
    ))
}

/// Steps of reading the control register of `channel`.
pub open spec fn get_ctrl_steps(channel: PwmChannel) -> Seq<RegisterStep> {
    seq![read_step(ctrl_register(channel), ErrorScope::Device)]
}

/// Plan of reading the control register of `channel`.
pub fn get_ctrl_plan(channel: PwmChannel) -> (p: RegisterPlan)
    ensures
        p.steps@ == get_ctrl_steps(channel),
        p.failure is None,
{
    one_step(RegisterStep { register: pwm_ctrl_register(channel), op: RegisterOp::Read, scope: ErrorScope::Device }, None)
}

/// Pin number held in the control register value `value`.
pub open spec fn pin_field(value: u16) -> u8 {
    ((value & PWM_PIN_MASK) >> PWM_PIN_SHIFT) as u8
}

/// The pin a control register value assigns the channel to.
pub fn pin_from_ctrl(value: u16) -> (r: Result<GpioPin>)
    ensures
        r matches Ok(p) && p@ == pin_field(value),
{
    let n = ((value & PWM_PIN_MASK) >> PWM_PIN_SHIFT) as u8;
    assert((value & 0x1Fu16) >> 0u16 <= 31) by (bit_vector);
    GpioPin::new(n)
}

/// The raw 3-bit code of `command`.
pub open spec fn command_code(command: PwmCommand) -> u16 {
    match command {
        PwmCommand::Idle => PWM_CMD_IDLE,
        PwmCommand::AssertLow => PWM_CMD_ASSERT_LOW,
        PwmCommand::OneShot => PWM_CMD_ONE_SHOT,
        PwmCommand::FreeRun => PWM_CMD_FREE_RUN,
        PwmCommand::Undefined(raw) => raw,
    }
}

/// Whether `command` can be written: a raw command must fit in 3 bits.
pub open spec fn command_fits(command: PwmCommand) -> bool {
    match command {
        PwmCommand::Undefined(raw) => raw & !7u16 == 0,
        _ => true,
    }
}

/// Steps of setting the enable bit and command of `channel`, keeping the pin field.
pub open spec fn control_steps(channel: PwmChannel, enable: bool, command: PwmCommand) -> Seq<RegisterStep> {
    seq![
        update_step(
            ctrl_register(channel),
            PWM_ENABLE_MASK | PWM_CMD_MASK,
            (if enable { PWM_ENABLE_MASK } else { 0 }) | ((command_code(command) << PWM_CMD_SHIFT) as u16),
            ErrorScope::Device,
        ),
    ]
}

/// Text of the error for a raw command wider than 3 bits.
pub open spec fn raw_command_text() -> Seq<char> {
    "PWM command raw value must fit in 3 bits"@
}

/// Plan of enabling or disabling `channel` and setting its command.
///
/// The control register is read first; a raw command that does not fit in 3 bits then fails
/// with nothing written.
pub fn control_plan(channel: PwmChannel, enable: bool, command: PwmCommand) -> (p: RegisterPlan)
    ensures
        command_fits(command) ==> p.steps@ == control_steps(channel, enable, command) && p.failure is None,
        !command_fits(command) ==> p.steps@ == get_ctrl_steps(channel) && (p.failure matches Some(
            Error::ArgumentOutOfRange(m),
        ) && m@ == raw_command_text()),
{
    let reg = pwm_ctrl_register(channel);
    let enable_bits: u16 = if enable { PWM_ENABLE_MASK } else { 0 };
    let cmd_bits: u16 = match command {
        PwmCommand::Idle => PWM_CMD_IDLE,
        PwmCommand::AssertLow => PWM_CMD_ASSERT_LOW,
        PwmCommand::OneShot => PWM_CMD_ONE_SHOT,
        PwmCommand::FreeRun => PWM_CMD_FREE_RUN,
        PwmCommand::Undefined(raw) => {
            if raw & !0b111u16 != 0 {
                return one_step(
                    RegisterStep { register: reg, op: RegisterOp::Read, scope: ErrorScope::Device },
                    Some(Error::ArgumentOutOfRange(String::from_str("PWM command raw value must fit in 3 bits"))),
                );
            }
            raw
        },
    };
    one_step(
        RegisterStep {
            register: reg,
            op: RegisterOp::Update { clear: PWM_ENABLE_MASK | PWM_CMD_MASK, set: enable_bits | (cmd_bits << PWM_CMD_SHIFT) },
            scope: ErrorScope::Device,
        },
        None,
    )
}

/// Command encoded by the raw 3-bit code `raw`.
pub open spec fn command_of_code(raw: u16) -> PwmCommand {
    if raw == PWM_CMD_IDLE {
        PwmCommand::Idle
    } else if raw == PWM_CMD_ASSERT_LOW {
        PwmCommand::AssertLow
    } else if raw == PWM_CMD_ONE_SHOT {
        PwmCommand::OneShot
    } else if raw == PWM_CMD_FREE_RUN {
        PwmCommand::FreeRun
    } else {
        PwmCommand::Undefined(raw)
    }
}

/// Enable bit and command held in the control register value `value`.
pub open spec fn control_of(value: u16) -> (bool, PwmCommand) {
    (value & PWM_ENABLE_MASK != 0, command_of_code(((value & PWM_CMD_MASK) >> PWM_CMD_SHIFT) as u16))
}

/// The enable bit and command of a control register value.
pub fn control_from_ctrl(value: u16) -> (r: (bool, PwmCommand))
    ensures
        r == control_of(value),
{
    let enabled = (value & PWM_ENABLE_MASK) != 0;
    let cmd_raw = (value & PWM_CMD_MASK) >> PWM_CMD_SHIFT;
    let command = if cmd_raw == PWM_CMD_IDLE {
        PwmCommand::Idle
    } else if cmd_raw == PWM_CMD_ASSERT_LOW {
        PwmCommand::AssertLow
    } else if cmd_raw == PWM_CMD_ONE_SHOT {
        PwmCommand::OneShot
    } else if cmd_raw == PWM_CMD_FREE_RUN {
        PwmCommand::FreeRun
    } else {
        PwmCommand::Undefined(cmd_raw)
    };
    (enabled, command)
}

} // verus!
