//! GPIO pins, groups and the register arithmetic behind them.
use crate::consts::{
    REG_CLEAR_0, REG_CLEAR_1, REG_DIR_0, REG_FUNC_SEL_0, REG_OPEN_DRAIN_0, REG_PULL_DOWN_0,
    REG_PULL_UP_0, REG_SET_0, REG_SET_1, REG_STATE_0, REG_TRI_STATE_0,
};
use crate::device::{pin_unavailable_text, supports_group, supports_pin, Capabilities};
use crate::error::{group1_unsupported_text, Error, Result};
use crate::register::{
    read_step, update_step, write_step, ErrorScope, RegisterOp, RegisterPlan, RegisterStep,
};
use vstd::prelude::*;

pub mod properties;
pub mod retry;
pub mod transaction;

pub use retry::{GpioWriteRetry, WriteAction};
pub use transaction::GpioTransaction;

verus! {

/// A GPIO group: pins 0-15 or pins 16-31.
#[derive(Debug, Clone, Copy, PartialEq, Eq, Structural)]
pub enum GpioGroup {
    /// GPIO pins 0-15 (all models).
    Group0,
    /// GPIO pins 16-31 (XR22802/XR22804 only).
    Group1,
}

/// Direction of a GPIO pin.
#[derive(Debug, Clone, Copy, PartialEq, Eq, Structural)]
pub enum GpioDirection {
    /// High-impedance input.
    Input,
    /// Driven output.
    Output,
}

/// Logic level of a GPIO pin.
#[derive(Debug, Clone, Copy, PartialEq, Eq, Structural)]
pub enum GpioLevel {
    /// Logic low.
    Low,
    /// Logic high.
    High,
}

/// Pull resistor configuration.
#[derive(Debug, Clone, Copy, PartialEq, Eq, Structural)]
pub enum GpioPull {
    /// No pull resistor (floating input).
    Floating,
    /// Pull-up enabled.
    Up,
    /// Pull-down enabled.
    Down,
}

/// A GPIO pin number in 0..=31.
#[derive(Debug, Clone, Copy, PartialEq, Eq, Hash)]
pub struct GpioPin(pub(crate) u8);

impl View for GpioPin {
    type V = u8;

    closed spec fn view(&self) -> u8 {
        self.0
    }
}

impl GpioPin {
    /// A pin number is at most 31.
    #[verifier::type_invariant]
    spec fn in_range(self) -> bool {
        self.0 <= 31
    }

    /// Returns the underlying pin number, at most 31.
    pub fn number(&self) -> (n: u8)
        ensures
            n == self@,
            n <= 31,
    {
        proof {
            use_type_invariant(self);
        }
        self.0
    }
}


/// A pin is its number: two pins with the same number are the same pin, so a pin made from
/// another's number is that pin.
pub proof fn pins_equal_by_number(p: GpioPin, q: GpioPin)
    requires
        p@ == q@,
    ensures
        p == q,
{
}

impl GpioPin {
    /// Creates a pin, checking that the number is at most 31.
    pub fn new(pin_num: u8) -> (r: Result<Self>)
        ensures
            pin_num <= 31 ==> (r matches Ok(p) && p@ == pin_num),
            pin_num <= 31 ==> forall|q: GpioPin| q@ == pin_num ==> r == Ok::<GpioPin, Error>(q),
            pin_num > 31 ==> (r matches Err(Error::PinArgumentOutOfRange { pin, message })
                && pin == pin_num && message@ == "Pin number must be 0-31"@),
    {
        if pin_num <= 31 {
            Ok(GpioPin(pin_num))
        } else {
            Err(Error::PinArgumentOutOfRange { pin: pin_num, message: String::from_str("Pin number must be 0-31") })
        }
    }

    /// The group index (0 or 1) of the pin.
    pub fn group_index(&self) -> (g: u8)
        ensures
            g == self@ / 16,
            g <= 1,
    {
        proof {
            use_type_invariant(self);
        }
        self.0 / 16
    }

    /// The bit index (0-15) of the pin within its group's registers.
    pub fn bit_index(&self) -> (b: u8)
        ensures
            b == self@ % 16,
    {
        self.0 % 16
    }

    /// The bit mask of the pin within its group's registers.
    pub fn mask(&self) -> (m: u16)
        ensures
            m == pin_mask(self@),
    {
        1u16 << (self.0 % 16) as u16
    }
}

/// Bit mask of pin `pin` within its group's registers.
pub open spec fn pin_mask(pin: u8) -> u16 {
    1u16 << ((pin % 16) as u16)
}


/// Edge selection for GPIO interrupts.
#[derive(Debug, Clone, Copy, PartialEq, Eq, Structural)]
pub enum GpioEdge {
    /// Rising edge.
    Rising,
    /// Falling edge.
    Falling,
    /// Both edges.
    Both,
}

/// Group of the pin numbered `pin`.
pub open spec fn group_of(pin: u8) -> GpioGroup {
    if pin / 16 == 0 {
        GpioGroup::Group0
    } else {
        GpioGroup::Group1
    }
}

/// Address of the register of `group` whose group-0 counterpart is at `base`.
pub open spec fn group_register(group: GpioGroup, base: u16) -> u16 {
    match group {
        GpioGroup::Group0 => base,
        GpioGroup::Group1 => (base + 12) as u16,
    }
}

/// The register of `group` whose group-0 counterpart is at `base`; group 1 registers lie 12 above.
pub fn gpio_register_for_group(group: GpioGroup, base: u16) -> (r: u16)
    requires
        base <= 0xFFF3,
    ensures
        r == group_register(group, base),
{
    match group {
        GpioGroup::Group0 => base,
        GpioGroup::Group1 => base + 12,
    }
}

/// The output SET and CLEAR strobe registers of `group`.
pub fn gpio_group_set_clear_registers(group: GpioGroup) -> (r: (u16, u16))
    ensures
        r == (group_register(group, REG_SET_0), group_register(group, REG_CLEAR_0)),
{
    match group {
        GpioGroup::Group0 => (REG_SET_0, REG_CLEAR_0),
        GpioGroup::Group1 => (REG_SET_1, REG_CLEAR_1),
    }
}

/// The group the pin belongs to.
pub fn pin_group(pin: GpioPin) -> (g: GpioGroup)
    ensures
        g == group_of(pin@),
{
    if pin.group_index() == 0 {
        GpioGroup::Group0
    } else {
        GpioGroup::Group1
    }
}

/// A step that sets (`enable`) or clears the bits of `mask` in `register`.
pub open spec fn set_bits_step(register: u16, mask: u16, enable: bool, scope: ErrorScope) -> RegisterStep {
    if enable {
        update_step(register, 0, mask, scope)
    } else {
        update_step(register, mask, 0, scope)
    }
}

/// `r` is a plan made of exactly `steps`, ending without error.
pub open spec fn plan_of(r: Result<RegisterPlan>, steps: Seq<RegisterStep>) -> bool {
    r matches Ok(p) && p.steps@ == steps && p.failure is None
}

/// `r` is refused exactly when the device lacks `pin`, with the unsupported-pin error.
pub open spec fn pin_checked(c: Capabilities, pin: u8, r: Result<RegisterPlan>) -> bool {
    &&& supports_pin(c, pin) <==> r is Ok
    &&& r matches Err(e) ==> (e matches Error::UnsupportedFeature(m) && m@ == pin_unavailable_text(pin))
}

/// `r` is refused exactly when the device lacks `group`, with the unsupported-group error.
pub open spec fn group_checked(c: Capabilities, g: GpioGroup, r: Result<RegisterPlan>) -> bool {
    &&& supports_group(c, g) <==> r is Ok
    &&& r matches Err(e) ==> (e matches Error::UnsupportedFeature(m) && m@ == group1_unsupported_text())
}

/// A plan of the single step `s`.
fn single(s: RegisterStep) -> (p: RegisterPlan)
    ensures
        p.steps@ == seq![s],
        p.failure is None,
{
    let mut steps = Vec::new();
    steps.push(s);
    assert(steps@ =~= seq![s]);
    RegisterPlan { steps, failure: None }
}

/// A plan of the steps `a` then `b`.
fn pair(a: RegisterStep, b: RegisterStep) -> (p: RegisterPlan)
    ensures
        p.steps@ == seq![a, b],
        p.failure is None,
{
    let mut steps = Vec::new();
    steps.push(a);
    steps.push(b);
    assert(steps@ =~= seq![a, b]);
    RegisterPlan { steps, failure: None }
}

/// A step that sets or clears `mask` in `register`.
fn set_bits(register: u16, mask: u16, enable: bool, scope: ErrorScope) -> (s: RegisterStep)
    ensures
        s == set_bits_step(register, mask, enable, scope),
{
    if enable {
        RegisterStep { register, op: RegisterOp::Update { clear: 0, set: mask }, scope }
    } else {
        RegisterStep { register, op: RegisterOp::Update { clear: mask, set: 0 }, scope }
    }
}

/// Steps of assigning a pin to the EDGE controller.
pub open spec fn assign_to_edge_steps(pin: u8) -> Seq<RegisterStep> {
    seq![update_step(group_register(group_of(pin), REG_FUNC_SEL_0), 0, pin_mask(pin), ErrorScope::Device)]
}

/// Plan of assigning `pin` to the EDGE controller: set its bit in the function select register.
pub fn assign_to_edge_plan(c: &Capabilities, pin: GpioPin) -> (r: Result<RegisterPlan>)
    ensures
        pin_checked(*c, pin@, r),
        r is Ok ==> plan_of(r, assign_to_edge_steps(pin@)),
{
    c.check_gpio_pin_support(pin)?;
    let reg = gpio_register_for_group(pin_group(pin), REG_FUNC_SEL_0);
    Ok(single(RegisterStep { register: reg, op: RegisterOp::Update { clear: 0, set: pin.mask() }, scope: ErrorScope::Device }))
}

/// Steps of reading the register of `pin`'s group whose group-0 address is `base`.
pub open spec fn pin_read_steps(pin: u8, base: u16) -> Seq<RegisterStep> {
    seq![read_step(group_register(group_of(pin), base), ErrorScope::Pin(pin))]
}

/// Plan of reading the register of `pin`'s group whose group-0 address is `base`.
fn pin_read_plan(c: &Capabilities, pin: GpioPin, base: u16) -> (r: Result<RegisterPlan>)
    requires
        base <= 0xFFF3,
    ensures
        pin_checked(*c, pin@, r),
        r is Ok ==> plan_of(r, pin_read_steps(pin@, base)),
{
    c.check_gpio_pin_support(pin)?;
    let reg = gpio_register_for_group(pin_group(pin), base);
    Ok(single(RegisterStep { register: reg, op: RegisterOp::Read, scope: ErrorScope::Pin(pin.number()) }))
}

/// Steps of setting or clearing `pin`'s bit in its group's register at group-0 address `base`.
pub open spec fn pin_set_steps(pin: u8, base: u16, enable: bool) -> Seq<RegisterStep> {
    seq![set_bits_step(group_register(group_of(pin), base), pin_mask(pin), enable, ErrorScope::Pin(pin))]
}

/// Plan of setting or clearing `pin`'s bit in its group's register at group-0 address `base`.
fn pin_set_plan(c: &Capabilities, pin: GpioPin, base: u16, enable: bool) -> (r: Result<RegisterPlan>)
    requires
        base <= 0xFFF3,
    ensures
        pin_checked(*c, pin@, r),
        r is Ok ==> plan_of(r, pin_set_steps(pin@, base, enable)),
{
    c.check_gpio_pin_support(pin)?;
    let reg = gpio_register_for_group(pin_group(pin), base);
    Ok(single(set_bits(reg, pin.mask(), enable, ErrorScope::Pin(pin.number()))))
}

/// Plan of reading whether `pin` is assigned to the EDGE controller.
pub fn is_assigned_to_edge_plan(c: &Capabilities, pin: GpioPin) -> (r: Result<RegisterPlan>)
    ensures
        pin_checked(*c, pin@, r),
        r is Ok ==> plan_of(r, pin_read_steps(pin@, REG_FUNC_SEL_0)),
{
    pin_read_plan(c, pin, REG_FUNC_SEL_0)
}

/// Plan of setting the direction of `pin`: set its direction bit for output, clear it for input.
pub fn set_direction_plan(c: &Capabilities, pin: GpioPin, direction: GpioDirection) -> (r: Result<RegisterPlan>)
    ensures
        pin_checked(*c, pin@, r),
        r is Ok ==> plan_of(r, pin_set_steps(pin@, REG_DIR_0, direction == GpioDirection::Output)),
{
    pin_set_plan(c, pin, REG_DIR_0, direction == GpioDirection::Output)
}

/// Plan of reading the direction of `pin`.
pub fn get_direction_plan(c: &Capabilities, pin: GpioPin) -> (r: Result<RegisterPlan>)
    ensures
        pin_checked(*c, pin@, r),
        r is Ok ==> plan_of(r, pin_read_steps(pin@, REG_DIR_0)),
{
    pin_read_plan(c, pin, REG_DIR_0)
}

/// Steps of driving `pin` to `level`: one write of its mask to the SET or CLEAR strobe register.
pub open spec fn write_level_steps(pin: u8, level: GpioLevel) -> Seq<RegisterStep> {
    let base = if level == GpioLevel::High { REG_SET_0 } else { REG_CLEAR_0 };
    seq![write_step(group_register(group_of(pin), base), pin_mask(pin), ErrorScope::Pin(pin))]
}

/// Plan of driving `pin` to `level` without read-back.
pub fn write_fast_plan(c: &Capabilities, pin: GpioPin, level: GpioLevel) -> (r: Result<RegisterPlan>)
    ensures
        pin_checked(*c, pin@, r),
        r is Ok ==> plan_of(r, write_level_steps(pin@, level)),
{
    c.check_gpio_pin_support(pin)?;
    let (reg_set, reg_clear) = gpio_group_set_clear_registers(pin_group(pin));
    let reg = match level {
        GpioLevel::High => reg_set,
        GpioLevel::Low => reg_clear,
    };
    Ok(single(RegisterStep { register: reg, op: RegisterOp::Write(pin.mask()), scope: ErrorScope::Pin(pin.number()) }))
}

/// Plan of reading the level of `pin` from its group's state register.
pub fn read_plan(c: &Capabilities, pin: GpioPin) -> (r: Result<RegisterPlan>)
    ensures
        pin_checked(*c, pin@, r),
        r is Ok ==> plan_of(r, pin_read_steps(pin@, REG_STATE_0)),
{
    pin_read_plan(c, pin, REG_STATE_0)
}

/// Steps of setting the pull resistors of the pins in `mask` of the registers at `up` and `down`.
pub open spec fn pull_steps(up: u16, down: u16, mask: u16, pull: GpioPull, scope: ErrorScope) -> Seq<RegisterStep> {
    seq![
        set_bits_step(up, mask, pull == GpioPull::Up, scope),
        set_bits_step(down, mask, pull == GpioPull::Down, scope),
    ]
}

/// Plan of setting the pull resistors of `pin`: pull-up bit set only for `Up`, pull-down bit set only for `Down`.
pub fn set_pull_plan(c: &Capabilities, pin: GpioPin, pull: GpioPull) -> (r: Result<RegisterPlan>)
    ensures
        pin_checked(*c, pin@, r),
        r is Ok ==> plan_of(r, pull_steps(
            group_register(group_of(pin@), REG_PULL_UP_0),
            group_register(group_of(pin@), REG_PULL_DOWN_0),
            pin_mask(pin@),
            pull,
            ErrorScope::Pin(pin@),
        )),
{
    c.check_gpio_pin_support(pin)?;
    let g = pin_group(pin);
    let up = gpio_register_for_group(g, REG_PULL_UP_0);
    let down = gpio_register_for_group(g, REG_PULL_DOWN_0);
    let scope = ErrorScope::Pin(pin.number());
    Ok(pair(set_bits(up, pin.mask(), pull == GpioPull::Up, scope), set_bits(down, pin.mask(), pull == GpioPull::Down, scope)))
}

/// Steps of reading the pull resistors of `pin`.
pub open spec fn get_pull_steps(pin: u8) -> Seq<RegisterStep> {
    seq![
        read_step(group_register(group_of(pin), REG_PULL_UP_0), ErrorScope::Pin(pin)),
        read_step(group_register(group_of(pin), REG_PULL_DOWN_0), ErrorScope::Pin(pin)),
    ]
}

/// Plan of reading the pull-up and then the pull-down register of `pin`.
pub fn get_pull_plan(c: &Capabilities, pin: GpioPin) -> (r: Result<RegisterPlan>)
    ensures
        pin_checked(*c, pin@, r),
        r is Ok ==> plan_of(r, get_pull_steps(pin@)),
{
    c.check_gpio_pin_support(pin)?;
    let g = pin_group(pin);
    let scope = ErrorScope::Pin(pin.number());
    Ok(pair(
        RegisterStep { register: gpio_register_for_group(g, REG_PULL_UP_0), op: RegisterOp::Read, scope },
        RegisterStep { register: gpio_register_for_group(g, REG_PULL_DOWN_0), op: RegisterOp::Read, scope },
    ))
}

/// Plan of enabling or disabling open-drain output on `pin`.
pub fn set_open_drain_plan(c: &Capabilities, pin: GpioPin, enable: bool) -> (r: Result<RegisterPlan>)
    ensures
        pin_checked(*c, pin@, r),
        r is Ok ==> plan_of(r, pin_set_steps(pin@, REG_OPEN_DRAIN_0, enable)),
{
    pin_set_plan(c, pin, REG_OPEN_DRAIN_0, enable)
}

/// Plan of reading whether `pin` is open-drain.
pub fn is_open_drain_plan(c: &Capabilities, pin: GpioPin) -> (r: Result<RegisterPlan>)
    ensures
        pin_checked(*c, pin@, r),
        r is Ok ==> plan_of(r, pin_read_steps(pin@, REG_OPEN_DRAIN_0)),
{
    pin_read_plan(c, pin, REG_OPEN_DRAIN_0)
}

/// Plan of enabling or disabling tri-state on `pin`.
pub fn set_tri_state_plan(c: &Capabilities, pin: GpioPin, enable: bool) -> (r: Result<RegisterPlan>)
    ensures
        pin_checked(*c, pin@, r),
        r is Ok ==> plan_of(r, pin_set_steps(pin@, REG_TRI_STATE_0, enable)),
{
    pin_set_plan(c, pin, REG_TRI_STATE_0, enable)
}

/// Plan of reading whether `pin` is tri-stated.
pub fn is_tri_stated_plan(c: &Capabilities, pin: GpioPin) -> (r: Result<RegisterPlan>)
    ensures
        pin_checked(*c, pin@, r),
        r is Ok ==> plan_of(r, pin_read_steps(pin@, REG_TRI_STATE_0)),
{
    pin_read_plan(c, pin, REG_TRI_STATE_0)
}

/// Whether any bit of `mask` is set in `value`.
pub open spec fn bit_set(value: u16, mask: u16) -> bool {
    value & mask != 0
}

/// Direction encoded by the direction register value `value` for `pin`.
pub open spec fn direction_of(value: u16, pin: u8) -> GpioDirection {
    if bit_set(value, pin_mask(pin)) {
        GpioDirection::Output
    } else {
        GpioDirection::Input
    }
}

/// Level encoded by the state register value `value` for `pin`.
pub open spec fn level_of(value: u16, pin: u8) -> GpioLevel {
    if bit_set(value, pin_mask(pin)) {
        GpioLevel::High
    } else {
        GpioLevel::Low
    }
}

/// Pull encoded by the pull-up and pull-down register values for `pin`; both or neither is `Floating`.
pub open spec fn pull_of(up: u16, down: u16, pin: u8) -> GpioPull {
    let has_up = bit_set(up, pin_mask(pin));
    let has_down = bit_set(down, pin_mask(pin));
    if has_up && !has_down {
        GpioPull::Up
    } else if !has_up && has_down {
        GpioPull::Down
    } else {
        GpioPull::Floating
    }
}

/// Whether `pin`'s bit is set in the register value `value`.
pub fn pin_bit_set(value: u16, pin: GpioPin) -> (b: bool)
    ensures
        b == bit_set(value, pin_mask(pin@)),
{
    (value & pin.mask()) != 0
}

/// The direction of `pin` given its direction register value.
pub fn direction_from_register(value: u16, pin: GpioPin) -> (d: GpioDirection)
    ensures
        d == direction_of(value, pin@),
{
    if pin_bit_set(value, pin) {
        GpioDirection::Output
    } else {
        GpioDirection::Input
    }
}

/// The level of `pin` given its state register value.
pub fn level_from_state(value: u16, pin: GpioPin) -> (l: GpioLevel)
    ensures
        l == level_of(value, pin@),
{
    if pin_bit_set(value, pin) {
        GpioLevel::High
    } else {
        GpioLevel::Low
    }
}

/// The pull of `pin` given its pull-up and pull-down register values.
pub fn pull_from_registers(up: u16, down: u16, pin: GpioPin) -> (p: GpioPull)
    ensures
        p == pull_of(up, down, pin@),
{
    let has_up = pin_bit_set(up, pin);
    let has_down = pin_bit_set(down, pin);
    if has_up && !has_down {
        GpioPull::Up
    } else if !has_up && has_down {
        GpioPull::Down
    } else {
        GpioPull::Floating
    }
}


/// Steps of setting or clearing `mask` in `group`'s register at group-0 address `base`.
pub open spec fn group_set_steps(g: GpioGroup, base: u16, mask: u16, enable: bool) -> Seq<RegisterStep> {
    seq![set_bits_step(group_register(g, base), mask, enable, ErrorScope::Group(g))]
}

/// Plan of setting or clearing `mask` in `group`'s register at group-0 address `base`.
fn group_set_plan(c: &Capabilities, group: GpioGroup, base: u16, mask: u16, enable: bool) -> (r: Result<RegisterPlan>)
    requires
        base <= 0xFFF3,
    ensures
        group_checked(*c, group, r),
        r is Ok ==> plan_of(r, group_set_steps(group, base, mask, enable)),
{
    c.check_gpio_group_support(group)?;
    let reg = gpio_register_for_group(group, base);
    Ok(single(set_bits(reg, mask, enable, ErrorScope::Group(group))))
}

/// Plan of setting the direction of the pins in `mask` of `group`.
pub fn set_direction_masked_plan(c: &Capabilities, group: GpioGroup, mask: u16, direction: GpioDirection) -> (r: Result<RegisterPlan>)
    ensures
        group_checked(*c, group, r),
        r is Ok ==> plan_of(r, group_set_steps(group, REG_DIR_0, mask, direction == GpioDirection::Output)),
{
    group_set_plan(c, group, REG_DIR_0, mask, direction == GpioDirection::Output)
}

/// Steps of driving the pins in `mask` of `group` to the levels in `values`: the pins to raise
/// are written to the SET register, then the pins to lower to the CLEAR register, each write
/// left out when it has no pin.
pub open spec fn write_masked_steps(g: GpioGroup, mask: u16, values: u16) -> Seq<RegisterStep> {
    let set_mask = mask & values;
    let clear_mask = mask & !values;
    let sets = if set_mask != 0 {
        seq![write_step(group_register(g, REG_SET_0), set_mask, ErrorScope::Group(g))]
    } else {
        Seq::empty()
    };
    let clears = if clear_mask != 0 {
        seq![write_step(group_register(g, REG_CLEAR_0), clear_mask, ErrorScope::Group(g))]
    } else {
        Seq::empty()
    };
    sets + clears
}

/// Plan of driving the pins in `mask` of `group` to the levels in `values` (1 = high).
pub fn write_masked_plan(c: &Capabilities, group: GpioGroup, mask: u16, values: u16) -> (r: Result<RegisterPlan>)
    ensures
        group_checked(*c, group, r),
        r is Ok ==> plan_of(r, write_masked_steps(group, mask, values)),
{
    c.check_gpio_group_support(group)?;
    let (reg_set, reg_clear) = gpio_group_set_clear_registers(group);
    let set_mask = mask & values;
    let clear_mask = mask & !values;
    let mut steps: Vec<RegisterStep> = Vec::new();
    if set_mask != 0 {
        steps.push(RegisterStep { register: reg_set, op: RegisterOp::Write(set_mask), scope: ErrorScope::Group(group) });
    }
    if clear_mask != 0 {
        steps.push(RegisterStep { register: reg_clear, op: RegisterOp::Write(clear_mask), scope: ErrorScope::Group(group) });
    }
    assert(steps@ =~= write_masked_steps(group, mask, values));
    Ok(RegisterPlan { steps, failure: None })
}

/// Steps of reading the state register of `group`.
pub open spec fn read_group_steps(g: GpioGroup) -> Seq<RegisterStep> {
    seq![read_step(group_register(g, REG_STATE_0), ErrorScope::Group(g))]
}

/// Plan of reading the levels of all pins of `group`.
pub fn read_group_plan(c: &Capabilities, group: GpioGroup) -> (r: Result<RegisterPlan>)
    ensures
        group_checked(*c, group, r),
        r is Ok ==> plan_of(r, read_group_steps(group)),
{
    c.check_gpio_group_support(group)?;
    let reg = gpio_register_for_group(group, REG_STATE_0);
    Ok(single(RegisterStep { register: reg, op: RegisterOp::Read, scope: ErrorScope::Group(group) }))
}

/// Steps of setting the pull of the pins in `mask` of `group`; failures are reported unchanged.
pub open spec fn group_pull_steps(g: GpioGroup, mask: u16, pull: GpioPull) -> Seq<RegisterStep> {
    pull_steps(group_register(g, REG_PULL_UP_0), group_register(g, REG_PULL_DOWN_0), mask, pull, ErrorScope::Device)
}

/// The two steps of setting the pull of the pins in `mask` of `group`.
fn push_group_pull(steps: &mut Vec<RegisterStep>, group: GpioGroup, mask: u16, pull: GpioPull)
    ensures
        final(steps)@ == old(steps)@ + group_pull_steps(group, mask, pull),
{
    let up = gpio_register_for_group(group, REG_PULL_UP_0);
    let down = gpio_register_for_group(group, REG_PULL_DOWN_0);
    steps.push(set_bits(up, mask, pull == GpioPull::Up, ErrorScope::Device));
    steps.push(set_bits(down, mask, pull == GpioPull::Down, ErrorScope::Device));
    assert(final(steps)@ =~= old(steps)@ + group_pull_steps(group, mask, pull));
}

/// Plan of setting the pull of the pins in `mask` of `group`.
pub fn set_pull_masked_plan(c: &Capabilities, group: GpioGroup, mask: u16, pull: GpioPull) -> (r: Result<RegisterPlan>)
    ensures
        group_checked(*c, group, r),
        r is Ok ==> plan_of(r, group_pull_steps(group, mask, pull)),
{
    c.check_gpio_group_support(group)?;
    let mut steps: Vec<RegisterStep> = Vec::new();
    push_group_pull(&mut steps, group, mask, pull);
    assert(steps@ =~= group_pull_steps(group, mask, pull));
    Ok(RegisterPlan { steps, failure: None })
}

/// Plan of enabling or disabling open-drain output on the pins in `mask` of `group`.
pub fn set_open_drain_masked_plan(c: &Capabilities, group: GpioGroup, mask: u16, enable: bool) -> (r: Result<RegisterPlan>)
    ensures
        group_checked(*c, group, r),
        r is Ok ==> plan_of(r, group_set_steps(group, REG_OPEN_DRAIN_0, mask, enable)),
{
    group_set_plan(c, group, REG_OPEN_DRAIN_0, mask, enable)
}

/// Plan of enabling or disabling tri-state on the pins in `mask` of `group`.
pub fn set_tri_state_masked_plan(c: &Capabilities, group: GpioGroup, mask: u16, enable: bool) -> (r: Result<RegisterPlan>)
    ensures
        group_checked(*c, group, r),
        r is Ok ==> plan_of(r, group_set_steps(group, REG_TRI_STATE_0, mask, enable)),
{
    group_set_plan(c, group, REG_TRI_STATE_0, mask, enable)
}

/// Steps that configure `pin` with `pull` and `direction`: pull first, then direction.
pub open spec fn setup_steps(pin: u8, direction: GpioDirection, pull: GpioPull) -> Seq<RegisterStep> {
    group_pull_steps(group_of(pin), pin_mask(pin), pull)
        + group_set_steps(group_of(pin), REG_DIR_0, pin_mask(pin), direction == GpioDirection::Output)
}

/// Plan of the register part of setting up one pin: its pull, then its direction.
///
/// For an output, the initial level is written afterwards with the configured write behaviour.
pub fn setup_plan(c: &Capabilities, pin: GpioPin, direction: GpioDirection, pull: GpioPull) -> (r: Result<RegisterPlan>)
    ensures
        pin_checked(*c, pin@, r),
        r is Ok ==> plan_of(r, setup_steps(pin@, direction, pull)),
{
    c.check_gpio_pin_support(pin)?;
    let g = pin_group(pin);
    let mut steps: Vec<RegisterStep> = Vec::new();
    push_group_pull(&mut steps, g, pin.mask(), pull);
    steps.push(set_bits(gpio_register_for_group(g, REG_DIR_0), pin.mask(), direction == GpioDirection::Output, ErrorScope::Group(g)));
    assert(steps@ =~= setup_steps(pin@, direction, pull));
    Ok(RegisterPlan { steps, failure: None })
}


/// Numbers of the pins in `pins`.
pub open spec fn pin_numbers(pins: Seq<GpioPin>) -> Seq<u8> {
    pins.map_values(|p: GpioPin| p@)
}

/// The bits of the pins of `pins` that belong to group `g`.
pub open spec fn group_mask(pins: Seq<u8>, g: GpioGroup) -> u16
    decreases pins.len(),
{
    if pins.len() == 0 {
        0
    } else {
        let rest = group_mask(pins.drop_last(), g);
        if group_of(pins.last()) == g {
            rest | pin_mask(pins.last())
        } else {
            rest
        }
    }
}

/// Steps of configuring the pins of masks `m0` (group 0) and `m1` (group 1) in bulk: the pull of
/// each group that has pins, then the direction of each such group.
pub open spec fn bulk_steps(m0: u16, m1: u16, direction: GpioDirection, pull: GpioPull) -> Seq<RegisterStep> {
    let out = direction == GpioDirection::Output;
    (if m0 != 0 { group_pull_steps(GpioGroup::Group0, m0, pull) } else { Seq::empty() })
        + (if m1 != 0 { group_pull_steps(GpioGroup::Group1, m1, pull) } else { Seq::empty() })
        + (if m0 != 0 { group_set_steps(GpioGroup::Group0, REG_DIR_0, m0, out) } else { Seq::empty() })
        + (if m1 != 0 { group_set_steps(GpioGroup::Group1, REG_DIR_0, m1, out) } else { Seq::empty() })
}

/// Plan of configuring several pins alike, one register update per group and setting.
///
/// Every pin is checked first; the first one the device lacks is refused. The initial levels of
/// outputs are written afterwards, pin by pin.
pub fn bulk_config_plan(c: &Capabilities, pins: &[GpioPin], direction: GpioDirection, pull: GpioPull) -> (r: Result<RegisterPlan>)
    ensures
        (forall|i: int| 0 <= i < pins@.len() ==> supports_pin(*c, #[trigger] pins@[i]@)) <==> r is Ok,
        r matches Err(e) ==> exists|i: int|
            #![trigger pins@[i]]
            0 <= i < pins@.len() && !supports_pin(*c, pins@[i]@) && (forall|j: int|
                0 <= j < i ==> supports_pin(*c, #[trigger] pins@[j]@)) && (e matches Error::UnsupportedFeature(m)
                && m@ == pin_unavailable_text(pins@[i]@)),
        r is Ok ==> plan_of(
            r,
            bulk_steps(
                group_mask(pin_numbers(pins@), GpioGroup::Group0),
                group_mask(pin_numbers(pins@), GpioGroup::Group1),
                direction,
                pull,
            ),
        ),
{
    let n = pins.len();
    let mut i: usize = 0;
    while i < n
        invariant
            n == pins@.len(),
            i <= n,
            forall|j: int| 0 <= j < i ==> supports_pin(*c, #[trigger] pins@[j]@),
        decreases n - i,
    {
        match c.check_gpio_pin_support(pins[i]) {
            Ok(()) => {},
            Err(e) => {
                assert(pins@[i as int] == pins[i as int]);
                return Err(e);
            },
        }
        i = i + 1;
    }
    let ghost nums = pin_numbers(pins@);
    let mut m0: u16 = 0;
    let mut m1: u16 = 0;
    let mut k: usize = 0;
    while k < n
        invariant
            n == pins@.len(),
            nums == pin_numbers(pins@),
            k <= n,
            m0 == group_mask(nums.take(k as int), GpioGroup::Group0),
            m1 == group_mask(nums.take(k as int), GpioGroup::Group1),
        decreases n - k,
    {
        let p = pins[k];
        assert(nums.take(k + 1).drop_last() =~= nums.take(k as int));
        assert(nums.take(k + 1).last() == p@);
        if p.group_index() == 0 {
            m0 = m0 | p.mask();
        } else {
            m1 = m1 | p.mask();
        }
        k = k + 1;
    }
    assert(nums.take(n as int) =~= nums);
    let mut steps: Vec<RegisterStep> = Vec::new();
    if m0 != 0 {
        push_group_pull(&mut steps, GpioGroup::Group0, m0, pull);
    }
    if m1 != 0 {
        push_group_pull(&mut steps, GpioGroup::Group1, m1, pull);
    }
    let out = direction == GpioDirection::Output;
    if m0 != 0 {
        steps.push(set_bits(REG_DIR_0, m0, out, ErrorScope::Group(GpioGroup::Group0)));
    }
    if m1 != 0 {
        steps.push(set_bits(gpio_register_for_group(GpioGroup::Group1, REG_DIR_0), m1, out, ErrorScope::Group(GpioGroup::Group1)));
    }
    assert(steps@ =~= bulk_steps(m0, m1, direction, pull));
    Ok(RegisterPlan { steps, failure: None })
}

/// The initial levels to write after a bulk configuration: those given, for outputs only.
pub fn initial_levels_for<'a>(direction: GpioDirection, levels: Option<&'a [(GpioPin, GpioLevel)]>) -> (r: Option<&'a [(GpioPin, GpioLevel)]>)
    ensures
        r == (if direction == GpioDirection::Output { levels } else { None }),
{
    match direction {
        GpioDirection::Output => levels,
        GpioDirection::Input => None,
    }
}

/// The pins of a list of (pin, initial level) pairs, in order.
pub fn pins_of(configs: &[(GpioPin, GpioLevel)]) -> (pins: Vec<GpioPin>)
    ensures
        pins@ == configs@.map_values(|c: (GpioPin, GpioLevel)| c.0),
{
    let mut pins: Vec<GpioPin> = Vec::new();
    let mut i: usize = 0;
    while i < configs.len()
        invariant
            i <= configs@.len(),
            pins@ == configs@.take(i as int).map_values(|c: (GpioPin, GpioLevel)| c.0),
        decreases configs@.len() - i,
    {
        pins.push(configs[i].0);
        assert(configs@.take(i + 1) =~= configs@.take(i as int).push(configs@[i as int]));
        i = i + 1;
        assert(pins@ =~= configs@.take(i as int).map_values(|c: (GpioPin, GpioLevel)| c.0));
    }
    assert(configs@.take(i as int) =~= configs@);
    pins
}


/// The duration of `millis` milliseconds, as `Duration::from_millis` makes it.
pub uninterp spec fn duration_from_millis(millis: u64) -> core::time::Duration;

/// Calls `Duration::from_millis`; the result is the duration of that many milliseconds,
/// which depends on the argument alone.
#[verifier::external_body]
fn millis(ms: u64) -> (d: core::time::Duration)
    ensures
        d == duration_from_millis(ms),
{
    core::time::Duration::from_millis(ms)
}

/// `Duration` is `Copy`; its `clone` returns an equal duration.
pub assume_specification[ <core::time::Duration as Clone>::clone ](d: &core::time::Duration) -> (r: core::time::Duration)
    ensures
        r == *d,
;

/// How GPIO writes are checked and retried.
#[derive(Debug, Clone)]
pub struct GpioWriteConfig {
    /// Whether to read the pin back after writing it.
    pub verify_writes: bool,
    /// Number of retries after a failed attempt (0 = a single attempt).
    pub retry_attempts: u32,
    /// Pause between attempts.
    pub retry_delay: core::time::Duration,
    /// Time budget of the whole write, retries included.
    pub operation_timeout: core::time::Duration,
}

impl Default for GpioWriteConfig {
    /// No verification, no retries, 10 ms between attempts, 1 s budget.
    fn default() -> (c: Self)
        ensures
            !c.verify_writes,
            c.retry_attempts == 0,
            c.retry_delay == duration_from_millis(10),
            c.operation_timeout == duration_from_millis(1000),
    {
        GpioWriteConfig {
            verify_writes: false,
            retry_attempts: 0,
            retry_delay: millis(10),
            operation_timeout: millis(1000),
        }
    }
}

impl GpioWriteConfig {
    /// Verified writes with 3 retries, 20 ms apart, within 1 s.
    pub fn reliable() -> (c: Self)
        ensures
            c.verify_writes,
            c.retry_attempts == 3,
            c.retry_delay == duration_from_millis(20),
            c.operation_timeout == duration_from_millis(1000),
    {
        GpioWriteConfig {
            verify_writes: true,
            retry_attempts: 3,
            retry_delay: millis(20),
            operation_timeout: millis(1000),
        }
    }

    /// Unchecked writes: the default configuration.
    pub fn fast() -> (c: Self)
        ensures
            !c.verify_writes,
            c.retry_attempts == 0,
            c.retry_delay == duration_from_millis(10),
            c.operation_timeout == duration_from_millis(1000),
    {
        Self::default()
    }

    /// Whether a write under this configuration goes through verification and retries rather
    /// than a single unchecked write.
    pub fn checks_writes(&self) -> (b: bool)
        ensures
            b == (self.verify_writes || self.retry_attempts > 0),
    {
        self.verify_writes || self.retry_attempts > 0
    }
}

} // verus!
