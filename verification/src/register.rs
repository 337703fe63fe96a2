//! Register access plans and the machine that carries one out over the HID feature reports.
//!
//! Every configuration operation of the bridge is a short sequence of register reads and
//! writes. A [`RegisterPlan`] names that sequence; a [`PlanRunner`] decides, one bus result at
//! a time, which register access comes next and what the operation returns. The caller only
//! performs the accesses it is asked for and hands back their results.
use crate::consts::{
    I2C_REG_FIRST, I2C_REG_LAST, REPORT_ID_READ_HID_REGISTER, REPORT_ID_SET_HID_READ_ADDRESS,
    REPORT_ID_WRITE_HID_REGISTER,
};
use crate::error::{gpio_register_read_error, gpio_register_write_error, Error, Result};
use crate::gpio::GpioGroup;
use vstd::prelude::*;

verus! {

/// The HID interface a register is reached through.
#[derive(Debug, Clone, Copy, PartialEq, Eq, Structural)]
pub enum RegisterInterface {
    /// The I2C interface (registers 0x0340-0x0342).
    I2c,
    /// The EDGE interface (GPIO, PWM and interrupt registers).
    Edge,
}

/// Which interface serves `register`.
pub open spec fn interface_of(register: u16) -> RegisterInterface {
    if I2C_REG_FIRST <= register <= I2C_REG_LAST {
        RegisterInterface::I2c
    } else {
        RegisterInterface::Edge
    }
}

/// Chooses the interface that serves `register`.
pub fn register_interface(register: u16) -> (i: RegisterInterface)
    ensures
        i == interface_of(register),
{
    if I2C_REG_FIRST <= register && register <= I2C_REG_LAST {
        RegisterInterface::I2c
    } else {
        RegisterInterface::Edge
    }
}

/// The feature report that writes `value` to `register`: report ID, address and value, both little-endian.
pub fn write_register_report(register: u16, value: u16) -> (buf: [u8; 5])
    ensures
        buf@ == seq![
            REPORT_ID_WRITE_HID_REGISTER,
            (register & 0xFF) as u8,
            ((register >> 8) & 0xFF) as u8,
            (value & 0xFF) as u8,
            ((value >> 8) & 0xFF) as u8,
        ],
{
    [
        REPORT_ID_WRITE_HID_REGISTER,
        (register & 0xFF) as u8,
        ((register >> 8) & 0xFF) as u8,
        (value & 0xFF) as u8,
        ((value >> 8) & 0xFF) as u8,
    ]
}

/// The feature report that selects `register` for the next read.
pub fn read_address_report(register: u16) -> (buf: [u8; 3])
    ensures
        buf@ == seq![
            REPORT_ID_SET_HID_READ_ADDRESS,
            (register & 0xFF) as u8,
            ((register >> 8) & 0xFF) as u8,
        ],
{
    [REPORT_ID_SET_HID_READ_ADDRESS, (register & 0xFF) as u8, ((register >> 8) & 0xFF) as u8]
}

/// The buffer a register value is read into: the read report ID, then room for the value.
pub fn read_register_request() -> (buf: [u8; 3])
    ensures
        buf@ == seq![REPORT_ID_READ_HID_REGISTER, 0u8, 0u8],
{
    [REPORT_ID_READ_HID_REGISTER, 0, 0]
}

/// What a register read returns, given the length the feature report came back with and the buffer.
pub open spec fn register_reply(len: usize, buf: Seq<u8>) -> Option<u16> {
    if len == 3 && buf.len() == 3 && buf[0] == REPORT_ID_READ_HID_REGISTER {
        Some((buf[1] as u16 | ((buf[2] as u16) << 8)) as u16)
    } else {
        None
    }
}

/// Decodes the reply to a register read.
///
/// A reply of three bytes that starts with the read report ID carries the value, little-endian.
/// A reply of another length is `InvalidReport(len)`; one with another report ID is
/// `InvalidReport(id)`; a failed transfer is `Hid`.
pub fn decode_register_reply(reply: core::result::Result<usize, hidapi::HidError>, buf: &[u8; 3]) -> (r: Result<u16>)
    ensures
        match reply {
            Err(h) => r == Err::<u16, Error>(Error::Hid(h)),
            Ok(len) => {
                if len != 3 {
                    r == Err::<u16, Error>(Error::InvalidReport(len))
                } else if buf@[0] != REPORT_ID_READ_HID_REGISTER {
                    r == Err::<u16, Error>(Error::InvalidReport(buf@[0] as usize))
                } else {
                    r == Ok::<u16, Error>(register_reply(len, buf@)->0)
                }
            },
        },
{
    match reply {
        Err(h) => Err(Error::Hid(h)),
        Ok(len) => {
            if len != 3 {
                Err(Error::InvalidReport(len))
            } else if buf[0] != REPORT_ID_READ_HID_REGISTER {
                Err(Error::InvalidReport(buf[0] as usize))
            } else {
                Ok(buf[1] as u16 | ((buf[2] as u16) << 8))
            }
        },
    }
}


/// How a failed register access is reported.
#[derive(Debug, Clone, Copy, PartialEq, Eq, Structural)]
pub enum ErrorScope {
    /// The failure is returned unchanged.
    Device,
    /// HID failures are reported as GPIO register errors of this pin.
    Pin(u8),
    /// HID failures are reported as GPIO register errors of this group.
    Group(GpioGroup),
}

/// One register access.
#[derive(Debug, Clone, Copy, PartialEq, Eq, Structural)]
pub enum RegisterOp {
    /// Read the register; its value becomes part of the result.
    Read,
    /// Write this value.
    Write(u16),
    /// Read the register, then write back `(value & !clear) | set`.
    Update {
        /// Bits to clear.
        clear: u16,
        /// Bits to set.
        set: u16,
    },
}

/// One step of a plan: an access to a register, and how its failure is reported.
#[derive(Debug, Clone, Copy, PartialEq, Eq, Structural)]
pub struct RegisterStep {
    /// The register address.
    pub register: u16,
    /// The access.
    pub op: RegisterOp,
    /// How a failure of this access is reported.
    pub scope: ErrorScope,
}

/// A sequence of register accesses, and the error returned once they have all succeeded, if any.
#[derive(Debug)]
pub struct RegisterPlan {
    /// The accesses, in order.
    pub steps: Vec<RegisterStep>,
    /// The error returned after the last access, if the operation fails there.
    pub failure: Option<Error>,
}

/// The value an update writes back.
pub open spec fn updated_value(current: u16, clear: u16, set: u16) -> u16 {
    (current & !clear) | set
}

/// A step that reads `register`.
pub open spec fn read_step(register: u16, scope: ErrorScope) -> RegisterStep {
    RegisterStep { register, op: RegisterOp::Read, scope }
}

/// A step that writes `value` to `register`.
pub open spec fn write_step(register: u16, value: u16, scope: ErrorScope) -> RegisterStep {
    RegisterStep { register, op: RegisterOp::Write(value), scope }
}

/// A step that updates `register`.
pub open spec fn update_step(register: u16, clear: u16, set: u16, scope: ErrorScope) -> RegisterStep {
    RegisterStep { register, op: RegisterOp::Update { clear, set }, scope }
}

/// Effect of a step on a register file, and the value it contributes to the result, if any.
pub open spec fn step_effect(regs: Map<u16, u16>, s: RegisterStep) -> (Map<u16, u16>, Option<u16>) {
    match s.op {
        RegisterOp::Read => (regs, Some(regs[s.register])),
        RegisterOp::Write(v) => (regs.insert(s.register, v), None),
        RegisterOp::Update { clear, set } => (
            regs.insert(s.register, updated_value(regs[s.register], clear, set)),
            None,
        ),
    }
}

/// Register file after `steps`, and the values they read, when every access succeeds.
///
/// This is the meaning of a plan on a device whose registers hold what was last written.
pub open spec fn run_steps(regs: Map<u16, u16>, steps: Seq<RegisterStep>) -> (Map<u16, u16>, Seq<u16>)
    decreases steps.len(),
{
    if steps.len() == 0 {
        (regs, seq![])
    } else {
        let (r1, out) = step_effect(regs, steps[0]);
        let (r2, rest) = run_steps(r1, steps.drop_first());
        match out {
            Some(v) => (r2, seq![v] + rest),
            None => (r2, rest),
        }
    }
}

/// Register file after `steps`.
pub open spec fn registers_after(regs: Map<u16, u16>, steps: Seq<RegisterStep>) -> Map<u16, u16> {
    run_steps(regs, steps).0
}

/// Values read by `steps`.
pub open spec fn values_read(regs: Map<u16, u16>, steps: Seq<RegisterStep>) -> Seq<u16> {
    run_steps(regs, steps).1
}

/// Number of a group in error reports: 0 or 1.
pub open spec fn group_number(g: GpioGroup) -> u8 {
    match g {
        GpioGroup::Group0 => 0,
        GpioGroup::Group1 => 1,
    }
}

/// Prefix of the message of a HID failure in pin scope.
pub open spec fn pin_hid_prefix() -> Seq<char> {
    "HID communication error: "@
}

/// Prefix of the message of a HID failure in group scope.
pub open spec fn group_hid_prefix(g: GpioGroup) -> Seq<char> {
    match g {
        GpioGroup::Group0 => "HID communication error for GPIO group Group0: "@,
        GpioGroup::Group1 => "HID communication error for GPIO group Group1: "@,
    }
}

/// Message of an invalid report during a read in pin scope.
pub open spec fn pin_invalid_read_text() -> Seq<char> {
    "Invalid HID report received - check device connection"@
}

/// Message of an invalid report during a write in pin scope.
pub open spec fn pin_invalid_write_text() -> Seq<char> {
    "Invalid HID report received - check device connection and power"@
}

/// Message of an invalid report in group scope.
pub open spec fn group_invalid_text(g: GpioGroup) -> Seq<char> {
    match g {
        GpioGroup::Group0 => "Invalid HID report for GPIO group Group0 - check device connection and power"@,
        GpioGroup::Group1 => "Invalid HID report for GPIO group Group1 - check device connection and power"@,
    }
}

/// `message` is `prefix` followed by the display text of the HID error `h`.
pub open spec fn hid_message(message: String, prefix: Seq<char>, h: hidapi::HidError) -> bool {
    exists|t: String|
        #![trigger vstd::string::to_string_from_display_ensures::<hidapi::HidError>(&h, t)]
        vstd::string::to_string_from_display_ensures::<hidapi::HidError>(&h, t) && message@ == prefix + t@
}

/// How the failure `cause` of an access to `register` in `scope` is reported; `is_read` tells a
/// read from a write.
pub open spec fn scoped_error(scope: ErrorScope, register: u16, is_read: bool, cause: Error, reported: Error) -> bool {
    let (pin, hid_prefix, invalid_text) = match scope {
        ErrorScope::Device => (0u8, Seq::<char>::empty(), Seq::<char>::empty()),
        ErrorScope::Pin(p) => (
            p,
            pin_hid_prefix(),
            if is_read { pin_invalid_read_text() } else { pin_invalid_write_text() },
        ),
        ErrorScope::Group(g) => (group_number(g), group_hid_prefix(g), group_invalid_text(g)),
    };
    match scope {
        ErrorScope::Device => reported == cause,
        _ => match cause {
            Error::Hid(h) => if is_read {
                reported matches Error::GpioRegisterReadError { pin: p, register: r, message: m }
                    && p == pin && r == register && hid_message(m, hid_prefix, h)
            } else {
                reported matches Error::GpioRegisterWriteError { pin: p, register: r, message: m }
                    && p == pin && r == register && hid_message(m, hid_prefix, h)
            },
            Error::InvalidReport(_) => if is_read {
                reported matches Error::GpioRegisterReadError { pin: p, register: r, message: m }
                    && p == pin && r == register && m@ == invalid_text
            } else {
                reported matches Error::GpioRegisterWriteError { pin: p, register: r, message: m }
                    && p == pin && r == register && m@ == invalid_text
            },
            _ => reported == cause,
        },
    }
}

/// Builds the message `prefix` followed by the display text of `h`.
fn hid_failure_message(prefix: &str, h: &hidapi::HidError) -> (m: String)
    ensures
        hid_message(m, prefix@, *h),
{
    let t = h.to_string();
    let mut m = String::from_str(prefix);
    m.append(t.as_str());
    m
}

/// Reports the failure `cause` of an access to `register` in `scope`.
pub fn report_failure(scope: ErrorScope, register: u16, is_read: bool, cause: Error) -> (e: Error)
    ensures
        scoped_error(scope, register, is_read, cause, e),
{
    match scope {
        ErrorScope::Device => cause,
        ErrorScope::Pin(p) => match cause {
            Error::Hid(h) => {
                let m = hid_failure_message("HID communication error: ", &h);
                if is_read {
                    gpio_register_read_error(p, register, m)
                } else {
                    gpio_register_write_error(p, register, m)
                }
            },
            Error::InvalidReport(_) => {
                if is_read {
                    gpio_register_read_error(
                        p,
                        register,
                        String::from_str("Invalid HID report received - check device connection"),
                    )
                } else {
                    gpio_register_write_error(
                        p,
                        register,
                        String::from_str("Invalid HID report received - check device connection and power"),
                    )
                }
            },
            other => other,
        },
        ErrorScope::Group(g) => {
            let pin: u8 = match g {
                GpioGroup::Group0 => 0,
                GpioGroup::Group1 => 1,
            };
            match cause {
                Error::Hid(h) => {
                    let prefix = match g {
                        GpioGroup::Group0 => "HID communication error for GPIO group Group0: ",
                        GpioGroup::Group1 => "HID communication error for GPIO group Group1: ",
                    };
                    let m = hid_failure_message(prefix, &h);
                    if is_read {
                        gpio_register_read_error(pin, register, m)
                    } else {
                        gpio_register_write_error(pin, register, m)
                    }
                },
                Error::InvalidReport(_) => {
                    let text = match g {
                        GpioGroup::Group0 => "Invalid HID report for GPIO group Group0 - check device connection and power",
                        GpioGroup::Group1 => "Invalid HID report for GPIO group Group1 - check device connection and power",
                    };
                    if is_read {
                        gpio_register_read_error(pin, register, String::from_str(text))
                    } else {
                        gpio_register_write_error(pin, register, String::from_str(text))
                    }
                },
                other => other,
            }
        },
    }
}


/// What a [`PlanRunner`] waits for.
#[derive(Debug, Clone, Copy, PartialEq, Eq, Structural)]
pub enum Awaiting {
    /// The result of the register read it asked for.
    ReadResult,
    /// The result of the register write it asked for.
    WriteResult,
    /// Nothing: the plan has finished.
    Nothing,
}

/// What the caller of a [`PlanRunner`] does next.
#[derive(Debug)]
pub enum BusAction {
    /// Read this register and hand the result to [`PlanRunner::on_read`].
    ReadRegister(u16),
    /// Write this value to this register and hand the result to [`PlanRunner::on_write`].
    WriteRegister(u16, u16),
    /// The operation is over: the values read by its `Read` steps, or its error.
    Finished(Result<Vec<u16>>),
}

/// Carries out a [`RegisterPlan`] one register access at a time.
#[derive(Debug)]
pub struct PlanRunner {
    steps: Vec<RegisterStep>,
    failure: Option<Error>,
    index: usize,
    reads: Vec<u16>,
    awaiting: Awaiting,
}

/// The action a runner in state `r` issues, given the failure its plan ends with.
pub open spec fn issues(r: PlanRunner, failure: Option<Error>, action: BusAction) -> bool {
    if r.index() == r.steps().len() {
        &&& r.awaiting() == Awaiting::Nothing
        &&& match failure {
            Some(e) => action == BusAction::Finished(Err(e)),
            None => action matches BusAction::Finished(Ok(v)) && v@ == r.reads(),
        }
    } else {
        let s = r.steps()[r.index() as int];
        match s.op {
            RegisterOp::Write(v) => action == BusAction::WriteRegister(s.register, v) && r.awaiting()
                == Awaiting::WriteResult,
            _ => action == BusAction::ReadRegister(s.register) && r.awaiting() == Awaiting::ReadResult,
        }
    }
}

/// What a runner `r` waiting for a read becomes, and asks for next, given the read's `result`.
///
/// A failed read ends the operation with the failure reported in the step's scope. A
/// successful `Read` records the value and moves to the next step; a successful read of an
/// `Update` asks to write the updated value back.
pub open spec fn read_outcome(r: PlanRunner, result: Result<u16>, next: PlanRunner, action: BusAction) -> bool {
    let s = r.steps()[r.index() as int];
    &&& next.steps() == r.steps()
    &&& match result {
        Err(cause) => action matches BusAction::Finished(Err(e)) && scoped_error(s.scope, s.register, true, cause, e)
            && next.awaiting() == Awaiting::Nothing,
        Ok(v) => match s.op {
            RegisterOp::Update { clear, set } => {
                &&& action == BusAction::WriteRegister(s.register, updated_value(v, clear, set))
                &&& next.awaiting() == Awaiting::WriteResult
                &&& next.index() == r.index()
                &&& next.reads() == r.reads()
                &&& next.failure() == r.failure()
            },
            _ => {
                &&& next.index() == r.index() + 1
                &&& next.reads() == r.reads().push(v)
                &&& issues(next, r.failure(), action)
                &&& next.index() < next.steps().len() ==> next.failure() == r.failure()
            },
        },
    }
}

/// What a runner `r` waiting for a write becomes, and asks for next, given the write's `result`.
///
/// A failed write ends the operation with the failure reported in the step's scope; a
/// successful one moves to the next step.
pub open spec fn write_outcome(r: PlanRunner, result: Result<()>, next: PlanRunner, action: BusAction) -> bool {
    let s = r.steps()[r.index() as int];
    &&& next.steps() == r.steps()
    &&& match result {
        Err(cause) => action matches BusAction::Finished(Err(e)) && scoped_error(s.scope, s.register, false, cause, e)
            && next.awaiting() == Awaiting::Nothing,
        Ok(_) => {
            &&& next.index() == r.index() + 1
            &&& next.reads() == r.reads()
            &&& issues(next, r.failure(), action)
            &&& next.index() < next.steps().len() ==> next.failure() == r.failure()
        },
    }
}

impl PlanRunner {
    /// The steps of the plan.
    pub closed spec fn steps(&self) -> Seq<RegisterStep> {
        self.steps@
    }

    /// Index of the step in progress.
    pub closed spec fn index(&self) -> nat {
        self.index as nat
    }

    /// Values read so far by `Read` steps.
    pub closed spec fn reads(&self) -> Seq<u16> {
        self.reads@
    }

    /// What the runner waits for.
    pub closed spec fn awaiting(&self) -> Awaiting {
        self.awaiting
    }

    /// The error the plan ends with, until the runner has returned it.
    pub closed spec fn failure(&self) -> Option<Error> {
        self.failure
    }

    /// The runner's state is consistent: it waits for a read only at a reading step, and for a
    /// write only at a writing step.
    pub closed spec fn wf(&self) -> bool {
        &&& self.index <= self.steps.len()
        &&& self.awaiting == Awaiting::ReadResult ==> self.index < self.steps.len()
            && !(self.steps@[self.index as int].op is Write)
        &&& self.awaiting == Awaiting::WriteResult ==> self.index < self.steps.len()
            && !(self.steps@[self.index as int].op is Read)
    }

    fn issue(&mut self) -> (action: BusAction)
        requires
            old(self).index <= old(self).steps.len(),
        ensures
            final(self).steps() == old(self).steps(),
            final(self).index() == old(self).index(),
            final(self).reads() == old(self).reads(),
            final(self).wf(),
            issues(*final(self), old(self).failure(), action),
            final(self).index() < final(self).steps().len() ==> final(self).failure() == old(self).failure(),
    {
        if self.index == self.steps.len() {
            self.awaiting = Awaiting::Nothing;
            match self.failure.take() {
                Some(e) => BusAction::Finished(Err(e)),
                None => {
                    let out = self.reads.clone();
                    assert(out@ =~= self.reads@);
                    BusAction::Finished(Ok(out))
                },
            }
        } else {
            let s = self.steps[self.index];
            match s.op {
                RegisterOp::Write(v) => {
                    self.awaiting = Awaiting::WriteResult;
                    BusAction::WriteRegister(s.register, v)
                },
                _ => {
                    self.awaiting = Awaiting::ReadResult;
                    BusAction::ReadRegister(s.register)
                },
            }
        }
    }

    /// Starts carrying out `plan`, and returns the first action.
    pub fn start(plan: RegisterPlan) -> (res: (PlanRunner, BusAction))
        ensures
            res.0.wf(),
            res.0.steps() == plan.steps@,
            res.0.index() == 0,
            res.0.reads() == Seq::<u16>::empty(),
            issues(res.0, plan.failure, res.1),
            res.0.steps().len() > 0 ==> res.0.failure() == plan.failure,
    {
        let mut runner = PlanRunner {
            steps: plan.steps,
            failure: plan.failure,
            index: 0,
            reads: Vec::new(),
            awaiting: Awaiting::Nothing,
        };
        let action = runner.issue();
        (runner, action)
    }

    /// Takes the result of the register read the runner asked for, and returns the next action.
    ///
    /// A failed read ends the operation with the failure reported in the step's scope. A
    /// successful `Read` records the value and moves to the next step; a successful read of an
    /// `Update` asks to write the updated value back.
    pub fn on_read(&mut self, result: Result<u16>) -> (action: BusAction)
        requires
            old(self).wf(),
            old(self).awaiting() == Awaiting::ReadResult,
        ensures
            final(self).wf(),
            read_outcome(*old(self), result, *final(self), action),
    {
        let s = self.steps[self.index];
        match result {
            Err(cause) => {
                self.awaiting = Awaiting::Nothing;
                BusAction::Finished(Err(report_failure(s.scope, s.register, true, cause)))
            },
            Ok(v) => match s.op {
                RegisterOp::Update { clear, set } => {
                    self.awaiting = Awaiting::WriteResult;
                    BusAction::WriteRegister(s.register, (v & !clear) | set)
                },
                _ => {
                    self.reads.push(v);
                    self.index = self.index + 1;
                    self.issue()
                },
            },
        }
    }

    /// Takes the result of the register write the runner asked for, and returns the next action.
    ///
    /// A failed write ends the operation with the failure reported in the step's scope; a
    /// successful one moves to the next step.
    pub fn on_write(&mut self, result: Result<()>) -> (action: BusAction)
        requires
            old(self).wf(),
            old(self).awaiting() == Awaiting::WriteResult,
        ensures
            final(self).wf(),
            write_outcome(*old(self), result, *final(self), action),
    {
        let s = self.steps[self.index];
        match result {
            Err(cause) => {
                self.awaiting = Awaiting::Nothing;
                BusAction::Finished(Err(report_failure(s.scope, s.register, false, cause)))
            },
            Ok(()) => {
                self.index = self.index + 1;
                self.issue()
            },
        }
    }
}

/// A runner's progress matches the meaning of its plan on a device whose registers, initially
/// `initial`, hold what was last written and now are `current`: the registers and the values
/// read are those of the steps done so far.
pub open spec fn tracks(r: PlanRunner, initial: Map<u16, u16>, current: Map<u16, u16>) -> bool {
    &&& r.index() <= r.steps().len()
    &&& current == registers_after(initial, r.steps().take(r.index() as int))
    &&& r.reads() == values_read(initial, r.steps().take(r.index() as int))
}

/// Running a single step.
pub(crate) proof fn lemma_run_one(regs: Map<u16, u16>, s: RegisterStep)
    ensures
        run_steps(regs, seq![s]).0 == step_effect(regs, s).0,
        step_effect(regs, s).1 matches Some(v) ==> run_steps(regs, seq![s]).1 == seq![v],
{
    reveal_with_fuel(run_steps, 2);
    assert(seq![s].drop_first() =~= Seq::<RegisterStep>::empty());
}

/// Running two steps is running the first, then the second.
pub(crate) proof fn lemma_run_two(regs: Map<u16, u16>, a: RegisterStep, b: RegisterStep)
    ensures
        run_steps(regs, seq![a, b]).0 == step_effect(step_effect(regs, a).0, b).0,
        step_effect(regs, a).1 matches Some(x) ==> step_effect(step_effect(regs, a).0, b).1 matches Some(y)
            ==> run_steps(regs, seq![a, b]).1 == seq![x, y],
{
    reveal_with_fuel(run_steps, 3);
    assert(seq![a, b].drop_first() =~= seq![b]);
    assert(seq![b].drop_first() =~= Seq::<RegisterStep>::empty());
}

/// Running `x` then `y` is running their concatenation.
pub(crate) proof fn lemma_run_concat(regs: Map<u16, u16>, x: Seq<RegisterStep>, y: Seq<RegisterStep>)
    ensures
        registers_after(regs, x + y) == registers_after(registers_after(regs, x), y),
    decreases x.len(),
{
    if x.len() == 0 {
        assert(x + y =~= y);
    } else {
        assert((x + y).drop_first() =~= x.drop_first() + y);
        lemma_run_concat(step_effect(regs, x[0]).0, x.drop_first(), y);
    }
}

/// Running no step changes nothing.
pub(crate) proof fn lemma_run_empty(regs: Map<u16, u16>)
    ensures
        registers_after(regs, Seq::<RegisterStep>::empty()) == regs,
{
    reveal_with_fuel(run_steps, 1);
}

/// Running one more step after `x`.
proof fn lemma_run_push(regs: Map<u16, u16>, x: Seq<RegisterStep>, s: RegisterStep)
    ensures
        registers_after(regs, x.push(s)) == step_effect(registers_after(regs, x), s).0,
        values_read(regs, x.push(s)) == values_read(regs, x) + match step_effect(registers_after(regs, x), s).1 {
            Some(v) => seq![v],
            None => Seq::<u16>::empty(),
        },
    decreases x.len(),
{
    if x.len() == 0 {
        reveal_with_fuel(run_steps, 2);
        assert(x.push(s) =~= seq![s]);
        assert(seq![s].drop_first() =~= Seq::<RegisterStep>::empty());
        assert(values_read(regs, x) =~= Seq::<u16>::empty());
        match step_effect(regs, s).1 {
            Some(v) => {
                assert(seq![v] + Seq::<u16>::empty() =~= seq![v]);
                assert(Seq::<u16>::empty() + seq![v] =~= seq![v]);
            },
            None => {
                assert(Seq::<u16>::empty() + Seq::<u16>::empty() =~= Seq::<u16>::empty());
            },
        }
    } else {
        assert(x.push(s).drop_first() =~= x.drop_first().push(s));
        assert(x.push(s)[0] == x[0]);
        let r1 = step_effect(regs, x[0]).0;
        lemma_run_push(r1, x.drop_first(), s);
        match step_effect(regs, x[0]).1 {
            Some(v) => {
                let tail = values_read(r1, x.drop_first());
                let extra = match step_effect(registers_after(r1, x.drop_first()), s).1 {
                    Some(w) => seq![w],
                    None => Seq::<u16>::empty(),
                };
                assert(seq![v] + (tail + extra) =~= (seq![v] + tail) + extra);
            },
            None => {},
        }
    }
}

/// A runner starts in step with its plan: nothing done, nothing read.
pub proof fn start_tracks(r: PlanRunner, regs: Map<u16, u16>)
    requires
        r.index() == 0,
        r.reads() == Seq::<u16>::empty(),
    ensures
        tracks(r, regs, regs),
{
    reveal_with_fuel(run_steps, 1);
    assert(r.steps().take(0) =~= Seq::<RegisterStep>::empty());
}

/// On a device whose registers hold what was last written, answering the read of a `Read` step
/// with the register's value keeps the runner in step with its plan.
pub proof fn read_step_tracks(r: PlanRunner, next: PlanRunner, action: BusAction, initial: Map<u16, u16>, current: Map<u16, u16>)
    requires
        r.wf(),
        tracks(r, initial, current),
        r.awaiting() == Awaiting::ReadResult,
        r.steps()[r.index() as int].op is Read,
        read_outcome(r, Ok(current[r.steps()[r.index() as int].register]), next, action),
    ensures
        tracks(next, initial, current),
{
    let i = r.index() as int;
    let st = r.steps();
    assert(st.take(i + 1) =~= st.take(i).push(st[i]));
    lemma_run_push(initial, st.take(i), st[i]);
    assert(step_effect(current, st[i]).1 == Some(current[st[i].register]));
    assert(next.index() == i + 1);
    assert(next.reads() == r.reads().push(current[st[i].register]));
    assert(r.reads().push(current[st[i].register]) =~= r.reads() + seq![current[st[i].register]]);
}

/// On such a device, the read of an `Update` step answered with the register's value, then its
/// write-back acknowledged, leaves the runner in step with its plan and the register updated.
pub proof fn update_step_tracks(
    r: PlanRunner,
    mid: PlanRunner,
    next: PlanRunner,
    read_action: BusAction,
    action: BusAction,
    initial: Map<u16, u16>,
    current: Map<u16, u16>,
)
    requires
        r.wf(),
        tracks(r, initial, current),
        r.awaiting() == Awaiting::ReadResult,
        r.steps()[r.index() as int].op is Update,
        read_outcome(r, Ok(current[r.steps()[r.index() as int].register]), mid, read_action),
        write_outcome(mid, Ok(()), next, action),
    ensures
        read_action matches BusAction::WriteRegister(reg, value) && tracks(next, initial, current.insert(reg, value)),
{
    let i = r.index() as int;
    let st = r.steps();
    assert(st.take(i + 1) =~= st.take(i).push(st[i]));
    lemma_run_push(initial, st.take(i), st[i]);
}

/// On such a device, acknowledging the write of a `Write` step leaves the runner in step with
/// its plan and the register written.
pub proof fn write_step_tracks(r: PlanRunner, next: PlanRunner, action: BusAction, initial: Map<u16, u16>, current: Map<u16, u16>)
    requires
        r.wf(),
        tracks(r, initial, current),
        r.awaiting() == Awaiting::WriteResult,
        r.steps()[r.index() as int].op is Write,
        write_outcome(r, Ok(()), next, action),
    ensures
        tracks(
            next,
            initial,
            current.insert(r.steps()[r.index() as int].register, r.steps()[r.index() as int].op->Write_0),
        ),
{
    let i = r.index() as int;
    let st = r.steps();
    assert(st.take(i + 1) =~= st.take(i).push(st[i]));
    lemma_run_push(initial, st.take(i), st[i]);
}

/// A runner in step with its plan that finishes without a planned failure returns the values
/// that the plan's `Read` steps read on that device.
pub proof fn finish_returns_values_read(r: PlanRunner, failure: Option<Error>, action: BusAction, initial: Map<u16, u16>, current: Map<u16, u16>)
    requires
        tracks(r, initial, current),
        r.index() == r.steps().len(),
        failure is None,
        issues(r, failure, action),
    ensures
        action matches BusAction::Finished(Ok(v)) && v@ == values_read(initial, r.steps()),
        current == registers_after(initial, r.steps()),
{
    assert(r.steps().take(r.steps().len() as int) =~= r.steps());
}

} // verus!
