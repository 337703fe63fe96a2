//! What the PWM conversions and plans guarantee together: a time in units survives the trip
//! to nanoseconds and back, and a setting read back from a device whose registers hold what
//! was last written is the setting made.
use crate::pwm::{
    command_code, command_fits, command_of_code, control_of, control_steps, ctrl_register, get_ctrl_steps,
    get_periods_steps, ns_convertible, pin_field, pwm_ns_of_units, pwm_units_of_ns,
    set_periods_steps, set_pin_steps, PwmChannel, PwmCommand,
};
use crate::consts::{REG_PWM0_CTRL, REG_PWM0_HIGH, REG_PWM0_LOW, REG_PWM1_CTRL, REG_PWM1_HIGH, REG_PWM1_LOW};
use crate::register::{lemma_run_one, lemma_run_two, registers_after, updated_value, values_read};
use vstd::prelude::*;

verus! {

/// Converting a valid number of units to nanoseconds and back gives the same number of units,
/// and the nanoseconds are a valid time.
pub proof fn units_round_trip(units: u16)
    requires
        1 <= units <= 4095,
    ensures
        pwm_units_of_ns(pwm_ns_of_units(units as nat)) == units,
        ns_convertible(pwm_ns_of_units(units as nat) as u64),
{
    let u = units as int;
    let ns = pwm_ns_of_units(units as nat) as int;
    assert(3 * ns <= 800 * u + 1 && 800 * u + 1 < 3 * ns + 3) by (nonlinear_arith)
        requires
            ns == (800 * u + 1) / 3,
    ;
    let n3 = 3 * ns;
    if n3 == 800 * u - 1 {
        assert(n3 / 800 == u - 1 && n3 % 800 == 799) by (nonlinear_arith)
            requires
                n3 == 800 * u - 1,
                u >= 1,
        ;
    } else if n3 == 800 * u {
        assert(n3 / 800 == u && n3 % 800 == 0) by (nonlinear_arith)
            requires
                n3 == 800 * u,
        ;
    } else {
        assert(n3 / 800 == u && n3 % 800 == 1) by (nonlinear_arith)
            requires
                n3 == 800 * u + 1,
                u >= 0,
        ;
    }
}

/// Reading the periods of a channel after setting them gives the periods set.
pub proof fn periods_set_then_read(regs: Map<u16, u16>, channel: PwmChannel, high: u16, low: u16)
    ensures
        values_read(registers_after(regs, set_periods_steps(channel, high, low)), get_periods_steps(channel))
            == seq![high, low],
{
    let w = set_periods_steps(channel, high, low);
    lemma_run_two(regs, w[0], w[1]);
    let after = registers_after(regs, w);
    let r = get_periods_steps(channel);
    lemma_run_two(after, r[0], r[1]);
}

/// Field arithmetic of the control register: the pin field and the enable and command bits.
proof fn lemma_ctrl_fields(v: u16, pin: u16, enable_bits: u16, code: u16)
    by (bit_vector)
    requires
        pin < 32,
        code < 8,
        enable_bits == 0 || enable_bits == 0x20,
    ensures
        (updated_value(v, 0x1F, pin << 0u16) & 0x1F) >> 0u16 == pin,
        updated_value(v, 0x1F, pin << 0u16) & 0x20 == v & 0x20,
        updated_value(v, 0x1F, pin << 0u16) & 0x1C0 == v & 0x1C0,
        (updated_value(v, 0x20u16 | 0x1C0u16, enable_bits | ((code << 6u16) as u16)) & 0x20 != 0) == (enable_bits != 0),
        (updated_value(v, 0x20u16 | 0x1C0u16, enable_bits | ((code << 6u16) as u16)) & 0x1C0) >> 6u16 == code,
        updated_value(v, 0x20u16 | 0x1C0u16, enable_bits | ((code << 6u16) as u16)) & 0x1F == v & 0x1F,
{
}

/// Reading the pin of a channel after assigning one gives that pin, and the channel's enable
/// bit and command are unchanged.
pub proof fn pin_set_then_read(regs: Map<u16, u16>, channel: PwmChannel, pin: u8)
    requires
        pin < 32,
        regs.dom().contains(ctrl_register(channel)),
    ensures
        ({
            let after = registers_after(regs, set_pin_steps(channel, pin));
            &&& pin_field(values_read(after, get_ctrl_steps(channel))[0]) == pin
            &&& control_of(after[ctrl_register(channel)]) == control_of(regs[ctrl_register(channel)])
        }),
{
    let reg = ctrl_register(channel);
    lemma_run_one(regs, set_pin_steps(channel, pin)[0]);
    let after = registers_after(regs, set_pin_steps(channel, pin));
    lemma_run_one(after, get_ctrl_steps(channel)[0]);
    lemma_ctrl_fields(regs[reg], pin as u16, 0, 0);
}

/// Reading the control of a channel after setting it gives the enable bit set and the command
/// of the code written, and the channel keeps its pin. A command is the one written, but for a
/// raw code that names a command, which reads back under its name.
pub proof fn control_set_then_read(regs: Map<u16, u16>, channel: PwmChannel, enable: bool, command: PwmCommand)
    requires
        command_fits(command),
        regs.dom().contains(ctrl_register(channel)),
    ensures
        ({
            let after = registers_after(regs, control_steps(channel, enable, command));
            let read = values_read(after, get_ctrl_steps(channel))[0];
            &&& control_of(read) == (enable, command_of_code(command_code(command)))
            &&& pin_field(read) == pin_field(regs[ctrl_register(channel)])
        }),
        !(command matches PwmCommand::Undefined(raw) && (raw == 0 || raw == 4 || raw == 5 || raw == 6))
            ==> command_of_code(command_code(command)) == command,
{
    let reg = ctrl_register(channel);
    let step = control_steps(channel, enable, command)[0];
    lemma_run_one(regs, step);
    let after = registers_after(regs, control_steps(channel, enable, command));
    lemma_run_one(after, get_ctrl_steps(channel)[0]);
    let code = command_code(command);
    if let PwmCommand::Undefined(raw) = command {
        assert(raw & !7u16 == 0 ==> raw < 8) by (bit_vector);
    }
    lemma_ctrl_fields(regs[reg], 0, if enable { 0x20 } else { 0 }, code);
}

/// The registers of `channel` as the device lays them out: its control register, its high
/// period register and its low period register.
pub open spec fn channel_block(channel: PwmChannel) -> (u16, u16, u16) {
    match channel {
        PwmChannel::Pwm0 => (REG_PWM0_CTRL, REG_PWM0_HIGH, REG_PWM0_LOW),
        PwmChannel::Pwm1 => (REG_PWM1_CTRL, REG_PWM1_HIGH, REG_PWM1_LOW),
    }
}

/// The two channels have separate registers: each channel's block is three consecutive
/// addresses (control, high, low), and channel 1's block follows channel 0's.
pub proof fn channel_blocks_are_separate()
    ensures
        channel_block(PwmChannel::Pwm0).1 == channel_block(PwmChannel::Pwm0).0 + 1,
        channel_block(PwmChannel::Pwm0).2 == channel_block(PwmChannel::Pwm0).0 + 2,
        channel_block(PwmChannel::Pwm1).0 == channel_block(PwmChannel::Pwm0).0 + 3,
        channel_block(PwmChannel::Pwm1).1 == channel_block(PwmChannel::Pwm1).0 + 1,
        channel_block(PwmChannel::Pwm1).2 == channel_block(PwmChannel::Pwm1).0 + 2,
{
}

/// Setting the periods of a channel writes the high period to the channel's own high period
/// register and the low period to its own low period register, and changes no other register.
pub proof fn periods_land_in_the_channel_registers(regs: Map<u16, u16>, channel: PwmChannel, high: u16, low: u16)
    ensures
        registers_after(regs, set_periods_steps(channel, high, low)) == regs.insert(channel_block(channel).1, high).insert(
            channel_block(channel).2,
            low,
        ),
{
    let w = set_periods_steps(channel, high, low);
    lemma_run_two(regs, w[0], w[1]);
    assert(w =~= seq![w[0], w[1]]);
}

/// Reading the periods of a channel reads its own high period register, then its own low
/// period register.
pub proof fn periods_read_from_the_channel_registers(regs: Map<u16, u16>, channel: PwmChannel)
    ensures
        values_read(regs, get_periods_steps(channel)) == seq![regs[channel_block(channel).1], regs[channel_block(channel).2]],
{
    let r = get_periods_steps(channel);
    lemma_run_two(regs, r[0], r[1]);
    assert(r =~= seq![r[0], r[1]]);
}

/// Reading the control of a channel reads its own control register.
pub proof fn control_read_from_the_channel_register(regs: Map<u16, u16>, channel: PwmChannel)
    ensures
        values_read(regs, get_ctrl_steps(channel)) == seq![regs[channel_block(channel).0]],
{
    lemma_run_one(regs, get_ctrl_steps(channel)[0]);
    assert(get_ctrl_steps(channel) =~= seq![get_ctrl_steps(channel)[0]]);
}

/// Setting the control of a channel enables or disables it and sets the command in the
/// channel's own control register, keeping the pin assigned there; no other register changes,
/// so the other channel is untouched.
pub proof fn control_lands_in_the_channel_register(regs: Map<u16, u16>, channel: PwmChannel, enable: bool, command: PwmCommand)
    requires
        command_fits(command),
        regs.dom().contains(channel_block(channel).0),
    ensures
        ({
            let after = registers_after(regs, control_steps(channel, enable, command));
            let ctrl = channel_block(channel).0;
            &&& after.dom() == regs.dom()
            &&& control_of(after[ctrl]) == (enable, command_of_code(command_code(command)))
            &&& pin_field(after[ctrl]) == pin_field(regs[ctrl])
            &&& forall|r: u16| r != ctrl ==> #[trigger] after[r] == regs[r]
        }),
{
    let reg = ctrl_register(channel);
    let step = control_steps(channel, enable, command)[0];
    lemma_run_one(regs, step);
    assert(control_steps(channel, enable, command) =~= seq![step]);
    let code = command_code(command);
    if let PwmCommand::Undefined(raw) = command {
        assert(raw & !7u16 == 0 ==> raw < 8) by (bit_vector);
    }
    lemma_ctrl_fields(regs[reg], 0, if enable { 0x20 } else { 0 }, code);
    let after = registers_after(regs, control_steps(channel, enable, command));
    assert(after.dom() =~= regs.dom());
}

/// Assigning a pin to a channel writes the pin number into the channel's own control register,
/// keeping the channel's enable bit and command; no other register changes, so the other channel
/// is untouched.
pub proof fn pin_lands_in_the_channel_register(regs: Map<u16, u16>, channel: PwmChannel, pin: u8)
    requires
        pin < 32,
        regs.dom().contains(channel_block(channel).0),
    ensures
        ({
            let after = registers_after(regs, set_pin_steps(channel, pin));
            let ctrl = channel_block(channel).0;
            &&& after.dom() == regs.dom()
            &&& pin_field(after[ctrl]) == pin
            &&& control_of(after[ctrl]) == control_of(regs[ctrl])
            &&& forall|r: u16| r != ctrl ==> #[trigger] after[r] == regs[r]
        }),
{
    let reg = ctrl_register(channel);
    let step = set_pin_steps(channel, pin)[0];
    lemma_run_one(regs, step);
    assert(set_pin_steps(channel, pin) =~= seq![step]);
    lemma_ctrl_fields(regs[reg], pin as u16, 0, 0);
    let after = registers_after(regs, set_pin_steps(channel, pin));
    assert(after.dom() =~= regs.dom());
}

} // verus!
