//! What the GPIO plans do to a device whose registers hold what was last written: a setting
//! read back is the setting made, and the settings of the other pins stay as they were.
use crate::consts::{REG_CLEAR_1, REG_SET_1, REG_STATE_0, REG_STATE_1, REG_CLEAR_0, REG_INTR_MASK_0, REG_INTR_NEG_EDGE_0, REG_INTR_POS_EDGE_0, REG_SET_0, REG_DIR_0, REG_FUNC_SEL_0, REG_OPEN_DRAIN_0, REG_PULL_DOWN_0, REG_PULL_UP_0, REG_TRI_STATE_0};
use crate::gpio::{
    assign_to_edge_steps, bit_set, bulk_steps, group_mask, group_pull_steps, direction_of, get_pull_steps, group_of, group_register,
    group_set_steps, pin_mask, pin_read_steps, pin_set_steps, pull_of, pull_steps, set_bits_step,
    setup_steps, write_level_steps, write_masked_steps, GpioDirection, GpioGroup, GpioLevel, GpioPull,
};
use crate::gpio::transaction::{commit_steps, consistent, marked, with_level, GpioChangeMask, TransactionState};
use crate::interrupt::interrupt_steps;
use crate::register::{
    lemma_run_concat, lemma_run_empty, lemma_run_one, lemma_run_two, registers_after, updated_value, values_read,
    write_step, ErrorScope, RegisterOp, RegisterStep,
};
use vstd::prelude::*;

verus! {

/// `regs` gives a value to every register address.
pub open spec fn register_file(regs: Map<u16, u16>) -> bool {
    forall|r: u16| regs.dom().contains(r)
}

/// Bit `c` after setting (`enable`) or clearing the bits of `mask`.
proof fn lemma_update_bit(v: u16, mask: u16, c: u16)
    by (bit_vector)
    requires
        c < 16,
    ensures
        (updated_value(v, 0, mask) & (1u16 << c) != 0) == ((mask & (1u16 << c)) != 0 || (v & (1u16 << c)) != 0),
        (updated_value(v, mask, 0) & (1u16 << c) != 0) == ((mask & (1u16 << c)) == 0 && (v & (1u16 << c)) != 0),
{
}

/// The single bits of two different positions do not overlap.
proof fn lemma_single_bits(b: u16, c: u16)
    by (bit_vector)
    requires
        b < 16,
        c < 16,
    ensures
        ((1u16 << b) & (1u16 << c) != 0) == (b == c),
{
}

/// Pin `q`'s bit in `v` after the bits of `mask` were set or cleared.
proof fn lemma_set_bits_value(v: u16, mask: u16, enable: bool, q: u8)
    ensures
        bit_set(
            if enable { updated_value(v, 0, mask) } else { updated_value(v, mask, 0) },
            pin_mask(q),
        ) == if bit_set(mask, pin_mask(q)) { enable } else { bit_set(v, pin_mask(q)) },
{
    let c = (q % 16) as u16;
    lemma_update_bit(v, mask, c);
}

/// The register file after one step that sets or clears `mask` in `reg`.
proof fn lemma_set_bits_step(regs: Map<u16, u16>, reg: u16, mask: u16, enable: bool, scope: ErrorScope)
    requires
        register_file(regs),
    ensures
        ({
            let after = registers_after(regs, seq![set_bits_step(reg, mask, enable, scope)]);
            &&& register_file(after)
            &&& after[reg] == if enable { updated_value(regs[reg], 0, mask) } else { updated_value(regs[reg], mask, 0) }
            &&& forall|r: u16| r != reg ==> #[trigger] after[r] == regs[r]
        }),
{
    lemma_run_one(regs, set_bits_step(reg, mask, enable, scope));
    let after = registers_after(regs, seq![set_bits_step(reg, mask, enable, scope)]);
    assert forall|r: u16| after.dom().contains(r) by {
        assert(regs.dom().contains(r));
    }
}

/// Pins in different groups, or different pins of one group, use different bits or registers.
proof fn lemma_pins_apart(pin: u8, other: u8, base: u16)
    requires
        pin < 32,
        other < 32,
        pin != other,
        base <= 0xFFF3,
    ensures
        group_register(group_of(pin), base) == group_register(group_of(other), base) ==> !bit_set(
            pin_mask(pin),
            pin_mask(other),
        ),
{
    lemma_single_bits((pin % 16) as u16, (other % 16) as u16);
}

/// Reading back a pin's bit, in its group's register at group-0 address `base`, after setting
/// or clearing it gives what was set; the bits of the other pins in those registers are
/// unchanged.
proof fn lemma_pin_setting(regs: Map<u16, u16>, pin: u8, base: u16, enable: bool, other: u8)
    requires
        register_file(regs),
        pin < 32,
        other < 32,
        other != pin,
        base <= 0xFFF3,
    ensures
        ({
            let after = registers_after(regs, pin_set_steps(pin, base, enable));
            let reg_other = group_register(group_of(other), base);
            &&& register_file(after)
            &&& values_read(after, pin_read_steps(pin, base)).len() == 1
            &&& bit_set(values_read(after, pin_read_steps(pin, base))[0], pin_mask(pin)) == enable
            &&& bit_set(after[reg_other], pin_mask(other)) == bit_set(regs[reg_other], pin_mask(other))
        }),
{
    let reg = group_register(group_of(pin), base);
    lemma_set_bits_step(regs, reg, pin_mask(pin), enable, ErrorScope::Pin(pin));
    let after = registers_after(regs, pin_set_steps(pin, base, enable));
    lemma_run_one(after, pin_read_steps(pin, base)[0]);
    lemma_single_bits((pin % 16) as u16, (pin % 16) as u16);
    lemma_set_bits_value(regs[reg], pin_mask(pin), enable, pin);
    lemma_set_bits_value(regs[reg], pin_mask(pin), enable, other);
    lemma_pins_apart(pin, other, base);
}

/// Reading a pin's direction after setting it gives the direction set, and the other pins keep
/// their directions.
pub proof fn direction_set_then_read(regs: Map<u16, u16>, pin: u8, direction: GpioDirection, other: u8)
    requires
        register_file(regs),
        pin < 32,
        other < 32,
        other != pin,
    ensures
        ({
            let after = registers_after(regs, pin_set_steps(pin, REG_DIR_0, direction == GpioDirection::Output));
            let reg_other = group_register(group_of(other), REG_DIR_0);
            &&& direction_of(values_read(after, pin_read_steps(pin, REG_DIR_0))[0], pin) == direction
            &&& direction_of(after[reg_other], other) == direction_of(regs[reg_other], other)
        }),
{
    lemma_pin_setting(regs, pin, REG_DIR_0, direction == GpioDirection::Output, other);
}

/// Reading whether a pin is open-drain after enabling or disabling it gives what was set, and
/// the other pins keep their setting.
pub proof fn open_drain_set_then_read(regs: Map<u16, u16>, pin: u8, enable: bool, other: u8)
    requires
        register_file(regs),
        pin < 32,
        other < 32,
        other != pin,
    ensures
        ({
            let after = registers_after(regs, pin_set_steps(pin, REG_OPEN_DRAIN_0, enable));
            let reg_other = group_register(group_of(other), REG_OPEN_DRAIN_0);
            &&& bit_set(values_read(after, pin_read_steps(pin, REG_OPEN_DRAIN_0))[0], pin_mask(pin)) == enable
            &&& bit_set(after[reg_other], pin_mask(other)) == bit_set(regs[reg_other], pin_mask(other))
        }),
{
    lemma_pin_setting(regs, pin, REG_OPEN_DRAIN_0, enable, other);
}

/// Reading whether a pin is tri-stated after setting it gives what was set, and the other pins
/// keep their setting.
pub proof fn tri_state_set_then_read(regs: Map<u16, u16>, pin: u8, enable: bool, other: u8)
    requires
        register_file(regs),
        pin < 32,
        other < 32,
        other != pin,
    ensures
        ({
            let after = registers_after(regs, pin_set_steps(pin, REG_TRI_STATE_0, enable));
            let reg_other = group_register(group_of(other), REG_TRI_STATE_0);
            &&& bit_set(values_read(after, pin_read_steps(pin, REG_TRI_STATE_0))[0], pin_mask(pin)) == enable
            &&& bit_set(after[reg_other], pin_mask(other)) == bit_set(regs[reg_other], pin_mask(other))
        }),
{
    lemma_pin_setting(regs, pin, REG_TRI_STATE_0, enable, other);
}

/// A pin assigned to the EDGE controller reads back as assigned, and the assignment of the
/// other pins is unchanged.
pub proof fn edge_assignment_then_read(regs: Map<u16, u16>, pin: u8, other: u8)
    requires
        register_file(regs),
        pin < 32,
        other < 32,
        other != pin,
    ensures
        ({
            let after = registers_after(regs, assign_to_edge_steps(pin));
            let reg_other = group_register(group_of(other), REG_FUNC_SEL_0);
            &&& bit_set(values_read(after, pin_read_steps(pin, REG_FUNC_SEL_0))[0], pin_mask(pin))
            &&& bit_set(after[reg_other], pin_mask(other)) == bit_set(regs[reg_other], pin_mask(other))
        }),
{
    lemma_pin_setting(regs, pin, REG_FUNC_SEL_0, true, other);
    lemma_run_one(regs, assign_to_edge_steps(pin)[0]);
    lemma_run_one(regs, pin_set_steps(pin, REG_FUNC_SEL_0, true)[0]);
}

/// The registers after the two steps that set the pull-up and pull-down bits of `mask`.
proof fn lemma_pull_steps(regs: Map<u16, u16>, up: u16, down: u16, mask: u16, pull: GpioPull, scope: ErrorScope)
    requires
        register_file(regs),
        up != down,
    ensures
        ({
            let after = registers_after(regs, pull_steps(up, down, mask, pull, scope));
            &&& register_file(after)
            &&& after[up] == if pull == GpioPull::Up { updated_value(regs[up], 0, mask) } else { updated_value(regs[up], mask, 0) }
            &&& after[down] == if pull == GpioPull::Down { updated_value(regs[down], 0, mask) } else { updated_value(regs[down], mask, 0) }
            &&& forall|r: u16| r != up && r != down ==> #[trigger] after[r] == regs[r]
        }),
{
    let a = set_bits_step(up, mask, pull == GpioPull::Up, scope);
    let b = set_bits_step(down, mask, pull == GpioPull::Down, scope);
    assert(pull_steps(up, down, mask, pull, scope) =~= seq![a] + seq![b]);
    lemma_run_concat(regs, seq![a], seq![b]);
    lemma_set_bits_step(regs, up, mask, pull == GpioPull::Up, scope);
    let mid = registers_after(regs, seq![a]);
    lemma_set_bits_step(mid, down, mask, pull == GpioPull::Down, scope);
}

/// Pull-up and pull-down registers of the groups are all different.
proof fn lemma_pull_registers_apart(g: GpioGroup, h: GpioGroup)
    ensures
        group_register(g, REG_PULL_UP_0) != group_register(h, REG_PULL_DOWN_0),
        group_register(g, REG_PULL_UP_0) == group_register(h, REG_PULL_UP_0) ==> g == h,
        group_register(g, REG_PULL_DOWN_0) == group_register(h, REG_PULL_DOWN_0) ==> g == h,
{
}

/// Pin `q`'s pull after the pull of the pins in `mask` (of `q`'s group) was set to `pull`.
proof fn lemma_pull_value(up: u16, down: u16, mask: u16, pull: GpioPull, q: u8)
    ensures
        pull_of(
            if pull == GpioPull::Up { updated_value(up, 0, mask) } else { updated_value(up, mask, 0) },
            if pull == GpioPull::Down { updated_value(down, 0, mask) } else { updated_value(down, mask, 0) },
            q,
        ) == if bit_set(mask, pin_mask(q)) { pull } else { pull_of(up, down, q) },
{
    lemma_set_bits_value(up, mask, pull == GpioPull::Up, q);
    lemma_set_bits_value(down, mask, pull == GpioPull::Down, q);
}

/// Reading a pin's pull after setting it gives the pull set, and the other pins keep theirs.
pub proof fn pull_set_then_read(regs: Map<u16, u16>, pin: u8, pull: GpioPull, other: u8)
    requires
        register_file(regs),
        pin < 32,
        other < 32,
        other != pin,
    ensures
        ({
            let up = group_register(group_of(pin), REG_PULL_UP_0);
            let down = group_register(group_of(pin), REG_PULL_DOWN_0);
            let after = registers_after(regs, pull_steps(up, down, pin_mask(pin), pull, ErrorScope::Pin(pin)));
            let read = values_read(after, get_pull_steps(pin));
            let up_other = group_register(group_of(other), REG_PULL_UP_0);
            let down_other = group_register(group_of(other), REG_PULL_DOWN_0);
            &&& pull_of(read[0], read[1], pin) == pull
            &&& pull_of(after[up_other], after[down_other], other) == pull_of(regs[up_other], regs[down_other], other)
        }),
{
    let g = group_of(pin);
    let up = group_register(g, REG_PULL_UP_0);
    let down = group_register(g, REG_PULL_DOWN_0);
    lemma_pull_registers_apart(g, g);
    lemma_pull_registers_apart(g, group_of(other));
    lemma_pull_registers_apart(group_of(other), g);
    lemma_pull_steps(regs, up, down, pin_mask(pin), pull, ErrorScope::Pin(pin));
    let after = registers_after(regs, pull_steps(up, down, pin_mask(pin), pull, ErrorScope::Pin(pin)));
    let steps = get_pull_steps(pin);
    lemma_run_two(after, steps[0], steps[1]);
    assert(steps =~= seq![steps[0], steps[1]]);
    lemma_single_bits((pin % 16) as u16, (pin % 16) as u16);
    lemma_pull_value(regs[up], regs[down], pin_mask(pin), pull, pin);
    lemma_pull_value(regs[up], regs[down], pin_mask(pin), pull, other);
    lemma_pins_apart(pin, other, REG_PULL_UP_0);
}

/// Setting the direction of the pins in `mask` of group `g` gives each of them that direction
/// and leaves the other pins of the group, and every other register, as they were.
pub proof fn group_direction_set(regs: Map<u16, u16>, g: GpioGroup, mask: u16, direction: GpioDirection, q: u8, r: u16)
    requires
        register_file(regs),
        q < 32,
        group_of(q) == g,
        r != group_register(g, REG_DIR_0),
    ensures
        ({
            let reg = group_register(g, REG_DIR_0);
            let after = registers_after(regs, group_set_steps(g, REG_DIR_0, mask, direction == GpioDirection::Output));
            &&& direction_of(after[reg], q) == if bit_set(mask, pin_mask(q)) {
                direction
            } else {
                direction_of(regs[reg], q)
            }
            &&& after[r] == regs[r]
        }),
{
    let reg = group_register(g, REG_DIR_0);
    lemma_set_bits_step(regs, reg, mask, direction == GpioDirection::Output, ErrorScope::Group(g));
    lemma_set_bits_value(regs[reg], mask, direction == GpioDirection::Output, q);
}

/// Setting up a pin with a pull and a direction leaves it with that pull and direction, and
/// the other pins with theirs.
pub proof fn setup_then_read(regs: Map<u16, u16>, pin: u8, direction: GpioDirection, pull: GpioPull, other: u8)
    requires
        register_file(regs),
        pin < 32,
        other < 32,
        other != pin,
    ensures
        ({
            let after = registers_after(regs, setup_steps(pin, direction, pull));
            let dir = group_register(group_of(pin), REG_DIR_0);
            let up = group_register(group_of(pin), REG_PULL_UP_0);
            let down = group_register(group_of(pin), REG_PULL_DOWN_0);
            let dir_other = group_register(group_of(other), REG_DIR_0);
            let up_other = group_register(group_of(other), REG_PULL_UP_0);
            let down_other = group_register(group_of(other), REG_PULL_DOWN_0);
            &&& direction_of(after[dir], pin) == direction
            &&& pull_of(after[up], after[down], pin) == pull
            &&& direction_of(after[dir_other], other) == direction_of(regs[dir_other], other)
            &&& pull_of(after[up_other], after[down_other], other) == pull_of(regs[up_other], regs[down_other], other)
        }),
{
    let g = group_of(pin);
    let h = group_of(other);
    let up = group_register(g, REG_PULL_UP_0);
    let down = group_register(g, REG_PULL_DOWN_0);
    let dir = group_register(g, REG_DIR_0);
    let pulls = pull_steps(up, down, pin_mask(pin), pull, ErrorScope::Device);
    let dirs = group_set_steps(g, REG_DIR_0, pin_mask(pin), direction == GpioDirection::Output);
    assert(setup_steps(pin, direction, pull) =~= pulls + dirs);
    lemma_run_concat(regs, pulls, dirs);
    lemma_pull_registers_apart(g, g);
    lemma_pull_registers_apart(g, h);
    lemma_pull_registers_apart(h, g);
    lemma_pull_steps(regs, up, down, pin_mask(pin), pull, ErrorScope::Device);
    let mid = registers_after(regs, pulls);
    lemma_set_bits_step(mid, dir, pin_mask(pin), direction == GpioDirection::Output, ErrorScope::Group(g));
    lemma_single_bits((pin % 16) as u16, (pin % 16) as u16);
    lemma_pull_value(regs[up], regs[down], pin_mask(pin), pull, pin);
    lemma_pull_value(regs[up], regs[down], pin_mask(pin), pull, other);
    lemma_set_bits_value(mid[dir], pin_mask(pin), direction == GpioDirection::Output, pin);
    lemma_set_bits_value(mid[dir], pin_mask(pin), direction == GpioDirection::Output, other);
    lemma_pins_apart(pin, other, REG_PULL_UP_0);
    lemma_pins_apart(pin, other, REG_DIR_0);
}

/// The level a transaction will give `pin`, if it changes it.
pub open spec fn pending_level(s: TransactionState, pin: u8) -> Option<GpioLevel> {
    let m = if group_of(pin) == GpioGroup::Group0 { s.group0 } else { s.group1 };
    if bit_set(m.set_mask, pin_mask(pin)) {
        Some(GpioLevel::High)
    } else if bit_set(m.clear_mask, pin_mask(pin)) {
        Some(GpioLevel::Low)
    } else {
        None
    }
}

/// Bits of a pin mask after marking the bits of another mask high or low.
proof fn lemma_marked_bit(set: u16, clear: u16, mask: u16, c: u16, high: bool)
    requires
        c < 16,
        set & clear == 0,
    ensures
        ({
            let m = marked(GpioChangeMask { set_mask: set, clear_mask: clear }, mask, high);
            let b = 1u16 << c;
            &&& mask & b != 0 ==> ((m.set_mask & b != 0) == high && (m.clear_mask & b != 0) == !high)
            &&& mask & b == 0 ==> ((m.set_mask & b != 0) == (set & b != 0) && (m.clear_mask & b != 0) == (clear & b != 0))
        }),
{
    assert(c < 16 ==> (mask & (1u16 << c) != 0 ==> ((set | mask) & (1u16 << c) != 0) && ((clear & !mask) & (1u16 << c) == 0)))
        by (bit_vector);
    assert(c < 16 ==> (mask & (1u16 << c) != 0 ==> ((set & !mask) & (1u16 << c) == 0) && ((clear | mask) & (1u16 << c) != 0)))
        by (bit_vector);
    assert(c < 16 ==> (mask & (1u16 << c) == 0 ==> (((set | mask) & (1u16 << c) != 0) == (set & (1u16 << c) != 0))
        && (((clear & !mask) & (1u16 << c) != 0) == (clear & (1u16 << c) != 0)))) by (bit_vector);
    assert(c < 16 ==> (mask & (1u16 << c) == 0 ==> (((set & !mask) & (1u16 << c) != 0) == (set & (1u16 << c) != 0))
        && (((clear | mask) & (1u16 << c) != 0) == (clear & (1u16 << c) != 0)))) by (bit_vector);
}

/// Setting a pin in a transaction makes its pending level the level set, whatever was pending
/// for it before, and leaves the pending levels of the other pins unchanged.
pub proof fn transaction_last_level_wins(s: TransactionState, pin: u8, level: GpioLevel, other: u8)
    requires
        consistent(s),
        pin < 32,
        other < 32,
        other != pin,
    ensures
        pending_level(with_level(s, pin, level), pin) == Some(level),
        pending_level(with_level(s, pin, level), other) == pending_level(s, other),
{
    let high = level == GpioLevel::High;
    let c = (pin % 16) as u16;
    let d = (other % 16) as u16;
    lemma_single_bits(c, c);
    lemma_single_bits(c, d);
    lemma_marked_bit(s.group0.set_mask, s.group0.clear_mask, pin_mask(pin), c, high);
    lemma_marked_bit(s.group1.set_mask, s.group1.clear_mask, pin_mask(pin), c, high);
    lemma_marked_bit(s.group0.set_mask, s.group0.clear_mask, pin_mask(pin), d, high);
    lemma_marked_bit(s.group1.set_mask, s.group1.clear_mask, pin_mask(pin), d, high);
}

/// Union of the values that `steps` write to `reg`.
pub open spec fn written_bits(steps: Seq<RegisterStep>, reg: u16) -> u16
    decreases steps.len(),
{
    if steps.len() == 0 {
        0
    } else {
        let rest = written_bits(steps.drop_first(), reg);
        if steps[0].register == reg && steps[0].op is Write {
            steps[0].op->Write_0 | rest
        } else {
            rest
        }
    }
}

/// The writes of two step sequences run one after the other.
proof fn lemma_written_concat(x: Seq<RegisterStep>, y: Seq<RegisterStep>, reg: u16)
    ensures
        written_bits(x + y, reg) == written_bits(x, reg) | written_bits(y, reg),
    decreases x.len(),
{
    if x.len() == 0 {
        assert(x + y =~= y);
        let w = written_bits(y, reg);
        assert(0u16 | w == w) by (bit_vector);
    } else {
        assert((x + y).drop_first() =~= x.drop_first() + y);
        lemma_written_concat(x.drop_first(), y, reg);
        let a = written_bits(x.drop_first(), reg);
        let b = written_bits(y, reg);
        if x[0].register == reg && x[0].op is Write {
            let v = x[0].op->Write_0;
            assert(v | (a | b) == (v | a) | b) by (bit_vector);
        }
    }
}

/// What the masked write of the pending changes `m` of group `g` writes to a register.
proof fn lemma_written_masked(g: GpioGroup, m: GpioChangeMask, reg: u16)
    requires
        m.set_mask & m.clear_mask == 0,
    ensures
        written_bits(write_masked_steps(g, m.set_mask | m.clear_mask, m.set_mask), reg) == (if reg == group_register(g, REG_SET_0) {
            m.set_mask
        } else if reg == group_register(g, REG_CLEAR_0) {
            m.clear_mask
        } else {
            0
        }),
{
    let set = m.set_mask;
    let clear = m.clear_mask;
    assert(set & clear == 0 ==> (set | clear) & set == set && (set | clear) & !set == clear) by (bit_vector);
    assert(set | 0 == set && clear | 0 == clear) by (bit_vector);
    let sets = if set != 0 {
        seq![write_step(group_register(g, REG_SET_0), set, ErrorScope::Group(g))]
    } else {
        Seq::empty()
    };
    let clears = if clear != 0 {
        seq![write_step(group_register(g, REG_CLEAR_0), clear, ErrorScope::Group(g))]
    } else {
        Seq::empty()
    };
    assert(write_masked_steps(g, set | clear, set) =~= sets + clears);
    lemma_written_concat(sets, clears, reg);
    reveal_with_fuel(written_bits, 2);
    if set != 0 {
        assert(sets.drop_first() =~= Seq::<RegisterStep>::empty());
    }
    if clear != 0 {
        assert(clears.drop_first() =~= Seq::<RegisterStep>::empty());
    }
    let ws = written_bits(sets, reg);
    let wc = written_bits(clears, reg);
    assert(ws | 0 == ws && 0 | wc == wc) by (bit_vector);
}

/// Committing a transaction writes each pin pending high to its group's SET register and each
/// pin pending low to its group's CLEAR register, and no other pin to either.
pub proof fn commit_applies_pending(s: TransactionState, pin: u8)
    requires
        consistent(s),
        pin < 32,
    ensures
        bit_set(written_bits(commit_steps(s), group_register(group_of(pin), REG_SET_0)), pin_mask(pin))
            == (pending_level(s, pin) == Some(GpioLevel::High)),
        bit_set(written_bits(commit_steps(s), group_register(group_of(pin), REG_CLEAR_0)), pin_mask(pin))
            == (pending_level(s, pin) == Some(GpioLevel::Low)),
{
    let set_reg = group_register(group_of(pin), REG_SET_0);
    let clear_reg = group_register(group_of(pin), REG_CLEAR_0);
    let m0 = s.group0;
    let m1 = s.group1;
    let c = (pin % 16) as u16;
    let s0 = m0.set_mask;
    let c0 = m0.clear_mask;
    let s1 = m1.set_mask;
    let c1 = m1.clear_mask;
    assert((s0 | c0 | s1 | c1) == 0 ==> s0 == 0 && c0 == 0 && s1 == 0 && c1 == 0) by (bit_vector);
    assert(c < 16 ==> (s0 & c0 == 0 ==> !((s0 & (1u16 << c)) != 0 && (c0 & (1u16 << c)) != 0))) by (bit_vector);
    assert(c < 16 ==> (s1 & c1 == 0 ==> !((s1 & (1u16 << c)) != 0 && (c1 & (1u16 << c)) != 0))) by (bit_vector);
    assert(c < 16 ==> (0u16 & (1u16 << c)) == 0) by (bit_vector);
    let a = if m0.set_mask != 0 || m0.clear_mask != 0 {
        write_masked_steps(GpioGroup::Group0, m0.set_mask | m0.clear_mask, m0.set_mask)
    } else {
        Seq::empty()
    };
    let b = if m1.set_mask != 0 || m1.clear_mask != 0 {
        write_masked_steps(GpioGroup::Group1, m1.set_mask | m1.clear_mask, m1.set_mask)
    } else {
        Seq::empty()
    };
    if s.has_changes {
        assert(commit_steps(s) == a + b);
        lemma_written_concat(a, b, set_reg);
        lemma_written_concat(a, b, clear_reg);
        lemma_written_masked(GpioGroup::Group0, m0, set_reg);
        lemma_written_masked(GpioGroup::Group0, m0, clear_reg);
        lemma_written_masked(GpioGroup::Group1, m1, set_reg);
        lemma_written_masked(GpioGroup::Group1, m1, clear_reg);
        let wa = written_bits(a, set_reg);
        let wb = written_bits(b, set_reg);
        let va = written_bits(a, clear_reg);
        let vb = written_bits(b, clear_reg);
        assert(wa | 0 == wa && 0 | wb == wb && va | 0 == va && 0 | vb == vb) by (bit_vector);
    }
}

/// Configuring a pin's interrupt leaves its enable bit as asked; enabling also sets its
/// rising-edge and falling-edge bits as asked, while disabling leaves them as they were; the
/// bits of the other pins stay as they were.
pub proof fn interrupt_configuration(
    regs: Map<u16, u16>,
    pin: u8,
    enable: bool,
    positive_edge: bool,
    negative_edge: bool,
    other: u8,
    base: u16,
)
    requires
        register_file(regs),
        pin < 32,
        other < 32,
        other != pin,
        base == REG_INTR_MASK_0 || base == REG_INTR_POS_EDGE_0 || base == REG_INTR_NEG_EDGE_0,
    ensures
        ({
            let g = group_of(pin);
            let after = registers_after(regs, interrupt_steps(pin, enable, positive_edge, negative_edge));
            let pos = group_register(g, REG_INTR_POS_EDGE_0);
            let neg = group_register(g, REG_INTR_NEG_EDGE_0);
            let reg_other = group_register(group_of(other), base);
            &&& bit_set(after[group_register(g, REG_INTR_MASK_0)], pin_mask(pin)) == enable
            &&& enable ==> bit_set(after[pos], pin_mask(pin)) == positive_edge && bit_set(after[neg], pin_mask(pin))
                == negative_edge
            &&& !enable ==> after[pos] == regs[pos] && after[neg] == regs[neg]
            &&& bit_set(after[reg_other], pin_mask(other)) == bit_set(regs[reg_other], pin_mask(other))
        }),
{
    let g = group_of(pin);
    let m = pin_mask(pin);
    let mreg = group_register(g, REG_INTR_MASK_0);
    let pos = group_register(g, REG_INTR_POS_EDGE_0);
    let neg = group_register(g, REG_INTR_NEG_EDGE_0);
    let a = set_bits_step(mreg, m, enable, ErrorScope::Device);
    let b = set_bits_step(pos, m, positive_edge, ErrorScope::Device);
    let c = set_bits_step(neg, m, negative_edge, ErrorScope::Device);
    let reg_other = group_register(group_of(other), base);
    lemma_single_bits((pin % 16) as u16, (pin % 16) as u16);
    lemma_pins_apart(pin, other, base);
    lemma_set_bits_step(regs, mreg, m, enable, ErrorScope::Device);
    let r1 = registers_after(regs, seq![a]);
    lemma_set_bits_value(regs[mreg], m, enable, pin);
    lemma_set_bits_value(regs[mreg], m, enable, other);
    if enable {
        assert(interrupt_steps(pin, enable, positive_edge, negative_edge) =~= seq![a] + (seq![b] + seq![c]));
        lemma_run_concat(regs, seq![a], seq![b] + seq![c]);
        lemma_run_concat(r1, seq![b], seq![c]);
        lemma_set_bits_step(r1, pos, m, positive_edge, ErrorScope::Device);
        let r2 = registers_after(r1, seq![b]);
        lemma_set_bits_step(r2, neg, m, negative_edge, ErrorScope::Device);
        lemma_set_bits_value(regs[pos], m, positive_edge, pin);
        lemma_set_bits_value(regs[pos], m, positive_edge, other);
        lemma_set_bits_value(regs[neg], m, negative_edge, pin);
        lemma_set_bits_value(regs[neg], m, negative_edge, other);
    } else {
        assert(interrupt_steps(pin, enable, positive_edge, negative_edge) =~= seq![a]);
    }
}

/// The value of a register after the bits of `mask` were set (`enable`) or cleared.
pub open spec fn set_value(v: u16, mask: u16, enable: bool) -> u16 {
    if enable {
        updated_value(v, 0, mask)
    } else {
        updated_value(v, mask, 0)
    }
}

/// The pull steps of group `g` for `mask`, none when the mask is empty.
pub open spec fn optional_pull_steps(g: GpioGroup, mask: u16, pull: GpioPull) -> Seq<RegisterStep> {
    if mask != 0 {
        group_pull_steps(g, mask, pull)
    } else {
        Seq::empty()
    }
}

/// The direction step of group `g` for `mask`, none when the mask is empty.
pub open spec fn optional_direction_steps(g: GpioGroup, mask: u16, out: bool) -> Seq<RegisterStep> {
    if mask != 0 {
        group_set_steps(g, REG_DIR_0, mask, out)
    } else {
        Seq::empty()
    }
}

/// Setting or clearing no bit keeps a value.
proof fn lemma_set_nothing(v: u16, enable: bool)
    ensures
        set_value(v, 0, enable) == v,
{
    assert((v & !0u16) | 0u16 == v) by (bit_vector);
}

/// The registers after the pull steps of group `g` for `mask`, which are left out when the mask is empty.
proof fn lemma_optional_pull(regs: Map<u16, u16>, g: GpioGroup, mask: u16, pull: GpioPull)
    requires
        register_file(regs),
    ensures
        ({
            let up = group_register(g, REG_PULL_UP_0);
            let down = group_register(g, REG_PULL_DOWN_0);
            let after = registers_after(regs, optional_pull_steps(g, mask, pull));
            &&& register_file(after)
            &&& after[up] == set_value(regs[up], mask, pull == GpioPull::Up)
            &&& after[down] == set_value(regs[down], mask, pull == GpioPull::Down)
            &&& forall|r: u16| r != up && r != down ==> #[trigger] after[r] == regs[r]
        }),
{
    let up = group_register(g, REG_PULL_UP_0);
    let down = group_register(g, REG_PULL_DOWN_0);
    lemma_pull_registers_apart(g, g);
    if mask != 0 {
        lemma_pull_steps(regs, up, down, mask, pull, ErrorScope::Device);
    } else {
        lemma_run_empty(regs);
        lemma_set_nothing(regs[up], pull == GpioPull::Up);
        lemma_set_nothing(regs[down], pull == GpioPull::Down);
    }
}

/// The registers after the direction step of group `g` for `mask`, left out when the mask is empty.
proof fn lemma_optional_direction(regs: Map<u16, u16>, g: GpioGroup, mask: u16, out: bool)
    requires
        register_file(regs),
    ensures
        ({
            let dir = group_register(g, REG_DIR_0);
            let after = registers_after(regs, optional_direction_steps(g, mask, out));
            &&& register_file(after)
            &&& after[dir] == set_value(regs[dir], mask, out)
            &&& forall|r: u16| r != dir ==> #[trigger] after[r] == regs[r]
        }),
{
    let dir = group_register(g, REG_DIR_0);
    if mask != 0 {
        lemma_set_bits_step(regs, dir, mask, out, ErrorScope::Group(g));
    } else {
        lemma_run_empty(regs);
        lemma_set_nothing(regs[dir], out);
    }
}

/// A pin's bit is in the group mask of a list of pins exactly when the pin is listed.
proof fn lemma_group_mask_bit(pins: Seq<u8>, q: u8)
    requires
        forall|i: int| 0 <= i < pins.len() ==> #[trigger] pins[i] < 32,
        q < 32,
    ensures
        bit_set(group_mask(pins, group_of(q)), pin_mask(q)) == pins.contains(q),
    decreases pins.len(),
{
    let c = (q % 16) as u16;
    if pins.len() == 0 {
        assert(c < 16 ==> (0u16 & (1u16 << c)) == 0) by (bit_vector);
    } else {
        let x = pins.last();
        let rest = pins.drop_last();
        assert forall|i: int| 0 <= i < rest.len() implies #[trigger] rest[i] < 32 by {
            assert(rest[i] == pins[i]);
        }
        lemma_group_mask_bit(rest, q);
        assert(pins =~= rest.push(x));
        assert(pins.contains(q) == (rest.contains(q) || x == q)) by {
            if x == q {
                assert(pins[pins.len() - 1] == q);
            }
            if rest.contains(q) {
                let k = choose|k: int| 0 <= k < rest.len() && rest[k] == q;
                assert(pins[k] == q);
            }
            if pins.contains(q) && x != q {
                let k = choose|k: int| 0 <= k < pins.len() && pins[k] == q;
                assert(k < rest.len());
                assert(rest[k] == q);
            }
        }
        assert(x < 32) by {
            assert(pins[pins.len() - 1] == x);
        }
        let d = (x % 16) as u16;
        let a = group_mask(rest, group_of(q));
        lemma_single_bits(d, c);
        assert(c < 16 ==> (((a | (1u16 << d)) & (1u16 << c)) != 0) == ((a & (1u16 << c)) != 0 || ((1u16 << d) & (1u16
            << c)) != 0)) by (bit_vector);
    }
}

/// Configuring a list of pins in bulk gives each listed pin the direction and pull asked for,
/// and leaves the direction and pull of every other pin as they were; it takes at most three
/// register updates per group, however many pins are listed.
pub proof fn bulk_config_then_read(regs: Map<u16, u16>, pins: Seq<u8>, direction: GpioDirection, pull: GpioPull, q: u8)
    requires
        register_file(regs),
        forall|i: int| 0 <= i < pins.len() ==> #[trigger] pins[i] < 32,
        q < 32,
    ensures
        ({
            let m0 = group_mask(pins, GpioGroup::Group0);
            let m1 = group_mask(pins, GpioGroup::Group1);
            let after = registers_after(regs, bulk_steps(m0, m1, direction, pull));
            let dir = group_register(group_of(q), REG_DIR_0);
            let up = group_register(group_of(q), REG_PULL_UP_0);
            let down = group_register(group_of(q), REG_PULL_DOWN_0);
            &&& bulk_steps(m0, m1, direction, pull).len() <= 6
            &&& pins.contains(q) ==> direction_of(after[dir], q) == direction && pull_of(after[up], after[down], q) == pull
            &&& !pins.contains(q) ==> direction_of(after[dir], q) == direction_of(regs[dir], q) && pull_of(
                after[up],
                after[down],
                q,
            ) == pull_of(regs[up], regs[down], q)
        }),
{
    let m0 = group_mask(pins, GpioGroup::Group0);
    let m1 = group_mask(pins, GpioGroup::Group1);
    let out = direction == GpioDirection::Output;
    let a0 = optional_pull_steps(GpioGroup::Group0, m0, pull);
    let a1 = optional_pull_steps(GpioGroup::Group1, m1, pull);
    let b0 = optional_direction_steps(GpioGroup::Group0, m0, out);
    let b1 = optional_direction_steps(GpioGroup::Group1, m1, out);
    assert(bulk_steps(m0, m1, direction, pull) == a0 + a1 + b0 + b1);
    lemma_run_concat(regs, a0 + a1 + b0, b1);
    lemma_run_concat(regs, a0 + a1, b0);
    lemma_run_concat(regs, a0, a1);
    lemma_optional_pull(regs, GpioGroup::Group0, m0, pull);
    let s1 = registers_after(regs, a0);
    lemma_optional_pull(s1, GpioGroup::Group1, m1, pull);
    let s2 = registers_after(s1, a1);
    lemma_optional_direction(s2, GpioGroup::Group0, m0, out);
    let s3 = registers_after(s2, b0);
    lemma_optional_direction(s3, GpioGroup::Group1, m1, out);
    lemma_pull_registers_apart(GpioGroup::Group0, GpioGroup::Group1);
    lemma_pull_registers_apart(GpioGroup::Group1, GpioGroup::Group0);
    lemma_pull_registers_apart(GpioGroup::Group0, GpioGroup::Group0);
    lemma_pull_registers_apart(GpioGroup::Group1, GpioGroup::Group1);
    lemma_group_mask_bit(pins, q);
    let g = group_of(q);
    let m = group_mask(pins, g);
    let dir = group_register(g, REG_DIR_0);
    let up = group_register(g, REG_PULL_UP_0);
    let down = group_register(g, REG_PULL_DOWN_0);
    lemma_pull_value(regs[up], regs[down], m, pull, q);
    lemma_set_bits_value(regs[dir], m, out, q);
    let s4 = registers_after(s3, b1);
    assert(registers_after(regs, bulk_steps(m0, m1, direction, pull)) == s4);
    assert(s4[up] == set_value(regs[up], m, pull == GpioPull::Up));
    assert(s4[down] == set_value(regs[down], m, pull == GpioPull::Down));
    assert(s4[dir] == set_value(regs[dir], m, out));
}

/// Output latches of group 0 and group 1 after `value` is written to `register`, on a device
/// where a group's SET register ORs the value written into the group's output latch, its CLEAR
/// register clears those bits, and other registers leave the latches alone.
pub open spec fn latches_after_write(latches: (u16, u16), register: u16, value: u16) -> (u16, u16) {
    if register == REG_SET_0 {
        (latches.0 | value, latches.1)
    } else if register == REG_CLEAR_0 {
        (latches.0 & !value, latches.1)
    } else if register == REG_SET_1 {
        (latches.0, latches.1 | value)
    } else if register == REG_CLEAR_1 {
        (latches.0, latches.1 & !value)
    } else {
        latches
    }
}

/// Output latches after the writes among `steps`, in order.
pub open spec fn latches_after(latches: (u16, u16), steps: Seq<RegisterStep>) -> (u16, u16)
    decreases steps.len(),
{
    if steps.len() == 0 {
        latches
    } else {
        let next = match steps[0].op {
            RegisterOp::Write(v) => latches_after_write(latches, steps[0].register, v),
            _ => latches,
        };
        latches_after(next, steps.drop_first())
    }
}

/// Whether the output latch drives pin `pin` (0 to 31) high: pins 0-15 are the bits of the
/// group-0 latch, pins 16-31 those of the group-1 latch.
pub open spec fn drives_high(latches: (u16, u16), pin: u8) -> bool {
    if pin < 16 {
        latches.0 & (1u16 << (pin as u16)) != 0
    } else {
        latches.1 & (1u16 << ((pin - 16) as u16)) != 0
    }
}

/// Bits of a latch after ORing in, or clearing, one pin's bit.
proof fn lemma_latch_bits(x: u16, p: u16, q: u16)
    by (bit_vector)
    requires
        p < 16,
        q < 16,
    ensures
        ((x | (1u16 << p)) & (1u16 << q) != 0) == (p == q || x & (1u16 << q) != 0),
        ((x & !(1u16 << p)) & (1u16 << q) != 0) == (p != q && x & (1u16 << q) != 0),
{
}

/// Latches after one write.
proof fn lemma_latches_one(latches: (u16, u16), s: RegisterStep)
    ensures
        latches_after(latches, seq![s]) == (match s.op {
            RegisterOp::Write(v) => latches_after_write(latches, s.register, v),
            _ => latches,
        }),
{
    reveal_with_fuel(latches_after, 2);
    assert(seq![s].drop_first() =~= Seq::<RegisterStep>::empty());
}

/// Latches after two steps.
proof fn lemma_latches_two(latches: (u16, u16), a: RegisterStep, b: RegisterStep)
    ensures
        latches_after(latches, seq![a, b]) == latches_after(latches_after(latches, seq![a]), seq![b]),
{
    reveal_with_fuel(latches_after, 3);
    assert(seq![a, b].drop_first() =~= seq![b]);
    assert(seq![a].drop_first() =~= Seq::<RegisterStep>::empty());
    assert(seq![b].drop_first() =~= Seq::<RegisterStep>::empty());
}

/// Driving a pin to a level writes its bit to its group's SET register for high and to its
/// CLEAR register for low: afterwards the pin's output latch holds that level, and every other
/// pin keeps its output.
pub proof fn fast_write_drives_the_pin(latches: (u16, u16), pin: u8, level: GpioLevel)
    requires
        pin < 32,
    ensures
        drives_high(latches_after(latches, write_level_steps(pin, level)), pin) == (level == GpioLevel::High),
        forall|q: u8|
            q < 32 && q != pin ==> drives_high(latches_after(latches, write_level_steps(pin, level)), q)
                == #[trigger] drives_high(latches, q),
{
    let steps = write_level_steps(pin, level);
    lemma_latches_one(latches, steps[0]);
    assert(steps =~= seq![steps[0]]);
    let after = latches_after(latches, steps);
    let b = (pin % 16) as u16;
    assert(pin_mask(pin) == 1u16 << b);
    assert forall|q: u8| q < 32 implies (drives_high(after, q) == if q == pin {
        level == GpioLevel::High
    } else {
        drives_high(latches, q)
    }) by {
        let c = (q % 16) as u16;
        lemma_latch_bits(latches.0, b, c);
        lemma_latch_bits(latches.1, b, c);
        if q < 16 {
            assert(c == q as u16);
        } else {
            assert(c == (q - 16) as u16);
        }
    }
}

/// Bit `b` of a latch after a masked write: SET of `mask & values`, then CLEAR of
/// `mask & !values`.
proof fn lemma_masked_bits(x: u16, mask: u16, values: u16, b: u16)
    by (bit_vector)
    requires
        b < 16,
    ensures
        (((x | (mask & values)) & !(mask & !values)) & (1u16 << b) != 0) == (if mask & (1u16 << b) != 0 {
            values & (1u16 << b) != 0
        } else {
            x & (1u16 << b) != 0
        }),
        (mask & values == 0) ==> (x | (mask & values)) == x,
        (mask & !values == 0) ==> (x & !(mask & !values)) == x,
{
}

/// Driving the pins of a group's mask to the levels in `values` raises the pins whose value bit
/// is 1 and lowers those whose bit is 0, through the group's SET and CLEAR registers; every pin
/// outside the mask, and every pin of the other group, keeps its output.
pub proof fn masked_write_drives_the_masked_pins(latches: (u16, u16), g: GpioGroup, mask: u16, values: u16)
    ensures
        forall|q: u8|
            q < 32 ==> #[trigger] drives_high(latches_after(latches, write_masked_steps(g, mask, values)), q) == (if (if g
                == GpioGroup::Group0 { q < 16 } else { q >= 16 }) && mask & (1u16 << ((q % 16) as u16)) != 0 {
                values & (1u16 << ((q % 16) as u16)) != 0
            } else {
                drives_high(latches, q)
            }),
{
    let steps = write_masked_steps(g, mask, values);
    let sm = mask & values;
    let cm = mask & !values;
    let set_reg = group_register(g, REG_SET_0);
    let clear_reg = group_register(g, REG_CLEAR_0);
    let after_set = if sm != 0 { latches_after_write(latches, set_reg, sm) } else { latches };
    let after = if cm != 0 { latches_after_write(after_set, clear_reg, cm) } else { after_set };
    if sm != 0 && cm != 0 {
        let a = write_step(set_reg, sm, ErrorScope::Group(g));
        let c = write_step(clear_reg, cm, ErrorScope::Group(g));
        assert(steps =~= seq![a, c]);
        lemma_latches_two(latches, a, c);
        lemma_latches_one(latches, a);
        lemma_latches_one(after_set, c);
    } else if sm != 0 {
        let a = write_step(set_reg, sm, ErrorScope::Group(g));
        assert(steps =~= seq![a]);
        lemma_latches_one(latches, a);
    } else if cm != 0 {
        let c = write_step(clear_reg, cm, ErrorScope::Group(g));
        assert(steps =~= seq![c]);
        lemma_latches_one(latches, c);
    } else {
        assert(steps =~= Seq::<RegisterStep>::empty());
        assert(latches_after(latches, steps) == latches);
    }
    assert(latches_after(latches, steps) == after);
    let x0 = latches.0;
    let x1 = latches.1;
    lemma_masked_bits(x0, mask, values, 0);
    lemma_masked_bits(x1, mask, values, 0);
    lemma_masked_bits(x0 | sm, mask, values, 0);
    lemma_masked_bits(x1 | sm, mask, values, 0);
    if g == GpioGroup::Group0 {
        assert(set_reg == REG_SET_0 && clear_reg == REG_CLEAR_0);
        assert(after.0 == (x0 | sm) & !cm);
        assert(after.1 == x1);
    } else {
        assert(set_reg == REG_SET_1 && clear_reg == REG_CLEAR_1);
        assert(after.1 == (x1 | sm) & !cm);
        assert(after.0 == x0);
    }
    assert forall|q: u8| q < 32 implies #[trigger] drives_high(after, q) == (if (if g == GpioGroup::Group0 {
        q < 16
    } else {
        q >= 16
    }) && mask & (1u16 << ((q % 16) as u16)) != 0 {
        values & (1u16 << ((q % 16) as u16)) != 0
    } else {
        drives_high(latches, q)
    }) by {
        let b = (q % 16) as u16;
        lemma_masked_bits(latches.0, mask, values, b);
        lemma_masked_bits(latches.1, mask, values, b);
        if q < 16 {
            assert(b == q as u16);
        } else {
            assert(b == (q - 16) as u16);
        }
    }
}

/// Reading a pin's level reads its own group's state register: group 0's for pins 0-15, group
/// 1's for pins 16-31.
pub proof fn level_read_from_the_group_state_register(regs: Map<u16, u16>, pin: u8)
    ensures
        values_read(regs, pin_read_steps(pin, REG_STATE_0)) == seq![regs[if pin < 16 { REG_STATE_0 } else { REG_STATE_1 }]],
{
    lemma_run_one(regs, pin_read_steps(pin, REG_STATE_0)[0]);
    assert(pin_read_steps(pin, REG_STATE_0) =~= seq![pin_read_steps(pin, REG_STATE_0)[0]]);
}

/// Each GPIO register of group 0 is its own register for group 0, and its group-1 counterpart
/// is the register of the same name for group 1.
pub proof fn group_registers_are_the_named_ones()
    ensures
        group_register(GpioGroup::Group0, crate::consts::REG_FUNC_SEL_0) == crate::consts::REG_FUNC_SEL_0,
        group_register(GpioGroup::Group1, crate::consts::REG_FUNC_SEL_0) == crate::consts::REG_FUNC_SEL_1,
        group_register(GpioGroup::Group0, crate::consts::REG_DIR_0) == crate::consts::REG_DIR_0,
        group_register(GpioGroup::Group1, crate::consts::REG_DIR_0) == crate::consts::REG_DIR_1,
        group_register(GpioGroup::Group0, crate::consts::REG_SET_0) == crate::consts::REG_SET_0,
        group_register(GpioGroup::Group1, crate::consts::REG_SET_0) == crate::consts::REG_SET_1,
        group_register(GpioGroup::Group0, crate::consts::REG_CLEAR_0) == crate::consts::REG_CLEAR_0,
        group_register(GpioGroup::Group1, crate::consts::REG_CLEAR_0) == crate::consts::REG_CLEAR_1,
        group_register(GpioGroup::Group0, crate::consts::REG_STATE_0) == crate::consts::REG_STATE_0,
        group_register(GpioGroup::Group1, crate::consts::REG_STATE_0) == crate::consts::REG_STATE_1,
        group_register(GpioGroup::Group0, crate::consts::REG_TRI_STATE_0) == crate::consts::REG_TRI_STATE_0,
        group_register(GpioGroup::Group1, crate::consts::REG_TRI_STATE_0) == crate::consts::REG_TRI_STATE_1,
        group_register(GpioGroup::Group0, crate::consts::REG_OPEN_DRAIN_0) == crate::consts::REG_OPEN_DRAIN_0,
        group_register(GpioGroup::Group1, crate::consts::REG_OPEN_DRAIN_0) == crate::consts::REG_OPEN_DRAIN_1,
        group_register(GpioGroup::Group0, crate::consts::REG_PULL_UP_0) == crate::consts::REG_PULL_UP_0,
        group_register(GpioGroup::Group1, crate::consts::REG_PULL_UP_0) == crate::consts::REG_PULL_UP_1,
        group_register(GpioGroup::Group0, crate::consts::REG_PULL_DOWN_0) == crate::consts::REG_PULL_DOWN_0,
        group_register(GpioGroup::Group1, crate::consts::REG_PULL_DOWN_0) == crate::consts::REG_PULL_DOWN_1,
        group_register(GpioGroup::Group0, crate::consts::REG_INTR_MASK_0) == crate::consts::REG_INTR_MASK_0,
        group_register(GpioGroup::Group1, crate::consts::REG_INTR_MASK_0) == crate::consts::REG_INTR_MASK_1,
        group_register(GpioGroup::Group0, crate::consts::REG_INTR_POS_EDGE_0) == crate::consts::REG_INTR_POS_EDGE_0,
        group_register(GpioGroup::Group1, crate::consts::REG_INTR_POS_EDGE_0) == crate::consts::REG_INTR_POS_EDGE_1,
        group_register(GpioGroup::Group0, crate::consts::REG_INTR_NEG_EDGE_0) == crate::consts::REG_INTR_NEG_EDGE_0,
        group_register(GpioGroup::Group1, crate::consts::REG_INTR_NEG_EDGE_0) == crate::consts::REG_INTR_NEG_EDGE_1,
{
}

} // verus!
