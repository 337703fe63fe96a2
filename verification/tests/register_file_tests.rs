use std::collections::HashMap;
use xr2280x_hid::consts::{REG_CLEAR_0, REG_CLEAR_1, REG_DIR_0, REG_SET_0, REG_SET_1};
use xr2280x_hid::device::Capabilities;
use xr2280x_hid::gpio::{
    assign_to_edge_plan, bulk_config_plan, direction_from_register, get_direction_plan, get_pull_plan,
    is_assigned_to_edge_plan, is_open_drain_plan, is_tri_stated_plan, pin_bit_set, pull_from_registers,
    read_group_plan, set_direction_masked_plan, set_direction_plan, set_open_drain_plan, set_pull_plan,
    set_tri_state_plan, setup_plan,
};
use xr2280x_hid::interrupt::configure_interrupt_plan;
use xr2280x_hid::pwm::{control_from_ctrl, control_plan, get_ctrl_plan, get_periods_plan, pin_from_ctrl, set_periods_plan, set_pin_plan};
use xr2280x_hid::register::{BusAction, PlanRunner, RegisterPlan};
use xr2280x_hid::{GpioDirection, GpioGroup, GpioPin, GpioPull, GpioTransaction, PwmChannel, PwmCommand};

/// A device whose registers hold what was last written; every write is also logged.
struct RegisterFile {
    regs: HashMap<u16, u16>,
    writes: Vec<(u16, u16)>,
}

impl RegisterFile {
    fn new() -> Self {
        RegisterFile { regs: HashMap::new(), writes: Vec::new() }
    }

    fn get(&self, reg: u16) -> u16 {
        *self.regs.get(&reg).unwrap_or(&0)
    }

    fn run(&mut self, plan: RegisterPlan) -> Vec<u16> {
        let (mut runner, mut action) = PlanRunner::start(plan);
        loop {
            action = match action {
                BusAction::ReadRegister(r) => {
                    let v = self.get(r);
                    runner.on_read(Ok(v))
                }
                BusAction::WriteRegister(r, v) => {
                    self.regs.insert(r, v);
                    self.writes.push((r, v));
                    runner.on_write(Ok(()))
                }
                BusAction::Finished(result) => return result.unwrap(),
            };
        }
    }
}

const ALL32: Capabilities = Capabilities { gpio_count: 32 };

fn pin(n: u8) -> GpioPin {
    GpioPin::new(n).unwrap()
}

#[test]
fn direction_reads_back_and_spares_other_pins() {
    let mut dev = RegisterFile::new();
    dev.regs.insert(REG_DIR_0, 0b1000);
    dev.run(set_direction_plan(&ALL32, pin(1), GpioDirection::Output).unwrap());
    let v = dev.run(get_direction_plan(&ALL32, pin(1)).unwrap());
    assert_eq!(direction_from_register(v[0], pin(1)), GpioDirection::Output);
    assert_eq!(direction_from_register(dev.get(REG_DIR_0), pin(3)), GpioDirection::Output);
    dev.run(set_direction_plan(&ALL32, pin(1), GpioDirection::Input).unwrap());
    let v = dev.run(get_direction_plan(&ALL32, pin(1)).unwrap());
    assert_eq!(direction_from_register(v[0], pin(1)), GpioDirection::Input);
    assert_eq!(dev.get(REG_DIR_0), 0b1000);
}

#[test]
fn pull_reads_back() {
    for pull in [GpioPull::Up, GpioPull::Down, GpioPull::Floating] {
        let mut dev = RegisterFile::new();
        dev.run(set_pull_plan(&ALL32, pin(20), GpioPull::Up).unwrap());
        dev.run(set_pull_plan(&ALL32, pin(21), GpioPull::Down).unwrap());
        dev.run(set_pull_plan(&ALL32, pin(20), pull).unwrap());
        let v = dev.run(get_pull_plan(&ALL32, pin(20)).unwrap());
        assert_eq!(pull_from_registers(v[0], v[1], pin(20)), pull);
        let w = dev.run(get_pull_plan(&ALL32, pin(21)).unwrap());
        assert_eq!(pull_from_registers(w[0], w[1], pin(21)), GpioPull::Down);
    }
}

#[test]
fn pin_settings_read_back() {
    let mut dev = RegisterFile::new();
    dev.run(set_open_drain_plan(&ALL32, pin(7), true).unwrap());
    dev.run(set_tri_state_plan(&ALL32, pin(30), true).unwrap());
    dev.run(assign_to_edge_plan(&ALL32, pin(12)).unwrap());
    let od = dev.run(is_open_drain_plan(&ALL32, pin(7)).unwrap());
    let ts = dev.run(is_tri_stated_plan(&ALL32, pin(30)).unwrap());
    let edge = dev.run(is_assigned_to_edge_plan(&ALL32, pin(12)).unwrap());
    assert!(pin_bit_set(od[0], pin(7)));
    assert!(pin_bit_set(ts[0], pin(30)));
    assert!(pin_bit_set(edge[0], pin(12)));
    let other = dev.run(is_open_drain_plan(&ALL32, pin(6)).unwrap());
    assert!(!pin_bit_set(other[0], pin(6)));
    dev.run(set_open_drain_plan(&ALL32, pin(7), false).unwrap());
    let od = dev.run(is_open_drain_plan(&ALL32, pin(7)).unwrap());
    assert!(!pin_bit_set(od[0], pin(7)));
}

#[test]
fn setup_gives_the_pin_its_direction_and_pull() {
    let mut dev = RegisterFile::new();
    dev.run(setup_plan(&ALL32, pin(18), GpioDirection::Output, GpioPull::Up).unwrap());
    let d = dev.run(get_direction_plan(&ALL32, pin(18)).unwrap());
    let p = dev.run(get_pull_plan(&ALL32, pin(18)).unwrap());
    assert_eq!(direction_from_register(d[0], pin(18)), GpioDirection::Output);
    assert_eq!(pull_from_registers(p[0], p[1], pin(18)), GpioPull::Up);
}

#[test]
fn bulk_configuration_covers_the_listed_pins_only() {
    let mut dev = RegisterFile::new();
    let pins = [pin(0), pin(5), pin(16), pin(31)];
    let plan = bulk_config_plan(&ALL32, &pins, GpioDirection::Output, GpioPull::Down).unwrap();
    assert!(plan.steps.len() <= 6);
    dev.run(plan);
    for n in 0..32u8 {
        let d = dev.run(get_direction_plan(&ALL32, pin(n)).unwrap());
        let p = dev.run(get_pull_plan(&ALL32, pin(n)).unwrap());
        let listed = [0, 5, 16, 31].contains(&n);
        let dir = direction_from_register(d[0], pin(n));
        let pull = pull_from_registers(p[0], p[1], pin(n));
        if listed {
            assert_eq!((dir, pull), (GpioDirection::Output, GpioPull::Down), "pin {n}");
        } else {
            assert_eq!((dir, pull), (GpioDirection::Input, GpioPull::Floating), "pin {n}");
        }
    }
}

#[test]
fn masked_direction_changes_the_masked_pins() {
    let mut dev = RegisterFile::new();
    dev.run(set_direction_masked_plan(&ALL32, GpioGroup::Group1, 0x00F0, GpioDirection::Output).unwrap());
    dev.run(set_direction_masked_plan(&ALL32, GpioGroup::Group1, 0x0030, GpioDirection::Input).unwrap());
    assert_eq!(dev.get(REG_DIR_0 + 12), 0x00C0);
    assert_eq!(dev.get(REG_DIR_0), 0);
}

#[test]
fn interrupt_disable_keeps_the_edges() {
    let mut dev = RegisterFile::new();
    dev.run(configure_interrupt_plan(&ALL32, pin(3), true, true, false).unwrap());
    let before = dev.regs.clone();
    dev.run(configure_interrupt_plan(&ALL32, pin(3), false, false, true).unwrap());
    let changed: Vec<u16> =
        dev.regs.iter().filter(|(r, v)| before.get(r) != Some(v)).map(|(r, _)| *r).collect();
    assert_eq!(changed.len(), 1);
    assert_eq!(dev.get(changed[0]) & 0b1000, 0);
}

#[test]
fn pwm_settings_read_back() {
    let mut dev = RegisterFile::new();
    dev.run(set_periods_plan(PwmChannel::Pwm1, 300, 4000).unwrap());
    assert_eq!(dev.run(get_periods_plan(PwmChannel::Pwm1)), vec![300, 4000]);

    dev.run(control_plan(PwmChannel::Pwm0, true, PwmCommand::FreeRun));
    dev.run(set_pin_plan(&ALL32, PwmChannel::Pwm0, pin(22)).unwrap());
    let v = dev.run(get_ctrl_plan(PwmChannel::Pwm0));
    assert_eq!(pin_from_ctrl(v[0]).unwrap().number(), 22);
    assert_eq!(control_from_ctrl(v[0]), (true, PwmCommand::FreeRun));

    dev.run(control_plan(PwmChannel::Pwm0, false, PwmCommand::Undefined(5)));
    let v = dev.run(get_ctrl_plan(PwmChannel::Pwm0));
    assert_eq!(control_from_ctrl(v[0]), (false, PwmCommand::OneShot));
    assert_eq!(pin_from_ctrl(v[0]).unwrap().number(), 22);
}

#[test]
fn commit_writes_the_pending_levels_once() {
    let mut t = GpioTransaction::new(ALL32);
    t.set_high(pin(1)).unwrap();
    t.set_low(pin(1)).unwrap();
    t.set_high(pin(2)).unwrap();
    t.set_low(pin(17)).unwrap();
    let (plan, count) = t.commit();
    let mut dev = RegisterFile::new();
    dev.run(plan);
    assert_eq!(count, 3);
    assert_eq!(dev.writes, vec![(REG_SET_0, 0b100), (REG_CLEAR_0, 0b010), (REG_CLEAR_1, 0b010)]);
    assert!(!dev.writes.iter().any(|(r, _)| *r == REG_SET_1));
}

#[test]
fn group_read_returns_the_state_register() {
    let mut dev = RegisterFile::new();
    dev.regs.insert(0x03C4 + 12, 0xBEEF);
    assert_eq!(dev.run(read_group_plan(&ALL32, GpioGroup::Group1).unwrap()), vec![0xBEEF]);
}
