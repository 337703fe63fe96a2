use xr2280x_hid::consts::{
    REG_DIR_0, REG_DIR_1, REG_FUNC_SEL_0, REG_INTR_MASK_0, REG_INTR_NEG_EDGE_0, REG_INTR_POS_EDGE_0,
    REG_PULL_DOWN_1, REG_PULL_UP_1, REG_PWM0_CTRL, REG_PWM1_HIGH, REG_PWM1_LOW, REG_SCL_HIGH, REG_SCL_LOW,
    REG_STATE_0,
};
use xr2280x_hid::device::Capabilities;
use xr2280x_hid::flags::i2c::{ACK_LAST_READ, START_BIT, STOP_BIT};
use xr2280x_hid::gpio::{
    assign_to_edge_plan, bulk_config_plan, direction_from_register, get_pull_plan, level_from_state,
    pull_from_registers, read_group_plan, set_direction_plan, set_pull_plan, setup_plan, write_fast_plan,
    write_masked_plan,
};
use xr2280x_hid::i2c::{set_speed_plan, I2cScan, I2cTransfer, ScanAction};
use xr2280x_hid::interrupt::{configure_interrupt_plan, get_raw_interrupt_data, parse_gpio_interrupt_report};
use xr2280x_hid::pwm::{control_from_ctrl, control_plan, pin_from_ctrl, set_periods_ns_plan, set_periods_plan, set_pin_plan};
use xr2280x_hid::register::{
    decode_register_reply, read_address_report, read_register_request, register_interface, write_register_report,
    BusAction, ErrorScope, PlanRunner, RegisterInterface, RegisterOp, RegisterStep,
};
use xr2280x_hid::text::{decimal_text, hex_text};
use xr2280x_hid::{
    timeouts, Error, GpioDirection, GpioGroup, GpioInterruptReport, GpioLevel, GpioPin, GpioPull, I2cAddress,
    PwmChannel, PwmCommand,
};

const ALL32: Capabilities = Capabilities { gpio_count: 32 };
const ALL8: Capabilities = Capabilities { gpio_count: 8 };

fn pin(n: u8) -> GpioPin {
    GpioPin::new(n).unwrap()
}

#[test]
fn flags_have_their_bits() {
    assert_eq!(START_BIT, 0x01);
    assert_eq!(STOP_BIT, 0x02);
    assert_eq!(ACK_LAST_READ, 0x04);
}

#[test]
fn number_texts() {
    assert_eq!(decimal_text(0), "0");
    assert_eq!(decimal_text(1092000), "1092000");
    assert_eq!(hex_text(0x5, 2), "05");
    assert_eq!(hex_text(0x150, 3), "150");
    assert_eq!(hex_text(0xABCD, 2), "ABCD");
}

#[test]
fn register_reports() {
    assert_eq!(write_register_report(0x03C1, 0xBEEF), [0x3C, 0xC1, 0x03, 0xEF, 0xBE]);
    assert_eq!(read_address_report(0x0341), [0x4B, 0x41, 0x03]);
    assert_eq!(read_register_request(), [0x5A, 0, 0]);
    assert_eq!(register_interface(0x0340), RegisterInterface::I2c);
    assert_eq!(register_interface(0x0342), RegisterInterface::I2c);
    assert_eq!(register_interface(0x0343), RegisterInterface::Edge);
    assert_eq!(register_interface(REG_DIR_0), RegisterInterface::Edge);
}

#[test]
fn register_replies() {
    assert_eq!(decode_register_reply(Ok(3), &[0x5A, 0x34, 0x12]).unwrap(), 0x1234);
    assert!(matches!(decode_register_reply(Ok(2), &[0x5A, 0x34, 0x12]), Err(Error::InvalidReport(2))));
    assert!(matches!(decode_register_reply(Ok(3), &[0x11, 0x34, 0x12]), Err(Error::InvalidReport(0x11))));
}

#[test]
fn gpio_plans_name_the_group_registers() {
    let p = set_direction_plan(&ALL32, pin(17), GpioDirection::Output).unwrap();
    assert_eq!(
        p.steps,
        vec![RegisterStep { register: REG_DIR_1, op: RegisterOp::Update { clear: 0, set: 0x0002 }, scope: ErrorScope::Pin(17) }]
    );
    let p = assign_to_edge_plan(&ALL32, pin(3)).unwrap();
    assert_eq!(
        p.steps,
        vec![RegisterStep { register: REG_FUNC_SEL_0, op: RegisterOp::Update { clear: 0, set: 0x0008 }, scope: ErrorScope::Device }]
    );
    let p = set_pull_plan(&ALL32, pin(16), GpioPull::Down).unwrap();
    assert_eq!(
        p.steps,
        vec![
            RegisterStep { register: REG_PULL_UP_1, op: RegisterOp::Update { clear: 1, set: 0 }, scope: ErrorScope::Pin(16) },
            RegisterStep { register: REG_PULL_DOWN_1, op: RegisterOp::Update { clear: 0, set: 1 }, scope: ErrorScope::Pin(16) },
        ]
    );
    assert_eq!(get_pull_plan(&ALL32, pin(16)).unwrap().steps.len(), 2);
}

#[test]
fn eight_gpio_models_refuse_high_pins_and_group1() {
    match set_direction_plan(&ALL8, pin(8), GpioDirection::Input) {
        Err(Error::UnsupportedFeature(m)) => {
            assert_eq!(m, "GPIO pin 8 is not available on this device (only pins 0-7 supported)")
        }
        other => panic!("unexpected {other:?}"),
    }
    assert!(read_group_plan(&ALL8, GpioGroup::Group1).is_err());
    assert!(read_group_plan(&ALL8, GpioGroup::Group0).is_ok());
    assert!(write_fast_plan(&ALL8, pin(7), GpioLevel::High).is_ok());
}

#[test]
fn masked_write_uses_set_then_clear() {
    let p = write_masked_plan(&ALL32, GpioGroup::Group0, 0b1111, 0b0101).unwrap();
    assert_eq!(p.steps.len(), 2);
    assert_eq!(p.steps[0].op, RegisterOp::Write(0b0101));
    assert_eq!(p.steps[1].op, RegisterOp::Write(0b1010));
    let p = write_masked_plan(&ALL32, GpioGroup::Group0, 0b0011, 0b0011).unwrap();
    assert_eq!(p.steps.len(), 1);
    let p = write_masked_plan(&ALL32, GpioGroup::Group0, 0, 0xFFFF).unwrap();
    assert!(p.steps.is_empty());
}

#[test]
fn decoders_read_the_pin_bit() {
    assert_eq!(direction_from_register(0x0004, pin(2)), GpioDirection::Output);
    assert_eq!(direction_from_register(0x0004, pin(18)), GpioDirection::Output);
    assert_eq!(direction_from_register(0x0004, pin(3)), GpioDirection::Input);
    assert_eq!(level_from_state(0x8000, pin(15)), GpioLevel::High);
    assert_eq!(level_from_state(0x8000, pin(14)), GpioLevel::Low);
    assert_eq!(pull_from_registers(0x1, 0x0, pin(0)), GpioPull::Up);
    assert_eq!(pull_from_registers(0x0, 0x1, pin(0)), GpioPull::Down);
    assert_eq!(pull_from_registers(0x1, 0x1, pin(0)), GpioPull::Floating);
    assert_eq!(pull_from_registers(0x0, 0x0, pin(0)), GpioPull::Floating);
}

#[test]
fn setup_and_bulk_plans() {
    let p = setup_plan(&ALL32, pin(1), GpioDirection::Input, GpioPull::Up).unwrap();
    assert_eq!(p.steps.len(), 3);
    assert_eq!(p.steps[2].register, REG_DIR_0);
    let p = bulk_config_plan(&ALL32, &[pin(0), pin(1), pin(17)], GpioDirection::Output, GpioPull::Floating).unwrap();
    assert!(p.steps.iter().any(|s| s.register == REG_DIR_1 && s.op == RegisterOp::Update { clear: 0, set: 0x0002 }));
    assert!(p.steps.iter().any(|s| s.register == REG_DIR_0 && s.op == RegisterOp::Update { clear: 0, set: 0x0003 }));
}

#[test]
fn runner_carries_out_an_update_then_a_read() {
    let plan = set_direction_plan(&ALL32, pin(1), GpioDirection::Output).unwrap();
    let (mut r, a) = PlanRunner::start(plan);
    assert!(matches!(a, BusAction::ReadRegister(REG_DIR_0)));
    assert!(matches!(r.on_read(Ok(0x0100)), BusAction::WriteRegister(REG_DIR_0, 0x0102)));
    match r.on_write(Ok(())) {
        BusAction::Finished(Ok(v)) => assert!(v.is_empty()),
        other => panic!("unexpected {other:?}"),
    }

    let plan = read_group_plan(&ALL32, GpioGroup::Group0).unwrap();
    let (mut r, a) = PlanRunner::start(plan);
    assert!(matches!(a, BusAction::ReadRegister(REG_STATE_0)));
    match r.on_read(Ok(0xA5A5)) {
        BusAction::Finished(Ok(v)) => assert_eq!(v, vec![0xA5A5]),
        other => panic!("unexpected {other:?}"),
    }
}

#[test]
fn runner_reports_invalid_reports_in_the_pin_scope() {
    let plan = set_direction_plan(&ALL32, pin(4), GpioDirection::Output).unwrap();
    let (mut r, _) = PlanRunner::start(plan);
    match r.on_read(Err(Error::InvalidReport(2))) {
        BusAction::Finished(Err(Error::GpioRegisterReadError { pin, register, message })) => {
            assert_eq!(pin, 4);
            assert_eq!(register, REG_DIR_0);
            assert_eq!(message, "Invalid HID report received - check device connection");
        }
        other => panic!("unexpected {other:?}"),
    }
}

#[test]
fn i2c_speed_plan() {
    let p = set_speed_plan(100).unwrap();
    assert_eq!(p.steps[0], RegisterStep { register: REG_SCL_LOW, op: RegisterOp::Write(300), scope: ErrorScope::Device });
    assert_eq!(p.steps[1], RegisterStep { register: REG_SCL_HIGH, op: RegisterOp::Write(300), scope: ErrorScope::Device });
    let p = set_speed_plan(400).unwrap();
    assert_eq!(p.steps[0].op, RegisterOp::Write(78));
    assert_eq!(p.steps[1].op, RegisterOp::Write(75));
    let p = set_speed_plan(150).unwrap();
    assert_eq!(p.steps[0].op, RegisterOp::Write(200));
    match set_speed_plan(401) {
        Err(Error::ArgumentOutOfRange(m)) => assert_eq!(m, "I2C speed 401 kHz out of range (1-400)"),
        other => panic!("unexpected {other:?}"),
    }
    assert!(set_speed_plan(0).is_err());
}

#[test]
fn i2c_out_report_layout() {
    let a = I2cAddress::new_7bit(0x50).unwrap();
    let t = I2cTransfer::start(a, &[0x10, 0x20], 3, START_BIT | STOP_BIT, None).unwrap();
    let r = t.report();
    assert_eq!(r.len(), 36);
    assert_eq!(&r[0..6], &[0x03, 2, 3, 0xA0, 0x10, 0x20]);
    assert!(r[6..].iter().all(|&b| b == 0));
    assert_eq!(t.timeout_ms(), timeouts::READ);

    let t = I2cTransfer::start(I2cAddress::new_10bit(0x2A5).unwrap(), &[0x77], 0, 0x03, Some(7)).unwrap();
    assert_eq!(&t.report()[0..6], &[0x03, 2, 0, 0xF4, 0xA5, 0x77]);
    assert_eq!(t.timeout_ms(), 7);

    assert!(matches!(
        I2cTransfer::start(a, &[0u8; 33], 0, 0, None),
        Err(Error::OperationTooLarge { max: 32, actual: 33 })
    ));
    assert!(matches!(I2cTransfer::start(a, &[], 40, 0, None), Err(Error::OperationTooLarge { max: 32, actual: 40 })));

    let ten = I2cAddress::new_10bit(0x150).unwrap();
    assert!(matches!(
        I2cTransfer::start(ten, &[0u8; 32], 0, 0, None),
        Err(Error::OperationTooLarge { max: 32, actual: 33 })
    ));
    assert!(matches!(
        I2cTransfer::start(ten, &[0u8; 32], 40, 0, None),
        Err(Error::OperationTooLarge { max: 32, actual: 40 })
    ));
    let t = I2cTransfer::start(ten, &[0u8; 31], 0, 0, None).unwrap();
    assert_eq!(&t.report()[0..5], &[0, 32, 0, 0xF2, 0x50]);
}

#[test]
fn i2c_in_report_handling() {
    let a = I2cAddress::new_7bit(0x50).unwrap();
    let t = I2cTransfer::start(a, &[], 4, 0x03, None).unwrap();
    assert!(t.check_sent(Ok(36)).is_ok());
    match t.check_sent(Ok(35)) {
        Err(Error::Io(e)) => assert_eq!(e.to_string(), "Partial HID write"),
        other => panic!("unexpected {other:?}"),
    }

    let mut in_buf = [0u8; 36];
    in_buf[2] = 3;
    in_buf[4..8].copy_from_slice(&[9, 8, 7, 6]);
    let mut out = [0xEEu8; 4];
    t.finish(Ok(36), &in_buf, &mut out).unwrap();
    assert_eq!(out, [9, 8, 7, 0xEE]);

    let mut out = [0u8; 4];
    assert!(matches!(t.finish(Ok(3), &in_buf, &mut out), Err(Error::InvalidReport(3))));
    assert!(matches!(t.finish(Ok(1), &in_buf, &mut out), Err(Error::InvalidReport(1))));
    match t.finish(Ok(0), &in_buf, &mut out) {
        Err(Error::I2cTimeout { address }) => assert_eq!(address, a),
        other => panic!("unexpected {other:?}"),
    }
    in_buf[0] = 0x02;
    assert!(matches!(t.finish(Ok(36), &in_buf, &mut out), Err(Error::I2cNack { .. })));
    in_buf[0] = 0x08;
    assert!(matches!(t.finish(Ok(36), &in_buf, &mut out), Err(Error::I2cTimeout { .. })));
    in_buf[0] = 0x04;
    assert!(matches!(t.finish(Ok(36), &in_buf, &mut out), Err(Error::I2cArbitrationLost { .. })));
    in_buf[0] = 0x01;
    assert!(matches!(t.finish(Ok(36), &in_buf, &mut out), Err(Error::I2cRequestError { .. })));
    in_buf[0] = 0x10;
    assert!(t.finish(Ok(36), &in_buf, &mut out).is_ok());
}

fn nack(a: u8) -> Result<(), Error> {
    Err(Error::I2cNack { address: I2cAddress::Bit7(a) })
}

#[test]
fn scan_reports_the_acknowledging_addresses() {
    let (mut s, a) = I2cScan::start(0x48, 0x4B, timeouts::SCAN);
    assert!(matches!(a, ScanAction::Probe { address: I2cAddress::Bit7(0), timeout_ms: 3 }));
    let mut action = s.on_probe(nack(0));
    let mut found_calls = Vec::new();
    loop {
        match action {
            ScanAction::Probe { address: I2cAddress::Bit7(x), timeout_ms } => {
                assert_eq!(timeout_ms, timeouts::SCAN);
                action = if x == 0x49 || x == 0x4B { s.on_probe(Ok(())) } else { s.on_probe(nack(x)) };
            }
            ScanAction::Report { address, found, index, total } => {
                found_calls.push((address, found, index, total));
                action = s.on_reported();
            }
            ScanAction::Finished(r) => {
                assert_eq!(r.unwrap(), vec![0x49, 0x4B]);
                break;
            }
            other => panic!("unexpected {other:?}"),
        }
    }
    assert_eq!(found_calls, vec![(0x48, false, 0, 4), (0x49, true, 1, 4), (0x4A, false, 2, 4), (0x4B, true, 3, 4)]);
}

#[test]
fn scan_stops_on_a_stuck_bus() {
    let (mut s, _) = I2cScan::start(0x08, 0x77, timeouts::SCAN);
    match s.on_probe(Err(Error::I2cTimeout { address: I2cAddress::Bit7(0) })) {
        ScanAction::Finished(Err(Error::I2cTimeout { address })) => assert_eq!(address, I2cAddress::Bit7(0)),
        other => panic!("unexpected {other:?}"),
    }

    let (mut s, _) = I2cScan::start(0x08, 0x77, timeouts::SCAN);
    s.on_probe(Ok(()));
    match s.on_probe(Err(Error::I2cTimeout { address: I2cAddress::Bit7(8) })) {
        ScanAction::Finished(Err(Error::I2cTimeout { address })) => assert_eq!(address, I2cAddress::Bit7(8)),
        other => panic!("unexpected {other:?}"),
    }
}

#[test]
fn scan_of_an_empty_range_probes_first() {
    let (mut s, _) = I2cScan::start(0x50, 0x40, timeouts::SCAN);
    match s.on_probe(nack(0)) {
        ScanAction::Finished(Ok(v)) => assert!(v.is_empty()),
        other => panic!("unexpected {other:?}"),
    }
    let (mut s, _) = I2cScan::start(0x50, 0x40, timeouts::SCAN);
    match s.on_probe(Err(Error::I2cTimeout { address: I2cAddress::Bit7(0) })) {
        ScanAction::Finished(Err(Error::I2cTimeout { address })) => assert_eq!(address, I2cAddress::Bit7(0)),
        other => panic!("unexpected {other:?}"),
    }
    let (mut s, _) = I2cScan::start(0x00, 0xFF, timeouts::SCAN);
    match s.on_probe(nack(0)) {
        ScanAction::Probe { address, .. } => assert_eq!(address, I2cAddress::Bit7(0)),
        other => panic!("unexpected {other:?}"),
    }
    match s.on_probe(nack(0)) {
        ScanAction::Report { total, .. } => assert_eq!(total, 256),
        other => panic!("unexpected {other:?}"),
    }
}

#[test]
fn scan_past_the_7bit_range_is_refused() {
    let (mut s, _) = I2cScan::start(0x7F, 0x80, timeouts::SCAN);
    assert!(matches!(s.on_probe(nack(0)), ScanAction::Probe { address: I2cAddress::Bit7(0x7F), .. }));
    assert!(matches!(s.on_probe(nack(0x7F)), ScanAction::Report { .. }));
    match s.on_reported() {
        ScanAction::Finished(Err(Error::ArgumentOutOfRange(m))) => assert_eq!(m, "7-bit I2C address must be 0-127"),
        other => panic!("unexpected {other:?}"),
    }
}

#[test]
fn pwm_plans() {
    let p = set_periods_plan(PwmChannel::Pwm1, 100, 4095).unwrap();
    assert_eq!(p.steps[0], RegisterStep { register: REG_PWM1_HIGH, op: RegisterOp::Write(100), scope: ErrorScope::Device });
    assert_eq!(p.steps[1], RegisterStep { register: REG_PWM1_LOW, op: RegisterOp::Write(4095), scope: ErrorScope::Device });
    match set_periods_plan(PwmChannel::Pwm0, 0, 4096) {
        Err(Error::ArgumentOutOfRange(m)) => assert_eq!(m, "PWM period units must be 1-4095 (got high=0, low=4096)"),
        other => panic!("unexpected {other:?}"),
    }
    let p = set_periods_ns_plan(PwmChannel::Pwm1, 1000, 267).unwrap();
    assert_eq!(p.steps[0].op, RegisterOp::Write(4));
    assert_eq!(p.steps[1].op, RegisterOp::Write(1));
    assert!(set_periods_ns_plan(PwmChannel::Pwm1, 1000, 100).is_err());

    match set_pin_plan(&ALL8, PwmChannel::Pwm0, pin(9)) {
        Err(Error::UnsupportedFeature(_)) => {}
        other => panic!("unexpected {other:?}"),
    }
    let p = set_pin_plan(&ALL32, PwmChannel::Pwm0, pin(9)).unwrap();
    assert_eq!(p.steps[0], RegisterStep { register: REG_PWM0_CTRL, op: RegisterOp::Update { clear: 0x1F, set: 9 }, scope: ErrorScope::Device });
}

#[test]
fn pwm_control_register_fields() {
    let p = control_plan(PwmChannel::Pwm0, true, PwmCommand::FreeRun);
    assert!(p.failure.is_none());
    assert_eq!(p.steps[0].op, RegisterOp::Update { clear: 0x1E0, set: 0x20 | (6 << 6) });
    let p = control_plan(PwmChannel::Pwm0, false, PwmCommand::Undefined(9));
    assert!(matches!(p.failure, Some(Error::ArgumentOutOfRange(_))));
    assert_eq!(p.steps[0].op, RegisterOp::Read);

    assert_eq!(control_from_ctrl(0x20 | (5 << 6) | 3), (true, PwmCommand::OneShot));
    assert_eq!(control_from_ctrl(4 << 6), (false, PwmCommand::AssertLow));
    assert_eq!(control_from_ctrl(2 << 6), (false, PwmCommand::Undefined(2)));
    assert_eq!(control_from_ctrl(0), (false, PwmCommand::Idle));
    assert_eq!(pin_from_ctrl(0x20 | 0x13).unwrap().number(), 0x13);
}

#[test]
fn interrupt_plan_and_reports() {
    let p = configure_interrupt_plan(&ALL32, pin(2), true, true, false).unwrap();
    assert_eq!(p.steps.len(), 3);
    assert_eq!(p.steps[0].register, REG_INTR_MASK_0);
    assert_eq!(p.steps[1], RegisterStep { register: REG_INTR_POS_EDGE_0, op: RegisterOp::Update { clear: 0, set: 4 }, scope: ErrorScope::Device });
    assert_eq!(p.steps[2], RegisterStep { register: REG_INTR_NEG_EDGE_0, op: RegisterOp::Update { clear: 4, set: 0 }, scope: ErrorScope::Device });
    let p = configure_interrupt_plan(&ALL32, pin(2), false, true, true).unwrap();
    assert_eq!(p.steps.len(), 1);

    let r = GpioInterruptReport::from_buffer(&[0x01, 0x34, 0x12, 0x78, 0x56, 0xAA, 0x00, 0x00, 0x80, 0xFF], 9);
    let parsed = parse_gpio_interrupt_report(&r).unwrap();
    assert_eq!(parsed.current_state_group0, 0x1234);
    assert_eq!(parsed.current_state_group1, 0x5678);
    assert_eq!(parsed.trigger_mask_group0, 0x00AA);
    assert_eq!(parsed.trigger_mask_group1, 0x8000);
    assert_eq!(get_raw_interrupt_data(&r), &[0x34, 0x12, 0x78, 0x56, 0xAA, 0x00, 0x00, 0x80]);

    let short = GpioInterruptReport::from_buffer(&[1, 2, 3, 4, 5], 5);
    assert_eq!(parse_gpio_interrupt_report(&short).unwrap().trigger_mask_group0, 0);
    match parse_gpio_interrupt_report(&GpioInterruptReport { raw_data: vec![1, 2] }) {
        Err(Error::InterruptParseError(m)) => assert!(m.starts_with("Interrupt report too small: got 2 bytes")),
        other => panic!("unexpected {other:?}"),
    }
    match parse_gpio_interrupt_report(&GpioInterruptReport { raw_data: vec![] }) {
        Err(Error::InterruptParseError(m)) => assert_eq!(m, "Interrupt report is empty - no data to parse"),
        other => panic!("unexpected {other:?}"),
    }
    assert!(get_raw_interrupt_data(&GpioInterruptReport { raw_data: vec![] }).is_empty());
}
