use xr2280x_hid::pwm::{ns_to_pwm_units, pwm_units_to_ns};
use xr2280x_hid::{Error, GpioPin, I2cAddress};

#[test]
fn test_gpio_pin_creation() {
    assert!(GpioPin::new(0).is_ok());
    assert!(GpioPin::new(31).is_ok());
    assert!(GpioPin::new(32).is_err());
}

#[test]
fn test_gpio_pin_helpers() {
    let pin = GpioPin::new(17).unwrap();
    assert_eq!(pin.number(), 17);
    assert_eq!(pin.group_index(), 1);
    assert_eq!(pin.bit_index(), 1);
    assert_eq!(pin.mask(), 0x0002);
}

#[test]
fn test_i2c_address_creation() {
    assert!(I2cAddress::new_7bit(0x50).is_ok());
    assert!(I2cAddress::new_7bit(0x7F).is_ok());
    assert!(I2cAddress::new_7bit(0x80).is_err());

    assert!(I2cAddress::new_10bit(0x000).is_ok());
    assert!(I2cAddress::new_10bit(0x3FF).is_ok());
    assert!(I2cAddress::new_10bit(0x400).is_err());
}

#[test]
fn test_i2c_address_wire_format() {
    let test_cases = [(0x50, 0xA0), (0x68, 0xD0), (0x77, 0xEE), (0x3C, 0x78), (0x48, 0x90)];

    for (addr_7bit, expected_wire) in test_cases {
        let addr = I2cAddress::new_7bit(addr_7bit).unwrap();
        if let I2cAddress::Bit7(a) = addr {
            let wire_format = a << 1;
            assert_eq!(
                wire_format, expected_wire,
                "7-bit address 0x{addr_7bit:02X} should become 0x{expected_wire:02X} on wire, got 0x{wire_format:02X}"
            );
        }
    }

    assert_eq!(0x00 << 1, 0x00);
    assert_eq!(0x7F << 1, 0xFE);
}

#[test]
fn test_pwm_unit_conversion() {
    let units = ns_to_pwm_units(1000).unwrap();
    assert_eq!(units, 4);

    let ns = pwm_units_to_ns(4);
    assert_eq!(ns, 1067);

    assert!(ns_to_pwm_units(0).is_err());
    assert!(ns_to_pwm_units(134).is_ok());
    assert!(ns_to_pwm_units(133).is_err());
    assert!(ns_to_pwm_units(1_100_000).is_err());

    for units in [1u16, 10, 100, 1000, 4095] {
        let ns = pwm_units_to_ns(units);
        let units_back = ns_to_pwm_units(ns).unwrap();
        assert!(
            units_back == units || units_back == units - 1 || units_back == units + 1,
            "Round-trip failed for {units} units: got {units_back} back"
        );
    }
}

/// The unit of the PWM timers, in nanoseconds, as a double.
const PWM_UNIT_TIME_NS: f64 = 266.666_666_666_666_7;

#[test]
fn pwm_conversion_matches_double_arithmetic() {
    let mut ns: u64 = 1;
    while ns <= 1_200_000 {
        let expected = (ns as f64 / PWM_UNIT_TIME_NS).round() as u64;
        let got = ns_to_pwm_units(ns);
        if (1..=4095).contains(&expected) {
            assert_eq!(got.unwrap() as u64, expected, "ns = {ns}");
        } else {
            assert!(got.is_err(), "ns = {ns}");
        }
        ns += 1;
    }
    for units in 0u16..=4095 {
        let expected = (units as f64 * PWM_UNIT_TIME_NS).round() as u64;
        assert_eq!(pwm_units_to_ns(units), expected, "units = {units}");
    }
}

#[test]
fn pwm_units_round_trip_is_exact() {
    for units in 1u16..=4095 {
        assert_eq!(ns_to_pwm_units(pwm_units_to_ns(units)).unwrap(), units);
    }
}

#[test]
fn pwm_conversion_error_texts() {
    match ns_to_pwm_units(0) {
        Err(Error::ArgumentOutOfRange(m)) => assert_eq!(m, "PWM time must be greater than 0 ns"),
        other => panic!("unexpected {other:?}"),
    }
    match ns_to_pwm_units(133) {
        Err(Error::ArgumentOutOfRange(m)) => assert_eq!(m, "PWM time 133 ns is too small (min 267 ns)"),
        other => panic!("unexpected {other:?}"),
    }
    match ns_to_pwm_units(1_100_000) {
        Err(Error::ArgumentOutOfRange(m)) => assert_eq!(m, "PWM time 1100000 ns is too large (max 1092000 ns)"),
        other => panic!("unexpected {other:?}"),
    }
    assert_eq!(ns_to_pwm_units(1_092_000).unwrap(), 4095);
    assert_eq!(ns_to_pwm_units(267).unwrap(), 1);
}

#[test]
fn a_pin_made_from_a_pins_number_is_that_pin() {
    for n in 0..=31u8 {
        let p = GpioPin::new(n).unwrap();
        assert_eq!(p.number(), n);
        assert_eq!(GpioPin::new(p.number()).unwrap(), p);
    }
    assert!(GpioPin::new(32).is_err());
}
