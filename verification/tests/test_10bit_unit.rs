use xr2280x_hid::i2c::{I2cAddress, I2cTransfer};

#[test]
fn test_10bit_address_encoding() {
    let test_cases = [
        (0x000, 0xF0, 0x00),
        (0x150, 0xF2, 0x50),
        (0x2A5, 0xF4, 0xA5),
        (0x3FF, 0xF6, 0xFF),
        (0x080, 0xF0, 0x80),
        (0x100, 0xF2, 0x00),
        (0x200, 0xF4, 0x00),
        (0x300, 0xF6, 0x00),
    ];

    for (addr, expected_first, expected_second) in test_cases {
        let i2c_addr = I2cAddress::new_10bit(addr).unwrap();

        if let I2cAddress::Bit10(a) = i2c_addr {
            let high_2_bits = ((a >> 8) & 0x03) as u8;
            let first_byte = (high_2_bits << 1) | 0xF0;
            let second_byte = (a & 0xFF) as u8;

            assert_eq!(first_byte, expected_first, "Address 0x{addr:03X}: first byte mismatch");
            assert_eq!(second_byte, expected_second, "Address 0x{addr:03X}: second byte mismatch");
            assert_eq!(first_byte & 0xF8, 0xF0);
            assert_eq!(first_byte & 0x01, 0x00);
        }

        // The report the library builds carries the same two frames.
        let t = I2cTransfer::start(i2c_addr, &[], 0, 0x03, None).unwrap();
        assert_eq!(t.report()[3], expected_first, "Address 0x{addr:03X}: report address byte");
        assert_eq!(t.report()[4], expected_second, "Address 0x{addr:03X}: report low byte");
    }
}

#[test]
fn test_10bit_address_validation() {
    assert!(I2cAddress::new_10bit(0x000).is_ok());
    assert!(I2cAddress::new_10bit(0x3FF).is_ok());
    assert!(I2cAddress::new_10bit(0x150).is_ok());

    assert!(I2cAddress::new_10bit(0x400).is_err());
    assert!(I2cAddress::new_10bit(0x500).is_err());
    assert!(I2cAddress::new_10bit(0xFFFF).is_err());
}

#[test]
fn test_7bit_vs_10bit_address_ranges() {
    for addr in 0u16..=0x7F {
        assert!(I2cAddress::new_10bit(addr).is_ok(), "7-bit address 0x{addr:02X} should be valid as 10-bit");
    }

    for addr in 0x80u16..=0xFF {
        assert!(I2cAddress::new_7bit(addr as u8).is_err(), "Address 0x{addr:03X} should be invalid as 7-bit");
        assert!(I2cAddress::new_10bit(addr).is_ok(), "Address 0x{addr:03X} should be valid as 10-bit");
    }

    for addr in 0x100u16..=0x3FF {
        assert!(I2cAddress::new_10bit(addr).is_ok(), "Address 0x{addr:03X} should be valid as 10-bit");
    }
}

#[test]
fn test_address_display_formatting() {
    let addr_7bit = I2cAddress::new_7bit(0x50).unwrap();
    let addr_10bit = I2cAddress::new_10bit(0x150).unwrap();

    assert_eq!(addr_7bit.to_display_string(), "7-bit 0x50");
    assert_eq!(addr_10bit.to_display_string(), "10-bit 0x150");
}

#[test]
fn test_10bit_i2c_protocol_constants() {
    for addr in [0x000, 0x001, 0x100, 0x200, 0x300, 0x3FF] {
        let high_bits = ((addr >> 8) & 0x03) as u8;
        let first_byte = (high_bits << 1) | 0xF0;

        assert_eq!(first_byte & 0xF8, 0xF0);
        assert_eq!(first_byte & 0x01, 0x00);
        assert_eq!((first_byte >> 1) & 0x03, high_bits);

        let t = I2cTransfer::start(I2cAddress::new_10bit(addr).unwrap(), &[], 0, 0, None).unwrap();
        assert_eq!(t.report()[3], first_byte);
    }
}

#[test]
fn test_boundary_conditions() {
    let boundary_tests = [
        (0x07F, true),
        (0x080, true),
        (0x0FF, true),
        (0x100, true),
        (0x1FF, true),
        (0x2FF, true),
        (0x3FE, true),
        (0x3FF, true),
        (0x400, false),
    ];

    for (addr, should_be_valid) in boundary_tests {
        let result = I2cAddress::new_10bit(addr);
        if should_be_valid {
            assert!(result.is_ok(), "Address 0x{addr:03X} should be valid");
        } else {
            assert!(result.is_err(), "Address 0x{addr:03X} should be invalid");
        }
    }
}

#[test]
fn test_i2c_spec_compliance() {
    let spec_test_cases = [(0x000, 0xF0), (0x100, 0xF2), (0x200, 0xF4), (0x300, 0xF6)];

    for (addr, expected_first_byte) in spec_test_cases {
        if let I2cAddress::Bit10(a) = I2cAddress::new_10bit(addr).unwrap() {
            let high_2_bits = ((a >> 8) & 0x03) as u8;
            let first_byte = (high_2_bits << 1) | 0xF0;

            assert_eq!(first_byte, expected_first_byte, "I2C spec compliance failed for address 0x{addr:03X}");
            assert_eq!(first_byte >> 3, 0x1E, "Must start with 11110");
            assert_eq!(first_byte & 0x01, 0x00, "Must end with 0 for write");
        }
    }
}
