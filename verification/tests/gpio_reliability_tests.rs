use std::time::Duration;
use xr2280x_hid::gpio::{GpioLevel, GpioPin, GpioWriteConfig, GpioWriteRetry, WriteAction};
use xr2280x_hid::Error;

#[test]
fn test_gpio_write_config_default() {
    let config = GpioWriteConfig::default();

    assert!(!config.verify_writes);
    assert_eq!(config.retry_attempts, 0);
    assert_eq!(config.retry_delay, Duration::from_millis(10));
    assert_eq!(config.operation_timeout, Duration::from_millis(1000));
}

#[test]
fn test_gpio_write_config_reliable() {
    let config = GpioWriteConfig::reliable();

    assert!(config.verify_writes);
    assert_eq!(config.retry_attempts, 3);
    assert_eq!(config.retry_delay, Duration::from_millis(20));
    assert_eq!(config.operation_timeout, Duration::from_millis(1000));
}

#[test]
fn test_gpio_write_config_fast() {
    let config = GpioWriteConfig::fast();

    let default_config = GpioWriteConfig::default();
    assert_eq!(config.verify_writes, default_config.verify_writes);
    assert_eq!(config.retry_attempts, default_config.retry_attempts);
    assert_eq!(config.retry_delay, default_config.retry_delay);
    assert_eq!(config.operation_timeout, default_config.operation_timeout);
}

#[test]
fn test_gpio_write_config_custom() {
    let config = GpioWriteConfig {
        verify_writes: true,
        retry_attempts: 5,
        retry_delay: Duration::from_millis(50),
        operation_timeout: Duration::from_millis(2000),
    };

    assert!(config.verify_writes);
    assert_eq!(config.retry_attempts, 5);
    assert_eq!(config.retry_delay, Duration::from_millis(50));
    assert_eq!(config.operation_timeout, Duration::from_millis(2000));
}

#[test]
fn test_gpio_write_config_clone() {
    let original = GpioWriteConfig::reliable();
    let cloned = original.clone();

    assert_eq!(original.verify_writes, cloned.verify_writes);
    assert_eq!(original.retry_attempts, cloned.retry_attempts);
    assert_eq!(original.retry_delay, cloned.retry_delay);
    assert_eq!(original.operation_timeout, cloned.operation_timeout);
}

#[test]
fn test_config_validation() {
    let configs = vec![
        GpioWriteConfig {
            verify_writes: true,
            retry_attempts: 0,
            retry_delay: Duration::from_millis(1),
            operation_timeout: Duration::from_millis(100),
        },
        GpioWriteConfig {
            verify_writes: false,
            retry_attempts: 100,
            retry_delay: Duration::from_secs(1),
            operation_timeout: Duration::from_secs(10),
        },
    ];

    for config in configs {
        let _cloned = config.clone();
        let _debug_str = format!("{config:?}");
    }
}

#[test]
fn test_gpio_level_debug_format() {
    let high = GpioLevel::High;
    let low = GpioLevel::Low;

    let high_str = format!("{high:?}");
    let low_str = format!("{low:?}");

    assert_eq!(high_str, "High");
    assert_eq!(low_str, "Low");
}

#[test]
fn checked_writes_follow_the_configuration() {
    assert!(GpioWriteConfig::reliable().checks_writes());
    assert!(!GpioWriteConfig::fast().checks_writes());
    let retry_only = GpioWriteConfig { verify_writes: false, retry_attempts: 1, ..GpioWriteConfig::default() };
    assert!(retry_only.checks_writes());
}

#[test]
fn verified_write_succeeds_on_matching_read_back() {
    let pin = GpioPin::new(5).unwrap();
    let (mut m, a) = GpioWriteRetry::start(pin, GpioLevel::High, &GpioWriteConfig::reliable());
    assert!(matches!(a, WriteAction::CheckDeadline));
    assert!(matches!(m.on_deadline(false), WriteAction::WritePin));
    assert!(matches!(m.on_written(Ok(())), WriteAction::SettleAndReadPin));
    assert!(matches!(m.on_read_back(Ok(GpioLevel::High)), WriteAction::Finished(Ok(()))));
}

#[test]
fn unverified_write_ends_after_the_write() {
    let pin = GpioPin::new(5).unwrap();
    let config = GpioWriteConfig { verify_writes: false, retry_attempts: 2, ..GpioWriteConfig::default() };
    let (mut m, _) = GpioWriteRetry::start(pin, GpioLevel::Low, &config);
    assert!(matches!(m.on_deadline(false), WriteAction::WritePin));
    assert!(matches!(m.on_written(Ok(())), WriteAction::Finished(Ok(()))));
}

#[test]
fn verified_write_retries_then_reports_the_last_attempt() {
    let pin = GpioPin::new(9).unwrap();
    let (mut m, _) = GpioWriteRetry::start(pin, GpioLevel::High, &GpioWriteConfig::reliable());
    for _ in 0..3 {
        assert!(matches!(m.on_deadline(false), WriteAction::WritePin));
        assert!(matches!(m.on_written(Ok(())), WriteAction::SettleAndReadPin));
        assert!(matches!(m.on_read_back(Ok(GpioLevel::Low)), WriteAction::PauseBeforeRetry));
        assert!(matches!(m.on_paused(), WriteAction::CheckDeadline));
    }
    assert!(matches!(m.on_deadline(false), WriteAction::WritePin));
    assert!(matches!(m.on_written(Ok(())), WriteAction::SettleAndReadPin));
    match m.on_read_back(Ok(GpioLevel::Low)) {
        WriteAction::Finished(Err(Error::GpioWriteVerificationFailed { pin, expected, actual, attempt })) => {
            assert_eq!(pin, 9);
            assert_eq!(expected, GpioLevel::High);
            assert_eq!(actual, GpioLevel::Low);
            assert_eq!(attempt, 4);
        }
        other => panic!("unexpected {other:?}"),
    }
}

#[test]
fn write_past_its_budget_times_out() {
    let pin = GpioPin::new(2).unwrap();
    let (mut m, _) = GpioWriteRetry::start(pin, GpioLevel::High, &GpioWriteConfig::reliable());
    match m.on_deadline(true) {
        WriteAction::Finished(Err(Error::GpioOperationTimeout { pin, operation, timeout_ms })) => {
            assert_eq!(pin, 2);
            assert_eq!(operation, "write");
            assert_eq!(timeout_ms, 1000);
        }
        other => panic!("unexpected {other:?}"),
    }
}

#[test]
fn failed_write_without_retries_returns_its_error() {
    let pin = GpioPin::new(2).unwrap();
    let config = GpioWriteConfig { verify_writes: true, ..GpioWriteConfig::default() };
    let (mut m, _) = GpioWriteRetry::start(pin, GpioLevel::High, &config);
    m.on_deadline(false);
    match m.on_written(Err(Error::Timeout)) {
        WriteAction::Finished(Err(Error::Timeout)) => {}
        other => panic!("unexpected {other:?}"),
    }
}

#[test]
fn the_largest_retry_count_still_retries() {
    let pin = GpioPin::new(3).unwrap();
    let config = GpioWriteConfig { verify_writes: true, retry_attempts: u32::MAX, ..GpioWriteConfig::default() };
    let (mut m, _) = GpioWriteRetry::start(pin, GpioLevel::High, &config);
    for _ in 0..5 {
        assert!(matches!(m.on_deadline(false), WriteAction::WritePin));
        assert!(matches!(m.on_written(Err(Error::Timeout)), WriteAction::PauseBeforeRetry));
        assert!(matches!(m.on_paused(), WriteAction::CheckDeadline));
    }
    assert!(matches!(m.on_deadline(false), WriteAction::WritePin));
    assert!(matches!(m.on_written(Ok(())), WriteAction::SettleAndReadPin));
    assert!(matches!(m.on_read_back(Ok(GpioLevel::High)), WriteAction::Finished(Ok(()))));
}

#[test]
fn timeout_reports_the_whole_milliseconds_of_any_budget() {
    let pin = GpioPin::new(4).unwrap();
    let config = GpioWriteConfig { operation_timeout: Duration::from_micros(2_500_900), ..GpioWriteConfig::default() };
    let (mut m, _) = GpioWriteRetry::start(pin, GpioLevel::High, &config);
    match m.on_deadline(true) {
        WriteAction::Finished(Err(Error::GpioOperationTimeout { timeout_ms, .. })) => assert_eq!(timeout_ms, 2500),
        other => panic!("unexpected {other:?}"),
    }

    let long = GpioWriteConfig { operation_timeout: Duration::from_millis(5_000_000_007), ..GpioWriteConfig::default() };
    let (mut m, _) = GpioWriteRetry::start(pin, GpioLevel::High, &long);
    match m.on_deadline(true) {
        WriteAction::Finished(Err(Error::GpioOperationTimeout { timeout_ms, .. })) => {
            assert_eq!(timeout_ms, 5_000_000_007u64 as u32)
        }
        other => panic!("unexpected {other:?}"),
    }

    let (mut m, _) = GpioWriteRetry::start_with_budget(pin, GpioLevel::Low, &config, 70);
    match m.on_deadline(true) {
        WriteAction::Finished(Err(Error::GpioOperationTimeout { timeout_ms, .. })) => assert_eq!(timeout_ms, 70),
        other => panic!("unexpected {other:?}"),
    }
}
