# xr2280x_hid

A driver for the MaxLinear/Exar XR2280x USB-to-I²C/GPIO/PWM bridges (XR22800/1 with 8 GPIOs,
XR22802/4 with 32), whose logic is verified with Verus.

## Layout

- `src/` — the verified library. Each device operation is computed as data and proved against
  its contract:
  - `register.rs`: register feature reports, register plans (`RegisterPlan`), their meaning on a
    register file (`run_steps`), and `PlanRunner`, which carries out a plan one HID access at a
    time and reports failures in the scope of the operation;
  - `gpio.rs`: pins, groups and the plans of every GPIO operation; `gpio/transaction.rs` batches
    level changes; `gpio/retry.rs` decides verified writes, retries and the time budget;
    `gpio/properties.rs` proves what the plans do to a device (a setting read back is the
    setting made, other pins are untouched, a commit writes exactly the pending levels);
  - `i2c.rs`: addresses, the OUT report, the reading of the IN report, and the bus scan as a
    state machine;
  - `pwm.rs`: time conversion and the PWM plans; `pwm/properties.rs` proves their round trips;
  - `interrupt.rs`: interrupt configuration and report parsing;
  - `device.rs`: interface grouping into devices, ordering, selection and capability detection;
  - `error.rs`, `text.rs`, `consts.rs`, `flags/`: errors, number rendering and constants.
- `app/` — the `Xr2280x` handle over `hidapi`: it opens devices, performs the HID transfers,
  sleeps and reads the clock as the library's plans and state machines ask.
- `tests/` — tests of the library, including runs of plans against a simulated register file.
