use xr2280x_hid::consts::{REG_CLEAR_0, REG_CLEAR_1, REG_SET_0, REG_SET_1};
use xr2280x_hid::device::Capabilities;
use xr2280x_hid::gpio::transaction::GpioChangeMask;
use xr2280x_hid::gpio::{GpioGroup, GpioLevel, GpioPin, GpioTransaction};
use xr2280x_hid::register::{ErrorScope, RegisterOp, RegisterStep};

fn new_transaction() -> GpioTransaction {
    GpioTransaction::new(Capabilities { gpio_count: 32 })
}

fn create_test_pins() -> Vec<GpioPin> {
    vec![
        GpioPin::new(0).unwrap(),
        GpioPin::new(1).unwrap(),
        GpioPin::new(2).unwrap(),
        GpioPin::new(16).unwrap(),
        GpioPin::new(17).unwrap(),
    ]
}

fn masks(t: &GpioTransaction, group: GpioGroup) -> (u16, u16) {
    let m: GpioChangeMask = t.changes(group);
    (m.set_mask, m.clear_mask)
}

#[test]
fn test_transaction_creation() {
    let transaction = new_transaction();

    assert!(!transaction.has_pending_changes());
    assert_eq!(transaction.pending_pin_count(), 0);
    assert_eq!(masks(&transaction, GpioGroup::Group0), (0, 0));
    assert_eq!(masks(&transaction, GpioGroup::Group1), (0, 0));
}

#[test]
fn test_single_pin_operations() {
    let pins = create_test_pins();
    let mut transaction = new_transaction();

    transaction.set_pin(pins[0], GpioLevel::High).unwrap();
    assert!(transaction.has_pending_changes());
    assert_eq!(transaction.pending_pin_count(), 1);
    assert_eq!(masks(&transaction, GpioGroup::Group0).0, 0b0001);
    assert_eq!(masks(&transaction, GpioGroup::Group0).1, 0b0000);

    transaction.set_pin(pins[1], GpioLevel::Low).unwrap();
    assert_eq!(transaction.pending_pin_count(), 2);
    assert_eq!(masks(&transaction, GpioGroup::Group0).0, 0b0001);
    assert_eq!(masks(&transaction, GpioGroup::Group0).1, 0b0010);
}

#[test]
fn test_pin_override() {
    let pins = create_test_pins();
    let mut transaction = new_transaction();

    transaction.set_pin(pins[0], GpioLevel::High).unwrap();
    assert_eq!(masks(&transaction, GpioGroup::Group0), (0b0001, 0b0000));

    transaction.set_pin(pins[0], GpioLevel::Low).unwrap();
    assert_eq!(masks(&transaction, GpioGroup::Group0), (0b0000, 0b0001));

    transaction.set_pin(pins[0], GpioLevel::High).unwrap();
    assert_eq!(masks(&transaction, GpioGroup::Group0), (0b0001, 0b0000));
}

#[test]
fn test_multi_group_operations() {
    let pins = create_test_pins();
    let mut transaction = new_transaction();

    transaction.set_pin(pins[0], GpioLevel::High).unwrap();
    transaction.set_pin(pins[3], GpioLevel::High).unwrap();

    assert_eq!(transaction.pending_pin_count(), 2);
    assert_eq!(masks(&transaction, GpioGroup::Group0).0, 0b0001);
    assert_eq!(masks(&transaction, GpioGroup::Group1).0, 0b0001);
}

#[test]
fn test_convenience_methods() {
    let pins = create_test_pins();
    let mut transaction = new_transaction();

    transaction.set_high(pins[0]).unwrap();
    transaction.set_low(pins[1]).unwrap();

    assert_eq!(masks(&transaction, GpioGroup::Group0).0, 0b0001);
    assert_eq!(masks(&transaction, GpioGroup::Group0).1, 0b0010);

    transaction.clear();
    transaction.set_all_high(&pins[0..3]).unwrap();
    assert_eq!(masks(&transaction, GpioGroup::Group0).0, 0b0111);

    transaction.clear();
    transaction.set_all_low(&pins[0..3]).unwrap();
    assert_eq!(masks(&transaction, GpioGroup::Group0).1, 0b0111);
}

#[test]
fn test_method_chaining() {
    let pins = create_test_pins();

    let transaction = new_transaction()
        .with_high(pins[0])
        .unwrap()
        .with_low(pins[1])
        .unwrap()
        .with_pin(pins[2], GpioLevel::High)
        .unwrap();

    assert_eq!(masks(&transaction, GpioGroup::Group0).0, 0b0101);
    assert_eq!(masks(&transaction, GpioGroup::Group0).1, 0b0010);
    assert_eq!(transaction.pending_pin_count(), 3);
}

#[test]
fn test_commit_behavior() {
    let pins = create_test_pins();

    // An empty transaction commits nothing.
    let transaction = new_transaction();
    assert!(!transaction.has_pending_changes());
    let (plan, count) = transaction.commit();
    assert_eq!(count, 0);
    assert!(plan.steps.is_empty());

    // One group, a SET and a CLEAR write.
    let mut transaction = new_transaction();
    transaction.set_high(pins[0]).unwrap();
    transaction.set_low(pins[1]).unwrap();
    let (plan, count) = transaction.commit();
    assert_eq!(count, 2);
    assert_eq!(plan.steps.len(), 2);

    // Both groups, a SET write each.
    let mut transaction = new_transaction();
    transaction.set_high(pins[0]).unwrap();
    transaction.set_high(pins[3]).unwrap();
    let (plan, count) = transaction.commit();
    assert_eq!(count, 2);
    assert_eq!(
        plan.steps,
        vec![
            RegisterStep { register: REG_SET_0, op: RegisterOp::Write(0x0001), scope: ErrorScope::Group(GpioGroup::Group0) },
            RegisterStep { register: REG_SET_1, op: RegisterOp::Write(0x0001), scope: ErrorScope::Group(GpioGroup::Group1) },
        ]
    );
}

#[test]
fn test_clear_functionality() {
    let pins = create_test_pins();
    let mut transaction = new_transaction();

    transaction.set_high(pins[0]).unwrap();
    transaction.set_low(pins[1]).unwrap();
    assert!(transaction.has_pending_changes());
    assert_eq!(transaction.pending_pin_count(), 2);

    transaction.clear();
    assert!(!transaction.has_pending_changes());
    assert_eq!(transaction.pending_pin_count(), 0);
    assert_eq!(masks(&transaction, GpioGroup::Group0), (0, 0));
    assert_eq!(masks(&transaction, GpioGroup::Group1), (0, 0));
}

#[test]
fn test_transaction_reuse() {
    let pins = create_test_pins();

    // Committing consumes a transaction; the next batch starts a new one.
    let mut transaction = new_transaction();
    transaction.set_high(pins[0]).unwrap();
    let (_, count) = transaction.commit();
    assert_eq!(count, 1);

    let mut transaction = new_transaction();
    assert!(!transaction.has_pending_changes());
    transaction.set_low(pins[1]).unwrap();
    assert!(transaction.has_pending_changes());
    assert_eq!(transaction.pending_pin_count(), 1);

    let (_, count) = transaction.commit();
    assert_eq!(count, 1);
}

#[test]
fn test_complex_pin_patterns() {
    let pins = create_test_pins();
    let mut transaction = new_transaction();

    transaction.set_high(pins[0]).unwrap();
    transaction.set_low(pins[1]).unwrap();
    transaction.set_high(pins[2]).unwrap();
    transaction.set_high(pins[3]).unwrap();
    transaction.set_low(pins[4]).unwrap();

    assert_eq!(transaction.pending_pin_count(), 5);

    assert_eq!(masks(&transaction, GpioGroup::Group0).0, 0b0101);
    assert_eq!(masks(&transaction, GpioGroup::Group0).1, 0b0010);

    assert_eq!(masks(&transaction, GpioGroup::Group1).0, 0b0001);
    assert_eq!(masks(&transaction, GpioGroup::Group1).1, 0b0010);

    let (plan, count) = transaction.commit();
    assert_eq!(count, 4);
    let g0 = ErrorScope::Group(GpioGroup::Group0);
    let g1 = ErrorScope::Group(GpioGroup::Group1);
    assert_eq!(
        plan.steps,
        vec![
            RegisterStep { register: REG_SET_0, op: RegisterOp::Write(0b0101), scope: g0 },
            RegisterStep { register: REG_CLEAR_0, op: RegisterOp::Write(0b0010), scope: g0 },
            RegisterStep { register: REG_SET_1, op: RegisterOp::Write(0b0001), scope: g1 },
            RegisterStep { register: REG_CLEAR_1, op: RegisterOp::Write(0b0010), scope: g1 },
        ]
    );
}

#[test]
fn test_pin_mask_calculations() {
    let pin0 = GpioPin::new(0).unwrap();
    let pin1 = GpioPin::new(1).unwrap();
    let pin15 = GpioPin::new(15).unwrap();
    let pin16 = GpioPin::new(16).unwrap();

    assert_eq!(pin0.mask(), 0b0000_0000_0000_0001);
    assert_eq!(pin1.mask(), 0b0000_0000_0000_0010);
    assert_eq!(pin15.mask(), 0b1000_0000_0000_0000);
    assert_eq!(pin16.mask(), 0b0000_0000_0000_0001);

    assert_eq!(pin0.group_index(), 0);
    assert_eq!(pin15.group_index(), 0);
    assert_eq!(pin16.group_index(), 1);
}

#[test]
fn test_only_set_operations() {
    let pins = create_test_pins();
    let mut transaction = new_transaction();

    transaction.set_high(pins[0]).unwrap();
    transaction.set_high(pins[1]).unwrap();
    transaction.set_high(pins[3]).unwrap();

    let (_, count) = transaction.commit();
    assert_eq!(count, 2);
}

#[test]
fn test_only_clear_operations() {
    let pins = create_test_pins();
    let mut transaction = new_transaction();

    transaction.set_low(pins[0]).unwrap();
    transaction.set_low(pins[1]).unwrap();
    transaction.set_low(pins[3]).unwrap();

    let (_, count) = transaction.commit();
    assert_eq!(count, 2);
}

#[test]
fn eight_gpio_models_refuse_group1_pins() {
    let mut transaction = GpioTransaction::new(Capabilities { gpio_count: 8 });
    assert!(transaction.set_high(GpioPin::new(7).unwrap()).is_ok());
    assert!(transaction.set_high(GpioPin::new(8).unwrap()).is_err());
    assert!(transaction.set_all_low(&[GpioPin::new(3).unwrap(), GpioPin::new(20).unwrap()]).is_err());
    // The pins before the refused one are kept.
    assert_eq!(masks(&transaction, GpioGroup::Group0), (0b1000_0000, 0b0000_1000));
    assert_eq!(masks(&transaction, GpioGroup::Group1), (0, 0));
}

#[test]
fn change_mask_operations() {
    let mut m = GpioChangeMask::new();
    assert!(!m.has_changes());
    m.set_high(0b0110);
    m.set_low(0b0100);
    assert_eq!((m.set_mask, m.clear_mask), (0b0010, 0b0100));
    assert_eq!(m.pin_count(), 2);
    m.clear();
    assert!(!m.has_changes());
    assert_eq!(m.pin_count(), 0);
}
