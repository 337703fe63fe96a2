//! Device descriptions, capability detection and the choice among enumerated devices.
use crate::consts::{EXAR_VID, XR2280X_EDGE_PID, XR2280X_I2C_PID};
use crate::error::{Error, Result};
use crate::gpio::{GpioGroup, GpioPin};
use crate::error::group1_unsupported_text;
use crate::error::unsupported_gpio_group1;
use crate::register::RegisterInterface;
use crate::text::{decimal_digits, decimal_text};
use vstd::prelude::*;
use vstd::utf8::encode_utf8;
use vstd::std_specs::iter::IteratorSpec;

verus! {

/// Detected capabilities of the connected XR2280x device.
#[derive(Debug, Clone, Copy, PartialEq, Eq, Structural)]
pub struct Capabilities {
    /// Number of GPIO pins controllable via the EDGE HID interface (8 or 32).
    pub gpio_count: u8,
}

impl Default for Capabilities {
    /// Eight GPIOs, the smaller models.
    fn default() -> (c: Self)
        ensures
            c.gpio_count == 8,
    {
        Capabilities { gpio_count: 8 }
    }
}

/// Text of the error for a pin the model lacks.
pub open spec fn pin_unavailable_text(pin: u8) -> Seq<char> {
    "GPIO pin "@ + decimal_digits(pin as nat) + " is not available on this device (only pins 0-7 supported)"@
}

/// Whether a model with these capabilities has the pin numbered `pin`.
pub open spec fn supports_pin(c: Capabilities, pin: u8) -> bool {
    !(c.gpio_count == 8 && pin > 7)
}

/// Whether a model with these capabilities has the group `g`.
pub open spec fn supports_group(c: Capabilities, g: GpioGroup) -> bool {
    !(c.gpio_count == 8 && g == GpioGroup::Group1)
}

impl Capabilities {
    /// Checks that the device has `pin`: a model with 8 GPIOs has only pins 0-7.
    pub fn check_gpio_pin_support(&self, pin: GpioPin) -> (r: Result<()>)
        ensures
            supports_pin(*self, pin@) <==> r is Ok,
            r matches Err(e) ==> (e matches Error::UnsupportedFeature(m) && m@ == pin_unavailable_text(pin@)),
    {
        if self.gpio_count == 8 && pin.number() > 7 {
            let mut m = String::from_str("GPIO pin ");
            m.append(decimal_text(pin.number() as u64).as_str());
            m.append(" is not available on this device (only pins 0-7 supported)");
            Err(Error::UnsupportedFeature(m))
        } else {
            Ok(())
        }
    }

    /// Checks that the device has `group`: a model with 8 GPIOs has only group 0.
    pub fn check_gpio_group_support(&self, group: GpioGroup) -> (r: Result<()>)
        ensures
            supports_group(*self, group) <==> r is Ok,
            r matches Err(e) ==> (e matches Error::UnsupportedFeature(m) && m@ == group1_unsupported_text()),
    {
        if self.gpio_count == 8 && group == GpioGroup::Group1 {
            Err(unsupported_gpio_group1())
        } else {
            Ok(())
        }
    }
}

/// Interface information for a single USB HID interface.
#[derive(Debug, Clone)]
pub struct InterfaceInfo {
    /// USB vendor ID.
    pub vid: u16,
    /// USB product ID: tells the I2C interface from the EDGE one.
    pub pid: u16,
    /// Platform path of the interface, as bytes without a terminating NUL.
    pub path: Vec<u8>,
    /// Serial number string of the interface.
    pub serial_number: Option<String>,
    /// Product string of the interface.
    pub product_string: Option<String>,
    /// USB interface number.
    pub interface_number: i32,
}

/// Information about a discovered XR2280x device.
///
/// A device may expose two USB HID interfaces (I2C and EDGE); this groups them.
#[derive(Debug, Clone)]
pub struct XrDeviceInfo {
    /// USB vendor ID (0x04E2 for Exar Corporation).
    pub vid: u16,
    /// Device serial number string (used to group interfaces).
    pub serial_number: Option<String>,
    /// Human-readable product name/description.
    pub product_string: Option<String>,
    /// I2C interface information if available.
    pub i2c_interface: Option<InterfaceInfo>,
    /// EDGE (GPIO/PWM/Interrupt) interface information if available.
    pub edge_interface: Option<InterfaceInfo>,
}

/// Detailed information about an opened XR2280x device.
#[derive(Debug, Clone)]
pub struct XrDeviceDetails {
    /// USB vendor ID (0x04E2 for Exar Corporation).
    pub vendor_id: u16,
    /// USB product ID identifying the device interface type.
    pub product_id: u16,
    /// Unique serial number string for this device instance.
    pub serial_number: Option<String>,
    /// Human-readable product name/description.
    pub product_string: Option<String>,
    /// Manufacturer name string (typically "Exar Corporation").
    pub manufacturer_string: Option<String>,
}

/// Number of positions, among the first `n` of both, where `a` and `b` differ.
pub open spec fn differences_upto(a: Seq<char>, b: Seq<char>, n: int) -> nat
    decreases n,
{
    if n <= 0 {
        0
    } else {
        differences_upto(a, b, n - 1) + if a[n - 1] != b[n - 1] { 1nat } else { 0nat }
    }
}

/// Number of positions where `a` and `b` differ, over the length of the shorter one.
pub open spec fn char_differences(a: Seq<char>, b: Seq<char>) -> nat {
    differences_upto(a, b, if a.len() <= b.len() { a.len() as int } else { b.len() as int })
}

/// Two serial numbers are similar when their UTF-8 encodings have the same length, of at least
/// 8 bytes, and their characters differ at exactly one position.
pub open spec fn serials_similar(a: Seq<char>, b: Seq<char>) -> bool {
    &&& encode_utf8(a).len() == encode_utf8(b).len()
    &&& encode_utf8(a).len() >= 8
    &&& char_differences(a, b) == 1
}

/// The characters of `s`, in order.
fn chars_of(s: &str) -> (v: Vec<char>)
    ensures
        v@ == s@,
{
    let mut it = s.chars();
    let mut v: Vec<char> = Vec::new();
    proof {
        vstd::string::axiom_spec_iter(s);
        assert(v@ + it.remaining() =~= s@);
    }
    loop
        invariant
            v@ + it.remaining() == s@,
            it.decrease() is Some,
        ensures
            v@ == s@,
        decreases it.decrease()->0,
    {
        let ghost before = it.remaining();
        match it.next() {
            Some(c) => {
                v.push(c);
                assert(v@ + it.remaining() =~= s@) by {
                    assert(before == seq![c] + it.remaining());
                }
            },
            None => {
                assert(v@ =~= v@ + it.remaining());
                break;
            },
        }
    }
    v
}

/// Checks whether two serial numbers are similar: of equal byte length, at least 8 bytes long,
/// and differing in exactly one character. The two interfaces of an XR22802 carry serial
/// numbers that differ in their first character.
pub fn are_serial_numbers_similar(serial1: &str, serial2: &str) -> (r: bool)
    ensures
        r == serials_similar(serial1@, serial2@),
{
    let len1 = serial1.as_bytes().len();
    let len2 = serial2.as_bytes().len();
    if len1 != len2 || len1 < 8 {
        return false;
    }
    let a = chars_of(serial1);
    let b = chars_of(serial2);
    let n = if a.len() <= b.len() { a.len() } else { b.len() };
    let mut diff_count: usize = 0;
    let mut i: usize = 0;
    while i < n
        invariant
            i <= n,
            a@ == serial1@,
            b@ == serial2@,
            n == (if a@.len() <= b@.len() { a@.len() } else { b@.len() }),
            diff_count == differences_upto(a@, b@, i as int),
            diff_count <= 1,
        decreases n - i,
    {
        if a[i] != b[i] {
            diff_count = diff_count + 1;
            if diff_count > 1 {
                proof {
                    lemma_differences_monotone(a@, b@, (i + 1) as int, n as int);
                }
                return false;
            }
        }
        i = i + 1;
    }
    diff_count == 1
}

/// Counting differences over a longer prefix never gives fewer.
proof fn lemma_differences_monotone(a: Seq<char>, b: Seq<char>, m: int, n: int)
    requires
        0 <= m <= n,
    ensures
        differences_upto(a, b, m) <= differences_upto(a, b, n),
    decreases n - m,
{
    if m < n {
        lemma_differences_monotone(a, b, m, n - 1);
    }
}

/// Index of the first entry of `table` whose key satisfies `p`, if any.
pub open spec fn first_key_where(table: Seq<(String, XrDeviceInfo)>, p: spec_fn(Seq<char>) -> bool) -> Option<int> {
    if exists|i: int| is_first_key_where(table, p, i) {
        Some(choose|i: int| is_first_key_where(table, p, i))
    } else {
        None
    }
}

/// Entry `i` is the first of `table` whose key satisfies `p`.
pub open spec fn is_first_key_where(table: Seq<(String, XrDeviceInfo)>, p: spec_fn(Seq<char>) -> bool, i: int) -> bool {
    &&& 0 <= i < table.len()
    &&& p(table[i].0@)
    &&& forall|j: int| 0 <= j < i ==> !p(#[trigger] table[j].0@)
}

/// Index of the first entry of `table` whose key is similar to `target`.
pub open spec fn first_similar(table: Seq<(String, XrDeviceInfo)>, target: Seq<char>) -> Option<int> {
    first_key_where(table, |k: Seq<char>| serials_similar(k, target))
}

/// The first entry whose key satisfies `p` is unique.
proof fn lemma_first_key_where_unique(table: Seq<(String, XrDeviceInfo)>, p: spec_fn(Seq<char>) -> bool, i: int)
    requires
        is_first_key_where(table, p, i),
    ensures
        first_key_where(table, p) == Some(i),
{
    let c = choose|k: int| is_first_key_where(table, p, k);
    assert(is_first_key_where(table, p, c));
    if c < i {
        assert(!p(table[c].0@));
    } else if c > i {
        assert(!p(table[i].0@));
    }
}

/// Finds the key of the table whose serial number is similar to `target_serial`: the first
/// such key in table order, or `None` when no key is similar.
pub fn find_similar_serial_key(devices_by_serial: &[(String, XrDeviceInfo)], target_serial: &str) -> (r: Option<String>)
    ensures
        match first_similar(devices_by_serial@, target_serial@) {
            Some(i) => r == Some(devices_by_serial@[i].0),
            None => r is None,
        },
{
    let ghost p = |k: Seq<char>| serials_similar(k, target_serial@);
    let mut i: usize = 0;
    while i < devices_by_serial.len()
        invariant
            i <= devices_by_serial@.len(),
            p == (|k: Seq<char>| serials_similar(k, target_serial@)),
            forall|j: int| 0 <= j < i ==> !p(#[trigger] devices_by_serial@[j].0@),
        decreases devices_by_serial.len() - i,
    {
        let existing_serial = &devices_by_serial[i].0;
        if are_serial_numbers_similar(existing_serial.as_str(), target_serial) {
            proof {
                assert(is_first_key_where(devices_by_serial@, p, i as int));
                lemma_first_key_where_unique(devices_by_serial@, p, i as int);
            }
            return Some(existing_serial.clone());
        }
        i = i + 1;
    }
    proof {
        assert forall|k: int| !is_first_key_where(devices_by_serial@, p, k) by {
            if 0 <= k < devices_by_serial@.len() {
                assert(!p(devices_by_serial@[k].0@));
            }
        }
    }
    None
}

/// Lexicographic order of byte strings, the order of `str` and `String`: `a` comes strictly
/// before `b`.
pub open spec fn bytes_before(a: Seq<u8>, b: Seq<u8>) -> bool
    decreases a.len(),
{
    if a.len() == 0 {
        b.len() > 0
    } else if b.len() == 0 {
        false
    } else if a[0] != b[0] {
        a[0] < b[0]
    } else {
        bytes_before(a.drop_first(), b.drop_first())
    }
}

/// Of two different byte strings, one comes before the other.
proof fn lemma_bytes_before_total(a: Seq<u8>, b: Seq<u8>)
    requires
        a != b,
    ensures
        bytes_before(a, b) || bytes_before(b, a),
    decreases a.len(),
{
    if a.len() > 0 && b.len() > 0 && a[0] == b[0] {
        if a.drop_first() == b.drop_first() {
            assert(a =~= seq![a[0]] + a.drop_first());
            assert(b =~= seq![b[0]] + b.drop_first());
        }
        lemma_bytes_before_total(a.drop_first(), b.drop_first());
    } else if a.len() == 0 && b.len() == 0 {
        assert(a =~= b);
    }
}

/// The order is transitive.
proof fn lemma_bytes_before_transitive(a: Seq<u8>, b: Seq<u8>, c: Seq<u8>)
    requires
        bytes_before(a, b),
        bytes_before(b, c),
    ensures
        bytes_before(a, c),
    decreases a.len(),
{
    if a.len() > 0 && b.len() > 0 && c.len() > 0 && a[0] == b[0] && b[0] == c[0] {
        lemma_bytes_before_transitive(a.drop_first(), b.drop_first(), c.drop_first());
    }
}

/// Whether the byte string `a` comes strictly before `b`.
fn bytes_less(a: &[u8], b: &[u8]) -> (r: bool)
    ensures
        r == bytes_before(a@, b@),
{
    let mut i: usize = 0;
    assert(a@.skip(0) =~= a@ && b@.skip(0) =~= b@);
    while i < a.len() && i < b.len()
        invariant
            i <= a@.len(),
            i <= b@.len(),
            bytes_before(a@, b@) == bytes_before(a@.skip(i as int), b@.skip(i as int)),
        decreases a.len() - i,
    {
        if a[i] != b[i] {
            return a[i] < b[i];
        }
        assert(a@.skip(i as int).drop_first() =~= a@.skip(i + 1));
        assert(b@.skip(i as int).drop_first() =~= b@.skip(i + 1));
        i = i + 1;
    }
    i < b.len()
}

/// Whether `d` already holds an interface in the slot that an interface of product `pid` takes.
pub open spec fn slot_taken(d: XrDeviceInfo, pid: u16) -> bool {
    if pid == XR2280X_I2C_PID {
        d.i2c_interface is Some
    } else if pid == XR2280X_EDGE_PID {
        d.edge_interface is Some
    } else {
        false
    }
}

/// `d` with `info` in the slot of its product (I2C or EDGE); an interface of another product is
/// left out.
pub open spec fn with_interface(d: XrDeviceInfo, info: InterfaceInfo) -> XrDeviceInfo {
    if info.pid == XR2280X_I2C_PID {
        XrDeviceInfo {
            vid: d.vid,
            serial_number: d.serial_number,
            product_string: d.product_string,
            i2c_interface: Some(info),
            edge_interface: d.edge_interface,
        }
    } else if info.pid == XR2280X_EDGE_PID {
        XrDeviceInfo {
            vid: d.vid,
            serial_number: d.serial_number,
            product_string: d.product_string,
            i2c_interface: d.i2c_interface,
            edge_interface: Some(info),
        }
    } else {
        d
    }
}

/// A new device for the interface `info`: its vendor, serial number and product string, with
/// `info` in its slot.
pub open spec fn device_of(info: InterfaceInfo) -> XrDeviceInfo {
    with_interface(
        XrDeviceInfo {
            vid: info.vid,
            serial_number: info.serial_number,
            product_string: info.product_string,
            i2c_interface: None,
            edge_interface: None,
        },
        info,
    )
}

/// Index of the entry of `table` keyed exactly `k`, if any.
pub open spec fn key_position(table: Seq<(String, XrDeviceInfo)>, k: Seq<char>) -> Option<int> {
    first_key_where(table, |x: Seq<char>| x == k)
}

/// The entry an interface with serial number `serial` and product `pid` joins, if any: the
/// entry with that key or else the first with a similar key; but when that entry already holds
/// an interface of the product, only the entry keyed exactly `serial` (which is then
/// overwritten), and none otherwise.
pub open spec fn joined_entry(table: Seq<(String, XrDeviceInfo)>, serial: Seq<char>, pid: u16) -> Option<int> {
    let candidate = match key_position(table, serial) {
        Some(i) => Some(i),
        None => first_similar(table, serial),
    };
    match candidate {
        Some(i) => if slot_taken(table[i].1, pid) {
            key_position(table, serial)
        } else {
            Some(i)
        },
        None => None,
    }
}

/// One interface joins the devices found so far: the table keyed by serial number, and the
/// list of devices without a serial number.
pub open spec fn group_step(
    table: Seq<(String, XrDeviceInfo)>,
    loose: Seq<XrDeviceInfo>,
    info: InterfaceInfo,
) -> (Seq<(String, XrDeviceInfo)>, Seq<XrDeviceInfo>) {
    match info.serial_number {
        None => (table, loose.push(device_of(info))),
        Some(serial) => match joined_entry(table, serial@, info.pid) {
            Some(i) => (table.update(i, (table[i].0, with_interface(table[i].1, info))), loose),
            None => (table.push((serial, device_of(info))), loose),
        },
    }
}

/// The devices that the interfaces `infos`, taken in order, make up.
pub open spec fn grouped(infos: Seq<InterfaceInfo>) -> (Seq<(String, XrDeviceInfo)>, Seq<XrDeviceInfo>)
    decreases infos.len(),
{
    if infos.len() == 0 {
        (Seq::empty(), Seq::empty())
    } else {
        let prev = grouped(infos.drop_last());
        group_step(prev.0, prev.1, infos.last())
    }
}

/// The interface that `d` holds in the slot of product `pid`, if any.
pub open spec fn slot_of(d: XrDeviceInfo, pid: u16) -> Option<InterfaceInfo> {
    if pid == XR2280X_I2C_PID {
        d.i2c_interface
    } else if pid == XR2280X_EDGE_PID {
        d.edge_interface
    } else {
        None
    }
}

/// The entry that `first_key_where` picks satisfies the predicate.
proof fn lemma_first_key_where_found(table: Seq<(String, XrDeviceInfo)>, p: spec_fn(Seq<char>) -> bool)
    requires
        first_key_where(table, p) is Some,
    ensures
        is_first_key_where(table, p, first_key_where(table, p)->0),
{
}

/// Grouping an interface that has a serial number never overwrites an interface found under
/// another serial number. The interface fills its empty slot in the device of its own serial
/// number or else of the first similar one; when that slot is taken, it gets a device of its own
/// (only a device of the very same serial number has its slot replaced). Every other device is
/// left as it was, and the interface ends up in some device.
pub proof fn grouping_never_overwrites_similar(
    table: Seq<(String, XrDeviceInfo)>,
    loose: Seq<XrDeviceInfo>,
    info: InterfaceInfo,
    serial: String,
)
    requires
        info.serial_number == Some(serial),
        info.pid == XR2280X_I2C_PID || info.pid == XR2280X_EDGE_PID,
    ensures
        group_step(table, loose, info).1 == loose,
        forall|i: int|
            0 <= i < table.len() && table[i].0@ != serial@ && slot_taken(table[i].1, info.pid) ==> (#[trigger] group_step(
                table,
                loose,
                info,
            ).0[i]) == table[i],
        forall|i: int|
            0 <= i < table.len() ==> (#[trigger] group_step(table, loose, info).0[i]) == table[i] || group_step(
                table,
                loose,
                info,
            ).0[i] == (table[i].0, with_interface(table[i].1, info)),
        group_step(table, loose, info).0.len() == table.len() || group_step(table, loose, info).0 == table.push(
            (serial, device_of(info)),
        ),
        exists|j: int|
            0 <= j < group_step(table, loose, info).0.len() && slot_of(
                #[trigger] group_step(table, loose, info).0[j].1,
                info.pid,
            ) == Some(info),
{
    let t2 = group_step(table, loose, info).0;
    let exact = |x: Seq<char>| x == serial@;
    let near = |k: Seq<char>| serials_similar(k, serial@);
    if key_position(table, serial@) is Some {
        lemma_first_key_where_found(table, exact);
    }
    if first_similar(table, serial@) is Some {
        lemma_first_key_where_found(table, near);
    }
    match joined_entry(table, serial@, info.pid) {
        Some(i) => {
            assert(0 <= i < table.len());
            assert(t2 == table.update(i, (table[i].0, with_interface(table[i].1, info))));
            assert(slot_of(t2[i].1, info.pid) == Some(info));
            assert forall|k: int|
                0 <= k < table.len() && table[k].0@ != serial@ && slot_taken(table[k].1, info.pid) implies #[trigger] t2[k]
                == table[k] by {
                if k == i {
                    assert(!slot_taken(table[i].1, info.pid) || table[i].0@ == serial@);
                }
            }
        },
        None => {
            assert(t2 == table.push((serial, device_of(info))));
            assert(slot_of(t2[table.len() as int].1, info.pid) == Some(info));
        },
    }
}

/// Each entry of the table holds a device whose serial number is the entry's key, and no two
/// keys are equal.
pub open spec fn table_wf(table: Seq<(String, XrDeviceInfo)>) -> bool {
    &&& forall|i: int| 0 <= i < table.len() ==> (#[trigger] table[i]).1.serial_number == Some(table[i].0)
    &&& forall|i: int, j: int| 0 <= i < j < table.len() ==> (#[trigger] table[i]).0@ != (#[trigger] table[j]).0@
}

/// UTF-8 bytes of the serial number of a device that has one.
pub open spec fn serial_bytes(d: XrDeviceInfo) -> Seq<u8> {
    encode_utf8(d.serial_number.unwrap()@)
}

/// `devices` lists the devices of the table in increasing order of serial number, then the
/// devices without a serial number in the order they were found.
pub open spec fn sorted_devices(
    devices: Seq<XrDeviceInfo>,
    table: Seq<(String, XrDeviceInfo)>,
    loose: Seq<XrDeviceInfo>,
) -> bool {
    &&& devices.len() == table.len() + loose.len()
    &&& forall|i: int| 0 <= i < loose.len() ==> devices[table.len() + i] == #[trigger] loose[i]
    &&& forall|i: int| 0 <= i < table.len() ==> (#[trigger] devices[i]).serial_number is Some
    &&& forall|i: int, j: int|
        0 <= i < j < table.len() ==> bytes_before(serial_bytes(#[trigger] devices[i]), serial_bytes(#[trigger] devices[j]))
    &&& forall|i: int| 0 <= i < table.len() ==> in_table(#[trigger] devices[i], table)
    &&& forall|j: int| 0 <= j < table.len() ==> listed_before(devices, (#[trigger] table[j]).1, table.len() as int)
}

/// `d` is the device of some entry of `table`.
pub open spec fn in_table(d: XrDeviceInfo, table: Seq<(String, XrDeviceInfo)>) -> bool {
    exists|j: int| 0 <= j < table.len() && d == #[trigger] table[j].1
}

/// `d` is among the first `n` devices of `devices`.
pub open spec fn listed_before(devices: Seq<XrDeviceInfo>, d: XrDeviceInfo, n: int) -> bool {
    exists|i: int| 0 <= i < n && #[trigger] devices[i] == d
}

/// The enumeration order of the devices that `infos` make up.
pub open spec fn enumeration_order(devices: Seq<XrDeviceInfo>, infos: Seq<InterfaceInfo>) -> bool {
    sorted_devices(devices, grouped(infos).0, grouped(infos).1)
}

/// Different serial numbers have different UTF-8 encodings.
proof fn lemma_encode_injective(a: Seq<char>, b: Seq<char>)
    requires
        a != b,
    ensures
        encode_utf8(a) != encode_utf8(b),
{
    vstd::utf8::encode_utf8_decode_utf8(a);
    vstd::utf8::encode_utf8_decode_utf8(b);
}

/// Index of the first entry keyed `k`.
fn key_index(table: &Vec<(String, XrDeviceInfo)>, k: &String) -> (r: Option<usize>)
    ensures
        r is None <==> key_position(table@, k@) is None,
        r matches Some(j) ==> key_position(table@, k@) == Some(j as int) && j < table@.len(),
{
    let ghost p = |x: Seq<char>| x == k@;
    let mut i: usize = 0;
    while i < table.len()
        invariant
            i <= table@.len(),
            p == (|x: Seq<char>| x == k@),
            forall|j: int| 0 <= j < i ==> !p(#[trigger] table@[j].0@),
        decreases table.len() - i,
    {
        if table[i].0 == *k {
            proof {
                assert(is_first_key_where(table@, p, i as int));
                lemma_first_key_where_unique(table@, p, i as int);
            }
            return Some(i);
        }
        i = i + 1;
    }
    proof {
        assert forall|j: int| !is_first_key_where(table@, p, j) by {
            if 0 <= j < table@.len() {
                assert(!p(table@[j].0@));
            }
        }
    }
    None
}

/// Index of the first entry whose key is similar to `target`.
fn similar_index(table: &[(String, XrDeviceInfo)], target: &str) -> (r: Option<usize>)
    ensures
        r is None <==> first_similar(table@, target@) is None,
        r matches Some(j) ==> first_similar(table@, target@) == Some(j as int) && j < table@.len(),
{
    let ghost p = |k: Seq<char>| serials_similar(k, target@);
    let mut i: usize = 0;
    while i < table.len()
        invariant
            i <= table@.len(),
            p == (|k: Seq<char>| serials_similar(k, target@)),
            forall|j: int| 0 <= j < i ==> !p(#[trigger] table@[j].0@),
        decreases table.len() - i,
    {
        if are_serial_numbers_similar(table[i].0.as_str(), target) {
            proof {
                assert(is_first_key_where(table@, p, i as int));
                lemma_first_key_where_unique(table@, p, i as int);
            }
            return Some(i);
        }
        i = i + 1;
    }
    proof {
        assert forall|k: int| !is_first_key_where(table@, p, k) by {
            if 0 <= k < table@.len() {
                assert(!p(table@[k].0@));
            }
        }
    }
    None
}

/// Puts `info` in the slot of its product.
fn place_interface(d: XrDeviceInfo, info: InterfaceInfo) -> (r: XrDeviceInfo)
    ensures
        r == with_interface(d, info),
{
    let mut d = d;
    if info.pid == XR2280X_I2C_PID {
        d.i2c_interface = Some(info);
    } else if info.pid == XR2280X_EDGE_PID {
        d.edge_interface = Some(info);
    }
    d
}

/// Copy of an optional string.
fn copy_text(t: &Option<String>) -> (r: Option<String>)
    ensures
        r == *t,
{
    match t {
        Some(s) => Some(s.clone()),
        None => None,
    }
}

/// A new device holding the interface `info`.
fn new_device(info: InterfaceInfo) -> (d: XrDeviceInfo)
    ensures
        d == device_of(info),
{
    let d = XrDeviceInfo {
        vid: info.vid,
        serial_number: copy_text(&info.serial_number),
        product_string: copy_text(&info.product_string),
        i2c_interface: None,
        edge_interface: None,
    };
    place_interface(d, info)
}

/// Whether the device `d` already holds an interface of product `pid`.
fn has_slot_taken(d: &XrDeviceInfo, pid: u16) -> (r: bool)
    ensures
        r == slot_taken(*d, pid),
{
    if pid == XR2280X_I2C_PID {
        d.i2c_interface.is_some()
    } else if pid == XR2280X_EDGE_PID {
        d.edge_interface.is_some()
    } else {
        false
    }
}

/// Index of the entry that an interface with serial number `serial` and product `pid` joins.
fn joined_index(table: &Vec<(String, XrDeviceInfo)>, serial: &String, pid: u16) -> (r: Option<usize>)
    ensures
        r is None <==> joined_entry(table@, serial@, pid) is None,
        r matches Some(j) ==> joined_entry(table@, serial@, pid) == Some(j as int) && j < table@.len(),
{
    let exact = key_index(table, serial);
    match exact {
        Some(i) => {
            if has_slot_taken(&table[i].1, pid) {
                exact
            } else {
                Some(i)
            }
        },
        None => {
            let similar = similar_index(table.as_slice(), serial.as_str());
            match similar {
                Some(i) => {
                    if has_slot_taken(&table[i].1, pid) {
                        None
                    } else {
                        Some(i)
                    }
                },
                None => None,
            }
        },
    }
}

/// Adds one interface to the devices found so far.
fn add_interface(table: &mut Vec<(String, XrDeviceInfo)>, loose: &mut Vec<XrDeviceInfo>, info: InterfaceInfo)
    requires
        table_wf(old(table)@),
    ensures
        (final(table)@, final(loose)@) == group_step(old(table)@, old(loose)@, info),
        table_wf(final(table)@),
{
    match copy_text(&info.serial_number) {
        None => {
            loose.push(new_device(info));
        },
        Some(serial) => {
            let target = joined_index(table, &serial, info.pid);
            match target {
                Some(i) => {
                    let (key, device) = table.remove(i);
                    let device = place_interface(device, info);
                    table.insert(i, (key, device));
                    assert(table@ =~= old(table)@.update(i as int, (old(table)@[i as int].0, with_interface(old(table)@[i as int].1, info))));
                },
                None => {
                    proof {
                        assert forall|j: int| 0 <= j < old(table)@.len() implies (#[trigger] old(table)@[j]).0@ != serial@ by {
                            if old(table)@[j].0@ == serial@ {
                                let p = |x: Seq<char>| x == serial@;
                                let mut k = j;
                                assert(p(old(table)@[j].0@));
                                lemma_some_first_exists(old(table)@, p, j);
                            }
                        }
                    }
                    table.push((serial, new_device(info)));
                },
            }
        },
    }
}

/// When some entry satisfies `p`, a first one does.
proof fn lemma_some_first_exists(table: Seq<(String, XrDeviceInfo)>, p: spec_fn(Seq<char>) -> bool, j: int)
    requires
        0 <= j < table.len(),
        p(table[j].0@),
    ensures
        first_key_where(table, p) is Some,
    decreases j,
{
    if forall|k: int| 0 <= k < j ==> !p(#[trigger] table[k].0@) {
        assert(is_first_key_where(table, p, j));
    } else {
        let k = choose|k: int| 0 <= k < j && !!p(#[trigger] table[k].0@);
        lemma_some_first_exists(table, p, k);
    }
}

/// The keys of `s` are in strictly increasing order of their UTF-8 bytes.
pub open spec fn keys_ascending(s: Seq<(String, XrDeviceInfo)>) -> bool {
    forall|i: int, j: int|
        0 <= i < j < s.len() ==> bytes_before(encode_utf8((#[trigger] s[i]).0@), encode_utf8((#[trigger] s[j]).0@))
}

/// `s` holds the first `m` entries of `t`, each once, in some order.
pub open spec fn holds_prefix(s: Seq<(String, XrDeviceInfo)>, t: Seq<(String, XrDeviceInfo)>, m: int) -> bool {
    &&& s.len() == m
    &&& forall|i: int| 0 <= i < m ==> exists|j: int| 0 <= j < m && #[trigger] s[i] == t[j]
    &&& forall|j: int| 0 <= j < m ==> exists|i: int| 0 <= i < m && s[i] == #[trigger] t[j]
}

/// Inserting `e` where it belongs keeps the keys of `s` in increasing order.
proof fn lemma_insert_ascending(s: Seq<(String, XrDeviceInfo)>, e: (String, XrDeviceInfo), p: int)
    requires
        0 <= p <= s.len(),
        keys_ascending(s),
        forall|i: int| 0 <= i < p ==> bytes_before(encode_utf8((#[trigger] s[i]).0@), encode_utf8(e.0@)),
        forall|i: int| p <= i < s.len() ==> bytes_before(encode_utf8(e.0@), encode_utf8((#[trigger] s[i]).0@)),
    ensures
        keys_ascending(s.insert(p, e)),
{
    let s2 = s.insert(p, e);
    assert forall|i: int, j: int| 0 <= i < j < s2.len() implies bytes_before(
        encode_utf8((#[trigger] s2[i]).0@),
        encode_utf8((#[trigger] s2[j]).0@),
    ) by {
        if j < p {
            assert(s2[i] == s[i] && s2[j] == s[j]);
        } else if j == p {
            assert(s2[i] == s[i] && s2[j] == e);
        } else if i < p {
            assert(s2[i] == s[i] && s2[j] == s[j - 1]);
        } else if i == p {
            assert(s2[i] == e && s2[j] == s[j - 1]);
        } else {
            assert(s2[i] == s[i - 1] && s2[j] == s[j - 1]);
        }
    }
}

/// Inserting `t[m]` anywhere makes `s` hold one more entry of `t`.
proof fn lemma_insert_holds(s: Seq<(String, XrDeviceInfo)>, t: Seq<(String, XrDeviceInfo)>, m: int, p: int)
    requires
        0 <= m < t.len(),
        0 <= p <= s.len(),
        holds_prefix(s, t, m),
    ensures
        holds_prefix(s.insert(p, t[m]), t, m + 1),
{
    let s2 = s.insert(p, t[m]);
    assert forall|i: int| 0 <= i < m + 1 implies exists|j: int| 0 <= j < m + 1 && #[trigger] s2[i] == t[j] by {
        if i < p {
            assert(s2[i] == s[i]);
            let j = choose|j: int| 0 <= j < m && s[i] == t[j];
            assert(s2[i] == t[j]);
        } else if i == p {
            assert(s2[i] == t[m]);
        } else {
            assert(s2[i] == s[i - 1]);
            let j = choose|j: int| 0 <= j < m && s[i - 1] == t[j];
            assert(s2[i] == t[j]);
        }
    }
    assert forall|j: int| 0 <= j < m + 1 implies exists|i: int| 0 <= i < m + 1 && s2[i] == #[trigger] t[j] by {
        if j == m {
            assert(s2[p] == t[m]);
        } else {
            let i = choose|i: int| 0 <= i < m && s[i] == t[j];
            if i < p {
                assert(s2[i] == t[j]);
            } else {
                assert(s2[i + 1] == t[j]);
            }
        }
    }
}

/// Position at which `key` belongs among the increasing keys of `sorted`, none of which is `key`.
fn insertion_point(sorted: &Vec<(String, XrDeviceInfo)>, key: &String) -> (p: usize)
    requires
        keys_ascending(sorted@),
        forall|i: int| 0 <= i < sorted@.len() ==> (#[trigger] sorted@[i]).0@ != key@,
    ensures
        p <= sorted@.len(),
        forall|i: int| 0 <= i < p ==> bytes_before(encode_utf8((#[trigger] sorted@[i]).0@), encode_utf8(key@)),
        forall|i: int| p <= i < sorted@.len() ==> bytes_before(encode_utf8(key@), encode_utf8((#[trigger] sorted@[i]).0@)),
{
    let mut p: usize = 0;
    while p < sorted.len() && bytes_less(sorted[p].0.as_str().as_bytes(), key.as_str().as_bytes())
        invariant
            p <= sorted@.len(),
            forall|i: int| 0 <= i < p ==> bytes_before(encode_utf8((#[trigger] sorted@[i]).0@), encode_utf8(key@)),
        decreases sorted.len() - p,
    {
        p = p + 1;
    }
    proof {
        if p < sorted@.len() {
            lemma_encode_injective(sorted@[p as int].0@, key@);
            lemma_bytes_before_total(encode_utf8(sorted@[p as int].0@), encode_utf8(key@));
            assert forall|i: int| p <= i < sorted@.len() implies bytes_before(
                encode_utf8(key@),
                encode_utf8((#[trigger] sorted@[i]).0@),
            ) by {
                if i > p {
                    lemma_bytes_before_transitive(
                        encode_utf8(key@),
                        encode_utf8(sorted@[p as int].0@),
                        encode_utf8(sorted@[i].0@),
                    );
                }
            }
        }
    }
    p
}

/// The devices of `entries`, in order.
fn devices_of(entries: Vec<(String, XrDeviceInfo)>) -> (v: Vec<XrDeviceInfo>)
    ensures
        v@.len() == entries@.len(),
        forall|i: int| 0 <= i < entries@.len() ==> #[trigger] v@[i] == entries@[i].1,
{
    let ghost s = entries@;
    let total = entries.len();
    let mut rest = entries;
    let mut v: Vec<XrDeviceInfo> = Vec::new();
    let mut k: usize = 0;
    while rest.len() > 0
        invariant
            k <= s.len(),
            s.len() == total,
            rest@ == s.skip(k as int),
            rest@.len() == s.len() - k,
            v@.len() == k,
            forall|i: int| 0 <= i < k ==> #[trigger] v@[i] == s[i].1,
        decreases rest.len(),
    {
        let (_, d) = rest.remove(0);
        v.push(d);
        k = k + 1;
        assert(rest@ =~= s.skip(k as int));
    }
    v
}

/// Orders the devices of `table` by serial number and puts the devices without one after them.
fn order_devices(table: Vec<(String, XrDeviceInfo)>, loose: Vec<XrDeviceInfo>) -> (devices: Vec<XrDeviceInfo>)
    requires
        table_wf(table@),
    ensures
        sorted_devices(devices@, table@, loose@),
{
    let ghost t = table@;
    let mut rest = table;
    let mut sorted: Vec<(String, XrDeviceInfo)> = Vec::new();
    let ghost mut m: int = 0;
    while rest.len() > 0
        invariant
            table_wf(t),
            0 <= m <= t.len(),
            rest@ == t.skip(m),
            holds_prefix(sorted@, t, m),
            keys_ascending(sorted@),
        decreases rest.len(),
    {
        assert(rest@[0] == t[m]);
        let entry = rest.remove(0);
        proof {
            assert forall|i: int| 0 <= i < sorted@.len() implies (#[trigger] sorted@[i]).0@ != entry.0@ by {
                let j = choose|j: int| 0 <= j < m && sorted@[i] == t[j];
                assert(t[j].0@ != t[m].0@);
            }
        }
        let p = insertion_point(&sorted, &entry.0);
        proof {
            lemma_insert_ascending(sorted@, entry, p as int);
            lemma_insert_holds(sorted@, t, m, p as int);
        }
        sorted.insert(p, entry);
        proof {
            m = m + 1;
            assert(rest@ =~= t.skip(m));
        }
    }
    assert(m == t.len());
    let ghost s = sorted@;
    let mut devices = devices_of(sorted);
    let mut rest_loose = loose;
    devices.append(&mut rest_loose);
    proof {
        assert forall|i: int| 0 <= i < t.len() implies (#[trigger] devices@[i]).serial_number is Some
            && serial_bytes(devices@[i]) == encode_utf8(s[i].0@) by {
            let j = choose|j: int| 0 <= j < t.len() && s[i] == t[j];
            assert(t[j].1.serial_number == Some(t[j].0));
        }
        assert forall|i: int, j: int| 0 <= i < j < t.len() implies bytes_before(
            serial_bytes(#[trigger] devices@[i]),
            serial_bytes(#[trigger] devices@[j]),
        ) by {
            assert(bytes_before(encode_utf8(s[i].0@), encode_utf8(s[j].0@)));
        }
        assert forall|i: int| 0 <= i < t.len() implies in_table(#[trigger] devices@[i], t) by {
            let j = choose|j: int| 0 <= j < t.len() && s[i] == t[j];
            assert(devices@[i] == t[j].1);
        }
        assert forall|j: int| 0 <= j < t.len() implies listed_before(devices@, (#[trigger] t[j]).1, t.len() as int) by {
            let i = choose|i: int| 0 <= i < t.len() && s[i] == t[j];
            assert(devices@[i] == t[j].1);
        }
    }
    devices
}

/// Groups the XR2280x interfaces found on the bus into devices.
///
/// Interfaces join the device of their serial number, or of a similar serial number (the two
/// interfaces of an XR22802 differ in one character), unless that device already holds an
/// interface of the same product. Interfaces without a serial number make devices of their
/// own. Devices come in increasing order of serial number, then those without one, in the
/// order found.
pub fn device_find(interfaces: Vec<InterfaceInfo>) -> (devices: Vec<XrDeviceInfo>)
    ensures
        enumeration_order(devices@, interfaces@),
{
    let ghost all = interfaces@;
    let mut rest = interfaces;
    let mut table: Vec<(String, XrDeviceInfo)> = Vec::new();
    let mut loose: Vec<XrDeviceInfo> = Vec::new();
    let total = rest.len();
    let mut k: usize = 0;
    assert(all.take(0) =~= Seq::<InterfaceInfo>::empty());
    while rest.len() > 0
        invariant
            k <= all.len(),
            rest@ == all.skip(k as int),
            rest@.len() == all.len() - k,
            all.len() == total,
            (table@, loose@) == grouped(all.take(k as int)),
            table_wf(table@),
        decreases rest.len(),
    {
        assert(rest@[0] == all[k as int]);
        let info = rest.remove(0);
        add_interface(&mut table, &mut loose, info);
        assert(all.take(k + 1).drop_last() =~= all.take(k as int));
        k = k + 1;
        assert(rest@ =~= all.skip(k as int));
    }
    assert(all.take(k as int) =~= all);
    order_devices(table, loose)
}

/// Whether an interface of vendor `vid` and product `pid` belongs to an XR2280x: the Exar vendor
/// and the I2C or EDGE product.
pub fn is_xr2280x_interface(vid: u16, pid: u16) -> (r: bool)
    ensures
        r == (vid == EXAR_VID && (pid == XR2280X_I2C_PID || pid == XR2280X_EDGE_PID)),
{
    vid == EXAR_VID && (pid == XR2280X_I2C_PID || pid == XR2280X_EDGE_PID)
}

/// The interface that a handle opened on product `pid` serves: EDGE for the EDGE product, I2C
/// for the I2C product and for any other.
pub fn interface_for_product(pid: u16) -> (r: RegisterInterface)
    ensures
        r == (if pid == XR2280X_EDGE_PID { RegisterInterface::Edge } else { RegisterInterface::I2c }),
{
    if pid == XR2280X_EDGE_PID {
        RegisterInterface::Edge
    } else {
        RegisterInterface::I2c
    }
}

/// The capabilities of a device: 32 GPIOs when it has an EDGE interface whose GPIO group 1
/// function-select register could be read, 8 otherwise.
pub fn capabilities_from_probe(edge_present: bool, group1_readable: bool) -> (c: Capabilities)
    ensures
        c.gpio_count == (if edge_present && group1_readable { 32u8 } else { 8u8 }),
{
    if edge_present && group1_readable {
        Capabilities { gpio_count: 32 }
    } else {
        Capabilities { gpio_count: 8 }
    }
}

impl XrDeviceDetails {
    /// Details of an opened device from the strings it reports; the product ID is 0, as it is
    /// not meaningful for a device that may be opened through two interfaces.
    pub fn new(
        vendor_id: u16,
        serial_number: Option<String>,
        product_string: Option<String>,
        manufacturer_string: Option<String>,
    ) -> (d: Self)
        ensures
            d.vendor_id == vendor_id,
            d.product_id == 0,
            d.serial_number == serial_number,
            d.product_string == product_string,
            d.manufacturer_string == manufacturer_string,
    {
        XrDeviceDetails { vendor_id, product_id: 0, serial_number, product_string, manufacturer_string }
    }
}

/// The first of the enumerated devices, or [`Error::DeviceNotFound`] when there is none.
pub fn select_first(devices: Vec<XrDeviceInfo>) -> (r: Result<XrDeviceInfo>)
    ensures
        devices@.len() > 0 <==> r is Ok,
        r matches Ok(d) ==> d == devices@[0],
        r matches Err(e) ==> e is DeviceNotFound,
{
    let mut devices = devices;
    if devices.len() == 0 {
        Err(Error::DeviceNotFound)
    } else {
        Ok(devices.remove(0))
    }
}

/// Text of the error for a serial number no enumerated device has.
pub open spec fn serial_not_found_text() -> Seq<char> {
    "No XR2280x device found with this serial number"@
}

/// Device `i` is the first of `devices` with serial number `serial`.
pub open spec fn is_first_with_serial(devices: Seq<XrDeviceInfo>, serial: Seq<char>, i: int) -> bool {
    &&& 0 <= i < devices.len()
    &&& devices[i].serial_number matches Some(s) && s@ == serial
    &&& forall|j: int| 0 <= j < i ==> !((#[trigger] devices[j]).serial_number matches Some(s) && s@ == serial)
}

/// Whether some device of `devices` has serial number `serial`.
pub open spec fn has_serial(devices: Seq<XrDeviceInfo>, serial: Seq<char>) -> bool {
    exists|i: int| 0 <= i < devices.len() && ((#[trigger] devices[i]).serial_number matches Some(s) && s@ == serial)
}

/// The first enumerated device whose serial number is `serial`, or
/// [`Error::DeviceNotFoundBySerial`] when none has it.
pub fn select_by_serial(devices: Vec<XrDeviceInfo>, serial: &str) -> (r: Result<XrDeviceInfo>)
    ensures
        has_serial(devices@, serial@) <==> r is Ok,
        r matches Ok(d) ==> exists|i: int| is_first_with_serial(devices@, serial@, i) && d == devices@[i],
        r matches Err(e) ==> (e matches Error::DeviceNotFoundBySerial { serial: s, message: m } && s@ == serial@
            && m@ == serial_not_found_text()),
{
    let mut candidates = devices;
    let ghost all = candidates@;
    let wanted = String::from_str(serial);
    let mut i: usize = 0;
    while i < candidates.len()
        invariant
            wanted@ == serial@,
            candidates@ == all,
            all == devices@,
            i <= all.len(),
            forall|j: int| 0 <= j < i ==> !((#[trigger] all[j]).serial_number matches Some(s) && s@ == serial@),
        decreases candidates.len() - i,
    {
        let matches = match &candidates[i].serial_number {
            Some(device_serial) => *device_serial == wanted,
            None => false,
        };
        if matches {
            assert(is_first_with_serial(all, serial@, i as int));
            assert(all[i as int].serial_number matches Some(s) && s@ == serial@);
            let d = candidates.remove(i);
            assert(is_first_with_serial(all, serial@, i as int) && d == all[i as int]);
            return Ok(d);
        }
        i = i + 1;
    }
    proof {
        reveal_strlit("No XR2280x device found with this serial number");
    }
    Err(Error::DeviceNotFoundBySerial {
        serial: wanted,
        message: String::from_str("No XR2280x device found with this serial number"),
    })
}

/// Text of the error for an index past the enumerated devices.
pub open spec fn index_out_of_range_text(count: nat) -> Seq<char> {
    "Index out of range (found "@ + decimal_digits(count) + " devices)"@
}

/// The enumerated device at `index` (from 0), or [`Error::DeviceNotFoundByIndex`] when the index
/// is past the last device.
pub fn select_by_index(devices: Vec<XrDeviceInfo>, index: usize) -> (r: Result<XrDeviceInfo>)
    ensures
        index < devices@.len() <==> r is Ok,
        r matches Ok(d) ==> d == devices@[index as int],
        r matches Err(e) ==> (e matches Error::DeviceNotFoundByIndex { index: k, message: m } && k == index
            && m@ == index_out_of_range_text(devices@.len())),
{
    let mut devices = devices;
    if index >= devices.len() {
        let mut m = String::from_str("Index out of range (found ");
        m.append(decimal_text(devices.len() as u64).as_str());
        m.append(" devices)");
        return Err(Error::DeviceNotFoundByIndex { index, message: m });
    }
    Ok(devices.remove(index))
}

/// Counting differences does not depend on the order of the two strings, and a string has
/// none with itself.
proof fn lemma_differences_symmetric(a: Seq<char>, b: Seq<char>, n: int)
    ensures
        differences_upto(a, b, n) == differences_upto(b, a, n),
        differences_upto(a, a, n) == 0,
    decreases n,
{
    if n > 0 {
        lemma_differences_symmetric(a, b, n - 1);
    }
}

/// Similarity of serial numbers does not depend on their order, and no serial number is
/// similar to itself (an identical serial is an exact match, not a similar one).
pub proof fn serial_similarity_symmetric(a: Seq<char>, b: Seq<char>)
    ensures
        serials_similar(a, b) == serials_similar(b, a),
        !serials_similar(a, a),
{
    let n = if a.len() <= b.len() { a.len() as int } else { b.len() as int };
    lemma_differences_symmetric(a, b, n);
    lemma_differences_symmetric(a, a, a.len() as int);
}

/// The device holds at least one interface.
pub open spec fn has_interface(d: XrDeviceInfo) -> bool {
    d.i2c_interface is Some || d.edge_interface is Some
}

/// Every interface of `infos` is an I2C or EDGE interface.
pub open spec fn xr_products_only(infos: Seq<InterfaceInfo>) -> bool {
    forall|i: int| 0 <= i < infos.len() ==> (#[trigger] infos[i]).pid == XR2280X_I2C_PID || infos[i].pid == XR2280X_EDGE_PID
}

/// Grouping I2C and EDGE interfaces makes devices that each hold one.
proof fn lemma_grouped_have_interfaces(infos: Seq<InterfaceInfo>)
    requires
        xr_products_only(infos),
    ensures
        forall|j: int| 0 <= j < grouped(infos).0.len() ==> has_interface(#[trigger] grouped(infos).0[j].1),
        forall|j: int| 0 <= j < grouped(infos).1.len() ==> has_interface(#[trigger] grouped(infos).1[j]),
    decreases infos.len(),
{
    if infos.len() > 0 {
        let prev = infos.drop_last();
        assert forall|i: int| 0 <= i < prev.len() implies (#[trigger] prev[i]).pid == XR2280X_I2C_PID || prev[i].pid
            == XR2280X_EDGE_PID by {
            assert(prev[i] == infos[i]);
        }
        lemma_grouped_have_interfaces(prev);
        let info = infos.last();
        assert(info == infos[infos.len() - 1]);
        let (t, l) = grouped(prev);
        let (t2, l2) = grouped(infos);
        assert(has_interface(device_of(info)));
        assert forall|j: int| 0 <= j < t2.len() implies has_interface(#[trigger] t2[j].1) by {
            if j < t.len() {
                assert(has_interface(t[j].1));
            }
        }
        assert forall|j: int| 0 <= j < l2.len() implies has_interface(#[trigger] l2[j]) by {
            if j < l.len() {
                assert(has_interface(l[j]));
            }
        }
    }
}

/// Every device enumerated from I2C and EDGE interfaces holds at least one of them.
pub proof fn enumerated_devices_have_an_interface(devices: Seq<XrDeviceInfo>, infos: Seq<InterfaceInfo>)
    requires
        xr_products_only(infos),
        enumeration_order(devices, infos),
    ensures
        forall|i: int| 0 <= i < devices.len() ==> has_interface(#[trigger] devices[i]),
{
    lemma_grouped_have_interfaces(infos);
    let (t, l) = grouped(infos);
    assert forall|i: int| 0 <= i < devices.len() implies has_interface(#[trigger] devices[i]) by {
        if i < t.len() {
            assert(in_table(devices[i], t));
            let j = choose|j: int| 0 <= j < t.len() && devices[i] == #[trigger] t[j].1;
            assert(has_interface(t[j].1));
        } else {
            assert(devices[t.len() + (i - t.len())] == l[i - t.len()]);
        }
    }
}

} // verus!
