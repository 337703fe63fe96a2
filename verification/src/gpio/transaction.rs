//! Batches of GPIO level changes, applied with one SET and one CLEAR write per group.
use crate::device::{supports_pin, Capabilities};
use crate::error::{Error, Result};
use crate::gpio::{
    group_of, pin_group, pin_mask, write_masked_plan, write_masked_steps, GpioGroup, GpioLevel, GpioPin,
};
use crate::device::pin_unavailable_text;
use crate::register::{RegisterPlan, RegisterStep};
use vstd::prelude::*;

verus! {

/// Number of bits set in `x`.
pub open spec fn ones(x: u16) -> nat
    decreases x,
{
    if x == 0 {
        0
    } else {
        (x % 2) as nat + ones(x / 2)
    }
}

proof fn lemma_ones_bounded(x: u16)
    ensures
        ones(x) <= x,
    decreases x,
{
    if x != 0 {
        lemma_ones_bounded(x / 2);
    }
}

/// Counts the bits set in `x`.
pub fn count_ones(x: u16) -> (n: u32)
    ensures
        n == ones(x),
{
    let mut y: u16 = x;
    let mut n: u32 = 0;
    proof {
        lemma_ones_bounded(x);
    }
    while y != 0
        invariant
            n + ones(y) == ones(x),
            ones(x) <= 0xFFFF,
        decreases y,
    {
        n = n + (y % 2) as u32;
        y = y / 2;
    }
    n
}

/// Pending changes of one group: pins to drive high and pins to drive low.
#[derive(Debug, Clone, Copy, PartialEq, Eq, Structural)]
pub struct GpioChangeMask {
    /// Pins to set high.
    pub set_mask: u16,
    /// Pins to set low.
    pub clear_mask: u16,
}

/// Pending changes after marking the pins of `mask` high (`high`) or low.
pub open spec fn marked(m: GpioChangeMask, mask: u16, high: bool) -> GpioChangeMask {
    if high {
        GpioChangeMask { set_mask: m.set_mask | mask, clear_mask: m.clear_mask & !mask }
    } else {
        GpioChangeMask { set_mask: m.set_mask & !mask, clear_mask: m.clear_mask | mask }
    }
}

impl GpioChangeMask {
    /// No pending change.
    pub fn new() -> (m: Self)
        ensures
            m.set_mask == 0 && m.clear_mask == 0,
    {
        GpioChangeMask { set_mask: 0, clear_mask: 0 }
    }

    /// Whether a pin is pending.
    pub fn has_changes(&self) -> (b: bool)
        ensures
            b == (self.set_mask != 0 || self.clear_mask != 0),
    {
        self.set_mask != 0 || self.clear_mask != 0
    }

    /// Number of pins pending.
    pub fn pin_count(&self) -> (n: u32)
        ensures
            n == ones(self.set_mask | self.clear_mask),
    {
        count_ones(self.set_mask | self.clear_mask)
    }

    /// Drops every pending change.
    pub fn clear(&mut self)
        ensures
            final(self).set_mask == 0 && final(self).clear_mask == 0,
    {
        self.set_mask = 0;
        self.clear_mask = 0;
    }

    /// Marks the pins of `mask` high, overriding an earlier low.
    pub fn set_high(&mut self, mask: u16)
        ensures
            *final(self) == marked(*old(self), mask, true),
    {
        self.set_mask = self.set_mask | mask;
        self.clear_mask = self.clear_mask & !mask;
    }

    /// Marks the pins of `mask` low, overriding an earlier high.
    pub fn set_low(&mut self, mask: u16)
        ensures
            *final(self) == marked(*old(self), mask, false),
    {
        self.clear_mask = self.clear_mask | mask;
        self.set_mask = self.set_mask & !mask;
    }
}

/// The pending state of a transaction.
#[derive(Debug, Clone, Copy, PartialEq, Eq, Structural)]
pub struct TransactionState {
    /// Capabilities of the device the transaction is for.
    pub capabilities: Capabilities,
    /// Pending changes of group 0.
    pub group0: GpioChangeMask,
    /// Pending changes of group 1.
    pub group1: GpioChangeMask,
    /// Whether a pin has been set since creation or the last clear.
    pub has_changes: bool,
}

/// A batch of GPIO level changes, accumulated in memory and applied together.
///
/// Setting a pin only updates the pending SET and CLEAR masks of its group; [`commit`](Self::commit)
/// turns them into at most one SET and one CLEAR write per group.
#[derive(Debug)]
pub struct GpioTransaction {
    capabilities: Capabilities,
    group0_changes: GpioChangeMask,
    group1_changes: GpioChangeMask,
    has_changes: bool,
}

/// State after setting pin `pin` to `level`.
pub open spec fn with_level(s: TransactionState, pin: u8, level: GpioLevel) -> TransactionState {
    let high = level == GpioLevel::High;
    if group_of(pin) == GpioGroup::Group0 {
        TransactionState { group0: marked(s.group0, pin_mask(pin), high), has_changes: true, ..s }
    } else {
        TransactionState { group1: marked(s.group1, pin_mask(pin), high), has_changes: true, ..s }
    }
}

/// State after setting each pin of `pins` to its level, in order.
pub open spec fn with_levels(s: TransactionState, pins: Seq<(GpioPin, GpioLevel)>) -> TransactionState
    decreases pins.len(),
{
    if pins.len() == 0 {
        s
    } else {
        with_level(with_levels(s, pins.drop_last()), pins.last().0@, pins.last().1)
    }
}

/// State after setting each pin of `pins` to `level`, in order.
pub open spec fn with_all(s: TransactionState, pins: Seq<GpioPin>, level: GpioLevel) -> TransactionState
    decreases pins.len(),
{
    if pins.len() == 0 {
        s
    } else {
        with_level(with_all(s, pins.drop_last(), level), pins.last()@, level)
    }
}

/// The pending state is consistent: no pin is both high and low, changes are recorded exactly
/// when a mask is non-empty, and a model with 8 GPIOs has nothing pending in group 1.
pub open spec fn consistent(s: TransactionState) -> bool {
    &&& s.group0.set_mask & s.group0.clear_mask == 0
    &&& s.group1.set_mask & s.group1.clear_mask == 0
    &&& s.has_changes <==> (s.group0.set_mask | s.group0.clear_mask | s.group1.set_mask
        | s.group1.clear_mask) != 0
    &&& s.capabilities.gpio_count == 8 ==> s.group1.set_mask == 0 && s.group1.clear_mask == 0
}

/// Number of register writes committing the pending changes of one group takes.
pub open spec fn writes_of(m: GpioChangeMask) -> nat {
    (if m.set_mask != 0 { 1nat } else { 0nat }) + (if m.clear_mask != 0 { 1nat } else { 0nat })
}

/// Steps of committing `s`: the masked write of each group with pending changes.
pub open spec fn commit_steps(s: TransactionState) -> Seq<RegisterStep> {
    if !s.has_changes {
        Seq::empty()
    } else {
        let m0 = s.group0;
        let m1 = s.group1;
        (if m0.set_mask != 0 || m0.clear_mask != 0 {
            write_masked_steps(GpioGroup::Group0, m0.set_mask | m0.clear_mask, m0.set_mask)
        } else {
            Seq::empty()
        }) + (if m1.set_mask != 0 || m1.clear_mask != 0 {
            write_masked_steps(GpioGroup::Group1, m1.set_mask | m1.clear_mask, m1.set_mask)
        } else {
            Seq::empty()
        })
    }
}

/// Number of pins with a pending change in `s`.
pub open spec fn pending_count(s: TransactionState) -> nat {
    ones(s.group0.set_mask | s.group0.clear_mask) + ones(s.group1.set_mask | s.group1.clear_mask)
}

/// Whether pin `pin` (0 to 31) has a pending change in `s`.
pub open spec fn pending(s: TransactionState, pin: u8) -> bool {
    if pin < 16 {
        (s.group0.set_mask | s.group0.clear_mask) & (1u16 << (pin as u16)) != 0
    } else {
        (s.group1.set_mask | s.group1.clear_mask) & (1u16 << ((pin - 16) as u16)) != 0
    }
}

/// A transaction with nothing pending, as a new or cleared one is.
pub open spec fn empty_state(capabilities: Capabilities) -> TransactionState {
    TransactionState {
        capabilities,
        group0: GpioChangeMask { set_mask: 0, clear_mask: 0 },
        group1: GpioChangeMask { set_mask: 0, clear_mask: 0 },
        has_changes: false,
    }
}

/// The pin numbers of `pins`, in order.
pub open spec fn pin_numbers(pins: Seq<(GpioPin, GpioLevel)>) -> Seq<u8> {
    pins.map_values(|e: (GpioPin, GpioLevel)| e.0@)
}

proof fn lemma_ones_step(x: u16)
    ensures
        ones(x) == (x % 2) as nat + ones(x / 2),
{
    if x == 0 {
        assert(ones(0) == 0);
    }
}

/// Adding bit `b` to `x` adds one to the count of bits set exactly when the bit was clear.
proof fn lemma_ones_insert(x: u16, b: u16)
    requires
        b < 16,
    ensures
        ones(x | (1u16 << b)) == ones(x) + (if x & (1u16 << b) == 0 { 1nat } else { 0nat }),
    decreases b,
{
    let y = x | (1u16 << b);
    lemma_ones_step(x);
    lemma_ones_step(y);
    if b == 0 {
        assert(y % 2 == 1 && y / 2 == x / 2 && (x & (1u16 << b) == 0 <==> x % 2 == 0)) by (bit_vector)
            requires
                y == x | (1u16 << b),
                b == 0,
        ;
    } else {
        let c = (b - 1) as u16;
        assert(y % 2 == x % 2 && y / 2 == (x / 2) | (1u16 << c) && (x & (1u16 << b) == 0 <==> (x / 2) & (1u16
            << c) == 0)) by (bit_vector)
            requires
                y == x | (1u16 << b),
                0 < b < 16,
                c == b - 1,
        ;
        lemma_ones_insert(x / 2, c);
    }
}

/// Setting a pin makes it pending and leaves the other pins as they were; the count grows by
/// one exactly when the pin was not pending yet.
proof fn lemma_with_level_pending(s: TransactionState, pin: u8, level: GpioLevel)
    requires
        pin < 32,
    ensures
        forall|p: u8| p < 32 ==> (pending(with_level(s, pin, level), p) <==> pending(s, p) || p == pin),
        pending_count(with_level(s, pin, level)) == pending_count(s) + (if pending(s, pin) { 0nat } else { 1nat }),
        with_level(s, pin, level).has_changes,
{
    let t = with_level(s, pin, level);
    let high = level == GpioLevel::High;
    let b = (pin % 16) as u16;
    assert(pin_mask(pin) == 1u16 << b);
    assert forall|m: GpioChangeMask| #![trigger marked(m, 1u16 << b, high)]
        (marked(m, 1u16 << b, high).set_mask | marked(m, 1u16 << b, high).clear_mask) == (m.set_mask
            | m.clear_mask) | (1u16 << b) by {
        let sm = m.set_mask;
        let cm = m.clear_mask;
        let k = 1u16 << b;
        assert((sm | k) | (cm & !k) == (sm | cm) | k) by (bit_vector);
        assert((sm & !k) | (cm | k) == (sm | cm) | k) by (bit_vector);
    }
    let u0 = s.group0.set_mask | s.group0.clear_mask;
    let u1 = s.group1.set_mask | s.group1.clear_mask;
    assert forall|u: u16, q: u16, r: u16| q < 16 && r < 16 implies ((u | (1u16 << r)) & (1u16 << q) != 0 <==> (u & (
    1u16 << q) != 0 || q == r)) by {
        assert(q < 16 && r < 16 ==> ((u | (1u16 << r)) & (1u16 << q) != 0 <==> (u & (1u16 << q) != 0 || q == r)))
            by (bit_vector);
    }
    if pin < 16 {
        assert(t.group0 == marked(s.group0, 1u16 << b, high));
        assert(t.group1 == s.group1);
        lemma_ones_insert(u0, b);
        assert(b == pin as u16);
    } else {
        assert(t.group1 == marked(s.group1, 1u16 << b, high));
        assert(t.group0 == s.group0);
        lemma_ones_insert(u1, b);
        assert(b == (pin - 16) as u16);
    }
    assert forall|p: u8| p < 32 implies (pending(t, p) <==> pending(s, p) || p == pin) by {
        if p < 16 {
            assert((p as u16) < 16);
        } else {
            assert(((p - 16) as u16) < 16);
        }
    }
}

/// After setting the pins of `pins` in turn from `s0`, a pin is pending exactly when it was
/// pending in `s0` or is one of `pins`.
proof fn lemma_levels_pending(s0: TransactionState, pins: Seq<(GpioPin, GpioLevel)>)
    requires
        forall|i: int| 0 <= i < pins.len() ==> #[trigger] pins[i].0@ < 32,
        s0.group0.set_mask | s0.group0.clear_mask == 0,
        s0.group1.set_mask | s0.group1.clear_mask == 0,
        !s0.has_changes,
    ensures
        forall|p: u8| p < 32 ==> (pending(with_levels(s0, pins), p) <==> pin_numbers(pins).to_set().contains(p)),
        pending_count(with_levels(s0, pins)) == pin_numbers(pins).to_set().len(),
        with_levels(s0, pins).has_changes == (pins.len() > 0),
    decreases pins.len(),
{
    if pins.len() == 0 {
        assert(pin_numbers(pins).to_set() =~= Set::<u8>::empty());
        assert forall|p: u8| p < 32 implies !pending(s0, p) by {
            if p < 16 {
                assert(0u16 & (1u16 << (p as u16)) == 0) by (bit_vector);
            } else {
                assert(0u16 & (1u16 << ((p - 16) as u16)) == 0) by (bit_vector);
            }
        }
        assert(ones(0) == 0);
    } else {
        let before = pins.drop_last();
        let pin = pins.last().0@;
        assert(pins.last() == pins[pins.len() - 1]);
        lemma_levels_pending(s0, before);
        let prev = with_levels(s0, before);
        lemma_with_level_pending(prev, pin, pins.last().1);
        assert(pin_numbers(pins) =~= pin_numbers(before).push(pin));
        pin_numbers(before).lemma_push_to_set_commute(pin);
        vstd::seq_lib::seq_to_set_is_finite(pin_numbers(before));
        assert(pending(prev, pin) <==> pin_numbers(before).to_set().contains(pin));
    }
}

/// Setting pins one by one, from a new or cleared transaction, leaves as many pending pins as
/// there are distinct pin numbers among them, and pending changes exactly when a pin was set.
pub proof fn pending_count_is_distinct_pins(capabilities: Capabilities, pins: Seq<(GpioPin, GpioLevel)>)
    requires
        forall|i: int| 0 <= i < pins.len() ==> #[trigger] pins[i].0@ < 32,
    ensures
        pending_count(with_levels(empty_state(capabilities), pins)) == pin_numbers(pins).to_set().len(),
        with_levels(empty_state(capabilities), pins).has_changes == (pins.len() > 0),
        forall|p: u8| #![trigger pin_numbers(pins).to_set().contains(p)]
            p < 32 ==> (pending(with_levels(empty_state(capabilities), pins), p) <==> pin_numbers(
                pins,
            ).to_set().contains(p)),
{
    assert(0u16 | 0u16 == 0) by (bit_vector);
    lemma_levels_pending(empty_state(capabilities), pins);
}

/// Setting all of `pins` to one level leaves the same pending pins as setting each to that level
/// in turn.
pub proof fn all_is_each(s: TransactionState, pins: Seq<GpioPin>, level: GpioLevel)
    ensures
        with_all(s, pins, level) == with_levels(s, pins.map_values(|p: GpioPin| (p, level))),
    decreases pins.len(),
{
    if pins.len() > 0 {
        all_is_each(s, pins.drop_last(), level);
        assert(pins.map_values(|p: GpioPin| (p, level)).drop_last() =~= pins.drop_last().map_values(
            |p: GpioPin| (p, level),
        ));
    }
}

proof fn lemma_mark_consistent(m: GpioChangeMask, mask: u16, high: bool)
    requires
        m.set_mask & m.clear_mask == 0,
        mask != 0,
    ensures
        marked(m, mask, high).set_mask & marked(m, mask, high).clear_mask == 0,
        marked(m, mask, high).set_mask | marked(m, mask, high).clear_mask != 0,
{
    let s = m.set_mask;
    let c = m.clear_mask;
    assert(s & c == 0 && mask != 0 ==> (s | mask) & (c & !mask) == 0 && (s | mask) | (c & !mask) != 0)
        by (bit_vector);
    assert(s & c == 0 && mask != 0 ==> (s & !mask) & (c | mask) == 0 && (s & !mask) | (c | mask) != 0)
        by (bit_vector);
}

proof fn lemma_pin_mask_nonzero(pin: u8)
    ensures
        pin_mask(pin) != 0,
{
    let b = (pin % 16) as u16;
    assert(b < 16 ==> (1u16 << b) != 0) by (bit_vector);
}

proof fn lemma_or_nonzero(a: u16, b: u16, c: u16, d: u16)
    ensures
        (a | b) != 0 ==> (a | b | c | d) != 0,
        (c | d) != 0 ==> (a | b | c | d) != 0,
        (a | b | c | d) != 0 <==> (a != 0 || b != 0 || c != 0 || d != 0),
{
    assert((a | b) != 0 ==> (a | b | c | d) != 0) by (bit_vector);
    assert((c | d) != 0 ==> (a | b | c | d) != 0) by (bit_vector);
    assert((a | b | c | d) != 0 <==> (a != 0 || b != 0 || c != 0 || d != 0)) by (bit_vector);
}

impl View for GpioTransaction {
    type V = TransactionState;

    closed spec fn view(&self) -> TransactionState {
        TransactionState {
            capabilities: self.capabilities,
            group0: self.group0_changes,
            group1: self.group1_changes,
            has_changes: self.has_changes,
        }
    }
}

impl GpioTransaction {
    /// The transaction's state is consistent.
    pub open spec fn wf(&self) -> bool {
        consistent(self@)
    }

    /// An empty transaction for a device with these capabilities.
    pub fn new(capabilities: Capabilities) -> (t: Self)
        ensures
            t.wf(),
            t@.capabilities == capabilities,
            t@.group0 == (GpioChangeMask { set_mask: 0, clear_mask: 0 }),
            t@.group1 == (GpioChangeMask { set_mask: 0, clear_mask: 0 }),
            !t@.has_changes,
    {
        let t = GpioTransaction {
            capabilities,
            group0_changes: GpioChangeMask::new(),
            group1_changes: GpioChangeMask::new(),
            has_changes: false,
        };
        proof {
            lemma_or_nonzero(0, 0, 0, 0);
            assert(0u16 & 0u16 == 0) by (bit_vector);
        }
        t
    }

    /// Sets `pin` to `level` in this transaction, overriding an earlier level of the same pin.
    ///
    /// A pin the device lacks is refused and leaves the transaction unchanged.
    pub fn set_pin(&mut self, pin: GpioPin, level: GpioLevel) -> (r: Result<()>)
        requires
            old(self).wf(),
        ensures
            final(self).wf(),
            supports_pin(old(self)@.capabilities, pin@) <==> r is Ok,
            r is Ok ==> final(self)@ == with_level(old(self)@, pin@, level),
            r matches Err(e) ==> final(self)@ == old(self)@ && (e matches Error::UnsupportedFeature(m)
                && m@ == pin_unavailable_text(pin@)),
    {
        self.capabilities.check_gpio_pin_support(pin)?;
        let mask = pin.mask();
        let high = level == GpioLevel::High;
        proof {
            lemma_pin_mask_nonzero(pin@);
            lemma_mark_consistent(self.group0_changes, mask, high);
            lemma_mark_consistent(self.group1_changes, mask, high);
        }
        match pin_group(pin) {
            GpioGroup::Group0 => {
                if high {
                    self.group0_changes.set_high(mask);
                } else {
                    self.group0_changes.set_low(mask);
                }
            },
            GpioGroup::Group1 => {
                if high {
                    self.group1_changes.set_high(mask);
                } else {
                    self.group1_changes.set_low(mask);
                }
            },
        }
        self.has_changes = true;
        proof {
            let g0 = self.group0_changes;
            let g1 = self.group1_changes;
            lemma_or_nonzero(g0.set_mask, g0.clear_mask, g1.set_mask, g1.clear_mask);
        }
        Ok(())
    }

    /// Sets each pin of `pins` to its level, in order; stops at the first pin the device lacks,
    /// keeping the pins set before it.
    pub fn set_pins(&mut self, pins: &[(GpioPin, GpioLevel)]) -> (r: Result<()>)
        requires
            old(self).wf(),
        ensures
            final(self).wf(),
            (forall|i: int| 0 <= i < pins@.len() ==> supports_pin(old(self)@.capabilities, #[trigger] pins@[i].0@))
                <==> r is Ok,
            r is Ok ==> final(self)@ == with_levels(old(self)@, pins@),
            r is Err ==> exists|i: int|
                #![trigger pins@[i]]
                0 <= i < pins@.len() && !supports_pin(old(self)@.capabilities, pins@[i].0@)
                    && final(self)@ == with_levels(old(self)@, pins@.take(i)),
    {
        let n = pins.len();
        let mut i: usize = 0;
        while i < n
            invariant
                n == pins@.len(),
                i <= n,
                self.wf(),
                self@ == with_levels(old(self)@, pins@.take(i as int)),
                self@.capabilities == old(self)@.capabilities,
                forall|j: int| 0 <= j < i ==> supports_pin(old(self)@.capabilities, #[trigger] pins@[j].0@),
            decreases n - i,
        {
            let (pin, level) = pins[i];
            assert(pins@.take(i + 1).drop_last() =~= pins@.take(i as int));
            match self.set_pin(pin, level) {
                Ok(()) => {},
                Err(e) => {
                    return Err(e);
                },
            }
            i = i + 1;
        }
        assert(pins@.take(n as int) =~= pins@);
        Ok(())
    }

    /// Sets `pin` high.
    pub fn set_high(&mut self, pin: GpioPin) -> (r: Result<()>)
        requires
            old(self).wf(),
        ensures
            final(self).wf(),
            supports_pin(old(self)@.capabilities, pin@) <==> r is Ok,
            r is Ok ==> final(self)@ == with_level(old(self)@, pin@, GpioLevel::High),
            r is Err ==> final(self)@ == old(self)@,
    {
        self.set_pin(pin, GpioLevel::High)
    }

    /// Sets `pin` low.
    pub fn set_low(&mut self, pin: GpioPin) -> (r: Result<()>)
        requires
            old(self).wf(),
        ensures
            final(self).wf(),
            supports_pin(old(self)@.capabilities, pin@) <==> r is Ok,
            r is Ok ==> final(self)@ == with_level(old(self)@, pin@, GpioLevel::Low),
            r is Err ==> final(self)@ == old(self)@,
    {
        self.set_pin(pin, GpioLevel::Low)
    }

    fn set_all(&mut self, pins: &[GpioPin], level: GpioLevel) -> (r: Result<()>)
        requires
            old(self).wf(),
        ensures
            final(self).wf(),
            (forall|i: int| 0 <= i < pins@.len() ==> supports_pin(old(self)@.capabilities, #[trigger] pins@[i]@))
                <==> r is Ok,
            r is Ok ==> final(self)@ == with_all(old(self)@, pins@, level),
            r is Err ==> exists|i: int|
                #![trigger pins@[i]]
                0 <= i < pins@.len() && !supports_pin(old(self)@.capabilities, pins@[i]@)
                    && final(self)@ == with_all(old(self)@, pins@.take(i), level),
    {
        let n = pins.len();
        let mut i: usize = 0;
        while i < n
            invariant
                n == pins@.len(),
                i <= n,
                self.wf(),
                self@ == with_all(old(self)@, pins@.take(i as int), level),
                self@.capabilities == old(self)@.capabilities,
                forall|j: int| 0 <= j < i ==> supports_pin(old(self)@.capabilities, #[trigger] pins@[j]@),
            decreases n - i,
        {
            assert(pins@.take(i + 1).drop_last() =~= pins@.take(i as int));
            match self.set_pin(pins[i], level) {
                Ok(()) => {},
                Err(e) => {
                    return Err(e);
                },
            }
            i = i + 1;
        }
        assert(pins@.take(n as int) =~= pins@);
        Ok(())
    }

    /// Sets each pin of `pins` high, in order; stops at the first pin the device lacks.
    pub fn set_all_high(&mut self, pins: &[GpioPin]) -> (r: Result<()>)
        requires
            old(self).wf(),
        ensures
            final(self).wf(),
            (forall|i: int| 0 <= i < pins@.len() ==> supports_pin(old(self)@.capabilities, #[trigger] pins@[i]@))
                <==> r is Ok,
            r is Ok ==> final(self)@ == with_all(old(self)@, pins@, GpioLevel::High),
            r is Err ==> exists|i: int|
                #![trigger pins@[i]]
                0 <= i < pins@.len() && !supports_pin(old(self)@.capabilities, pins@[i]@)
                    && final(self)@ == with_all(old(self)@, pins@.take(i), GpioLevel::High),
    {
        self.set_all(pins, GpioLevel::High)
    }

    /// Sets each pin of `pins` low, in order; stops at the first pin the device lacks.
    pub fn set_all_low(&mut self, pins: &[GpioPin]) -> (r: Result<()>)
        requires
            old(self).wf(),
        ensures
            final(self).wf(),
            (forall|i: int| 0 <= i < pins@.len() ==> supports_pin(old(self)@.capabilities, #[trigger] pins@[i]@))
                <==> r is Ok,
            r is Ok ==> final(self)@ == with_all(old(self)@, pins@, GpioLevel::Low),
            r is Err ==> exists|i: int|
                #![trigger pins@[i]]
                0 <= i < pins@.len() && !supports_pin(old(self)@.capabilities, pins@[i]@)
                    && final(self)@ == with_all(old(self)@, pins@.take(i), GpioLevel::Low),
    {
        self.set_all(pins, GpioLevel::Low)
    }

    /// Sets `pin` to `level` and returns the transaction, for chaining.
    pub fn with_pin(self, pin: GpioPin, level: GpioLevel) -> (r: Result<Self>)
        requires
            self.wf(),
        ensures
            supports_pin(self@.capabilities, pin@) <==> r is Ok,
            r matches Ok(t) ==> t.wf() && t@ == with_level(self@, pin@, level),
            r matches Err(e) ==> (e matches Error::UnsupportedFeature(m) && m@ == pin_unavailable_text(pin@)),
    {
        let mut t = self;
        t.set_pin(pin, level)?;
        Ok(t)
    }

    /// Sets `pin` high and returns the transaction.
    pub fn with_high(self, pin: GpioPin) -> (r: Result<Self>)
        requires
            self.wf(),
        ensures
            supports_pin(self@.capabilities, pin@) <==> r is Ok,
            r matches Ok(t) ==> t.wf() && t@ == with_level(self@, pin@, GpioLevel::High),
    {
        self.with_pin(pin, GpioLevel::High)
    }

    /// Sets `pin` low and returns the transaction.
    pub fn with_low(self, pin: GpioPin) -> (r: Result<Self>)
        requires
            self.wf(),
        ensures
            supports_pin(self@.capabilities, pin@) <==> r is Ok,
            r matches Ok(t) ==> t.wf() && t@ == with_level(self@, pin@, GpioLevel::Low),
    {
        self.with_pin(pin, GpioLevel::Low)
    }

    /// Drops every pending change.
    pub fn clear(&mut self)
        requires
            old(self).wf(),
        ensures
            final(self).wf(),
            final(self)@ == (TransactionState {
                capabilities: old(self)@.capabilities,
                group0: GpioChangeMask { set_mask: 0, clear_mask: 0 },
                group1: GpioChangeMask { set_mask: 0, clear_mask: 0 },
                has_changes: false,
            }),
    {
        self.group0_changes.clear();
        self.group1_changes.clear();
        self.has_changes = false;
        proof {
            lemma_or_nonzero(0, 0, 0, 0);
            assert(0u16 & 0u16 == 0) by (bit_vector);
        }
    }

    /// Whether a pin has been set since creation or the last clear.
    pub fn has_pending_changes(&self) -> (b: bool)
        ensures
            b == self@.has_changes,
    {
        self.has_changes
    }

    /// The pending changes of `group`.
    pub fn changes(&self, group: GpioGroup) -> (m: GpioChangeMask)
        ensures
            m == (if group == GpioGroup::Group0 { self@.group0 } else { self@.group1 }),
    {
        match group {
            GpioGroup::Group0 => self.group0_changes,
            GpioGroup::Group1 => self.group1_changes,
        }
    }

    /// Number of pins the transaction will change.
    pub fn pending_pin_count(&self) -> (n: usize)
        ensures
            n == pending_count(self@),
    {
        proof {
            lemma_ones_bounded(self.group0_changes.set_mask | self.group0_changes.clear_mask);
            lemma_ones_bounded(self.group1_changes.set_mask | self.group1_changes.clear_mask);
        }
        let a = self.group0_changes.pin_count();
        let b = self.group1_changes.pin_count();
        (a + b) as usize
    }

    /// Turns the pending changes into a register plan, and the number of register writes it makes.
    ///
    /// For each group with pending changes, the pins to raise are written to its SET register and
    /// the pins to lower to its CLEAR register; an empty mask is not written.
    pub fn commit(self) -> (r: (RegisterPlan, usize))
        requires
            self.wf(),
        ensures
            r.0.steps@ == commit_steps(self@),
            r.0.failure is None,
            r.1 == (if self@.has_changes { writes_of(self@.group0) + writes_of(self@.group1) } else { 0 }),
    {
        let mut steps: Vec<RegisterStep> = Vec::new();
        if !self.has_changes {
            return (RegisterPlan { steps, failure: None }, 0);
        }
        let mut count: usize = 0;
        let m0 = self.group0_changes;
        let m1 = self.group1_changes;
        if m0.has_changes() {
            let p = write_masked_plan(&self.capabilities, GpioGroup::Group0, m0.set_mask | m0.clear_mask, m0.set_mask);
            match p {
                Ok(p) => {
                    let mut more = p.steps;
                    steps.append(&mut more);
                },
                Err(_) => {},
            }
            count = count + if m0.set_mask != 0 { 1 } else { 0 };
            count = count + if m0.clear_mask != 0 { 1 } else { 0 };
        }
        let ghost after0 = steps@;
        if m1.has_changes() {
            let p = write_masked_plan(&self.capabilities, GpioGroup::Group1, m1.set_mask | m1.clear_mask, m1.set_mask);
            match p {
                Ok(p) => {
                    let mut more = p.steps;
                    steps.append(&mut more);
                },
                Err(_) => {},
            }
            count = count + if m1.set_mask != 0 { 1 } else { 0 };
            count = count + if m1.clear_mask != 0 { 1 } else { 0 };
        }
        assert(steps@ =~= commit_steps(self@));
        (RegisterPlan { steps, failure: None }, count)
    }
}

} // verus!
