//! The display accumulator: one integer register behind the calculator's
//! readout, mutated by the button handlers.

use vstd::prelude::*;

verus! {

/// What `set_display` leaves in the register.
pub open spec fn set_result(value: int) -> int {
    value
}

/// What `add` leaves in the register.
pub open spec fn add_result(current: int, value: int) -> int {
    current + value
}

/// What `subtract` leaves in the register under the signed policy:
/// no clamping, the register may go negative.
pub open spec fn subtract_result(current: int, value: int) -> int {
    current - value
}

/// What `subtract_clamped` leaves in the register under the clamp-at-zero
/// policy: underflow stops at zero.
pub open spec fn subtract_clamped_result(current: int, value: int) -> int {
    if current - value < 0 {
        0
    } else {
        current - value
    }
}

/// What `get_health` reads out of a register holding `current`.
pub open spec fn read_result(current: int) -> int {
    current
}

/// The calculator's numeric register. It holds one integer, created at 0
/// when the application starts and mutated only through the methods below.
///
/// Subtraction comes in both observed policies, each as its own method:
/// `subtract` is the signed policy (the result may go negative, as a
/// general-purpose calculator expects), `subtract_clamped` is the
/// clamp-at-zero policy (the readout never drops below zero). A caller
/// picks one and stays with it.
///
/// The register is single-threaded state: every mutation happens
/// synchronously inside an event handler, so a plain owned field suffices
/// and the methods take `&mut self`.
pub struct CalcComponent {
    pub display: isize,
}

impl View for CalcComponent {
    type V = int;

    open spec fn view(&self) -> int {
        self.display as int
    }
}

impl CalcComponent {
    /// A fresh register holding `initial`.
    pub fn new(initial: isize) -> (c: CalcComponent)
        ensures
            c@ == initial as int,
    {
        CalcComponent { display: initial }
    }

    /// The current value of the register. Reading mutates nothing.
    pub fn get_health(&self) -> (r: isize)
        ensures
            r as int == read_result(self@),
    {
        self.display
    }

    /// Overwrite the register with `value` and return the new value.
    pub fn set_display(&mut self, value: isize) -> (r: isize)
        ensures
            final(self)@ == set_result(value as int),
            r == value,
    {
        self.display = value;
        value
    }

    /// Add `value` to the register and return the new value.
    pub fn add(&mut self, value: isize) -> (r: isize)
        requires
            isize::MIN <= old(self)@ + value <= isize::MAX,
        ensures
            final(self)@ == add_result(old(self)@, value as int),
            r as int == final(self)@,
    {
        self.display = self.display + value;
        self.display
    }

    /// Subtract `value` from the register under the signed policy and
    /// return the new value, which may be negative.
    pub fn subtract(&mut self, value: isize) -> (r: isize)
        requires
            isize::MIN <= old(self)@ - value <= isize::MAX,
        ensures
            final(self)@ == subtract_result(old(self)@, value as int),
            r as int == final(self)@,
    {
        let current: isize = self.display;
        let new: isize = current - value;
        self.display = new;
        new
    }

    /// Subtract `value` from the register under the clamp-at-zero policy
    /// and return the new value: `current - value`, or 0 when that would
    /// be negative.
    pub fn subtract_clamped(&mut self, value: isize) -> (r: isize)
        requires
            old(self)@ - value <= isize::MAX,
        ensures
            final(self)@ == subtract_clamped_result(old(self)@, value as int),
            r as int == final(self)@,
    {
        if value > self.display {
            self.display = 0;
        } else {
            self.display = self.display - value;
        }
        self.display
    }
}

/// Setting the register to a non-negative `a` and then adding a
/// non-negative `b` leaves `a + b` in it.
pub proof fn lemma_set_then_add(a: int, b: int)
    requires
        a >= 0,
        b >= 0,
    ensures
        add_result(set_result(a), b) == a + b,
{
}

/// Setting the register to `a` and then subtracting `b` under the signed
/// policy leaves `a - b` in it, for any integers `a` and `b`; the result
/// may be negative.
pub proof fn lemma_set_then_subtract(a: int, b: int)
    ensures
        subtract_result(set_result(a), b) == a - b,
{
}

/// Setting the register to a non-negative `a` and then subtracting a
/// non-negative `b` under the clamp-at-zero policy leaves the larger of 0
/// and `a - b` in it.
pub proof fn lemma_set_then_subtract_clamped(a: int, b: int)
    requires
        a >= 0,
        b >= 0,
    ensures
        subtract_clamped_result(set_result(a), b) == if a - b >= 0 { a - b } else { 0 },
{
}

/// Reading right after setting the register to `v` yields `v`.
pub proof fn lemma_read_after_set(v: int)
    ensures
        read_result(set_result(v)) == v,
{
}

/// Reading is idempotent: any two reads of the same register value agree,
/// and each yields that value. A read also leaves the register as it was:
/// `get_health` takes `&self`, so it cannot mutate at all.
pub proof fn lemma_read_idempotent(current: int, first: int, second: int)
    requires
        first == read_result(current),
        second == read_result(current),
    ensures
        first == second,
        first == current,
{
}

} // verus!
