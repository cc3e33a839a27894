use vstd::prelude::*;

verus! {

/// The fixed slot budget of one blueprint.
pub const TOTAL_SLOTS: usize = 10;

/// The capacity ledger: a single counter of slots consumed against the fixed
/// budget. Reservations that do not fit are refused and change nothing.
#[derive(Clone, Copy, PartialEq, Eq, Structural, Debug)]
pub struct Ledger {
    /// Slots consumed so far.
    pub used: usize,
}

impl Ledger {
    /// An empty ledger with the whole budget available.
    pub fn new() -> (l: Ledger)
        ensures
            l.used == 0,
    {
        Ledger { used: 0 }
    }

    /// Whether `cost` more slots fit within the budget.
    pub fn can_reserve(&self, cost: usize) -> (b: bool)
        ensures
            b == (self.used + cost <= TOTAL_SLOTS),
    {
        cost <= TOTAL_SLOTS && self.used <= TOTAL_SLOTS - cost
    }

    /// Debits `cost` slots. Fails, and changes nothing, exactly when they do
    /// not fit within the budget.
    pub fn reserve(&mut self, cost: usize) -> (ok: bool)
        ensures
            ok == (old(self).used + cost <= TOTAL_SLOTS),
            ok ==> final(self).used == old(self).used + cost,
            !ok ==> *final(self) == *old(self),
    {
        if self.can_reserve(cost) {
            self.used = self.used + cost;
            true
        } else {
            false
        }
    }

    /// Slots still available.
    pub fn remaining(&self) -> (n: usize)
        requires
            self.used <= TOTAL_SLOTS,
        ensures
            n == TOTAL_SLOTS - self.used,
    {
        TOTAL_SLOTS - self.used
    }
}

} // verus!
