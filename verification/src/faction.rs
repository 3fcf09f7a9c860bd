//! Faction identity and the faction bank.

use vstd::prelude::*;

verus! {

/// Identifies a faction; systems record the faction that owns them.
#[derive(Clone, Copy, Debug, PartialEq, Eq, Structural, Hash)]
pub struct FactionID {
    /// The ID of the faction
    pub id: u8,
}

impl Default for FactionID {
    /// The neutral placeholder faction.
    fn default() -> (r: Self)
        ensures
            r.id == 0,
    {
        FactionID { id: 0 }
    }
}

/// The faction's bank balance together with running totals of the money
/// that has moved through it.
#[derive(Clone, Debug, PartialEq, Eq, Structural)]
pub struct Bank {
    /// The amount of money the faction has
    pub balance: u32,
    /// The total deposits made by the faction
    pub total_deposits: u32,
    /// The total withdrawals made by the faction
    pub total_withdrawals: u32,
    /// The total loans taken by the faction
    pub total_loans: u32,
    /// The total loans repaid by the faction
    pub total_loans_repaid: u32,
}

impl Bank {
    /// Create a new bank with a random starting balance in
    /// `1_000_000..2_000_000`; the totals start at zero.
    pub fn randomized() -> (r: Self)
        ensures
            1_000_000 <= r.balance < 2_000_000,
            r.total_deposits == 0,
            r.total_withdrawals == 0,
            r.total_loans == 0,
            r.total_loans_repaid == 0,
    {
        let offset = crate::rng::random_below(1_000_000);
        Bank {
            balance: 1_000_000 + (offset as u32),
            total_deposits: 0,
            total_withdrawals: 0,
            total_loans: 0,
            total_loans_repaid: 0,
        }
    }

    /// Get the balance of the bank
    pub fn bank_balance(&self) -> (r: u32)
        ensures
            r == self.balance,
    {
        self.balance
    }

    /// Deposit money into the bank.
    pub fn deposit(&mut self, amount: u32)
        requires
            old(self).balance + amount <= u32::MAX,
            old(self).total_deposits + amount <= u32::MAX,
        ensures
            final(self).balance == old(self).balance + amount,
            final(self).total_deposits == old(self).total_deposits + amount,
            final(self).total_withdrawals == old(self).total_withdrawals,
            final(self).total_loans == old(self).total_loans,
            final(self).total_loans_repaid == old(self).total_loans_repaid,
    {
        self.balance = self.balance + amount;
        self.total_deposits = self.total_deposits + amount;
    }

    /// Withdraw money from the bank.
    pub fn withdraw(&mut self, amount: u32)
        requires
            amount <= old(self).balance,
            old(self).total_withdrawals + amount <= u32::MAX,
        ensures
            final(self).balance == old(self).balance - amount,
            final(self).total_withdrawals == old(self).total_withdrawals + amount,
            final(self).total_deposits == old(self).total_deposits,
            final(self).total_loans == old(self).total_loans,
            final(self).total_loans_repaid == old(self).total_loans_repaid,
    {
        self.balance = self.balance - amount;
        self.total_withdrawals = self.total_withdrawals + amount;
    }
}

} // verus!
