//! The purse and the two transactions that may touch it.

use vstd::prelude::*;

verus! {

/// Balance that a new game starts with.
pub const STARTING_BALANCE: u64 = 100;

/// What one pig costs.
pub const PIG_COST: u64 = 10;

/// What one grown pig sells for.
pub const PIG_SALE_VALUE: u64 = 15;

/// The player's balance, in whole units of currency.
#[derive(Clone, Copy, Debug, PartialEq, Eq, Structural)]
pub struct Money(pub u64);

impl Money {
    /// The purse of a new game.
    pub fn new() -> (money: Money)
        ensures
            money.0 == STARTING_BALANCE,
    {
        Money(STARTING_BALANCE)
    }

    /// Whether the balance covers one pig.
    pub open spec fn affords_pig(self) -> bool {
        self.0 >= PIG_COST
    }

    /// Pays for one pig if the balance covers it, and says whether it did.
    /// A purse that cannot pay is left as it was.
    pub fn pay_for_pig(&mut self) -> (paid: bool)
        ensures
            paid == old(self).affords_pig(),
            paid ==> final(self).0 == old(self).0 - PIG_COST,
            !paid ==> *final(self) == *old(self),
    {
        if self.0 >= PIG_COST {
            self.0 = self.0 - PIG_COST;
            true
        } else {
            false
        }
    }

    /// Whether the proceeds of one more pig still fit in the purse.
    pub fn can_bank_pig_sale(&self) -> (fits: bool)
        ensures
            fits == (self.0 + PIG_SALE_VALUE <= u64::MAX),
    {
        self.0 <= u64::MAX - PIG_SALE_VALUE
    }

    /// Banks the proceeds of one grown pig.
    pub fn bank_pig_sale(&mut self)
        requires
            old(self).0 + PIG_SALE_VALUE <= u64::MAX,
        ensures
            final(self).0 == old(self).0 + PIG_SALE_VALUE,
    {
        self.0 = self.0 + PIG_SALE_VALUE;
    }
}

} // verus!
