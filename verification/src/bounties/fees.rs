//! Accounting of the platform fee and of the validators DAO fee per token.
use vstd::prelude::*;
use crate::accounts::AccountId;

verus! {

#[derive(Clone, Copy, Debug, PartialEq, Eq, Structural)]
pub struct FeeStats {
    pub balance: u128,
    pub locked_balance: u128,
    pub amount_received: u128,
    pub amount_withdrawn: u128,
    pub refunded_amount: u128,
    pub penalty_amount: u128,
}

impl FeeStats {
    /// The locked part never exceeds the balance, and every amount received is
    /// either still in the balance, withdrawn, refunded or kept as a penalty.
    pub open spec fn wf(&self) -> bool {
        &&& self.locked_balance <= self.balance
        &&& self.balance + self.amount_withdrawn + self.refunded_amount + self.penalty_amount
            == self.amount_received
    }

    /// Nothing received yet.
    pub fn new() -> (r: FeeStats)
        ensures
            r == (FeeStats {
                balance: 0,
                locked_balance: 0,
                amount_received: 0,
                amount_withdrawn: 0,
                refunded_amount: 0,
                penalty_amount: 0,
            }),
            r.wf(),
    {
        FeeStats {
            balance: 0,
            locked_balance: 0,
            amount_received: 0,
            amount_withdrawn: 0,
            refunded_amount: 0,
            penalty_amount: 0,
        }
    }

    pub open spec fn can_receive(&self, amount: u128) -> bool {
        self.amount_received + amount <= u128::MAX
    }

    /// A fee comes in and is locked until the bounty is settled.
    pub fn receiving_commission(&mut self, amount: u128)
        requires
            old(self).wf(),
            old(self).can_receive(amount),
        ensures
            final(self).wf(),
            *final(self) == (FeeStats {
                balance: (old(self).balance + amount) as u128,
                locked_balance: (old(self).locked_balance + amount) as u128,
                amount_received: (old(self).amount_received + amount) as u128,
                ..*old(self)
            }),
    {
        self.balance = self.balance + amount;
        self.locked_balance = self.locked_balance + amount;
        self.amount_received = self.amount_received + amount;
    }

    pub open spec fn available_balance(&self) -> u128 {
        (self.balance - self.locked_balance) as u128
    }

    /// The unlocked part of the balance.
    pub fn get_available_balance(&self) -> (r: u128)
        requires
            self.wf(),
        ensures
            r == self.available_balance(),
    {
        self.balance - self.locked_balance
    }

    /// An unlocked amount leaves the balance.
    pub fn withdrawal_of_commission(&mut self, amount: u128)
        requires
            old(self).wf(),
            amount <= old(self).available_balance(),
        ensures
            final(self).wf(),
            *final(self) == (FeeStats {
                balance: (old(self).balance - amount) as u128,
                amount_withdrawn: (old(self).amount_withdrawn + amount) as u128,
                ..*old(self)
            }),
    {
        self.balance = self.balance - amount;
        self.amount_withdrawn = self.amount_withdrawn + amount;
    }

    /// Whether at least `amount` is locked.
    pub fn assert_locked_amount_greater_than_or_equal_transaction_amount(&self, amount: u128) -> (r:
        bool)
        ensures
            r == (self.locked_balance >= amount),
    {
        self.locked_balance >= amount
    }

    /// A settled fee becomes available.
    pub fn commission_unlocking(&mut self, amount: u128)
        requires
            old(self).wf(),
            amount <= old(self).locked_balance,
        ensures
            final(self).wf(),
            *final(self) == (FeeStats {
                locked_balance: (old(self).locked_balance - amount) as u128,
                ..*old(self)
            }),
    {
        self.locked_balance = self.locked_balance - amount;
    }

    /// A locked fee goes back to the bounty owner, less the penalty kept; a penalty
    /// larger than the fee is taken from what was refunded before.
    pub fn refund_commission(&mut self, amount: u128, penalty_amount: u128)
        requires
            old(self).wf(),
            amount <= old(self).locked_balance,
            amount != 0 ==> penalty_amount <= old(self).refunded_amount + amount,
        ensures
            final(self).wf(),
            amount == 0 ==> *final(self) == *old(self),
            amount != 0 ==> *final(self) == (FeeStats {
                balance: (old(self).balance - amount) as u128,
                locked_balance: (old(self).locked_balance - amount) as u128,
                refunded_amount: (old(self).refunded_amount + amount - penalty_amount) as u128,
                penalty_amount: (old(self).penalty_amount + penalty_amount) as u128,
                ..*old(self)
            }),
    {
        if amount == 0 {
            return ;
        }
        self.balance = self.balance - amount;
        self.locked_balance = self.locked_balance - amount;
        self.refunded_amount = self.refunded_amount + amount - penalty_amount;
        self.penalty_amount = self.penalty_amount + penalty_amount;
    }
}

#[derive(Clone, Debug, PartialEq, Eq)]
pub struct DaoFeeStats {
    pub token_id: AccountId,
    pub fee_stats: FeeStats,
}

impl DaoFeeStats {
    /// Nothing received yet in token `token_id`.
    pub fn new(token_id: AccountId) -> (r: DaoFeeStats)
        ensures
            r.token_id == token_id,
            r.fee_stats == FeeStats::new_spec(),
            r.fee_stats.wf(),
    {
        DaoFeeStats { token_id, fee_stats: FeeStats::new() }
    }
}

impl FeeStats {
    pub open spec fn new_spec() -> FeeStats {
        FeeStats {
            balance: 0,
            locked_balance: 0,
            amount_received: 0,
            amount_withdrawn: 0,
            refunded_amount: 0,
            penalty_amount: 0,
        }
    }
}

/// Whatever sequence of receipts, unlockings, withdrawals and refunds a fee account
/// goes through, each amount received stays accounted for exactly once, and no more
/// is locked than held: receiving then unlocking then withdrawing an amount leaves
/// the balance as it was and counts the amount as received and withdrawn.
pub proof fn lemma_fee_round_trip(s: FeeStats, amount: u128)
    requires
        s.wf(),
        s.can_receive(amount),
    ensures
        ({
            let received = FeeStats {
                balance: (s.balance + amount) as u128,
                locked_balance: (s.locked_balance + amount) as u128,
                amount_received: (s.amount_received + amount) as u128,
                ..s
            };
            let unlocked = FeeStats {
                locked_balance: (received.locked_balance - amount) as u128,
                ..received
            };
            let withdrawn = FeeStats {
                balance: (unlocked.balance - amount) as u128,
                amount_withdrawn: (unlocked.amount_withdrawn + amount) as u128,
                ..unlocked
            };
            &&& received.wf() && unlocked.wf() && withdrawn.wf()
            &&& amount <= unlocked.available_balance()
            &&& withdrawn.balance == s.balance
            &&& withdrawn.locked_balance == s.locked_balance
            &&& withdrawn.amount_received == s.amount_received + amount
            &&& withdrawn.amount_withdrawn == s.amount_withdrawn + amount
        }),
{
}

} // verus!
