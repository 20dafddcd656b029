//! Withdrawing what the contract holds for others: the available platform fee, the
//! available fee of a validators DAO, and the bonds that were not returned.
use vstd::prelude::*;
use crate::accounts::AccountId;
use super::types::ContractStatus;
use super::fees::FeeStats;
use super::create::{dao_stats_of, find_dao_stats, lemma_dao_stats_of};
use super::errors::BountyError;
use super::effects::{CallContext, Callback, Effect};
use super::contract::BountiesContract;

verus! {

impl BountiesContract {
    /// The first reason why `ctx` cannot withdraw the platform fee in `token_id`.
    pub open spec fn platform_fee_withdrawal_error(&self, ctx: CallContext, token_id: Seq<char>) -> Option<BountyError> {
        if self.status != ContractStatus::Live {
            Some(BountyError::NotLive)
        } else if ctx.attached_deposit != 1 {
            Some(BountyError::OneYoctoRequired)
        } else if self.recipient_of_platform_fee is None {
            Some(BountyError::NoFeeRecipient)
        } else if self.recipient_of_platform_fee->0@ != ctx.predecessor@ {
            Some(BountyError::NoPermission)
        } else if !self.total_fees@.contains_key(token_id) {
            Some(BountyError::NoFees)
        } else if self.total_fees@[token_id].available_balance() == 0 {
            Some(BountyError::ZeroBalance)
        } else {
            None
        }
    }

    /// The recipient of the platform fee `ctx` withdraws the available platform fee in
    /// `token_id`: a transfer, then the balance goes down.
    pub fn withdraw_platform_fee(&mut self, ctx: &CallContext, token_id: AccountId) -> (r: Result<Vec<Effect>, BountyError>)
        requires
            old(self).wf(),
        ensures
            *final(self) == *old(self),
            r is Err <==> old(self).platform_fee_withdrawal_error(*ctx, token_id@) is Some,
            r matches Err(e) ==> old(self).platform_fee_withdrawal_error(*ctx, token_id@) == Some(e),
            r matches Ok(effects) ==> effects@ == seq![Effect::FtTransfer {
                token_id,
                receiver_id: ctx.predecessor,
                amount: old(self).total_fees@[token_id@].available_balance(),
                then: Callback::AfterFeesPayout {
                    token_id,
                    amount: old(self).total_fees@[token_id@].available_balance(),
                    is_platform_fee: true,
                    account_id: ctx.predecessor,
                },
            }],
    {
        self.assert_live()?;
        if ctx.attached_deposit != 1 {
            return Err(BountyError::OneYoctoRequired);
        }
        match &self.recipient_of_platform_fee {
            Some(r) => if *r != ctx.predecessor { return Err(BountyError::NoPermission); },
            None => { return Err(BountyError::NoFeeRecipient); },
        }
        let balance = match self.total_fees.get(token_id.as_str()) {
            Some(f) => f.get_available_balance(),
            None => { return Err(BountyError::NoFees); },
        };
        if balance == 0 {
            return Err(BountyError::ZeroBalance);
        }
        let mut effects: Vec<Effect> = Vec::new();
        effects.push(Effect::FtTransfer {
            token_id: token_id.clone(),
            receiver_id: ctx.predecessor.clone(),
            amount: balance,
            then: Callback::AfterFeesPayout {
                token_id,
                amount: balance,
                is_platform_fee: true,
                account_id: ctx.predecessor.clone(),
            },
        });
        Ok(effects)
    }

    /// The first reason why the validators DAO `ctx` cannot withdraw its fee in `token_id`.
    pub open spec fn dao_fee_withdrawal_error(&self, ctx: CallContext, token_id: Seq<char>) -> Option<BountyError> {
        if self.status != ContractStatus::Live {
            Some(BountyError::NotLive)
        } else if ctx.attached_deposit != 1 {
            Some(BountyError::OneYoctoRequired)
        } else if !self.total_validators_dao_fees@.contains_key(ctx.predecessor@) {
            Some(BountyError::NoFees)
        } else if self.dao_fees(ctx.predecessor@, token_id).available_balance() == 0 {
            Some(BountyError::ZeroBalance)
        } else {
            None
        }
    }

    /// The validators DAO `ctx` withdraws its available fee in `token_id`: a transfer,
    /// then the balance goes down.
    pub fn withdraw_validators_dao_fee(&mut self, ctx: &CallContext, token_id: AccountId) -> (r: Result<Vec<Effect>, BountyError>)
        requires
            old(self).wf(),
        ensures
            *final(self) == *old(self),
            r is Err <==> old(self).dao_fee_withdrawal_error(*ctx, token_id@) is Some,
            r matches Err(e) ==> old(self).dao_fee_withdrawal_error(*ctx, token_id@) == Some(e),
            r matches Ok(effects) ==> effects@ == seq![Effect::FtTransfer {
                token_id,
                receiver_id: ctx.predecessor,
                amount: old(self).dao_fees(ctx.predecessor@, token_id@).available_balance(),
                then: Callback::AfterFeesPayout {
                    token_id,
                    amount: old(self).dao_fees(ctx.predecessor@, token_id@).available_balance(),
                    is_platform_fee: false,
                    account_id: ctx.predecessor,
                },
            }],
    {
        self.assert_live()?;
        if ctx.attached_deposit != 1 {
            return Err(BountyError::OneYoctoRequired);
        }
        let dao = &ctx.predecessor;
        let balance = match self.total_validators_dao_fees.get(dao.as_str()) {
            Some(stats) => {
                proof { assert(stats@.len() >= 0); }
                match find_dao_stats(stats, &token_id) {
                    Some(i) => {
                        proof {
                            lemma_dao_stats_of(stats@, token_id@, i as int);
                            assert(stats@[i as int].fee_stats.wf());
                        }
                        stats[i].fee_stats.get_available_balance()
                    },
                    None => 0,
                }
            },
            None => { return Err(BountyError::NoFees); },
        };
        if balance == 0 {
            return Err(BountyError::ZeroBalance);
        }
        let mut effects: Vec<Effect> = Vec::new();
        effects.push(Effect::FtTransfer {
            token_id: token_id.clone(),
            receiver_id: dao.clone(),
            amount: balance,
            then: Callback::AfterFeesPayout {
                token_id,
                amount: balance,
                is_platform_fee: false,
                account_id: dao.clone(),
            },
        });
        Ok(effects)
    }

    /// Why the transferred fee `amount` cannot be taken off the balance now.
    pub open spec fn fees_payout_error(&self, token_id: Seq<char>, amount: u128, is_platform_fee: bool, account_id: Seq<char>) -> Option<BountyError> {
        if is_platform_fee {
            if !self.total_fees@.contains_key(token_id) {
                Some(BountyError::NoFees)
            } else if amount > self.total_fees@[token_id].available_balance() {
                Some(BountyError::NotEnoughLocked)
            } else {
                None
            }
        } else if !self.total_validators_dao_fees@.contains_key(account_id) {
            Some(BountyError::NoFees)
        } else if amount > self.dao_fees(account_id, token_id).available_balance() {
            Some(BountyError::NotEnoughLocked)
        } else {
            None
        }
    }

    /// The answer to the transfer of a fee: when it succeeded, the amount leaves the
    /// balance as withdrawn; `Ok(false)` when it failed, and nothing changes.
    pub fn after_fees_payout(&mut self, token_id: AccountId, amount: u128, is_platform_fee: bool, account_id: AccountId, success: bool) -> (r: Result<bool, BountyError>)
        requires
            old(self).wf(),
        ensures
            final(self).wf(),
            !success ==> r == Ok::<bool, BountyError>(false) && *final(self) == *old(self),
            success ==> (r is Err <==> old(self).fees_payout_error(token_id@, amount, is_platform_fee, account_id@) is Some),
            r matches Err(e) ==> old(self).fees_payout_error(token_id@, amount, is_platform_fee, account_id@) == Some(e)
                && *final(self) == *old(self),
            success && r is Ok && is_platform_fee ==> r == Ok::<bool, BountyError>(true)
                && final(self).total_fees@ == old(self).total_fees@.insert(token_id@, FeeStats {
                    balance: (old(self).total_fees@[token_id@].balance - amount) as u128,
                    amount_withdrawn: (old(self).total_fees@[token_id@].amount_withdrawn + amount) as u128,
                    ..old(self).total_fees@[token_id@]
                })
                && *final(self) == (BountiesContract { total_fees: final(self).total_fees, ..*old(self) }),
            success && r is Ok && !is_platform_fee ==> r == Ok::<bool, BountyError>(true)
                && (forall|d: Seq<char>, t: Seq<char>| #[trigger] final(self).dao_fees(d, t) == if d == account_id@ && t == token_id@ {
                    FeeStats {
                        balance: (old(self).dao_fees(d, t).balance - amount) as u128,
                        amount_withdrawn: (old(self).dao_fees(d, t).amount_withdrawn + amount) as u128,
                        ..old(self).dao_fees(d, t)
                    }
                } else {
                    old(self).dao_fees(d, t)
                })
                && *final(self) == (BountiesContract { total_validators_dao_fees: final(self).total_validators_dao_fees, ..*old(self) }),
    {
        if !success {
            return Ok(false);
        }
        if is_platform_fee {
            let mut f = match self.total_fees.get(token_id.as_str()) {
                Some(f) => *f,
                None => { return Err(BountyError::NoFees); },
            };
            if amount > f.get_available_balance() {
                return Err(BountyError::NotEnoughLocked);
            }
            f.withdrawal_of_commission(amount);
            self.total_fees.insert(token_id, f);
        } else {
            let ghost s0 = *self;
            let mut fs = match self.total_validators_dao_fees.get(account_id.as_str()) {
                Some(stats) => match find_dao_stats(stats, &token_id) {
                    Some(i) => {
                        proof { lemma_dao_stats_of(stats@, token_id@, i as int); }
                        stats[i].fee_stats
                    },
                    None => FeeStats::new(),
                },
                None => { return Err(BountyError::NoFees); },
            };
            proof { assert(fs == s0.dao_fees(account_id@, token_id@)); }
            if amount > fs.get_available_balance() {
                return Err(BountyError::NotEnoughLocked);
            }
            fs.withdrawal_of_commission(amount);
            self.set_dao_fees(&account_id, &token_id, fs);
        }
        Ok(true)
    }

    /// The first reason why `ctx` cannot withdraw the bonds that were not returned.
    pub open spec fn bonds_withdrawal_error(&self, ctx: CallContext) -> Option<BountyError> {
        if self.status != ContractStatus::Live {
            Some(BountyError::NotLive)
        } else if ctx.attached_deposit != 1 {
            Some(BountyError::OneYoctoRequired)
        } else if self.recipient_of_platform_fee is None {
            Some(BountyError::NoFeeRecipient)
        } else if self.recipient_of_platform_fee->0@ != ctx.predecessor@ {
            Some(BountyError::NoPermission)
        } else if self.unlocked_amount == 0 {
            Some(BountyError::ZeroNonRefundedBonds)
        } else {
            None
        }
    }

    /// The recipient of the platform fee `ctx` withdraws the bonds that were not returned.
    pub fn withdraw_non_refunded_bonds(&mut self, ctx: &CallContext) -> (r: Result<Vec<Effect>, BountyError>)
        requires
            old(self).wf(),
        ensures
            final(self).wf(),
            r is Err <==> old(self).bonds_withdrawal_error(*ctx) is Some,
            r matches Err(e) ==> old(self).bonds_withdrawal_error(*ctx) == Some(e) && *final(self) == *old(self),
            r matches Ok(effects) ==> *final(self) == (BountiesContract { unlocked_amount: 0, ..*old(self) })
                && effects@ == seq![Effect::Transfer { receiver_id: ctx.predecessor, amount: old(self).unlocked_amount }],
    {
        self.assert_live()?;
        if ctx.attached_deposit != 1 {
            return Err(BountyError::OneYoctoRequired);
        }
        match &self.recipient_of_platform_fee {
            Some(r) => if *r != ctx.predecessor { return Err(BountyError::NoPermission); },
            None => { return Err(BountyError::NoFeeRecipient); },
        }
        if self.unlocked_amount == 0 {
            return Err(BountyError::ZeroNonRefundedBonds);
        }
        let amount = self.unlocked_amount;
        self.unlocked_amount = 0;
        let mut effects: Vec<Effect> = Vec::new();
        effects.push(Effect::Transfer { receiver_id: ctx.predecessor.clone(), amount });
        Ok(effects)
    }
}

} // verus!
