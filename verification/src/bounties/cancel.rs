//! Canceling a bounty: what goes back to the owner, and what the platform and the
//! validators DAO keep as a penalty.
use vstd::prelude::*;
use crate::accounts::AccountId;
use super::types::{BountyIndex, BountyStatus, ContractStatus, ReputationActionKind, Reviewers};
use super::multitasking::{Multitasking, one_for_all_env};
use super::bounty::Bounty;
use super::config::Config;
use super::fees::FeeStats;
use super::create::{fee_dao, find_dao_stats, lemma_dao_stats_of};
use super::payout::fee_dao_of;
use super::errors::BountyError;
use super::effects::{CallContext, Callback, Effect};
use super::contract::BountiesContract;

verus! {

/// The part of bounty `b` that was not paid out: all of it, or, for a bounty with slots
/// that waits for claims, the shares of the slots not paid.
pub open spec fn unpaid_part(b: Bounty) -> (int, int, int) {
    if b.spec_is_one_bounty_for_many_claimants() && b.status == BountyStatus::AwaitingClaims {
        let m = b.multitasking->0;
        let n = m->OneForAll_number_of_slots as int;
        let rest = n - one_for_all_env(m).paid_slots;
        ((b.amount / n as u128) * rest, (b.platform_fee / n as u128) * rest, (b.dao_fee / n as u128) * rest)
    } else {
        (b.amount as int, b.platform_fee as int, b.dao_fee as int)
    }
}

/// The penalty kept from a fee `fee` charged at `percentage`: the share of the penalty
/// percentage in it.
pub open spec fn penalty(fee: int, penalty_percentage: u32, percentage: u32) -> int {
    if percentage != 0 { (fee * penalty_percentage) / (percentage as int) } else { 0 }
}

/// What canceling bounty `b` under `config` returns and keeps: the amount returned to
/// the owner, the platform fee refunded and the penalty kept from it, the DAO fee
/// refunded and the penalty kept from it; nothing for a bounty paid outside the
/// contract. A penalty may exceed its fee; the amount returned is the unpaid part with
/// both fees, less both penalties. None where a penalty overflows `u128`, where the
/// penalties exceed what they are taken from, or where a bounty with slots that waits
/// for claims has none.
pub open spec fn return_amounts(b: Bounty, config: Config) -> Option<(u128, u128, u128, u128, u128)> {
    if b.spec_is_payment_outside_contract() {
        Some((0, 0, 0, 0, 0))
    } else if b.spec_is_one_bounty_for_many_claimants() && b.status == BountyStatus::AwaitingClaims
        && b.multitasking->0->OneForAll_number_of_slots == 0 {
        None
    } else {
        let (amount, pf, df) = unpaid_part(b);
        if (config.platform_fee_percentage != 0 && pf * config.penalty_platform_fee_percentage > u128::MAX)
            || (config.validators_dao_fee_percentage != 0 && df * config.penalty_validators_dao_fee_percentage > u128::MAX) {
            None
        } else {
            let pp = penalty(pf, config.penalty_platform_fee_percentage, config.platform_fee_percentage);
            let dp = penalty(df, config.penalty_validators_dao_fee_percentage, config.validators_dao_fee_percentage);
            if pp > amount + pf || dp > amount + pf - pp + df {
                None
            } else {
                Some(((amount + pf - pp + df - dp) as u128, pf as u128, pp as u128, df as u128, dp as u128))
            }
        }
    }
}

proof fn lemma_share_of_rest(x: u128, n: u16, paid: u16)
    requires
        n > 0,
        paid <= n,
    ensures
        (x / n as u128) * (n - paid) <= x,
        (x / n as u128) * (n - paid) >= 0,
{
    let q = x / (n as u128);
    assert(q * (n as int) <= x) by (nonlinear_arith)
        requires q == x / (n as u128), n > 0;
    assert(q * ((n - paid) as int) <= q * (n as int)) by (nonlinear_arith)
        requires q >= 0, paid >= 0, paid <= n;
    assert(q * ((n - paid) as int) >= 0) by (nonlinear_arith)
        requires q >= 0, paid <= n;
}

/// What canceling bounty `b` under `config` returns and keeps.
pub fn internal_get_bounty_amount_to_return(b: &Bounty, config: &Config) -> (r: Option<(u128, u128, u128, u128, u128)>)
    requires
        b.wf(),
    ensures
        r == return_amounts(*b, *config),
{
    if b.is_payment_outside_contract() {
        return Some((0, 0, 0, 0, 0));
    }
    let (amount, pf, df) = match &b.multitasking {
        Some(Multitasking::OneForAll { number_of_slots, runtime_env: Some(env), .. }) => {
            if b.status == BountyStatus::AwaitingClaims {
                if *number_of_slots == 0 {
                    return None;
                }
                let n = *number_of_slots as u128;
                let rest = (*number_of_slots - env.paid_slots) as u128;
                proof {
                    lemma_share_of_rest(b.amount, *number_of_slots, env.paid_slots);
                    lemma_share_of_rest(b.platform_fee, *number_of_slots, env.paid_slots);
                    lemma_share_of_rest(b.dao_fee, *number_of_slots, env.paid_slots);
                }
                (b.amount / n * rest, b.platform_fee / n * rest, b.dao_fee / n * rest)
            } else {
                (b.amount, b.platform_fee, b.dao_fee)
            }
        },
        _ => (b.amount, b.platform_fee, b.dao_fee),
    };
    proof {
        assert(unpaid_part(*b) == (amount as int, pf as int, df as int));
        assert(amount + pf + df <= u128::MAX) by {
            if b.spec_is_one_bounty_for_many_claimants() && b.status == BountyStatus::AwaitingClaims {
                assert(amount <= b.amount && pf <= b.platform_fee && df <= b.dao_fee);
            }
        }
    }
    let pct = config.platform_fee_percentage as u128;
    let pen_pct = config.penalty_platform_fee_percentage as u128;
    let dao_pct = config.validators_dao_fee_percentage as u128;
    let dao_pen_pct = config.penalty_validators_dao_fee_percentage as u128;
    let pp = if pct != 0 {
        match pf.checked_mul(pen_pct) {
            Some(x) => x / pct,
            None => { return None; },
        }
    } else {
        0
    };
    let dp = if dao_pct != 0 {
        match df.checked_mul(dao_pen_pct) {
            Some(x) => x / dao_pct,
            None => { return None; },
        }
    } else {
        0
    };
    let with_fee = amount + pf;
    if pp > with_fee {
        return None;
    }
    let with_dao_fee = with_fee - pp + df;
    if dp > with_dao_fee {
        return None;
    }
    Some((with_dao_fee - dp, pf, pp, df, dp))
}

impl BountiesContract {
    /// Why the fees of bounty `b` cannot be refunded by `amounts`.
    pub open spec fn refund_lock_error(&self, b: Bounty, amounts: (u128, u128, u128, u128, u128)) -> Option<BountyError> {
        self.fees_lock_error(b, amounts.1, amounts.3)
    }

    /// `self` has the fees of bounty `b` refunded by `amounts`, on top of `old`.
    pub open spec fn fees_refunded(&self, old: &Self, b: Bounty, amounts: (u128, u128, u128, u128, u128)) -> bool {
        self.fees_refunded_for(old, b.token, fee_dao(b), amounts)
    }

    /// `self` has the platform fee in `token` and the fee of the validators DAO `dao`
    /// refunded by `amounts`, on top of `old`.
    pub open spec fn fees_refunded_for(&self, old: &Self, token: Option<AccountId>, dao: Option<AccountId>, amounts: (u128, u128, u128, u128, u128)) -> bool {
        let refunded = |f: FeeStats, amount: u128, pen: u128| if amount == 0 { f } else {
            FeeStats {
                balance: (f.balance - amount) as u128,
                locked_balance: (f.locked_balance - amount) as u128,
                refunded_amount: (f.refunded_amount + amount - pen) as u128,
                penalty_amount: (f.penalty_amount + pen) as u128,
                ..f
            }
        };
        &&& self.total_fees@ == match token {
            Some(t) => old.total_fees@.insert(t@, refunded(old.total_fees@[t@], amounts.1, amounts.2)),
            None => old.total_fees@,
        }
        &&& forall|d: Seq<char>, t: Seq<char>| #[trigger] self.dao_fees(d, t) == if dao matches Some(dd)
            && d == dd@ && t == token->0@ {
            refunded(old.dao_fees(d, t), amounts.3, amounts.4)
        } else {
            old.dao_fees(d, t)
        }
        &&& dao is None ==> self.total_validators_dao_fees@ == old.total_validators_dao_fees@
    }

    /// The fees of bounty `b` go back to its owner, less the penalties.
    pub(crate) fn internal_total_fees_refunding_funds(&mut self, token: &Option<AccountId>, dao: &Option<AccountId>, amounts: (u128, u128, u128, u128, u128))
        requires
            old(self).wf(),
            dao is Some ==> token is Some,
            token matches Some(t) ==> old(self).total_fees@.contains_key(t@) && old(self).total_fees@[t@].locked_balance >= amounts.1,
            dao matches Some(d) ==> old(self).dao_fees(d@, token->0@).locked_balance >= amounts.3,
            token matches Some(t) ==> amounts.1 != 0 ==> amounts.2 <= old(self).total_fees@[t@].refunded_amount + amounts.1,
            dao matches Some(d) ==> amounts.3 != 0 ==> amounts.4 <= old(self).dao_fees(d@, token->0@).refunded_amount + amounts.3,
        ensures
            final(self).wf(),
            final(self).fees_refunded_for(&*old(self), *token, *dao, amounts),
            *final(self) == (BountiesContract {
                total_fees: final(self).total_fees,
                total_validators_dao_fees: final(self).total_validators_dao_fees,
                ..*old(self)
            }),
    {
        match token {
            Some(t) => {
                let mut f = *self.total_fees.get(t.as_str()).unwrap();
                f.refund_commission(amounts.1, amounts.2);
                self.total_fees.insert(t.clone(), f);
            },
            None => {},
        }
        let ghost s1 = *self;
        match (dao, token) {
            (Some(d), Some(t)) => {
                let mut fs = match self.total_validators_dao_fees.get(d.as_str()) {
                    Some(stats) => match find_dao_stats(stats, t) {
                        Some(i) => {
                            proof { lemma_dao_stats_of(stats@, t@, i as int); }
                            stats[i].fee_stats
                        },
                        None => FeeStats::new(),
                    },
                    None => FeeStats::new(),
                };
                proof { assert(fs == s1.dao_fees(d@, t@)); }
                fs.refund_commission(amounts.3, amounts.4);
                self.set_dao_fees(d, t, fs);
            },
            _ => {},
        }
    }

    /// Why the fee accounting cannot take the refund of the fees of bounty `b` by
    /// `amounts`: a penalty exceeds its fee together with what was refunded before.
    pub open spec fn refund_stats_error(&self, b: Bounty, amounts: (u128, u128, u128, u128, u128)) -> Option<BountyError> {
        if b.token matches Some(t) && amounts.1 != 0 && self.total_fees@[t@].refunded_amount + amounts.1 < amounts.2 {
            Some(BountyError::ArithmeticOverflow)
        } else if fee_dao(b) matches Some(d) && amounts.3 != 0
            && self.dao_fees(d@, b.token->0@).refunded_amount + amounts.3 < amounts.4 {
            Some(BountyError::ArithmeticOverflow)
        } else {
            None
        }
    }

    /// Checks that the fee accounting can take the refund of the fees of `b`.
    fn check_refund_stats(&self, b: &Bounty, amounts: (u128, u128, u128, u128, u128)) -> (r: Result<(), BountyError>)
        requires
            self.wf(),
            self.refund_lock_error(*b, amounts) is None,
        ensures
            r is Err <==> self.refund_stats_error(*b, amounts) is Some,
            r matches Err(e) ==> self.refund_stats_error(*b, amounts) == Some(e),
    {
        if amounts.1 != 0 {
            match &b.token {
                Some(t) => {
                    let f = self.total_fees.get(t.as_str()).unwrap();
                    if f.refunded_amount < amounts.2 && amounts.2 - f.refunded_amount > amounts.1 {
                        return Err(BountyError::ArithmeticOverflow);
                    }
                },
                None => {},
            }
        }
        if amounts.3 != 0 {
            match (fee_dao_of(b), &b.token) {
                (Some(d), Some(t)) => {
                    let refunded = match self.total_validators_dao_fees.get(d.as_str()) {
                        Some(stats) => match find_dao_stats(stats, t) {
                            Some(i) => {
                                proof { lemma_dao_stats_of(stats@, t@, i as int); }
                                stats[i].fee_stats.refunded_amount
                            },
                            None => 0,
                        },
                        None => 0,
                    };
                    proof { assert(refunded == self.dao_fees(d@, t@).refunded_amount); }
                    if refunded < amounts.4 && amounts.4 - refunded > amounts.3 {
                        return Err(BountyError::ArithmeticOverflow);
                    }
                },
                _ => {},
            }
        }
        Ok(())
    }

    /// Why the amounts of bounty `id` cannot be returned now: they cannot be computed,
    /// or its fees are not locked.
    pub open spec fn refund_amounts_error(&self, id: BountyIndex) -> Option<BountyError> {
        if id >= self.bounties@.len() {
            Some(BountyError::BountyNotFound)
        } else {
            let b = self.bounties@[id as int];
            match return_amounts(b, self.config) {
                None => Some(BountyError::ArithmeticOverflow),
                Some(a) => self.refund_lock_error(b, a),
            }
        }
    }

    /// Why bounty `id` cannot be canceled now: its amounts cannot be computed, its
    /// fees are not locked, or the fee accounting cannot take their refund.
    pub open spec fn cancellation_error(&self, id: BountyIndex) -> Option<BountyError> {
        match self.refund_amounts_error(id) {
            Some(e) => Some(e),
            None => self.refund_stats_error(self.bounties@[id as int], return_amounts(self.bounties@[id as int], self.config)->0),
        }
    }

    /// The status of a canceled bounty: partly completed if some slots were paid.
    pub open spec fn canceled_status(b: Bounty) -> BountyStatus {
        if b.status == BountyStatus::AwaitingClaims { BountyStatus::PartiallyCompleted } else { BountyStatus::Canceled }
    }

    /// `other` is this contract once bounty `id` is canceled: its fees are refunded
    /// less the penalties, and its status changes.
    pub open spec fn bounty_canceled(&self, other: &Self, id: BountyIndex) -> bool {
        let b = self.bounties@[id as int];
        &&& other.bounties@ == self.bounties@.update(id as int, Bounty { status: Self::canceled_status(b), ..b })
        &&& other.fees_refunded(self, b, return_amounts(b, self.config)->0)
        &&& *other == (BountiesContract {
            bounties: other.bounties,
            total_fees: other.total_fees,
            total_validators_dao_fees: other.total_validators_dao_fees,
            ..*self
        })
    }

    /// What the cancellation of bounty `id` tells the reputation contract.
    pub open spec fn cancellation_effects(&self, id: BountyIndex) -> Seq<Effect> {
        let b = self.bounties@[id as int];
        self.statistic(None, Some(b.owner), if Self::canceled_status(b) == BountyStatus::Canceled {
            ReputationActionKind::BountyCancelled
        } else {
            ReputationActionKind::SuccessfulBounty
        })
    }

    /// Cancels bounty `id` once its amount went back to the owner.
    pub(crate) fn internal_bounty_cancellation(&mut self, id: BountyIndex, effects: &mut Vec<Effect>) -> (r: Result<(), BountyError>)
        requires
            old(self).wf(),
        ensures
            final(self).wf(),
            r is Err <==> old(self).cancellation_error(id) is Some,
            r matches Err(e) ==> old(self).cancellation_error(id) == Some(e) && *final(self) == *old(self)
                && final(effects)@ == old(effects)@,
            r is Ok ==> old(self).bounty_canceled(&*final(self), id)
                && final(effects)@ == old(effects)@ + old(self).cancellation_effects(id),
    {
        if id >= self.last_bounty_id {
            return Err(BountyError::BountyNotFound);
        }
        let n = self.bounties.len();
        proof { assert(self.bounties@[id as int].wf()); }
        let ghost s0 = *self;
        let amounts = match internal_get_bounty_amount_to_return(&self.bounties[id as usize], &self.config) {
            Some(a) => a,
            None => { return Err(BountyError::ArithmeticOverflow); },
        };
        self.check_fees_locked(&self.bounties[id as usize], amounts.1, amounts.3)?;
        self.check_refund_stats(&self.bounties[id as usize], amounts)?;
        let token = self.bounties[id as usize].token.clone();
        let dao = fee_dao_of(&self.bounties[id as usize]);
        self.internal_total_fees_refunding_funds(&token, &dao, amounts);
        let ghost s_ref = *self;
        let mut bounty = self.take_bounty(id);
        let new_status = if bounty.status == BountyStatus::AwaitingClaims { BountyStatus::PartiallyCompleted } else { BountyStatus::Canceled };
        bounty.status = new_status;
        let owner = bounty.owner.clone();
        self.put_bounty(id, bounty);
        proof {
            assert(self.bounties@ =~= s0.bounties@.update(id as int, self.bounties@[id as int]));
            assert forall|i: int| 0 <= i < self.bounties@.len() implies (#[trigger] self.bounties@[i]).wf() by {
                if i != id { assert(self.bounties@[i] == s0.bounties@[i]); }
            }
        }
        let kind = if new_status == BountyStatus::Canceled { ReputationActionKind::BountyCancelled } else { ReputationActionKind::SuccessfulBounty };
        self.push_statistic(effects, None, Some(owner), kind);
        proof {
            assert(self.total_fees == s_ref.total_fees);
            assert(self.total_validators_dao_fees == s_ref.total_validators_dao_fees);
            assert forall|d: Seq<char>, t: Seq<char>| #[trigger] self.dao_fees(d, t) == s_ref.dao_fees(d, t) by {}
            assert(self.fees_refunded(&s0, s0.bounties@[id as int], amounts));
            assert(self.bounties@ == s0.bounties@.update(id as int, Bounty { status: Self::canceled_status(s0.bounties@[id as int]), ..s0.bounties@[id as int] }));
        }
        Ok(())
    }

    /// Why the amount of bounty `id` cannot be returned to its owner now.
    pub open spec fn refund_error(&self, id: BountyIndex) -> Option<BountyError> {
        if self.refund_amounts_error(id) is Some {
            self.refund_amounts_error(id)
        } else if return_amounts(self.bounties@[id as int], self.config).unwrap().0 == 0 {
            self.cancellation_error(id)
        } else if self.bounties@[id as int].token is None {
            Some(BountyError::InvalidTokenId)
        } else {
            None
        }
    }

    /// Returns the amount of bounty `id` to its owner: a transfer, then the
    /// cancellation; the cancellation at once where nothing goes back.
    pub(crate) fn internal_refund_bounty_amount(&mut self, id: BountyIndex, effects: &mut Vec<Effect>) -> (r: Result<(), BountyError>)
        requires
            old(self).wf(),
        ensures
            final(self).wf(),
            r is Err <==> old(self).refund_error(id) is Some,
            r matches Err(e) ==> old(self).refund_error(id) == Some(e) && *final(self) == *old(self)
                && final(effects)@ == old(effects)@,
            r is Ok ==> {
                let b = old(self).bounties@[id as int];
                let a = return_amounts(b, old(self).config)->0;
                if a.0 == 0 {
                    old(self).bounty_canceled(&*final(self), id)
                        && final(effects)@ == old(effects)@ + old(self).cancellation_effects(id)
                } else {
                    *final(self) == *old(self) && final(effects)@ == old(effects)@.push(Effect::FtTransfer {
                        token_id: b.token->0,
                        receiver_id: b.owner,
                        amount: a.0,
                        then: Callback::AfterRefundBountyAmount { id },
                    })
                }
            },
    {
        if id >= self.last_bounty_id {
            return Err(BountyError::BountyNotFound);
        }
        let n = self.bounties.len();
        proof { assert(self.bounties@[id as int].wf()); }
        let b = &self.bounties[id as usize];
        let amounts = match internal_get_bounty_amount_to_return(b, &self.config) {
            Some(a) => a,
            None => { return Err(BountyError::ArithmeticOverflow); },
        };
        self.check_fees_locked(b, amounts.1, amounts.3)?;
        if amounts.0 == 0 {
            return self.internal_bounty_cancellation(id, effects);
        }
        let token = match &b.token {
            Some(t) => t.clone(),
            None => { return Err(BountyError::InvalidTokenId); },
        };
        effects.push(Effect::FtTransfer {
            token_id: token,
            receiver_id: b.owner.clone(),
            amount: amounts.0,
            then: Callback::AfterRefundBountyAmount { id },
        });
        Ok(())
    }

    /// The first reason why `ctx` cannot cancel bounty `id`, before its amount is returned.
    pub open spec fn cancel_error(&self, ctx: CallContext, id: BountyIndex) -> Option<BountyError> {
        if self.status != ContractStatus::Live {
            Some(BountyError::NotLive)
        } else if ctx.attached_deposit != 1 {
            Some(BountyError::OneYoctoRequired)
        } else if id >= self.bounties@.len() {
            Some(BountyError::BountyNotFound)
        } else if !(self.bounties@[id as int].status == BountyStatus::New || self.bounties@[id as int].status == BountyStatus::AwaitingClaims) {
            Some(BountyError::BountyStatusForCancel)
        } else if self.bounties@[id as int].owner@ != ctx.predecessor@ {
            Some(BountyError::NotOwner)
        } else {
            self.refund_error(id)
        }
    }

    /// The owner `ctx` cancels bounty `id`, which is new or waits for claims: what was
    /// not paid goes back, less the penalties kept from the fees.
    pub fn bounty_cancel(&mut self, ctx: &CallContext, id: BountyIndex) -> (r: Result<Vec<Effect>, BountyError>)
        requires
            old(self).wf(),
        ensures
            final(self).wf(),
            r is Err <==> old(self).cancel_error(*ctx, id) is Some,
            r matches Err(e) ==> old(self).cancel_error(*ctx, id) == Some(e) && *final(self) == *old(self),
            r matches Ok(effects) ==> {
                let b = old(self).bounties@[id as int];
                let a = return_amounts(b, old(self).config)->0;
                if a.0 == 0 {
                    old(self).bounty_canceled(&*final(self), id) && effects@ == old(self).cancellation_effects(id)
                } else {
                    *final(self) == *old(self) && effects@ == seq![Effect::FtTransfer {
                        token_id: b.token->0,
                        receiver_id: b.owner,
                        amount: a.0,
                        then: Callback::AfterRefundBountyAmount { id },
                    }]
                }
            },
    {
        self.assert_live()?;
        if ctx.attached_deposit != 1 {
            return Err(BountyError::OneYoctoRequired);
        }
        if id >= self.last_bounty_id {
            return Err(BountyError::BountyNotFound);
        }
        let n = self.bounties.len();
        let st = self.bounties[id as usize].status;
        if !(st == BountyStatus::New || st == BountyStatus::AwaitingClaims) {
            return Err(BountyError::BountyStatusForCancel);
        }
        if self.bounties[id as usize].owner != ctx.predecessor {
            return Err(BountyError::NotOwner);
        }
        let mut effects: Vec<Effect> = Vec::new();
        self.internal_refund_bounty_amount(id, &mut effects)?;
        proof { assert(effects@ =~= Seq::<Effect>::empty() + effects@); }
        Ok(effects)
    }

    /// The answer to the transfer that returned the amount of bounty `id`: when it
    /// succeeded, the bounty is canceled; `Ok(false)` when it failed, and nothing changes.
    pub fn after_refund_bounty_amount(&mut self, id: BountyIndex, success: bool) -> (r: Result<(bool, Vec<Effect>), BountyError>)
        requires
            old(self).wf(),
        ensures
            final(self).wf(),
            !success ==> *final(self) == *old(self) && (r matches Ok((false, effects)) && effects@.len() == 0),
            success ==> (r is Err <==> old(self).cancellation_error(id) is Some),
            r is Err ==> *final(self) == *old(self),
            success ==> (r matches Err(e) ==> old(self).cancellation_error(id) == Some(e)),
            success && r is Ok ==> old(self).bounty_canceled(&*final(self), id)
                && (r matches Ok((true, effects)) && effects@ == old(self).cancellation_effects(id)),
    {
        let mut effects: Vec<Effect> = Vec::new();
        if !success {
            return Ok((false, effects));
        }
        self.internal_bounty_cancellation(id, &mut effects)?;
        proof { assert(effects@ =~= Seq::<Effect>::empty() + effects@); }
        Ok((true, effects))
    }
}

} // verus!
