//! Paying out a bounty: the share of each payment, the fees that become available, and
//! the bounty and claim once paid.
use vstd::prelude::*;
use crate::accounts::AccountId;
use super::types::{BountyIndex, BountyStatus, ClaimStatus, ReputationActionKind, ContestOrHackathonEnv, OneForAllEnv, Reviewers};
use super::multitasking::{Multitasking, contest_env, one_for_all_env, slots};
use super::bounty::Bounty;
use super::claim::BountyClaim;
use super::claims::{claim_index, bond_of, lemma_claim_in, lemma_claim_index_unique};
use super::fees::{FeeStats, DaoFeeStats};
use super::create::{fee_dao, dao_stats_index, dao_stats_of, lemma_dao_stats_of, find_dao_stats, copy_dao_stats};
use super::errors::BountyError;
use super::effects::{Callback, Effect};
use super::contract::BountiesContract;

verus! {

/// `r` is bounty `b` once paid to `claimer` at `now`: a bounty for one claimant, a
/// contest (which ends with its winner) and a bounty with subtasks are completed; a
/// bounty with slots has one more paid slot and, when no slot is occupied any more, is
/// completed if all are paid and waits for claims otherwise.
pub open spec fn completed_bounty(b: Bounty, r: Bounty, claimer: Option<AccountId>, now: u64) -> bool {
    match b.multitasking {
        None => r == Bounty { status: BountyStatus::Completed, ..b },
        Some(m) => {
            let rm = r.multitasking->0;
            &&& r == Bounty { status: r.status, multitasking: r.multitasking, ..b }
            &&& r.multitasking is Some
            &&& match m {
                Multitasking::ContestOrHackathon { allowed_create_claim_to, successful_claims_for_result, start_conditions, .. } => {
                    &&& rm is ContestOrHackathon
                    &&& rm->ContestOrHackathon_allowed_create_claim_to == allowed_create_claim_to
                    &&& rm->ContestOrHackathon_successful_claims_for_result == successful_claims_for_result
                    &&& rm->ContestOrHackathon_start_conditions == start_conditions
                    &&& contest_env(rm) == (ContestOrHackathonEnv {
                        participants: (contest_env(m).participants - 1) as u32,
                        finished_at: Some(now),
                        competition_winner: claimer,
                        ..contest_env(m)
                    })
                    &&& r.status == BountyStatus::Completed
                },
                Multitasking::OneForAll { number_of_slots, amount_per_slot, min_slots_to_start, .. } => {
                    let occupied = (one_for_all_env(m).occupied_slots - 1) as u16;
                    let paid = (one_for_all_env(m).paid_slots + 1) as u16;
                    &&& rm is OneForAll
                    &&& rm->OneForAll_number_of_slots == number_of_slots
                    &&& rm->OneForAll_amount_per_slot == amount_per_slot
                    &&& rm->OneForAll_min_slots_to_start == min_slots_to_start
                    &&& one_for_all_env(rm) == (OneForAllEnv { occupied_slots: occupied, paid_slots: paid })
                    &&& r.status == if occupied == 0 {
                        if paid == number_of_slots { BountyStatus::Completed } else { BountyStatus::AwaitingClaims }
                    } else {
                        b.status
                    }
                },
                Multitasking::DifferentTasks { .. } => rm == m && r.status == BountyStatus::Completed,
            }
        },
    }
}

/// The validators DAO that gets a fee of bounty `b`, if any.
pub fn fee_dao_of(b: &Bounty) -> (r: Option<AccountId>)
    ensures
        r == fee_dao(*b),
{
    match (&b.reviewers, &b.token) {
        (Some(Reviewers::ValidatorsDao { validators_dao }), Some(_)) => Some(validators_dao.account_id.clone()),
        _ => None,
    }
}

/// What one payment of bounty `b` pays: the reward, the platform fee and the DAO fee.
/// A bounty with slots pays one slot's share; the last slot also gets what the division
/// left over. A bounty paid outside the contract pays nothing here.
pub open spec fn payment_amounts(b: Bounty) -> (u128, u128, u128) {
    if b.spec_is_payment_outside_contract() {
        (0, 0, 0)
    } else if b.spec_is_one_bounty_for_many_claimants() {
        let m = b.multitasking->0;
        let n = m->OneForAll_number_of_slots as int;
        let env = one_for_all_env(m);
        if env.occupied_slots == 1 && env.paid_slots == n - 1 {
            ((b.amount - (b.amount / n as u128) * (n - 1)) as u128,
             (b.platform_fee - (b.platform_fee / n as u128) * (n - 1)) as u128,
             (b.dao_fee - (b.dao_fee / n as u128) * (n - 1)) as u128)
        } else {
            ((b.amount / n as u128) as u128, (b.platform_fee / n as u128) as u128, (b.dao_fee / n as u128) as u128)
        }
    } else {
        (b.amount, b.platform_fee, b.dao_fee)
    }
}

/// A bounty with slots that has no slot cannot be divided.
pub open spec fn has_no_slots(b: Bounty) -> bool {
    b.spec_is_one_bounty_for_many_claimants() && b.multitasking->0->OneForAll_number_of_slots == 0
}

/// The `n` slot payments of an amount pay it out exactly: `n - 1` equal shares and a
/// last one with what the division left over, which is never less than a share.
pub proof fn lemma_slot_payments_sum(amount: u128, n: u16)
    requires
        n > 0,
    ensures
        (amount / n as u128) * (n - 1) <= amount,
        (amount / n as u128) * (n - 1) + (amount - (amount / n as u128) * (n - 1)) == amount,
        amount - (amount / n as u128) * (n - 1) >= amount / n as u128,
{
    let q = amount / (n as u128);
    assert(q * (n as int) <= amount) by (nonlinear_arith)
        requires q == amount / (n as u128), n > 0;
    assert(q * ((n - 1) as int) + q == q * (n as int)) by (nonlinear_arith);
    assert(q * ((n - 1) as int) >= 0) by (nonlinear_arith)
        requires q >= 0, n > 0;
}

/// The reward, platform fee and DAO fee that one payment of `b` pays.
pub fn internal_get_bounty_amount_for_payment(b: &Bounty) -> (r: (u128, u128, u128))
    requires
        b.wf(),
        !has_no_slots(*b),
    ensures
        r == payment_amounts(*b),
{
    if b.is_payment_outside_contract() {
        return (0, 0, 0);
    }
    match &b.multitasking {
        Some(Multitasking::OneForAll { number_of_slots, runtime_env: Some(env), .. }) => {
            let n = *number_of_slots as u128;
            let one_amount = b.amount / n;
            let one_platform = b.platform_fee / n;
            let one_dao = b.dao_fee / n;
            let before_last = (*number_of_slots - 1) as u128;
            proof {
                lemma_slot_payments_sum(b.amount, *number_of_slots);
                lemma_slot_payments_sum(b.platform_fee, *number_of_slots);
                lemma_slot_payments_sum(b.dao_fee, *number_of_slots);
            }
            if env.occupied_slots == 1 && env.paid_slots == *number_of_slots - 1 {
                (b.amount - one_amount * before_last, b.platform_fee - one_platform * before_last, b.dao_fee - one_dao * before_last)
            } else {
                (one_amount, one_platform, one_dao)
            }
        },
        _ => (b.amount, b.platform_fee, b.dao_fee),
    }
}

impl BountiesContract {
    /// Why the fees of a payment of `b` cannot be settled: no fee account for its token,
    /// or less locked than the payment's fees.
    pub open spec fn fees_lock_error(&self, b: Bounty, platform_fee: u128, dao_fee: u128) -> Option<BountyError> {
        if b.token matches Some(t) && !self.total_fees@.contains_key(t@) {
            Some(BountyError::TokenNotFound)
        } else if b.token matches Some(t) && self.total_fees@[t@].locked_balance < platform_fee {
            Some(BountyError::NotEnoughLocked)
        } else if fee_dao(b) matches Some(d) && self.dao_fees(d@, b.token->0@).locked_balance < dao_fee {
            Some(BountyError::NotEnoughLocked)
        } else {
            None
        }
    }

    pub fn check_fees_locked(&self, b: &Bounty, platform_fee: u128, dao_fee: u128) -> (r: Result<(), BountyError>)
        ensures
            r is Err <==> self.fees_lock_error(*b, platform_fee, dao_fee) is Some,
            r matches Err(e) ==> self.fees_lock_error(*b, platform_fee, dao_fee) == Some(e),
    {
        match &b.token {
            Some(t) => match self.total_fees.get(t.as_str()) {
                Some(f) => {
                    if !f.assert_locked_amount_greater_than_or_equal_transaction_amount(platform_fee) {
                        return Err(BountyError::NotEnoughLocked);
                    }
                },
                None => { return Err(BountyError::TokenNotFound); },
            },
            None => {},
        }
        match (&b.reviewers, &b.token) {
            (Some(Reviewers::ValidatorsDao { validators_dao }), Some(t)) => {
                let locked = match self.total_validators_dao_fees.get(validators_dao.account_id.as_str()) {
                    Some(stats) => match find_dao_stats(stats, t) {
                        Some(i) => {
                            proof { lemma_dao_stats_of(stats@, t@, i as int); }
                            stats[i].fee_stats.locked_balance
                        },
                        None => 0,
                    },
                    None => 0,
                };
                if locked < dao_fee {
                    return Err(BountyError::NotEnoughLocked);
                }
            },
            _ => {},
        }
        Ok(())
    }

    /// Replaces the DAO fee accounting of `dao` in `token` by `fs`.
    pub(crate) fn set_dao_fees(&mut self, dao: &AccountId, token: &AccountId, fs: FeeStats)
        requires
            old(self).wf(),
            fs.wf(),
        ensures
            final(self).wf(),
            forall|d: Seq<char>, t: Seq<char>| #[trigger] final(self).dao_fees(d, t) == if d == dao@ && t == token@ {
                fs
            } else {
                old(self).dao_fees(d, t)
            },
            *final(self) == (BountiesContract { total_validators_dao_fees: final(self).total_validators_dao_fees, ..*old(self) }),
    {
        let ghost s0 = *self;
        let mut stats = match self.total_validators_dao_fees.get(dao.as_str()) {
            Some(s) => copy_dao_stats(s),
            None => Vec::new(),
        };
        let ghost old_stats = stats@;
        proof {
            assert forall|t: Seq<char>| #[trigger] dao_stats_of(old_stats, t) == s0.dao_fees(dao@, t) by {
                if !s0.total_validators_dao_fees@.contains_key(dao@) {
                    assert(!super::create::has_dao_stats(old_stats, t));
                }
            }
        }
        let idx = match find_dao_stats(&stats, token) {
            Some(i) => i,
            None => {
                stats.push(DaoFeeStats { token_id: token.clone(), fee_stats: FeeStats::new() });
                let n = stats.len() - 1;
                proof {
                    assert forall|j: int| 0 <= j < n implies (#[trigger] stats@[j]).token_id@ != token@ by {
                        assert(stats@[j] == old_stats[j]);
                    }
                }
                n
            },
        };
        let ghost before = stats@;
        let entry = DaoFeeStats { token_id: stats[idx].token_id.clone(), fee_stats: fs };
        stats.set(idx, entry);
        proof {
            assert forall|j: int| 0 <= j < idx implies (#[trigger] stats@[j]).token_id@ != token@ by {
                assert(stats@[j] == before[j]);
            }
            lemma_dao_stats_of(stats@, token@, idx as int);
            assert forall|t: Seq<char>| t != token@ implies #[trigger] dao_stats_of(stats@, t) == dao_stats_of(old_stats, t) by {
                if super::create::has_dao_stats(old_stats, t) {
                    let k = super::create::lemma_first_dao_stats(old_stats, t);
                    lemma_dao_stats_of(old_stats, t, k);
                    assert(stats@[k] == old_stats[k] || k == idx);
                    if k == idx as int {
                        assert(false);
                    }
                    assert(dao_stats_index(stats@, t, k)) by {
                        assert forall|j: int| 0 <= j < k implies (#[trigger] stats@[j]).token_id@ != t by {
                            if j < old_stats.len() {
                                assert(stats@[j].token_id == before[j].token_id);
                                assert(before[j] == old_stats[j]);
                            }
                        }
                    }
                    lemma_dao_stats_of(stats@, t, k);
                } else {
                    assert(!super::create::has_dao_stats(stats@, t)) by {
                        if super::create::has_dao_stats(stats@, t) {
                            let w = choose|w: int| 0 <= w < stats@.len() && (#[trigger] stats@[w]).token_id@ == t;
                            if w == idx as int {
                                assert(stats@[w].token_id == before[w].token_id);
                            } else {
                                assert(stats@[w] == before[w]);
                            }
                            if w < old_stats.len() {
                                assert(before[w] == old_stats[w]);
                            }
                        }
                    }
                }
            }
            assert forall|k: int| 0 <= k < stats@.len() implies (#[trigger] stats@[k]).fee_stats.wf() by {
                if k != idx {
                    assert(stats@[k] == before[k]);
                    if k < old_stats.len() {
                        assert(before[k] == old_stats[k]);
                    }
                }
            }
        }
        self.total_validators_dao_fees.insert(dao.clone(), stats);
    }

    /// `self` has the fees of a payment of `b` unlocked, on top of `old`.
    pub open spec fn fees_unlocked(&self, old: &Self, b: Bounty, platform_fee: u128, dao_fee: u128) -> bool {
        self.fees_unlocked_for(old, b.token, fee_dao(b), platform_fee, dao_fee)
    }

    /// `self` has `platform_fee` in `token` and `dao_fee` of `dao` unlocked, on top of `old`.
    pub open spec fn fees_unlocked_for(&self, old: &Self, token: Option<AccountId>, dao: Option<AccountId>, platform_fee: u128, dao_fee: u128) -> bool {
        &&& self.total_fees@ == match token {
            Some(t) => old.total_fees@.insert(t@, FeeStats {
                locked_balance: (old.total_fees@[t@].locked_balance - platform_fee) as u128,
                ..old.total_fees@[t@]
            }),
            None => old.total_fees@,
        }
        &&& forall|d: Seq<char>, t: Seq<char>| #[trigger] self.dao_fees(d, t) == if dao matches Some(dd)
            && d == dd@ && t == token->0@ {
            FeeStats { locked_balance: (old.dao_fees(d, t).locked_balance - dao_fee) as u128, ..old.dao_fees(d, t) }
        } else {
            old.dao_fees(d, t)
        }
        &&& dao is None ==> self.total_validators_dao_fees@ == old.total_validators_dao_fees@
    }

    /// The fees of a payment become available: `platform_fee` in `token`, and `dao_fee`
    /// of the validators DAO `dao`.
    pub(crate) fn internal_total_fees_unlocking_funds(&mut self, token: &Option<AccountId>, dao: &Option<AccountId>, platform_fee: u128, dao_fee: u128)
        requires
            old(self).wf(),
            dao is Some ==> token is Some,
            token matches Some(t) ==> old(self).total_fees@.contains_key(t@) && old(self).total_fees@[t@].locked_balance >= platform_fee,
            dao matches Some(d) ==> old(self).dao_fees(d@, token->0@).locked_balance >= dao_fee,
        ensures
            final(self).wf(),
            final(self).fees_unlocked_for(&*old(self), *token, *dao, platform_fee, dao_fee),
            *final(self) == (BountiesContract {
                total_fees: final(self).total_fees,
                total_validators_dao_fees: final(self).total_validators_dao_fees,
                ..*old(self)
            }),
    {
        match token {
            Some(t) => {
                let mut f = *self.total_fees.get(t.as_str()).unwrap();
                f.commission_unlocking(platform_fee);
                self.total_fees.insert(t.clone(), f);
            },
            None => {},
        }
        let ghost s1 = *self;
        match (dao, token) {
            (Some(d), Some(t)) => {
                let mut fs = match self.total_validators_dao_fees.get(d.as_str()) {
                    Some(stats) => match find_dao_stats(stats, t) {
                        Some(i) => {
                            proof { lemma_dao_stats_of(stats@, t@, i as int); }
                            stats[i].fee_stats
                        },
                        None => FeeStats::new(),
                    },
                    None => FeeStats::new(),
                };
                proof { assert(fs == s1.dao_fees(d@, t@)); }
                fs.commission_unlocking(dao_fee);
                self.set_dao_fees(d, t, fs);
            },
            _ => {},
        }
    }

    /// Why bounty `id` cannot be completed now with a payment to `claimer`.
    pub open spec fn completion_error(&self, id: BountyIndex, claimer: Option<AccountId>) -> Option<BountyError> {
        if id >= self.bounties@.len() {
            Some(BountyError::BountyNotFound)
        } else {
            let b = self.bounties@[id as int];
            let amounts = payment_amounts(b);
            let head = if b.spec_is_different_tasks() {
                if claimer is Some {
                    Some(BountyError::ClaimerNotExpected)
                } else if b.status != BountyStatus::ManyClaimed {
                    Some(BountyError::BountyStatusForAction)
                } else if !b.multitasking->0.spec_are_all_slots_complete(None) {
                    Some(BountyError::NotAllSlotsComplete)
                } else {
                    None
                }
            } else if claimer is None {
                Some(BountyError::ClaimerRequired)
            } else if !(b.status == BountyStatus::Claimed || b.status == BountyStatus::ManyClaimed) {
                Some(BountyError::BountyStatusForAction)
            } else if self.claim_of(claimer->0@, id) is None {
                Some(BountyError::NoClaim)
            } else if !(self.claim_of(claimer->0@, id)->0.status == ClaimStatus::Completed
                || self.claim_of(claimer->0@, id)->0.status == ClaimStatus::Disputed) {
                Some(BountyError::ClaimStatusForAction)
            } else {
                None
            };
            if head is Some {
                head
            } else if has_no_slots(b) {
                Some(BountyError::ArithmeticOverflow)
            } else if self.fees_lock_error(b, amounts.1, amounts.2) is Some {
                self.fees_lock_error(b, amounts.1, amounts.2)
            } else if b.spec_is_contest_or_hackathon() && contest_env(b.multitasking->0).participants == 0
                || b.spec_is_one_bounty_for_many_claimants() && one_for_all_env(b.multitasking->0).occupied_slots == 0
                || claimer is Some && self.locked_amount < bond_of(self.claim_of(claimer->0@, id)->0.bond) {
                Some(BountyError::ArithmeticOverflow)
            } else {
                None
            }
        }
    }

    /// What completing bounty `id` with a payment to `claimer` tells and sends: the
    /// success to the reputation contract, and the bond back to the claimant.
    pub open spec fn completion_effects(&self, id: BountyIndex, claimer: Option<AccountId>) -> Seq<Effect> {
        let b = self.bounties@[id as int];
        let with_dispute = claimer is Some && self.claim_of(claimer->0@, id)->0.status == ClaimStatus::Disputed;
        let kind = if b.spec_is_different_tasks() {
            ReputationActionKind::SuccessfulBounty
        } else if b.spec_is_one_bounty_for_many_claimants() {
            ReputationActionKind::SuccessfulClaim { with_dispute }
        } else {
            ReputationActionKind::SuccessfulBountyAndClaim { with_dispute }
        };
        let bond = bond_of(self.claim_of(claimer->0@, id)->0.bond);
        self.statistic(claimer, Some(b.owner), kind) + (if claimer is Some && bond != 0 {
            seq![Effect::Transfer { receiver_id: claimer->0, amount: bond }]
        } else {
            Seq::empty()
        })
    }

    /// `other` is this contract once bounty `id` is completed with a payment to
    /// `claimer` at `now`: the claim is approved, the fees of the payment become
    /// available, the bounty moves on, and the bond is returned.
    pub open spec fn bounty_completed(&self, other: &Self, id: BountyIndex, claimer: Option<AccountId>, now: u64) -> bool {
        let b = self.bounties@[id as int];
        let amounts = payment_amounts(b);
        let c = self.claim_of(claimer->0@, id)->0;
        let k = choose|i: int| claim_index(self.claims_of(claimer->0@), id, i);
        &&& other.bounties@ == self.bounties@.update(id as int, other.bounties@[id as int])
        &&& completed_bounty(b, other.bounties@[id as int], claimer, now)
        &&& if claimer is Some {
            &&& other.claims_of(claimer->0@) == self.claims_of(claimer->0@).update(k, BountyClaim { status: ClaimStatus::Approved, ..c })
            &&& forall|a: Seq<char>| a != claimer->0@ ==> #[trigger] other.claims_of(a) == self.claims_of(a)
            &&& other.locked_amount == self.locked_amount - bond_of(c.bond)
        } else {
            &&& other.bounty_claimers == self.bounty_claimers
            &&& other.locked_amount == self.locked_amount
        }
        &&& other.fees_unlocked(self, b, amounts.1, amounts.2)
        &&& *other == (BountiesContract {
            bounties: other.bounties,
            bounty_claimers: other.bounty_claimers,
            locked_amount: other.locked_amount,
            total_fees: other.total_fees,
            total_validators_dao_fees: other.total_validators_dao_fees,
            ..*self
        })
    }

    /// Completes bounty `id` with a payment to `claimer` (none for a bounty with
    /// subtasks): the claim is approved, the fees become available, the bounty moves on
    /// and the bond is returned.
    pub(crate) fn internal_bounty_completion(&mut self, id: BountyIndex, claimer: Option<AccountId>, now: u64, effects: &mut Vec<Effect>) -> (r: Result<(), BountyError>)
        requires
            old(self).wf(),
        ensures
            final(self).wf(),
            r is Err <==> old(self).completion_error(id, claimer) is Some,
            r matches Err(e) ==> old(self).completion_error(id, claimer) == Some(e)
                && *final(self) == *old(self) && final(effects)@ == old(effects)@,
            r is Ok ==> old(self).bounty_completed(&*final(self), id, claimer, now),
            r is Ok ==> final(effects)@ == old(effects)@ + old(self).completion_effects(id, claimer),
    {
        if id >= self.last_bounty_id {
            return Err(BountyError::BountyNotFound);
        }
        let n = self.bounties.len();
        proof { assert(self.bounties@[id as int].wf()); }
        let ghost s0 = *self;
        let different = self.bounties[id as usize].is_different_tasks();
        let st = self.bounties[id as usize].status;
        let mut claim_data: Option<(Vec<BountyClaim>, usize)> = None;
        if different {
            if claimer.is_some() {
                return Err(BountyError::ClaimerNotExpected);
            }
            if st != BountyStatus::ManyClaimed {
                return Err(BountyError::BountyStatusForAction);
            }
            if !self.bounties[id as usize].multitasking.as_ref().unwrap().are_all_slots_complete(None) {
                return Err(BountyError::NotAllSlotsComplete);
            }
        } else {
            let a = match &claimer {
                Some(a) => a,
                None => { return Err(BountyError::ClaimerRequired); },
            };
            if !(st == BountyStatus::Claimed || st == BountyStatus::ManyClaimed) {
                return Err(BountyError::BountyStatusForAction);
            }
            let (claims, k) = match self.internal_get_claims(id, a) {
                Ok(x) => x,
                Err(_) => { return Err(BountyError::NoClaim); },
            };
            if !(claims[k].status == ClaimStatus::Completed || claims[k].status == ClaimStatus::Disputed) {
                return Err(BountyError::ClaimStatusForAction);
            }
            claim_data = Some((claims, k));
        }
        let no_slots = match &self.bounties[id as usize].multitasking {
            Some(Multitasking::OneForAll { number_of_slots, .. }) => *number_of_slots == 0,
            _ => false,
        };
        if no_slots {
            return Err(BountyError::ArithmeticOverflow);
        }
        let amounts = internal_get_bounty_amount_for_payment(&self.bounties[id as usize]);
        self.check_fees_locked(&self.bounties[id as usize], amounts.1, amounts.2)?;
        let underflow = match &self.bounties[id as usize].multitasking {
            Some(Multitasking::ContestOrHackathon { runtime_env: Some(env), .. }) => env.participants == 0,
            Some(Multitasking::OneForAll { runtime_env: Some(env), .. }) => env.occupied_slots == 0,
            _ => false,
        };
        let bond = match &claim_data {
            Some((claims, k)) => claims[*k].bond,
            None => None,
        };
        let bond_amount = match bond {
            Some(b) => b,
            None => super::types::DEFAULT_BOUNTY_CLAIM_BOND,
        };
        if underflow || claimer.is_some() && self.locked_amount < bond_amount {
            return Err(BountyError::ArithmeticOverflow);
        }
        let with_dispute = match &claim_data {
            Some((claims, k)) => claims[*k].status == ClaimStatus::Disputed,
            None => false,
        };
        let kind = if different {
            ReputationActionKind::SuccessfulBounty
        } else if self.bounties[id as usize].is_one_bounty_for_many_claimants() {
            ReputationActionKind::SuccessfulClaim { with_dispute }
        } else {
            ReputationActionKind::SuccessfulBountyAndClaim { with_dispute }
        };
        // the claim is approved
        let ghost s_claims = *self;
        match claim_data {
            Some((mut claims, k)) => {
                let mut c = claims[k].copy();
                c.status = ClaimStatus::Approved;
                claims.set(k, c);
                let a = claimer.as_ref().unwrap();
                proof {
                    lemma_claim_index_unique(s0.claims_of(a@), id, k as int);
                }
                self.internal_save_claims(a, claims);
            },
            None => {},
        }
        let ghost s_fees = *self;
        let token = self.bounties[id as usize].token.clone();
        let dao = fee_dao_of(&self.bounties[id as usize]);
        self.internal_total_fees_unlocking_funds(&token, &dao, amounts.1, amounts.2);
        let ghost s_unlocked = *self;
        proof {
            assert(s_fees.total_fees == s0.total_fees);
            assert(s_fees.total_validators_dao_fees == s0.total_validators_dao_fees);
            assert forall|d: Seq<char>, t: Seq<char>| #[trigger] s_fees.dao_fees(d, t) == s0.dao_fees(d, t) by {}
            assert(s_unlocked.fees_unlocked(&s0, s0.bounties@[id as int], amounts.1, amounts.2));
        }
        let owner = self.bounties[id as usize].owner.clone();
        let ghost s_before_bounty = *self;
        self.internal_complete_bounty_record(id, &claimer, now);
        self.push_statistic(effects, claimer.clone(), Some(owner), kind);
        match &claimer {
            Some(a) => { self.internal_return_bonds(a, bond, effects); },
            None => {},
        }
        proof {
            assert(self.total_fees == s_unlocked.total_fees);
            assert(self.total_validators_dao_fees == s_unlocked.total_validators_dao_fees);
            assert forall|d: Seq<char>, t: Seq<char>| #[trigger] self.dao_fees(d, t) == s_unlocked.dao_fees(d, t) by {}
            assert(self.fees_unlocked(&s0, s0.bounties@[id as int], amounts.1, amounts.2));
            assert(s_before_bounty.bounties == s0.bounties);
            assert(self.bounties@ == s0.bounties@.update(id as int, self.bounties@[id as int]));
            assert(completed_bounty(s0.bounties@[id as int], self.bounties@[id as int], claimer, now));
            let c = s0.claim_of(claimer->0@, id)->0;
            let k = choose|i: int| claim_index(s0.claims_of(claimer->0@), id, i);
            if claimer is Some {
                assert(self.claims_of(claimer->0@) == s0.claims_of(claimer->0@).update(k, BountyClaim { status: ClaimStatus::Approved, ..c }));
                assert forall|a: Seq<char>| a != claimer->0@ implies #[trigger] self.claims_of(a) == s0.claims_of(a) by {
                    assert(self.bounty_claimers == s_fees.bounty_claimers);
                    assert(s_fees.claims_of(a) == s_claims.claims_of(a));
                }
                assert(self.locked_amount == s0.locked_amount - bond_of(c.bond));
            } else {
                assert(self.bounty_claimers == s0.bounty_claimers);
                assert(self.locked_amount == s0.locked_amount);
            }
        }
        Ok(())
    }

    /// Bounty `id` moves on once paid to `claimer` at `now`.
    pub(crate) fn internal_complete_bounty_record(&mut self, id: BountyIndex, claimer: &Option<AccountId>, now: u64)
        requires
            old(self).wf(),
            id < old(self).bounties@.len(),
            !(old(self).bounties@[id as int].spec_is_contest_or_hackathon() && contest_env(old(self).bounties@[id as int].multitasking->0).participants == 0),
            !(old(self).bounties@[id as int].spec_is_one_bounty_for_many_claimants() && one_for_all_env(old(self).bounties@[id as int].multitasking->0).occupied_slots == 0),
        ensures
            final(self).wf(),
            final(self).bounties@ == old(self).bounties@.update(id as int, final(self).bounties@[id as int]),
            completed_bounty(old(self).bounties@[id as int], final(self).bounties@[id as int], *claimer, now),
            *final(self) == (BountiesContract { bounties: final(self).bounties, ..*old(self) }),
    {
        let ghost s0 = *self;
        let n = self.bounties.len();
        proof { assert(self.bounties@[id as int].wf()); }
        let mut bounty = self.take_bounty(id);
        match bounty.multitasking.take() {
            None => {
                bounty.status = BountyStatus::Completed;
            },
            Some(m) => {
                match m {
                    Multitasking::ContestOrHackathon { .. } => {
                        let p = m.get_participants();
                        let m2 = m.set_competition_participants(p - 1);
                        let m3 = m2.set_competition_timestamp(None, now);
                        let m4 = m3.set_competition_winner(claimer.clone());
                        bounty.multitasking = Some(m4);
                        bounty.status = BountyStatus::Completed;
                    },
                    Multitasking::OneForAll { number_of_slots, .. } => {
                        let (occupied, paid) = m.get_one_for_all_env();
                        let m2 = m.set_one_for_all_env(occupied - 1, paid + 1);
                        if occupied - 1 == 0 {
                            bounty.status = if paid + 1 == number_of_slots { BountyStatus::Completed } else { BountyStatus::AwaitingClaims };
                        }
                        bounty.multitasking = Some(m2);
                    },
                    Multitasking::DifferentTasks { .. } => {
                        bounty.multitasking = Some(m);
                        bounty.status = BountyStatus::Completed;
                    },
                }
            },
        }
        self.put_bounty(id, bounty);
        proof {
            assert(self.bounties@ =~= s0.bounties@.update(id as int, self.bounties@[id as int]));
            assert forall|i: int| 0 <= i < self.bounties@.len() implies (#[trigger] self.bounties@[i]).wf() by {
                if i != id { assert(self.bounties@[i] == s0.bounties@[i]); }
            }
        }
    }
}

} // verus!
