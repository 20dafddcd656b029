//! Creating bounties and collecting their fees.
use vstd::prelude::*;
use crate::accounts::{AccountId, has_account};
use super::types::{BountyIndex, ReputationActionKind, KycConfig, ContractStatus};
use super::config::Config;
use super::fees::{FeeStats, DaoFeeStats};
use super::bounty::{Bounty, BountyCreate, Postpaid};
use super::errors::BountyError;
use super::effects::{CallContext, Effect};
use super::contract::{BountiesContract, token_details};
use super::types::Reviewers;

verus! {

/// The message that comes with a token transfer.
#[derive(Clone, Debug, PartialEq, Eq)]
pub enum FtMessage {
    BountyCreate(BountyCreate),
}

/// The entries of `tags` all occur in `allowed`.
pub open spec fn all_known(tags: Seq<String>, allowed: Seq<String>) -> bool {
    forall|i: int| 0 <= i < tags.len() ==> exists|j: int| 0 <= j < allowed.len() && (#[trigger] allowed[j])@ == (#[trigger] tags[i])@
}

pub open spec fn known(s: Seq<String>, e: Seq<char>) -> bool {
    exists|j: int| 0 <= j < s.len() && (#[trigger] s[j])@ == e
}

fn contains_string(list: &Vec<String>, e: &String) -> (r: bool)
    ensures
        r == known(list@, e@),
{
    let mut i: usize = 0;
    while i < list.len()
        invariant
            i <= list@.len(),
            forall|j: int| 0 <= j < i ==> (#[trigger] list@[j])@ != e@,
        decreases list@.len() - i,
    {
        if list[i] == *e {
            return true;
        }
        i = i + 1;
    }
    false
}

/// The position in `stats` of the DAO fees in token `token`.
pub open spec fn dao_stats_index(stats: Seq<DaoFeeStats>, token: Seq<char>, i: int) -> bool {
    &&& 0 <= i < stats.len()
    &&& stats[i].token_id@ == token
    &&& forall|j: int| 0 <= j < i ==> (#[trigger] stats[j]).token_id@ != token
}

pub open spec fn has_dao_stats(stats: Seq<DaoFeeStats>, token: Seq<char>) -> bool {
    exists|i: int| 0 <= i < stats.len() && (#[trigger] stats[i]).token_id@ == token
}

/// The DAO fee accounting of `stats` in token `token` (nothing received if none).
pub open spec fn dao_stats_of(stats: Seq<DaoFeeStats>, token: Seq<char>) -> FeeStats {
    if has_dao_stats(stats, token) {
        stats[choose|i: int| dao_stats_index(stats, token, i)].fee_stats
    } else {
        FeeStats::new_spec()
    }
}

pub proof fn lemma_dao_stats_of(stats: Seq<DaoFeeStats>, token: Seq<char>, i: int)
    requires
        dao_stats_index(stats, token, i),
    ensures
        dao_stats_of(stats, token) == stats[i].fee_stats,
{
    let k = choose|k: int| dao_stats_index(stats, token, k);
    assert(k == i) by {
        if k < i { assert(stats[k].token_id@ != token); }
        if i < k { assert(stats[i].token_id@ != token); }
    }
}

/// Where some accounting is in token `token`, one of them is the first.
pub proof fn lemma_first_dao_stats(stats: Seq<DaoFeeStats>, token: Seq<char>) -> (i: int)
    requires
        has_dao_stats(stats, token),
    ensures
        dao_stats_index(stats, token, i),
    decreases stats.len(),
{
    let k = choose|k: int| 0 <= k < stats.len() && (#[trigger] stats[k]).token_id@ == token;
    if stats[0].token_id@ == token {
        0
    } else {
        let rest = stats.subrange(1, stats.len() as int);
        assert(rest[k - 1] == stats[k]);
        let j = lemma_first_dao_stats(rest, token);
        assert forall|t: int| 0 <= t < j + 1 implies (#[trigger] stats[t]).token_id@ != token by {
            if t > 0 {
                assert(stats[t] == rest[t - 1]);
            }
        }
        assert(stats[j + 1] == rest[j]);
        j + 1
    }
}

pub fn find_dao_stats(stats: &Vec<DaoFeeStats>, token: &AccountId) -> (r: Option<usize>)
    ensures
        r matches Some(i) ==> dao_stats_index(stats@, token@, i as int),
        r is None <==> !has_dao_stats(stats@, token@),
{
    let mut i: usize = 0;
    while i < stats.len()
        invariant
            i <= stats@.len(),
            forall|j: int| 0 <= j < i ==> (#[trigger] stats@[j]).token_id@ != token@,
        decreases stats@.len() - i,
    {
        if stats[i].token_id == *token {
            return Some(i);
        }
        i = i + 1;
    }
    None
}

pub fn copy_dao_stats(stats: &Vec<DaoFeeStats>) -> (r: Vec<DaoFeeStats>)
    ensures
        r@ == stats@,
{
    let mut r: Vec<DaoFeeStats> = Vec::new();
    let mut i: usize = 0;
    while i < stats.len()
        invariant
            i <= stats@.len(),
            r@ == stats@.subrange(0, i as int),
        decreases stats@.len() - i,
    {
        let s = &stats[i];
        r.push(DaoFeeStats { token_id: s.token_id.clone(), fee_stats: s.fee_stats });
        i = i + 1;
        proof { assert(r@ =~= stats@.subrange(0, i as int)); }
    }
    proof { assert(r@ =~= stats@); }
    r
}

pub fn copy_ids(ids: &Vec<BountyIndex>) -> (r: Vec<BountyIndex>)
    ensures
        r@ == ids@,
{
    let mut r: Vec<BountyIndex> = Vec::new();
    let mut i: usize = 0;
    while i < ids.len()
        invariant
            i <= ids@.len(),
            r@ == ids@.subrange(0, i as int),
        decreases ids@.len() - i,
    {
        r.push(ids[i]);
        i = i + 1;
        proof { assert(r@ =~= ids@.subrange(0, i as int)); }
    }
    proof { assert(r@ =~= ids@); }
    r
}

/// The validators DAO of a bounty in a token, if fees go to one.
pub open spec fn fee_dao(bounty: Bounty) -> Option<AccountId> {
    match (bounty.reviewers, bounty.token) {
        (Some(Reviewers::ValidatorsDao { validators_dao }), Some(_)) => Some(validators_dao.account_id),
        _ => None,
    }
}

impl BountiesContract {
    /// The DAO fee accounting of `dao` in token `token`.
    pub open spec fn dao_fees(&self, dao: Seq<char>, token: Seq<char>) -> FeeStats {
        if self.total_validators_dao_fees@.contains_key(dao) {
            dao_stats_of(self.total_validators_dao_fees@[dao]@, token)
        } else {
            FeeStats::new_spec()
        }
    }

    /// The record for the reputation contract, if one is used.
    pub open spec fn statistic(
        &self,
        claimer: Option<AccountId>,
        bounty_owner: Option<AccountId>,
        action_kind: ReputationActionKind,
    ) -> Seq<Effect> {
        match self.reputation_contract {
            Some(r) => seq![Effect::Statistic { reputation_contract: r, claimer, bounty_owner, action_kind }],
            None => Seq::empty(),
        }
    }

    pub(crate) fn push_statistic(
        &self,
        effects: &mut Vec<Effect>,
        claimer: Option<AccountId>,
        bounty_owner: Option<AccountId>,
        action_kind: ReputationActionKind,
    )
        ensures
            final(effects)@ == old(effects)@ + self.statistic(claimer, bounty_owner, action_kind),
    {
        match &self.reputation_contract {
            Some(r) => {
                effects.push(Effect::Statistic {
                    reputation_contract: r.clone(),
                    claimer,
                    bounty_owner,
                    action_kind,
                });
                proof { assert(final(effects)@ =~= old(effects)@ + self.statistic(claimer, bounty_owner, action_kind)); }
            },
            None => {
                proof { assert(final(effects)@ =~= old(effects)@ + self.statistic(claimer, bounty_owner, action_kind)); }
            },
        }
    }

    /// The first rule that a new or changed bounty breaks, here or in the settings of
    /// the contract: its category, tags and currency must be known, and KYC needs
    /// the KYC whitelist contract.
    pub open spec fn bounty_check_error(&self, bounty: Bounty, now: u64) -> Option<BountyError> {
        if bounty.validation_error(now) is Some {
            bounty.validation_error(now)
        } else if !known(self.config.categories@, bounty.metadata.category@) {
            Some(BountyError::InvalidCategory)
        } else if bounty.metadata.tags matches Some(t) && !all_known(t@, self.config.tags@) {
            Some(BountyError::InvalidTag)
        } else if bounty.postpaid matches Some(p) && !known(self.config.currencies@, p->PaymentOutsideContract_currency@) {
            Some(BountyError::InvalidCurrency)
        } else if bounty.kyc_config is KycRequired && self.kyc_whitelist_contract is None {
            Some(BountyError::KycContractNotSet)
        } else {
            None
        }
    }

    /// Checks a new or changed bounty; refused with the first rule it breaks.
    pub fn check_bounty(&self, bounty: &Bounty, now: u64) -> (r: Result<(), BountyError>)
        requires
            bounty.wf(),
        ensures
            r is Err <==> self.bounty_check_error(*bounty, now) is Some,
            r matches Err(e) ==> self.bounty_check_error(*bounty, now) == Some(e),
    {
        bounty.assert_valid(now)?;
        if !contains_string(&self.config.categories, &bounty.metadata.category) {
            return Err(BountyError::InvalidCategory);
        }
        match &bounty.metadata.tags {
            Some(tags) => {
                let mut i: usize = 0;
                while i < tags.len()
                    invariant
                        i <= tags@.len(),
                        all_known(tags@.subrange(0, i as int), self.config.tags@),
                        bounty.validation_error(now) is None,
                        known(self.config.categories@, bounty.metadata.category@),
                        bounty.metadata.tags == Some(*tags),
                    decreases tags@.len() - i,
                {
                    if !contains_string(&self.config.tags, &tags[i]) {
                        proof {
                            if all_known(tags@, self.config.tags@) {
                                assert(exists|j: int| 0 <= j < self.config.tags@.len() && (#[trigger] self.config.tags@[j])@ == tags@[i as int]@);
                            }
                        }
                        return Err(BountyError::InvalidTag);
                    }
                    proof {
                        assert forall|k: int| 0 <= k < i + 1 implies exists|j: int| 0 <= j < self.config.tags@.len() && (#[trigger] self.config.tags@[j])@ == (#[trigger] tags@.subrange(0, i + 1)[k])@ by {
                            if k < i {
                                assert(tags@.subrange(0, i + 1)[k] == tags@.subrange(0, i as int)[k]);
                            } else {
                                assert(tags@.subrange(0, i + 1)[k] == tags@[i as int]);
                            }
                        }
                    }
                    i = i + 1;
                }
                proof { assert(tags@.subrange(0, tags@.len() as int) =~= tags@); }
            },
            None => {},
        }
        match &bounty.postpaid {
            Some(Postpaid::PaymentOutsideContract { currency, .. }) => {
                if !contains_string(&self.config.currencies, currency) {
                    return Err(BountyError::InvalidCurrency);
                }
            },
            Some(Postpaid::PaymentOutsideContractV1 { .. }) => {
                proof { assert(false); }
            },
            None => {},
        }
        match bounty.kyc_config {
            KycConfig::KycRequired { .. } => {
                if self.kyc_whitelist_contract.is_none() {
                    return Err(BountyError::KycContractNotSet);
                }
            },
            _ => {},
        }
        Ok(())
    }

    /// The fees of `bounty` can be recorded: its token has a platform fee account, and
    /// no count overflows.
    pub open spec fn can_receive_fees(&self, bounty: Bounty, platform_fee: u128, dao_fee: u128) -> bool {
        &&& (bounty.token matches Some(t) ==> self.total_fees@.contains_key(t@) && self.total_fees@[t@].can_receive(platform_fee))
        &&& (fee_dao(bounty) matches Some(d) ==> self.dao_fees(d@, bounty.token->0@).can_receive(dao_fee))
    }

    pub(crate) fn check_can_receive_fees(&self, bounty: &Bounty, platform_fee: u128, dao_fee: u128) -> (r: bool)
        ensures
            r == self.can_receive_fees(*bounty, platform_fee, dao_fee),
    {
        match &bounty.token {
            Some(t) => match self.total_fees.get(t.as_str()) {
                Some(f) => {
                    if f.amount_received > u128::MAX - platform_fee {
                        return false;
                    }
                },
                None => { return false; },
            },
            None => {},
        }
        match (&bounty.reviewers, &bounty.token) {
            (Some(Reviewers::ValidatorsDao { validators_dao }), Some(t)) => {
                match self.total_validators_dao_fees.get(validators_dao.account_id.as_str()) {
                    Some(stats) => match find_dao_stats(stats, t) {
                        Some(i) => {
                            proof { lemma_dao_stats_of(stats@, t@, i as int); }
                            stats[i].fee_stats.amount_received <= u128::MAX - dao_fee
                        },
                        None => true,
                    },
                    None => true,
                }
            },
            _ => true,
        }
    }

    /// `self` records the fees of `bounty` as received and locked, on top of `old`.
    pub open spec fn fees_received(&self, old: &Self, bounty: Bounty) -> bool {
        &&& self.total_fees@ == match bounty.token {
            Some(t) => old.total_fees@.insert(t@, FeeStats {
                balance: (old.total_fees@[t@].balance + bounty.platform_fee) as u128,
                locked_balance: (old.total_fees@[t@].locked_balance + bounty.platform_fee) as u128,
                amount_received: (old.total_fees@[t@].amount_received + bounty.platform_fee) as u128,
                ..old.total_fees@[t@]
            }),
            None => old.total_fees@,
        }
        &&& fee_dao(bounty) matches Some(d) ==> self.dao_fees(d@, bounty.token->0@) == (FeeStats {
            balance: (old.dao_fees(d@, bounty.token->0@).balance + bounty.dao_fee) as u128,
            locked_balance: (old.dao_fees(d@, bounty.token->0@).locked_balance + bounty.dao_fee) as u128,
            amount_received: (old.dao_fees(d@, bounty.token->0@).amount_received + bounty.dao_fee) as u128,
            ..old.dao_fees(d@, bounty.token->0@)
        })
        &&& fee_dao(bounty) is None ==> self.total_validators_dao_fees@ == old.total_validators_dao_fees@
    }

    /// Records the fees of a new bounty as received and locked.
    pub fn internal_total_fees_receiving_funds(&mut self, bounty: &Bounty, platform_fee: u128, dao_fee: u128)
        requires
            old(self).wf(),
            old(self).can_receive_fees(*bounty, platform_fee, dao_fee),
        ensures
            final(self).wf(),
            *final(self) == (BountiesContract {
                total_fees: final(self).total_fees,
                total_validators_dao_fees: final(self).total_validators_dao_fees,
                ..*old(self)
            }),
            final(self).total_fees@ == match bounty.token {
                Some(t) => old(self).total_fees@.insert(t@, FeeStats {
                    balance: (old(self).total_fees@[t@].balance + platform_fee) as u128,
                    locked_balance: (old(self).total_fees@[t@].locked_balance + platform_fee) as u128,
                    amount_received: (old(self).total_fees@[t@].amount_received + platform_fee) as u128,
                    ..old(self).total_fees@[t@]
                }),
                None => old(self).total_fees@,
            },
            fee_dao(*bounty) matches Some(d) ==> final(self).dao_fees(d@, bounty.token->0@) == (FeeStats {
                balance: (old(self).dao_fees(d@, bounty.token->0@).balance + dao_fee) as u128,
                locked_balance: (old(self).dao_fees(d@, bounty.token->0@).locked_balance + dao_fee) as u128,
                amount_received: (old(self).dao_fees(d@, bounty.token->0@).amount_received + dao_fee) as u128,
                ..old(self).dao_fees(d@, bounty.token->0@)
            }),
            fee_dao(*bounty) is None ==> final(self).total_validators_dao_fees@ == old(self).total_validators_dao_fees@,
    {
        match &bounty.token {
            Some(t) => {
                let mut f = *self.total_fees.get(t.as_str()).unwrap();
                f.receiving_commission(platform_fee);
                self.total_fees.insert(t.clone(), f);
            },
            None => {},
        }
        match (&bounty.reviewers, &bounty.token) {
            (Some(Reviewers::ValidatorsDao { validators_dao }), Some(t)) => {
                let dao = &validators_dao.account_id;
                let mut stats = match self.total_validators_dao_fees.get(dao.as_str()) {
                    Some(s) => copy_dao_stats(s),
                    None => Vec::new(),
                };
                let ghost old_stats = stats@;
                let idx = match find_dao_stats(&stats, t) {
                    Some(i) => {
                        proof { lemma_dao_stats_of(stats@, t@, i as int); }
                        i
                    },
                    None => {
                        stats.push(DaoFeeStats::new(t.clone()));
                        let n = stats.len() - 1;
                        proof {
                            assert forall|j: int| 0 <= j < n implies (#[trigger] stats@[j]).token_id@ != t@ by {
                                assert(stats@[j] == old_stats[j]);
                            }
                        }
                        n
                    },
                };
                let mut fs = stats[idx].fee_stats;
                fs.receiving_commission(dao_fee);
                let entry = DaoFeeStats { token_id: stats[idx].token_id.clone(), fee_stats: fs };
                let ghost before = stats@;
                stats.set(idx, entry);
                proof {
                    assert forall|j: int| 0 <= j < idx implies (#[trigger] stats@[j]).token_id@ != t@ by {
                        assert(stats@[j] == before[j]);
                    }
                    lemma_dao_stats_of(stats@, t@, idx as int);
                    assert forall|k: int| 0 <= k < stats@.len() implies (#[trigger] stats@[k]).fee_stats.wf() by {
                        if k != idx {
                            assert(stats@[k] == before[k]);
                            if k < old_stats.len() {
                                assert(before[k] == old_stats[k]);
                            }
                        }
                    }
                }
                self.total_validators_dao_fees.insert(dao.clone(), stats);
            },
            _ => {},
        }
    }

    /// Stores a new bounty under the next id and records its fees.
    pub(crate) fn internal_add_bounty(&mut self, bounty: Bounty, effects: &mut Vec<Effect>) -> (id: BountyIndex)
        requires
            old(self).wf(),
            bounty.wf(),
            old(self).can_receive_fees(bounty, bounty.platform_fee, bounty.dao_fee),
            old(self).last_bounty_id < u64::MAX,
        ensures
            final(self).wf(),
            id == old(self).last_bounty_id,
            old(self).added_bounty(&*final(self), bounty),
            final(self).fees_received(&*old(self), bounty),
            final(effects)@ == old(effects)@ + old(self).statistic(None, Some(bounty.owner), ReputationActionKind::BountyCreated),
    {
        let id = self.last_bounty_id;
        let owner = bounty.owner.clone();
        let mut indices = match self.account_bounties.get(owner.as_str()) {
            Some(v) => copy_ids(v),
            None => Vec::new(),
        };
        indices.push(id);
        self.internal_total_fees_receiving_funds(&bounty, bounty.platform_fee, bounty.dao_fee);
        self.account_bounties.insert(owner.clone(), indices);
        self.bounties.push(bounty);
        self.bounty_claimer_accounts.push(Vec::new());
        self.last_bounty_id = self.last_bounty_id + 1;
        self.push_statistic(effects, None, Some(owner), ReputationActionKind::BountyCreated);
        id
    }

    /// The ids of the bounties of `owner`.
    pub open spec fn bounty_ids_of(&self, owner: Seq<char>) -> Seq<BountyIndex> {
        if self.account_bounties@.contains_key(owner) {
            self.account_bounties@[owner]@
        } else {
            Seq::empty()
        }
    }

    /// A new bounty of this contract at time `now` passes the checks on bounties and
    /// its fees can be recorded.
    pub open spec fn accepts_bounty(&self, bounty: Bounty, now: u64) -> bool {
        &&& self.bounty_check_error(bounty, now) is None
        &&& self.can_receive_fees(bounty, bounty.platform_fee, bounty.dao_fee)
        &&& self.last_bounty_id < u64::MAX
    }

    /// The state after storing `bounty` under the next id.
    pub open spec fn added_bounty(&self, other: &Self, bounty: Bounty) -> bool {
        &&& other.bounties@ == self.bounties@.push(bounty)
        &&& other.last_bounty_id == self.last_bounty_id + 1
        &&& other.bounty_claimer_accounts@.len() == self.bounty_claimer_accounts@.len() + 1
        &&& forall|i: int| 0 <= i < self.bounty_claimer_accounts@.len()
            ==> (#[trigger] other.bounty_claimer_accounts@[i]) == self.bounty_claimer_accounts@[i]
        &&& other.bounty_claimer_accounts@.last()@.len() == 0
        &&& other.bounty_ids_of(bounty.owner@) == self.bounty_ids_of(bounty.owner@).push(self.last_bounty_id)
        &&& forall|a: Seq<char>| a != bounty.owner@ ==> #[trigger] other.bounty_ids_of(a) == self.bounty_ids_of(a)
        &&& other.tokens == self.tokens
        &&& other.bounty_claimers == self.bounty_claimers
        &&& other.locked_amount == self.locked_amount
        &&& other.unlocked_amount == self.unlocked_amount
        &&& other.admins_whitelist == self.admins_whitelist
        &&& other.config == self.config
        &&& other.reputation_contract == self.reputation_contract
        &&& other.dispute_contract == self.dispute_contract
        &&& other.kyc_whitelist_contract == self.kyc_whitelist_contract
        &&& other.owners_whitelist == self.owners_whitelist
        &&& other.recipient_of_platform_fee == self.recipient_of_platform_fee
        &&& other.status == self.status
    }

    /// Makes a bounty of `bounty_create` for `payer_id`, paid with `amount` in
    /// `token_id`, checks it and stores it with its fees.
    pub(crate) fn internal_create_bounty(
        &mut self,
        bounty_create: BountyCreate,
        payer_id: &AccountId,
        token_id: Option<AccountId>,
        amount: u128,
        now: u64,
        effects: &mut Vec<Effect>,
    ) -> (r: Result<BountyIndex, BountyError>)
        requires
            old(self).wf(),
        ensures
            final(self).wf(),
            r is Err ==> *final(self) == *old(self) && final(effects)@ == old(effects)@,
            r is Err ==> !bounty_create.can_make_bounty(amount, old(self).config) || exists|b: Bounty|
                bounty_create.made_bounty(b, *payer_id, token_id, amount, old(self).config, now)
                && b.wf() && !old(self).accepts_bounty(b, now),
            r matches Err(e) ==> bounty_create.can_make_bounty(amount, old(self).config) ==> exists|b: Bounty|
                bounty_create.made_bounty(b, *payer_id, token_id, amount, old(self).config, now)
                && b.wf() && (old(self).bounty_check_error(b, now) == Some(e)
                || old(self).bounty_check_error(b, now) is None && e == BountyError::ArithmeticOverflow),
            (bounty_create.can_make_bounty(amount, old(self).config) && forall|b: Bounty|
                bounty_create.made_bounty(b, *payer_id, token_id, amount, old(self).config, now)
                && b.wf() ==> #[trigger] old(self).accepts_bounty(b, now)) ==> r is Ok,
            r matches Ok(id) ==> {
                let b = final(self).bounties@[id as int];
                &&& id == old(self).last_bounty_id
                &&& bounty_create.made_bounty(b, *payer_id, token_id, amount, old(self).config, now)
                &&& old(self).accepts_bounty(b, now)
                &&& old(self).added_bounty(&*final(self), b)
                &&& final(self).fees_received(&*old(self), b)
                &&& final(effects)@ == old(effects)@ + old(self).statistic(None, Some(b.owner), ReputationActionKind::BountyCreated)
            },
    {
        bounty_create.check_can_make_bounty(amount, &self.config)?;
        let bounty = bounty_create.to_bounty(payer_id, token_id, amount, &self.config, now);
        proof { if self.accepts_bounty(bounty, now) {} }
        self.check_bounty(&bounty, now)?;
        if !self.check_can_receive_fees(&bounty, bounty.platform_fee, bounty.dao_fee) || self.last_bounty_id == u64::MAX {
            return Err(BountyError::ArithmeticOverflow);
        }
        let id = self.internal_add_bounty(bounty, effects);
        Ok(id)
    }

    /// The owner of a token sends `amount` to create a bounty described by `msg`; the
    /// call comes from the token contract.
    pub fn ft_on_transfer(
        &mut self,
        ctx: &CallContext,
        sender_id: AccountId,
        amount: u128,
        msg: FtMessage,
    ) -> (r: Result<Vec<Effect>, BountyError>)
        requires
            old(self).wf(),
        ensures
            final(self).wf(),
            r is Err ==> *final(self) == *old(self),
            r matches Err(e) ==> old(self).creation_call_error(ctx.predecessor, sender_id, msg) matches Some(e2) ==> e == e2,
            old(self).creation_call_error(ctx.predecessor, sender_id, msg) is Some ==> r is Err,
            r matches Ok(effects) ==> {
                let b = final(self).bounties@[old(self).last_bounty_id as int];
                &&& old(self).creation_call_error(ctx.predecessor, sender_id, msg) is None
                &&& msg->BountyCreate_0.made_bounty(b, sender_id, Some(ctx.predecessor), amount, old(self).config, ctx.block_timestamp)
                &&& old(self).accepts_bounty(b, ctx.block_timestamp)
                &&& old(self).added_bounty(&*final(self), b)
                &&& final(self).fees_received(&*old(self), b)
                &&& effects@ == old(self).statistic(None, Some(b.owner), ReputationActionKind::BountyCreated)
            },
            (old(self).creation_call_error(ctx.predecessor, sender_id, msg) is None
                && msg->BountyCreate_0.can_make_bounty(amount, old(self).config)
                && forall|b: Bounty| msg->BountyCreate_0.made_bounty(b, sender_id, Some(ctx.predecessor), amount, old(self).config, ctx.block_timestamp)
                && b.wf() ==> #[trigger] old(self).accepts_bounty(b, ctx.block_timestamp)) ==> r is Ok,
    {
        self.assert_live()?;
        self.assert_that_token_is_allowed(&ctx.predecessor)?;
        if self.config.use_owners_whitelist && !self.is_owner_whitelisted(&sender_id) {
            return Err(BountyError::NotAllowedToCreateBounties);
        }
        let FtMessage::BountyCreate(bounty_create) = msg;
        if bounty_create.postpaid.is_some() {
            return Err(BountyError::IncorrectPostpaid);
        }
        let mut effects: Vec<Effect> = Vec::new();
        self.internal_create_bounty(bounty_create, &sender_id, Some(ctx.predecessor.clone()), amount, ctx.block_timestamp, &mut effects)?;
        Ok(effects)
    }

    /// The first reason why a token transfer from `token_id` by `sender_id` cannot
    /// create the bounty of `msg`, before the bounty itself is checked.
    pub open spec fn creation_call_error(&self, token_id: AccountId, sender_id: AccountId, msg: FtMessage) -> Option<BountyError> {
        if self.status != ContractStatus::Live {
            Some(BountyError::NotLive)
        } else if token_details(self.tokens@, token_id@) is None {
            Some(BountyError::TokenNotAllowed)
        } else if !token_details(self.tokens@, token_id@)->0.enabled {
            Some(BountyError::TokenDisabled)
        } else if self.config.use_owners_whitelist && !has_account(self.owners_whitelist@, sender_id@) {
            Some(BountyError::NotAllowedToCreateBounties)
        } else if msg->BountyCreate_0.postpaid is Some {
            Some(BountyError::IncorrectPostpaid)
        } else {
            None
        }
    }

    /// The first reason why a whitelisted owner cannot create a bounty paid outside
    /// the contract, before the bounty itself is checked.
    pub open spec fn postpaid_call_error(&self, ctx: CallContext, bounty_create: BountyCreate, token_id: Option<AccountId>) -> Option<BountyError> {
        if self.status != ContractStatus::Live {
            Some(BountyError::NotLive)
        } else if ctx.attached_deposit != 1 {
            Some(BountyError::OneYoctoRequired)
        } else if bounty_create.postpaid is None {
            Some(BountyError::IncorrectPostpaid)
        } else if !has_account(self.owners_whitelist@, ctx.predecessor@) {
            Some(BountyError::NotAllowedToCreatePostpaid)
        } else if token_id matches Some(t) && token_details(self.tokens@, t@) is None {
            Some(BountyError::TokenNotAllowed)
        } else if token_id matches Some(t) && !token_details(self.tokens@, t@)->0.enabled {
            Some(BountyError::TokenDisabled)
        } else {
            None
        }
    }

    /// A whitelisted owner creates a bounty that is paid outside the contract.
    pub fn bounty_create(
        &mut self,
        ctx: &CallContext,
        bounty_create: BountyCreate,
        token_id: Option<AccountId>,
        amount: u128,
    ) -> (r: Result<Vec<Effect>, BountyError>)
        requires
            old(self).wf(),
        ensures
            final(self).wf(),
            r is Err ==> *final(self) == *old(self),
            r matches Err(e) ==> old(self).postpaid_call_error(*ctx, bounty_create, token_id) matches Some(e2) ==> e == e2,
            old(self).postpaid_call_error(*ctx, bounty_create, token_id) is Some ==> r is Err,
            r matches Ok(effects) ==> {
                let b = final(self).bounties@[old(self).last_bounty_id as int];
                &&& old(self).postpaid_call_error(*ctx, bounty_create, token_id) is None
                &&& bounty_create.made_bounty(b, ctx.predecessor, token_id, amount, old(self).config, ctx.block_timestamp)
                &&& old(self).accepts_bounty(b, ctx.block_timestamp)
                &&& old(self).added_bounty(&*final(self), b)
                &&& final(self).fees_received(&*old(self), b)
                &&& effects@ == old(self).statistic(None, Some(b.owner), ReputationActionKind::BountyCreated)
            },
            (old(self).postpaid_call_error(*ctx, bounty_create, token_id) is None
                && bounty_create.can_make_bounty(amount, old(self).config)
                && forall|b: Bounty| bounty_create.made_bounty(b, ctx.predecessor, token_id, amount, old(self).config, ctx.block_timestamp)
                && b.wf() ==> #[trigger] old(self).accepts_bounty(b, ctx.block_timestamp)) ==> r is Ok,
    {
        self.assert_live()?;
        if ctx.attached_deposit != 1 {
            return Err(BountyError::OneYoctoRequired);
        }
        if bounty_create.postpaid.is_none() {
            return Err(BountyError::IncorrectPostpaid);
        }
        if !self.is_owner_whitelisted(&ctx.predecessor) {
            return Err(BountyError::NotAllowedToCreatePostpaid);
        }
        match &token_id {
            Some(t) => { self.assert_that_token_is_allowed(t)?; },
            None => {},
        }
        let mut effects: Vec<Effect> = Vec::new();
        self.internal_create_bounty(bounty_create, &ctx.predecessor, token_id, amount, ctx.block_timestamp, &mut effects)?;
        Ok(effects)
    }
}

} // verus!
