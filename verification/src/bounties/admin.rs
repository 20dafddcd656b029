//! Tokens, settings and views of the bounties contract.
use vstd::prelude::*;
use crate::accounts::{AccountId, contains_account, has_account};
use super::types::{BountyIndex, ContractStatus, TokenDetails, ReferenceType};
use super::config::{Config, ConfigCreate};
use super::fees::{FeeStats, DaoFeeStats};
use super::bounty::Bounty;
use super::claim::BountyClaim;
use super::errors::BountyError;
use super::effects::{CallContext, Effect, Callback};
use super::contract::{BountiesContract, token_index, has_token, token_details};
use super::claims::{find_claim, lemma_claim_in};

verus! {

/// The dictionary of the configuration that `dict` names.
pub open spec fn dictionary(config: Config, dict: ReferenceType) -> Seq<String> {
    match dict {
        ReferenceType::Categories => config.categories@,
        ReferenceType::Tags => config.tags@,
        ReferenceType::Currencies => config.currencies@,
    }
}

/// `s` without the first entry equal to `e`.
pub open spec fn remove_first(s: Seq<String>, e: Seq<char>) -> Seq<String> {
    if exists|i: int| 0 <= i < s.len() && (#[trigger] s[i])@ == e {
        let i = choose|i: int| 0 <= i < s.len() && s[i]@ == e && forall|j: int| 0 <= j < i ==> (#[trigger] s[j])@ != e;
        s.remove(i)
    } else {
        s
    }
}

/// `s` after removing each entry of `list` in turn.
pub open spec fn remove_all_entries(s: Seq<String>, list: Seq<String>) -> Seq<String>
    decreases list.len(),
{
    if list.len() == 0 {
        s
    } else {
        remove_first(remove_all_entries(s, list.drop_last()), list.last()@)
    }
}

pub open spec fn requested_entries(entry: Option<String>, entries: Option<Vec<String>>) -> Option<Seq<String>> {
    match entries {
        Some(v) => Some(v@),
        None => match entry {
            Some(e) => Some(seq![e]),
            None => None,
        },
    }
}

fn remove_first_entry(list: &mut Vec<String>, e: &String)
    ensures
        final(list)@ == remove_first(old(list)@, e@),
{
    let mut i: usize = 0;
    while i < list.len()
        invariant
            i <= list@.len(),
            *list == *old(list),
            forall|j: int| 0 <= j < i ==> (#[trigger] list@[j])@ != e@,
        decreases list@.len() - i,
    {
        if list[i] == *e {
            proof {
                let k = choose|k: int| 0 <= k < list@.len() && list@[k]@ == e@ && forall|j: int| 0 <= j < k ==> (#[trigger] list@[j])@ != e@;
                assert(k == i as int) by {
                    if k < i { assert(list@[k]@ != e@); }
                    if i < k { assert(list@[i as int]@ != e@); }
                }
            }
            list.remove(i);
            return;
        }
        i = i + 1;
    }
}

impl BountiesContract {
    pub(crate) fn find_token(&self, token_id: &AccountId) -> (r: Option<usize>)
        ensures
            r matches Some(i) ==> token_index(self.tokens@, token_id@, i as int),
            r is None <==> !has_token(self.tokens@, token_id@),
    {
        let mut i: usize = 0;
        while i < self.tokens.len()
            invariant
                i <= self.tokens@.len(),
                forall|j: int| 0 <= j < i ==> (#[trigger] self.tokens@[j]).0@ != token_id@,
            decreases self.tokens@.len() - i,
        {
            if self.tokens[i].0 == *token_id {
                return Some(i);
            }
            i = i + 1;
        }
        None
    }

    pub proof fn lemma_token_details(tokens: Seq<(AccountId, TokenDetails)>, t: Seq<char>, i: int)
        requires
            token_index(tokens, t, i),
        ensures
            token_details(tokens, t) == Some(tokens[i].1),
    {
        let k = choose|k: int| token_index(tokens, t, k);
        assert(k == i) by {
            if k < i { assert(tokens[k].0@ != t); }
            if i < k { assert(tokens[i].0@ != t); }
        }
    }

    /// An admin asks to allow a new token; the token is added once its metadata is
    /// read (see `after_get_ft_metadata`).
    pub fn add_token_id(&mut self, ctx: &CallContext, token_id: AccountId, min_amount_for_kyc: Option<u128>) -> (r: Result<Vec<Effect>, BountyError>)
        ensures
            *final(self) == *old(self),
            r is Err <==> old(self).admin_call_error(*ctx) is Some || has_token(old(self).tokens@, token_id@),
            r matches Err(e) ==> e == (match old(self).admin_call_error(*ctx) {
                Some(e) => e,
                None => BountyError::TokenExists,
            }),
            r matches Ok(effects) ==> effects@ == seq![Effect::FtMetadata {
                token_id,
                then: Callback::AfterGetFtMetadata { token_id, min_amount_for_kyc },
            }],
    {
        self.check_admin_call(ctx)?;
        if self.find_token(&token_id).is_some() {
            return Err(BountyError::TokenExists);
        }
        let mut effects: Vec<Effect> = Vec::new();
        effects.push(Effect::FtMetadata {
            token_id: token_id.clone(),
            then: Callback::AfterGetFtMetadata { token_id, min_amount_for_kyc },
        });
        proof { assert(effects@ =~= seq![effects@[0]]); }
        Ok(effects)
    }

    /// After the metadata of a token was read: the token is allowed with fresh fee
    /// accounting. Nothing changes if the read failed.
    pub fn after_get_ft_metadata(&mut self, success: bool, token_id: AccountId, min_amount_for_kyc: Option<u128>) -> (r: bool)
        requires
            old(self).wf(),
        ensures
            r == success,
            final(self).wf(),
            !success ==> *final(self) == *old(self),
            success ==> final(self).total_fees@ == old(self).total_fees@.insert(token_id@, FeeStats::new_spec()),
            success ==> token_details(final(self).tokens@, token_id@) == Some(TokenDetails { enabled: true, min_amount_for_kyc }),
            success ==> *final(self) == (BountiesContract {
                tokens: final(self).tokens,
                total_fees: final(self).total_fees,
                ..*old(self)
            }),
    {
        if !success {
            return false;
        }
        self.total_fees.insert(token_id.clone(), FeeStats::new());
        let details = TokenDetails { enabled: true, min_amount_for_kyc };
        match self.find_token(&token_id) {
            Some(i) => {
                self.tokens.set(i, (token_id, details));
                proof { Self::lemma_token_details(self.tokens@, token_id@, i as int); }
            },
            None => {
                let ghost old_tokens = self.tokens@;
                let ghost tid = token_id@;
                self.tokens.push((token_id, details));
                assert(self.tokens@[old_tokens.len() as int].0@ == tid);
                proof {
                    let n = old_tokens.len() as int;
                    assert forall|j: int| 0 <= j < n implies (#[trigger] self.tokens@[j]).0@ != token_id@ by {
                        assert(self.tokens@[j] == old_tokens[j]);
                    }
                    Self::lemma_token_details(self.tokens@, token_id@, n);
                }
            },
        }
        true
    }

    /// An admin changes the details of a known token.
    pub fn update_token(&mut self, ctx: &CallContext, token_id: AccountId, token_details: TokenDetails) -> (r: Result<(), BountyError>)
        ensures
            r is Err <==> old(self).admin_call_error(*ctx) is Some || !has_token(old(self).tokens@, token_id@),
            r matches Err(e) ==> e == (match old(self).admin_call_error(*ctx) { Some(a) => a, None => BountyError::TokenNotFound }),
            r is Err ==> *final(self) == *old(self),
            r is Ok ==> super::contract::token_details(final(self).tokens@, token_id@) == Some(token_details),
            r is Ok ==> final(self).tokens@.len() == old(self).tokens@.len(),
            r is Ok ==> *final(self) == (BountiesContract { tokens: final(self).tokens, ..*old(self) }),
    {
        self.check_admin_call(ctx)?;
        match self.find_token(&token_id) {
            Some(i) => {
                self.tokens.set(i, (token_id, token_details));
                proof { Self::lemma_token_details(self.tokens@, token_id@, i as int); }
                Ok(())
            },
            None => Err(BountyError::TokenNotFound),
        }
    }

    /// Whether bounties can be created in `token_id`.
    pub fn assert_that_token_is_allowed(&self, token_id: &AccountId) -> (r: Result<(), BountyError>)
        ensures
            r == (match token_details(self.tokens@, token_id@) {
                None => Err(BountyError::TokenNotAllowed),
                Some(d) => if d.enabled { Ok(()) } else { Err(BountyError::TokenDisabled) },
            }),
    {
        match self.find_token(token_id) {
            Some(i) => {
                proof { Self::lemma_token_details(self.tokens@, token_id@, i as int); }
                if self.tokens[i].1.enabled { Ok(()) } else { Err(BountyError::TokenDisabled) }
            },
            None => Err(BountyError::TokenNotAllowed),
        }
    }

    /// An admin sets the KYC whitelist contract (none: no KYC checks).
    pub fn update_kyc_whitelist_contract(&mut self, ctx: &CallContext, kyc_whitelist_contract: Option<AccountId>) -> (r: Result<(), BountyError>)
        ensures
            r is Err <==> old(self).admin_call_error(*ctx) is Some,
            r matches Err(e) ==> old(self).admin_call_error(*ctx) == Some(e),
            r is Err ==> *final(self) == *old(self),
            r is Ok ==> *final(self) == (BountiesContract { kyc_whitelist_contract, ..*old(self) }),
    {
        self.check_admin_call(ctx)?;
        self.kyc_whitelist_contract = kyc_whitelist_contract;
        Ok(())
    }

    /// An admin replaces the reputation contract, if one is used.
    pub fn update_reputation_contract(&mut self, ctx: &CallContext, reputation_contract: AccountId) -> (r: Result<(), BountyError>)
        ensures
            r is Err <==> old(self).admin_call_error(*ctx) is Some || old(self).reputation_contract is None,
            r matches Err(e) ==> e == (match old(self).admin_call_error(*ctx) { Some(a) => a, None => BountyError::ReputationContractNotUsed }),
            r is Err ==> *final(self) == *old(self),
            r is Ok ==> *final(self) == (BountiesContract { reputation_contract: Some(reputation_contract), ..*old(self) }),
    {
        self.check_admin_call(ctx)?;
        if self.reputation_contract.is_none() {
            return Err(BountyError::ReputationContractNotUsed);
        }
        self.reputation_contract = Some(reputation_contract);
        Ok(())
    }

    /// An admin replaces the dispute contract, if one is used.
    pub fn update_dispute_contract(&mut self, ctx: &CallContext, dispute_contract: AccountId) -> (r: Result<(), BountyError>)
        ensures
            r is Err <==> old(self).admin_call_error(*ctx) is Some || old(self).dispute_contract is None,
            r matches Err(e) ==> e == (match old(self).admin_call_error(*ctx) { Some(a) => a, None => BountyError::DisputeContractNotUsed }),
            r is Err ==> *final(self) == *old(self),
            r is Ok ==> *final(self) == (BountiesContract { dispute_contract: Some(dispute_contract), ..*old(self) }),
    {
        self.check_admin_call(ctx)?;
        if self.dispute_contract.is_none() {
            return Err(BountyError::DisputeContractNotUsed);
        }
        self.dispute_contract = Some(dispute_contract);
        Ok(())
    }

    /// An admin changes the settings; the dictionaries stay.
    pub fn change_config(&mut self, ctx: &CallContext, config_create: ConfigCreate) -> (r: Result<(), BountyError>)
        ensures
            r is Err <==> old(self).admin_call_error(*ctx) is Some,
            r matches Err(e) ==> old(self).admin_call_error(*ctx) == Some(e),
            r is Err ==> *final(self) == *old(self),
            r is Ok ==> *final(self) == (BountiesContract {
                config: Config {
                    bounty_claim_bond: config_create.bounty_claim_bond,
                    bounty_forgiveness_period: config_create.bounty_forgiveness_period,
                    period_for_opening_dispute: config_create.period_for_opening_dispute,
                    platform_fee_percentage: config_create.platform_fee_percentage,
                    validators_dao_fee_percentage: config_create.validators_dao_fee_percentage,
                    penalty_platform_fee_percentage: config_create.penalty_platform_fee_percentage,
                    penalty_validators_dao_fee_percentage: config_create.penalty_validators_dao_fee_percentage,
                    use_owners_whitelist: config_create.use_owners_whitelist,
                    ..old(self).config
                },
                ..*old(self)
            }),
    {
        self.check_admin_call(ctx)?;
        let mut old_config = Config {
            bounty_claim_bond: 0,
            bounty_forgiveness_period: 0,
            period_for_opening_dispute: 0,
            categories: Vec::new(),
            tags: Vec::new(),
            platform_fee_percentage: 0,
            validators_dao_fee_percentage: 0,
            penalty_platform_fee_percentage: 0,
            penalty_validators_dao_fee_percentage: 0,
            currencies: Vec::new(),
            use_owners_whitelist: false,
        };
        std::mem::swap(&mut old_config, &mut self.config);
        self.config = config_create.to_config(old_config);
        Ok(())
    }

    fn dictionary_mut(config: &mut Config, dict: ReferenceType) -> (r: &mut Vec<String>)
        ensures
            r@ == dictionary(*old(config), dict),
            match dict {
                ReferenceType::Categories => *final(config) == Config { categories: *final(r), ..*old(config) },
                ReferenceType::Tags => *final(config) == Config { tags: *final(r), ..*old(config) },
                ReferenceType::Currencies => *final(config) == Config { currencies: *final(r), ..*old(config) },
            },
    {
        match dict {
            ReferenceType::Categories => &mut config.categories,
            ReferenceType::Tags => &mut config.tags,
            ReferenceType::Currencies => &mut config.currencies,
        }
    }

    /// An admin appends entries to a dictionary (categories, tags or currencies).
    pub fn update_configuration_dictionary_entries(&mut self, ctx: &CallContext, dict: ReferenceType, entry: Option<String>, entries: Option<Vec<String>>) -> (r: Result<(), BountyError>)
        ensures
            r is Err <==> old(self).admin_call_error(*ctx) is Some || requested_entries(entry, entries) is None,
            r matches Err(e) ==> e == (match old(self).admin_call_error(*ctx) { Some(a) => a, None => BountyError::ExpectedEntries }),
            r is Err ==> *final(self) == *old(self),
            r is Ok ==> *final(self) == (BountiesContract { config: final(self).config, ..*old(self) }),
            r is Ok ==> dictionary(final(self).config, dict) == dictionary(old(self).config, dict) + requested_entries(entry, entries)->0,
            r is Ok ==> forall|d: ReferenceType| d != dict ==> dictionary(final(self).config, d) == dictionary(old(self).config, d),
    {
        self.check_admin_call(ctx)?;
        let list = match entries {
            Some(v) => v,
            None => match entry {
                Some(e) => {
                    let mut v: Vec<String> = Vec::new();
                    v.push(e);
                    v
                },
                None => { return Err(BountyError::ExpectedEntries); },
            },
        };
        assert(list@ =~= requested_entries(entry, entries)->0);
        let reference = Self::dictionary_mut(&mut self.config, dict);
        let ghost start = reference@;
        let mut i: usize = 0;
        while i < list.len()
            invariant
                i <= list@.len(),
                reference@ == start + list@.subrange(0, i as int),
            decreases list@.len() - i,
        {
            reference.push(list[i].clone());
            i = i + 1;
            proof { assert(reference@ =~= start + list@.subrange(0, i as int)); }
        }
        proof { assert(list@.subrange(0, list@.len() as int) =~= list@); }
        Ok(())
    }

    /// An admin removes entries from a dictionary; absent entries are skipped.
    pub fn remove_configuration_dictionary_entries(&mut self, ctx: &CallContext, dict: ReferenceType, entry: Option<String>, entries: Option<Vec<String>>) -> (r: Result<(), BountyError>)
        ensures
            r is Err <==> old(self).admin_call_error(*ctx) is Some || requested_entries(entry, entries) is None,
            r matches Err(e) ==> e == (match old(self).admin_call_error(*ctx) { Some(a) => a, None => BountyError::ExpectedEntries }),
            r is Err ==> *final(self) == *old(self),
            r is Ok ==> *final(self) == (BountiesContract { config: final(self).config, ..*old(self) }),
            r is Ok ==> dictionary(final(self).config, dict) == remove_all_entries(dictionary(old(self).config, dict), requested_entries(entry, entries)->0),
            r is Ok ==> forall|d: ReferenceType| d != dict ==> dictionary(final(self).config, d) == dictionary(old(self).config, d),
    {
        self.check_admin_call(ctx)?;
        let list = match entries {
            Some(v) => v,
            None => match entry {
                Some(e) => {
                    let mut v: Vec<String> = Vec::new();
                    v.push(e);
                    v
                },
                None => { return Err(BountyError::ExpectedEntries); },
            },
        };
        assert(list@ =~= requested_entries(entry, entries)->0);
        let reference = Self::dictionary_mut(&mut self.config, dict);
        let ghost start = reference@;
        let mut i: usize = 0;
        while i < list.len()
            invariant
                i <= list@.len(),
                reference@ == remove_all_entries(start, list@.subrange(0, i as int)),
            decreases list@.len() - i,
        {
            proof {
                assert(list@.subrange(0, i + 1).drop_last() =~= list@.subrange(0, i as int));
            }
            remove_first_entry(reference, &list[i]);
            i = i + 1;
        }
        proof { assert(list@.subrange(0, list@.len() as int) =~= list@); }
        Ok(())
    }

    /// An admin names the account that collects the platform fee.
    pub fn change_recipient_of_platform_fee(&mut self, ctx: &CallContext, recipient_of_platform_fee: AccountId) -> (r: Result<(), BountyError>)
        ensures
            r is Err <==> old(self).admin_call_error(*ctx) is Some,
            r matches Err(e) ==> old(self).admin_call_error(*ctx) == Some(e),
            r is Err ==> *final(self) == *old(self),
            r is Ok ==> *final(self) == (BountiesContract { recipient_of_platform_fee: Some(recipient_of_platform_fee), ..*old(self) }),
    {
        self.check_admin_call(ctx)?;
        self.recipient_of_platform_fee = Some(recipient_of_platform_fee);
        Ok(())
    }

    /// The contract itself sets its status; it can never go back to Genesis.
    pub fn set_status(&mut self, status: ContractStatus) -> (r: Result<(), BountyError>)
        ensures
            r is Err <==> status == ContractStatus::Genesis,
            r matches Err(e) ==> e == BountyError::StatusGenesis,
            r is Err ==> *final(self) == *old(self),
            r is Ok ==> *final(self) == (BountiesContract { status, ..*old(self) }),
    {
        if status == ContractStatus::Genesis {
            return Err(BountyError::StatusGenesis);
        }
        self.status = status;
        Ok(())
    }

    pub fn get_version() -> (r: &'static str)
        ensures
            r@ == "2.0.11"@,
    {
        "2.0.11"
    }

    pub fn get_tokens(&self) -> (r: &Vec<(AccountId, TokenDetails)>)
        ensures r == &self.tokens,
    {
        &self.tokens
    }

    pub fn get_admins_whitelist(&self) -> (r: &Vec<AccountId>)
        ensures r == &self.admins_whitelist,
    {
        &self.admins_whitelist
    }

    pub fn is_owner_whitelisted(&self, account_id: &AccountId) -> (r: bool)
        ensures r == has_account(self.owners_whitelist@, account_id@),
    {
        contains_account(&self.owners_whitelist, account_id)
    }

    pub fn get_reputation_contract_account_id(&self) -> (r: &Option<AccountId>)
        ensures *r == self.reputation_contract,
    {
        &self.reputation_contract
    }

    pub fn get_dispute_contract_account_id(&self) -> (r: &Option<AccountId>)
        ensures *r == self.dispute_contract,
    {
        &self.dispute_contract
    }

    pub fn get_kyc_whitelist_contract_id(&self) -> (r: &Option<AccountId>)
        ensures *r == self.kyc_whitelist_contract,
    {
        &self.kyc_whitelist_contract
    }

    pub fn get_config(&self) -> (r: &Config)
        ensures *r == self.config,
    {
        &self.config
    }

    /// The native balance that can be spent: what is held neither for storage nor for
    /// bonds.
    pub fn get_available_amount(&self, account_balance: u128, locked_storage_amount: u128) -> (r: u128)
        requires
            account_balance >= locked_storage_amount + self.locked_amount,
        ensures
            r == account_balance - locked_storage_amount - self.locked_amount,
    {
        account_balance - locked_storage_amount - self.locked_amount
    }

    pub fn get_recipient_of_platform_fee(&self) -> (r: &Option<AccountId>)
        ensures *r == self.recipient_of_platform_fee,
    {
        &self.recipient_of_platform_fee
    }

    pub fn get_non_refunded_bonds_amount(&self) -> (r: u128)
        ensures r == self.unlocked_amount,
    {
        self.unlocked_amount
    }

    pub fn get_last_bounty_id(&self) -> (r: BountyIndex)
        ensures r == self.last_bounty_id,
    {
        self.last_bounty_id
    }

    /// The bounty with id `id`.
    pub fn get_bounty(&self, id: BountyIndex) -> (r: Result<&Bounty, BountyError>)
        ensures
            (id as int) < self.bounties@.len() <==> r is Ok,
            r matches Ok(b) ==> *b == self.bounties@[id as int],
            r matches Err(e) ==> e == BountyError::BountyNotFound,
    {
        if (id as u128) < (self.bounties.len() as u128) {
            Ok(&self.bounties[id as usize])
        } else {
            Err(BountyError::BountyNotFound)
        }
    }

    /// The known bounties among `ids`, in the order asked.
    pub fn get_bounties_by_ids(&self, ids: &Vec<BountyIndex>) -> (r: Vec<(BountyIndex, &Bounty)>)
        ensures
            r@.len() == known_bounty_ids(ids@, self.bounties@.len() as int).len(),
            forall|k: int| 0 <= k < r@.len() ==> (#[trigger] r@[k]).0 == known_bounty_ids(ids@, self.bounties@.len() as int)[k]
                && *r@[k].1 == self.bounties@[r@[k].0 as int],
    {
        let ghost n = self.bounties@.len() as int;
        let mut r: Vec<(BountyIndex, &Bounty)> = Vec::new();
        let mut i: usize = 0;
        while i < ids.len()
            invariant
                i <= ids@.len(),
                n == self.bounties@.len(),
                r@.len() == known_bounty_ids(ids@.subrange(0, i as int), n).len(),
                forall|k: int| 0 <= k < r@.len() ==> (#[trigger] r@[k]).0 == known_bounty_ids(ids@.subrange(0, i as int), n)[k]
                    && *r@[k].1 == self.bounties@[r@[k].0 as int],
            decreases ids@.len() - i,
        {
            let id = ids[i];
            let ghost before = ids@.subrange(0, i as int);
            let ghost after = ids@.subrange(0, i + 1);
            assert(after.drop_last() =~= before);
            let ghost old_r = r@;
            let len = self.bounties.len();
            if (id as u128) < (len as u128) {
                r.push((id, &self.bounties[id as usize]));
                assert forall|k: int| 0 <= k < r@.len() implies (#[trigger] r@[k]).0 == known_bounty_ids(after, n)[k]
                    && *r@[k].1 == self.bounties@[r@[k].0 as int] by {
                    if k < old_r.len() {
                        assert(r@[k] == old_r[k]);
                    }
                }
            }
            i = i + 1;
        }
        proof { assert(ids@.subrange(0, ids@.len() as int) =~= ids@); }
        r
    }

    /// At most `limit` bounties (all by default) from id `from_index` (0 by default).
    pub fn get_bounties(&self, from_index: Option<BountyIndex>, limit: Option<BountyIndex>) -> (r: Vec<(BountyIndex, &Bounty)>)
        requires
            self.wf(),
            from_index.unwrap_or(0) + limit.unwrap_or(self.last_bounty_id) <= u64::MAX,
        ensures
            ({
                let from = match from_index { Some(f) => f as int, None => 0 };
                let lim = match limit { Some(l) => l as int, None => self.last_bounty_id as int };
                let end = if from + lim < self.last_bounty_id { from + lim } else { self.last_bounty_id as int };
                &&& r@.len() == if end > from { end - from } else { 0 }
                &&& forall|k: int| 0 <= k < r@.len() ==> (#[trigger] r@[k]).0 == from + k && *r@[k].1 == self.bounties@[from + k]
            }),
    {
        let from = match from_index { Some(f) => f, None => 0 };
        let lim = match limit { Some(l) => l, None => self.last_bounty_id };
        let end: u64 = if from + lim < self.last_bounty_id { from + lim } else { self.last_bounty_id };
        let mut r: Vec<(BountyIndex, &Bounty)> = Vec::new();
        if end <= from {
            return r;
        }
        let mut id = from;
        while id < end
            invariant
                from <= id <= end,
                end <= self.last_bounty_id,
                self.bounties@.len() == self.last_bounty_id,
                r@.len() == id - from,
                forall|k: int| 0 <= k < r@.len() ==> (#[trigger] r@[k]).0 == from + k && *r@[k].1 == self.bounties@[from + k],
            decreases end - id,
        {
            let ghost old_r = r@;
            assert(id < self.bounties.len());
            let idx = id as usize;
            let b = &self.bounties[idx];
            assert(*b == self.bounties@[id as int]);
            r.push((id, b));
            assert forall|k: int| 0 <= k < r@.len() implies (#[trigger] r@[k]).0 == from + k && *r@[k].1 == self.bounties@[from + k] by {
                if k < old_r.len() {
                    assert(r@[k] == old_r[k]);
                }
            }
            id = id + 1;
        }
        r
    }

    /// The claims of `account_id` (none if it has never claimed).
    pub fn get_bounty_claims(&self, account_id: &AccountId) -> (r: Vec<&BountyClaim>)
        ensures
            r@.len() == self.claims_of(account_id@).len(),
            forall|k: int| 0 <= k < r@.len() ==> *(#[trigger] r@[k]) == self.claims_of(account_id@)[k],
    {
        let mut r: Vec<&BountyClaim> = Vec::new();
        match self.bounty_claimers.get(account_id.as_str()) {
            Some(claims) => {
                let mut i: usize = 0;
                while i < claims.len()
                    invariant
                        i <= claims@.len(),
                        claims@ == self.claims_of(account_id@),
                        r@.len() == i,
                        forall|k: int| 0 <= k < r@.len() ==> *(#[trigger] r@[k]) == claims@[k],
                    decreases claims@.len() - i,
                {
                    r.push(&claims[i]);
                    i = i + 1;
                }
            },
            None => {},
        }
        r
    }

    /// The platform fee accounting of `token_id`.
    pub fn get_total_fees(&self, token_id: &AccountId) -> (r: Result<FeeStats, BountyError>)
        ensures
            self.total_fees@.contains_key(token_id@) <==> r is Ok,
            r matches Ok(f) ==> f == self.total_fees@[token_id@],
            r matches Err(e) ==> e == BountyError::TokenNotFound,
    {
        match self.total_fees.get(token_id.as_str()) {
            Some(f) => Ok(*f),
            None => Err(BountyError::TokenNotFound),
        }
    }

    /// The DAO fee accounting of `dao_account_id`, per token.
    pub fn get_total_validators_dao_fees(&self, dao_account_id: &AccountId) -> (r: Vec<&DaoFeeStats>)
        ensures
            self.total_validators_dao_fees@.contains_key(dao_account_id@) ==> r@.len() == self.total_validators_dao_fees@[dao_account_id@]@.len()
                && forall|k: int| 0 <= k < r@.len() ==> *(#[trigger] r@[k]) == self.total_validators_dao_fees@[dao_account_id@]@[k],
            !self.total_validators_dao_fees@.contains_key(dao_account_id@) ==> r@.len() == 0,
    {
        let mut r: Vec<&DaoFeeStats> = Vec::new();
        match self.total_validators_dao_fees.get(dao_account_id.as_str()) {
            Some(stats) => {
                let mut i: usize = 0;
                while i < stats.len()
                    invariant
                        i <= stats@.len(),
                        r@.len() == i,
                        forall|k: int| 0 <= k < r@.len() ==> *(#[trigger] r@[k]) == stats@[k],
                    decreases stats@.len() - i,
                {
                    r.push(&stats[i]);
                    i = i + 1;
                }
            },
            None => {},
        }
        r
    }

    pub fn get_status(&self) -> (r: ContractStatus)
        ensures r == self.status,
    {
        self.status
    }
}


/// The ids among `ids` below `n`, in order.
pub open spec fn known_bounty_ids(ids: Seq<BountyIndex>, n: int) -> Seq<BountyIndex>
    decreases ids.len(),
{
    if ids.len() == 0 {
        Seq::empty()
    } else if ids.last() < n {
        known_bounty_ids(ids.drop_last(), n).push(ids.last())
    } else {
        known_bounty_ids(ids.drop_last(), n)
    }
}

/// The claims on a bounty of the accounts `accounts`, each with its claimant, in order.
pub open spec fn claims_by_accounts(c: BountiesContract, id: BountyIndex, accounts: Seq<AccountId>) -> Seq<(AccountId, BountyClaim)>
    decreases accounts.len(),
{
    if accounts.len() == 0 {
        Seq::empty()
    } else {
        let rest = claims_by_accounts(c, id, accounts.drop_last());
        match c.claim_of(accounts.last()@, id) {
            Some(claim) => rest.push((accounts.last(), claim)),
            None => rest,
        }
    }
}

impl BountiesContract {
    /// The bounties of `account_id`, in the order it created them; refused where an id
    /// it lists names no bounty.
    pub fn get_account_bounties(&self, account_id: &AccountId) -> (r: Result<Vec<(BountyIndex, &Bounty)>, BountyError>)
        ensures
            r is Err <==> exists|k: int| 0 <= k < self.bounty_ids_of(account_id@).len()
                && #[trigger] self.bounty_ids_of(account_id@)[k] >= self.bounties@.len(),
            r matches Err(e) ==> e == BountyError::BountyNotFound,
            r matches Ok(v) ==> v@.len() == self.bounty_ids_of(account_id@).len()
                && forall|k: int| 0 <= k < v@.len() ==> (#[trigger] v@[k]).0 == self.bounty_ids_of(account_id@)[k]
                    && *v@[k].1 == self.bounties@[v@[k].0 as int],
    {
        let mut r: Vec<(BountyIndex, &Bounty)> = Vec::new();
        let ids = match self.account_bounties.get(account_id.as_str()) {
            Some(ids) => ids,
            None => { return Ok(r); },
        };
        let ghost s = self.bounty_ids_of(account_id@);
        let mut i: usize = 0;
        while i < ids.len()
            invariant
                i <= ids@.len(),
                ids@ == s,
                s == self.bounty_ids_of(account_id@),
                r@.len() == i,
                forall|k: int| 0 <= k < i ==> (#[trigger] s[k]) < self.bounties@.len(),
                forall|k: int| 0 <= k < r@.len() ==> (#[trigger] r@[k]).0 == s[k]
                    && *r@[k].1 == self.bounties@[r@[k].0 as int],
            decreases ids@.len() - i,
        {
            let id = ids[i];
            let n = self.bounties.len();
            if (id as u128) >= (n as u128) {
                return Err(BountyError::BountyNotFound);
            }
            let ghost old_r = r@;
            let b = &self.bounties[id as usize];
            r.push((id, b));
            assert forall|k: int| 0 <= k < r@.len() implies (#[trigger] r@[k]).0 == s[k]
                && *r@[k].1 == self.bounties@[r@[k].0 as int] by {
                if k < old_r.len() {
                    assert(r@[k] == old_r[k]);
                }
            }
            i = i + 1;
        }
        Ok(r)
    }

    /// The claims on bounty `id`, each with its claimant, in the order the claimants came.
    pub fn get_bounty_claims_by_id(&self, id: BountyIndex) -> (r: Vec<(AccountId, &BountyClaim)>)
        ensures
            r@.len() == claims_by_accounts(*self, id, self.claimants_of(id)).len(),
            forall|k: int| 0 <= k < r@.len() ==> (#[trigger] r@[k]).0 == claims_by_accounts(*self, id, self.claimants_of(id))[k].0
                && *r@[k].1 == claims_by_accounts(*self, id, self.claimants_of(id))[k].1,
    {
        let mut r: Vec<(AccountId, &BountyClaim)> = Vec::new();
        let n = self.bounty_claimer_accounts.len();
        if (id as u128) >= (n as u128) {
            proof { assert(self.claimants_of(id) =~= Seq::<AccountId>::empty()); }
            return r;
        }
        let accounts = &self.bounty_claimer_accounts[id as usize];
        let ghost s = self.claimants_of(id);
        let mut i: usize = 0;
        while i < accounts.len()
            invariant
                i <= accounts@.len(),
                accounts@ == s,
                r@.len() == claims_by_accounts(*self, id, s.subrange(0, i as int)).len(),
                forall|k: int| 0 <= k < r@.len() ==> (#[trigger] r@[k]).0 == claims_by_accounts(*self, id, s.subrange(0, i as int))[k].0
                    && *r@[k].1 == claims_by_accounts(*self, id, s.subrange(0, i as int))[k].1,
            decreases accounts@.len() - i,
        {
            let account = &accounts[i];
            let ghost before = s.subrange(0, i as int);
            let ghost after = s.subrange(0, i + 1);
            proof {
                assert(after.drop_last() =~= before);
                assert(after.last() == s[i as int]);
            }
            let ghost old_r = r@;
            match self.bounty_claimers.get(account.as_str()) {
                Some(claims) => {
                    match find_claim(id, claims) {
                        Some(j) => {
                            proof { lemma_claim_in(claims@, id, j as int); }
                            r.push((account.clone(), &claims[j]));
                            assert forall|k: int| 0 <= k < r@.len() implies (#[trigger] r@[k]).0 == claims_by_accounts(*self, id, after)[k].0
                                && *r@[k].1 == claims_by_accounts(*self, id, after)[k].1 by {
                                if k < old_r.len() {
                                    assert(r@[k] == old_r[k]);
                                }
                            }
                        },
                        None => {},
                    }
                },
                None => {},
            }
            i = i + 1;
        }
        proof { assert(s.subrange(0, s.len() as int) =~= s); }
        r
    }
}

} // verus!
