//! The state of the bounties contract and its administration.
use vstd::prelude::*;
use vstd::hash_map::StringHashMap;
use crate::accounts::{
    AccountId, has_account, contains_account, set_insert_all, set_remove_all,
    requested_accounts, resolve_accounts, insert_accounts, remove_accounts,
    lemma_insert_all_keeps_nonempty,
};
use super::types::{BountyIndex, ContractStatus, TokenDetails, ReferenceType};
use super::config::{Config, ConfigCreate};
use super::fees::{FeeStats, DaoFeeStats};
use super::bounty::Bounty;
use super::claim::BountyClaim;
use super::errors::BountyError;
use super::effects::CallContext;

verus! {

pub struct BountiesContract {
    /// Tokens allowed for bounties, in the order they were added.
    pub tokens: Vec<(AccountId, TokenDetails)>,
    /// The id of the next bounty.
    pub last_bounty_id: BountyIndex,
    /// The bounties, the bounty with id `i` at position `i`.
    pub bounties: Vec<Bounty>,
    /// Ids of the bounties of each owner.
    pub account_bounties: StringHashMap<Vec<BountyIndex>>,
    /// The claims of each claimant, at most one per bounty.
    pub bounty_claimers: StringHashMap<Vec<BountyClaim>>,
    /// The claimants of each bounty, the bounty with id `i` at position `i`.
    pub bounty_claimer_accounts: Vec<Vec<AccountId>>,
    /// Bonds held for claims.
    pub locked_amount: u128,
    /// Bonds that were not returned.
    pub unlocked_amount: u128,
    /// Accounts that administer the contract.
    pub admins_whitelist: Vec<AccountId>,
    pub config: Config,
    pub reputation_contract: Option<AccountId>,
    pub dispute_contract: Option<AccountId>,
    pub kyc_whitelist_contract: Option<AccountId>,
    /// Accounts allowed to create bounties when the whitelist is in use, and
    /// bounties paid outside the contract.
    pub owners_whitelist: Vec<AccountId>,
    /// Platform fees per token.
    pub total_fees: StringHashMap<FeeStats>,
    /// Validators DAO fees per DAO and token.
    pub total_validators_dao_fees: StringHashMap<Vec<DaoFeeStats>>,
    pub recipient_of_platform_fee: Option<AccountId>,
    pub status: ContractStatus,
}

/// The position of token `t` in the list of tokens, if any.
pub open spec fn token_index(tokens: Seq<(AccountId, TokenDetails)>, t: Seq<char>, i: int) -> bool {
    &&& 0 <= i < tokens.len()
    &&& tokens[i].0@ == t
    &&& forall|j: int| 0 <= j < i ==> (#[trigger] tokens[j]).0@ != t
}

pub open spec fn has_token(tokens: Seq<(AccountId, TokenDetails)>, t: Seq<char>) -> bool {
    exists|i: int| 0 <= i < tokens.len() && (#[trigger] tokens[i]).0@ == t
}

/// The details of token `t`, if it is known.
pub open spec fn token_details(tokens: Seq<(AccountId, TokenDetails)>, t: Seq<char>) -> Option<TokenDetails> {
    if has_token(tokens, t) {
        Some(tokens[choose|i: int| token_index(tokens, t, i)].1)
    } else {
        None
    }
}

impl BountiesContract {
    /// One bounty per id below the next id, each well formed, with its list of
    /// claimants; fee accounts well formed.
    pub open spec fn wf(&self) -> bool {
        &&& self.bounties@.len() == self.last_bounty_id
        &&& self.bounty_claimer_accounts@.len() == self.bounties@.len()
        &&& forall|i: int| 0 <= i < self.bounties@.len() ==> (#[trigger] self.bounties@[i]).wf()
        &&& forall|t: Seq<char>| #[trigger] self.total_fees@.contains_key(t) ==> self.total_fees@[t].wf()
        &&& forall|i: int| 0 <= i < self.tokens@.len() ==> self.total_fees@.contains_key((#[trigger] self.tokens@[i]).0@)
        &&& forall|d: Seq<char>| #[trigger] self.total_validators_dao_fees@.contains_key(d) ==>
            forall|k: int| 0 <= k < self.total_validators_dao_fees@[d]@.len()
                ==> (#[trigger] self.total_validators_dao_fees@[d]@[k]).fee_stats.wf()
    }

    /// The claims of `account`.
    pub open spec fn claims_of(&self, account: Seq<char>) -> Seq<BountyClaim> {
        if self.bounty_claimers@.contains_key(account) {
            self.bounty_claimers@[account]@
        } else {
            Seq::empty()
        }
    }

    /// A new contract administered by `admins_whitelist`; refused without an admin.
    pub fn new(
        admins_whitelist: Vec<AccountId>,
        config: Option<Config>,
        reputation_contract: Option<AccountId>,
        dispute_contract: Option<AccountId>,
        kyc_whitelist_contract: Option<AccountId>,
        recipient_of_platform_fee: Option<AccountId>,
    ) -> (r: Result<BountiesContract, BountyError>)
        ensures
            admins_whitelist@.len() == 0 <==> r is Err,
            r matches Err(e) ==> e == BountyError::NoAdmins,
            r matches Ok(c) ==> {
                &&& c.wf()
                &&& c.tokens@.len() == 0
                &&& c.last_bounty_id == 0
                &&& c.account_bounties@ == Map::<Seq<char>, Vec<BountyIndex>>::empty()
                &&& c.bounty_claimers@ == Map::<Seq<char>, Vec<BountyClaim>>::empty()
                &&& c.locked_amount == 0
                &&& c.unlocked_amount == 0
                &&& c.admins_whitelist@ == set_insert_all(Seq::empty(), admins_whitelist@)
                &&& c.admins_whitelist@.len() > 0
                &&& (config matches Some(cf) ==> c.config == cf)
                &&& (config is None ==> c.config.is_initial())
                &&& c.reputation_contract == reputation_contract
                &&& c.dispute_contract == dispute_contract
                &&& c.kyc_whitelist_contract == kyc_whitelist_contract
                &&& c.owners_whitelist@.len() == 0
                &&& c.total_fees@ == Map::<Seq<char>, FeeStats>::empty()
                &&& c.total_validators_dao_fees@ == Map::<Seq<char>, Vec<DaoFeeStats>>::empty()
                &&& c.recipient_of_platform_fee == recipient_of_platform_fee
                &&& c.status == ContractStatus::Genesis
            },
    {
        if admins_whitelist.len() == 0 {
            return Err(BountyError::NoAdmins);
        }
        let mut admins: Vec<AccountId> = Vec::new();
        insert_accounts(&mut admins, &admins_whitelist);
        proof { lemma_insert_all_keeps_nonempty(Seq::empty(), admins_whitelist@); }
        let config = match config {
            Some(c) => c,
            None => Config::default(),
        };
        Ok(BountiesContract {
            tokens: Vec::new(),
            last_bounty_id: 0,
            bounties: Vec::new(),
            account_bounties: StringHashMap::new(),
            bounty_claimers: StringHashMap::new(),
            bounty_claimer_accounts: Vec::new(),
            locked_amount: 0,
            unlocked_amount: 0,
            admins_whitelist: admins,
            config,
            reputation_contract,
            dispute_contract,
            kyc_whitelist_contract,
            owners_whitelist: Vec::new(),
            total_fees: StringHashMap::new(),
            total_validators_dao_fees: StringHashMap::new(),
            recipient_of_platform_fee,
            status: ContractStatus::Genesis,
        })
    }

    /// The first reason why an admin call of `ctx` is refused: the contract is not
    /// live, the call does not carry exactly one yocto, or the caller is no admin.
    pub open spec fn admin_call_error(&self, ctx: CallContext) -> Option<BountyError> {
        if self.status != ContractStatus::Live {
            Some(BountyError::NotLive)
        } else if ctx.attached_deposit != 1 {
            Some(BountyError::OneYoctoRequired)
        } else if !has_account(self.admins_whitelist@, ctx.predecessor@) {
            Some(BountyError::NotAdmin)
        } else {
            None
        }
    }

    pub(crate) fn check_admin_call(&self, ctx: &CallContext) -> (r: Result<(), BountyError>)
        ensures
            r is Err <==> self.admin_call_error(*ctx) is Some,
            r matches Err(e) ==> self.admin_call_error(*ctx) == Some(e),
    {
        if self.status != ContractStatus::Live {
            return Err(BountyError::NotLive);
        }
        if ctx.attached_deposit != 1 {
            return Err(BountyError::OneYoctoRequired);
        }
        if !contains_account(&self.admins_whitelist, &ctx.predecessor) {
            return Err(BountyError::NotAdmin);
        }
        Ok(())
    }

    /// Whether the contract accepts changes.
    pub fn assert_live(&self) -> (r: Result<(), BountyError>)
        ensures
            r is Ok <==> self.status == ContractStatus::Live,
            r matches Err(e) ==> e == BountyError::NotLive,
    {
        if self.status == ContractStatus::Live {
            Ok(())
        } else {
            Err(BountyError::NotLive)
        }
    }

    /// An admin adds accounts to the admins.
    pub fn add_to_admins_whitelist(
        &mut self,
        ctx: &CallContext,
        account_id: Option<AccountId>,
        account_ids: Option<Vec<AccountId>>,
    ) -> (r: Result<(), BountyError>)
        ensures
            r is Err <==> old(self).admin_call_error(*ctx) is Some || requested_accounts(account_id, account_ids) is None,
            r matches Err(e) ==> e == (match old(self).admin_call_error(*ctx) {
                Some(e) => e,
                None => BountyError::ExpectedAccounts,
            }),
            r is Err ==> *final(self) == *old(self),
            r is Ok ==> *final(self) == (BountiesContract {
                admins_whitelist: final(self).admins_whitelist,
                ..*old(self)
            }),
            r is Ok ==> final(self).admins_whitelist@ == set_insert_all(
                old(self).admins_whitelist@,
                requested_accounts(account_id, account_ids)->0,
            ),
            old(self).admins_whitelist@.len() > 0 ==> final(self).admins_whitelist@.len() > 0,
    {
        self.check_admin_call(ctx)?;
        let list = match resolve_accounts(account_id, account_ids) {
            Some(l) => l,
            None => { return Err(BountyError::ExpectedAccounts); },
        };
        let ghost before = self.admins_whitelist@;
        insert_accounts(&mut self.admins_whitelist, &list);
        proof { lemma_insert_all_keeps_nonempty(before, list@); }
        Ok(())
    }

    /// An admin removes accounts from the admins; at least one admin must remain.
    pub fn remove_from_admins_whitelist(
        &mut self,
        ctx: &CallContext,
        account_id: Option<AccountId>,
        account_ids: Option<Vec<AccountId>>,
    ) -> (r: Result<(), BountyError>)
        ensures
            r is Err <==> old(self).admin_call_error(*ctx) is Some
                || requested_accounts(account_id, account_ids) is None
                || set_remove_all(old(self).admins_whitelist@, requested_accounts(account_id, account_ids)->0).len() == 0,
            r matches Err(e) ==> e == (match old(self).admin_call_error(*ctx) {
                Some(e) => e,
                None => if requested_accounts(account_id, account_ids) is None {
                    BountyError::ExpectedAccounts
                } else {
                    BountyError::RemovingAllAdmins
                },
            }),
            r is Err ==> *final(self) == *old(self),
            r is Ok ==> *final(self) == (BountiesContract {
                admins_whitelist: final(self).admins_whitelist,
                ..*old(self)
            }),
            r is Ok ==> final(self).admins_whitelist@ == set_remove_all(
                old(self).admins_whitelist@,
                requested_accounts(account_id, account_ids)->0,
            ),
            r is Ok ==> final(self).admins_whitelist@.len() > 0,
    {
        self.check_admin_call(ctx)?;
        let list = match resolve_accounts(account_id, account_ids) {
            Some(l) => l,
            None => { return Err(BountyError::ExpectedAccounts); },
        };
        let mut admins = crate::accounts::copy_accounts(&self.admins_whitelist);
        remove_accounts(&mut admins, &list);
        if admins.len() == 0 {
            return Err(BountyError::RemovingAllAdmins);
        }
        self.admins_whitelist = admins;
        Ok(())
    }

    /// An admin adds accounts to the owners whitelist.
    pub fn add_to_owners_whitelist(
        &mut self,
        ctx: &CallContext,
        account_id: Option<AccountId>,
        account_ids: Option<Vec<AccountId>>,
    ) -> (r: Result<(), BountyError>)
        ensures
            r is Err <==> old(self).admin_call_error(*ctx) is Some || requested_accounts(account_id, account_ids) is None,
            r matches Err(e) ==> e == (match old(self).admin_call_error(*ctx) { Some(a) => a, None => BountyError::ExpectedAccounts }),
            r is Err ==> *final(self) == *old(self),
            r is Ok ==> *final(self) == (BountiesContract {
                owners_whitelist: final(self).owners_whitelist,
                ..*old(self)
            }),
            r is Ok ==> final(self).owners_whitelist@ == set_insert_all(
                old(self).owners_whitelist@,
                requested_accounts(account_id, account_ids)->0,
            ),
    {
        self.check_admin_call(ctx)?;
        let list = match resolve_accounts(account_id, account_ids) {
            Some(l) => l,
            None => { return Err(BountyError::ExpectedAccounts); },
        };
        insert_accounts(&mut self.owners_whitelist, &list);
        Ok(())
    }

    /// An admin removes accounts from the owners whitelist.
    pub fn remove_from_owners_whitelist(
        &mut self,
        ctx: &CallContext,
        account_id: Option<AccountId>,
        account_ids: Option<Vec<AccountId>>,
    ) -> (r: Result<(), BountyError>)
        ensures
            r is Err <==> old(self).admin_call_error(*ctx) is Some || requested_accounts(account_id, account_ids) is None,
            r matches Err(e) ==> e == (match old(self).admin_call_error(*ctx) { Some(a) => a, None => BountyError::ExpectedAccounts }),
            r is Err ==> *final(self) == *old(self),
            r is Ok ==> *final(self) == (BountiesContract {
                owners_whitelist: final(self).owners_whitelist,
                ..*old(self)
            }),
            r is Ok ==> final(self).owners_whitelist@ == set_remove_all(
                old(self).owners_whitelist@,
                requested_accounts(account_id, account_ids)->0,
            ),
    {
        self.check_admin_call(ctx)?;
        let list = match resolve_accounts(account_id, account_ids) {
            Some(l) => l,
            None => { return Err(BountyError::ExpectedAccounts); },
        };
        remove_accounts(&mut self.owners_whitelist, &list);
        Ok(())
    }
}

} // verus!
