//! The state of the disputes contract, its administration and its views.
use vstd::prelude::*;
use vstd::hash_map::HashMapWithView;
use crate::accounts::{
    AccountId, has_account, contains_account, copy_accounts, set_insert_all, set_remove_all,
    requested_accounts, resolve_accounts, insert_accounts, remove_accounts,
    lemma_insert_all_keeps_nonempty,
};
use crate::bounties::types::ContractStatus;
use crate::bounties::effects::CallContext;
use super::types::{Config, Dispute, DisputeIndex, Reason};

verus! {

broadcast use vstd::std_specs::hash::group_hash_axioms;

/// Why the disputes contract refuses a request.
#[derive(Clone, Copy, Debug, PartialEq, Eq, Structural)]
pub enum DisputeError {
    NoAdmins,
    NotLive,
    StatusGenesis,
    NotAdmin,
    ExpectedAccounts,
    RemovingAllAdmins,
    NotBountiesContract,
    NotDisputeDao,
    EmptyDescription,
    DisputeNotFound,
    NoArguments,
    NotNew,
    NotDecisionPending,
    AlreadyCompleted,
    NoAccessRights,
    ArgumentPeriodExpired,
    ArgumentPeriodNotExpired,
    DecisionPeriodExpired,
    NoProposal,
    ProposalCheckFailed,
    ProposalMismatch,
    ProposerMismatch,
    ProposalNotProcessed,
    ArithmeticOverflow,
}

impl DisputeError {
    /// The text of the message the contract fails with.
    pub open spec fn text(&self) -> Seq<char> {
        match self {
            DisputeError::NoAdmins => "Admin whitelist must contain at least one account"@,
            DisputeError::NotLive => "The contract status is not Live"@,
            DisputeError::StatusGenesis => "The status can't be set to Genesis"@,
            DisputeError::NotAdmin => "Not in admin whitelist"@,
            DisputeError::ExpectedAccounts => "Expected either account_id or account_ids"@,
            DisputeError::RemovingAllAdmins => "Cannot remove all accounts from admin whitelist"@,
            DisputeError::NotBountiesContract => "This method can only invoke a bounty contract"@,
            DisputeError::NotDisputeDao => "This method can only invoke a dispute resolution DAO contract"@,
            DisputeError::EmptyDescription => "The description cannot be empty"@,
            DisputeError::DisputeNotFound => "Dispute not found"@,
            DisputeError::NoArguments => "No arguments"@,
            DisputeError::NotNew => "This action can be performed only for a dispute with the status 'New'"@,
            DisputeError::NotDecisionPending => "This action can be performed only for a dispute with the status 'DecisionPending'"@,
            DisputeError::AlreadyCompleted => "The dispute has already completed status"@,
            DisputeError::NoAccessRights => "You do not have access rights to perform this action"@,
            DisputeError::ArgumentPeriodExpired => "The period for providing arguments has expired, now you need to perform an 'escalation' action or cancel the dispute"@,
            DisputeError::ArgumentPeriodNotExpired => "Escalation of the dispute is possible only after the end of the argumentation period"@,
            DisputeError::DecisionPeriodExpired => "The decision period is over, now you need to perform the 'finalize' action"@,
            DisputeError::NoProposal => "The dispute has no proposal"@,
            DisputeError::ProposalCheckFailed => "Error checking proposal status"@,
            DisputeError::ProposalMismatch => "The proposal is not the proposal of the dispute"@,
            DisputeError::ProposerMismatch => "The proposal was not made by this contract"@,
            DisputeError::ProposalNotProcessed => "The proposal status is not being processed"@,
            DisputeError::ArithmeticOverflow => "Arithmetic overflow"@,
        }
    }

    /// The message the contract fails with.
    pub fn message(&self) -> (r: &'static str)
        ensures
            r@ == self.text(),
    {
        match self {
            DisputeError::NoAdmins => "Admin whitelist must contain at least one account",
            DisputeError::NotLive => "The contract status is not Live",
            DisputeError::StatusGenesis => "The status can't be set to Genesis",
            DisputeError::NotAdmin => "Not in admin whitelist",
            DisputeError::ExpectedAccounts => "Expected either account_id or account_ids",
            DisputeError::RemovingAllAdmins => "Cannot remove all accounts from admin whitelist",
            DisputeError::NotBountiesContract => "This method can only invoke a bounty contract",
            DisputeError::NotDisputeDao => "This method can only invoke a dispute resolution DAO contract",
            DisputeError::EmptyDescription => "The description cannot be empty",
            DisputeError::DisputeNotFound => "Dispute not found",
            DisputeError::NoArguments => "No arguments",
            DisputeError::NotNew => "This action can be performed only for a dispute with the status 'New'",
            DisputeError::NotDecisionPending => "This action can be performed only for a dispute with the status 'DecisionPending'",
            DisputeError::AlreadyCompleted => "The dispute has already completed status",
            DisputeError::NoAccessRights => "You do not have access rights to perform this action",
            DisputeError::ArgumentPeriodExpired => "The period for providing arguments has expired, now you need to perform an 'escalation' action or cancel the dispute",
            DisputeError::ArgumentPeriodNotExpired => "Escalation of the dispute is possible only after the end of the argumentation period",
            DisputeError::DecisionPeriodExpired => "The decision period is over, now you need to perform the 'finalize' action",
            DisputeError::NoProposal => "The dispute has no proposal",
            DisputeError::ProposalCheckFailed => "Error checking proposal status",
            DisputeError::ProposalMismatch => "The proposal is not the proposal of the dispute",
            DisputeError::ProposerMismatch => "The proposal was not made by this contract",
            DisputeError::ProposalNotProcessed => "The proposal status is not being processed",
            DisputeError::ArithmeticOverflow => "Arithmetic overflow",
        }
    }
}

pub struct DisputesContract {
    /// The bounties contract, the only account that opens disputes.
    pub bounties_contract: AccountId,
    /// The DAO that decides escalated disputes.
    pub dispute_dao: AccountId,
    /// The id of the next dispute.
    pub last_dispute_id: DisputeIndex,
    /// The disputes, the dispute with id `i` at position `i`.
    pub disputes: Vec<Dispute>,
    /// The arguments of the parties, those of dispute `i` at position `i`.
    pub arguments: Vec<Vec<Reason>>,
    /// The ids of the disputes of each bounty, in the order they were opened.
    pub bounty_disputes: HashMapWithView<u64, Vec<DisputeIndex>>,
    /// Accounts that administer the contract.
    pub admin_whitelist: Vec<AccountId>,
    pub config: Config,
    pub status: ContractStatus,
}

impl DisputesContract {
    /// One dispute and one list of arguments per id below the next id; each bounty
    /// lists a non-empty, increasing list of ids of its own disputes; at least one admin.
    pub open spec fn wf(&self) -> bool {
        &&& self.disputes@.len() == self.last_dispute_id
        &&& self.arguments@.len() == self.last_dispute_id
        &&& self.admin_whitelist@.len() > 0
        &&& forall|b: u64| #[trigger] self.bounty_disputes@.contains_key(b) ==> self.indexes_bounty(b, self.bounty_disputes@[b]@)
    }

    /// `ids` is a non-empty increasing list of ids of disputes about bounty `b`.
    pub open spec fn indexes_bounty(&self, b: u64, ids: Seq<DisputeIndex>) -> bool {
        &&& ids.len() > 0
        &&& forall|k: int| 0 <= k < ids.len() ==> (#[trigger] ids[k]) < self.disputes@.len()
            && self.disputes@[ids[k] as int].bounty_id == b
        &&& forall|k: int, l: int| 0 <= k < l < ids.len() ==> (#[trigger] ids[k]) < (#[trigger] ids[l])
    }

    /// The ids of the disputes about bounty `b`.
    pub open spec fn disputes_of(&self, b: u64) -> Seq<DisputeIndex> {
        if self.bounty_disputes@.contains_key(b) {
            self.bounty_disputes@[b]@
        } else {
            Seq::empty()
        }
    }

    /// A contract in Genesis status; refused without an admin.
    pub fn new(
        bounties_contract: AccountId,
        dispute_dao: AccountId,
        admin_whitelist: Vec<AccountId>,
        config: Option<Config>,
    ) -> (r: Result<DisputesContract, DisputeError>)
        ensures
            r is Err <==> admin_whitelist@.len() == 0,
            r matches Err(e) ==> e == DisputeError::NoAdmins,
            r matches Ok(c) ==> {
                &&& c.wf()
                &&& c.bounties_contract == bounties_contract
                &&& c.dispute_dao == dispute_dao
                &&& c.last_dispute_id == 0
                &&& c.bounty_disputes@ == Map::<u64, Vec<DisputeIndex>>::empty()
                &&& c.admin_whitelist@ == set_insert_all(Seq::empty(), admin_whitelist@)
                &&& c.config == (match config { Some(cf) => cf, None => Config::default_spec() })
                &&& c.status == ContractStatus::Genesis
            },
    {
        if admin_whitelist.len() == 0 {
            return Err(DisputeError::NoAdmins);
        }
        let mut admins: Vec<AccountId> = Vec::new();
        insert_accounts(&mut admins, &admin_whitelist);
        proof { lemma_insert_all_keeps_nonempty(Seq::empty(), admin_whitelist@); }
        let config = match config {
            Some(c) => c,
            None => Config::default(),
        };
        Ok(DisputesContract {
            bounties_contract,
            dispute_dao,
            last_dispute_id: 0,
            disputes: Vec::new(),
            arguments: Vec::new(),
            bounty_disputes: HashMapWithView::new(),
            admin_whitelist: admins,
            config,
            status: ContractStatus::Genesis,
        })
    }

    pub fn assert_live(&self) -> (r: Result<(), DisputeError>)
        ensures
            r is Ok <==> self.status == ContractStatus::Live,
            r matches Err(e) ==> e == DisputeError::NotLive,
    {
        if self.status == ContractStatus::Live {
            Ok(())
        } else {
            Err(DisputeError::NotLive)
        }
    }

    /// The first reason why an admin call of `ctx` is refused.
    pub open spec fn admin_call_error(&self, ctx: CallContext) -> Option<DisputeError> {
        if self.status != ContractStatus::Live {
            Some(DisputeError::NotLive)
        } else if !has_account(self.admin_whitelist@, ctx.predecessor@) {
            Some(DisputeError::NotAdmin)
        } else {
            None
        }
    }

    pub fn assert_admin_whitelist(&self, ctx: &CallContext) -> (r: Result<(), DisputeError>)
        ensures
            r is Err <==> self.admin_call_error(*ctx) is Some,
            r matches Err(e) ==> self.admin_call_error(*ctx) == Some(e),
    {
        self.assert_live()?;
        if !contains_account(&self.admin_whitelist, &ctx.predecessor) {
            return Err(DisputeError::NotAdmin);
        }
        Ok(())
    }

    /// An admin adds accounts to the admins.
    pub fn add_to_admin_whitelist(
        &mut self,
        ctx: &CallContext,
        account_id: Option<AccountId>,
        account_ids: Option<Vec<AccountId>>,
    ) -> (r: Result<(), DisputeError>)
        requires
            old(self).wf(),
        ensures
            final(self).wf(),
            r is Err <==> old(self).admin_call_error(*ctx) is Some || requested_accounts(account_id, account_ids) is None,
            r matches Err(e) ==> e == (match old(self).admin_call_error(*ctx) {
                Some(e) => e,
                None => DisputeError::ExpectedAccounts,
            }),
            r is Err ==> *final(self) == *old(self),
            r is Ok ==> *final(self) == (DisputesContract { admin_whitelist: final(self).admin_whitelist, ..*old(self) }),
            r is Ok ==> final(self).admin_whitelist@ == set_insert_all(
                old(self).admin_whitelist@,
                requested_accounts(account_id, account_ids)->0,
            ),
    {
        self.assert_admin_whitelist(ctx)?;
        let list = match resolve_accounts(account_id, account_ids) {
            Some(l) => l,
            None => { return Err(DisputeError::ExpectedAccounts); },
        };
        let ghost before = self.admin_whitelist@;
        insert_accounts(&mut self.admin_whitelist, &list);
        proof { lemma_insert_all_keeps_nonempty(before, list@); }
        Ok(())
    }

    /// An admin removes accounts from the admins; at least one admin must remain.
    pub fn remove_from_admin_whitelist(
        &mut self,
        ctx: &CallContext,
        account_id: Option<AccountId>,
        account_ids: Option<Vec<AccountId>>,
    ) -> (r: Result<(), DisputeError>)
        requires
            old(self).wf(),
        ensures
            final(self).wf(),
            r is Err <==> old(self).admin_call_error(*ctx) is Some
                || requested_accounts(account_id, account_ids) is None
                || set_remove_all(old(self).admin_whitelist@, requested_accounts(account_id, account_ids)->0).len() == 0,
            r matches Err(e) ==> e == (match old(self).admin_call_error(*ctx) {
                Some(e) => e,
                None => if requested_accounts(account_id, account_ids) is None {
                    DisputeError::ExpectedAccounts
                } else {
                    DisputeError::RemovingAllAdmins
                },
            }),
            r is Err ==> *final(self) == *old(self),
            r is Ok ==> *final(self) == (DisputesContract { admin_whitelist: final(self).admin_whitelist, ..*old(self) }),
            r is Ok ==> final(self).admin_whitelist@ == set_remove_all(
                old(self).admin_whitelist@,
                requested_accounts(account_id, account_ids)->0,
            ),
    {
        self.assert_admin_whitelist(ctx)?;
        let list = match resolve_accounts(account_id, account_ids) {
            Some(l) => l,
            None => { return Err(DisputeError::ExpectedAccounts); },
        };
        let mut admins = copy_accounts(&self.admin_whitelist);
        remove_accounts(&mut admins, &list);
        if admins.len() == 0 {
            return Err(DisputeError::RemovingAllAdmins);
        }
        self.admin_whitelist = admins;
        Ok(())
    }

    /// An admin replaces the configuration.
    pub fn change_config(&mut self, ctx: &CallContext, config: Config) -> (r: Result<(), DisputeError>)
        ensures
            r is Err <==> old(self).admin_call_error(*ctx) is Some,
            r matches Err(e) ==> old(self).admin_call_error(*ctx) == Some(e) && *final(self) == *old(self),
            r is Ok ==> *final(self) == (DisputesContract { config, ..*old(self) }),
    {
        self.assert_admin_whitelist(ctx)?;
        self.config = config;
        Ok(())
    }

    /// An admin points the contract at another bounties contract.
    pub fn update_bounties_contract(&mut self, ctx: &CallContext, bounties_contract: AccountId) -> (r: Result<(), DisputeError>)
        ensures
            r is Err <==> old(self).admin_call_error(*ctx) is Some,
            r matches Err(e) ==> old(self).admin_call_error(*ctx) == Some(e) && *final(self) == *old(self),
            r is Ok ==> *final(self) == (DisputesContract { bounties_contract, ..*old(self) }),
    {
        self.assert_admin_whitelist(ctx)?;
        self.bounties_contract = bounties_contract;
        Ok(())
    }

    /// The contract itself sets its status; it can never go back to Genesis.
    pub fn set_status(&mut self, status: ContractStatus) -> (r: Result<(), DisputeError>)
        ensures
            r is Err <==> status == ContractStatus::Genesis,
            r matches Err(e) ==> e == DisputeError::StatusGenesis && *final(self) == *old(self),
            r is Ok ==> *final(self) == (DisputesContract { status, ..*old(self) }),
    {
        if status == ContractStatus::Genesis {
            return Err(DisputeError::StatusGenesis);
        }
        self.status = status;
        Ok(())
    }

    pub fn get_bounties_contract_account_id(&self) -> (r: &AccountId)
        ensures
            r == &self.bounties_contract,
    {
        &self.bounties_contract
    }

    pub fn get_dispute_dao_account_id(&self) -> (r: &AccountId)
        ensures
            r == &self.dispute_dao,
    {
        &self.dispute_dao
    }

    pub fn get_admin_whitelist(&self) -> (r: Vec<AccountId>)
        ensures
            r@ == self.admin_whitelist@,
    {
        copy_accounts(&self.admin_whitelist)
    }

    pub fn get_config(&self) -> (r: Config)
        ensures
            r == self.config,
    {
        self.config
    }

    pub fn get_last_dispute_id(&self) -> (r: DisputeIndex)
        ensures
            r == self.last_dispute_id,
    {
        self.last_dispute_id
    }

    pub fn get_version() -> (r: &'static str)
        ensures
            r@ == "2.0.0"@,
    {
        "2.0.0"
    }

    /// The dispute with id `id`.
    pub fn get_dispute(&self, id: DisputeIndex) -> (r: Result<&Dispute, DisputeError>)
        ensures
            r is Ok <==> (id as int) < self.disputes@.len(),
            r matches Ok(d) ==> *d == self.disputes@[id as int],
            r matches Err(e) ==> e == DisputeError::DisputeNotFound,
    {
        let n = self.disputes.len();
        if (id as u128) < (n as u128) {
            Ok(&self.disputes[id as usize])
        } else {
            Err(DisputeError::DisputeNotFound)
        }
    }

    /// The arguments given in dispute `id`; refused where none was given.
    pub fn get_arguments(&self, id: DisputeIndex) -> (r: Result<&Vec<Reason>, DisputeError>)
        ensures
            r is Ok <==> (id as int) < self.arguments@.len() && self.arguments@[id as int]@.len() > 0,
            r matches Ok(a) ==> *a == self.arguments@[id as int],
            r matches Err(e) ==> e == DisputeError::NoArguments,
    {
        let n = self.arguments.len();
        if (id as u128) < (n as u128) && self.arguments[id as usize].len() > 0 {
            Ok(&self.arguments[id as usize])
        } else {
            Err(DisputeError::NoArguments)
        }
    }

    /// The disputes about bounty `bounty_id`, in the order they were opened.
    pub fn get_bounty_disputes(&self, bounty_id: u64) -> (r: Vec<(DisputeIndex, &Dispute)>)
        requires
            self.wf(),
        ensures
            r@.len() == self.disputes_of(bounty_id).len(),
            forall|k: int| 0 <= k < r@.len() ==> (#[trigger] r@[k]).0 == self.disputes_of(bounty_id)[k]
                && *r@[k].1 == self.disputes@[r@[k].0 as int],
    {
        let mut r: Vec<(DisputeIndex, &Dispute)> = Vec::new();
        match self.bounty_disputes.get(&bounty_id) {
            Some(ids) => {
                assert(self.indexes_bounty(bounty_id, ids@));
                let mut i: usize = 0;
                while i < ids.len()
                    invariant
                        i <= ids@.len(),
                        ids@ == self.disputes_of(bounty_id),
                        self.indexes_bounty(bounty_id, ids@),
                        r@.len() == i,
                        forall|k: int| 0 <= k < r@.len() ==> (#[trigger] r@[k]).0 == ids@[k]
                            && *r@[k].1 == self.disputes@[r@[k].0 as int],
                    decreases ids@.len() - i,
                {
                    let id = ids[i];
                    assert(id < self.disputes.len());
                    let ghost old_r = r@;
                    let d = &self.disputes[id as usize];
                    assert(*d == self.disputes@[id as int]);
                    r.push((id, d));
                    assert forall|k: int| 0 <= k < r@.len() implies (#[trigger] r@[k]).0 == ids@[k]
                        && *r@[k].1 == self.disputes@[r@[k].0 as int] by {
                        if k < old_r.len() {
                            assert(r@[k] == old_r[k]);
                        }
                    }
                    i = i + 1;
                }
            },
            None => {},
        }
        r
    }

    /// The known disputes among `ids`, in the order asked.
    pub fn get_disputes_by_ids(&self, ids: &Vec<DisputeIndex>) -> (r: Vec<(DisputeIndex, &Dispute)>)
        ensures
            r@.len() == known_ids(ids@, self.disputes@.len() as int).len(),
            forall|k: int| 0 <= k < r@.len() ==> (#[trigger] r@[k]).0 == known_ids(ids@, self.disputes@.len() as int)[k]
                && *r@[k].1 == self.disputes@[r@[k].0 as int],
    {
        let ghost n = self.disputes@.len() as int;
        let mut r: Vec<(DisputeIndex, &Dispute)> = Vec::new();
        let mut i: usize = 0;
        while i < ids.len()
            invariant
                i <= ids@.len(),
                n == self.disputes@.len(),
                r@.len() == known_ids(ids@.subrange(0, i as int), n).len(),
                forall|k: int| 0 <= k < r@.len() ==> (#[trigger] r@[k]).0 == known_ids(ids@.subrange(0, i as int), n)[k]
                    && *r@[k].1 == self.disputes@[r@[k].0 as int],
            decreases ids@.len() - i,
        {
            let id = ids[i];
            let ghost before = ids@.subrange(0, i as int);
            let ghost after = ids@.subrange(0, i + 1);
            assert(after.drop_last() =~= before);
            let ghost old_r = r@;
            let len = self.disputes.len();
            if (id as u128) < (len as u128) {
                r.push((id, &self.disputes[id as usize]));
                assert forall|k: int| 0 <= k < r@.len() implies (#[trigger] r@[k]).0 == known_ids(after, n)[k]
                    && *r@[k].1 == self.disputes@[r@[k].0 as int] by {
                    if k < old_r.len() {
                        assert(r@[k] == old_r[k]);
                    }
                }
            }
            i = i + 1;
        }
        proof { assert(ids@.subrange(0, ids@.len() as int) =~= ids@); }
        r
    }

    /// At most `limit` disputes (all by default) from id `from_index` (0 by default).
    pub fn get_disputes(&self, from_index: Option<DisputeIndex>, limit: Option<DisputeIndex>) -> (r: Vec<(DisputeIndex, &Dispute)>)
        requires
            self.wf(),
            from_index.unwrap_or(0) + limit.unwrap_or(self.last_dispute_id) <= u64::MAX,
        ensures
            ({
                let from = from_index.unwrap_or(0) as int;
                let lim = limit.unwrap_or(self.last_dispute_id) as int;
                let end = if from + lim < self.last_dispute_id { from + lim } else { self.last_dispute_id as int };
                &&& r@.len() == (if end > from { end - from } else { 0 })
                &&& forall|k: int| 0 <= k < r@.len() ==> (#[trigger] r@[k]).0 == from + k && *r@[k].1 == self.disputes@[from + k]
            }),
    {
        let from = match from_index { Some(f) => f, None => 0 };
        let lim = match limit { Some(l) => l, None => self.last_dispute_id };
        let end: u64 = if from + lim < self.last_dispute_id { from + lim } else { self.last_dispute_id };
        let mut r: Vec<(DisputeIndex, &Dispute)> = Vec::new();
        if end <= from {
            return r;
        }
        let mut id = from;
        while id < end
            invariant
                from <= id <= end,
                end <= self.last_dispute_id,
                self.disputes@.len() == self.last_dispute_id,
                r@.len() == id - from,
                forall|k: int| 0 <= k < r@.len() ==> (#[trigger] r@[k]).0 == from + k && *r@[k].1 == self.disputes@[from + k],
            decreases end - id,
        {
            let ghost old_r = r@;
            assert(id < self.disputes.len());
            let d = &self.disputes[id as usize];
            r.push((id, d));
            assert forall|k: int| 0 <= k < r@.len() implies (#[trigger] r@[k]).0 == from + k && *r@[k].1 == self.disputes@[from + k] by {
                if k < old_r.len() {
                    assert(r@[k] == old_r[k]);
                }
            }
            id = id + 1;
        }
        r
    }
}

/// The ids among `ids` below `n`, in order.
pub open spec fn known_ids(ids: Seq<DisputeIndex>, n: int) -> Seq<DisputeIndex>
    decreases ids.len(),
{
    if ids.len() == 0 {
        Seq::empty()
    } else if ids.last() < n {
        known_ids(ids.drop_last(), n).push(ids.last())
    } else {
        known_ids(ids.drop_last(), n)
    }
}

} // verus!
