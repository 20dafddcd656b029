//! The reputation contract: counters, per account, of what happened to the
//! bounties it owns and the claims it made, fed by the bounties contract.
use vstd::prelude::*;
use crate::accounts::{
    AccountId, has_account, contains_account, copy_accounts, set_insert_all, set_remove_all,
    requested_accounts, resolve_accounts, insert_accounts, remove_accounts,
    lemma_insert_all_keeps_nonempty, named, unique_names, lookup, store, page, lemma_store,
    lookup_entry, store_entry, page_of_entries,
};
use crate::bounties::effects::CallContext;

verus! {

/// What a claimant has done.
#[derive(Clone, Copy, Debug, PartialEq, Eq, Structural)]
pub struct ClaimerMetrics {
    /// Claims created.
    pub number_of_claims: u64,
    /// Claims accepted.
    pub number_of_accepted_claims: u64,
    /// Claims completed.
    pub number_of_successful_claims: u64,
    /// Claims whose result was not accepted in the end.
    pub number_of_unsuccessful_claims: u64,
    /// Claims that ran out of time.
    pub number_of_overdue_claims: u64,
    /// Claims the claimant gave up.
    pub number_of_canceled_claims: u64,
    /// Disputes opened.
    pub number_of_open_disputes: u64,
    /// Disputes won.
    pub number_of_disputes_won: u64,
}

/// What has happened to the bounties of an owner.
#[derive(Clone, Copy, Debug, PartialEq, Eq, Structural)]
pub struct BountyOwnerMetrics {
    /// Bounties created.
    pub number_of_bounties: u64,
    /// Bounties completed.
    pub number_of_successful_bounties: u64,
    /// Bounties canceled.
    pub number_of_canceled_bounties: u64,
    /// Claims made on the owner's bounties.
    pub number_of_claims: u64,
    /// Claimants approved.
    pub number_of_approved_claimers: u64,
    /// Claims whose result was approved.
    pub number_of_approved_claims: u64,
    /// Claims whose result was rejected.
    pub number_of_rejected_claims: u64,
    /// Disputes opened on the owner's bounties.
    pub number_of_open_disputes: u64,
    /// Disputes won.
    pub number_of_disputes_won: u64,
}

/// An event that the bounties contract reports.
#[derive(Clone, Copy, Debug, PartialEq, Eq, Structural)]
pub enum ActionKind {
    BountyCreated,
    BountyCancelled,
    ClaimCreated,
    ClaimCancelled,
    ClaimerApproved,
    ClaimExpired,
    SuccessfulClaim { with_dispute: bool },
    UnsuccessfulClaim { with_dispute: bool },
}

/// Why the reputation contract refuses a request.
#[derive(Clone, Copy, Debug, PartialEq, Eq, Structural)]
pub enum ReputationError {
    /// A new contract needs at least one admin.
    NoAdmins,
    /// Events come from the bounties contract only.
    NotBountiesContract,
    /// This event names the bounty owner and no claimant.
    OwnerOnlyEvent,
    /// This event names the claimant and no bounty owner.
    ClaimerOnlyEvent,
    /// This event names both the claimant and the bounty owner.
    ClaimerAndOwnerEvent,
    /// A counter would pass its largest value.
    CounterOverflow,
    /// The call must carry exactly one yoctoNEAR.
    OneYoctoRequired,
    /// The caller is no admin.
    NotAdmin,
    /// The request names neither an account nor a list of accounts.
    ExpectedAccounts,
    /// At least one admin must remain.
    RemovingAllAdmins,
}

impl ReputationError {
    /// The text of the message the contract fails with.
    pub open spec fn text(&self) -> Seq<char> {
        match self {
            ReputationError::NoAdmins => "Admin whitelist must contain at least one account"@,
            ReputationError::NotBountiesContract => "Only a bounties contract can call this method"@,
            ReputationError::OwnerOnlyEvent => "Bounty owner is required and Claimer is not required"@,
            ReputationError::ClaimerOnlyEvent => "Claimer is required and Bounty owner is not required"@,
            ReputationError::ClaimerAndOwnerEvent => "Claimer and bounty owner required"@,
            ReputationError::CounterOverflow => "Counter overflow"@,
            ReputationError::OneYoctoRequired => "Requires attached deposit of exactly 1 yoctoNEAR"@,
            ReputationError::NotAdmin => "Not in admin whitelist"@,
            ReputationError::ExpectedAccounts => "Expected either account_id or account_ids"@,
            ReputationError::RemovingAllAdmins => "Cannot remove all accounts from admin whitelist"@,
        }
    }

    /// The message the contract fails with.
    pub fn message(&self) -> (r: &'static str)
        ensures
            r@ == self.text(),
    {
        match self {
            ReputationError::NoAdmins => "Admin whitelist must contain at least one account",
            ReputationError::NotBountiesContract => "Only a bounties contract can call this method",
            ReputationError::OwnerOnlyEvent => "Bounty owner is required and Claimer is not required",
            ReputationError::ClaimerOnlyEvent => "Claimer is required and Bounty owner is not required",
            ReputationError::ClaimerAndOwnerEvent => "Claimer and bounty owner required",
            ReputationError::CounterOverflow => "Counter overflow",
            ReputationError::OneYoctoRequired => "Requires attached deposit of exactly 1 yoctoNEAR",
            ReputationError::NotAdmin => "Not in admin whitelist",
            ReputationError::ExpectedAccounts => "Expected either account_id or account_ids",
            ReputationError::RemovingAllAdmins => "Cannot remove all accounts from admin whitelist",
        }
    }
}

/// `x + d`, unless it passes the largest `u64`.
fn add_count(x: u64, d: u64) -> (r: Option<u64>)
    ensures
        r is Some <==> x + d <= u64::MAX,
        r matches Some(v) ==> v == x + d,
{
    x.checked_add(d)
}

impl ClaimerMetrics {
    pub open spec fn zero() -> ClaimerMetrics {
        ClaimerMetrics {
            number_of_claims: 0,
            number_of_accepted_claims: 0,
            number_of_successful_claims: 0,
            number_of_unsuccessful_claims: 0,
            number_of_overdue_claims: 0,
            number_of_canceled_claims: 0,
            number_of_open_disputes: 0,
            number_of_disputes_won: 0,
        }
    }

    /// Adding `d` field by field stays within `u64`.
    pub open spec fn fits(self, d: ClaimerMetrics) -> bool {
        &&& self.number_of_claims + d.number_of_claims <= u64::MAX
        &&& self.number_of_accepted_claims + d.number_of_accepted_claims <= u64::MAX
        &&& self.number_of_successful_claims + d.number_of_successful_claims <= u64::MAX
        &&& self.number_of_unsuccessful_claims + d.number_of_unsuccessful_claims <= u64::MAX
        &&& self.number_of_overdue_claims + d.number_of_overdue_claims <= u64::MAX
        &&& self.number_of_canceled_claims + d.number_of_canceled_claims <= u64::MAX
        &&& self.number_of_open_disputes + d.number_of_open_disputes <= u64::MAX
        &&& self.number_of_disputes_won + d.number_of_disputes_won <= u64::MAX
    }

    /// The field-by-field sum.
    pub open spec fn plus(self, d: ClaimerMetrics) -> ClaimerMetrics {
        ClaimerMetrics {
            number_of_claims: (self.number_of_claims + d.number_of_claims) as u64,
            number_of_accepted_claims: (self.number_of_accepted_claims + d.number_of_accepted_claims) as u64,
            number_of_successful_claims: (self.number_of_successful_claims + d.number_of_successful_claims) as u64,
            number_of_unsuccessful_claims: (self.number_of_unsuccessful_claims + d.number_of_unsuccessful_claims) as u64,
            number_of_overdue_claims: (self.number_of_overdue_claims + d.number_of_overdue_claims) as u64,
            number_of_canceled_claims: (self.number_of_canceled_claims + d.number_of_canceled_claims) as u64,
            number_of_open_disputes: (self.number_of_open_disputes + d.number_of_open_disputes) as u64,
            number_of_disputes_won: (self.number_of_disputes_won + d.number_of_disputes_won) as u64,
        }
    }

    /// No counter of `self` is below the same counter of `o`.
    pub open spec fn at_least(self, o: ClaimerMetrics) -> bool {
        &&& self.number_of_claims >= o.number_of_claims
        &&& self.number_of_accepted_claims >= o.number_of_accepted_claims
        &&& self.number_of_successful_claims >= o.number_of_successful_claims
        &&& self.number_of_unsuccessful_claims >= o.number_of_unsuccessful_claims
        &&& self.number_of_overdue_claims >= o.number_of_overdue_claims
        &&& self.number_of_canceled_claims >= o.number_of_canceled_claims
        &&& self.number_of_open_disputes >= o.number_of_open_disputes
        &&& self.number_of_disputes_won >= o.number_of_disputes_won
    }

    /// The field-by-field sum, or none where a counter would overflow.
    pub fn checked_plus(&self, d: &ClaimerMetrics) -> (r: Option<ClaimerMetrics>)
        ensures
            r is Some <==> self.fits(*d),
            r matches Some(m) ==> m == self.plus(*d),
    {
        let a = add_count(self.number_of_claims, d.number_of_claims)?;
        let b = add_count(self.number_of_accepted_claims, d.number_of_accepted_claims)?;
        let c = add_count(self.number_of_successful_claims, d.number_of_successful_claims)?;
        let e = add_count(self.number_of_unsuccessful_claims, d.number_of_unsuccessful_claims)?;
        let f = add_count(self.number_of_overdue_claims, d.number_of_overdue_claims)?;
        let g = add_count(self.number_of_canceled_claims, d.number_of_canceled_claims)?;
        let h = add_count(self.number_of_open_disputes, d.number_of_open_disputes)?;
        let k = add_count(self.number_of_disputes_won, d.number_of_disputes_won)?;
        Some(ClaimerMetrics {
            number_of_claims: a,
            number_of_accepted_claims: b,
            number_of_successful_claims: c,
            number_of_unsuccessful_claims: e,
            number_of_overdue_claims: f,
            number_of_canceled_claims: g,
            number_of_open_disputes: h,
            number_of_disputes_won: k,
        })
    }
}

impl Default for ClaimerMetrics {
    fn default() -> (r: ClaimerMetrics)
        ensures
            r == ClaimerMetrics::zero(),
    {
        ClaimerMetrics {
            number_of_claims: 0,
            number_of_accepted_claims: 0,
            number_of_successful_claims: 0,
            number_of_unsuccessful_claims: 0,
            number_of_overdue_claims: 0,
            number_of_canceled_claims: 0,
            number_of_open_disputes: 0,
            number_of_disputes_won: 0,
        }
    }
}

impl BountyOwnerMetrics {
    pub open spec fn zero() -> BountyOwnerMetrics {
        BountyOwnerMetrics {
            number_of_bounties: 0,
            number_of_successful_bounties: 0,
            number_of_canceled_bounties: 0,
            number_of_claims: 0,
            number_of_approved_claimers: 0,
            number_of_approved_claims: 0,
            number_of_rejected_claims: 0,
            number_of_open_disputes: 0,
            number_of_disputes_won: 0,
        }
    }

    /// Adding `d` field by field stays within `u64`.
    pub open spec fn fits(self, d: BountyOwnerMetrics) -> bool {
        &&& self.number_of_bounties + d.number_of_bounties <= u64::MAX
        &&& self.number_of_successful_bounties + d.number_of_successful_bounties <= u64::MAX
        &&& self.number_of_canceled_bounties + d.number_of_canceled_bounties <= u64::MAX
        &&& self.number_of_claims + d.number_of_claims <= u64::MAX
        &&& self.number_of_approved_claimers + d.number_of_approved_claimers <= u64::MAX
        &&& self.number_of_approved_claims + d.number_of_approved_claims <= u64::MAX
        &&& self.number_of_rejected_claims + d.number_of_rejected_claims <= u64::MAX
        &&& self.number_of_open_disputes + d.number_of_open_disputes <= u64::MAX
        &&& self.number_of_disputes_won + d.number_of_disputes_won <= u64::MAX
    }

    /// The field-by-field sum.
    pub open spec fn plus(self, d: BountyOwnerMetrics) -> BountyOwnerMetrics {
        BountyOwnerMetrics {
            number_of_bounties: (self.number_of_bounties + d.number_of_bounties) as u64,
            number_of_successful_bounties: (self.number_of_successful_bounties + d.number_of_successful_bounties) as u64,
            number_of_canceled_bounties: (self.number_of_canceled_bounties + d.number_of_canceled_bounties) as u64,
            number_of_claims: (self.number_of_claims + d.number_of_claims) as u64,
            number_of_approved_claimers: (self.number_of_approved_claimers + d.number_of_approved_claimers) as u64,
            number_of_approved_claims: (self.number_of_approved_claims + d.number_of_approved_claims) as u64,
            number_of_rejected_claims: (self.number_of_rejected_claims + d.number_of_rejected_claims) as u64,
            number_of_open_disputes: (self.number_of_open_disputes + d.number_of_open_disputes) as u64,
            number_of_disputes_won: (self.number_of_disputes_won + d.number_of_disputes_won) as u64,
        }
    }

    /// No counter of `self` is below the same counter of `o`.
    pub open spec fn at_least(self, o: BountyOwnerMetrics) -> bool {
        &&& self.number_of_bounties >= o.number_of_bounties
        &&& self.number_of_successful_bounties >= o.number_of_successful_bounties
        &&& self.number_of_canceled_bounties >= o.number_of_canceled_bounties
        &&& self.number_of_claims >= o.number_of_claims
        &&& self.number_of_approved_claimers >= o.number_of_approved_claimers
        &&& self.number_of_approved_claims >= o.number_of_approved_claims
        &&& self.number_of_rejected_claims >= o.number_of_rejected_claims
        &&& self.number_of_open_disputes >= o.number_of_open_disputes
        &&& self.number_of_disputes_won >= o.number_of_disputes_won
    }

    /// The field-by-field sum, or none where a counter would overflow.
    pub fn checked_plus(&self, d: &BountyOwnerMetrics) -> (r: Option<BountyOwnerMetrics>)
        ensures
            r is Some <==> self.fits(*d),
            r matches Some(m) ==> m == self.plus(*d),
    {
        let a = add_count(self.number_of_bounties, d.number_of_bounties)?;
        let b = add_count(self.number_of_successful_bounties, d.number_of_successful_bounties)?;
        let c = add_count(self.number_of_canceled_bounties, d.number_of_canceled_bounties)?;
        let e = add_count(self.number_of_claims, d.number_of_claims)?;
        let f = add_count(self.number_of_approved_claimers, d.number_of_approved_claimers)?;
        let g = add_count(self.number_of_approved_claims, d.number_of_approved_claims)?;
        let h = add_count(self.number_of_rejected_claims, d.number_of_rejected_claims)?;
        let k = add_count(self.number_of_open_disputes, d.number_of_open_disputes)?;
        let l = add_count(self.number_of_disputes_won, d.number_of_disputes_won)?;
        Some(BountyOwnerMetrics {
            number_of_bounties: a,
            number_of_successful_bounties: b,
            number_of_canceled_bounties: c,
            number_of_claims: e,
            number_of_approved_claimers: f,
            number_of_approved_claims: g,
            number_of_rejected_claims: h,
            number_of_open_disputes: k,
            number_of_disputes_won: l,
        })
    }
}

impl Default for BountyOwnerMetrics {
    fn default() -> (r: BountyOwnerMetrics)
        ensures
            r == BountyOwnerMetrics::zero(),
    {
        BountyOwnerMetrics {
            number_of_bounties: 0,
            number_of_successful_bounties: 0,
            number_of_canceled_bounties: 0,
            number_of_claims: 0,
            number_of_approved_claimers: 0,
            number_of_approved_claims: 0,
            number_of_rejected_claims: 0,
            number_of_open_disputes: 0,
            number_of_disputes_won: 0,
        }
    }
}

/// Events about a bounty alone: they name its owner and no claimant.
pub open spec fn owner_only(kind: ActionKind) -> bool {
    kind is BountyCreated || kind is BountyCancelled
}

/// Events about a claim alone: they name its claimant and no bounty owner.
pub open spec fn claimer_only(kind: ActionKind) -> bool {
    kind is ClaimCancelled || kind is ClaimExpired
}

pub open spec fn flag(b: bool) -> u64 {
    if b { 1 } else { 0 }
}

/// What an event adds to the counters of the claimant.
pub open spec fn claimer_increments(kind: ActionKind) -> ClaimerMetrics {
    let z = ClaimerMetrics::zero();
    match kind {
        ActionKind::ClaimCreated => ClaimerMetrics { number_of_claims: 1, ..z },
        ActionKind::ClaimerApproved => ClaimerMetrics { number_of_accepted_claims: 1, ..z },
        ActionKind::ClaimCancelled => ClaimerMetrics { number_of_canceled_claims: 1, ..z },
        ActionKind::ClaimExpired => ClaimerMetrics { number_of_overdue_claims: 1, ..z },
        ActionKind::SuccessfulClaim { with_dispute } => ClaimerMetrics {
            number_of_successful_claims: 1,
            number_of_open_disputes: flag(with_dispute),
            number_of_disputes_won: flag(with_dispute),
            ..z
        },
        ActionKind::UnsuccessfulClaim { with_dispute } => ClaimerMetrics {
            number_of_unsuccessful_claims: 1,
            number_of_open_disputes: flag(with_dispute),
            ..z
        },
        _ => z,
    }
}

/// What an event adds to the counters of the bounty owner.
pub open spec fn owner_increments(kind: ActionKind) -> BountyOwnerMetrics {
    let z = BountyOwnerMetrics::zero();
    match kind {
        ActionKind::BountyCreated => BountyOwnerMetrics { number_of_bounties: 1, ..z },
        ActionKind::ClaimCreated => BountyOwnerMetrics { number_of_claims: 1, ..z },
        ActionKind::ClaimerApproved => BountyOwnerMetrics { number_of_approved_claimers: 1, ..z },
        ActionKind::BountyCancelled => BountyOwnerMetrics { number_of_canceled_bounties: 1, ..z },
        ActionKind::SuccessfulClaim { with_dispute } => BountyOwnerMetrics {
            number_of_successful_bounties: 1,
            number_of_approved_claims: flag(!with_dispute),
            number_of_rejected_claims: flag(with_dispute),
            number_of_open_disputes: flag(with_dispute),
            ..z
        },
        ActionKind::UnsuccessfulClaim { with_dispute } => BountyOwnerMetrics {
            number_of_rejected_claims: 1,
            number_of_open_disputes: flag(with_dispute),
            number_of_disputes_won: flag(with_dispute),
            ..z
        },
        _ => z,
    }
}

fn claimer_delta(kind: ActionKind) -> (r: ClaimerMetrics)
    ensures
        r == claimer_increments(kind),
{
    let mut m = ClaimerMetrics::default();
    match kind {
        ActionKind::ClaimCreated => { m.number_of_claims = 1; },
        ActionKind::ClaimerApproved => { m.number_of_accepted_claims = 1; },
        ActionKind::ClaimCancelled => { m.number_of_canceled_claims = 1; },
        ActionKind::ClaimExpired => { m.number_of_overdue_claims = 1; },
        ActionKind::SuccessfulClaim { with_dispute } => {
            m.number_of_successful_claims = 1;
            if with_dispute {
                m.number_of_open_disputes = 1;
                m.number_of_disputes_won = 1;
            }
        },
        ActionKind::UnsuccessfulClaim { with_dispute } => {
            m.number_of_unsuccessful_claims = 1;
            if with_dispute {
                m.number_of_open_disputes = 1;
            }
        },
        _ => {},
    }
    m
}

fn owner_delta(kind: ActionKind) -> (r: BountyOwnerMetrics)
    ensures
        r == owner_increments(kind),
{
    let mut m = BountyOwnerMetrics::default();
    match kind {
        ActionKind::BountyCreated => { m.number_of_bounties = 1; },
        ActionKind::ClaimCreated => { m.number_of_claims = 1; },
        ActionKind::ClaimerApproved => { m.number_of_approved_claimers = 1; },
        ActionKind::BountyCancelled => { m.number_of_canceled_bounties = 1; },
        ActionKind::SuccessfulClaim { with_dispute } => {
            m.number_of_successful_bounties = 1;
            if with_dispute {
                m.number_of_rejected_claims = 1;
                m.number_of_open_disputes = 1;
            } else {
                m.number_of_approved_claims = 1;
            }
        },
        ActionKind::UnsuccessfulClaim { with_dispute } => {
            m.number_of_rejected_claims = 1;
            if with_dispute {
                m.number_of_open_disputes = 1;
                m.number_of_disputes_won = 1;
            }
        },
        _ => {},
    }
    m
}

/// The counters of the reputation contract, each list in the order in which its
/// accounts first appeared.
pub struct ReputationContract {
    /// The only account whose events are counted.
    pub bounties_contract: AccountId,
    pub claimers_entries: Vec<(AccountId, ClaimerMetrics)>,
    pub bounty_owners_entries: Vec<(AccountId, BountyOwnerMetrics)>,
    /// Accounts that may manage the admins and change the bounties contract.
    pub admin_whitelist: Vec<AccountId>,
}

impl ReputationContract {
    /// One entry per account in each list, and at least one admin.
    pub open spec fn wf(&self) -> bool {
        &&& unique_names(named(self.claimers_entries@))
        &&& unique_names(named(self.bounty_owners_entries@))
        &&& self.admin_whitelist@.len() > 0
    }

    /// The counters of `account` as a claimant (zero where it has none).
    pub open spec fn claimer_metrics(&self, account: Seq<char>) -> ClaimerMetrics {
        match lookup(named(self.claimers_entries@), account) {
            Some(m) => m,
            None => ClaimerMetrics::zero(),
        }
    }

    /// The counters of `account` as a bounty owner (zero where it has none).
    pub open spec fn owner_metrics(&self, account: Seq<char>) -> BountyOwnerMetrics {
        match lookup(named(self.bounty_owners_entries@), account) {
            Some(m) => m,
            None => BountyOwnerMetrics::zero(),
        }
    }

    /// A contract that counts the events of `bounties_contract`; refused without an admin.
    pub fn new(bounties_contract: AccountId, admin_whitelist: Vec<AccountId>) -> (r: Result<ReputationContract, ReputationError>)
        ensures
            r is Err <==> admin_whitelist@.len() == 0,
            r matches Err(e) ==> e == ReputationError::NoAdmins,
            r matches Ok(c) ==> {
                &&& c.wf()
                &&& c.bounties_contract == bounties_contract
                &&& c.claimers_entries@.len() == 0
                &&& c.bounty_owners_entries@.len() == 0
                &&& c.admin_whitelist@ == set_insert_all(Seq::empty(), admin_whitelist@)
            },
    {
        if admin_whitelist.len() == 0 {
            return Err(ReputationError::NoAdmins);
        }
        let mut admins: Vec<AccountId> = Vec::new();
        insert_accounts(&mut admins, &admin_whitelist);
        proof { lemma_insert_all_keeps_nonempty(Seq::empty(), admin_whitelist@); }
        Ok(ReputationContract {
            bounties_contract,
            claimers_entries: Vec::new(),
            bounty_owners_entries: Vec::new(),
            admin_whitelist: admins,
        })
    }

    /// The counters of `account`, as a claimant and as a bounty owner, where it has them.
    pub fn get_statistics(&self, account_id: &AccountId) -> (r: (Option<ClaimerMetrics>, Option<BountyOwnerMetrics>))
        requires
            self.wf(),
        ensures
            r.0 == lookup(named(self.claimers_entries@), account_id@),
            r.1 == lookup(named(self.bounty_owners_entries@), account_id@),
    {
        (lookup_entry(&self.claimers_entries, account_id), lookup_entry(&self.bounty_owners_entries, account_id))
    }

    pub fn get_bounties_contract_account_id(&self) -> (r: AccountId)
        ensures
            r@ == self.bounties_contract@,
    {
        self.bounties_contract.clone()
    }

    /// The claimants' counters from position `from_index` (0 if not given) on, at most
    /// `limit` of them (all if not given).
    pub fn get_claimers_entries(&self, from_index: Option<u64>, limit: Option<u64>) -> (r: Vec<(AccountId, ClaimerMetrics)>)
        requires
            from_index.unwrap_or(0) + limit.unwrap_or(self.claimers_entries@.len() as u64) <= u64::MAX,
        ensures
            named(r@) == page(
                named(self.claimers_entries@),
                from_index.unwrap_or(0) as int,
                limit.unwrap_or(self.claimers_entries@.len() as u64) as int,
            ),
    {
        let from = match from_index {
            Some(f) => f,
            None => 0,
        };
        let limit = match limit {
            Some(l) => l,
            None => self.claimers_entries.len() as u64,
        };
        page_of_entries(&self.claimers_entries, from, limit)
    }

    pub fn get_num_claimers_entries(&self) -> (r: u64)
        ensures
            r == self.claimers_entries@.len(),
    {
        self.claimers_entries.len() as u64
    }

    /// The owners' counters from position `from_index` (0 if not given) on, at most
    /// `limit` of them (all if not given).
    pub fn get_bounty_owners_entries(&self, from_index: Option<u64>, limit: Option<u64>) -> (r: Vec<(AccountId, BountyOwnerMetrics)>)
        requires
            from_index.unwrap_or(0) + limit.unwrap_or(self.bounty_owners_entries@.len() as u64) <= u64::MAX,
        ensures
            named(r@) == page(
                named(self.bounty_owners_entries@),
                from_index.unwrap_or(0) as int,
                limit.unwrap_or(self.bounty_owners_entries@.len() as u64) as int,
            ),
    {
        let from = match from_index {
            Some(f) => f,
            None => 0,
        };
        let limit = match limit {
            Some(l) => l,
            None => self.bounty_owners_entries.len() as u64,
        };
        page_of_entries(&self.bounty_owners_entries, from, limit)
    }

    pub fn get_num_bounty_owners_entries(&self) -> (r: u64)
        ensures
            r == self.bounty_owners_entries@.len(),
    {
        self.bounty_owners_entries.len() as u64
    }

    pub fn get_admin_whitelist(&self) -> (r: Vec<AccountId>)
        ensures
            r@ == self.admin_whitelist@,
    {
        copy_accounts(&self.admin_whitelist)
    }

    /// The first reason why the event `kind` about `claimer` and `bounty_owner`,
    /// reported by `ctx`, is refused.
    pub open spec fn emit_error(
        &self,
        ctx: CallContext,
        claimer: Option<AccountId>,
        bounty_owner: Option<AccountId>,
        kind: ActionKind,
    ) -> Option<ReputationError> {
        if ctx.predecessor@ != self.bounties_contract@ {
            Some(ReputationError::NotBountiesContract)
        } else if owner_only(kind) && !(bounty_owner is Some && claimer is None) {
            Some(ReputationError::OwnerOnlyEvent)
        } else if claimer_only(kind) && !(bounty_owner is None && claimer is Some) {
            Some(ReputationError::ClaimerOnlyEvent)
        } else if !owner_only(kind) && !claimer_only(kind) && !(bounty_owner is Some && claimer is Some) {
            Some(ReputationError::ClaimerAndOwnerEvent)
        } else if !owner_only(kind) && !self.claimer_metrics(claimer->0@).fits(claimer_increments(kind)) {
            Some(ReputationError::CounterOverflow)
        } else if !claimer_only(kind) && !self.owner_metrics(bounty_owner->0@).fits(owner_increments(kind)) {
            Some(ReputationError::CounterOverflow)
        } else {
            None
        }
    }

    /// The claimants' counters after the event `kind` about `claimer`.
    pub open spec fn claimers_after(&self, claimer: Option<AccountId>, kind: ActionKind) -> Seq<(Seq<char>, ClaimerMetrics)> {
        if owner_only(kind) {
            named(self.claimers_entries@)
        } else {
            store(
                named(self.claimers_entries@),
                claimer->0@,
                self.claimer_metrics(claimer->0@).plus(claimer_increments(kind)),
            )
        }
    }

    /// The owners' counters after the event `kind` about `bounty_owner`.
    pub open spec fn owners_after(&self, bounty_owner: Option<AccountId>, kind: ActionKind) -> Seq<(Seq<char>, BountyOwnerMetrics)> {
        if claimer_only(kind) {
            named(self.bounty_owners_entries@)
        } else {
            store(
                named(self.bounty_owners_entries@),
                bounty_owner->0@,
                self.owner_metrics(bounty_owner->0@).plus(owner_increments(kind)),
            )
        }
    }

    /// The bounties contract reports the event `kind`: the counters of the accounts
    /// it names grow by what the event adds.
    pub fn emit(
        &mut self,
        ctx: &CallContext,
        claimer: Option<AccountId>,
        bounty_owner: Option<AccountId>,
        action_kind: ActionKind,
    ) -> (r: Result<(), ReputationError>)
        requires
            old(self).wf(),
        ensures
            final(self).wf(),
            r is Err <==> old(self).emit_error(*ctx, claimer, bounty_owner, action_kind) is Some,
            r matches Err(e) ==> old(self).emit_error(*ctx, claimer, bounty_owner, action_kind) == Some(e)
                && *final(self) == *old(self),
            r is Ok ==> named(final(self).claimers_entries@) == old(self).claimers_after(claimer, action_kind)
                && named(final(self).bounty_owners_entries@) == old(self).owners_after(bounty_owner, action_kind)
                && final(self).bounties_contract == old(self).bounties_contract
                && final(self).admin_whitelist == old(self).admin_whitelist,
    {
        if ctx.predecessor != self.bounties_contract {
            return Err(ReputationError::NotBountiesContract);
        }
        let without_claimer = match action_kind {
            ActionKind::BountyCreated | ActionKind::BountyCancelled => true,
            _ => false,
        };
        let without_bounty_owner = match action_kind {
            ActionKind::ClaimCancelled | ActionKind::ClaimExpired => true,
            _ => false,
        };
        if without_claimer && !(bounty_owner.is_some() && claimer.is_none()) {
            return Err(ReputationError::OwnerOnlyEvent);
        }
        if without_bounty_owner && !(bounty_owner.is_none() && claimer.is_some()) {
            return Err(ReputationError::ClaimerOnlyEvent);
        }
        if !without_claimer && !without_bounty_owner && !(bounty_owner.is_some() && claimer.is_some()) {
            return Err(ReputationError::ClaimerAndOwnerEvent);
        }
        let claimer_metrics = match &claimer {
            Some(a) if !without_claimer => {
                let current = match lookup_entry(&self.claimers_entries, a) {
                    Some(m) => m,
                    None => ClaimerMetrics::default(),
                };
                match current.checked_plus(&claimer_delta(action_kind)) {
                    Some(m) => Some(m),
                    None => { return Err(ReputationError::CounterOverflow); },
                }
            },
            _ => None,
        };
        let owner_metrics = match &bounty_owner {
            Some(a) if !without_bounty_owner => {
                let current = match lookup_entry(&self.bounty_owners_entries, a) {
                    Some(m) => m,
                    None => BountyOwnerMetrics::default(),
                };
                match current.checked_plus(&owner_delta(action_kind)) {
                    Some(m) => Some(m),
                    None => { return Err(ReputationError::CounterOverflow); },
                }
            },
            _ => None,
        };
        match (&claimer, claimer_metrics) {
            (Some(a), Some(m)) => { store_entry(&mut self.claimers_entries, a, m); },
            _ => {},
        }
        match (&bounty_owner, owner_metrics) {
            (Some(a), Some(m)) => { store_entry(&mut self.bounty_owners_entries, a, m); },
            _ => {},
        }
        Ok(())
    }

    /// The first reason why an admin call of `ctx` is refused.
    pub open spec fn admin_call_error(&self, ctx: CallContext) -> Option<ReputationError> {
        if ctx.attached_deposit != 1 {
            Some(ReputationError::OneYoctoRequired)
        } else if !has_account(self.admin_whitelist@, ctx.predecessor@) {
            Some(ReputationError::NotAdmin)
        } else {
            None
        }
    }

    fn check_admin_call(&self, ctx: &CallContext) -> (r: Result<(), ReputationError>)
        ensures
            r is Err <==> self.admin_call_error(*ctx) is Some,
            r matches Err(e) ==> self.admin_call_error(*ctx) == Some(e),
    {
        if ctx.attached_deposit != 1 {
            return Err(ReputationError::OneYoctoRequired);
        }
        if !contains_account(&self.admin_whitelist, &ctx.predecessor) {
            return Err(ReputationError::NotAdmin);
        }
        Ok(())
    }

    /// An admin adds accounts to the admins.
    pub fn add_to_admin_whitelist(
        &mut self,
        ctx: &CallContext,
        account_id: Option<AccountId>,
        account_ids: Option<Vec<AccountId>>,
    ) -> (r: Result<(), ReputationError>)
        requires
            old(self).wf(),
        ensures
            final(self).wf(),
            r is Err <==> old(self).admin_call_error(*ctx) is Some || requested_accounts(account_id, account_ids) is None,
            r matches Err(e) ==> e == (match old(self).admin_call_error(*ctx) {
                Some(e) => e,
                None => ReputationError::ExpectedAccounts,
            }),
            r is Err ==> *final(self) == *old(self),
            r is Ok ==> *final(self) == (ReputationContract { admin_whitelist: final(self).admin_whitelist, ..*old(self) }),
            r is Ok ==> final(self).admin_whitelist@ == set_insert_all(
                old(self).admin_whitelist@,
                requested_accounts(account_id, account_ids)->0,
            ),
    {
        self.check_admin_call(ctx)?;
        let list = match resolve_accounts(account_id, account_ids) {
            Some(l) => l,
            None => { return Err(ReputationError::ExpectedAccounts); },
        };
        let ghost before = self.admin_whitelist@;
        insert_accounts(&mut self.admin_whitelist, &list);
        proof { lemma_insert_all_keeps_nonempty(before, list@); }
        Ok(())
    }

    /// An admin removes accounts from the admins; at least one admin must remain.
    pub fn remove_from_admin_whitelist(
        &mut self,
        ctx: &CallContext,
        account_id: Option<AccountId>,
        account_ids: Option<Vec<AccountId>>,
    ) -> (r: Result<(), ReputationError>)
        requires
            old(self).wf(),
        ensures
            final(self).wf(),
            r is Err <==> old(self).admin_call_error(*ctx) is Some
                || requested_accounts(account_id, account_ids) is None
                || set_remove_all(old(self).admin_whitelist@, requested_accounts(account_id, account_ids)->0).len() == 0,
            r matches Err(e) ==> e == (match old(self).admin_call_error(*ctx) {
                Some(e) => e,
                None => if requested_accounts(account_id, account_ids) is None {
                    ReputationError::ExpectedAccounts
                } else {
                    ReputationError::RemovingAllAdmins
                },
            }),
            r is Err ==> *final(self) == *old(self),
            r is Ok ==> *final(self) == (ReputationContract { admin_whitelist: final(self).admin_whitelist, ..*old(self) }),
            r is Ok ==> final(self).admin_whitelist@ == set_remove_all(
                old(self).admin_whitelist@,
                requested_accounts(account_id, account_ids)->0,
            ),
    {
        self.check_admin_call(ctx)?;
        let list = match resolve_accounts(account_id, account_ids) {
            Some(l) => l,
            None => { return Err(ReputationError::ExpectedAccounts); },
        };
        let mut admins = copy_accounts(&self.admin_whitelist);
        remove_accounts(&mut admins, &list);
        if admins.len() == 0 {
            return Err(ReputationError::RemovingAllAdmins);
        }
        self.admin_whitelist = admins;
        Ok(())
    }

    /// An admin points the contract at another bounties contract.
    pub fn update_bounties_contract(&mut self, ctx: &CallContext, bounties_contract: AccountId) -> (r: Result<(), ReputationError>)
        ensures
            r is Err <==> old(self).admin_call_error(*ctx) is Some,
            r matches Err(e) ==> old(self).admin_call_error(*ctx) == Some(e) && *final(self) == *old(self),
            r is Ok ==> *final(self) == (ReputationContract { bounties_contract, ..*old(self) }),
    {
        self.check_admin_call(ctx)?;
        self.bounties_contract = bounties_contract;
        Ok(())
    }
}


/// An accepted event never lowers a counter nor drops an account: every account keeps
/// an entry with counters at least as high as before, and the accounts the event does
/// not name keep exactly the counters they had.
pub proof fn lemma_emit_only_adds(
    c: ReputationContract,
    ctx: CallContext,
    claimer: Option<AccountId>,
    bounty_owner: Option<AccountId>,
    kind: ActionKind,
    account: Seq<char>,
)
    requires
        c.wf(),
        c.emit_error(ctx, claimer, bounty_owner, kind) is None,
    ensures
        lookup(named(c.claimers_entries@), account) matches Some(m) ==> (
            lookup(c.claimers_after(claimer, kind), account) matches Some(n) && n.at_least(m)),
        lookup(named(c.bounty_owners_entries@), account) matches Some(m) ==> (
            lookup(c.owners_after(bounty_owner, kind), account) matches Some(n) && n.at_least(m)),
        (owner_only(kind) || claimer->0@ != account) ==>
            lookup(c.claimers_after(claimer, kind), account) == lookup(named(c.claimers_entries@), account),
        (claimer_only(kind) || bounty_owner->0@ != account) ==>
            lookup(c.owners_after(bounty_owner, kind), account) == lookup(named(c.bounty_owners_entries@), account),
{
    if !owner_only(kind) {
        lemma_store(
            named(c.claimers_entries@),
            claimer->0@,
            c.claimer_metrics(claimer->0@).plus(claimer_increments(kind)),
            account,
        );
    }
    if !claimer_only(kind) {
        lemma_store(
            named(c.bounty_owners_entries@),
            bounty_owner->0@,
            c.owner_metrics(bounty_owner->0@).plus(owner_increments(kind)),
            account,
        );
    }
}

} // verus!
