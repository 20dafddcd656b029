//! Where the claims of the bounties contract are kept, and how they are found and saved.
use vstd::prelude::*;
use crate::accounts::{AccountId, has_account, contains_account};
use super::types::{BountyIndex, ClaimStatus, DEFAULT_BOUNTY_CLAIM_BOND};
use super::bounty::Bounty;
use super::claim::BountyClaim;
use super::errors::BountyError;
use super::effects::Effect;
use super::contract::BountiesContract;

verus! {

/// Position `i` holds the first claim on bounty `id` in `claims`.
pub open spec fn claim_index(claims: Seq<BountyClaim>, id: BountyIndex, i: int) -> bool {
    &&& 0 <= i < claims.len()
    &&& claims[i].bounty_id == id
    &&& forall|j: int| 0 <= j < i ==> (#[trigger] claims[j]).bounty_id != id
}

pub open spec fn has_claim(claims: Seq<BountyClaim>, id: BountyIndex) -> bool {
    exists|i: int| 0 <= i < claims.len() && (#[trigger] claims[i]).bounty_id == id
}

/// The first claim on bounty `id` in `claims`, if any.
pub open spec fn claim_in(claims: Seq<BountyClaim>, id: BountyIndex) -> Option<BountyClaim> {
    if has_claim(claims, id) {
        Some(claims[choose|i: int| claim_index(claims, id, i)])
    } else {
        None
    }
}

/// There is only one first claim on bounty `id`: the position chosen for it is `i`.
pub proof fn lemma_claim_index_unique(claims: Seq<BountyClaim>, id: BountyIndex, i: int)
    requires
        claim_index(claims, id, i),
    ensures
        (choose|k: int| claim_index(claims, id, k)) == i,
{
    let k = choose|k: int| claim_index(claims, id, k);
    assert(k == i) by {
        if k < i { assert(claims[k].bounty_id != id); }
        if i < k { assert(claims[i].bounty_id != id); }
    }
}

pub proof fn lemma_claim_in(claims: Seq<BountyClaim>, id: BountyIndex, i: int)
    requires
        claim_index(claims, id, i),
    ensures
        claim_in(claims, id) == Some(claims[i]),
{
    lemma_claim_index_unique(claims, id, i);
}

/// Where some claim is on bounty `id`, one of them is the first.
pub proof fn lemma_first_claim(claims: Seq<BountyClaim>, id: BountyIndex) -> (i: int)
    requires
        has_claim(claims, id),
    ensures
        claim_index(claims, id, i),
    decreases claims.len(),
{
    let k = choose|k: int| 0 <= k < claims.len() && (#[trigger] claims[k]).bounty_id == id;
    if claims[0].bounty_id == id {
        0
    } else {
        let rest = claims.subrange(1, claims.len() as int);
        assert(rest[k - 1] == claims[k]);
        let j = lemma_first_claim(rest, id);
        assert forall|t: int| 0 <= t < j + 1 implies (#[trigger] claims[t]).bounty_id != id by {
            if t > 0 {
                assert(claims[t] == rest[t - 1]);
            }
        }
        assert(claims[j + 1] == rest[j]);
        j + 1
    }
}

/// Replacing the claim at the first position of claims on `id` with a claim on `id`
/// keeps it the first, and other bounties keep their first claims.
pub proof fn lemma_claim_in_update(claims: Seq<BountyClaim>, id: BountyIndex, i: int, c: BountyClaim, other: BountyIndex)
    requires
        claim_index(claims, id, i),
        c.bounty_id == id,
    ensures
        claim_in(claims.update(i, c), id) == Some(c),
        other != id ==> claim_in(claims.update(i, c), other) == claim_in(claims, other),
{
    let u = claims.update(i, c);
    assert(claim_index(u, id, i));
    lemma_claim_in(u, id, i);
    if other != id {
        if has_claim(claims, other) {
            let k = lemma_first_claim(claims, other);
            assert(claim_index(u, other, k));
            lemma_claim_in(claims, other, k);
            lemma_claim_in(u, other, k);
        } else {
            assert(!has_claim(u, other)) by {
                if has_claim(u, other) {
                    let k = choose|k: int| 0 <= k < u.len() && (#[trigger] u[k]).bounty_id == other;
                    assert(claims[k].bounty_id == other);
                }
            }
        }
    }
}

/// Appending a claim on a bounty that has none makes it the claim on that bounty, and
/// other bounties keep their first claims.
pub proof fn lemma_claim_in_push(claims: Seq<BountyClaim>, id: BountyIndex, c: BountyClaim, other: BountyIndex)
    requires
        !has_claim(claims, id),
        c.bounty_id == id,
    ensures
        claim_in(claims.push(c), id) == Some(c),
        other != id ==> claim_in(claims.push(c), other) == claim_in(claims, other),
{
    let u = claims.push(c);
    let n = claims.len() as int;
    assert(claim_index(u, id, n)) by {
        assert forall|j: int| 0 <= j < n implies (#[trigger] u[j]).bounty_id != id by {
            assert(u[j] == claims[j]);
        }
    }
    lemma_claim_in(u, id, n);
    if other != id {
        if has_claim(claims, other) {
            let k = lemma_first_claim(claims, other);
            assert(claim_index(u, other, k));
            lemma_claim_in(claims, other, k);
            lemma_claim_in(u, other, k);
        } else {
            assert(!has_claim(u, other)) by {
                if has_claim(u, other) {
                    let k = choose|k: int| 0 <= k < u.len() && (#[trigger] u[k]).bounty_id == other;
                    if k < n { assert(claims[k].bounty_id == other); }
                }
            }
        }
    }
}

/// The position of the first claim on bounty `id`.
pub fn find_claim(id: BountyIndex, claims: &Vec<BountyClaim>) -> (r: Option<usize>)
    ensures
        r matches Some(i) ==> claim_index(claims@, id, i as int),
        r is None <==> !has_claim(claims@, id),
{
    let mut i: usize = 0;
    while i < claims.len()
        invariant
            i <= claims@.len(),
            forall|j: int| 0 <= j < i ==> (#[trigger] claims@[j]).bounty_id != id,
        decreases claims@.len() - i,
    {
        if claims[i].bounty_id == id {
            return Some(i);
        }
        i = i + 1;
    }
    None
}

impl BountyClaim {
    /// A claim equal to this one.
    pub fn copy(&self) -> (r: BountyClaim)
        ensures
            r == *self,
    {
        BountyClaim {
            bounty_id: self.bounty_id,
            created_at: self.created_at,
            start_time: self.start_time,
            deadline: self.deadline,
            description: self.description.clone(),
            status: self.status,
            bounty_payout_proposal_id: self.bounty_payout_proposal_id,
            approve_claimer_proposal_id: self.approve_claimer_proposal_id,
            rejected_timestamp: self.rejected_timestamp,
            dispute_id: self.dispute_id,
            is_kyc_delayed: self.is_kyc_delayed,
            payment_timestamps: self.payment_timestamps,
            slot: self.slot,
            bond: self.bond,
        }
    }
}

/// A list of claims equal to `claims`.
pub fn copy_claims(claims: &Vec<BountyClaim>) -> (r: Vec<BountyClaim>)
    ensures
        r@ == claims@,
{
    let mut r: Vec<BountyClaim> = Vec::new();
    let mut i: usize = 0;
    while i < claims.len()
        invariant
            i <= claims@.len(),
            r@ == claims@.subrange(0, i as int),
        decreases claims@.len() - i,
    {
        r.push(claims[i].copy());
        i = i + 1;
        proof { assert(r@ =~= claims@.subrange(0, i as int)); }
    }
    proof { assert(r@ =~= claims@); }
    r
}

/// The bond of a claim; claims from before bonds were recorded paid the default bond.
pub open spec fn bond_of(bond: Option<u128>) -> u128 {
    match bond {
        Some(b) => b,
        None => DEFAULT_BOUNTY_CLAIM_BOND,
    }
}

impl BountiesContract {
    /// The claim of `account` on bounty `id`, if any.
    pub open spec fn claim_of(&self, account: Seq<char>, id: BountyIndex) -> Option<BountyClaim> {
        claim_in(self.claims_of(account), id)
    }

    /// The accounts that claimed bounty `id`.
    pub open spec fn claimants_of(&self, id: BountyIndex) -> Seq<AccountId> {
        if id < self.bounty_claimer_accounts@.len() {
            self.bounty_claimer_accounts@[id as int]@
        } else {
            Seq::empty()
        }
    }

    /// `self` differs from `old` at most in the claims of `account`, which are now `claims`.
    pub open spec fn saved_claims(&self, old: &Self, account: Seq<char>, claims: Seq<BountyClaim>) -> bool {
        &&& self.claims_of(account) == claims
        &&& forall|a: Seq<char>| a != account ==> #[trigger] self.claims_of(a) == old.claims_of(a)
        &&& *self == (BountiesContract { bounty_claimers: self.bounty_claimers, ..*old })
    }

    /// The claims of `account`, with the position of its claim on bounty `id`; refused
    /// where the account has no claims or none on that bounty.
    pub fn internal_get_claims(&self, id: BountyIndex, account: &AccountId) -> (r: Result<(Vec<BountyClaim>, usize), BountyError>)
        ensures
            r is Err <==> self.claim_of(account@, id) is None,
            r matches Err(e) ==> e == (if self.bounty_claimers@.contains_key(account@) {
                BountyError::NoClaim
            } else {
                BountyError::NoClaimer
            }),
            r matches Ok((claims, i)) ==> claims@ == self.claims_of(account@)
                && claim_index(claims@, id, i as int)
                && self.claim_of(account@, id) == Some(claims@[i as int]),
    {
        match self.bounty_claimers.get(account.as_str()) {
            Some(list) => {
                let claims = copy_claims(list);
                match find_claim(id, &claims) {
                    Some(i) => {
                        proof { lemma_claim_in(claims@, id, i as int); }
                        Ok((claims, i))
                    },
                    None => Err(BountyError::NoClaim),
                }
            },
            None => Err(BountyError::NoClaimer),
        }
    }

    /// Stores the claims of `account`; an account without claims is forgotten.
    pub fn internal_save_claims(&mut self, account: &AccountId, claims: Vec<BountyClaim>)
        ensures
            final(self).saved_claims(&*old(self), account@, claims@),
    {
        if claims.len() == 0 {
            self.bounty_claimers.remove(account.as_str());
            proof { assert(claims@ =~= Seq::<BountyClaim>::empty()); }
        } else {
            self.bounty_claimers.insert(account.clone(), claims);
        }
    }

    /// Lists `account` among the claimants of bounty `id`, once.
    pub fn internal_add_bounty_claimer_account(&mut self, id: BountyIndex, account: &AccountId)
        requires
            id < old(self).bounty_claimer_accounts@.len(),
        ensures
            final(self).bounty_claimer_accounts@.len() == old(self).bounty_claimer_accounts@.len(),
            forall|i: int| 0 <= i < old(self).bounty_claimer_accounts@.len() && i != id
                ==> (#[trigger] final(self).bounty_claimer_accounts@[i]) == old(self).bounty_claimer_accounts@[i],
            final(self).claimants_of(id) == (if has_account(old(self).claimants_of(id), account@) {
                old(self).claimants_of(id)
            } else {
                old(self).claimants_of(id).push(*account)
            }),
            *final(self) == (BountiesContract { bounty_claimer_accounts: final(self).bounty_claimer_accounts, ..*old(self) }),
    {
        let n = self.bounty_claimer_accounts.len();
        let idx = id as usize;
        if !contains_account(&self.bounty_claimer_accounts[idx], account) {
            let mut list = crate::accounts::copy_accounts(&self.bounty_claimer_accounts[idx]);
            list.push(account.clone());
            self.bounty_claimer_accounts.set(idx, list);
        }
    }

    /// Takes bounty `id` out of the list, to be put back with `put_bounty`.
    pub(crate) fn take_bounty(&mut self, id: BountyIndex) -> (b: Bounty)
        requires
            id < old(self).bounties@.len(),
        ensures
            b == old(self).bounties@[id as int],
            final(self).bounties@ == old(self).bounties@.remove(id as int),
            *final(self) == (BountiesContract { bounties: final(self).bounties, ..*old(self) }),
    {
        let n = self.bounties.len();
        self.bounties.remove(id as usize)
    }

    /// Puts bounty `id` back, after `take_bounty`.
    pub(crate) fn put_bounty(&mut self, id: BountyIndex, b: Bounty)
        requires
            id <= old(self).bounties@.len(),
        ensures
            final(self).bounties@ == old(self).bounties@.insert(id as int, b),
            *final(self) == (BountiesContract { bounties: final(self).bounties, ..*old(self) }),
    {
        let n = self.bounties.len();
        self.bounties.insert(id as usize, b);
    }

    /// Returns the bond of a claim to its claimant: a transfer, unless it is zero.
    pub(crate) fn internal_return_bonds(&mut self, receiver_id: &AccountId, bond: Option<u128>, effects: &mut Vec<Effect>)
        requires
            old(self).locked_amount >= bond_of(bond),
        ensures
            final(self).locked_amount == old(self).locked_amount - bond_of(bond),
            *final(self) == (BountiesContract { locked_amount: final(self).locked_amount, ..*old(self) }),
            final(effects)@ == old(effects)@ + (if bond_of(bond) == 0 {
                Seq::<Effect>::empty()
            } else {
                seq![Effect::Transfer { receiver_id: *receiver_id, amount: bond_of(bond) }]
            }),
    {
        let amount = match bond {
            Some(b) => b,
            None => DEFAULT_BOUNTY_CLAIM_BOND,
        };
        if amount != 0 {
            self.locked_amount = self.locked_amount - amount;
            effects.push(Effect::Transfer { receiver_id: receiver_id.clone(), amount });
        }
        proof { assert(final(effects)@ =~= old(effects)@ + (if bond_of(bond) == 0 {
                Seq::<Effect>::empty()
            } else {
                seq![Effect::Transfer { receiver_id: *receiver_id, amount: bond_of(bond) }]
            })); }
    }

    /// Keeps the bond of a claim: it no longer counts as held for a claim and can be
    /// withdrawn by the recipient of the platform fee.
    pub(crate) fn internal_keep_bond(&mut self, bond: Option<u128>)
        requires
            old(self).locked_amount >= bond_of(bond),
            old(self).unlocked_amount + bond_of(bond) <= u128::MAX,
        ensures
            final(self).locked_amount == old(self).locked_amount - bond_of(bond),
            final(self).unlocked_amount == old(self).unlocked_amount + bond_of(bond),
            *final(self) == (BountiesContract {
                locked_amount: final(self).locked_amount,
                unlocked_amount: final(self).unlocked_amount,
                ..*old(self)
            }),
    {
        let amount = match bond {
            Some(b) => b,
            None => DEFAULT_BOUNTY_CLAIM_BOND,
        };
        self.locked_amount = self.locked_amount - amount;
        self.unlocked_amount = self.unlocked_amount + amount;
    }
}

} // verus!
