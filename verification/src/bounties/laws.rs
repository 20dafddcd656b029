//! Properties of the bounties contract that span its operations.
use vstd::prelude::*;
use crate::accounts::AccountId;
use super::types::{BountyIndex, BountyStatus, ClaimStatus, ContractStatus};
use super::claim::BountyAction;
use super::claims::bond_of;
use super::errors::BountyError;
use super::effects::{CallContext, Effect};
use super::contract::BountiesContract;
use super::bounty::BountyUpdate;
use super::types::ValidatorsDaoParams;
use super::types::{Deadline, Reviewers};
use super::bounty::Bounty;
use super::config::Config;
use super::multitasking::one_for_all_env;
use super::cancel::return_amounts;

verus! {

/// The total that the transfers among `effects` pay out.
pub open spec fn transferred(effects: Seq<Effect>) -> int
    decreases effects.len(),
{
    if effects.len() == 0 {
        0
    } else {
        transferred(effects.drop_last()) + match effects.last() {
            Effect::Transfer { amount, .. } => amount as int,
            _ => 0,
        }
    }
}

pub proof fn lemma_transferred_concat(a: Seq<Effect>, b: Seq<Effect>)
    ensures
        transferred(a + b) == transferred(a) + transferred(b),
    decreases b.len(),
{
    if b.len() == 0 {
        assert(a + b =~= a);
    } else {
        lemma_transferred_concat(a, b.drop_last());
        assert((a + b).drop_last() =~= a + b.drop_last());
    }
}

/// Closing a claim neither creates nor loses bond money: what leaves the locked bonds
/// is either transferred back to the claimant by the effects of the closure, or kept
/// among the bonds that were not returned.
pub proof fn lemma_bond_conserved(
    c: BountiesContract,
    other: BountiesContract,
    receiver: AccountId,
    owner: AccountId,
    old_status: BountyStatus,
    k: int,
    new_status: ClaimStatus,
    return_bond: bool,
)
    requires
        0 <= k < c.claims_of(receiver@).len(),
        c.claim_closed(&other, receiver@, k, new_status, return_bond),
    ensures
        other.locked_amount + other.unlocked_amount + transferred(
            c.closure_effects(receiver, owner, old_status, c.claims_of(receiver@)[k], new_status, return_bond),
        ) == c.locked_amount + c.unlocked_amount,
{
    let claim = c.claims_of(receiver@)[k];
    let with_dispute = claim.status == ClaimStatus::Disputed;
    let is_new = claim.status == ClaimStatus::New || (claim.status == ClaimStatus::Competes
        || claim.status == ClaimStatus::ReadyToStart)
        && (old_status == BountyStatus::New || old_status == BountyStatus::Canceled);
    let kind = if new_status == ClaimStatus::NotCompleted {
        super::types::ReputationActionKind::UnsuccessfulClaim { with_dispute }
    } else if new_status == ClaimStatus::Expired {
        super::types::ReputationActionKind::ClaimExpired
    } else {
        super::types::ReputationActionKind::ClaimCancelled
    };
    let bounty_owner = if new_status == ClaimStatus::NotCompleted { Some(owner) } else { None };
    let stats = if !is_new || new_status != ClaimStatus::Canceled {
        c.statistic(Some(receiver), bounty_owner, kind)
    } else {
        Seq::empty()
    };
    let transfer = if return_bond && bond_of(claim.bond) != 0 {
        seq![Effect::Transfer { receiver_id: receiver, amount: bond_of(claim.bond) }]
    } else {
        Seq::empty()
    };
    assert(c.closure_effects(receiver, owner, old_status, claim, new_status, return_bond) == stats + transfer);
    lemma_transferred_concat(stats, transfer);
    assert(transferred(Seq::<Effect>::empty()) == 0);
    assert(transferred(stats) == 0) by {
        if stats.len() > 0 {
            assert(stats.drop_last() =~= Seq::<Effect>::empty());
            assert(stats.last() is Statistic);
        }
    }
    assert(transferred(transfer) == if return_bond { bond_of(claim.bond) as int } else { 0 }) by {
        if transfer.len() > 0 {
            assert(transfer.drop_last() =~= Seq::<Effect>::empty());
            assert(transfer.last() == (Effect::Transfer { receiver_id: receiver, amount: bond_of(claim.bond) }));
        }
    }
}

/// While the contract is not live, every request that would change it is refused as
/// such (and, by the contract of each operation, changes nothing).
pub proof fn lemma_not_live_refuses(
    c: BountiesContract,
    ctx: CallContext,
    id: BountyIndex,
    claimer: AccountId,
    deadline: u64,
    description: String,
    slot: Option<usize>,
    action: BountyAction,
    upd: BountyUpdate,
    dao_params: ValidatorsDaoParams,
    token_id: AccountId,
)
    requires
        c.status != ContractStatus::Live,
    ensures
        c.admin_call_error(ctx) == Some(BountyError::NotLive),
        c.claim_request_error(ctx, id, deadline, description, slot) == Some(BountyError::NotLive),
        c.decision_request_error(ctx, id, claimer@) == Some(BountyError::NotLive),
        c.done_request_error(ctx, id, description) == Some(BountyError::NotLive),
        c.give_up_error(ctx, id) == Some(BountyError::NotLive),
        c.action_error(ctx, id, action) == Some(BountyError::NotLive),
        c.cancel_error(ctx, id) == Some(BountyError::NotLive),
        c.update_error(ctx, id, upd) == Some(BountyError::NotLive),
        c.open_dispute_error(ctx, id) == Some(BountyError::NotLive),
        c.extend_deadline_error(ctx, id, claimer@, deadline) == Some(BountyError::NotLive),
        c.start_error(ctx, id) == Some(BountyError::NotLive),
        c.dao_params_error(ctx, id, dao_params) == Some(BountyError::NotLive),
        c.withdraw_error(ctx, id) == Some(BountyError::NotLive),
        c.mark_paid_prefix_error(ctx, id, Some(claimer)) == Some(BountyError::NotLive),
        c.confirm_prefix_error(ctx, id) == Some(BountyError::NotLive),
        c.platform_fee_withdrawal_error(ctx, token_id@) == Some(BountyError::NotLive),
        c.dao_fee_withdrawal_error(ctx, token_id@) == Some(BountyError::NotLive),
        c.bonds_withdrawal_error(ctx) == Some(BountyError::NotLive),
{
}

/// Canceling a bounty gives back everything it still holds, less the penalties: the
/// unpaid reward, the platform fee and the DAO fee (for a bounty with slots that waits
/// for claims, the shares of the unpaid slots of each), and the fees refunded are those
/// fees. Each penalty is the penalty percentage's share of its fee at the fee's
/// percentage. Without penalty percentages no penalty is kept and the cancellation can always
/// be computed; a bounty paid outside the contract returns nothing.
pub proof fn lemma_cancel_returns_what_is_held(b: Bounty, config: Config)
    requires
        b.wf(),
    ensures
        b.spec_is_payment_outside_contract() ==> return_amounts(b, config) == Some((0u128, 0u128, 0u128, 0u128, 0u128)),
        !b.spec_is_payment_outside_contract() && !(b.spec_is_one_bounty_for_many_claimants() && b.status == BountyStatus::AwaitingClaims)
            ==> (return_amounts(b, config) matches Some(a) ==> {
                &&& a.1 == b.platform_fee
                &&& a.3 == b.dao_fee
                &&& a.0 + a.2 + a.4 == b.amount + b.platform_fee + b.dao_fee
            }),
        !b.spec_is_payment_outside_contract() && b.spec_is_one_bounty_for_many_claimants() && b.status == BountyStatus::AwaitingClaims
            ==> (return_amounts(b, config) matches Some(a) ==> {
                let n = b.multitasking->0->OneForAll_number_of_slots as int;
                let rest = n - one_for_all_env(b.multitasking->0).paid_slots;
                &&& a.1 == (b.platform_fee as int / n) * rest
                &&& a.3 == (b.dao_fee as int / n) * rest
                &&& a.0 + a.2 + a.4 == (b.amount as int / n) * rest + a.1 + a.3
            }),
        !b.spec_is_payment_outside_contract() ==> (return_amounts(b, config) matches Some(a) ==> {
            &&& (config.penalty_platform_fee_percentage == 0 || config.platform_fee_percentage == 0 ==> a.2 == 0)
            &&& (config.penalty_validators_dao_fee_percentage == 0 || config.validators_dao_fee_percentage == 0 ==> a.4 == 0)
            &&& (config.platform_fee_percentage != 0 ==> a.2 == (a.1 * config.penalty_platform_fee_percentage) / (config.platform_fee_percentage as int))
            &&& (config.validators_dao_fee_percentage != 0 ==> a.4 == (a.3 * config.penalty_validators_dao_fee_percentage) / (config.validators_dao_fee_percentage as int))
        }),
        config.penalty_platform_fee_percentage == 0 && config.penalty_validators_dao_fee_percentage == 0
            && !(b.spec_is_one_bounty_for_many_claimants() && b.status == BountyStatus::AwaitingClaims
                && b.multitasking->0->OneForAll_number_of_slots == 0)
            ==> return_amounts(b, config) is Some,
{
    if !b.spec_is_payment_outside_contract() && b.spec_is_one_bounty_for_many_claimants() && b.status == BountyStatus::AwaitingClaims
        && b.multitasking->0->OneForAll_number_of_slots != 0 {
        let m = b.multitasking->0;
        let n = m->OneForAll_number_of_slots as int;
        let rest = n - one_for_all_env(m).paid_slots;
        assert((b.amount as int / n) * rest <= b.amount && (b.amount as int / n) * rest >= 0) by (nonlinear_arith)
            requires n > 0, 0 <= rest <= n, b.amount >= 0;
        assert((b.platform_fee as int / n) * rest <= b.platform_fee && (b.platform_fee as int / n) * rest >= 0) by (nonlinear_arith)
            requires n > 0, 0 <= rest <= n, b.platform_fee >= 0;
        assert((b.dao_fee as int / n) * rest <= b.dao_fee && (b.dao_fee as int / n) * rest >= 0) by (nonlinear_arith)
            requires n > 0, 0 <= rest <= n, b.dao_fee >= 0;
    }
}

/// Who may decide on the claims of bounty `b`: with a validators DAO, exactly the
/// DAO; with a list of approvers, exactly the approvers and the owner; otherwise
/// exactly the owner.
pub proof fn lemma_access_rights(b: Bounty, sender: Seq<char>)
    ensures
        b.reviewers matches Some(Reviewers::ValidatorsDao { validators_dao }) ==>
            (b.spec_check_access_rights(sender) is Ok <==> validators_dao.account_id@ == sender),
        b.reviewers matches Some(Reviewers::MoreReviewers { more_reviewers }) ==>
            (b.spec_check_access_rights(sender) is Ok <==> (b.owner@ == sender
                || exists|i: int| 0 <= i < more_reviewers@.len() && (#[trigger] more_reviewers@[i])@ == sender)),
        b.reviewers is None ==> (b.spec_check_access_rights(sender) is Ok <==> b.owner@ == sender),
{
}

/// A claim's deadline fits bounty `b`: with a due date, the claim made at `now` ends by
/// it; with a longest duration, the claim takes no longer; without a deadline, any.
/// A claim that fits still fits when made earlier or for less time.
pub proof fn lemma_claim_deadline_fits(b: Bounty, deadline: u64, now: u64, shorter: u64, earlier: u64)
    ensures
        b.deadline matches Deadline::DueDate { due_date } ==>
            (b.spec_is_claim_deadline_correct(deadline, now) <==> now + deadline <= due_date),
        b.deadline matches Deadline::MaxDeadline { max_deadline } ==>
            (b.spec_is_claim_deadline_correct(deadline, now) <==> deadline <= max_deadline),
        b.deadline is WithoutDeadline ==> b.spec_is_claim_deadline_correct(deadline, now),
        b.spec_is_claim_deadline_correct(deadline, now) && shorter <= deadline && earlier <= now
            ==> b.spec_is_claim_deadline_correct(shorter, earlier),
{
}

/// A bounty that passes validation at `now` has a title, a description and a category,
/// a positive amount, a token exactly when it is paid in the contract, a due date after
/// `now` or a positive longest duration, and at least one approver where it lists them.
pub proof fn lemma_valid_bounty(b: Bounty, now: u64)
    requires
        b.validation_error(now) is None,
    ensures
        b.metadata.title@.len() > 0,
        b.metadata.description@.len() > 0,
        b.metadata.category@.len() > 0,
        b.amount > 0,
        b.token is Some <==> !b.spec_is_payment_outside_contract(),
        b.deadline matches Deadline::DueDate { due_date } ==> due_date > now,
        b.deadline matches Deadline::MaxDeadline { max_deadline } ==> max_deadline > 0,
        b.reviewers matches Some(Reviewers::MoreReviewers { more_reviewers }) ==> more_reviewers@.len() > 0,
{
}

} // verus!