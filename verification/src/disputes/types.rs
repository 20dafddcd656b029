//! Disputes, the arguments of their parties, and the text of a resolution proposal.
use vstd::prelude::*;
use crate::accounts::AccountId;
use vstd::string::StringExecFns;

verus! {

pub type DisputeIndex = u64;

/// Ten days, in nanoseconds.
pub const DEFAULT_ARGUMENT_PERIOD: u64 = 864_000_000_000_000;
/// Seven days, in nanoseconds.
pub const DEFAULT_DECISION_PERIOD: u64 = 604_800_000_000_000;
/// One NEAR.
pub const DEFAULT_ADD_PROPOSAL_BOND: u128 = 1_000_000_000_000_000_000_000_000;

#[derive(Clone, Copy, Debug, PartialEq, Eq, Structural)]
pub enum DisputeStatus {
    New,
    DecisionPending,
    InFavorOfClaimer,
    InFavorOfProjectOwner,
    CanceledByClaimer,
    CanceledByProjectOwner,
}

/// A dispute that has reached its outcome.
pub open spec fn is_final(status: DisputeStatus) -> bool {
    !(status is New || status is DecisionPending)
}

#[derive(Clone, Copy, Debug, PartialEq, Eq, Structural)]
pub enum Side {
    Claimant,
    ProjectOwner,
}

/// An argument of one party.
#[derive(Clone, Debug, PartialEq, Eq)]
pub struct Reason {
    pub side: Side,
    pub argument_timestamp: u64,
    pub description: String,
}

impl Reason {
    pub fn copy(&self) -> (r: Reason)
        ensures
            r == *self,
    {
        Reason { side: self.side, argument_timestamp: self.argument_timestamp, description: self.description.clone() }
    }
}

/// What the bounties contract sends to open a dispute.
#[derive(Clone, Debug, PartialEq, Eq)]
pub struct DisputeCreate {
    pub bounty_id: u64,
    pub description: String,
    pub receiver_id: AccountId,
    pub project_owner_delegate: AccountId,
    pub claim_number: Option<u8>,
}

#[derive(Clone, Debug, PartialEq, Eq)]
pub struct Dispute {
    /// When the dispute was opened.
    pub start_time: u64,
    /// The cause of the dispute, as the claimant gave it.
    pub description: String,
    /// The bounty the dispute is about.
    pub bounty_id: u64,
    /// The claimant.
    pub receiver_id: AccountId,
    /// The claim on the bounty, where the bounty takes several.
    pub claim_number: Option<u8>,
    /// The project owner, or the validators DAO that acts for it.
    pub project_owner_delegate: AccountId,
    pub status: DisputeStatus,
    /// The proposal of the dispute DAO that decides the dispute.
    pub proposal_id: Option<u64>,
    /// When that proposal was made.
    pub proposal_timestamp: Option<u64>,
}

impl Dispute {
    pub fn copy(&self) -> (r: Dispute)
        ensures
            r == *self,
    {
        Dispute {
            start_time: self.start_time,
            description: self.description.clone(),
            bounty_id: self.bounty_id,
            receiver_id: self.receiver_id.clone(),
            claim_number: self.claim_number,
            project_owner_delegate: self.project_owner_delegate.clone(),
            status: self.status,
            proposal_id: self.proposal_id,
            proposal_timestamp: self.proposal_timestamp,
        }
    }

    /// The party that `account` is in this dispute, if any.
    pub open spec fn side_of(&self, account: Seq<char>) -> Option<Side> {
        if account == self.receiver_id@ {
            Some(Side::Claimant)
        } else if account == self.project_owner_delegate@ {
            Some(Side::ProjectOwner)
        } else {
            None
        }
    }

    /// The party that `account` is in this dispute; none for an outsider.
    pub fn get_side_of_dispute(&self, account: &AccountId) -> (r: Option<Side>)
        ensures
            r == self.side_of(account@),
    {
        if *account == self.receiver_id {
            Some(Side::Claimant)
        } else if *account == self.project_owner_delegate {
            Some(Side::ProjectOwner)
        } else {
            None
        }
    }
}

impl DisputeCreate {
    /// The new dispute opened at `now`.
    pub open spec fn opened(&self, now: u64) -> Dispute {
        Dispute {
            start_time: now,
            description: self.description,
            bounty_id: self.bounty_id,
            receiver_id: self.receiver_id,
            claim_number: self.claim_number,
            project_owner_delegate: self.project_owner_delegate,
            status: DisputeStatus::New,
            proposal_id: None,
            proposal_timestamp: None,
        }
    }

    pub fn to_dispute(&self, now: u64) -> (r: Dispute)
        ensures
            r == self.opened(now),
    {
        Dispute {
            start_time: now,
            description: self.description.clone(),
            bounty_id: self.bounty_id,
            receiver_id: self.receiver_id.clone(),
            claim_number: self.claim_number,
            project_owner_delegate: self.project_owner_delegate.clone(),
            status: DisputeStatus::New,
            proposal_id: None,
            proposal_timestamp: None,
        }
    }
}

/// The periods and the bond of the dispute contract.
#[derive(Clone, Copy, Debug, PartialEq, Eq, Structural)]
pub struct Config {
    /// How long the parties may argue after the dispute is opened.
    pub argument_period: u64,
    /// How long the DAO may decide after the proposal is made.
    pub decision_period: u64,
    /// The bond of a DAO proposal.
    pub add_proposal_bond: u128,
}

impl Config {
    pub open spec fn default_spec() -> Config {
        Config {
            argument_period: DEFAULT_ARGUMENT_PERIOD,
            decision_period: DEFAULT_DECISION_PERIOD,
            add_proposal_bond: DEFAULT_ADD_PROPOSAL_BOND,
        }
    }
}

impl Default for Config {
    fn default() -> (r: Config)
        ensures
            r == Config::default_spec(),
    {
        Config {
            argument_period: DEFAULT_ARGUMENT_PERIOD,
            decision_period: DEFAULT_DECISION_PERIOD,
            add_proposal_bond: DEFAULT_ADD_PROPOSAL_BOND,
        }
    }
}

/// A proposal of the dispute DAO, as its view method returns it.
#[derive(Clone, Debug, PartialEq, Eq)]
pub struct Proposal {
    pub id: u64,
    pub proposer: AccountId,
    pub description: String,
    pub status: String,
}

/// The digit `d` as a character.
pub open spec fn digit_char(d: nat) -> char {
    seq!['0', '1', '2', '3', '4', '5', '6', '7', '8', '9'][d as int]
}

/// The decimal notation of `n`.
pub open spec fn decimal(n: nat) -> Seq<char>
    decreases n,
{
    if n < 10 {
        seq![digit_char(n)]
    } else {
        decimal(n / 10).push(digit_char(n % 10))
    }
}

/// Whole seconds of a time in nanoseconds, as a `u32` (the high bits are dropped).
pub open spec fn seconds(timestamp: u64) -> u32 {
    (timestamp / 1_000_000_000) as u32
}

/// How the proposal names a party.
pub open spec fn side_label(side: Side) -> Seq<char> {
    match side {
        Side::Claimant => "Claimer"@,
        Side::ProjectOwner => "Project owner"@,
    }
}

/// The account of a party of `dispute`.
pub open spec fn party(dispute: Dispute, side: Side) -> Seq<char> {
    match side {
        Side::Claimant => dispute.receiver_id@,
        Side::ProjectOwner => dispute.project_owner_delegate@,
    }
}

/// The paragraph of a proposal that quotes an argument: a blank line, the time in
/// seconds, the party and its account, and the argument on a line of its own.
pub open spec fn chunk(dispute: Dispute, reason: Reason) -> Seq<char> {
    "\n\n"@ + decimal(seconds(reason.argument_timestamp) as nat) + " "@ + side_label(reason.side)
        + " ("@ + party(dispute, reason.side) + "):"@ + "\n"@ + reason.description@
}

/// The paragraphs of the arguments `reasons`, in order.
pub open spec fn chunks(dispute: Dispute, reasons: Seq<Reason>) -> Seq<char>
    decreases reasons.len(),
{
    if reasons.len() == 0 {
        Seq::empty()
    } else {
        chunks(dispute, reasons.drop_last()) + chunk(dispute, reasons.last())
    }
}

/// The description of the resolution proposal of `dispute`: its cause, quoted as the
/// claimant's argument at the opening, then every argument of the parties.
pub open spec fn proposal_text(dispute: Dispute, reasons: Seq<Reason>) -> Seq<char> {
    chunk(dispute, Reason { side: Side::Claimant, argument_timestamp: dispute.start_time, description: dispute.description })
        + chunks(dispute, reasons)
}

/// Appends `c` to `s`; `String::push` of std.
#[verifier::external_body]
fn push_char(s: &mut String, c: char)
    ensures
        final(s)@ == old(s)@.push(c),
{
    s.push(c);
}

fn digit(d: u32) -> (c: char)
    requires
        d < 10,
    ensures
        c == digit_char(d as nat),
{
    if d == 0 { '0' }
    else if d == 1 { '1' }
    else if d == 2 { '2' }
    else if d == 3 { '3' }
    else if d == 4 { '4' }
    else if d == 5 { '5' }
    else if d == 6 { '6' }
    else if d == 7 { '7' }
    else if d == 8 { '8' }
    else { '9' }
}

/// Appends the decimal notation of `n`.
fn push_decimal(s: &mut String, n: u32)
    ensures
        final(s)@ == old(s)@ + decimal(n as nat),
    decreases n,
{
    if n >= 10 {
        push_decimal(s, n / 10);
    }
    let ghost mid = s@;
    push_char(s, digit(n % 10));
    proof {
        if n >= 10 {
            assert(s@ =~= old(s)@ + decimal(n as nat));
        } else {
            assert(n % 10 == n);
            assert(s@ =~= old(s)@ + decimal(n as nat));
        }
    }
}

/// Appends the paragraph that quotes `reason` in `dispute`.
fn push_chunk(s: &mut String, dispute: &Dispute, reason: &Reason)
    ensures
        final(s)@ == old(s)@ + chunk(*dispute, *reason),
{
    let account = match reason.side {
        Side::Claimant => &dispute.receiver_id,
        Side::ProjectOwner => &dispute.project_owner_delegate,
    };
    let label = match reason.side {
        Side::Claimant => "Claimer",
        Side::ProjectOwner => "Project owner",
    };
    s.append("\n\n");
    push_decimal(s, (reason.argument_timestamp / 1_000_000_000) as u32);
    s.append(" ");
    s.append(label);
    s.append(" (");
    s.append(account.as_str());
    s.append("):");
    s.append("\n");
    s.append(reason.description.as_str());
    proof {
        assert(s@ =~= old(s)@ + chunk(*dispute, *reason));
    }
}

/// The paragraph of a proposal that quotes `reason` in `dispute`.
pub fn chunk_of_description(dispute: &Dispute, reason: &Reason) -> (r: String)
    ensures
        r@ == chunk(*dispute, *reason),
{
    let mut s = String::new();
    push_chunk(&mut s, dispute, reason);
    proof { assert(s@ =~= chunk(*dispute, *reason)); }
    s
}

/// The description of the resolution proposal of `dispute` with the arguments `reasons`.
pub fn proposal_description(dispute: &Dispute, reasons: &Vec<Reason>) -> (r: String)
    ensures
        r@ == proposal_text(*dispute, reasons@),
{
    let opening = Reason {
        side: Side::Claimant,
        argument_timestamp: dispute.start_time,
        description: dispute.description.clone(),
    };
    let mut s = chunk_of_description(dispute, &opening);
    let ghost first = s@;
    let mut i: usize = 0;
    while i < reasons.len()
        invariant
            i <= reasons@.len(),
            s@ == first + chunks(*dispute, reasons@.subrange(0, i as int)),
        decreases reasons@.len() - i,
    {
        push_chunk(&mut s, dispute, &reasons[i]);
        proof {
            let next = reasons@.subrange(0, i + 1);
            assert(next.drop_last() =~= reasons@.subrange(0, i as int));
            assert(next.last() == reasons@[i as int]);
            assert(s@ =~= first + chunks(*dispute, next));
        }
        i = i + 1;
    }
    proof { assert(reasons@.subrange(0, reasons@.len() as int) =~= reasons@); }
    s
}

} // verus!
