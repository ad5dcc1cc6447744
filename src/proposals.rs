use vstd::prelude::*;

use crate::policy::{Policy, PolicyView};
use crate::types::{AccountIndex, BondState, Config, KindTag, ProposalStatus, Vote};

verus! {

/// What a proposal asks for.
#[derive(Debug)]
pub enum ProposalKind {
    /// Transfer `amount` of the native currency (`token_id` absent) or of a fungible token.
    Transfer { token_id: Option<u64>, receiver_id: AccountIndex, amount: u128, msg: Option<String> },
    /// Call `method_name` on `receiver_id`.
    FunctionCall { receiver_id: AccountIndex, method_name: String, args: Vec<u8>, deposit: u128, gas: u64 },
    ChangePolicy { policy: Policy },
    ChangeConfig { config: Config },
    AddMemberToRole { member_id: AccountIndex, role: u64 },
    RemoveMemberFromRole { member_id: AccountIndex, role: u64 },
}

impl ProposalKind {
    pub open spec fn tag(&self) -> KindTag {
        match self {
            ProposalKind::Transfer { .. } => KindTag::Transfer,
            ProposalKind::FunctionCall { .. } => KindTag::FunctionCall,
            ProposalKind::ChangePolicy { .. } => KindTag::ChangePolicy,
            ProposalKind::ChangeConfig { .. } => KindTag::ChangeConfig,
            ProposalKind::AddMemberToRole { .. } => KindTag::AddMemberToRole,
            ProposalKind::RemoveMemberFromRole { .. } => KindTag::RemoveMemberFromRole,
        }
    }

    /// The payload is well formed: a positive transfer amount, gas for a call, a valid new policy.
    pub open spec fn payload_valid(&self) -> bool {
        match self {
            ProposalKind::Transfer { amount, .. } => *amount > 0,
            ProposalKind::FunctionCall { gas, .. } => *gas > 0,
            ProposalKind::ChangePolicy { policy } => policy@.wf(),
            _ => true,
        }
    }

    /// Whether executing this kind goes through an external call.
    pub open spec fn is_external(&self) -> bool {
        self.tag() == KindTag::Transfer || self.tag() == KindTag::FunctionCall
    }

    pub fn kind_tag(&self) -> (r: KindTag)
        ensures
            r == self.tag(),
    {
        match self {
            ProposalKind::Transfer { .. } => KindTag::Transfer,
            ProposalKind::FunctionCall { .. } => KindTag::FunctionCall,
            ProposalKind::ChangePolicy { .. } => KindTag::ChangePolicy,
            ProposalKind::ChangeConfig { .. } => KindTag::ChangeConfig,
            ProposalKind::AddMemberToRole { .. } => KindTag::AddMemberToRole,
            ProposalKind::RemoveMemberFromRole { .. } => KindTag::RemoveMemberFromRole,
        }
    }

    pub fn is_payload_valid(&self) -> (r: bool)
        ensures
            r == self.payload_valid(),
    {
        match self {
            ProposalKind::Transfer { amount, .. } => *amount > 0,
            ProposalKind::FunctionCall { gas, .. } => *gas > 0,
            ProposalKind::ChangePolicy { policy } => policy.is_valid(),
            _ => true,
        }
    }
}

/// A proposal as submitted.
#[derive(Debug)]
pub struct ProposalInput {
    pub description: String,
    pub kind: ProposalKind,
}

/// The vote of one account.
#[derive(Clone, Copy, Debug, PartialEq, Eq, Structural)]
pub struct VoteRecord {
    pub account: AccountIndex,
    pub vote: Vote,
}

/// A proposal and its lifecycle state.
#[derive(Debug)]
pub struct Proposal {
    pub proposer: AccountIndex,
    pub description: String,
    pub kind: ProposalKind,
    pub status: ProposalStatus,
    /// The bond escrowed at submission.
    pub bond: u128,
    pub bond_state: BondState,
    /// Submission time in nanoseconds.
    pub submission_time: u64,
    /// At most one record per account, the latest vote.
    pub votes: Vec<VoteRecord>,
    /// An external effect was dispatched and its outcome has not arrived.
    pub pending: bool,
    /// The approved proposal's effect completed.
    pub executed: bool,
}

/// Each account has at most one record.
pub open spec fn votes_unique(s: Seq<VoteRecord>) -> bool {
    forall|i: int, j: int| 0 <= i < j < s.len() ==> #[trigger] s[i].account != #[trigger] s[j].account
}

pub open spec fn has_vote(s: Seq<VoteRecord>, account: AccountIndex) -> bool {
    exists|i: int| 0 <= i < s.len() && #[trigger] s[i].account == account
}

/// The records after `account` votes `vote`: its earlier record is replaced, else one is appended.
pub open spec fn record_vote(s: Seq<VoteRecord>, account: AccountIndex, vote: Vote) -> Seq<VoteRecord> {
    if has_vote(s, account) {
        s.update(choose|i: int| 0 <= i < s.len() && #[trigger] s[i].account == account, VoteRecord { account, vote })
    } else {
        s.push(VoteRecord { account, vote })
    }
}

/// Number of records holding `vote`.
pub open spec fn count_votes(s: Seq<VoteRecord>, vote: Vote) -> nat
    decreases s.len(),
{
    if s.len() == 0 {
        0
    } else {
        count_votes(s.drop_last(), vote) + if s.last().vote == vote {
            1nat
        } else {
            0nat
        }
    }
}

proof fn lemma_record_vote_facts(s: Seq<VoteRecord>, account: AccountIndex, vote: Vote)
    requires
        votes_unique(s),
    ensures
        votes_unique(record_vote(s, account, vote)),
        has_vote(record_vote(s, account, vote), account),
        forall|i: int|
            0 <= i < record_vote(s, account, vote).len() && #[trigger] record_vote(s, account, vote)[i].account
                == account ==> record_vote(s, account, vote)[i].vote == vote,
{
    let t = record_vote(s, account, vote);
    if has_vote(s, account) {
        let k = choose|i: int| 0 <= i < s.len() && #[trigger] s[i].account == account;
        assert(t[k].account == account);
        assert forall|i: int| 0 <= i < t.len() && #[trigger] t[i].account == account implies t[i].vote == vote by {
            if i != k {
                assert(s[i].account == s[k].account);
            }
        }
    } else {
        assert(t[s.len() as int].account == account);
    }
}

/// Only an account's latest vote is kept: voting twice leaves the records
/// that the second vote alone would have left.
pub proof fn lemma_latest_vote_counts(s: Seq<VoteRecord>, account: AccountIndex, first: Vote, second: Vote)
    requires
        votes_unique(s),
    ensures
        record_vote(record_vote(s, account, first), account, second) == record_vote(s, account, second),
        votes_unique(record_vote(s, account, second)),
{
    lemma_record_vote_facts(s, account, first);
    lemma_record_vote_facts(s, account, second);
    let t = record_vote(s, account, first);
    let k2 = choose|i: int| 0 <= i < t.len() && #[trigger] t[i].account == account;
    if has_vote(s, account) {
        let k = choose|i: int| 0 <= i < s.len() && #[trigger] s[i].account == account;
        assert(t[k].account == account);
        assert(k2 == k);
        assert(record_vote(t, account, second) =~= record_vote(s, account, second));
    } else {
        assert(t[s.len() as int].account == account);
        assert(k2 == s.len());
        assert(record_vote(t, account, second) =~= record_vote(s, account, second));
    }
}

/// Every record holds exactly one of the three votes.
pub proof fn lemma_counts_partition(s: Seq<VoteRecord>)
    ensures
        count_votes(s, Vote::Approve) + count_votes(s, Vote::Reject) + count_votes(s, Vote::Remove) == s.len(),
    decreases s.len(),
{
    if s.len() > 0 {
        lemma_counts_partition(s.drop_last());
    }
}

/// Records `vote` of `account`, replacing its earlier vote.
pub fn cast_vote(votes: &mut Vec<VoteRecord>, account: AccountIndex, vote: Vote)
    requires
        votes_unique(old(votes)@),
    ensures
        final(votes)@ == record_vote(old(votes)@, account, vote),
        votes_unique(final(votes)@),
{
    proof {
        lemma_record_vote_facts(votes@, account, vote);
    }
    let mut i: usize = 0;
    while i < votes.len()
        invariant
            i <= votes@.len(),
            votes@ == old(votes)@,
            votes_unique(votes@),
            forall|k: int| 0 <= k < i ==> #[trigger] votes@[k].account != account,
        decreases votes@.len() - i,
    {
        if votes[i].account == account {
            proof {
                assert(votes@[i as int].account == account);
                assert(has_vote(votes@, account));
                let k = choose|j: int| 0 <= j < votes@.len() && #[trigger] votes@[j].account == account;
                if k < i {
                    assert(votes@[k].account != votes@[i as int].account);
                } else if k > i {
                    assert(votes@[i as int].account != votes@[k].account);
                }
                assert(k == i);
            }
            let ghost before = votes@;
            votes.set(i, VoteRecord { account, vote });
            assert(votes@ =~= record_vote(before, account, vote));
            return;
        }
        i = i + 1;
    }
    votes.push(VoteRecord { account, vote });
}

/// Number of records holding `vote`.
pub fn count_votes_exec(votes: &Vec<VoteRecord>, vote: Vote) -> (r: usize)
    ensures
        r as nat == count_votes(votes@, vote),
{
    let mut n: usize = 0;
    let mut i: usize = 0;
    while i < votes.len()
        invariant
            i <= votes@.len(),
            n <= i,
            n as nat == count_votes(votes@.subrange(0, i as int), vote),
        decreases votes@.len() - i,
    {
        let ghost prev = votes@.subrange(0, i as int);
        if votes[i].vote == vote {
            n = n + 1;
        }
        i = i + 1;
        assert(votes@.subrange(0, i as int).drop_last() =~= prev);
    }
    assert(votes@.subrange(0, i as int) =~= votes@);
    n
}

} // verus!
