use vstd::prelude::*;

use crate::proposals::{votes_unique, Proposal, ProposalKind};
use crate::types::{AccountIndex, BondState, KindTag, Outcome, ProposalStatus};

verus! {

/// A bond paid back to its proposer.
#[derive(Clone, Copy, Debug, PartialEq, Eq, Structural)]
pub struct Refund {
    pub account: AccountIndex,
    pub amount: u128,
}

/// An external effect the environment has to carry out; its outcome comes back
/// through the completion callback.
#[derive(Debug)]
pub enum Dispatch {
    Transfer { proposal_id: u64, token_id: Option<u64>, receiver_id: AccountIndex, amount: u128, msg: Option<String> },
    FunctionCall {
        proposal_id: u64,
        receiver_id: AccountIndex,
        method_name: String,
        args: Vec<u8>,
        deposit: u128,
        gas: u64,
    },
}

/// What an entry point asks the environment to do.
#[derive(Debug)]
pub struct Effects {
    pub refund: Option<Refund>,
    pub dispatch: Option<Dispatch>,
}

/// A summary of a stored proposal.
#[derive(Clone, Copy, Debug, PartialEq, Eq, Structural)]
pub struct ProposalOutput {
    pub id: u64,
    pub proposer: AccountIndex,
    pub kind: KindTag,
    pub status: ProposalStatus,
    pub bond: u128,
    pub bond_state: BondState,
    pub submission_time: u64,
    pub votes: usize,
    pub executed: bool,
}

/// The dispatch that executes `kind` for proposal `id`.
pub open spec fn dispatch_matches(d: Dispatch, id: u64, kind: ProposalKind) -> bool {
    match kind {
        ProposalKind::Transfer { token_id, receiver_id, amount, msg } => d == (Dispatch::Transfer {
            proposal_id: id,
            token_id,
            receiver_id,
            amount,
            msg,
        }),
        ProposalKind::FunctionCall { receiver_id, method_name, args, deposit, gas } => match d {
            Dispatch::FunctionCall { proposal_id, receiver_id: r, method_name: m, args: a, deposit: dep, gas: g } => {
                &&& proposal_id == id
                &&& r == receiver_id
                &&& m == method_name
                &&& a@ == args@
                &&& dep == deposit
                &&& g == gas
            },
            _ => false,
        },
        _ => false,
    }
}

/// The proposal still waits for a decision, an execution or an execution's outcome.
pub open spec fn awaits_outcome(p: Proposal) -> bool {
    p.status == ProposalStatus::InProgress || p.status == ProposalStatus::Failed || (p.status
        == ProposalStatus::Approved && !p.executed)
}

/// No action changes the proposal any more.
pub open spec fn is_closed(p: Proposal) -> bool {
    !awaits_outcome(p)
}

/// The transition graph of proposal statuses.
pub open spec fn valid_transition(from: ProposalStatus, to: ProposalStatus) -> bool {
    from == to || match from {
        ProposalStatus::InProgress => to != ProposalStatus::Failed,
        ProposalStatus::Approved => to == ProposalStatus::Failed,
        ProposalStatus::Failed => to == ProposalStatus::Approved || to == ProposalStatus::Expired,
        _ => false,
    }
}

/// A closed proposal's record no longer changes; an open one moves along the graph.
pub open spec fn proposal_step(p: Proposal, q: Proposal) -> bool {
    &&& valid_transition(p.status, q.status)
    &&& is_closed(p) ==> q == p
    &&& p.bond_state != BondState::Escrowed ==> q.bond_state == p.bond_state
}

/// The record is consistent: one vote per account, the bond escrowed exactly
/// while an outcome is awaited, a pending effect only on an approved proposal.
pub open spec fn proposal_wf(p: Proposal) -> bool {
    &&& votes_unique(p.votes@)
    &&& p.kind.payload_valid()
    &&& (p.bond_state == BondState::Escrowed <==> awaits_outcome(p))
    &&& p.pending ==> p.status == ProposalStatus::Approved && !p.executed
    &&& p.executed ==> p.status == ProposalStatus::Approved
}

pub open spec fn escrowed(p: Proposal) -> nat {
    if p.bond_state == BondState::Escrowed {
        p.bond as nat
    } else {
        0
    }
}

/// Sum of the bonds still escrowed.
pub open spec fn escrowed_sum(s: Seq<Proposal>) -> nat
    decreases s.len(),
{
    if s.len() == 0 {
        0
    } else {
        escrowed_sum(s.drop_last()) + escrowed(s.last())
    }
}

pub open spec fn with_state(p: Proposal, status: ProposalStatus, bond_state: BondState, pending: bool, executed: bool) -> Proposal {
    Proposal { status, bond_state, pending, executed, ..p }
}

/// The record after the completion callback reports `outcome`; without a
/// pending effect the callback is stale and changes nothing.
pub open spec fn callback_effect(p: Proposal, outcome: Outcome) -> Proposal {
    if !p.pending {
        p
    } else {
        match outcome {
            Outcome::Success => with_state(p, ProposalStatus::Approved, BondState::Refunded, false, true),
            Outcome::Failure => with_state(p, ProposalStatus::Failed, BondState::Escrowed, false, false),
        }
    }
}

/// The refund owed when `p` becomes `q`.
pub open spec fn refund_of(p: Proposal, q: Proposal) -> Option<Refund> {
    if p.bond_state == BondState::Escrowed && q.bond_state == BondState::Refunded {
        Some(Refund { account: p.proposer, amount: p.bond })
    } else {
        None
    }
}

/// A completion callback is honoured once: a second one for the same dispatch changes nothing.
pub proof fn lemma_callback_once(p: Proposal, first: Outcome, second: Outcome)
    ensures
        callback_effect(callback_effect(p, first), second) == callback_effect(p, first),
        refund_of(callback_effect(p, first), callback_effect(callback_effect(p, first), second)) is None,
{
}

/// The completion callback keeps a record consistent and follows the status graph.
pub proof fn lemma_callback_step(p: Proposal, outcome: Outcome)
    requires
        proposal_wf(p),
    ensures
        proposal_wf(callback_effect(p, outcome)),
        proposal_step(p, callback_effect(p, outcome)),
{
}

/// Escrow then exactly one of refund or forfeit: once a bond has left escrow
/// no valid step brings it back or pays it out again.
pub proof fn lemma_bond_settled_once(p: Proposal, q: Proposal, r: Proposal)
    requires
        proposal_step(p, q),
        proposal_step(q, r),
        p.bond_state != BondState::Escrowed,
    ensures
        r.bond_state == p.bond_state,
        refund_of(q, r) is None,
{
}

/// Replacing one record changes the escrowed sum by the difference of the two records.
pub proof fn lemma_escrowed_update(s: Seq<Proposal>, i: int, p: Proposal)
    requires
        0 <= i < s.len(),
    ensures
        escrowed_sum(s.update(i, p)) + escrowed(s[i]) == escrowed_sum(s) + escrowed(p),
    decreases s.len(),
{
    let t = s.update(i, p);
    if i == s.len() - 1 {
        assert(t.drop_last() =~= s.drop_last());
    } else {
        lemma_escrowed_update(s.drop_last(), i, p);
        assert(t.drop_last() =~= s.drop_last().update(i, p));
    }
}

/// Appending a record adds its escrowed bond.
pub proof fn lemma_escrowed_push(s: Seq<Proposal>, p: Proposal)
    ensures
        escrowed_sum(s.push(p)) == escrowed_sum(s) + escrowed(p),
{
    assert(s.push(p).drop_last() =~= s);
}

} // verus!
