use vstd::prelude::*;

use crate::lifecycle::{
    awaits_outcome, callback_effect, dispatch_matches, escrowed_sum, is_closed, lemma_escrowed_push,
    lemma_escrowed_update, proposal_step, proposal_wf, refund_of, with_state, Dispatch, Effects,
    ProposalOutput, Refund,
};
use crate::policy::{lemma_resolve_wf, tally_status, tally_status_exec, Policy};
use crate::proposals::{
    cast_vote, count_votes, count_votes_exec, lemma_counts_partition, record_vote, Proposal, ProposalInput, ProposalKind, VoteRecord,
};
use crate::types::{
    AccountIndex, Action, BondState, Config, DaoError, FactoryInfo, KindTag, Outcome, ProposalStatus, Vote,
};
use crate::ExtSelf;

verus! {

/// The organisation: configuration, policy and the proposal registry.
pub struct Contract {
    /// DAO configuration.
    pub config: Config,
    /// Voting and permissions policy.
    pub policy: Policy,
    /// Next proposal id; ids are the positions in `proposals`.
    pub last_proposal_id: u64,
    /// Proposals by id.
    pub proposals: Vec<Proposal>,
    /// Total of the bonds in escrow.
    pub bond_held: u128,
    /// The organisation's own account; only it may deliver completion callbacks.
    pub account_id: AccountIndex,
    /// Upgrade authority, recorded at initialisation.
    pub factory_info: FactoryInfo,
}

pub open spec fn vote_of(action: Action) -> Vote {
    match action {
        Action::VoteReject => Vote::Reject,
        Action::VoteRemove => Vote::Remove,
        _ => Vote::Approve,
    }
}

pub open spec fn is_vote(action: Action) -> bool {
    action == Action::VoteApprove || action == Action::VoteReject || action == Action::VoteRemove
}

/// The fields a vote or a state change leaves alone.
pub open spec fn same_payload(p: Proposal, q: Proposal) -> bool {
    &&& q.proposer == p.proposer
    &&& q.description == p.description
    &&& q.kind == p.kind
    &&& q.bond == p.bond
    &&& q.submission_time == p.submission_time
}

impl Contract {
    /// The registry is consistent and the escrowed total is the sum of the escrowed bonds.
    pub open spec fn wf(&self) -> bool {
        &&& self.policy@.wf()
        &&& self.last_proposal_id == self.proposals@.len()
        &&& forall|i: int| 0 <= i < self.proposals@.len() ==> proposal_wf(#[trigger] self.proposals@[i])
        &&& self.bond_held == escrowed_sum(self.proposals@)
    }

    /// Voting period of `kind`: the resolved vote policy's, else the configuration's.
    pub open spec fn voting_period(&self, kind: KindTag) -> nat {
        match self.policy@.resolve(kind).duration {
            Some(d) => d as nat,
            None => self.config.proposal_period as nat,
        }
    }

    pub open spec fn is_expired(&self, p: Proposal, now: u64) -> bool {
        now > p.submission_time + self.voting_period(p.kind.tag())
    }

    /// The status that the votes `votes` give proposal `p` under the current policy.
    pub open spec fn tally(&self, p: Proposal, votes: Seq<VoteRecord>) -> ProposalStatus {
        tally_status(
            self.policy@.resolve(p.kind.tag()),
            count_votes(votes, Vote::Approve),
            count_votes(votes, Vote::Reject),
            count_votes(votes, Vote::Remove),
            self.policy@.eligible_weight(p.kind.tag()),
        )
    }

    /// Where the bond goes when a vote gives `status`.
    pub open spec fn bond_after_vote(&self, status: ProposalStatus) -> BondState {
        match status {
            ProposalStatus::Rejected => BondState::Refunded,
            ProposalStatus::Removed => if self.policy@.remove_forfeits_bond {
                BondState::Forfeited
            } else {
                BondState::Refunded
            },
            _ => BondState::Escrowed,
        }
    }

    /// Where the bond goes when `p` expires: a failed proposal's is forfeited.
    pub open spec fn bond_after_expiry(&self, p: Proposal) -> BondState {
        if p.status == ProposalStatus::Failed || self.policy@.expiry_forfeits_bond {
            BondState::Forfeited
        } else {
            BondState::Refunded
        }
    }

    /// The error `act_proposal` gives, if any.
    pub open spec fn act_error(&self, caller: AccountIndex, id: u64, action: Action, now: u64) -> Option<DaoError> {
        if id >= self.proposals@.len() {
            Some(DaoError::ProposalNotFound)
        } else {
            let p = self.proposals@[id as int];
            if is_closed(p) {
                Some(DaoError::ProposalAlreadyFinalized)
            } else if !self.policy@.can_act(caller, p.kind.tag(), action) {
                Some(DaoError::PermissionDenied)
            } else if is_vote(action) {
                if p.status == ProposalStatus::InProgress {
                    None
                } else {
                    Some(DaoError::NotReady)
                }
            } else if action == Action::Finalize {
                if (p.status == ProposalStatus::InProgress && self.is_expired(p, now)) || p.status
                    == ProposalStatus::Failed {
                    None
                } else {
                    Some(DaoError::NotReady)
                }
            } else if action == Action::Execute {
                if (p.status == ProposalStatus::Approved && !p.pending) || p.status == ProposalStatus::Failed {
                    None
                } else {
                    Some(DaoError::NotReady)
                }
            } else {
                Some(DaoError::NotReady)
            }
        }
    }

    /// Every proposal of `old` moved along the status graph, and none was lost.
    pub open spec fn steps_from(&self, old: &Contract) -> bool {
        &&& self.account_id == old.account_id && self.factory_info == old.factory_info
        &&& old.proposals@.len() <= self.proposals@.len()
        &&& forall|i: int|
            0 <= i < old.proposals@.len() ==> proposal_step(#[trigger] old.proposals@[i], self.proposals@[i])
    }

    /// The state after executing proposal `id`, with the effects handed out.
    pub open spec fn executed(&self, old: &Contract, id: int, e: Effects) -> bool {
        let p = old.proposals@[id];
        let q = self.proposals@[id];
        let done = with_state(p, ProposalStatus::Approved, BondState::Refunded, false, true);
        let failed = with_state(p, ProposalStatus::Failed, BondState::Escrowed, false, false);
        &&& self.proposals@ == old.proposals@.update(id, q)
        &&& e.refund == refund_of(p, q)
        &&& match p.kind {
            ProposalKind::Transfer { .. } | ProposalKind::FunctionCall { .. } => {
                &&& q == with_state(p, ProposalStatus::Approved, BondState::Escrowed, true, false)
                &&& e.dispatch matches Some(d) && dispatch_matches(d, id as u64, p.kind)
                &&& self.policy@ == old.policy@ && self.config == old.config
            },
            ProposalKind::ChangePolicy { policy } => {
                &&& q == done && e.dispatch is None
                &&& self.policy@ == policy@ && self.config == old.config
            },
            ProposalKind::ChangeConfig { config } => {
                &&& q == done && e.dispatch is None
                &&& self.policy@ == old.policy@ && self.config == config
            },
            ProposalKind::AddMemberToRole { member_id, role } => {
                &&& e.dispatch is None && self.config == old.config
                &&& if old.policy@.is_group_role(role) {
                    q == done && self.policy@ == old.policy@.with_member(member_id, role)
                } else {
                    q == failed && self.policy@ == old.policy@
                }
            },
            ProposalKind::RemoveMemberFromRole { member_id, role } => {
                &&& e.dispatch is None && self.config == old.config
                &&& if old.policy@.is_group_role(role) {
                    q == done && self.policy@ == old.policy@.without_member(member_id, role)
                } else {
                    q == failed && self.policy@ == old.policy@
                }
            },
        }
    }

    /// A new organisation with no proposals, living at `account_id`; `caller`,
    /// who initialises it, becomes the upgrade authority with auto-update on.
    pub fn new(config: Config, policy: Policy, caller: AccountIndex, account_id: AccountIndex) -> (r: Contract)
        requires
            policy@.wf(),
        ensures
            r.wf(),
            r.config == config,
            r.policy@ == policy@,
            r.proposals@.len() == 0,
            r.last_proposal_id == 0,
            r.bond_held == 0,
            r.account_id == account_id,
            r.factory_info == (FactoryInfo { factory_id: caller, auto_update: true }),
    {
        Contract {
            config,
            policy,
            last_proposal_id: 0,
            proposals: Vec::new(),
            bond_held: 0,
            account_id,
            factory_info: FactoryInfo { factory_id: caller, auto_update: true },
        }
    }

    /// The upgrade authority and whether auto-update is allowed.
    pub fn get_factory_info(&self) -> (r: FactoryInfo)
        ensures
            r == self.factory_info,
    {
        self.factory_info
    }

    /// Sets the lifecycle fields of proposal `id` and keeps the escrowed total.
    fn set_state(&mut self, id: usize, status: ProposalStatus, bond_state: BondState, pending: bool, executed: bool) -> (refund: Option<Refund>)
        requires
            id < old(self).proposals@.len(),
            old(self).bond_held == escrowed_sum(old(self).proposals@),
            bond_state == BondState::Escrowed ==> old(self).proposals@[id as int].bond_state == BondState::Escrowed,
        ensures
            final(self).proposals@ == old(self).proposals@.update(
                id as int,
                with_state(old(self).proposals@[id as int], status, bond_state, pending, executed),
            ),
            final(self).bond_held == escrowed_sum(final(self).proposals@),
            refund == refund_of(old(self).proposals@[id as int], final(self).proposals@[id as int]),
            final(self).config == old(self).config,
            final(self).policy == old(self).policy,
            final(self).last_proposal_id == old(self).last_proposal_id,
            final(self).account_id == old(self).account_id,
            final(self).factory_info == old(self).factory_info,
    {
        let ghost before = self.proposals@;
        proof {
            lemma_escrowed_update(
                before,
                id as int,
                with_state(before[id as int], status, bond_state, pending, executed),
            );
        }
        let was_escrowed = self.proposals[id].bond_state == BondState::Escrowed;
        let bond = self.proposals[id].bond;
        let proposer = self.proposals[id].proposer;
        self.proposals[id].status = status;
        self.proposals[id].bond_state = bond_state;
        self.proposals[id].pending = pending;
        self.proposals[id].executed = executed;
        assert(self.proposals@ =~= before.update(id as int, with_state(before[id as int], status, bond_state, pending, executed)));
        if was_escrowed && bond_state != BondState::Escrowed {
            self.bond_held = self.bond_held - bond;
        }
        if was_escrowed && bond_state == BondState::Refunded {
            Some(Refund { account: proposer, amount: bond })
        } else {
            None
        }
    }
}


impl Contract {
    /// The error `add_proposal` gives, if any.
    pub open spec fn add_error(&self, caller: AccountIndex, kind: ProposalKind, deposit: u128) -> Option<DaoError> {
        if !self.policy@.can_act(caller, kind.tag(), Action::AddProposal) {
            Some(DaoError::PermissionDenied)
        } else if !kind.payload_valid() {
            Some(DaoError::InvalidPayload)
        } else if deposit < self.config.proposal_bond {
            Some(DaoError::InsufficientBond)
        } else {
            None
        }
    }

    /// What a successful `act_proposal` did.
    pub open spec fn acted(&self, old: &Contract, caller: AccountIndex, id: int, action: Action, e: Effects) -> bool {
        let p = old.proposals@[id];
        let q = self.proposals@[id];
        &&& is_vote(action) ==> {
            &&& q.votes@ == record_vote(p.votes@, caller, vote_of(action))
            &&& q.status == old.tally(p, q.votes@)
            &&& q.bond_state == old.bond_after_vote(q.status)
            &&& same_payload(p, q) && q.pending == p.pending && q.executed == p.executed
            &&& self.proposals@ == old.proposals@.update(id, q)
            &&& self.policy@ == old.policy@ && self.config == old.config
            &&& e.refund == refund_of(p, q) && e.dispatch is None
        }
        &&& action == Action::Finalize ==> {
            &&& self.proposals@ == old.proposals@.update(
                id,
                with_state(p, ProposalStatus::Expired, old.bond_after_expiry(p), false, false),
            )
            &&& self.policy@ == old.policy@ && self.config == old.config
            &&& e.refund == refund_of(p, q) && e.dispatch is None
        }
        &&& action == Action::Execute ==> self.executed(old, id, e)
    }

    /// A proposal that a vote has decided is never moved back by another vote:
    /// every vote on it is refused.
    pub proof fn lemma_decided_stays(&self, caller: AccountIndex, id: u64, action: Action, now: u64)
        requires
            self.wf(),
            id < self.proposals@.len(),
            self.proposals@[id as int].status != ProposalStatus::InProgress,
            is_vote(action),
        ensures
            self.act_error(caller, id, action, now) is Some,
    {
    }

    /// A closed proposal (decided other than by approval, expired, moved, or
    /// approved and executed) refuses every action.
    pub proof fn lemma_closed_refuses(&self, caller: AccountIndex, id: u64, action: Action, now: u64)
        requires
            self.wf(),
            id < self.proposals@.len(),
            is_closed(self.proposals@[id as int]),
        ensures
            self.act_error(caller, id, action, now) == Some(DaoError::ProposalAlreadyFinalized),
    {
    }

    /// Submits a proposal with `deposit` attached at time `now`; returns its id.
    pub fn add_proposal(&mut self, caller: AccountIndex, input: ProposalInput, deposit: u128, now: u64) -> (r: Result<u64, DaoError>)
        requires
            old(self).wf(),
            old(self).last_proposal_id < u64::MAX,
            old(self).bond_held + deposit <= u128::MAX,
        ensures
            final(self).wf(),
            final(self).steps_from(old(self)),
            r is Err <==> old(self).add_error(caller, input.kind, deposit) is Some,
            r is Err ==> r == Err::<u64, DaoError>(old(self).add_error(caller, input.kind, deposit)->Some_0)
                && *final(self) == *old(self),
            r is Ok ==> {
                let q = final(self).proposals@[old(self).proposals@.len() as int];
                &&& r == Ok::<u64, DaoError>(old(self).last_proposal_id)
                &&& final(self).proposals@ == old(self).proposals@.push(q)
                &&& q.proposer == caller && q.description == input.description && q.kind == input.kind
                &&& q.status == ProposalStatus::InProgress && q.bond == deposit && q.bond_state == BondState::Escrowed
                &&& q.submission_time == now && q.votes@.len() == 0 && !q.pending && !q.executed
                &&& final(self).bond_held == old(self).bond_held + deposit
                &&& final(self).policy@ == old(self).policy@ && final(self).config == old(self).config
            },
    {
        let tag = input.kind.kind_tag();
        if !self.policy.can_act(caller, tag, Action::AddProposal) {
            return Err(DaoError::PermissionDenied);
        }
        if !input.kind.is_payload_valid() {
            return Err(DaoError::InvalidPayload);
        }
        if deposit < self.config.proposal_bond {
            return Err(DaoError::InsufficientBond);
        }
        let id = self.last_proposal_id;
        let proposal = Proposal {
            proposer: caller,
            description: input.description,
            kind: input.kind,
            status: ProposalStatus::InProgress,
            bond: deposit,
            bond_state: BondState::Escrowed,
            submission_time: now,
            votes: Vec::new(),
            pending: false,
            executed: false,
        };
        proof {
            lemma_escrowed_push(self.proposals@, proposal);
        }
        self.proposals.push(proposal);
        self.bond_held = self.bond_held + deposit;
        self.last_proposal_id = id + 1;
        Ok(id)
    }

    fn vote(&mut self, idx: usize, caller: AccountIndex, vote: Vote) -> (e: Effects)
        requires
            old(self).wf(),
            idx < old(self).proposals@.len(),
            old(self).proposals@[idx as int].status == ProposalStatus::InProgress,
        ensures
            final(self).wf(),
            final(self).steps_from(old(self)),
            final(self).acted(old(self), caller, idx as int, match vote {
                Vote::Approve => Action::VoteApprove,
                Vote::Reject => Action::VoteReject,
                Vote::Remove => Action::VoteRemove,
            }, e),
    {
        let ghost p = self.proposals@[idx as int];
        let tag = self.proposals[idx].kind.kind_tag();
        cast_vote(&mut self.proposals[idx].votes, caller, vote);
        let ghost mid = self.proposals@[idx as int];
        proof {
            lemma_escrowed_update(old(self).proposals@, idx as int, mid);
            assert(self.proposals@ =~= old(self).proposals@.update(idx as int, mid));
        }
        let approve = count_votes_exec(&self.proposals[idx].votes, Vote::Approve);
        let reject = count_votes_exec(&self.proposals[idx].votes, Vote::Reject);
        let remove = count_votes_exec(&self.proposals[idx].votes, Vote::Remove);
        let cast = self.proposals[idx].votes.len();
        proof {
            lemma_counts_partition(self.proposals@[idx as int].votes@);
            assert(approve + reject + remove == cast);
        }
        let vp = self.policy.resolve_vote_policy(tag);
        proof {
            lemma_resolve_wf(self.policy@, tag);
        }
        let total = self.policy.eligible_weight(tag);
        let status = tally_status_exec(&vp, approve, reject, remove, total);
        let bond_state = match status {
            ProposalStatus::Rejected => BondState::Refunded,
            ProposalStatus::Removed => if self.policy.remove_forfeits_bond {
                BondState::Forfeited
            } else {
                BondState::Refunded
            },
            _ => BondState::Escrowed,
        };
        let refund = self.set_state(idx, status, bond_state, false, false);
        proof {
            assert(old(self).proposals@.update(idx as int, mid).update(idx as int, self.proposals@[idx as int])
                =~= old(self).proposals@.update(idx as int, self.proposals@[idx as int]));
        }
        Effects { refund, dispatch: None }
    }

    fn is_expired_exec(&self, idx: usize, now: u64) -> (r: bool)
        requires
            idx < self.proposals@.len(),
        ensures
            r == self.is_expired(self.proposals@[idx as int], now),
    {
        let tag = self.proposals[idx].kind.kind_tag();
        let vp = self.policy.resolve_vote_policy(tag);
        let period: u64 = match vp.duration {
            Some(d) => d,
            None => self.config.proposal_period,
        };
        (now as u128) > (self.proposals[idx].submission_time as u128) + (period as u128)
    }

    /// Status after a finalize: expired, with the bond refunded or forfeited.
    fn finalize(&mut self, idx: usize) -> (e: Effects)
        requires
            old(self).wf(),
            idx < old(self).proposals@.len(),
            old(self).proposals@[idx as int].status == ProposalStatus::InProgress
                || old(self).proposals@[idx as int].status == ProposalStatus::Failed,
        ensures
            final(self).wf(),
            final(self).steps_from(old(self)),
            final(self).acted(old(self), 0, idx as int, Action::Finalize, e),
    {
        let bond_state = if self.proposals[idx].status == ProposalStatus::Failed || self.policy.expiry_forfeits_bond {
            BondState::Forfeited
        } else {
            BondState::Refunded
        };
        let refund = self.set_state(idx, ProposalStatus::Expired, bond_state, false, false);
        Effects { refund, dispatch: None }
    }
}

impl Contract {
    /// Carries out an approved (or failed) proposal.
    fn execute(&mut self, idx: usize) -> (e: Effects)
        requires
            old(self).wf(),
            idx < old(self).proposals@.len(),
            (old(self).proposals@[idx as int].status == ProposalStatus::Approved
                && !old(self).proposals@[idx as int].pending && !old(self).proposals@[idx as int].executed)
                || old(self).proposals@[idx as int].status == ProposalStatus::Failed,
        ensures
            final(self).wf(),
            final(self).steps_from(old(self)),
            final(self).executed(old(self), idx as int, e),
    {
        let tag = self.proposals[idx].kind.kind_tag();
        match tag {
            KindTag::Transfer | KindTag::FunctionCall => {
                let d = make_dispatch(&self.proposals[idx].kind, idx as u64);
                let refund = self.set_state(idx, ProposalStatus::Approved, BondState::Escrowed, true, false);
                Effects { refund, dispatch: Some(d) }
            },
            KindTag::ChangePolicy => {
                let fresh = match &self.proposals[idx].kind {
                    ProposalKind::ChangePolicy { policy } => policy.duplicate(),
                    _ => self.policy.duplicate(),
                };
                let refund = self.set_state(idx, ProposalStatus::Approved, BondState::Refunded, false, true);
                self.policy = fresh;
                Effects { refund, dispatch: None }
            },
            KindTag::ChangeConfig => {
                let fresh = match &self.proposals[idx].kind {
                    ProposalKind::ChangeConfig { config } => config.duplicate(),
                    _ => self.config.duplicate(),
                };
                let refund = self.set_state(idx, ProposalStatus::Approved, BondState::Refunded, false, true);
                self.config = fresh;
                Effects { refund, dispatch: None }
            },
            _ => {
                let (member, role, adding) = match &self.proposals[idx].kind {
                    ProposalKind::AddMemberToRole { member_id, role } => (*member_id, *role, true),
                    ProposalKind::RemoveMemberFromRole { member_id, role } => (*member_id, *role, false),
                    _ => (0, 0, true),
                };
                let applied = if adding {
                    self.policy.add_member(member, role)
                } else {
                    self.policy.remove_member(member, role)
                };
                let refund = if applied {
                    self.set_state(idx, ProposalStatus::Approved, BondState::Refunded, false, true)
                } else {
                    self.set_state(idx, ProposalStatus::Failed, BondState::Escrowed, false, false)
                };
                Effects { refund, dispatch: None }
            },
        }
    }

    /// Votes on, finalizes or executes proposal `id` on behalf of `caller` at time `now`.
    pub fn act_proposal(&mut self, caller: AccountIndex, id: u64, action: Action, now: u64) -> (r: Result<Effects, DaoError>)
        requires
            old(self).wf(),
        ensures
            final(self).wf(),
            final(self).steps_from(old(self)),
            final(self).proposals@.len() == old(self).proposals@.len(),
            final(self).last_proposal_id == old(self).last_proposal_id,
            r is Err <==> old(self).act_error(caller, id, action, now) is Some,
            match r {
                Err(err) => old(self).act_error(caller, id, action, now) == Some(err) && *final(self) == *old(self),
                Ok(e) => final(self).acted(old(self), caller, id as int, action, e),
            },
    {
        if (id as u128) >= (self.proposals.len() as u128) {
            return Err(DaoError::ProposalNotFound);
        }
        let idx = id as usize;
        let status = self.proposals[idx].status;
        let closed = match status {
            ProposalStatus::InProgress | ProposalStatus::Failed => false,
            ProposalStatus::Approved => self.proposals[idx].executed,
            _ => true,
        };
        if closed {
            return Err(DaoError::ProposalAlreadyFinalized);
        }
        let tag = self.proposals[idx].kind.kind_tag();
        if !self.policy.can_act(caller, tag, action) {
            return Err(DaoError::PermissionDenied);
        }
        match action {
            Action::VoteApprove | Action::VoteReject | Action::VoteRemove => {
                if status != ProposalStatus::InProgress {
                    return Err(DaoError::NotReady);
                }
                let vote = match action {
                    Action::VoteReject => Vote::Reject,
                    Action::VoteRemove => Vote::Remove,
                    _ => Vote::Approve,
                };
                Ok(self.vote(idx, caller, vote))
            },
            Action::Finalize => {
                let ready = status == ProposalStatus::Failed || (status == ProposalStatus::InProgress
                    && self.is_expired_exec(idx, now));
                if !ready {
                    return Err(DaoError::NotReady);
                }
                Ok(self.finalize(idx))
            },
            Action::Execute => {
                let ready = status == ProposalStatus::Failed || (status == ProposalStatus::Approved
                    && !self.proposals[idx].pending);
                if !ready {
                    return Err(DaoError::NotReady);
                }
                Ok(self.execute(idx))
            },
            Action::AddProposal => Err(DaoError::NotReady),
        }
    }

    /// The state after the completion callback for `proposal_id` reports `outcome`.
    pub open spec fn completed(&self, old: &Contract, proposal_id: u64, outcome: Outcome, e: Effects) -> bool {
        &&& self.steps_from(old)
        &&& e.dispatch is None
        &&& proposal_id >= old.proposals@.len() ==> *self == *old && e.refund is None
        &&& proposal_id < old.proposals@.len() ==> {
            let p = old.proposals@[proposal_id as int];
            &&& self.proposals@ == old.proposals@.update(proposal_id as int, callback_effect(p, outcome))
            &&& e.refund == refund_of(p, callback_effect(p, outcome))
            &&& self.policy == old.policy && self.config == old.config
            &&& self.last_proposal_id == old.last_proposal_id
        }
    }

    /// Settles the pending effect of proposal `proposal_id` with the reported outcome;
    /// a stale or repeated report changes nothing. Only the organisation's own
    /// account may report.
    pub fn on_completion(&mut self, caller: AccountIndex, proposal_id: u64, outcome: Outcome) -> (r: Result<Effects, DaoError>)
        requires
            old(self).wf(),
        ensures
            final(self).wf(),
            r is Err <==> caller != old(self).account_id,
            match r {
                Err(err) => err == DaoError::PermissionDenied && *final(self) == *old(self),
                Ok(e) => final(self).completed(old(self), proposal_id, outcome, e),
            },
    {
        if caller != self.account_id {
            return Err(DaoError::PermissionDenied);
        }
        if (proposal_id as u128) >= (self.proposals.len() as u128) {
            return Ok(Effects { refund: None, dispatch: None });
        }
        let idx = proposal_id as usize;
        if !self.proposals[idx].pending {
            proof {
                assert(self.proposals@ =~= self.proposals@.update(idx as int, self.proposals@[idx as int]));
            }
            return Ok(Effects { refund: None, dispatch: None });
        }
        let refund = match outcome {
            Outcome::Success => self.set_state(idx, ProposalStatus::Approved, BondState::Refunded, false, true),
            Outcome::Failure => self.set_state(idx, ProposalStatus::Failed, BondState::Escrowed, false, false),
        };
        Ok(Effects { refund, dispatch: None })
    }

    /// The proposal with id `id`.
    pub fn get_proposal(&self, id: u64) -> (r: Option<&Proposal>)
        ensures
            r is Some <==> id < self.proposals@.len(),
            r is Some ==> *r->Some_0 == self.proposals@[id as int],
    {
        if (id as u128) < (self.proposals.len() as u128) {
            Some(&self.proposals[id as usize])
        } else {
            None
        }
    }

    /// Summaries of the proposals with ids from `from_index` up to `from_index + limit`,
    /// leaving out removed ones.
    pub fn get_proposals(&self, from_index: u64, limit: u64) -> (r: Vec<ProposalOutput>)
        ensures
            r@ == listing(
                self.proposals@,
                from_index as int,
                if from_index >= self.proposals@.len() {
                    from_index as int
                } else {
                    from_index + min_int(limit as int, self.proposals@.len() - from_index)
                },
            ),
    {
        let mut r: Vec<ProposalOutput> = Vec::new();
        let len = self.proposals.len() as u128;
        if (from_index as u128) >= len {
            return r;
        }
        let end: u128 = if (from_index as u128) + (limit as u128) < len {
            (from_index as u128) + (limit as u128)
        } else {
            len
        };
        let mut i = from_index as usize;
        while (i as u128) < end
            invariant
                from_index <= i <= end,
                end <= self.proposals@.len(),
                self.proposals@.len() <= usize::MAX,
                end == from_index + min_int(limit as int, self.proposals@.len() - from_index),
                r@ == listing(self.proposals@, from_index as int, i as int),
            decreases end - i,
        {
            let p = &self.proposals[i];
            if p.status != ProposalStatus::Removed {
                r.push(ProposalOutput {
                    id: i as u64,
                    proposer: p.proposer,
                    kind: p.kind.kind_tag(),
                    status: p.status,
                    bond: p.bond,
                    bond_state: p.bond_state,
                    submission_time: p.submission_time,
                    votes: p.votes.len(),
                    executed: p.executed,
                });
            }
            i = i + 1;
        }
        r
    }
}

impl ExtSelf for Contract {
    open spec fn ready(&self) -> bool {
        self.wf()
    }

    fn on_proposal_callback(&mut self, caller: AccountIndex, proposal_id: u64, outcome: Outcome) -> (r: Result<Effects, DaoError>)
        ensures
            r is Err <==> caller != old(self).account_id,
            match r {
                Err(err) => err == DaoError::PermissionDenied && *final(self) == *old(self),
                Ok(e) => final(self).completed(old(self), proposal_id, outcome, e),
            },
    {
        self.on_completion(caller, proposal_id, outcome)
    }
}

pub open spec fn min_int(a: int, b: int) -> int {
    if a <= b { a } else { b }
}

/// Summaries of the proposals with ids in `lo..hi` that were not removed, in id order.
pub open spec fn listing(s: Seq<Proposal>, lo: int, hi: int) -> Seq<ProposalOutput>
    decreases hi - lo,
{
    if hi <= lo {
        Seq::empty()
    } else if s[hi - 1].status == ProposalStatus::Removed {
        listing(s, lo, hi - 1)
    } else {
        listing(s, lo, hi - 1).push(output_of((hi - 1) as u64, s[hi - 1]))
    }
}

/// The summary of proposal `p` stored under `id`.
pub open spec fn output_of(id: u64, p: Proposal) -> ProposalOutput {
    ProposalOutput {
        id,
        proposer: p.proposer,
        kind: p.kind.tag(),
        status: p.status,
        bond: p.bond,
        bond_state: p.bond_state,
        submission_time: p.submission_time,
        votes: p.votes@.len() as usize,
        executed: p.executed,
    }
}

fn make_dispatch(kind: &ProposalKind, id: u64) -> (d: Dispatch)
    requires
        kind.is_external(),
    ensures
        dispatch_matches(d, id, *kind),
{
    match kind {
        ProposalKind::Transfer { token_id, receiver_id, amount, msg } => {
            let msg = match msg {
                Some(m) => Some(m.clone()),
                None => None,
            };
            Dispatch::Transfer { proposal_id: id, token_id: *token_id, receiver_id: *receiver_id, amount: *amount, msg }
        },
        ProposalKind::FunctionCall { receiver_id, method_name, args, deposit, gas } => {
            Dispatch::FunctionCall {
                proposal_id: id,
                receiver_id: *receiver_id,
                method_name: method_name.clone(),
                args: crate::types::copy_vec(args),
                deposit: *deposit,
                gas: *gas,
            }
        },
        _ => {
            proof {
                assert(false);
            }
            Dispatch::Transfer { proposal_id: id, token_id: None, receiver_id: 0, amount: 0, msg: None }
        },
    }
}

} // verus!
