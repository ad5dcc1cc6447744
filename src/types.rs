use vstd::prelude::*;

verus! {

/// Account identities, already normalised by the environment.
pub type AccountIndex = u64;

/// Status of a proposal.
#[derive(Clone, Copy, Debug, PartialEq, Eq, Structural)]
pub enum ProposalStatus {
    InProgress,
    /// If quorum voted yes, this proposal is successfully approved.
    Approved,
    /// If quorum voted no, this proposal is rejected. Bond is returned.
    Rejected,
    /// If quorum voted to remove (e.g. spam), this proposal is rejected.
    Removed,
    /// Expired after period of time.
    Expired,
    /// If proposal was moved to Hub or somewhere else.
    Moved,
    /// If proposal has failed when executing. Allowed to execute again or to expire.
    Failed,
}

/// What a caller may do with a proposal.
#[derive(Clone, Copy, Debug, PartialEq, Eq, Structural)]
pub enum Action {
    AddProposal,
    VoteApprove,
    VoteReject,
    VoteRemove,
    Finalize,
    Execute,
}

/// A recorded vote.
#[derive(Clone, Copy, Debug, PartialEq, Eq, Structural)]
pub enum Vote {
    Approve,
    Reject,
    Remove,
}

/// The kind of a proposal, without its payload.
#[derive(Clone, Copy, Debug, PartialEq, Eq, Structural)]
pub enum KindTag {
    Transfer,
    FunctionCall,
    ChangePolicy,
    ChangeConfig,
    AddMemberToRole,
    RemoveMemberFromRole,
}

/// The outcome of a dispatched external effect, as the environment reports it.
#[derive(Clone, Copy, Debug, PartialEq, Eq, Structural)]
pub enum Outcome {
    Success,
    Failure,
}

/// Where an escrowed bond stands.
#[derive(Clone, Copy, Debug, PartialEq, Eq, Structural)]
pub enum BondState {
    Escrowed,
    Refunded,
    Forfeited,
}

/// Errors of the entry points.
#[derive(Clone, Copy, Debug, PartialEq, Eq, Structural)]
pub enum DaoError {
    InsufficientBond,
    InvalidPayload,
    PermissionDenied,
    ProposalNotFound,
    ProposalAlreadyFinalized,
    /// The action does not apply to the proposal's current state.
    NotReady,
}

/// Fixed storage keys of the persistent namespaces.
#[derive(Clone, Copy, Debug, PartialEq, Eq, Structural)]
pub enum StorageKeys {
    Config,
    Policy,
    Delegations,
    Proposals,
    Bounties,
    BountyClaimers,
    BountyClaimCounts,
    Blobs,
}

/// Who may push upgrades, and whether upgrades apply on their own.
#[derive(Clone, Copy, Debug, PartialEq, Eq, Structural)]
pub struct FactoryInfo {
    pub factory_id: AccountIndex,
    pub auto_update: bool,
}

/// Organisation-wide settings.
#[derive(Clone, Debug)]
pub struct Config {
    pub name: String,
    pub purpose: String,
    /// Bond a proposer has to attach.
    pub proposal_bond: u128,
    /// Default voting period, in nanoseconds.
    pub proposal_period: u64,
}

impl Config {
    /// A copy with the same contents.
    pub fn duplicate(&self) -> (r: Config)
        ensures
            r == *self,
    {
        Config {
            name: self.name.clone(),
            purpose: self.purpose.clone(),
            proposal_bond: self.proposal_bond,
            proposal_period: self.proposal_period,
        }
    }
}

/// Copies a vector of plain values.
pub fn copy_vec<T: Copy>(v: &Vec<T>) -> (r: Vec<T>)
    ensures
        r@ == v@,
{
    let mut r: Vec<T> = Vec::new();
    let mut i: usize = 0;
    while i < v.len()
        invariant
            i <= v@.len(),
            r@ == v@.subrange(0, i as int),
        decreases v@.len() - i,
    {
        r.push(v[i]);
        i = i + 1;
        assert(r@ =~= v@.subrange(0, i as int));
    }
    assert(r@ =~= v@);
    r
}

} // verus!
