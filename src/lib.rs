//! Governance core of a decentralised organisation: proposals, a role and
//! quorum based voting policy, and the two-phase execution of approved
//! proposals.
use vstd::prelude::*;

pub mod contract;
pub mod lifecycle;
pub mod policy;
pub mod proposals;
pub mod types;

pub use crate::contract::Contract;
pub use crate::lifecycle::{Dispatch, Effects, ProposalOutput, Refund};
pub use crate::policy::{
    default_policy, KindPolicy, Membership, Permission, Policy, PolicyView, RoleDef, Threshold, VotePolicy,
};
pub use crate::proposals::{Proposal, ProposalInput, ProposalKind, VoteRecord};
pub use crate::types::{
    AccountIndex, Action, BondState, Config, DaoError, FactoryInfo, KindTag, Outcome, ProposalStatus,
    StorageKeys, Vote,
};

verus! {

/// Calls the organisation makes to itself once a dispatched effect resolves.
pub trait ExtSelf {
    /// The state is consistent.
    spec fn ready(&self) -> bool;

    /// Callback after proposal execution, with the outcome the environment reported.
    fn on_proposal_callback(&mut self, caller: AccountIndex, proposal_id: u64, outcome: Outcome) -> (r: Result<
        Effects,
        DaoError,
    >)
        requires
            old(self).ready(),
        ensures
            final(self).ready(),
    ;
}

} // verus!
