use dao_core::{
    default_policy, FactoryInfo, Action, BondState, Config, Contract, DaoError, Dispatch, ExtSelf, KindTag,
    Outcome, Policy, ProposalInput, ProposalKind, ProposalStatus, Refund,
};

const ONE_NEAR: u128 = 1_000_000_000_000_000_000_000_000;
const SELF: u64 = 1000;
const DAY: u64 = 1_000_000_000 * 24 * 60 * 60;

fn test_config() -> Config {
    Config {
        name: "test".to_string(),
        purpose: "to test".to_string(),
        proposal_bond: ONE_NEAR,
        proposal_period: 7 * DAY,
    }
}

/// The default policy, but at least half of the council has to take part.
fn quorum_policy(council: Vec<u64>) -> Policy {
    let mut policy = default_policy(council);
    policy.default_vote_policy.quorum = dao_core::Threshold::Ratio(1, 2);
    policy
}

fn transfer_input() -> ProposalInput {
    ProposalInput {
        description: "test".to_string(),
        kind: ProposalKind::Transfer {
            token_id: None,
            receiver_id: 2,
            amount: 100 * ONE_NEAR,
            msg: None,
        },
    }
}

fn create_proposal(contract: &mut Contract, now: u64) -> u64 {
    contract.add_proposal(1, transfer_input(), ONE_NEAR, now).unwrap()
}

#[test]
fn test_basics() {
    let mut contract = Contract::new(test_config(), default_policy(vec![1, 2]), 1, SELF);
    let id = create_proposal(&mut contract, 0);
    assert_eq!(contract.get_proposal(id).unwrap().description, "test");
    assert_eq!(contract.get_proposals(0, 10).len(), 1);

    let id = create_proposal(&mut contract, 0);
    contract.act_proposal(1, id, Action::VoteApprove, 0).unwrap();
    assert_eq!(
        contract.get_proposal(id).unwrap().status,
        ProposalStatus::Approved
    );

    let id = create_proposal(&mut contract, 0);
    // proposal expired, finalize.
    let now = 1_000_000_000 * 24 * 60 * 60 * 8;
    contract.act_proposal(1, id, Action::Finalize, now).unwrap();
    assert_eq!(
        contract.get_proposal(id).unwrap().status,
        ProposalStatus::Expired
    );
}

#[test]
fn transfer_approved_executed_and_refunded() {
    let mut c = Contract::new(test_config(), quorum_policy(vec![1, 2, 3]), 1, SELF);
    let id = create_proposal(&mut c, 5);
    let p = c.get_proposal(id).unwrap();
    assert_eq!(p.status, ProposalStatus::InProgress);
    assert_eq!(p.votes.len(), 0);
    assert_eq!(c.bond_held, ONE_NEAR);

    c.act_proposal(1, id, Action::VoteApprove, 6).unwrap();
    assert_eq!(c.get_proposal(id).unwrap().status, ProposalStatus::InProgress);
    c.act_proposal(2, id, Action::VoteApprove, 7).unwrap();
    assert_eq!(c.get_proposal(id).unwrap().status, ProposalStatus::Approved);
    assert_eq!(c.get_proposal(id).unwrap().bond_state, BondState::Escrowed);
    assert_eq!(c.bond_held, ONE_NEAR);

    let e = c.act_proposal(3, id, Action::Execute, 8).unwrap();
    assert!(e.refund.is_none());
    match e.dispatch {
        Some(Dispatch::Transfer { proposal_id, token_id, receiver_id, amount, msg }) => {
            assert_eq!(proposal_id, id);
            assert_eq!(token_id, None);
            assert_eq!(receiver_id, 2);
            assert_eq!(amount, 100 * ONE_NEAR);
            assert!(msg.is_none());
        }
        _ => panic!("expected a transfer"),
    }
    assert!(c.get_proposal(id).unwrap().pending);

    let e = c.on_proposal_callback(SELF, id, Outcome::Success).unwrap();
    assert_eq!(e.refund, Some(Refund { account: 1, amount: ONE_NEAR }));
    let p = c.get_proposal(id).unwrap();
    assert_eq!(p.status, ProposalStatus::Approved);
    assert!(p.executed);
    assert_eq!(p.bond_state, BondState::Refunded);
    assert_eq!(c.bond_held, 0);
}

#[test]
fn unvoted_proposal_expires_and_refunds() {
    let mut c = Contract::new(test_config(), default_policy(vec![1, 2]), 1, SELF);
    let id = create_proposal(&mut c, 100);
    assert_eq!(
        c.act_proposal(1, id, Action::Finalize, 100 + 7 * DAY).err(),
        Some(DaoError::NotReady)
    );
    let e = c.act_proposal(1, id, Action::Finalize, 101 + 7 * DAY).unwrap();
    assert_eq!(e.refund, Some(Refund { account: 1, amount: ONE_NEAR }));
    assert_eq!(c.get_proposal(id).unwrap().status, ProposalStatus::Expired);
    assert_eq!(c.bond_held, 0);
}

#[test]
fn failed_dispatch_retried_refunds_once() {
    let mut c = Contract::new(test_config(), default_policy(vec![1]), 1, SELF);
    let id = create_proposal(&mut c, 0);
    c.act_proposal(1, id, Action::VoteApprove, 0).unwrap();
    c.act_proposal(1, id, Action::Execute, 0).unwrap();
    let e = c.on_proposal_callback(SELF, id, Outcome::Failure).unwrap();
    assert!(e.refund.is_none());
    assert_eq!(c.get_proposal(id).unwrap().status, ProposalStatus::Failed);
    assert_eq!(c.bond_held, ONE_NEAR);

    let e = c.act_proposal(1, id, Action::Execute, 1).unwrap();
    assert!(matches!(e.dispatch, Some(Dispatch::Transfer { .. })));
    let e = c.on_proposal_callback(SELF, id, Outcome::Success).unwrap();
    assert_eq!(e.refund, Some(Refund { account: 1, amount: ONE_NEAR }));
    assert_eq!(c.get_proposal(id).unwrap().status, ProposalStatus::Approved);
    assert!(c.get_proposal(id).unwrap().executed);

    // A repeated report changes nothing and refunds nothing.
    let e = c.on_proposal_callback(SELF, id, Outcome::Failure).unwrap();
    assert!(e.refund.is_none());
    assert_eq!(c.get_proposal(id).unwrap().status, ProposalStatus::Approved);
    assert_eq!(c.bond_held, 0);
}

#[test]
fn closed_proposal_cannot_move() {
    let mut c = Contract::new(test_config(), default_policy(vec![1, 2]), 1, SELF);
    let id = create_proposal(&mut c, 0);
    c.act_proposal(1, id, Action::VoteReject, 0).unwrap();
    assert_eq!(c.get_proposal(id).unwrap().status, ProposalStatus::Rejected);
    for action in [Action::VoteApprove, Action::Finalize, Action::Execute] {
        assert_eq!(
            c.act_proposal(2, id, action, 100 * DAY).err(),
            Some(DaoError::ProposalAlreadyFinalized)
        );
    }
    assert_eq!(c.get_proposal(id).unwrap().status, ProposalStatus::Rejected);
}

#[test]
fn revote_replaces_earlier_vote() {
    let mut c = Contract::new(test_config(), quorum_policy(vec![1, 2, 3, 4]), 1, SELF);
    let id = create_proposal(&mut c, 0);
    c.act_proposal(1, id, Action::VoteApprove, 0).unwrap();
    c.act_proposal(1, id, Action::VoteApprove, 0).unwrap();
    c.act_proposal(1, id, Action::VoteApprove, 0).unwrap();
    // Counted once: one participant out of four is under the quorum.
    assert_eq!(c.get_proposal(id).unwrap().status, ProposalStatus::InProgress);
    assert_eq!(c.get_proposal(id).unwrap().votes.len(), 1);
    c.act_proposal(2, id, Action::VoteApprove, 0).unwrap();
    assert_eq!(c.get_proposal(id).unwrap().status, ProposalStatus::Approved);

    let id = create_proposal(&mut c, 0);
    let mut policy_quorum = c.policy.duplicate();
    policy_quorum.default_vote_policy.quorum = dao_core::Threshold::Weight(2);
    let mut c2 = Contract::new(test_config(), policy_quorum, 1, SELF);
    let id2 = create_proposal(&mut c2, 0);
    c2.act_proposal(1, id2, Action::VoteApprove, 0).unwrap();
    c2.act_proposal(1, id2, Action::VoteReject, 0).unwrap();
    let p = c2.get_proposal(id2).unwrap();
    assert_eq!(p.votes.len(), 1);
    assert_eq!(p.votes[0].vote, dao_core::Vote::Reject);
    assert_eq!(p.status, ProposalStatus::InProgress);
    assert!(id > 0);
}

#[test]
fn override_preferred_over_default() {
    let mut policy = default_policy(vec![1, 2]);
    let strict = dao_core::VotePolicy {
        quorum: dao_core::Threshold::Weight(0),
        threshold: dao_core::Threshold::Weight(2),
        duration: Some(DAY),
    };
    policy.overrides.push(dao_core::KindPolicy { kind: KindTag::FunctionCall, vote_policy: strict });
    assert_eq!(policy.resolve_vote_policy(KindTag::FunctionCall), strict);
    assert_eq!(policy.resolve_vote_policy(KindTag::Transfer), policy.default_vote_policy);
}

#[test]
fn votes_after_decision_refused() {
    let mut c = Contract::new(test_config(), quorum_policy(vec![1, 2, 3]), 1, SELF);
    let id = create_proposal(&mut c, 0);
    c.act_proposal(1, id, Action::VoteApprove, 0).unwrap();
    c.act_proposal(2, id, Action::VoteApprove, 0).unwrap();
    assert_eq!(c.get_proposal(id).unwrap().status, ProposalStatus::Approved);
    assert_eq!(
        c.act_proposal(3, id, Action::VoteReject, 0).err(),
        Some(DaoError::NotReady)
    );
    assert_eq!(c.get_proposal(id).unwrap().status, ProposalStatus::Approved);
}

#[test]
fn bond_held_tracks_escrow() {
    let mut c = Contract::new(test_config(), default_policy(vec![1, 2]), 1, SELF);
    let a = c.add_proposal(1, transfer_input(), ONE_NEAR, 0).unwrap();
    let b = c.add_proposal(5, transfer_input(), 3 * ONE_NEAR, 0).unwrap();
    assert_eq!(c.bond_held, 4 * ONE_NEAR);
    c.act_proposal(1, a, Action::VoteRemove, 0).unwrap();
    assert_eq!(c.get_proposal(a).unwrap().status, ProposalStatus::Removed);
    assert_eq!(c.get_proposal(a).unwrap().bond_state, BondState::Forfeited);
    assert_eq!(c.bond_held, 3 * ONE_NEAR);
    let e = c.act_proposal(2, b, Action::VoteReject, 0).unwrap();
    assert_eq!(e.refund, Some(Refund { account: 5, amount: 3 * ONE_NEAR }));
    assert_eq!(c.bond_held, 0);
}

#[test]
fn errors_of_each_kind() {
    let mut c = Contract::new(test_config(), default_policy(vec![1]), 1, SELF);
    assert_eq!(
        c.add_proposal(1, transfer_input(), ONE_NEAR - 1, 0).err(),
        Some(DaoError::InsufficientBond)
    );
    let zero = ProposalInput {
        description: "zero".to_string(),
        kind: ProposalKind::Transfer { token_id: Some(4), receiver_id: 2, amount: 0, msg: None },
    };
    assert_eq!(c.add_proposal(1, zero, ONE_NEAR, 0).err(), Some(DaoError::InvalidPayload));
    assert_eq!(c.proposals.len(), 0);
    assert_eq!(c.bond_held, 0);
    assert_eq!(
        c.act_proposal(1, 0, Action::VoteApprove, 0).err(),
        Some(DaoError::ProposalNotFound)
    );
    let id = create_proposal(&mut c, 0);
    assert_eq!(
        c.act_proposal(9, id, Action::VoteApprove, 0).err(),
        Some(DaoError::PermissionDenied)
    );
    assert_eq!(
        c.act_proposal(1, id, Action::Execute, 0).err(),
        Some(DaoError::NotReady)
    );
}

#[test]
fn ratio_quorum_without_eligible_weight_never_decides() {
    let mut policy = default_policy(vec![]);
    policy.default_vote_policy.quorum = dao_core::Threshold::Ratio(1, 2);
    policy.permissions[0].action = None;
    let mut c = Contract::new(test_config(), policy, 1, SELF);
    let id = create_proposal(&mut c, 0);
    c.act_proposal(7, id, Action::VoteApprove, 0).unwrap();
    assert_eq!(c.get_proposal(id).unwrap().status, ProposalStatus::InProgress);
    assert_eq!(c.policy.eligible_weight(KindTag::Transfer), 0);
}

#[test]
fn majority_of_votes_cast_decides() {
    let vp = dao_core::VotePolicy {
        quorum: dao_core::Threshold::Ratio(1, 2),
        threshold: dao_core::Threshold::Ratio(1, 2),
        duration: None,
    };
    // 2 of 4 eligible took part: quorum met; 2 of 2 approve.
    assert!(dao_core::policy::threshold_reached_exec(&vp, 2, 2, 4));
    // 1 of 4 took part: under quorum.
    assert!(!dao_core::policy::threshold_reached_exec(&vp, 1, 1, 4));
    // A tie never decides.
    assert!(!dao_core::policy::threshold_reached_exec(&vp, 2, 4, 4));
    assert_eq!(
        dao_core::policy::tally_status_exec(&vp, 2, 1, 0, 4),
        ProposalStatus::Approved
    );
    assert_eq!(
        dao_core::policy::tally_status_exec(&vp, 1, 1, 2, 4),
        ProposalStatus::InProgress
    );
}

#[test]
fn governance_kinds_apply_at_once() {
    let mut c = Contract::new(test_config(), default_policy(vec![1]), 1, SELF);
    let add = ProposalInput {
        description: "add".to_string(),
        kind: ProposalKind::AddMemberToRole { member_id: 8, role: dao_core::policy::COUNCIL_ROLE },
    };
    let id = c.add_proposal(1, add, ONE_NEAR, 0).unwrap();
    c.act_proposal(1, id, Action::VoteApprove, 0).unwrap();
    let e = c.act_proposal(1, id, Action::Execute, 0).unwrap();
    assert!(e.dispatch.is_none());
    assert_eq!(e.refund, Some(Refund { account: 1, amount: ONE_NEAR }));
    assert!(c.policy.is_member(8, dao_core::policy::COUNCIL_ROLE));
    assert_eq!(c.policy.eligible_weight(KindTag::Transfer), 2);

    let bad = ProposalInput {
        description: "bad role".to_string(),
        kind: ProposalKind::RemoveMemberFromRole { member_id: 8, role: 77 },
    };
    let id = c.add_proposal(1, bad, ONE_NEAR, 0).unwrap();
    c.act_proposal(1, id, Action::VoteApprove, 0).unwrap();
    c.act_proposal(1, id, Action::Execute, 0).unwrap();
    assert_eq!(c.get_proposal(id).unwrap().status, ProposalStatus::Failed);
    // A failed proposal may be finalized to a punitive expiry.
    let e = c.act_proposal(1, id, Action::Finalize, 0).unwrap();
    assert!(e.refund.is_none());
    assert_eq!(c.get_proposal(id).unwrap().status, ProposalStatus::Expired);
    assert_eq!(c.get_proposal(id).unwrap().bond_state, BondState::Forfeited);

    let cfg = ProposalInput {
        description: "rename".to_string(),
        kind: ProposalKind::ChangeConfig { config: Config { name: "renamed".to_string(), ..test_config() } },
    };
    let id = c.add_proposal(1, cfg, ONE_NEAR, 0).unwrap();
    c.act_proposal(1, id, Action::VoteApprove, 0).unwrap();
    c.act_proposal(1, id, Action::Execute, 0).unwrap();
    assert_eq!(c.config.name, "renamed");
    let policy: Policy = default_policy(vec![3]);
    let change = ProposalInput { description: "policy".to_string(), kind: ProposalKind::ChangePolicy { policy } };
    let id = c.add_proposal(1, change, ONE_NEAR, 0).unwrap();
    c.act_proposal(1, id, Action::VoteApprove, 0).unwrap();
    c.act_proposal(1, id, Action::Execute, 0).unwrap();
    assert!(c.policy.is_member(3, dao_core::policy::COUNCIL_ROLE));
    assert!(!c.policy.is_member(8, dao_core::policy::COUNCIL_ROLE));
    assert_eq!(c.get_proposals(1, 2).len(), 2);
    assert_eq!(c.get_proposals(4, 10).len(), 0);
}

#[test]
fn initialiser_becomes_upgrade_authority() {
    let c = Contract::new(test_config(), default_policy(vec![1]), 42, SELF);
    assert_eq!(c.get_factory_info(), FactoryInfo { factory_id: 42, auto_update: true });
    assert_eq!(c.last_proposal_id, 0);
}

#[test]
fn callback_only_from_own_account() {
    let mut c = Contract::new(test_config(), default_policy(vec![1]), 1, SELF);
    let id = create_proposal(&mut c, 0);
    c.act_proposal(1, id, Action::VoteApprove, 0).unwrap();
    c.act_proposal(1, id, Action::Execute, 0).unwrap();
    assert_eq!(
        c.on_proposal_callback(1, id, Outcome::Success).err(),
        Some(DaoError::PermissionDenied)
    );
    assert!(c.get_proposal(id).unwrap().pending);
    assert_eq!(c.bond_held, ONE_NEAR);
    // A report for an unknown id changes nothing.
    let e = c.on_proposal_callback(SELF, 77, Outcome::Success).unwrap();
    assert!(e.refund.is_none());
    assert!(c.get_proposal(id).unwrap().pending);
}

#[test]
fn account_in_two_roles_counted_once() {
    let mut policy = default_policy(vec![1, 2, 2]);
    policy.roles.push(dao_core::RoleDef { id: 5, everyone: false });
    policy.members.push(dao_core::Membership { account: 1, role: 5 });
    policy.permissions.push(dao_core::Permission { role: 5, kind: None, action: None });
    assert_eq!(policy.eligible_weight(KindTag::Transfer), 2);
    assert_eq!(default_policy(vec![]).eligible_weight(KindTag::Transfer), 0);
}

#[test]
fn removed_proposals_hidden_from_listing() {
    let mut c = Contract::new(test_config(), default_policy(vec![1]), 1, SELF);
    let a = create_proposal(&mut c, 0);
    let b = create_proposal(&mut c, 0);
    c.act_proposal(1, a, Action::VoteRemove, 0).unwrap();
    let listed = c.get_proposals(0, 10);
    assert_eq!(listed.len(), 1);
    assert_eq!(listed[0].id, b);
    assert!(c.get_proposal(a).is_some());
}

#[test]
fn absolute_quorum_without_eligible_weight_never_decides() {
    let mut policy = default_policy(vec![]);
    policy.permissions[0].action = None;
    let mut c = Contract::new(test_config(), policy, 1, SELF);
    let id = create_proposal(&mut c, 0);
    c.act_proposal(7, id, Action::VoteApprove, 0).unwrap();
    assert_eq!(c.get_proposal(id).unwrap().status, ProposalStatus::InProgress);
}
