use vstd::prelude::*;

use crate::types::{copy_vec, AccountIndex, Action, KindTag, ProposalStatus};

verus! {

/// A weight requirement: an absolute weight, or a ratio `numerator / denominator`.
#[derive(Clone, Copy, Debug, PartialEq, Eq, Structural)]
pub enum Threshold {
    Weight(u64),
    Ratio(u64, u64),
}

/// Quorum, threshold and an optional voting period for a proposal kind.
#[derive(Clone, Copy, Debug, PartialEq, Eq, Structural)]
pub struct VotePolicy {
    /// Participating weight needed: absolute, or a ratio of the total eligible weight.
    pub quorum: Threshold,
    /// Weight on one side needed: absolute, or more than a ratio of the participating weight.
    pub threshold: Threshold,
    /// Voting period in nanoseconds; the configuration's period when absent.
    pub duration: Option<u64>,
}

/// A role of the policy; `everyone` roles hold every account.
#[derive(Clone, Copy, Debug, PartialEq, Eq, Structural)]
pub struct RoleDef {
    pub id: u64,
    pub everyone: bool,
}

/// An account holding a group role.
#[derive(Clone, Copy, Debug, PartialEq, Eq, Structural)]
pub struct Membership {
    pub account: AccountIndex,
    pub role: u64,
}

/// A role may perform `action` (any when `None`) on `kind` (any when `None`).
#[derive(Clone, Copy, Debug, PartialEq, Eq, Structural)]
pub struct Permission {
    pub role: u64,
    pub kind: Option<KindTag>,
    pub action: Option<Action>,
}

/// A vote policy that replaces the default one for a proposal kind.
#[derive(Clone, Copy, Debug, PartialEq, Eq, Structural)]
pub struct KindPolicy {
    pub kind: KindTag,
    pub vote_policy: VotePolicy,
}

/// Roles, permissions and vote policies.
#[derive(Debug)]
pub struct Policy {
    pub roles: Vec<RoleDef>,
    pub members: Vec<Membership>,
    pub permissions: Vec<Permission>,
    pub default_vote_policy: VotePolicy,
    pub overrides: Vec<KindPolicy>,
    /// Whether a removed proposal's bond is kept by the organisation.
    pub remove_forfeits_bond: bool,
    /// Whether an expired proposal's bond is kept by the organisation.
    pub expiry_forfeits_bond: bool,
}

/// The mathematical content of a policy.
pub struct PolicyView {
    pub roles: Seq<RoleDef>,
    pub members: Seq<Membership>,
    pub permissions: Seq<Permission>,
    pub default_vote_policy: VotePolicy,
    pub overrides: Seq<KindPolicy>,
    pub remove_forfeits_bond: bool,
    pub expiry_forfeits_bond: bool,
}

impl View for Policy {
    type V = PolicyView;

    open spec fn view(&self) -> PolicyView {
        PolicyView {
            roles: self.roles@,
            members: self.members@,
            permissions: self.permissions@,
            default_vote_policy: self.default_vote_policy,
            overrides: self.overrides@,
            remove_forfeits_bond: self.remove_forfeits_bond,
            expiry_forfeits_bond: self.expiry_forfeits_bond,
        }
    }
}

pub open spec fn threshold_wf(t: Threshold) -> bool {
    match t {
        Threshold::Weight(_) => true,
        Threshold::Ratio(_, d) => d > 0,
    }
}

pub open spec fn vote_policy_wf(vp: VotePolicy) -> bool {
    threshold_wf(vp.quorum) && threshold_wf(vp.threshold)
}

impl PolicyView {
    /// Role ids are unique and every vote policy has a usable threshold.
    pub open spec fn wf(self) -> bool {
        &&& vote_policy_wf(self.default_vote_policy)
        &&& forall|i: int| 0 <= i < self.overrides.len() ==> vote_policy_wf(#[trigger] self.overrides[i].vote_policy)
        &&& forall|i: int, j: int|
            0 <= i < j < self.roles.len() ==> #[trigger] self.roles[i].id != #[trigger] self.roles[j].id
    }

    /// The vote policy that applies to `kind`: the first override for it, else the default.
    pub open spec fn resolve(self, kind: KindTag) -> VotePolicy {
        resolve_in(self.overrides, kind, self.default_vote_policy)
    }

    pub open spec fn is_everyone_role(self, role: u64) -> bool {
        exists|i: int| 0 <= i < self.roles.len() && #[trigger] self.roles[i].id == role && self.roles[i].everyone
    }

    pub open spec fn is_group_role(self, role: u64) -> bool {
        exists|i: int| 0 <= i < self.roles.len() && #[trigger] self.roles[i].id == role && !self.roles[i].everyone
    }

    pub open spec fn is_member(self, account: AccountIndex, role: u64) -> bool {
        exists|j: int| 0 <= j < self.members.len() && #[trigger] self.members[j] == (Membership { account, role })
    }

    pub open spec fn holds_role(self, account: AccountIndex, role: u64) -> bool {
        self.is_everyone_role(role) || (self.is_group_role(role) && self.is_member(account, role))
    }

    /// Some role held by `account` is permitted to perform `action` on `kind`.
    pub open spec fn can_act(self, account: AccountIndex, kind: KindTag, action: Action) -> bool {
        exists|k: int|
            0 <= k < self.permissions.len() && permission_matches(#[trigger] self.permissions[k], kind, action)
                && self.holds_role(account, self.permissions[k].role)
    }

    /// Some permission lets `role` perform `action` on `kind`.
    pub open spec fn role_grants(self, role: u64, kind: KindTag, action: Action) -> bool {
        exists|k: int|
            0 <= k < self.permissions.len() && permission_matches(#[trigger] self.permissions[k], kind, action)
                && self.permissions[k].role == role
    }

    /// Total weight eligible to approve `kind`: the accounts with a group
    /// membership whose role may approve it, each counted once.
    pub open spec fn eligible_weight(self, kind: KindTag) -> nat {
        self.eligible_in(self.members, kind)
    }

    /// The membership makes its account eligible to approve `kind`.
    pub open spec fn counts_for(self, m: Membership, kind: KindTag) -> bool {
        self.is_group_role(m.role) && self.role_grants(m.role, kind, Action::VoteApprove)
    }

    /// Some membership in `s` already makes `account` eligible.
    pub open spec fn seen(self, s: Seq<Membership>, account: AccountIndex, kind: KindTag) -> bool {
        exists|k: int| 0 <= k < s.len() && self.counts_for(#[trigger] s[k], kind) && s[k].account == account
    }

    /// The policy after `account` joins the group of `role`.
    pub open spec fn with_member(self, account: AccountIndex, role: u64) -> PolicyView {
        if self.is_member(account, role) {
            self
        } else {
            PolicyView { members: self.members.push(Membership { account, role }), ..self }
        }
    }

    /// The policy after `account` leaves the group of `role`.
    pub open spec fn without_member(self, account: AccountIndex, role: u64) -> PolicyView {
        PolicyView { members: drop_membership(self.members, Membership { account, role }), ..self }
    }

    pub open spec fn eligible_in(self, s: Seq<Membership>, kind: KindTag) -> nat
        decreases s.len(),
    {
        if s.len() == 0 {
            0
        } else {
            self.eligible_in(s.drop_last(), kind) + if self.counts_for(s.last(), kind) && !self.seen(
                s.drop_last(),
                s.last().account,
                kind,
            ) {
                1nat
            } else {
                0nat
            }
        }
    }
}

pub open spec fn resolve_in(overrides: Seq<KindPolicy>, kind: KindTag, default: VotePolicy) -> VotePolicy
    decreases overrides.len(),
{
    if overrides.len() == 0 {
        default
    } else if overrides[0].kind == kind {
        overrides[0].vote_policy
    } else {
        resolve_in(overrides.drop_first(), kind, default)
    }
}

/// `s` without the records equal to `m`, in order.
pub open spec fn drop_membership(s: Seq<Membership>, m: Membership) -> Seq<Membership>
    decreases s.len(),
{
    if s.len() == 0 {
        s
    } else if s.last() == m {
        drop_membership(s.drop_last(), m)
    } else {
        drop_membership(s.drop_last(), m).push(s.last())
    }
}

/// Every vote policy a well-formed policy resolves to is well formed.
pub proof fn lemma_resolve_wf(p: PolicyView, kind: KindTag)
    requires
        p.wf(),
    ensures
        vote_policy_wf(p.resolve(kind)),
{
    lemma_resolve_in_wf(p.overrides, kind, p.default_vote_policy);
}

proof fn lemma_resolve_in_wf(s: Seq<KindPolicy>, kind: KindTag, default: VotePolicy)
    requires
        vote_policy_wf(default),
        forall|i: int| 0 <= i < s.len() ==> vote_policy_wf(#[trigger] s[i].vote_policy),
    ensures
        vote_policy_wf(resolve_in(s, kind, default)),
    decreases s.len(),
{
    if s.len() > 0 {
        assert forall|i: int| 0 <= i < s.drop_first().len() implies vote_policy_wf(#[trigger] s.drop_first()[i].vote_policy) by {
            assert(s.drop_first()[i] == s[i + 1]);
        }
        lemma_resolve_in_wf(s.drop_first(), kind, default);
    }
}

pub open spec fn permission_matches(p: Permission, kind: KindTag, action: Action) -> bool {
    (p.kind is None || p.kind == Some(kind)) && (p.action is None || p.action == Some(action))
}

/// `participating` out of `total` eligible weight meets the quorum; without
/// eligible weight no quorum is ever met.
pub open spec fn quorum_met(q: Threshold, participating: nat, total: nat) -> bool {
    match q {
        Threshold::Weight(w) => total > 0 && participating >= w,
        Threshold::Ratio(n, d) => total > 0 && participating * d >= total * n,
    }
}

/// `side` out of `participating` weight passes the threshold.
pub open spec fn threshold_met(t: Threshold, side: nat, participating: nat) -> bool {
    match t {
        Threshold::Weight(w) => side >= w,
        Threshold::Ratio(n, d) => side * d > participating * n,
    }
}

/// One side with weight `side` decides under `vp`.
pub open spec fn threshold_reached(vp: VotePolicy, side: nat, participating: nat, total: nat) -> bool {
    &&& side > 0
    &&& quorum_met(vp.quorum, participating, total)
    &&& threshold_met(vp.threshold, side, participating)
}

/// Status after a tally: removal first, then approval, then rejection.
pub open spec fn tally_status(vp: VotePolicy, approve: nat, reject: nat, remove: nat, total: nat) -> ProposalStatus {
    let part = approve + reject + remove;
    if threshold_reached(vp, remove, part, total) {
        ProposalStatus::Removed
    } else if threshold_reached(vp, approve, part, total) {
        ProposalStatus::Approved
    } else if threshold_reached(vp, reject, part, total) {
        ProposalStatus::Rejected
    } else {
        ProposalStatus::InProgress
    }
}

/// A proposal kind without an override is decided by exactly the default vote policy,
/// and one with an override by the first override for it.
pub proof fn lemma_resolution_prefers_override(p: PolicyView, kind: KindTag)
    ensures
        (forall|i: int| 0 <= i < p.overrides.len() ==> #[trigger] p.overrides[i].kind != kind)
            ==> p.resolve(kind) == p.default_vote_policy,
        forall|i: int|
            0 <= i < p.overrides.len() && #[trigger] p.overrides[i].kind == kind
                && (forall|j: int| 0 <= j < i ==> p.overrides[j].kind != kind)
            ==> p.resolve(kind) == p.overrides[i].vote_policy,
{
    lemma_resolve_in(p.overrides, kind, p.default_vote_policy);
}

proof fn lemma_resolve_in(s: Seq<KindPolicy>, kind: KindTag, default: VotePolicy)
    ensures
        (forall|i: int| 0 <= i < s.len() ==> #[trigger] s[i].kind != kind) ==> resolve_in(s, kind, default) == default,
        forall|i: int|
            0 <= i < s.len() && #[trigger] s[i].kind == kind && (forall|j: int| 0 <= j < i ==> s[j].kind != kind)
            ==> resolve_in(s, kind, default) == s[i].vote_policy,
    decreases s.len(),
{
    if s.len() > 0 {
        lemma_resolve_in(s.drop_first(), kind, default);
        assert forall|i: int|
            0 <= i < s.len() && #[trigger] s[i].kind == kind && (forall|j: int| 0 <= j < i ==> s[j].kind != kind)
            implies resolve_in(s, kind, default) == s[i].vote_policy by {
            if i > 0 {
                assert(s[0].kind != kind);
                assert(s.drop_first()[i - 1] == s[i]);
                assert forall|j: int| 0 <= j < i - 1 implies s.drop_first()[j].kind != kind by {
                    assert(s.drop_first()[j] == s[j + 1]);
                }
            }
        }
        if forall|i: int| 0 <= i < s.len() ==> #[trigger] s[i].kind != kind {
            assert forall|i: int| 0 <= i < s.drop_first().len() implies #[trigger] s.drop_first()[i].kind != kind by {
                assert(s.drop_first()[i] == s[i + 1]);
            }
        }
    }
}

/// A side that has decided stays decided when one more vote joins it, where
/// the threshold ratio is at most one.
pub proof fn lemma_threshold_monotonic(vp: VotePolicy, side: nat, participating: nat, total: nat)
    requires
        vote_policy_wf(vp),
        vp.threshold matches Threshold::Ratio(n, d) ==> n <= d,
        threshold_reached(vp, side, participating, total),
    ensures
        threshold_reached(vp, side + 1, participating + 1, total),
{
    if let Threshold::Ratio(n, d) = vp.quorum {
        assert((participating + 1) * d >= participating * d) by (nonlinear_arith);
    }
    if let Threshold::Ratio(n, d) = vp.threshold {
        assert((side + 1) * d > (participating + 1) * n) by (nonlinear_arith)
            requires
                side * d > participating * n,
                n <= d,
        ;
    }
}

/// Role id of the role that holds every account.
pub const ALL_ROLE: u64 = 0;

/// Role id of the council.
pub const COUNCIL_ROLE: u64 = 1;

pub open spec fn default_vote_policy() -> VotePolicy {
    VotePolicy { quorum: Threshold::Weight(0), threshold: Threshold::Ratio(1, 2), duration: None }
}

/// A policy where everyone may propose and the council may do everything; a
/// side decides with more than half of the votes cast.
pub fn default_policy(council: Vec<AccountIndex>) -> (r: Policy)
    ensures
        r@.wf(),
        r@.roles == seq![RoleDef { id: ALL_ROLE, everyone: true }, RoleDef { id: COUNCIL_ROLE, everyone: false }],
        r@.members.len() == council@.len(),
        forall|i: int| 0 <= i < council@.len() ==> #[trigger] r@.members[i] == (Membership { account: council@[i], role: COUNCIL_ROLE }),
        r@.permissions == seq![
            Permission { role: ALL_ROLE, kind: None, action: Some(Action::AddProposal) },
            Permission { role: COUNCIL_ROLE, kind: None, action: None },
        ],
        r@.default_vote_policy == default_vote_policy(),
        r@.overrides.len() == 0,
        r@.remove_forfeits_bond,
        !r@.expiry_forfeits_bond,
{
    let mut members: Vec<Membership> = Vec::new();
    let mut i: usize = 0;
    while i < council.len()
        invariant
            i <= council@.len(),
            members@.len() == i,
            forall|k: int| 0 <= k < i ==> #[trigger] members@[k] == (Membership { account: council@[k], role: COUNCIL_ROLE }),
        decreases council@.len() - i,
    {
        members.push(Membership { account: council[i], role: COUNCIL_ROLE });
        i = i + 1;
    }
    let roles = vec![RoleDef { id: ALL_ROLE, everyone: true }, RoleDef { id: COUNCIL_ROLE, everyone: false }];
    let permissions = vec![
        Permission { role: ALL_ROLE, kind: None, action: Some(Action::AddProposal) },
        Permission { role: COUNCIL_ROLE, kind: None, action: None },
    ];
    let r = Policy {
        roles,
        members,
        permissions,
        default_vote_policy: VotePolicy { quorum: Threshold::Weight(0), threshold: Threshold::Ratio(1, 2), duration: None },
        overrides: Vec::new(),
        remove_forfeits_bond: true,
        expiry_forfeits_bond: false,
    };
    assert(r@.roles[0].id != r@.roles[1].id);
    r
}

fn resolve_exec(overrides: &Vec<KindPolicy>, kind: KindTag, default: VotePolicy) -> (r: VotePolicy)
    ensures
        r == resolve_in(overrides@, kind, default),
{
    let mut i: usize = overrides.len();
    let mut r = default;
    while i > 0
        invariant
            i <= overrides@.len(),
            r == resolve_in(overrides@.subrange(i as int, overrides@.len() as int), kind, default),
        decreases i,
    {
        i = i - 1;
        let ghost rest = overrides@.subrange(i + 1, overrides@.len() as int);
        let ghost cur = overrides@.subrange(i as int, overrides@.len() as int);
        assert(cur.drop_first() =~= rest);
        if overrides[i].kind == kind {
            r = overrides[i].vote_policy;
        }
    }
    assert(overrides@.subrange(0, overrides@.len() as int) =~= overrides@);
    r
}

fn permission_matches_exec(p: &Permission, kind: KindTag, action: Action) -> (r: bool)
    ensures
        r == permission_matches(*p, kind, action),
{
    let kind_ok = match p.kind {
        None => true,
        Some(k) => k == kind,
    };
    let action_ok = match p.action {
        None => true,
        Some(a) => a == action,
    };
    kind_ok && action_ok
}

impl Policy {
    /// A copy with the same contents.
    pub fn duplicate(&self) -> (r: Policy)
        ensures
            r@ == self@,
    {
        Policy {
            roles: copy_vec(&self.roles),
            members: copy_vec(&self.members),
            permissions: copy_vec(&self.permissions),
            default_vote_policy: self.default_vote_policy,
            overrides: copy_vec(&self.overrides),
            remove_forfeits_bond: self.remove_forfeits_bond,
            expiry_forfeits_bond: self.expiry_forfeits_bond,
        }
    }

    /// The vote policy that applies to `kind`.
    pub fn resolve_vote_policy(&self, kind: KindTag) -> (r: VotePolicy)
        ensures
            r == self@.resolve(kind),
    {
        resolve_exec(&self.overrides, kind, self.default_vote_policy)
    }

    /// Whether the policy is well formed.
    pub fn is_valid(&self) -> (r: bool)
        ensures
            r == self@.wf(),
    {
        if !vote_policy_ok(&self.default_vote_policy) {
            return false;
        }
        let mut i: usize = 0;
        while i < self.overrides.len()
            invariant
                i <= self.overrides@.len(),
                forall|k: int| 0 <= k < i ==> vote_policy_wf(#[trigger] self.overrides@[k].vote_policy),
            decreases self.overrides@.len() - i,
        {
            if !vote_policy_ok(&self.overrides[i].vote_policy) {
                return false;
            }
            i = i + 1;
        }
        let mut a: usize = 0;
        while a < self.roles.len()
            invariant
                a <= self.roles@.len(),
                forall|x: int, y: int|
                    0 <= x < y < self.roles@.len() && x < a ==> #[trigger] self.roles@[x].id != #[trigger] self.roles@[y].id,
            decreases self.roles@.len() - a,
        {
            let mut b: usize = a + 1;
            while b < self.roles.len()
                invariant
                    a < self.roles@.len(),
                    a + 1 <= b <= self.roles@.len(),
                    forall|x: int, y: int|
                        0 <= x < y < self.roles@.len() && x < a ==> #[trigger] self.roles@[x].id != #[trigger] self.roles@[y].id,
                    forall|y: int| a < y < b ==> self.roles@[a as int].id != #[trigger] self.roles@[y].id,
                decreases self.roles@.len() - b,
            {
                if self.roles[a].id == self.roles[b].id {
                    assert(self.roles@[a as int].id == self.roles@[b as int].id);
                    assert(self@.roles == self.roles@);
                    return false;
                }
                b = b + 1;
            }
            a = a + 1;
        }
        true
    }

    fn role_kind(&self, role: u64) -> (r: (bool, bool))
        ensures
            r.0 == self@.is_everyone_role(role),
            r.1 == self@.is_group_role(role),
    {
        let mut everyone = false;
        let mut group = false;
        let mut i: usize = 0;
        while i < self.roles.len()
            invariant
                i <= self.roles@.len(),
                everyone == exists|k: int| 0 <= k < i && #[trigger] self.roles@[k].id == role && self.roles@[k].everyone,
                group == exists|k: int| 0 <= k < i && #[trigger] self.roles@[k].id == role && !self.roles@[k].everyone,
            decreases self.roles@.len() - i,
        {
            if self.roles[i].id == role {
                if self.roles[i].everyone {
                    everyone = true;
                } else {
                    group = true;
                }
            }
            i = i + 1;
        }
        assert(self@.roles == self.roles@);
        assert(i == self.roles@.len());
        (everyone, group)
    }

    /// Whether `account` is listed in the group of `role`.
    pub fn is_member(&self, account: AccountIndex, role: u64) -> (r: bool)
        ensures
            r == self@.is_member(account, role),
    {
        let mut i: usize = 0;
        while i < self.members.len()
            invariant
                i <= self.members@.len(),
                forall|k: int| 0 <= k < i ==> #[trigger] self.members@[k] != (Membership { account, role }),
            decreases self.members@.len() - i,
        {
            if self.members[i].account == account && self.members[i].role == role {
                assert(self.members@[i as int] == (Membership { account, role }));
                assert(self@.members == self.members@);
                return true;
            }
            i = i + 1;
        }
        false
    }

    /// Whether `account` holds `role`.
    pub fn holds_role(&self, account: AccountIndex, role: u64) -> (r: bool)
        ensures
            r == self@.holds_role(account, role),
    {
        let (everyone, group) = self.role_kind(role);
        if everyone {
            true
        } else if group {
            self.is_member(account, role)
        } else {
            false
        }
    }

    /// Whether some role held by `account` may perform `action` on `kind`.
    pub fn can_act(&self, account: AccountIndex, kind: KindTag, action: Action) -> (r: bool)
        ensures
            r == self@.can_act(account, kind, action),
    {
        let mut k: usize = 0;
        while k < self.permissions.len()
            invariant
                k <= self.permissions@.len(),
                forall|j: int|
                    0 <= j < k ==> !(permission_matches(#[trigger] self.permissions@[j], kind, action)
                        && self@.holds_role(account, self.permissions@[j].role)),
            decreases self.permissions@.len() - k,
        {
            if permission_matches_exec(&self.permissions[k], kind, action)
                && self.holds_role(account, self.permissions[k].role) {
                return true;
            }
            k = k + 1;
        }
        false
    }

    fn role_grants(&self, role: u64, kind: KindTag, action: Action) -> (r: bool)
        ensures
            r == self@.role_grants(role, kind, action),
    {
        let mut k: usize = 0;
        while k < self.permissions.len()
            invariant
                k <= self.permissions@.len(),
                forall|j: int|
                    0 <= j < k ==> !(permission_matches(#[trigger] self.permissions@[j], kind, action)
                        && self.permissions@[j].role == role),
            decreases self.permissions@.len() - k,
        {
            if permission_matches_exec(&self.permissions[k], kind, action) && self.permissions[k].role == role {
                return true;
            }
            k = k + 1;
        }
        false
    }

    /// Adds `account` to the group of `role`; false, and no change, when `role` is no group role.
    pub fn add_member(&mut self, account: AccountIndex, role: u64) -> (applied: bool)
        ensures
            applied == old(self)@.is_group_role(role),
            applied ==> final(self)@ == old(self)@.with_member(account, role),
            !applied ==> final(self)@ == old(self)@,
    {
        let (_, group) = self.role_kind(role);
        if !group {
            return false;
        }
        if !self.is_member(account, role) {
            self.members.push(Membership { account, role });
        }
        true
    }

    /// Removes `account` from the group of `role`; false, and no change, when `role` is no group role.
    pub fn remove_member(&mut self, account: AccountIndex, role: u64) -> (applied: bool)
        ensures
            applied == old(self)@.is_group_role(role),
            applied ==> final(self)@ == old(self)@.without_member(account, role),
            !applied ==> final(self)@ == old(self)@,
    {
        let (_, group) = self.role_kind(role);
        if !group {
            return false;
        }
        let m = Membership { account, role };
        let mut kept: Vec<Membership> = Vec::new();
        let mut i: usize = 0;
        while i < self.members.len()
            invariant
                i <= self.members@.len(),
                m == (Membership { account, role }),
                kept@ == drop_membership(self.members@.subrange(0, i as int), m),
            decreases self.members@.len() - i,
        {
            let ghost prev = self.members@.subrange(0, i as int);
            let cur = self.members[i];
            if !(cur.account == account && cur.role == role) {
                kept.push(cur);
            }
            i = i + 1;
            assert(self.members@.subrange(0, i as int).drop_last() =~= prev);
            assert(self.members@.subrange(0, i as int).last() == cur);
        }
        assert(self.members@.subrange(0, i as int) =~= self.members@);
        self.members = kept;
        true
    }

    fn counts_for(&self, m: Membership, kind: KindTag) -> (r: bool)
        ensures
            r == self@.counts_for(m, kind),
    {
        let (_, group) = self.role_kind(m.role);
        group && self.role_grants(m.role, kind, Action::VoteApprove)
    }

    /// Total weight eligible to approve `kind`.
    pub fn eligible_weight(&self, kind: KindTag) -> (r: usize)
        ensures
            r as nat == self@.eligible_weight(kind),
    {
        let mut total: usize = 0;
        let mut i: usize = 0;
        while i < self.members.len()
            invariant
                i <= self.members@.len(),
                total <= i,
                total as nat == self@.eligible_in(self.members@.subrange(0, i as int), kind),
            decreases self.members@.len() - i,
        {
            let ghost prev = self.members@.subrange(0, i as int);
            let m = self.members[i];
            if self.counts_for(m, kind) {
                let mut seen = false;
                let mut k: usize = 0;
                while k < i
                    invariant
                        k <= i < self.members@.len(),
                        prev == self.members@.subrange(0, i as int),
                        seen == exists|j: int|
                            0 <= j < k && self@.counts_for(#[trigger] prev[j], kind) && prev[j].account == m.account,
                    decreases i - k,
                {
                    let other = self.members[k];
                    assert(prev[k as int] == other);
                    if other.account == m.account && self.counts_for(other, kind) {
                        seen = true;
                    }
                    k = k + 1;
                }
                if !seen {
                    total = total + 1;
                }
            }
            i = i + 1;
            assert(self.members@.subrange(0, i as int).drop_last() =~= prev);
            assert(self.members@.subrange(0, i as int).last() == m);
        }
        assert(self.members@.subrange(0, i as int) =~= self.members@);
        total
    }
}

fn threshold_ok(t: &Threshold) -> (r: bool)
    ensures
        r == threshold_wf(*t),
{
    match t {
        Threshold::Weight(_) => true,
        Threshold::Ratio(_, d) => *d > 0,
    }
}

fn vote_policy_ok(vp: &VotePolicy) -> (r: bool)
    ensures
        r == vote_policy_wf(*vp),
{
    threshold_ok(&vp.quorum) && threshold_ok(&vp.threshold)
}

const WORD: u128 = 0xffff_ffff_ffff_ffff;

/// Whether `side` out of `participating`, with `total` eligible, decides under `vp`.
pub fn threshold_reached_exec(vp: &VotePolicy, side: usize, participating: usize, total: usize) -> (r: bool)
    requires
        vote_policy_wf(*vp),
    ensures
        r == threshold_reached(*vp, side as nat, participating as nat, total as nat),
{
    if side == 0 {
        return false;
    }
    let part = participating as u128;
    let quorum = match vp.quorum {
        Threshold::Weight(w) => total > 0 && part >= w as u128,
        Threshold::Ratio(n, d) => {
            let t = total as u128;
            assert(part * (d as u128) <= WORD * WORD && t * (n as u128) <= WORD * WORD) by (nonlinear_arith)
                requires
                    part <= WORD,
                    t <= WORD,
                    n <= WORD,
                    d <= WORD,
            ;
            total > 0 && part * (d as u128) >= t * (n as u128)
        },
    };
    if !quorum {
        return false;
    }
    match vp.threshold {
        Threshold::Weight(w) => side as u128 >= w as u128,
        Threshold::Ratio(n, d) => {
            let s = side as u128;
            assert(s * (d as u128) <= WORD * WORD && part * (n as u128) <= WORD * WORD) by (nonlinear_arith)
                requires
                    part <= WORD,
                    s <= WORD,
                    n <= WORD,
                    d <= WORD,
            ;
            s * (d as u128) > part * (n as u128)
        },
    }
}

/// The status a tally gives under `vp`.
pub fn tally_status_exec(vp: &VotePolicy, approve: usize, reject: usize, remove: usize, total: usize) -> (r: ProposalStatus)
    requires
        vote_policy_wf(*vp),
        approve + reject + remove <= usize::MAX,
    ensures
        r == tally_status(*vp, approve as nat, reject as nat, remove as nat, total as nat),
{
    let part = approve + reject + remove;
    if threshold_reached_exec(vp, remove, part, total) {
        ProposalStatus::Removed
    } else if threshold_reached_exec(vp, approve, part, total) {
        ProposalStatus::Approved
    } else if threshold_reached_exec(vp, reject, part, total) {
        ProposalStatus::Rejected
    } else {
        ProposalStatus::InProgress
    }
}

} // verus!
