use vstd::prelude::*;

use crate::proposals::{kind_label_list, kind_labels, ProposalKind};
use crate::types::Action;

verus! {

/// How the votes of a voting policy get weighted.
#[derive(Clone, Copy, Debug, PartialEq, Eq, Structural)]
pub enum WeightKind {
    /// Using token amounts and total delegated at the moment.
    TokenWeight,
    /// Weight of the group role. Roles that don't have scoped group are not supported.
    RoleWeight,
}

/// A vote threshold: either an absolute weight or a ratio.
#[derive(Clone, Copy, Debug, PartialEq, Eq, Structural)]
pub enum WeightOrRatio {
    Weight(u128),
    Ratio(u64, u64),
}

/// Which users a role applies to.
pub enum RoleKind {
    /// Matches everyone, who is not matched by other roles: within a policy, a role of this
    /// kind applies only to users that no role of another kind matches.
    Everyone,
    /// Member greater or equal than given balance. Can use `1` as non-zero balance.
    Member(u128),
    /// Set of accounts, held as a list; an account belongs to the set when it occurs in the list.
    Group(Vec<String>),
}

/// Whether the string `s` occurs in the list `v`.
pub open spec fn lists_string(v: Seq<String>, s: Seq<char>) -> bool {
    exists|i: int| 0 <= i < v.len() && #[trigger] v[i]@ == s
}

/// The set of the texts of the strings in a list.
pub open spec fn string_set(v: Seq<String>) -> Set<Seq<char>> {
    Set::new(|s: Seq<char>| lists_string(v, s))
}

/// A string occurs in a longer list when it occurs in the shorter one, and the added one
/// occurs in it.
proof fn lemma_lists_string_push(v: Seq<String>, x: String, s: Seq<char>)
    ensures
        lists_string(v, s) ==> lists_string(v.push(x), s),
        lists_string(v.push(x), x@),
{
    if lists_string(v, s) {
        let i = choose|i: int| 0 <= i < v.len() && #[trigger] v[i]@ == s;
        assert(v.push(x)[i] == v[i]);
    }
    assert(v.push(x)[v.len() as int] == x);
}

/// Whether `s` occurs in `v`.
pub fn contains_string(v: &Vec<String>, s: &String) -> (res: bool)
    ensures
        res == lists_string(v@, s@),
{
    let mut i: usize = 0;
    while i < v.len()
        invariant
            i <= v.len(),
            forall|j: int| 0 <= j < i ==> #[trigger] v@[j]@ != s@,
        decreases v.len() - i,
    {
        if v[i] == *s {
            return true;
        }
        i += 1;
    }
    false
}

/// A copy of a list of strings that holds the same strings in the same order.
pub fn clone_strings(v: &Vec<String>) -> (res: Vec<String>)
    ensures
        res@ == v@,
{
    let mut out: Vec<String> = Vec::new();
    let mut i: usize = 0;
    while i < v.len()
        invariant
            i <= v.len(),
            out@ == v@.take(i as int),
        decreases v.len() - i,
    {
        out.push(v[i].clone());
        assert(v@.take(i as int).push(v@[i as int]) =~= v@.take(i + 1));
        i += 1;
    }
    assert(v@.take(v.len() as int) =~= v@);
    out
}

/// What a role kind says of the users it applies to.
pub enum RoleKindView {
    Everyone,
    Member(u128),
    Group(Set<Seq<char>>),
}

impl View for RoleKind {
    type V = RoleKindView;

    open spec fn view(&self) -> RoleKindView {
        match self {
            RoleKind::Everyone => RoleKindView::Everyone,
            RoleKind::Member(amount) => RoleKindView::Member(*amount),
            RoleKind::Group(accounts) => RoleKindView::Group(string_set(accounts@)),
        }
    }
}

impl RoleKindView {
    /// Whether the kind, taken alone, admits the user: `Everyone` admits every user; a member
    /// kind admits users holding at least the given balance; a group admits its accounts.
    /// (A policy restricts `Everyone` further: see `applies`.)
    pub open spec fn matches(self, user: UserInfo) -> bool {
        match self {
            RoleKindView::Everyone => true,
            RoleKindView::Member(amount) => user.amount >= amount,
            RoleKindView::Group(accounts) => accounts.contains(user.account_id@),
        }
    }
}

impl Clone for RoleKind {
    fn clone(&self) -> (res: Self)
        ensures
            res@ == self@,
    {
        match self {
            RoleKind::Everyone => RoleKind::Everyone,
            RoleKind::Member(amount) => RoleKind::Member(*amount),
            RoleKind::Group(accounts) => RoleKind::Group(clone_strings(accounts)),
        }
    }
}

impl RoleKind {
    /// Whether the kind, taken alone, admits the user.
    pub fn match_user(&self, user: &UserInfo) -> (res: bool)
        ensures
            res == self@.matches(*user),
    {
        match self {
            RoleKind::Everyone => true,
            RoleKind::Member(amount) => user.amount >= *amount,
            RoleKind::Group(accounts) => contains_string(accounts, &user.account_id),
        }
    }
}

/// Defines configuration of the vote.
#[derive(Clone, Copy, Debug, PartialEq, Eq, Structural)]
pub struct VotePolicy {
    /// Kind of weight to use for votes.
    pub weight_kind: WeightKind,
    /// Minimum number required for vote to finalize.
    /// If weight kind is TokenWeight - this is minimum number of tokens required.
    /// If RoleWeight - this is minimum number of votes.
    pub quorum: u128,
    /// How many votes to pass this vote.
    pub threshold: WeightOrRatio,
}

impl VotePolicy {
    /// Role weighted, no quorum, one half of the votes to pass.
    pub open spec fn default_view() -> VotePolicy {
        VotePolicy {
            weight_kind: WeightKind::RoleWeight,
            quorum: 0,
            threshold: WeightOrRatio::Ratio(1, 2),
        }
    }
}

impl Default for VotePolicy {
    fn default() -> (res: Self)
        ensures
            res == VotePolicy::default_view(),
    {
        VotePolicy {
            weight_kind: WeightKind::RoleWeight,
            quorum: 0,
            threshold: WeightOrRatio::Ratio(1, 2),
        }
    }
}

/// The voting policy of one proposal kind, keyed by the kind's label.
pub struct VotePolicyEntry {
    pub proposal_kind: String,
    pub vote_policy: VotePolicy,
}

impl Clone for VotePolicyEntry {
    fn clone(&self) -> (res: Self)
        ensures
            res == *self,
    {
        VotePolicyEntry { proposal_kind: self.proposal_kind.clone(), vote_policy: self.vote_policy }
    }
}

/// The voting policy of each proposal kind that `s` lists, keyed by the kind's label: each
/// kind once, a later entry replacing an earlier one.
pub open spec fn vote_policy_map(s: Seq<VotePolicyEntry>) -> Map<Seq<char>, VotePolicy>
    decreases s.len(),
{
    if s.len() == 0 {
        Map::empty()
    } else {
        vote_policy_map(s.drop_last()).insert(s.last().proposal_kind@, s.last().vote_policy)
    }
}

/// A copy of a list of vote policy entries.
pub fn clone_vote_policies(v: &Vec<VotePolicyEntry>) -> (res: Vec<VotePolicyEntry>)
    ensures
        res@ == v@,
{
    let mut out: Vec<VotePolicyEntry> = Vec::new();
    let mut i: usize = 0;
    while i < v.len()
        invariant
            i <= v.len(),
            out@ == v@.take(i as int),
        decreases v.len() - i,
    {
        out.push(v[i].clone());
        assert(v@.take(i as int).push(v@[i as int]) =~= v@.take(i + 1));
        i += 1;
    }
    assert(v@.take(v.len() as int) =~= v@);
    out
}

pub struct Role {
    /// Name of the role to display to the user.
    pub name: String,
    /// Kind of the role: defines which users this permissions apply.
    pub kind: RoleKind,
    /// Set of actions on which proposals that this role is allowed to execute,
    /// held as a list of `<proposal_kind>:<action>` labels.
    pub permissions: Vec<String>,
    /// For each proposal kind, defines voting policy.
    pub vote_policy: Vec<VotePolicyEntry>,
}

pub struct RoleView {
    pub name: Seq<char>,
    pub kind: RoleKindView,
    pub permissions: Set<Seq<char>>,
    pub vote_policy: Map<Seq<char>, VotePolicy>,
}

impl View for Role {
    type V = RoleView;

    open spec fn view(&self) -> RoleView {
        RoleView {
            name: self.name@,
            kind: self.kind@,
            permissions: string_set(self.permissions@),
            vote_policy: vote_policy_map(self.vote_policy@),
        }
    }
}

impl Clone for Role {
    fn clone(&self) -> (res: Self)
        ensures
            res@ == self@,
    {
        Role {
            name: self.name.clone(),
            kind: self.kind.clone(),
            permissions: clone_strings(&self.permissions),
            vote_policy: clone_vote_policies(&self.vote_policy),
        }
    }
}

/// The views of a list of roles.
pub open spec fn roles_view(v: Seq<Role>) -> Seq<RoleView> {
    v.map_values(|r: Role| r@)
}

/// The views of a list of borrowed roles.
pub open spec fn role_refs_view(v: Seq<&Role>) -> Seq<RoleView> {
    v.map_values(|r: &Role| r@)
}

/// A copy of a list of roles.
pub fn clone_roles(v: &Vec<Role>) -> (res: Vec<Role>)
    ensures
        roles_view(res@) == roles_view(v@),
{
    let mut out: Vec<Role> = Vec::new();
    let mut i: usize = 0;
    while i < v.len()
        invariant
            i <= v.len(),
            roles_view(out@) == roles_view(v@.take(i as int)),
        decreases v.len() - i,
    {
        let r = v[i].clone();
        let ghost before = out@;
        out.push(r);
        assert(roles_view(out@) =~= roles_view(before).push(v@[i as int]@));
        assert(roles_view(v@.take(i + 1)) =~= roles_view(v@.take(i as int)).push(v@[i as int]@));
        i += 1;
    }
    assert(v@.take(v.len() as int) =~= v@);
    out
}

pub struct Policy {
    /// List of roles and permissions for them in the current policy.
    pub roles: Vec<Role>,
    /// Default vote policy. Used when given proposal kind doesn't have special policy.
    pub default_vote_policy: VotePolicy,
    /// Expiration period for proposals.
    pub proposal_period: u64,
    /// Proposal bond.
    pub proposal_bond: u128,
}

pub struct PolicyView {
    pub roles: Seq<RoleView>,
    pub default_vote_policy: VotePolicy,
    pub proposal_period: u64,
    pub proposal_bond: u128,
}

impl View for Policy {
    type V = PolicyView;

    open spec fn view(&self) -> PolicyView {
        PolicyView {
            roles: roles_view(self.roles@),
            default_vote_policy: self.default_vote_policy,
            proposal_period: self.proposal_period,
            proposal_bond: self.proposal_bond,
        }
    }
}

impl Clone for Policy {
    fn clone(&self) -> (res: Self)
        ensures
            res@ == self@,
    {
        Policy {
            roles: clone_roles(&self.roles),
            default_vote_policy: self.default_vote_policy,
            proposal_period: self.proposal_period,
            proposal_bond: self.proposal_bond,
        }
    }
}

/// Versioned policy.
pub enum VersionedPolicy {
    /// The current version of the policy.
    Current(Policy),
}

pub enum VersionedPolicyView {
    Current(PolicyView),
}

impl View for VersionedPolicy {
    type V = VersionedPolicyView;

    open spec fn view(&self) -> VersionedPolicyView {
        match self {
            VersionedPolicy::Current(p) => VersionedPolicyView::Current(p@),
        }
    }
}

impl VersionedPolicyView {
    /// The policy that a versioned policy holds.
    pub open spec fn latest(self) -> PolicyView {
        match self {
            VersionedPolicyView::Current(p) => p,
        }
    }
}

impl Clone for VersionedPolicy {
    fn clone(&self) -> (res: Self)
        ensures
            res@ == self@,
    {
        match self {
            VersionedPolicy::Current(p) => VersionedPolicy::Current(p.clone()),
        }
    }
}

impl VersionedPolicy {
    pub fn to_policy(self) -> (res: Policy)
        ensures
            res@ == self@.latest(),
    {
        match self {
            VersionedPolicy::Current(policy) => policy,
        }
    }

    /// The policy that this versioned policy holds, borrowed.
    pub fn as_policy(&self) -> (res: &Policy)
        ensures
            res@ == self@.latest(),
    {
        match self {
            VersionedPolicy::Current(policy) => policy,
        }
    }
}

/// The user on whose behalf an action is taken, with the token balance that weighs the user's votes.
pub struct UserInfo {
    pub account_id: String,
    pub amount: u128,
}

/// The permission label of taking an action on a proposal kind: `<proposal_kind>:<action>`.
pub open spec fn permission_label(kind: Seq<char>, action: Seq<char>) -> Seq<char> {
    kind + ":"@ + action
}

/// Builds `<kind>:<action>`.
pub fn permission_for(kind: &str, action: &str) -> (res: String)
    ensures
        res@ == permission_label(kind@, action@),
{
    let mut s = kind.to_owned();
    s.append(":");
    s.append(action);
    s
}

/// Some role of a kind other than `Everyone` matches `user`.
pub open spec fn matched_by_other_kind(roles: Seq<RoleView>, user: UserInfo) -> bool {
    exists|j: int|
        #![trigger roles[j]]
        0 <= j < roles.len() && !(roles[j].kind is Everyone) && roles[j].kind.matches(user)
}

/// Role `i` applies to `user`: a role of kind `Everyone` applies when no role of another kind
/// matches the user; any other role applies when its kind matches the user.
pub open spec fn applies(roles: Seq<RoleView>, user: UserInfo, i: int) -> bool {
    if roles[i].kind is Everyone {
        !matched_by_other_kind(roles, user)
    } else {
        roles[i].kind.matches(user)
    }
}

/// Role `i` is one of the roles of `user`: it applies to the user, and no later role of the
/// same name does (a later role of the same name takes its place).
pub open spec fn is_effective(roles: Seq<RoleView>, user: UserInfo, i: int) -> bool {
    &&& 0 <= i < roles.len()
    &&& applies(roles, user, i)
    &&& forall|j: int|
        #![trigger roles[j]]
        i < j < roles.len() && applies(roles, user, j) ==> roles[j].name != roles[i].name
}

/// The roles among the first `n` that are roles of `user`, in order.
pub open spec fn effective_prefix(roles: Seq<RoleView>, user: UserInfo, n: int) -> Seq<RoleView>
    decreases n,
{
    if n <= 0 {
        Seq::empty()
    } else {
        let prev = effective_prefix(roles, user, n - 1);
        if is_effective(roles, user, n - 1) {
            prev.push(roles[n - 1])
        } else {
            prev
        }
    }
}

/// The roles of `s` that hold the permission `perm`, in order.
pub open spec fn with_permission(s: Seq<RoleView>, perm: Seq<char>) -> Seq<RoleView>
    decreases s.len(),
{
    if s.len() == 0 {
        Seq::empty()
    } else {
        let prev = with_permission(s.drop_last(), perm);
        if s.last().permissions.contains(perm) {
            prev.push(s.last())
        } else {
            prev
        }
    }
}

impl PolicyView {
    /// The roles of `user`: of the roles that apply to the user, the last one of each name.
    pub open spec fn user_roles(self, user: UserInfo) -> Seq<RoleView> {
        effective_prefix(self.roles, user, self.roles.len() as int)
    }

    /// The roles of `user` that hold the permission `perm`.
    pub open spec fn permitted_roles(self, user: UserInfo, perm: Seq<char>) -> Seq<RoleView> {
        with_permission(self.user_roles(user), perm)
    }

    /// Some role of `user` holds the permission `perm`.
    pub open spec fn allows(self, user: UserInfo, perm: Seq<char>) -> bool {
        exists|i: int| #[trigger] is_effective(self.roles, user, i) && self.roles[i].permissions.contains(perm)
    }
}

/// Whether some role of a kind other than `Everyone` matches `user`.
fn matched_by_other(roles: &Vec<Role>, user: &UserInfo) -> (res: bool)
    ensures
        res == matched_by_other_kind(roles_view(roles@), *user),
{
    let ghost rv = roles_view(roles@);
    let mut j: usize = 0;
    while j < roles.len()
        invariant
            j <= roles.len(),
            rv == roles_view(roles@),
            forall|k: int|
                #![trigger rv[k]]
                0 <= k < j ==> !(!(rv[k].kind is Everyone) && rv[k].kind.matches(*user)),
        decreases roles.len() - j,
    {
        assert(rv[j as int] == roles@[j as int]@);
        let other = match roles[j].kind {
            RoleKind::Everyone => false,
            _ => true,
        };
        if other && roles[j].kind.match_user(user) {
            return true;
        }
        j += 1;
    }
    false
}

/// Whether role `i` applies to `user`, given whether a role of another kind than `Everyone`
/// matches the user.
fn role_applies(roles: &Vec<Role>, i: usize, user: &UserInfo, other: bool) -> (res: bool)
    requires
        i < roles.len(),
        other == matched_by_other_kind(roles_view(roles@), *user),
    ensures
        res == applies(roles_view(roles@), *user, i as int),
{
    assert(roles_view(roles@)[i as int] == roles@[i as int]@);
    match roles[i].kind {
        RoleKind::Everyone => !other,
        _ => roles[i].kind.match_user(user),
    }
}

/// Whether some role after the `i`-th applies to `user` under the name of the `i`-th.
fn applies_later(roles: &Vec<Role>, i: usize, user: &UserInfo, other: bool) -> (res: bool)
    requires
        i < roles.len(),
        other == matched_by_other_kind(roles_view(roles@), *user),
    ensures
        res == exists|j: int|
            #![trigger roles_view(roles@)[j]]
            i < j < roles.len() && applies(roles_view(roles@), *user, j) && roles_view(roles@)[j].name
                == roles_view(roles@)[i as int].name,
{
    let ghost rv = roles_view(roles@);
    assert(rv[i as int] == roles@[i as int]@);
    let mut j: usize = i + 1;
    while j < roles.len()
        invariant
            i < j <= roles.len(),
            rv == roles_view(roles@),
            rv[i as int] == roles@[i as int]@,
            other == matched_by_other_kind(rv, *user),
            forall|k: int|
                #![trigger rv[k]]
                i < k < j ==> !(applies(rv, *user, k) && rv[k].name == rv[i as int].name),
        decreases roles.len() - j,
    {
        assert(rv[j as int] == roles@[j as int]@);
        if role_applies(roles, j, user, other) && roles[j].name == roles[i].name {
            return true;
        }
        j += 1;
    }
    false
}

/// There is a role among the first `n` that applies to `user` and holds `perm` exactly when
/// the roles among the first `n` that apply to `user` hold one with `perm`.
proof fn lemma_permitted_prefix(roles: Seq<RoleView>, user: UserInfo, perm: Seq<char>, n: int)
    requires
        0 <= n <= roles.len(),
    ensures
        (with_permission(effective_prefix(roles, user, n), perm).len() > 0) <==> (exists|i: int|
            0 <= i < n && #[trigger] is_effective(roles, user, i) && roles[i].permissions.contains(perm)),
    decreases n,
{
    if n > 0 {
        lemma_permitted_prefix(roles, user, perm, n - 1);
        let prev = effective_prefix(roles, user, n - 1);
        if is_effective(roles, user, n - 1) {
            assert(prev.push(roles[n - 1]).drop_last() =~= prev);
        }
    }
}

impl Policy {
    /// The roles of `user`, in the order of the policy: of the roles that apply to the user,
    /// the last one of each name.
    pub fn get_user_roles(&self, user: UserInfo) -> (res: Vec<&Role>)
        ensures
            role_refs_view(res@) == self@.user_roles(user),
    {
        let ghost rv = self@.roles;
        let other = matched_by_other(&self.roles, &user);
        let mut out: Vec<&Role> = Vec::new();
        let n = self.roles.len();
        let mut i: usize = 0;
        while i < n
            invariant
                i <= n,
                n == self.roles.len(),
                rv == self@.roles,
                rv == roles_view(self.roles@),
                other == matched_by_other_kind(rv, user),
                role_refs_view(out@) == effective_prefix(rv, user, i as int),
            decreases n - i,
        {
            let role = &self.roles[i];
            let ghost before = out@;
            assert(rv[i as int] == role@);
            let applies_now = role_applies(&self.roles, i, &user, other);
            let later = applies_later(&self.roles, i, &user, other);
            proof {
                if applies_now && !later {
                    assert forall|j: int|
                        #![trigger rv[j]]
                        i < j < rv.len() && applies(rv, user, j) implies rv[j].name != rv[i as int].name by {}
                    assert(is_effective(rv, user, i as int));
                } else if applies_now {
                    let j = choose|j: int|
                        #![trigger rv[j]]
                        i < j < self.roles.len() && applies(rv, user, j) && rv[j].name == rv[i as int].name;
                    assert(!is_effective(rv, user, i as int));
                }
            }
            if applies_now && !later {
                out.push(role);
                assert(role_refs_view(out@) =~= role_refs_view(before).push(role@));
            }
            i += 1;
        }
        out
    }

    /// The roles of `user` that hold the permission `<proposal kind>:<action>`, and whether
    /// there is one.
    pub fn can_execute_action(&self, user: UserInfo, proposal_kind: &ProposalKind, action: &Action) -> (res: (
        Vec<&Role>,
        bool,
    ))
        ensures
            role_refs_view(res.0@) == self@.permitted_roles(
                user,
                permission_label(proposal_kind.label_view(), action.label_view()),
            ),
            res.1 == self@.allows(user, permission_label(proposal_kind.label_view(), action.label_view())),
            res.1 == (res.0.len() > 0),
    {
        let ghost u = user;
        let action_label = action.label();
        let perm = permission_for(proposal_kind.label(), action_label.as_str());
        let roles = self.get_user_roles(user);
        let mut allowed = false;
        let mut out: Vec<&Role> = Vec::new();
        let mut k: usize = 0;
        while k < roles.len()
            invariant
                k <= roles.len(),
                role_refs_view(out@) == with_permission(role_refs_view(roles@).take(k as int), perm@),
                allowed == (out.len() > 0),
            decreases roles.len() - k,
        {
            let r = roles[k];
            let ghost before = out@;
            let ghost s = role_refs_view(roles@).take(k + 1);
            assert(s.drop_last() =~= role_refs_view(roles@).take(k as int));
            assert(s.last() == r@);
            if contains_string(&r.permissions, &perm) {
                out.push(r);
                allowed = true;
                assert(role_refs_view(out@) =~= role_refs_view(before).push(r@));
            }
            k += 1;
        }
        assert(role_refs_view(roles@).take(roles.len() as int) =~= role_refs_view(roles@));
        proof {
            lemma_permitted_prefix(self@.roles, u, perm@, self@.roles.len() as int);
        }
        (out, allowed)
    }
}

/// `p` grants one of `actions` on some proposal kind: it is `<kind>:<action>` for a kind label
/// `kind` and the label of an action in `actions`.
pub open spec fn is_grant(p: Seq<char>, actions: Seq<Action>) -> bool {
    exists|k: int, a: int|
        0 <= k < kind_labels().len() && 0 <= a < actions.len() && p == #[trigger] permission_label(
            kind_labels()[k],
            actions[a].label_view(),
        )
}

/// The permissions to take each of `actions` on every proposal kind.
pub open spec fn grants(actions: Seq<Action>) -> Set<Seq<char>> {
    Set::new(|p: Seq<char>| is_grant(p, actions))
}

/// The permissions `<kind>:<action>` for every proposal kind and every action of `actions`.
pub fn grant_on_all_kinds(actions: &Vec<Action>) -> (res: Vec<String>)
    ensures
        string_set(res@) == grants(actions@),
{
    let kinds = kind_label_list();
    let mut out: Vec<String> = Vec::new();
    let mut ai: usize = 0;
    while ai < actions.len()
        invariant
            ai <= actions.len(),
            kinds@.len() == kind_labels().len(),
            forall|i: int| 0 <= i < kinds@.len() ==> #[trigger] kinds@[i]@ == kind_labels()[i],
            forall|n: int| 0 <= n < out@.len() ==> is_grant(#[trigger] out@[n]@, actions@),
            forall|k: int, a: int|
                0 <= k < kind_labels().len() && 0 <= a < ai ==> lists_string(
                    out@,
                    #[trigger] permission_label(kind_labels()[k], actions@[a].label_view()),
                ),
        decreases actions.len() - ai,
    {
        let label = actions[ai].label();
        let mut ki: usize = 0;
        while ki < kinds.len()
            invariant
                ai < actions.len(),
                ki <= kinds.len(),
                label@ == actions@[ai as int].label_view(),
                kinds@.len() == kind_labels().len(),
                forall|i: int| 0 <= i < kinds@.len() ==> #[trigger] kinds@[i]@ == kind_labels()[i],
                forall|n: int| 0 <= n < out@.len() ==> is_grant(#[trigger] out@[n]@, actions@),
                forall|k: int, a: int|
                    0 <= k < kind_labels().len() && 0 <= a < actions@.len() && (a < ai || (a == ai && k < ki))
                        ==> lists_string(
                        out@,
                        #[trigger] permission_label(kind_labels()[k], actions@[a].label_view()),
                    ),
            decreases kinds.len() - ki,
        {
            let perm = permission_for(kinds[ki], label.as_str());
            let ghost before = out@;
            assert(perm@ == permission_label(kind_labels()[ki as int], actions@[ai as int].label_view()));
            out.push(perm);
            assert forall|n: int| 0 <= n < out@.len() implies is_grant(#[trigger] out@[n]@, actions@) by {
                if n < before.len() {
                    assert(out@[n] == before[n]);
                }
            }
            assert forall|k: int, a: int|
                0 <= k < kind_labels().len() && 0 <= a < actions@.len() && (a < ai || (a == ai && k < ki + 1))
                    implies lists_string(
                    out@,
                    #[trigger] permission_label(kind_labels()[k], actions@[a].label_view()),
                ) by {
                lemma_lists_string_push(before, perm, permission_label(kind_labels()[k], actions@[a].label_view()));
            }
            ki += 1;
        }
        ai += 1;
    }
    assert forall|p: Seq<char>| string_set(out@).contains(p) <==> grants(actions@).contains(p) by {
        if lists_string(out@, p) {
            let n = choose|n: int| 0 <= n < out@.len() && #[trigger] out@[n]@ == p;
            assert(is_grant(out@[n]@, actions@));
        }
        if is_grant(p, actions@) {
            let (k, a) = choose|k: int, a: int|
                0 <= k < kind_labels().len() && 0 <= a < actions@.len() && p == #[trigger] permission_label(
                    kind_labels()[k],
                    actions@[a].label_view(),
                );
            assert(lists_string(out@, permission_label(kind_labels()[k], actions@[a].label_view())));
        }
    }
    assert(string_set(out@) =~= grants(actions@));
    out
}

/// One week, in nanoseconds.
pub const DEFAULT_PROPOSAL_PERIOD: u64 = 604_800_000_000_000;

/// One NEAR, in yoctoNEAR.
pub const DEFAULT_PROPOSAL_BOND: u128 = 1_000_000_000_000_000_000_000_000;

impl PolicyView {
    /// The policy that a DAO with the given council starts with: users that are neither
    /// members nor in the council ("all") may add proposals of every kind; members (any
    /// positive balance) may also vote to approve or reject; the council may also remove votes
    /// and finalize. Proposals expire after a week; the bond is one NEAR.
    pub open spec fn is_default_for(self, council: Seq<String>) -> bool {
        &&& self.roles.len() == 3
        &&& self.roles[0].name == "all"@
        &&& self.roles[0].kind == RoleKindView::Everyone
        &&& self.roles[0].permissions == grants(seq![Action::AddProposal])
        &&& self.roles[0].vote_policy == Map::<Seq<char>, VotePolicy>::empty()
        &&& self.roles[1].name == "member"@
        &&& self.roles[1].kind == RoleKindView::Member(1)
        &&& self.roles[1].permissions == grants(seq![Action::AddProposal, Action::VoteApprove, Action::VoteReject])
        &&& self.roles[1].vote_policy == Map::<Seq<char>, VotePolicy>::empty()
        &&& self.roles[2].name == "council"@
        &&& self.roles[2].kind == RoleKindView::Group(string_set(council))
        &&& self.roles[2].permissions == grants(
            seq![
                Action::AddProposal,
                Action::VoteApprove,
                Action::VoteReject,
                Action::VoteRemove,
                Action::Finalize,
            ],
        )
        &&& self.roles[2].vote_policy == Map::<Seq<char>, VotePolicy>::empty()
        &&& self.default_vote_policy == VotePolicy::default_view()
        &&& self.proposal_period == DEFAULT_PROPOSAL_PERIOD
        &&& self.proposal_bond == DEFAULT_PROPOSAL_BOND
    }
}

impl Policy {
    pub fn default_policy(council: Vec<String>) -> (res: Self)
        ensures
            res@.is_default_for(council@),
    {
        let add = vec![Action::AddProposal];
        assert(add@ =~= seq![Action::AddProposal]);
        let all = Role {
            name: "all".to_owned(),
            kind: RoleKind::Everyone,
            permissions: grant_on_all_kinds(&add),
            vote_policy: Vec::new(),
        };
        let vote = vec![Action::AddProposal, Action::VoteApprove, Action::VoteReject];
        assert(vote@ =~= seq![Action::AddProposal, Action::VoteApprove, Action::VoteReject]);
        let member = Role {
            name: "member".to_owned(),
            kind: RoleKind::Member(1),
            permissions: grant_on_all_kinds(&vote),
            vote_policy: Vec::new(),
        };
        let govern = vec![
            Action::AddProposal,
            Action::VoteApprove,
            Action::VoteReject,
            Action::VoteRemove,
            Action::Finalize,
        ];
        assert(govern@ =~= seq![
            Action::AddProposal,
            Action::VoteApprove,
            Action::VoteReject,
            Action::VoteRemove,
            Action::Finalize,
        ]);
        let council_role = Role {
            name: "council".to_owned(),
            kind: RoleKind::Group(council),
            permissions: grant_on_all_kinds(&govern),
            vote_policy: Vec::new(),
        };
        let roles = vec![all, member, council_role];
        Policy {
            roles: roles,
            default_vote_policy: VotePolicy::default(),
            proposal_period: DEFAULT_PROPOSAL_PERIOD,
            proposal_bond: DEFAULT_PROPOSAL_BOND,
        }
    }
}

/// The names of the default roles differ.
proof fn lemma_default_role_names_differ()
    ensures
        "all"@ != "member"@,
        "all"@ != "council"@,
        "member"@ != "council"@,
{
    reveal_strlit("all");
    reveal_strlit("member");
    reveal_strlit("council");
    assert("all"@.len() == 3);
    assert("member"@.len() == 6);
    assert("council"@.len() == 7);
}

/// Under the default policy, a user with a positive balance has the role "member"; a member of
/// the council has the role "council"; a user that is neither has the role "all".
pub proof fn lemma_default_policy_roles(p: PolicyView, council: Seq<String>, user: UserInfo)
    requires
        p.is_default_for(council),
    ensures
        is_effective(p.roles, user, 0) <==> (user.amount < 1 && !lists_string(council, user.account_id@)),
        is_effective(p.roles, user, 1) <==> user.amount >= 1,
        is_effective(p.roles, user, 2) <==> lists_string(council, user.account_id@),
{
    lemma_default_role_names_differ();
    let roles = p.roles;
    if user.amount >= 1 {
        assert(!(roles[1].kind is Everyone) && roles[1].kind.matches(user));
        assert(matched_by_other_kind(roles, user));
    } else if lists_string(council, user.account_id@) {
        assert(string_set(council).contains(user.account_id@));
        assert(!(roles[2].kind is Everyone) && roles[2].kind.matches(user));
        assert(matched_by_other_kind(roles, user));
    } else {
        assert forall|j: int| 0 <= j < roles.len() implies !(!(#[trigger] roles[j].kind is Everyone)
            && roles[j].kind.matches(user)) by {
            if j == 2 {
                assert(!string_set(council).contains(user.account_id@));
            }
        }
        assert(!matched_by_other_kind(roles, user));
    }
    assert(lists_string(council, user.account_id@) <==> roles[2].kind.matches(user));
}

/// Under the default policy, every user may add a proposal of every kind.
pub proof fn lemma_default_policy_lets_everyone_propose(
    p: PolicyView,
    council: Seq<String>,
    user: UserInfo,
    kind: Seq<char>,
)
    requires
        p.is_default_for(council),
        kind_labels().contains(kind),
    ensures
        p.allows(user, permission_label(kind, Action::AddProposal.label_view())),
{
    lemma_default_policy_roles(p, council, user);
    let perm = permission_label(kind, Action::AddProposal.label_view());
    let k = choose|k: int| 0 <= k < kind_labels().len() && kind_labels()[k] == kind;
    let i: int = if user.amount >= 1 {
        1
    } else if lists_string(council, user.account_id@) {
        2
    } else {
        0
    };
    let acts = if i == 0 {
        seq![Action::AddProposal]
    } else if i == 1 {
        seq![Action::AddProposal, Action::VoteApprove, Action::VoteReject]
    } else {
        seq![
            Action::AddProposal,
            Action::VoteApprove,
            Action::VoteReject,
            Action::VoteRemove,
            Action::Finalize,
        ]
    };
    assert(perm == permission_label(kind_labels()[k], acts[0].label_view()));
    assert(is_grant(perm, acts));
    assert(p.roles[i].permissions.contains(perm));
    assert(is_effective(p.roles, user, i));
}

/// The default policy depends on the council only as a set: two default policies are equal
/// exactly when their councils hold the same accounts, whatever their order and repeats.
pub proof fn lemma_default_policy_depends_on_council_set(
    p1: PolicyView,
    p2: PolicyView,
    c1: Seq<String>,
    c2: Seq<String>,
)
    requires
        p1.is_default_for(c1),
        p2.is_default_for(c2),
    ensures
        (p1 == p2) <==> (string_set(c1) == string_set(c2)),
{
    if string_set(c1) == string_set(c2) {
        assert(p1.roles[0] == p2.roles[0]);
        assert(p1.roles[1] == p2.roles[1]);
        assert(p1.roles[2] == p2.roles[2]);
        assert(p1.roles =~= p2.roles);
    }
    if p1 == p2 {
        assert(p1.roles[2].kind == p2.roles[2].kind);
    }
}

/// In a policy whose roles have distinct names and none of kind `Everyone`, holding more
/// tokens never takes a permission away.
pub proof fn lemma_more_tokens_keep_permissions(p: PolicyView, u1: UserInfo, u2: UserInfo, perm: Seq<char>)
    requires
        forall|i: int| 0 <= i < p.roles.len() ==> !(#[trigger] p.roles[i].kind is Everyone),
        forall|i: int, j: int|
            0 <= i < p.roles.len() && 0 <= j < p.roles.len() && i != j ==> #[trigger] p.roles[i].name
                != #[trigger] p.roles[j].name,
        u1.account_id@ == u2.account_id@,
        u1.amount <= u2.amount,
        p.allows(u1, perm),
    ensures
        p.allows(u2, perm),
{
    let i = choose|i: int| #[trigger] is_effective(p.roles, u1, i) && p.roles[i].permissions.contains(perm);
    assert(!(p.roles[i].kind is Everyone));
    assert(p.roles[i].kind.matches(u1));
    assert(p.roles[i].kind.matches(u2));
    assert(applies(p.roles, u2, i));
    assert(is_effective(p.roles, u2, i));
}

} // verus!
