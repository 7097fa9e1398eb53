use cryptdao::policy::{
    contains_string, permission_for, Policy, Role, RoleKind, UserInfo, VersionedPolicy, VotePolicy,
    WeightKind, WeightOrRatio, DEFAULT_PROPOSAL_BOND, DEFAULT_PROPOSAL_PERIOD,
};
use cryptdao::proposals::{ProposalKind, VoteKind};
use cryptdao::types::{Action, Config};

fn user(account: &str, amount: u128) -> UserInfo {
    UserInfo { account_id: account.to_string(), amount }
}

fn role(name: &str, kind: RoleKind, permissions: &[&str]) -> Role {
    Role {
        name: name.to_string(),
        kind,
        permissions: permissions.iter().map(|p| p.to_string()).collect(),
        vote_policy: Vec::new(),
    }
}

fn policy_of(roles: Vec<Role>) -> Policy {
    Policy {
        roles,
        default_vote_policy: VotePolicy::default(),
        proposal_period: DEFAULT_PROPOSAL_PERIOD,
        proposal_bond: DEFAULT_PROPOSAL_BOND,
    }
}

fn transfer() -> ProposalKind {
    ProposalKind::Transfer {
        token_id: None,
        receiver_id: "charlie.near".to_string(),
        amount: 1,
        msg: None,
    }
}

#[test]
fn config_constructors() {
    let c = Config::test_config();
    assert_eq!(c.name, "Test");
    assert_eq!(c.purpose, "to test");
    let d = Config::new("n".to_string(), "p".to_string());
    assert_eq!(d.name, "n");
    assert_eq!(d.purpose, "p");
    let e = d.clone();
    assert_eq!(e.name, "n");
}

#[test]
fn action_labels_are_variant_names() {
    assert_eq!(Action::AddProposal.label(), "AddProposal");
    assert_eq!(Action::RemoveProposal.label(), "RemoveProposal");
    assert_eq!(Action::VoteApprove.label(), "VoteApprove");
    assert_eq!(Action::VoteReject.label(), "VoteReject");
    assert_eq!(Action::VoteRemove.label(), "VoteRemove");
    assert_eq!(Action::Finalize.label(), "Finalize");
    assert_eq!(Action::MoveToHub.label(), "MoveToHub");
}

#[test]
fn proposal_kind_labels_are_variant_names() {
    assert_eq!(transfer().label(), "Transfer");
    let vote = ProposalKind::Vote(VoteKind { options: vec![], votes: vec![], option_counts: vec![] });
    assert_eq!(vote.label(), "Vote");
    let add = ProposalKind::AddMemberToRole { member_id: "a.near".to_string(), role: "council".to_string() };
    assert_eq!(add.label(), "AddMemberToRole");
    let remove = ProposalKind::RemoveMemberFromRole { member_id: "a.near".to_string(), role: "c".to_string() };
    assert_eq!(remove.label(), "RemoveMemberFromRole");
    let config = ProposalKind::ChangeConfig { config: Config::test_config() };
    assert_eq!(config.label(), "ChangeConfig");
    let policy = ProposalKind::ChangePolicy { policy: VersionedPolicy::Current(policy_of(vec![])) };
    assert_eq!(policy.label(), "ChangePolicy");
    let call = ProposalKind::FunctionCall { receiver_id: "x.near".to_string(), actions: vec![] };
    assert_eq!(call.label(), "FunctionCall");
    assert_eq!(ProposalKind::UpgradeSelf { hash: [0u8; 32] }.label(), "UpgradeSelf");
    let remote = ProposalKind::UpgradeRemote {
        receiver_id: "x.near".to_string(),
        method_name: "m".to_string(),
        hash: [1u8; 32],
    };
    assert_eq!(remote.label(), "UpgradeRemote");
}

#[test]
fn match_user_by_kind() {
    assert!(RoleKind::Everyone.match_user(&user("a.near", 0)));
    assert!(RoleKind::Member(5).match_user(&user("a.near", 5)));
    assert!(RoleKind::Member(5).match_user(&user("a.near", 6)));
    assert!(!RoleKind::Member(5).match_user(&user("a.near", 4)));
    let group = RoleKind::Group(vec!["a.near".to_string(), "b.near".to_string()]);
    assert!(group.match_user(&user("b.near", 0)));
    assert!(!group.match_user(&user("c.near", 100)));
}

#[test]
fn contains_string_and_permission_label() {
    let v = vec!["x".to_string(), "Transfer:AddProposal".to_string()];
    let perm = permission_for("Transfer", "AddProposal");
    assert_eq!(perm, "Transfer:AddProposal");
    assert!(contains_string(&v, &perm));
    assert!(!contains_string(&v, &"y".to_string()));
}

const KINDS: [&str; 9] = [
    "ChangeConfig",
    "ChangePolicy",
    "AddMemberToRole",
    "RemoveMemberFromRole",
    "FunctionCall",
    "UpgradeSelf",
    "UpgradeRemote",
    "Transfer",
    "Vote",
];

fn grants(actions: &[&str]) -> Vec<String> {
    let mut v = Vec::new();
    for a in actions {
        for k in KINDS {
            v.push(format!("{}:{}", k, a));
        }
    }
    v
}

#[test]
fn default_policy_layout() {
    let p = Policy::default_policy(vec!["bob.near".to_string()]);
    assert_eq!(p.roles.len(), 3);
    assert_eq!(p.roles[0].name, "all");
    assert!(matches!(p.roles[0].kind, RoleKind::Everyone));
    assert_eq!(p.roles[0].permissions, grants(&["AddProposal"]));
    assert_eq!(p.roles[1].name, "member");
    assert!(matches!(p.roles[1].kind, RoleKind::Member(1)));
    assert_eq!(p.roles[1].permissions, grants(&["AddProposal", "VoteApprove", "VoteReject"]));
    assert_eq!(p.roles[2].name, "council");
    match &p.roles[2].kind {
        RoleKind::Group(accounts) => assert_eq!(accounts, &vec!["bob.near".to_string()]),
        _ => panic!("council is a group"),
    }
    assert_eq!(
        p.roles[2].permissions,
        grants(&["AddProposal", "VoteApprove", "VoteReject", "VoteRemove", "Finalize"])
    );
    assert_eq!(p.proposal_period, 604_800_000_000_000);
    assert_eq!(p.proposal_bond, 1_000_000_000_000_000_000_000_000);
    assert_eq!(p.default_vote_policy.weight_kind, WeightKind::RoleWeight);
    assert_eq!(p.default_vote_policy.quorum, 0);
    assert_eq!(p.default_vote_policy.threshold, WeightOrRatio::Ratio(1, 2));
}

#[test]
fn default_policy_user_roles() {
    let p = Policy::default_policy(vec!["bob.near".to_string()]);
    let names = |u: UserInfo| p.get_user_roles(u).iter().map(|r| r.name.clone()).collect::<Vec<_>>();
    assert_eq!(names(user("alice.near", 0)), vec!["all"]);
    assert_eq!(names(user("alice.near", 1)), vec!["member"]);
    assert_eq!(names(user("bob.near", 0)), vec!["council"]);
    assert_eq!(names(user("bob.near", 7)), vec!["member", "council"]);
}

#[test]
fn default_policy_permissions() {
    let p = Policy::default_policy(vec!["bob.near".to_string()]);
    for u in [user("alice.near", 0), user("alice.near", 3), user("bob.near", 0)] {
        let (roles, allowed) = p.can_execute_action(u, &transfer(), &Action::AddProposal);
        assert!(allowed);
        assert_eq!(roles.len(), 1);
    }
    let (_, allowed) = p.can_execute_action(user("alice.near", 0), &transfer(), &Action::VoteApprove);
    assert!(!allowed);
    let (roles, allowed) = p.can_execute_action(user("alice.near", 3), &transfer(), &Action::VoteApprove);
    assert!(allowed);
    assert_eq!(roles[0].name, "member");
    let (_, allowed) = p.can_execute_action(user("alice.near", 3), &transfer(), &Action::Finalize);
    assert!(!allowed);
    let (roles, allowed) = p.can_execute_action(user("bob.near", 3), &transfer(), &Action::Finalize);
    assert!(allowed);
    assert_eq!(roles[0].name, "council");
    let (_, allowed) = p.can_execute_action(user("bob.near", 3), &transfer(), &Action::MoveToHub);
    assert!(!allowed);
}

#[test]
fn everyone_applies_only_to_users_no_other_kind_matches() {
    let p = policy_of(vec![
        role("guest", RoleKind::Everyone, &["Transfer:AddProposal"]),
        role("holder", RoleKind::Member(10), &[]),
    ]);
    let (roles, allowed) = p.can_execute_action(user("a.near", 9), &transfer(), &Action::AddProposal);
    assert!(allowed);
    assert_eq!(roles[0].name, "guest");
    let (roles, allowed) = p.can_execute_action(user("a.near", 10), &transfer(), &Action::AddProposal);
    assert!(!allowed);
    assert!(roles.is_empty());
    let names: Vec<_> = p.get_user_roles(user("a.near", 10)).iter().map(|r| r.name.clone()).collect();
    assert_eq!(names, vec!["holder"]);
}

#[test]
fn later_role_of_same_name_takes_the_place() {
    let p = policy_of(vec![
        role("r", RoleKind::Everyone, &["Transfer:AddProposal"]),
        role("r", RoleKind::Member(1), &[]),
    ]);
    // A user with balance: the second "r" applies, which holds no permission.
    let (roles, allowed) = p.can_execute_action(user("a.near", 1), &transfer(), &Action::AddProposal);
    assert!(!allowed);
    assert!(roles.is_empty());
    // A user without balance: the second "r" does not match, so the first applies.
    let (roles, allowed) = p.can_execute_action(user("a.near", 0), &transfer(), &Action::AddProposal);
    assert!(allowed);
    assert_eq!(roles.len(), 1);
    assert_eq!(roles[0].permissions, vec!["Transfer:AddProposal"]);
}

#[test]
fn can_execute_action_lists_permitted_roles() {
    let p = policy_of(vec![
        role("all", RoleKind::Everyone, &["Vote:VoteApprove"]),
        role("council", RoleKind::Group(vec!["bob.near".to_string()]), &["Transfer:AddProposal", "Vote:VoteApprove"]),
        role("rich", RoleKind::Member(100), &["Transfer:AddProposal"]),
    ]);
    let (roles, allowed) = p.can_execute_action(user("bob.near", 100), &transfer(), &Action::AddProposal);
    assert!(allowed);
    let names: Vec<_> = roles.iter().map(|r| r.name.clone()).collect();
    assert_eq!(names, vec!["council", "rich"]);
    let (roles, allowed) = p.can_execute_action(user("carol.near", 5), &transfer(), &Action::AddProposal);
    assert!(!allowed);
    assert!(roles.is_empty());
    let (_, allowed) = p.can_execute_action(user("carol.near", 5), &transfer(), &Action::VoteApprove);
    assert!(!allowed);
}

#[test]
fn versioned_policy_unwraps() {
    let p = VersionedPolicy::Current(Policy::default_policy(vec![])).to_policy();
    assert_eq!(p.roles.len(), 3);
    let q = p.clone();
    assert_eq!(q.roles[1].name, "member");
}
