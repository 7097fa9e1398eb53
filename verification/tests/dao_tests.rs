use cryptdao::dao::{Dao, DaoError};
use cryptdao::policy::{UserInfo, VersionedPolicy, Policy};
use cryptdao::proposals::{
    Proposal, ProposalInput, ProposalKind, ProposalStatus, VersionedProposal,
};
use cryptdao::types::Config;
use cryptdao::{default_metadata, StorageKeys, TOTAL_SUPPLY};

const ONE_NEAR: u128 = 1_000_000_000_000_000_000_000_000;

fn council() -> Vec<String> {
    vec!["bob.near".to_string(), "carol.near".to_string(), "bob.near".to_string()]
}

fn input(kind: ProposalKind) -> ProposalInput {
    ProposalInput {
        title: "t".to_string(),
        description: "d".to_string(),
        kind,
        proposal_start_time: 10,
        proposal_end_time: 20,
    }
}

fn bob(amount: u128) -> UserInfo {
    UserInfo { account_id: "bob.near".to_string(), amount }
}

fn transfer(token_id: Option<&str>, msg: Option<&str>) -> ProposalKind {
    ProposalKind::Transfer {
        token_id: token_id.map(|t| t.to_string()),
        receiver_id: "x.near".to_string(),
        amount: 5,
        msg: msg.map(|m| m.to_string()),
    }
}

#[test]
fn new_dao_state() {
    let dao = Dao::new("Test".to_string(), "to test".to_string(), council(), 1_700_000_000);
    let meta = dao.metadata();
    assert_eq!(meta.name, "Test");
    assert_eq!(meta.headcount, 3);
    let policy = dao.get_policy();
    assert_eq!(policy.roles.len(), 3);
    assert_eq!(policy.proposal_bond, ONE_NEAR);
    assert!(dao.get_proposals(0, 10).is_empty());
}

#[test]
fn council_members_are_citizens() {
    let dao = Dao::new("Test".to_string(), "to test".to_string(), council(), 1_700_000_000);
    let bob = dao.get_citizen("bob.near".to_string()).expect("bob is a citizen");
    assert_eq!(bob.account_id, "bob.near");
    assert_eq!(bob.role_name, "council");
    assert_eq!(bob.joined, 1_700_000_000);
    let carol = dao.get_citizen("carol.near".to_string()).expect("carol is a citizen");
    assert_eq!(carol.role_name, "council");
    assert!(dao.get_citizen("dave.near".to_string()).is_none());
}

#[test]
fn add_proposal_below_bond() {
    let mut dao = Dao::new("Test".to_string(), "to test".to_string(), council(), 1_700_000_000);
    let res = dao.add_proposal(input(transfer(None, None)), bob(1), ONE_NEAR - 1, 0);
    assert_eq!(res, Err(DaoError::MinBond));
    assert!(dao.get_proposals(0, 10).is_empty());
}

#[test]
fn add_proposal_invalid_transfer() {
    let mut dao = Dao::new("Test".to_string(), "to test".to_string(), council(), 1_700_000_000);
    let res = dao.add_proposal(input(transfer(None, Some("m"))), bob(1), ONE_NEAR, 0);
    assert_eq!(res, Err(DaoError::InvalidTransfer));
}

#[test]
fn add_proposal_invalid_member() {
    let mut dao = Dao::new("Test".to_string(), "to test".to_string(), council(), 1_700_000_000);
    let kind = ProposalKind::AddMemberToRole { member_id: "".to_string(), role: "council".to_string() };
    assert_eq!(dao.add_proposal(input(kind), bob(1), ONE_NEAR, 0), Err(DaoError::InvalidAddMember));
    let kind = ProposalKind::AddMemberToRole { member_id: "eve.near".to_string(), role: "".to_string() };
    assert_eq!(dao.add_proposal(input(kind), bob(1), ONE_NEAR, 0), Err(DaoError::InvalidAddMember));
}

#[test]
fn add_proposal_unsupported_kind() {
    let mut dao = Dao::new("Test".to_string(), "to test".to_string(), council(), 1_700_000_000);
    let kind = ProposalKind::ChangeConfig { config: Config::test_config() };
    assert_eq!(dao.add_proposal(input(kind), bob(1), ONE_NEAR, 0), Err(DaoError::UnsupportedProposal));
    let kind = ProposalKind::UpgradeSelf { hash: [0u8; 32] };
    assert_eq!(dao.add_proposal(input(kind), bob(1), ONE_NEAR, 0), Err(DaoError::UnsupportedProposal));
}

#[test]
fn add_proposal_accepted_under_default_policy() {
    let mut dao = Dao::new("Test".to_string(), "to test".to_string(), council(), 1_700_000_000);
    let first = dao.add_proposal(input(transfer(Some("usdc.near"), Some("m"))), bob(1), ONE_NEAR, 5);
    assert_eq!(first, Ok(0));
    let kind = ProposalKind::ChangePolicy { policy: VersionedPolicy::Current(Policy::default_policy(vec![])) };
    let stranger = UserInfo { account_id: "eve.near".to_string(), amount: 0 };
    let second = dao.add_proposal(input(kind), stranger, 2 * ONE_NEAR, 6);
    assert_eq!(second, Ok(1));
    let out = dao.get_proposal(0);
    assert_eq!(out.id, 0);
    assert_eq!(out.proposal.proposer, "bob.near");
    assert_eq!(out.proposal.submission_time, 5);
    assert_eq!(out.proposal.status, ProposalStatus::InProgress);
    assert_eq!(out.proposal.kind.label(), "Transfer");
    let page = dao.get_proposals(0, 10);
    assert_eq!(page.len(), 2);
    assert_eq!(page[1].id, 1);
    assert_eq!(page[1].proposal.proposer, "eve.near");
    assert_eq!(page[1].proposal.kind.label(), "ChangePolicy");
    let tail = dao.get_proposals(1, 1);
    assert_eq!(tail.len(), 1);
    assert_eq!(tail[0].id, 1);
    assert!(dao.get_proposals(2, 5).is_empty());
    // A refusal leaves the proposals as they were.
    assert_eq!(dao.add_proposal(input(transfer(None, None)), bob(1), 1, 7), Err(DaoError::MinBond));
    assert_eq!(dao.get_proposals(0, 10).len(), 2);
}

#[test]
fn error_messages() {
    assert_eq!(DaoError::MinBond.message(), "ERR_MIN_BOND");
    assert_eq!(DaoError::InvalidTransfer.message(), "ERR_INVALID_TRANSFER");
    assert_eq!(DaoError::InvalidAddMember.message(), "ERR_INVALID_ADD_MEMBER");
    assert_eq!(DaoError::UnsupportedProposal.message(), "ERR_UNSUPPORTED_PROPOSAL");
    assert_eq!(DaoError::PermissionDenied.message(), "ERR_PERMISSION_DENIED");
    assert_eq!(DaoError::Overflow.message(), "attempt to add with overflow");
    assert_eq!(DaoError::AccountAlreadyRegistered.message(), "The account is already registered");
}

#[test]
fn submitted_proposal_fields() {
    let p = Proposal::from_input_at(input(transfer(None, None)), "bob.near".to_string(), 99);
    assert_eq!(p.proposer, "bob.near");
    assert_eq!(p.title, "t");
    assert_eq!(p.description, "d");
    assert_eq!(p.status, ProposalStatus::InProgress);
    assert_eq!(p.submission_time, 99);
    assert_eq!(p.proposal_start_time, 10);
    assert_eq!(p.proposal_end_time, 20);
    let v = VersionedProposal::Default(p);
    let copy = v.to_proposal();
    assert_eq!(copy.proposer, "bob.near");
    let back: Proposal = v.into();
    assert_eq!(back.submission_time, 99);
    assert_eq!(back.kind.label(), "Transfer");
}

#[test]
fn storage_keys_are_variant_indices() {
    assert_eq!(StorageKeys::Config.into_storage_key(), vec![0u8]);
    assert_eq!(StorageKeys::Policy.into_storage_key(), vec![1u8]);
    assert_eq!(StorageKeys::Token.into_storage_key(), vec![2u8]);
    assert_eq!(StorageKeys::TokenMetadata.into_storage_key(), vec![3u8]);
    assert_eq!(StorageKeys::Proposals.into_storage_key(), vec![4u8]);
    assert_eq!(StorageKeys::Treasury.into_storage_key(), vec![5u8]);
    assert_eq!(StorageKeys::Citizens.into_storage_key(), vec![6u8]);
}

#[test]
fn token_metadata_and_supply() {
    let m = default_metadata();
    assert_eq!(m.spec, "ft-1.0.0");
    assert_eq!(m.name, "CryptDAO");
    assert_eq!(m.symbol, "DAO");
    assert_eq!(m.decimals, 24);
    assert_eq!(m.icon.as_deref(), Some(cryptdao::DATA_IMAGE_SVG_NEAR_ICON));
    assert!(m.reference.is_none());
    assert!(m.reference_hash.is_none());
    assert_eq!(TOTAL_SUPPLY, 1_000_000_000_000_000);
}
