use vstd::prelude::*;

use crate::policy::{VersionedPolicy, VersionedPolicyView};
use crate::chain::{account_string, env_predecessor_account_id};
use crate::types::Config;
use crate::utils::get_timestamp;

verus! {

/// Status of a proposal.
#[derive(Clone, Copy, Debug, PartialEq, Eq, Structural)]
pub enum ProposalStatus {
    /// New proposal.
    New,
    /// Proposal is waiting for council to vote.
    InProgress,
    /// If quorum voted yes, this proposal is successfully approved.
    Approved,
    /// If quorum voted no, this proposal is rejected. Bond is returned.
    Rejected,
    /// If quorum voted to remove (e.g. spam), this proposal is rejected and bond is not returned.
    /// Interfaces shouldn't show removed proposals.
    Removed,
    /// Expired after period of time.
    Expired,
    /// If proposal was moved to Hub or somewhere else.
    Moved,
    /// If proposal has failed when finalizing. Allowed to re-finalize again to either expire or approved.
    Failed,
}

/// Function call arguments.
pub struct ActionCall {
    pub method_name: String,
    pub args: Vec<u8>,
    pub deposit: u128,
    pub gas: u64,
}

/// A copy of a list of bytes.
pub fn clone_bytes(v: &Vec<u8>) -> (res: Vec<u8>)
    ensures
        res@ == v@,
{
    let mut out: Vec<u8> = Vec::new();
    let mut i: usize = 0;
    while i < v.len()
        invariant
            i <= v.len(),
            out@ == v@.take(i as int),
        decreases v.len() - i,
    {
        out.push(v[i]);
        assert(v@.take(i as int).push(v@[i as int]) =~= v@.take(i + 1));
        i += 1;
    }
    assert(v@.take(v.len() as int) =~= v@);
    out
}

pub struct ActionCallView {
    pub method_name: String,
    pub args: Seq<u8>,
    pub deposit: u128,
    pub gas: u64,
}

impl View for ActionCall {
    type V = ActionCallView;

    open spec fn view(&self) -> ActionCallView {
        ActionCallView { method_name: self.method_name, args: self.args@, deposit: self.deposit, gas: self.gas }
    }
}

impl Clone for ActionCall {
    fn clone(&self) -> (res: Self)
        ensures
            res@ == self@,
    {
        ActionCall {
            method_name: self.method_name.clone(),
            args: clone_bytes(&self.args),
            deposit: self.deposit,
            gas: self.gas,
        }
    }
}

pub struct VoteOption {
    /// Option id of the Vote
    pub name: String,
    /// Option
    pub content: String,
}

impl Clone for VoteOption {
    fn clone(&self) -> (res: Self)
        ensures
            res == *self,
    {
        VoteOption { name: self.name.clone(), content: self.content.clone() }
    }
}

/// The options that one account voted for.
pub struct VoteRecord {
    pub account_id: String,
    pub options: Vec<VoteOption>,
}

pub struct VoteRecordView {
    pub account_id: String,
    pub options: Seq<VoteOption>,
}

impl View for VoteRecord {
    type V = VoteRecordView;

    open spec fn view(&self) -> VoteRecordView {
        VoteRecordView { account_id: self.account_id, options: self.options@ }
    }
}

impl Clone for VoteRecord {
    fn clone(&self) -> (res: Self)
        ensures
            res@ == self@,
    {
        VoteRecord { account_id: self.account_id.clone(), options: clone_options(&self.options) }
    }
}

/// The tally of one option.
pub struct OptionCount {
    pub name: String,
    pub count: u128,
}

impl Clone for OptionCount {
    fn clone(&self) -> (res: Self)
        ensures
            res == *self,
    {
        OptionCount { name: self.name.clone(), count: self.count }
    }
}

pub struct VoteKind {
    pub options: Vec<VoteOption>,
    /// The options voted for, by account.
    pub votes: Vec<VoteRecord>,
    /// The tally, by option name.
    pub option_counts: Vec<OptionCount>,
}

pub fn clone_options(v: &Vec<VoteOption>) -> (res: Vec<VoteOption>)
    ensures
        res@ == v@,
{
    let mut out: Vec<VoteOption> = Vec::new();
    let mut i: usize = 0;
    while i < v.len()
        invariant
            i <= v.len(),
            out@ == v@.take(i as int),
        decreases v.len() - i,
    {
        out.push(v[i].clone());
        assert(v@.take(i as int).push(v@[i as int]) =~= v@.take(i + 1));
        i += 1;
    }
    assert(v@.take(v.len() as int) =~= v@);
    out
}

pub fn clone_records(v: &Vec<VoteRecord>) -> (res: Vec<VoteRecord>)
    ensures
        res@.map_values(|x: VoteRecord| x@) == v@.map_values(|x: VoteRecord| x@),
{
    let mut out: Vec<VoteRecord> = Vec::new();
    let mut i: usize = 0;
    while i < v.len()
        invariant
            i <= v.len(),
            out@.map_values(|x: VoteRecord| x@) == v@.take(i as int).map_values(|x: VoteRecord| x@),
        decreases v.len() - i,
    {
        let c = v[i].clone();
        let ghost before = out@;
        out.push(c);
        assert(out@.map_values(|x: VoteRecord| x@) =~= before.map_values(|x: VoteRecord| x@).push(v@[i as int]@));
        assert(v@.take(i + 1).map_values(|x: VoteRecord| x@) =~= v@.take(i as int).map_values(|x: VoteRecord| x@).push(
            v@[i as int]@,
        ));
        i += 1;
    }
    assert(v@.take(v.len() as int) =~= v@);
    out
}

pub fn clone_counts(v: &Vec<OptionCount>) -> (res: Vec<OptionCount>)
    ensures
        res@ == v@,
{
    let mut out: Vec<OptionCount> = Vec::new();
    let mut i: usize = 0;
    while i < v.len()
        invariant
            i <= v.len(),
            out@ == v@.take(i as int),
        decreases v.len() - i,
    {
        out.push(v[i].clone());
        assert(v@.take(i as int).push(v@[i as int]) =~= v@.take(i + 1));
        i += 1;
    }
    assert(v@.take(v.len() as int) =~= v@);
    out
}

pub fn clone_calls(v: &Vec<ActionCall>) -> (res: Vec<ActionCall>)
    ensures
        res@.map_values(|x: ActionCall| x@) == v@.map_values(|x: ActionCall| x@),
{
    let mut out: Vec<ActionCall> = Vec::new();
    let mut i: usize = 0;
    while i < v.len()
        invariant
            i <= v.len(),
            out@.map_values(|x: ActionCall| x@) == v@.take(i as int).map_values(|x: ActionCall| x@),
        decreases v.len() - i,
    {
        let c = v[i].clone();
        let ghost before = out@;
        out.push(c);
        assert(out@.map_values(|x: ActionCall| x@) =~= before.map_values(|x: ActionCall| x@).push(v@[i as int]@));
        assert(v@.take(i + 1).map_values(|x: ActionCall| x@) =~= v@.take(i as int).map_values(|x: ActionCall| x@).push(
            v@[i as int]@,
        ));
        i += 1;
    }
    assert(v@.take(v.len() as int) =~= v@);
    out
}

/// The options voted for, by the account id of the voter: each account once, a later record
/// replacing an earlier one.
pub open spec fn votes_map(s: Seq<VoteRecordView>) -> Map<Seq<char>, Seq<VoteOption>>
    decreases s.len(),
{
    if s.len() == 0 {
        Map::empty()
    } else {
        votes_map(s.drop_last()).insert(s.last().account_id@, s.last().options)
    }
}

/// The tally, by option name: each option once, a later count replacing an earlier one.
pub open spec fn counts_map(s: Seq<OptionCount>) -> Map<Seq<char>, u128>
    decreases s.len(),
{
    if s.len() == 0 {
        Map::empty()
    } else {
        counts_map(s.drop_last()).insert(s.last().name@, s.last().count)
    }
}

pub struct VoteKindView {
    pub options: Seq<VoteOption>,
    pub votes: Map<Seq<char>, Seq<VoteOption>>,
    pub option_counts: Map<Seq<char>, u128>,
}

impl View for VoteKind {
    type V = VoteKindView;

    open spec fn view(&self) -> VoteKindView {
        VoteKindView {
            options: self.options@,
            votes: votes_map(self.votes@.map_values(|r: VoteRecord| r@)),
            option_counts: counts_map(self.option_counts@),
        }
    }
}

impl Clone for VoteKind {
    fn clone(&self) -> (res: Self)
        ensures
            res@ == self@,
    {
        VoteKind {
            options: clone_options(&self.options),
            votes: clone_records(&self.votes),
            option_counts: clone_counts(&self.option_counts),
        }
    }
}

/// A copy of an optional string.
pub fn clone_opt_string(s: &Option<String>) -> (res: Option<String>)
    ensures
        res == *s,
{
    match s {
        Some(x) => Some(x.clone()),
        None => None,
    }
}

/// Kinds of proposals, doing different action.
pub enum ProposalKind {
    /// Change the DAO config.
    ChangeConfig { config: Config },
    /// Change the full policy.
    ChangePolicy { policy: VersionedPolicy },
    /// Add member to given role in the policy. This is short cut to updating the whole policy.
    AddMemberToRole { member_id: String, role: String },
    /// Remove member to given role in the policy. This is short cut to updating the whole policy.
    RemoveMemberFromRole { member_id: String, role: String },
    /// Calls `receiver_id` with list of method names in a single promise.
    /// Allows this contract to execute any arbitrary set of actions in other contracts.
    FunctionCall { receiver_id: String, actions: Vec<ActionCall> },
    /// Upgrade this contract with given hash from blob store.
    UpgradeSelf { hash: [u8; 32] },
    /// Upgrade another contract, by calling method with the code from given hash from blob store.
    UpgradeRemote { receiver_id: String, method_name: String, hash: [u8; 32] },
    /// Transfers given amount of `token_id` from this DAO to `receiver_id`.
    /// If `msg` is not None, calls `ft_transfer_call` with given `msg`. Fails if this base token.
    /// For `ft_transfer` and `ft_transfer_call` `memo` is the `description` of the proposal.
    Transfer {
        /// None for $NEAR or a valid account id.
        token_id: Option<String>,
        receiver_id: String,
        amount: u128,
        msg: Option<String>,
    },
    /// Just a signaling vote, with no execution.
    Vote(VoteKind),
}

/// What a proposal kind holds.
pub enum ProposalKindView {
    ChangeConfig { config: Config },
    ChangePolicy { policy: VersionedPolicyView },
    AddMemberToRole { member_id: String, role: String },
    RemoveMemberFromRole { member_id: String, role: String },
    FunctionCall { receiver_id: String, actions: Seq<ActionCallView> },
    UpgradeSelf { hash: [u8; 32] },
    UpgradeRemote { receiver_id: String, method_name: String, hash: [u8; 32] },
    Transfer { token_id: Option<String>, receiver_id: String, amount: u128, msg: Option<String> },
    Vote(VoteKindView),
}

impl View for ProposalKind {
    type V = ProposalKindView;

    open spec fn view(&self) -> ProposalKindView {
        match self {
            ProposalKind::ChangeConfig { config } => ProposalKindView::ChangeConfig { config: *config },
            ProposalKind::ChangePolicy { policy } => ProposalKindView::ChangePolicy { policy: policy@ },
            ProposalKind::AddMemberToRole { member_id, role } => ProposalKindView::AddMemberToRole {
                member_id: *member_id,
                role: *role,
            },
            ProposalKind::RemoveMemberFromRole { member_id, role } => ProposalKindView::RemoveMemberFromRole {
                member_id: *member_id,
                role: *role,
            },
            ProposalKind::FunctionCall { receiver_id, actions } => ProposalKindView::FunctionCall {
                receiver_id: *receiver_id,
                actions: actions@.map_values(|a: ActionCall| a@),
            },
            ProposalKind::UpgradeSelf { hash } => ProposalKindView::UpgradeSelf { hash: *hash },
            ProposalKind::UpgradeRemote { receiver_id, method_name, hash } => ProposalKindView::UpgradeRemote {
                receiver_id: *receiver_id,
                method_name: *method_name,
                hash: *hash,
            },
            ProposalKind::Transfer { token_id, receiver_id, amount, msg } => ProposalKindView::Transfer {
                token_id: *token_id,
                receiver_id: *receiver_id,
                amount: *amount,
                msg: *msg,
            },
            ProposalKind::Vote(v) => ProposalKindView::Vote(v@),
        }
    }
}

impl Clone for ProposalKind {
    fn clone(&self) -> (res: Self)
        ensures
            res@ == self@,
    {
        match self {
            ProposalKind::ChangeConfig { config } => ProposalKind::ChangeConfig { config: config.clone() },
            ProposalKind::ChangePolicy { policy } => ProposalKind::ChangePolicy { policy: policy.clone() },
            ProposalKind::AddMemberToRole { member_id, role } => ProposalKind::AddMemberToRole {
                member_id: member_id.clone(),
                role: role.clone(),
            },
            ProposalKind::RemoveMemberFromRole { member_id, role } => ProposalKind::RemoveMemberFromRole {
                member_id: member_id.clone(),
                role: role.clone(),
            },
            ProposalKind::FunctionCall { receiver_id, actions } => ProposalKind::FunctionCall {
                receiver_id: receiver_id.clone(),
                actions: clone_calls(actions),
            },
            ProposalKind::UpgradeSelf { hash } => ProposalKind::UpgradeSelf { hash: *hash },
            ProposalKind::UpgradeRemote { receiver_id, method_name, hash } => ProposalKind::UpgradeRemote {
                receiver_id: receiver_id.clone(),
                method_name: method_name.clone(),
                hash: *hash,
            },
            ProposalKind::Transfer { token_id, receiver_id, amount, msg } => ProposalKind::Transfer {
                token_id: clone_opt_string(token_id),
                receiver_id: receiver_id.clone(),
                amount: *amount,
                msg: clone_opt_string(msg),
            },
            ProposalKind::Vote(v) => ProposalKind::Vote(v.clone()),
        }
    }
}

impl ProposalKind {
    /// The label of a proposal kind: the name of its variant.
    pub open spec fn label_view(self) -> Seq<char> {
        match self {
            ProposalKind::ChangeConfig { .. } => "ChangeConfig"@,
            ProposalKind::ChangePolicy { .. } => "ChangePolicy"@,
            ProposalKind::AddMemberToRole { .. } => "AddMemberToRole"@,
            ProposalKind::RemoveMemberFromRole { .. } => "RemoveMemberFromRole"@,
            ProposalKind::FunctionCall { .. } => "FunctionCall"@,
            ProposalKind::UpgradeSelf { .. } => "UpgradeSelf"@,
            ProposalKind::UpgradeRemote { .. } => "UpgradeRemote"@,
            ProposalKind::Transfer { .. } => "Transfer"@,
            ProposalKind::Vote(..) => "Vote"@,
        }
    }

    pub fn label(&self) -> (res: &'static str)
        ensures
            res@ == self.label_view(),
    {
        match self {
            ProposalKind::ChangeConfig { .. } => "ChangeConfig",
            ProposalKind::ChangePolicy { .. } => "ChangePolicy",
            ProposalKind::AddMemberToRole { .. } => "AddMemberToRole",
            ProposalKind::RemoveMemberFromRole { .. } => "RemoveMemberFromRole",
            ProposalKind::FunctionCall { .. } => "FunctionCall",
            ProposalKind::UpgradeSelf { .. } => "UpgradeSelf",
            ProposalKind::UpgradeRemote { .. } => "UpgradeRemote",
            ProposalKind::Transfer { .. } => "Transfer",
            ProposalKind::Vote(..) => "Vote",
        }
    }
}

/// The labels of all proposal kinds, in the order of their declaration.
pub open spec fn kind_labels() -> Seq<Seq<char>> {
    seq![
        "ChangeConfig"@,
        "ChangePolicy"@,
        "AddMemberToRole"@,
        "RemoveMemberFromRole"@,
        "FunctionCall"@,
        "UpgradeSelf"@,
        "UpgradeRemote"@,
        "Transfer"@,
        "Vote"@,
    ]
}

/// The labels of all proposal kinds.
pub fn kind_label_list() -> (res: Vec<&'static str>)
    ensures
        res@.len() == kind_labels().len(),
        forall|i: int| 0 <= i < res@.len() ==> #[trigger] res@[i]@ == kind_labels()[i],
{
    let res = vec![
        "ChangeConfig",
        "ChangePolicy",
        "AddMemberToRole",
        "RemoveMemberFromRole",
        "FunctionCall",
        "UpgradeSelf",
        "UpgradeRemote",
        "Transfer",
        "Vote",
    ];
    assert forall|i: int| 0 <= i < res@.len() implies #[trigger] res@[i]@ == kind_labels()[i] by {
        if i == 0 {
        } else if i == 1 {
        } else if i == 2 {
        } else if i == 3 {
        } else if i == 4 {
        } else if i == 5 {
        } else if i == 6 {
        } else if i == 7 {
        } else {
        }
    }
    res
}

/// The label of every proposal kind is one of `kind_labels`.
pub proof fn lemma_label_is_a_kind_label(kind: ProposalKind)
    ensures
        kind_labels().contains(kind.label_view()),
{
    let i: int = match kind {
        ProposalKind::ChangeConfig { .. } => 0,
        ProposalKind::ChangePolicy { .. } => 1,
        ProposalKind::AddMemberToRole { .. } => 2,
        ProposalKind::RemoveMemberFromRole { .. } => 3,
        ProposalKind::FunctionCall { .. } => 4,
        ProposalKind::UpgradeSelf { .. } => 5,
        ProposalKind::UpgradeRemote { .. } => 6,
        ProposalKind::Transfer { .. } => 7,
        ProposalKind::Vote(..) => 8,
    };
    assert(kind_labels()[i] == kind.label_view());
}

/// Votes recorded in the proposal.
#[derive(Clone, Copy, Debug, PartialEq, Eq, Structural)]
pub enum Vote {
    Approve,
    Reject,
    Remove,
}

/// Proposal that are sent to this DAO.
pub struct Proposal {
    /// The account that submitted the proposal.
    pub proposer: String,
    /// Proposal title.
    pub title: String,
    /// Description of this proposal.
    pub description: String,
    /// Kind of proposal with relevant information.
    pub kind: ProposalKind,
    /// Current status of the proposal.
    pub status: ProposalStatus,
    pub submission_time: u64,
    /// Voting period start time.
    pub proposal_start_time: u64,
    /// Voting period end time.
    pub proposal_end_time: u64,
}

pub struct ProposalView {
    pub proposer: String,
    pub title: String,
    pub description: String,
    pub kind: ProposalKindView,
    pub status: ProposalStatus,
    pub submission_time: u64,
    pub proposal_start_time: u64,
    pub proposal_end_time: u64,
}

impl View for Proposal {
    type V = ProposalView;

    open spec fn view(&self) -> ProposalView {
        ProposalView {
            proposer: self.proposer,
            title: self.title,
            description: self.description,
            kind: self.kind@,
            status: self.status,
            submission_time: self.submission_time,
            proposal_start_time: self.proposal_start_time,
            proposal_end_time: self.proposal_end_time,
        }
    }
}

impl Clone for Proposal {
    fn clone(&self) -> (res: Self)
        ensures
            res@ == self@,
    {
        Proposal {
            proposer: self.proposer.clone(),
            title: self.title.clone(),
            description: self.description.clone(),
            kind: self.kind.clone(),
            status: self.status,
            submission_time: self.submission_time,
            proposal_start_time: self.proposal_start_time,
            proposal_end_time: self.proposal_end_time,
        }
    }
}

pub enum VersionedProposal {
    Default(Proposal),
}

impl View for VersionedProposal {
    type V = ProposalView;

    /// The proposal that a versioned proposal holds.
    open spec fn view(&self) -> ProposalView {
        match self {
            VersionedProposal::Default(p) => p@,
        }
    }
}

impl VersionedProposal {
    /// The proposal that a versioned proposal holds.
    pub open spec fn latest(self) -> Proposal {
        match self {
            VersionedProposal::Default(p) => p,
        }
    }

    /// A copy of the proposal that this versioned proposal holds.
    pub fn to_proposal(&self) -> (res: Proposal)
        ensures
            res@ == self@,
    {
        match self {
            VersionedProposal::Default(p) => p.clone(),
        }
    }
}

impl From<VersionedProposal> for Proposal {
    fn from(v: VersionedProposal) -> (res: Self) {
        match v {
            VersionedProposal::Default(p) => p,
        }
    }
}

impl vstd::std_specs::convert::FromSpecImpl<VersionedProposal> for Proposal {
    open spec fn obeys_from_spec() -> bool {
        true
    }

    open spec fn from_spec(v: VersionedProposal) -> Proposal {
        v.latest()
    }
}

/// A proposal as it is submitted.
pub struct ProposalInput {
    /// Proposal title.
    pub title: String,
    /// Description of this proposal.
    pub description: String,
    /// Kind of proposal with relevant information.
    pub kind: ProposalKind,
    /// start time of the voting period.
    pub proposal_start_time: u64,
    /// end time of the voting period.
    pub proposal_end_time: u64,
}

impl Proposal {
    /// The proposal that `input` becomes when `proposer` submits it at `submission_time`.
    pub open spec fn submitted(input: ProposalInput, proposer: String, submission_time: u64) -> ProposalView {
        ProposalView {
            proposer: proposer,
            title: input.title,
            description: input.description,
            kind: input.kind@,
            status: ProposalStatus::InProgress,
            submission_time: submission_time,
            proposal_start_time: input.proposal_start_time,
            proposal_end_time: input.proposal_end_time,
        }
    }

    /// Builds the proposal that `proposer` submits at `submission_time`: it is in progress
    /// and carries the input's title, description, kind and voting period.
    pub fn from_input_at(input: ProposalInput, proposer: String, submission_time: u64) -> (res: Proposal)
        ensures
            res@ == Proposal::submitted(input, proposer, submission_time),
            res.proposer == proposer,
            res.title == input.title,
            res.description == input.description,
            res.kind@ == input.kind@,
            res.status == ProposalStatus::InProgress,
            res.submission_time == submission_time,
            res.proposal_start_time == input.proposal_start_time,
            res.proposal_end_time == input.proposal_end_time,
    {
        Proposal {
            proposer: proposer,
            title: input.title,
            description: input.description,
            kind: input.kind,
            status: ProposalStatus::InProgress,
            submission_time: submission_time,
            proposal_start_time: input.proposal_start_time,
            proposal_end_time: input.proposal_end_time,
        }
    }
}

impl Proposal {
    /// The proposal that the caller of the contract submits at the time of the block.
    pub fn from_input(input: ProposalInput) -> (res: Proposal)
        ensures
            res@ == Proposal::submitted(input, res.proposer, res.submission_time),
    {
        let proposer = account_string(&env_predecessor_account_id());
        Proposal::from_input_at(input, proposer, get_timestamp())
    }
}

} // verus!
