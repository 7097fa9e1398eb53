use vstd::prelude::*;

use crate::citizen::{Citizen, VersionedCitizen};
use crate::policy::{
    lemma_default_policy_lets_everyone_propose, lists_string, permission_label, Policy, UserInfo,
    VersionedPolicy, VersionedPolicyView,
};
use crate::proposals::{lemma_label_is_a_kind_label, Proposal, ProposalStatus, ProposalInput, ProposalKind, ProposalKindView, ProposalView, VersionedProposal};
use crate::types::{Action, Config};
use crate::views::{DaoMeta, ProposalOutput, ProposalOutputView};

verus! {

/// Why the DAO refuses a request.
#[derive(Clone, Copy, Debug, PartialEq, Eq, Structural)]
pub enum DaoError {
    /// The attached deposit is below the proposal bond.
    MinBond,
    /// A transfer of $NEAR carries a message.
    InvalidTransfer,
    /// A member is to be added with an empty account or role.
    InvalidAddMember,
    /// The proposal kind is not accepted.
    UnsupportedProposal,
    /// No role of the proposer permits adding a proposal of this kind.
    PermissionDenied,
    /// The proposal counter or the locked amount would overflow.
    Overflow,
    /// The account that creates the DAO already holds a token account.
    AccountAlreadyRegistered,
}

impl DaoError {
    pub open spec fn message_view(self) -> Seq<char> {
        match self {
            DaoError::MinBond => "ERR_MIN_BOND"@,
            DaoError::InvalidTransfer => "ERR_INVALID_TRANSFER"@,
            DaoError::InvalidAddMember => "ERR_INVALID_ADD_MEMBER"@,
            DaoError::UnsupportedProposal => "ERR_UNSUPPORTED_PROPOSAL"@,
            DaoError::PermissionDenied => "ERR_PERMISSION_DENIED"@,
            DaoError::Overflow => "attempt to add with overflow"@,
            DaoError::AccountAlreadyRegistered => "The account is already registered"@,
        }
    }

    /// The message with which the request is refused.
    pub fn message(&self) -> (res: &'static str)
        ensures
            res@ == self.message_view(),
    {
        match self {
            DaoError::MinBond => "ERR_MIN_BOND",
            DaoError::InvalidTransfer => "ERR_INVALID_TRANSFER",
            DaoError::InvalidAddMember => "ERR_INVALID_ADD_MEMBER",
            DaoError::UnsupportedProposal => "ERR_UNSUPPORTED_PROPOSAL",
            DaoError::PermissionDenied => "ERR_PERMISSION_DENIED",
            DaoError::Overflow => "attempt to add with overflow",
            DaoError::AccountAlreadyRegistered => "The account is already registered",
        }
    }
}

/// The account id under which a citizen is filed.
pub open spec fn citizen_key(c: VersionedCitizen) -> Seq<char> {
    c.latest().account_id@
}

/// The citizens filed in `s`, in order, by account id: a later filing replaces an earlier one.
pub open spec fn citizens_map(s: Seq<VersionedCitizen>) -> Map<Seq<char>, Citizen>
    decreases s.len(),
{
    if s.len() == 0 {
        Map::empty()
    } else {
        citizens_map(s.drop_last()).insert(citizen_key(s.last()), s.last().latest())
    }
}

/// Why a proposal of this kind is refused before permissions are checked, if it is: only
/// policy changes, transfers and additions of members are accepted; a transfer of $NEAR
/// (no token) carries no message; an added member has a nonempty account and role.
pub open spec fn kind_error(kind: ProposalKindView) -> Option<DaoError> {
    match kind {
        ProposalKindView::ChangePolicy { .. } => None,
        ProposalKindView::Transfer { token_id, msg, .. } => if token_id is None && msg is Some {
            Some(DaoError::InvalidTransfer)
        } else {
            None
        },
        ProposalKindView::AddMemberToRole { member_id, role } => if member_id@.len() == 0 || role@.len() == 0 {
            Some(DaoError::InvalidAddMember)
        } else {
            None
        },
        _ => Some(DaoError::UnsupportedProposal),
    }
}

/// The state of a DAO.
pub struct DaoView {
    pub config: Config,
    pub policy: VersionedPolicyView,
    /// The proposal with id `i` is `proposals[i]`.
    pub proposals: Seq<ProposalView>,
    pub last_proposal_id: u64,
    pub citizens: Map<Seq<char>, Citizen>,
    pub headcount: u64,
    /// The bonds held for proposals.
    pub locked_amount: u128,
}

impl DaoView {
    /// Every id below `last_proposal_id`, and no other, names a proposal.
    pub open spec fn wf(self) -> bool {
        self.proposals.len() == self.last_proposal_id
    }

    /// The state of a DAO just created with the given name, purpose and council: the default
    /// policy, no proposals, nothing locked, each council member a citizen with the role
    /// "council", and the length of the council list as headcount.
    pub open spec fn is_initial(self, name: String, purpose: String, council: Seq<String>, joined: u64) -> bool {
        &&& self.wf()
        &&& self.config.name == name
        &&& self.config.purpose == purpose
        &&& self.policy.latest().is_default_for(council)
        &&& self.proposals.len() == 0
        &&& self.last_proposal_id == 0
        &&& self.headcount == council.len()
        &&& self.locked_amount == 0
        &&& forall|k: Seq<char>| #[trigger] self.citizens.contains_key(k) <==> lists_string(council, k)
        &&& forall|k: Seq<char>|
            #[trigger] self.citizens.contains_key(k) ==> self.citizens[k].account_id@ == k
                && self.citizens[k].role_name@ == "council"@ && self.citizens[k].joined == joined
    }

    /// The citizen filed under `account`, if any.
    pub open spec fn citizen(self, account: Seq<char>) -> Option<Citizen> {
        if self.citizens.contains_key(account) {
            Some(self.citizens[account])
        } else {
            None
        }
    }

    /// What adding `input` on behalf of `user` with `deposit` attached gives: the new id, or
    /// the first of these refusals that applies: the deposit is below the bond; the kind is
    /// refused; no role of the user permits `<kind>:AddProposal`; a counter would overflow.
    pub open spec fn add_proposal_result(self, input: ProposalInput, user: UserInfo, deposit: u128) -> Result<
        u64,
        DaoError,
    > {
        let policy = self.policy.latest();
        if deposit < policy.proposal_bond {
            Err(DaoError::MinBond)
        } else if kind_error(input.kind@) is Some {
            Err(kind_error(input.kind@)->0)
        } else if !policy.allows(user, permission_label(input.kind.label_view(), Action::AddProposal.label_view())) {
            Err(DaoError::PermissionDenied)
        } else if self.last_proposal_id == u64::MAX || self.locked_amount + deposit > u128::MAX {
            Err(DaoError::Overflow)
        } else {
            Ok(self.last_proposal_id)
        }
    }

    /// The state after adding `input` on behalf of `user` with `deposit` attached at time
    /// `now`: when accepted, the proposal is filed under the next id, submitted by the user,
    /// and the deposit is locked; when refused, nothing changes.
    pub open spec fn after_add_proposal(self, input: ProposalInput, user: UserInfo, deposit: u128, now: u64) -> DaoView {
        if self.add_proposal_result(input, user, deposit) is Ok {
            DaoView {
                proposals: self.proposals.push(Proposal::submitted(input, user.account_id, now)),
                last_proposal_id: (self.last_proposal_id + 1) as u64,
                locked_amount: (self.locked_amount + deposit) as u128,
                ..self
            }
        } else {
            self
        }
    }

    /// The last id of a page of proposals that starts at `from_index` and holds at most `limit`.
    pub open spec fn page_end(self, from_index: u64, limit: u64) -> int {
        if self.last_proposal_id < from_index + limit {
            self.last_proposal_id as int
        } else {
            from_index + limit
        }
    }

    /// The proposals with ids from `from_index` up to `from_index + limit` (excluded), as far as
    /// they exist, in order of id.
    pub open spec fn proposal_page(self, from_index: u64, limit: u64) -> Seq<ProposalOutputView> {
        let end = self.page_end(from_index, limit);
        let n = if from_index < end {
            end - from_index
        } else {
            0
        };
        Seq::new(
            n as nat,
            |i: int| ProposalOutputView { id: (from_index + i) as u64, proposal: self.proposals[from_index + i] },
        )
    }
}

/// The DAO: its configuration, policy, proposals and citizens.
pub struct Dao {
    config: Config,
    policy: VersionedPolicy,
    proposals: Vec<VersionedProposal>,
    citizens: Vec<VersionedCitizen>,
    headcount: u64,
    locked_amount: u128,
}

impl View for Dao {
    type V = DaoView;

    closed spec fn view(&self) -> DaoView {
        DaoView {
            config: self.config,
            policy: self.policy@,
            proposals: self.proposals@.map_values(|p: VersionedProposal| p@),
            last_proposal_id: self.proposals@.len() as u64,
            citizens: citizens_map(self.citizens@),
            headcount: self.headcount,
            locked_amount: self.locked_amount,
        }
    }
}

/// The citizens filed in `s` are exactly those under the account ids that `s` files, and each
/// is one that `s` files.
proof fn lemma_citizens_map(s: Seq<VersionedCitizen>, k: Seq<char>)
    ensures
        citizens_map(s).contains_key(k) <==> exists|i: int| 0 <= i < s.len() && citizen_key(#[trigger] s[i]) == k,
        citizens_map(s).contains_key(k) ==> exists|i: int|
            0 <= i < s.len() && citizen_key(#[trigger] s[i]) == k && s[i].latest() == citizens_map(s)[k],
    decreases s.len(),
{
    if s.len() > 0 {
        lemma_citizens_map(s.drop_last(), k);
        let last = s.len() - 1;
        if citizen_key(s.last()) != k && citizens_map(s).contains_key(k) {
            let i = choose|i: int|
                0 <= i < s.drop_last().len() && citizen_key(#[trigger] s.drop_last()[i]) == k
                    && s.drop_last()[i].latest() == citizens_map(s.drop_last())[k];
            assert(s[i] == s.drop_last()[i]);
        }
        if !citizens_map(s).contains_key(k) {
            assert forall|i: int| 0 <= i < s.len() implies citizen_key(#[trigger] s[i]) != k by {
                if i < last {
                    assert(s[i] == s.drop_last()[i]);
                }
            }
        }
        if citizens_map(s).contains_key(k) && citizen_key(s.last()) == k {
            assert(citizen_key(s[last]) == k);
        }
        if citizen_key(s.last()) != k && (exists|i: int| 0 <= i < s.len() && citizen_key(#[trigger] s[i]) == k) {
            let i = choose|i: int| 0 <= i < s.len() && citizen_key(#[trigger] s[i]) == k;
            assert(i < last);
            assert(s.drop_last()[i] == s[i]);
        }
    }
}

/// The citizen filed last under an account id is the one that the account id names.
proof fn lemma_citizens_map_last(s: Seq<VersionedCitizen>, i: int)
    requires
        0 <= i < s.len(),
        forall|m: int| i < m < s.len() ==> citizen_key(#[trigger] s[m]) != citizen_key(s[i]),
    ensures
        citizens_map(s).contains_key(citizen_key(s[i])),
        citizens_map(s)[citizen_key(s[i])] == s[i].latest(),
    decreases s.len(),
{
    if i < s.len() - 1 {
        assert forall|m: int| i < m < s.drop_last().len() implies citizen_key(#[trigger] s.drop_last()[m])
            != citizen_key(s.drop_last()[i]) by {
            assert(s.drop_last()[m] == s[m]);
        }
        assert(citizen_key(s[s.len() - 1]) != citizen_key(s[i]));
        lemma_citizens_map_last(s.drop_last(), i);
    }
}

/// Why a proposal of this kind is refused before permissions are checked, if it is.
fn check_proposal_kind(kind: &ProposalKind) -> (res: Option<DaoError>)
    ensures
        res == kind_error(kind@),
{
    match kind {
        ProposalKind::ChangePolicy { .. } => None,
        ProposalKind::Transfer { token_id, msg, .. } => {
            if token_id.is_none() && msg.is_some() {
                Some(DaoError::InvalidTransfer)
            } else {
                None
            }
        },
        ProposalKind::AddMemberToRole { member_id, role } => {
            if member_id.as_str().is_empty() || role.as_str().is_empty() {
                Some(DaoError::InvalidAddMember)
            } else {
                None
            }
        },
        _ => Some(DaoError::UnsupportedProposal),
    }
}

impl Dao {
    /// A DAO with the given name and purpose, the default policy for `council`, and each
    /// council member a citizen with the role "council".
    pub fn new(name: String, purpose: String, council: Vec<String>, joined: u64) -> (res: Dao)
        ensures
            res@.is_initial(name, purpose, council@, joined),
    {
        let mut citizens: Vec<VersionedCitizen> = Vec::new();
        let n = council.len();
        let mut i: usize = 0;
        while i < n
            invariant
                i <= n,
                n == council.len(),
                citizens.len() == i,
                forall|m: int|
                    0 <= m < i ==> (#[trigger] citizens@[m]).latest().account_id == council@[m]
                        && citizens@[m].latest().role_name@ == "council"@ && citizens@[m].latest().joined == joined,
            decreases n - i,
        {
            let citizen = Citizen::new(council[i].clone(), "council".to_owned(), joined);
            citizens.push(VersionedCitizen::Current(citizen));
            i += 1;
        }
        let headcount = council.len() as u64;
        let ghost members = council@;
        let res = Dao {
            config: Config::new(name, purpose),
            policy: VersionedPolicy::Current(Policy::default_policy(council)),
            proposals: Vec::new(),
            citizens: citizens,
            headcount: headcount,
            locked_amount: 0,
        };
        proof {
            assert(res@.proposals =~= Seq::<ProposalView>::empty());
            assert forall|k: Seq<char>| #[trigger] res@.citizens.contains_key(k) <==> lists_string(members, k) by {
                lemma_citizens_map(citizens@, k);
                if lists_string(members, k) {
                    let j = choose|j: int| 0 <= j < members.len() && #[trigger] members[j]@ == k;
                    assert(citizen_key(citizens@[j]) == k);
                }
                if res@.citizens.contains_key(k) {
                    let j = choose|j: int| 0 <= j < citizens@.len() && citizen_key(#[trigger] citizens@[j]) == k;
                    assert(members[j]@ == k);
                }
            }
            assert forall|k: Seq<char>| #[trigger] res@.citizens.contains_key(k) implies res@.citizens[k].account_id@
                == k && res@.citizens[k].role_name@ == "council"@ && res@.citizens[k].joined == joined by {
                lemma_citizens_map(citizens@, k);
                let j = choose|j: int|
                    0 <= j < citizens@.len() && citizen_key(#[trigger] citizens@[j]) == k && citizens@[j].latest()
                        == citizens_map(citizens@)[k];
                assert(citizens@[j].latest().role_name@ == "council"@);
            }
        }
        res
    }

    /// Every id below `last_proposal_id`, and no other, names a proposal.
    pub proof fn lemma_wf(&self)
        ensures
            self@.wf(),
    {
        assert(self.proposals@.len() == self.proposals.len());
        assert(self.proposals@.map_values(|p: VersionedProposal| p@).len() == self.proposals@.len());
    }

    /// The name and headcount of the DAO.
    pub fn metadata(&self) -> (res: DaoMeta)
        ensures
            res.name == self@.config.name,
            res.headcount == self@.headcount,
    {
        DaoMeta { name: self.config.name.clone(), headcount: self.headcount }
    }

    /// The citizen filed under `account_id`, if any.
    pub fn get_citizen(&self, account_id: String) -> (res: Option<Citizen>)
        ensures
            res == self@.citizen(account_id@),
    {
        let mut j = self.citizens.len();
        while j > 0
            invariant
                j <= self.citizens.len(),
                forall|m: int| j <= m < self.citizens.len() ==> citizen_key(#[trigger] self.citizens@[m]) != account_id@,
            decreases j,
        {
            j -= 1;
            match &self.citizens[j] {
                VersionedCitizen::Current(citizen) => {
                    if citizen.account_id == account_id {
                        proof {
                            lemma_citizens_map_last(self.citizens@, j as int);
                        }
                        return Some(citizen.clone());
                    }
                },
            }
        }
        proof {
            lemma_citizens_map(self.citizens@, account_id@);
        }
        None
    }

    /// A copy of the current policy.
    pub fn get_policy(&self) -> (res: Policy)
        ensures
            res@ == self@.policy.latest(),
    {
        self.policy.as_policy().clone()
    }

    /// The proposal with the given id. It exists when the id is below `last_proposal_id`.
    pub fn get_proposal(&self, id: u64) -> (res: ProposalOutput)
        requires
            id < self@.last_proposal_id,
        ensures
            res@ == (ProposalOutputView { id: id, proposal: self@.proposals[id as int] }),
    {
        assert(self.proposals@.map_values(|p: VersionedProposal| p@).len() == self.proposals@.len());
        assert(id < self.proposals.len());
        assert(self.proposals@.map_values(|p: VersionedProposal| p@)[id as int] == self.proposals@[id as int]@);
        let proposal = self.proposals[id as usize].to_proposal();
        ProposalOutput { id, proposal }
    }

    /// The proposals with ids from `from_index` up to `from_index + limit` (excluded), as far
    /// as they exist, in order of id.
    pub fn get_proposals(&self, from_index: u64, limit: u64) -> (res: Vec<ProposalOutput>)
        requires
            from_index + limit <= u64::MAX,
        ensures
            res@.map_values(|o: ProposalOutput| o@) == self@.proposal_page(from_index, limit),
    {
        let last = self.proposals.len() as u64;
        let end = if last < from_index + limit {
            last
        } else {
            from_index + limit
        };
        let count: u64 = if from_index < end {
            end - from_index
        } else {
            0
        };
        let ghost page = self@.proposal_page(from_index, limit);
        assert(self.proposals@.map_values(|p: VersionedProposal| p@).len() == self.proposals@.len());
        let mut out: Vec<ProposalOutput> = Vec::new();
        let mut k: u64 = 0;
        while k < count
            invariant
                k <= count,
                page == self@.proposal_page(from_index, limit),
                page.len() == count,
                count > 0 ==> from_index + count <= self@.last_proposal_id,
                self@.wf(),
                self.proposals@.len() == self@.last_proposal_id,
                out@.map_values(|o: ProposalOutput| o@) == page.take(k as int),
            decreases count - k,
        {
            let id = from_index + k;
            let ghost before = out@;
            assert(id < self.proposals.len());
            assert(self.proposals@.map_values(|p: VersionedProposal| p@)[id as int] == self.proposals@[id as int]@);
            let proposal = self.proposals[id as usize].to_proposal();
            out.push(ProposalOutput { id, proposal });
            assert(out@.map_values(|o: ProposalOutput| o@) =~= before.map_values(|o: ProposalOutput| o@).push(
                page[k as int],
            ));
            assert(page.take(k + 1) =~= page.take(k as int).push(page[k as int]));
            k += 1;
        }
        assert(page.take(count as int) =~= page);
        out
    }

    /// Adds a proposal on behalf of `user`, who attaches `attached_deposit` at time `now`.
    pub fn add_proposal(&mut self, proposal: ProposalInput, user: UserInfo, attached_deposit: u128, now: u64) -> (res:
        Result<u64, DaoError>)
        ensures
            res == old(self)@.add_proposal_result(proposal, user, attached_deposit),
            final(self)@ == old(self)@.after_add_proposal(proposal, user, attached_deposit, now),
            final(self)@.wf(),
    {
        proof {
            self.lemma_wf();
        }
        let policy = self.policy.as_policy();
        if attached_deposit < policy.proposal_bond {
            return Err(DaoError::MinBond);
        }
        match check_proposal_kind(&proposal.kind) {
            Some(e) => {
                return Err(e);
            },
            None => {},
        }
        let candidate = UserInfo { account_id: user.account_id.clone(), amount: user.amount };
        let (_, allowed) = policy.can_execute_action(candidate, &proposal.kind, &Action::AddProposal);
        if !allowed {
            return Err(DaoError::PermissionDenied);
        }
        let id = self.proposals.len() as u64;
        if id == u64::MAX || attached_deposit > u128::MAX - self.locked_amount {
            return Err(DaoError::Overflow);
        }
        let ghost old_proposals = self.proposals@;
        let submitted = Proposal::from_input_at(proposal, user.account_id, now);
        self.proposals.push(VersionedProposal::Default(submitted));
        self.locked_amount = self.locked_amount + attached_deposit;
        assert(self.proposals@.map_values(|p: VersionedProposal| p@) =~= old_proposals.map_values(
            |p: VersionedProposal| p@,
        ).push(submitted@));
        proof {
            self.lemma_wf();
        }
        Ok(id)
    }
}

/// What a read gives back of a write: after a proposal is accepted, the id that was returned
/// names the submitted proposal, and every earlier id still names the proposal it named.
pub proof fn lemma_accepted_proposal_is_filed(
    d: DaoView,
    input: ProposalInput,
    user: UserInfo,
    deposit: u128,
    now: u64,
)
    requires
        d.wf(),
        d.add_proposal_result(input, user, deposit) is Ok,
    ensures
        ({
            let id = d.add_proposal_result(input, user, deposit)->Ok_0;
            let after = d.after_add_proposal(input, user, deposit, now);
            &&& after.wf()
            &&& id == d.last_proposal_id
            &&& id < after.last_proposal_id
            &&& after.proposals[id as int] == Proposal::submitted(input, user.account_id, now)
            &&& forall|j: int| 0 <= j < id ==> after.proposals[j] == d.proposals[j]
            &&& after.locked_amount == d.locked_amount + deposit
        }),
{
}

/// Proposal ids are handed out in order: a second accepted proposal gets the id after the
/// first one's.
pub proof fn lemma_ids_are_consecutive(
    d: DaoView,
    first: ProposalInput,
    second: ProposalInput,
    user1: UserInfo,
    user2: UserInfo,
    deposit1: u128,
    deposit2: u128,
    now1: u64,
    now2: u64,
)
    requires
        d.wf(),
        d.add_proposal_result(first, user1, deposit1) is Ok,
        d.after_add_proposal(first, user1, deposit1, now1).add_proposal_result(second, user2, deposit2) is Ok,
    ensures
        d.after_add_proposal(first, user1, deposit1, now1).add_proposal_result(second, user2, deposit2)->Ok_0
            == d.add_proposal_result(first, user1, deposit1)->Ok_0 + 1,
{
}

/// A refused proposal changes nothing.
pub proof fn lemma_refused_proposal_changes_nothing(
    d: DaoView,
    input: ProposalInput,
    user: UserInfo,
    deposit: u128,
    now: u64,
)
    requires
        d.add_proposal_result(input, user, deposit) is Err,
    ensures
        d.after_add_proposal(input, user, deposit, now) == d,
{
}

/// Under the default policy, every user's proposal of an accepted kind with at least the bond
/// attached is accepted, unless a counter would overflow.
pub proof fn lemma_default_policy_accepts_proposals(
    d: DaoView,
    council: Seq<String>,
    input: ProposalInput,
    user: UserInfo,
    deposit: u128,
)
    requires
        d.policy.latest().is_default_for(council),
        deposit >= d.policy.latest().proposal_bond,
        kind_error(input.kind@) is None,
        d.last_proposal_id < u64::MAX,
        d.locked_amount + deposit <= u128::MAX,
    ensures
        d.add_proposal_result(input, user, deposit) == Ok::<u64, DaoError>(d.last_proposal_id),
{
    lemma_label_is_a_kind_label(input.kind);
    lemma_default_policy_lets_everyone_propose(d.policy.latest(), council, user, input.kind.label_view());
}

/// A transfer proposal with at least the bond attached is refused as an invalid transfer exactly
/// when it names no token (a transfer of $NEAR) and carries a message; in particular a transfer
/// of a fungible token is never refused as an invalid transfer.
pub proof fn lemma_invalid_transfer_exactly_near_with_msg(
    d: DaoView,
    input: ProposalInput,
    user: UserInfo,
    deposit: u128,
)
    requires
        input.kind is Transfer,
        deposit >= d.policy.latest().proposal_bond,
    ensures
        (d.add_proposal_result(input, user, deposit) == Err::<u64, DaoError>(DaoError::InvalidTransfer)) <==> (
        input.kind->Transfer_token_id is None && input.kind->Transfer_msg is Some),
        input.kind->Transfer_token_id is Some ==> d.add_proposal_result(input, user, deposit) != Err::<
            u64,
            DaoError,
        >(DaoError::InvalidTransfer),
{
}

/// The bond decides first: a proposal with less than the bond attached is refused with
/// `MinBond` and changes nothing; an accepted proposal had at least the bond attached, and the
/// locked amount grows by exactly the deposit.
pub proof fn lemma_bond_decides(d: DaoView, input: ProposalInput, user: UserInfo, deposit: u128, now: u64)
    ensures
        deposit < d.policy.latest().proposal_bond ==> d.add_proposal_result(input, user, deposit) == Err::<
            u64,
            DaoError,
        >(DaoError::MinBond) && d.after_add_proposal(input, user, deposit, now) == d,
        d.add_proposal_result(input, user, deposit) is Ok ==> deposit >= d.policy.latest().proposal_bond
            && d.after_add_proposal(input, user, deposit, now).locked_amount == d.locked_amount + deposit
            && d.after_add_proposal(input, user, deposit, now).proposals.len() == d.proposals.len() + 1,
{
}

/// After a proposal is accepted, the proposal read back under the returned id is the one
/// submitted: the caller as proposer, the title, description and kind as given (every field of
/// the kind), in progress, submitted at the given time, with the given voting period.
pub proof fn lemma_filed_proposal_is_the_input(
    d: DaoView,
    input: ProposalInput,
    user: UserInfo,
    deposit: u128,
    now: u64,
)
    requires
        d.wf(),
        d.add_proposal_result(input, user, deposit) is Ok,
    ensures
        ({
            let id = d.add_proposal_result(input, user, deposit)->Ok_0;
            let filed = d.after_add_proposal(input, user, deposit, now).proposals[id as int];
            &&& id == d.proposals.len()
            &&& filed.proposer == user.account_id
            &&& filed.title == input.title
            &&& filed.description == input.description
            &&& filed.kind == input.kind@
            &&& filed.status == ProposalStatus::InProgress
            &&& filed.submission_time == now
            &&& filed.proposal_start_time == input.proposal_start_time
            &&& filed.proposal_end_time == input.proposal_end_time
        }),
{
}

/// A page of proposals from `from_index` with at most `limit` entries holds the proposals with
/// ids from `from_index` up to the smaller of the number of proposals and `from_index + limit`,
/// in order of id: `max(0, min(n, from_index + limit) - from_index)` entries, the `i`-th being
/// proposal `from_index + i`. In particular a page that the proposals fill holds `limit` entries.
pub proof fn lemma_proposal_page_shape(d: DaoView, from_index: u64, limit: u64)
    requires
        d.wf(),
        from_index + limit <= u64::MAX,
    ensures
        ({
            let n = d.proposals.len() as int;
            let stop = if n < from_index + limit { n } else { from_index + limit };
            let page = d.proposal_page(from_index, limit);
            &&& page.len() == (if stop > from_index { stop - from_index } else { 0 })
            &&& n >= from_index + limit ==> page.len() == limit
            &&& forall|i: int|
                0 <= i < page.len() ==> #[trigger] page[i].id == from_index + i && page[i].proposal
                    == d.proposals[from_index + i]
        }),
{
}

} // verus!
