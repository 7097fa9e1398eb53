use vstd::prelude::*;

use near_contract_standards::fungible_token::FungibleToken;
use near_sdk::AccountId;

use crate::chain::{
    account_string, account_text, env_attached_deposit, env_predecessor_account_id, env_signer_account_id,
    ft_balance_of, ft_deposit, ft_is_registered, ft_new, ft_register, token_balances, token_prefix, token_total_supply,
};
use crate::citizen::Citizen;
use crate::dao::{Dao, DaoError, DaoView};
use crate::policy::{Policy, UserInfo};
use crate::proposals::ProposalInput;
use crate::utils::get_timestamp;
use crate::views::{DaoMeta, ProposalOutput, ProposalOutputView};
use crate::{default_metadata, StorageKeys, TokenMetadata, TOTAL_SUPPLY};

verus! {

/// The balance that a ledger holds for an account, 0 when the account has none.
pub open spec fn balance_in(ledger: Map<Seq<char>, u128>, account: Seq<char>) -> u128 {
    if ledger.contains_key(account) {
        ledger[account]
    } else {
        0
    }
}

/// `res` is what creating the DAO with the given name, purpose and council gives, when `owner`
/// signs at time `joined` (in seconds) and the token starts as `fresh`, with a total supply of 0:
/// `fresh` keeps its ledger under the storage key `Token`; the result is a refusal exactly when
/// `owner` already holds an account in `fresh`, else the initial DAO, the default metadata, and
/// `fresh` with `owner` holding the whole supply.
pub open spec fn created(
    res: Result<Contract, DaoError>,
    name: String,
    purpose: String,
    council: Seq<String>,
    owner: AccountId,
    joined: u64,
    fresh: FungibleToken,
) -> bool {
    &&& token_total_supply(fresh) == 0
    &&& token_prefix(fresh) == seq![StorageKeys::Token.index()]
    &&& (res is Err <==> token_balances(fresh).contains_key(account_text(owner)))
    &&& res matches Ok(c) ==> {
        &&& c.dao_view().is_initial(name, purpose, council, joined)
        &&& c.metadata_view().is_default()
        &&& c.ledger() == token_balances(fresh).insert(account_text(owner), TOTAL_SUPPLY)
        &&& c.total_supply() == TOTAL_SUPPLY
        &&& c.token_prefix() == token_prefix(fresh)
    }
}

/// The DAO contract: the DAO itself, its token and the token's metadata.
pub struct Contract {
    dao: Dao,
    token: FungibleToken,
    token_metadata: TokenMetadata,
}

impl Contract {
    /// The state of the DAO.
    pub closed spec fn dao_view(&self) -> DaoView {
        self.dao@
    }

    /// The token balances, by account id.
    pub closed spec fn ledger(&self) -> Map<Seq<char>, u128> {
        token_balances(self.token)
    }

    /// The metadata of the token.
    pub closed spec fn metadata_view(&self) -> TokenMetadata {
        self.token_metadata
    }

    /// Every id below `last_proposal_id`, and no other, names a proposal.
    pub proof fn lemma_wf(&self)
        ensures
            self.dao_view().wf(),
    {
        self.dao.lemma_wf();
    }

    /// The storage prefix under which the token keeps its ledger.
    pub closed spec fn token_prefix(&self) -> Seq<u8> {
        token_prefix(self.token)
    }

    /// The total supply that the token records.
    pub closed spec fn total_supply(&self) -> u128 {
        token_total_supply(self.token)
    }

    /// Creates the DAO with the given name, purpose and council at time `joined` (in seconds),
    /// with the token `token`, whose whole supply goes to `owner`. It is refused, and nothing is
    /// done, exactly when `owner` already holds an account in the token.
    pub fn new_with_token(
        name: String,
        purpose: String,
        council: Vec<String>,
        owner: &AccountId,
        joined: u64,
        token: FungibleToken,
    ) -> (res: Result<Contract, DaoError>)
        requires
            token_total_supply(token) + TOTAL_SUPPLY <= u128::MAX,
        ensures
            res is Err <==> token_balances(token).contains_key(account_text(*owner)),
            res matches Err(e) ==> e == DaoError::AccountAlreadyRegistered,
            res matches Ok(c) ==> {
                &&& c.dao_view().is_initial(name, purpose, council@, joined)
                &&& c.metadata_view().is_default()
                &&& c.ledger() == token_balances(token).insert(account_text(*owner), TOTAL_SUPPLY)
                &&& c.total_supply() == token_total_supply(token) + TOTAL_SUPPLY
                &&& c.token_prefix() == token_prefix(token)
            },
    {
        if ft_is_registered(&token, owner) {
            return Err(DaoError::AccountAlreadyRegistered);
        }
        let mut token = token;
        let ghost fresh = token;
        ft_register(&mut token, owner);
        ft_deposit(&mut token, owner, TOTAL_SUPPLY);
        assert(token_balances(token) =~= token_balances(fresh).insert(account_text(*owner), TOTAL_SUPPLY));
        let dao = Dao::new(name, purpose, council, joined);
        Ok(Contract { dao, token, token_metadata: default_metadata() })
    }

    /// Creates the DAO with the given name, purpose and council, and its token, whose whole
    /// supply goes to the account that signed the transaction; the council joins at the time of
    /// the block. It is refused exactly when the signer already holds an account in the token
    /// (the token's storage is not fresh).
    pub fn new(name: String, purpose: String, council: Vec<String>) -> (res: Result<Contract, DaoError>)
        ensures
            exists|owner: AccountId, joined: u64, fresh: FungibleToken|
                #[trigger] created(res, name, purpose, council@, owner, joined, fresh),
            res matches Err(e) ==> e == DaoError::AccountAlreadyRegistered,
    {
        let owner_id = env_signer_account_id();
        let joined = get_timestamp() / 1_000_000_000;
        let token = ft_new(StorageKeys::Token.into_storage_key());
        let ghost fresh = token;
        let res = Contract::new_with_token(name, purpose, council, &owner_id, joined, token);
        assert(created(res, name, purpose, council@, owner_id, joined, fresh));
        res
    }

    /// The token balance of an account: its voting weight.
    pub fn get_user_weight(&self, account_id: &AccountId) -> (res: u128)
        ensures
            res == balance_in(self.ledger(), account_text(*account_id)),
    {
        ft_balance_of(&self.token, account_id)
    }

    /// The caller of the contract, with its token balance.
    pub fn internal_user_info(&self) -> (res: UserInfo)
        ensures
            res.amount == balance_in(self.ledger(), res.account_id@),
    {
        let account_id = env_predecessor_account_id();
        UserInfo { account_id: account_string(&account_id), amount: self.get_user_weight(&account_id) }
    }

    /// Adds a proposal on behalf of the caller, with the deposit attached to the call, at the
    /// time of the block. The caller's weight is its token balance.
    pub fn add_proposal(&mut self, proposal: ProposalInput) -> (res: Result<u64, DaoError>)
        ensures
            exists|user: UserInfo, deposit: u128, now: u64|
                {
                    &&& user.amount == balance_in(old(self).ledger(), user.account_id@)
                    &&& res == old(self).dao_view().add_proposal_result(proposal, user, deposit)
                    &&& final(self).dao_view() == old(self).dao_view().after_add_proposal(
                        proposal,
                        user,
                        deposit,
                        now,
                    )
                },
            final(self).dao_view().wf(),
            final(self).ledger() == old(self).ledger(),
            final(self).total_supply() == old(self).total_supply(),
            final(self).token_prefix() == old(self).token_prefix(),
            final(self).metadata_view() == old(self).metadata_view(),
    {
        let deposit = env_attached_deposit();
        let user = self.internal_user_info();
        let now = get_timestamp();
        let ghost u = user;
        let res = self.dao.add_proposal(proposal, user, deposit, now);
        assert(u.amount == balance_in(old(self).ledger(), u.account_id@));
        res
    }

    /// The name and headcount of the DAO.
    pub fn metadata(&self) -> (res: DaoMeta)
        ensures
            res.name == self.dao_view().config.name,
            res.headcount == self.dao_view().headcount,
    {
        self.dao.metadata()
    }

    /// The citizen filed under `account_id`, if any.
    pub fn get_citizen(&self, account_id: AccountId) -> (res: Option<Citizen>)
        ensures
            res == self.dao_view().citizen(account_text(account_id)),
    {
        self.dao.get_citizen(account_string(&account_id))
    }

    /// A copy of the current policy.
    pub fn get_policy(&self) -> (res: Policy)
        ensures
            res@ == self.dao_view().policy.latest(),
    {
        self.dao.get_policy()
    }

    /// The proposal with the given id. It exists when the id is below `last_proposal_id`.
    pub fn get_proposal(&self, id: u64) -> (res: ProposalOutput)
        requires
            id < self.dao_view().last_proposal_id,
        ensures
            res@ == (ProposalOutputView { id: id, proposal: self.dao_view().proposals[id as int] }),
    {
        self.dao.get_proposal(id)
    }

    /// The proposals with ids from `from_index` up to `from_index + limit` (excluded), as far
    /// as they exist, in order of id.
    pub fn get_proposals(&self, from_index: u64, limit: u64) -> (res: Vec<ProposalOutput>)
        requires
            from_index + limit <= u64::MAX,
        ensures
            res@.map_values(|o: ProposalOutput| o@) == self.dao_view().proposal_page(from_index, limit),
    {
        self.dao.get_proposals(from_index, limit)
    }
}

/// Right after the DAO is created, the creator's weight is the whole supply, and an account that
/// the fresh token did not hold and whose id differs from the creator's weighs nothing.
pub proof fn lemma_created_weights(
    res: Result<Contract, DaoError>,
    name: String,
    purpose: String,
    council: Seq<String>,
    owner: AccountId,
    joined: u64,
    fresh: FungibleToken,
    account: Seq<char>,
)
    requires
        created(res, name, purpose, council, owner, joined, fresh),
        res is Ok,
    ensures
        balance_in(res->Ok_0.ledger(), account_text(owner)) == TOTAL_SUPPLY,
        !token_balances(fresh).contains_key(account) && account != account_text(owner) ==> balance_in(
            res->Ok_0.ledger(),
            account,
        ) == 0,
{
}

} // verus!
