//! The NEAR runtime and the fungible token ledger of near-contract-standards, as the
//! library sees them. Each item here is trusted: its contract is believed, not proved.
use vstd::prelude::*;

use near_contract_standards::fungible_token::FungibleToken;
use near_sdk::AccountId;

verus! {

/// A NEAR account id (`near_sdk::AccountId`), a validated string.
#[verifier::external_type_specification]
#[verifier::external_body]
pub struct ExAccountId(AccountId);

/// The fungible token of `near_contract_standards`: a ledger of balances by account, kept in
/// contract storage under the token's storage prefix, and its total supply.
#[verifier::external_type_specification]
#[verifier::external_body]
pub struct ExFungibleToken(FungibleToken);

/// The text of an account id.
pub uninterp spec fn account_text(account: AccountId) -> Seq<char>;

/// The balances that a token's ledger holds, by the text of the account id.
/// The ledger lives in contract storage under the token's prefix; this name treats it as part
/// of the token value, which holds while no other handle on the same prefix writes to it.
pub uninterp spec fn token_balances(token: FungibleToken) -> Map<Seq<char>, u128>;

/// The storage prefix under which a token keeps its ledger: the prefix it was made with.
pub uninterp spec fn token_prefix(token: FungibleToken) -> Seq<u8>;

/// The total supply that a token records (its field `total_supply`).
pub uninterp spec fn token_total_supply(token: FungibleToken) -> u128;

/// `env::predecessor_account_id`: the account that called the contract. Nothing is stated of
/// it: it comes from the runtime.
#[verifier::external_body]
pub(crate) fn env_predecessor_account_id() -> (res: AccountId) {
    near_sdk::env::predecessor_account_id()
}

/// `env::signer_account_id`: the account that signed the transaction. Nothing is stated of
/// it: it comes from the runtime.
#[verifier::external_body]
pub(crate) fn env_signer_account_id() -> (res: AccountId) {
    near_sdk::env::signer_account_id()
}

/// `env::attached_deposit`: the yoctoNEAR attached to the call. Nothing is stated of it: it
/// comes from the runtime.
#[verifier::external_body]
pub(crate) fn env_attached_deposit() -> (res: u128) {
    near_sdk::env::attached_deposit()
}

/// `env::block_timestamp`: the block time in nanoseconds. Nothing is stated of it: it comes
/// from the runtime.
#[verifier::external_body]
pub(crate) fn env_block_timestamp() -> (res: u64) {
    near_sdk::env::block_timestamp()
}

/// `AccountId::as_str`: the text of an account id, as a `String`.
#[verifier::external_body]
pub(crate) fn account_string(account: &AccountId) -> (res: String)
    ensures
        res@ == account_text(*account),
{
    account.as_str().to_owned()
}

/// `FungibleToken::new`: a token whose ledger is kept under `prefix` (its `accounts` map is
/// made with that prefix), with a total supply of 0.
/// What the ledger holds is not stated: storage may already hold accounts under the prefix.
#[verifier::external_body]
pub(crate) fn ft_new(prefix: Vec<u8>) -> (res: FungibleToken)
    ensures
        token_total_supply(res) == 0,
        token_prefix(res) == prefix@,
{
    FungibleToken::new(prefix)
}

/// `LookupMap::contains_key` on the token's accounts: whether the account is registered.
#[verifier::external_body]
pub(crate) fn ft_is_registered(token: &FungibleToken, account: &AccountId) -> (res: bool)
    ensures
        res == token_balances(*token).contains_key(account_text(*account)),
{
    token.accounts.contains_key(account)
}

/// `FungibleToken::internal_register_account`: registers the account with a balance of 0.
/// It panics when the account is already registered, which `requires` leaves out.
#[verifier::external_body]
pub(crate) fn ft_register(token: &mut FungibleToken, account: &AccountId)
    requires
        !token_balances(*old(token)).contains_key(account_text(*account)),
    ensures
        token_balances(*final(token)) == token_balances(*old(token)).insert(account_text(*account), 0),
        token_total_supply(*final(token)) == token_total_supply(*old(token)),
        token_prefix(*final(token)) == token_prefix(*old(token)),
{
    token.internal_register_account(account)
}

/// `FungibleToken::internal_deposit`: adds `amount` to a registered account and to the total
/// supply. It panics when the account is not registered or either sum overflows, which
/// `requires` leaves out.
#[verifier::external_body]
pub(crate) fn ft_deposit(token: &mut FungibleToken, account: &AccountId, amount: u128)
    requires
        token_balances(*old(token)).contains_key(account_text(*account)),
        token_balances(*old(token))[account_text(*account)] + amount <= u128::MAX,
        token_total_supply(*old(token)) + amount <= u128::MAX,
    ensures
        token_balances(*final(token)) == token_balances(*old(token)).insert(
            account_text(*account),
            (token_balances(*old(token))[account_text(*account)] + amount) as u128,
        ),
        token_total_supply(*final(token)) == token_total_supply(*old(token)) + amount,
        token_prefix(*final(token)) == token_prefix(*old(token)),
{
    token.internal_deposit(account, amount)
}

/// `FungibleTokenCore::ft_balance_of`: the balance of an account, 0 when it is not registered.
#[verifier::external_body]
pub(crate) fn ft_balance_of(token: &FungibleToken, account: &AccountId) -> (res: u128)
    ensures
        res == (if token_balances(*token).contains_key(account_text(*account)) {
            token_balances(*token)[account_text(*account)]
        } else {
            0
        }),
{
    near_contract_standards::fungible_token::core::FungibleTokenCore::ft_balance_of(token, account.clone()).0
}

} // verus!
