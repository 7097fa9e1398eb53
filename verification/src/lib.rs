use vstd::prelude::*;

pub mod chain;
pub mod citizen;
pub mod contract;
pub mod dao;
pub mod policy;
pub mod proposals;
pub mod types;
pub mod utils;
pub mod views;

verus! {

/// The storage prefixes of the contract.
pub enum StorageKeys {
    Config,
    Policy,
    Token,
    TokenMetadata,
    Proposals,
    Treasury,
    Citizens,
}

impl StorageKeys {
    /// The position of the variant in the declaration.
    pub open spec fn index(self) -> u8 {
        match self {
            StorageKeys::Config => 0,
            StorageKeys::Policy => 1,
            StorageKeys::Token => 2,
            StorageKeys::TokenMetadata => 3,
            StorageKeys::Proposals => 4,
            StorageKeys::Treasury => 5,
            StorageKeys::Citizens => 6,
        }
    }

    /// The storage prefix of a key: its borsh encoding, the index of the variant as one byte.
    pub fn into_storage_key(self) -> (res: Vec<u8>)
        ensures
            res@ == seq![self.index()],
    {
        let index: u8 = match self {
            StorageKeys::Config => 0,
            StorageKeys::Policy => 1,
            StorageKeys::Token => 2,
            StorageKeys::TokenMetadata => 3,
            StorageKeys::Proposals => 4,
            StorageKeys::Treasury => 5,
            StorageKeys::Citizens => 6,
        };
        let res = vec![index];
        assert(res@ =~= seq![self.index()]);
        res
    }
}

/// The token supply, all of which goes to the creator of the DAO.
pub const TOTAL_SUPPLY: u128 = 1_000_000_000_000_000;

/// The icon of the DAO token, as an SVG data URL.
pub const DATA_IMAGE_SVG_NEAR_ICON: &'static str = "data:image/svg+xml,%3Csvg xmlns='http://www.w3.org/2000/svg' viewBox='0 0 100 100'%3E%3Ccircle cx='50' cy='50' r='48' fill='%23000'/%3E%3Ctext x='50' y='62' font-size='32' text-anchor='middle' fill='%23fff'%3EDAO%3C/text%3E%3C/svg%3E";

/// The metadata of a fungible token (NEP-148).
pub struct TokenMetadata {
    pub spec: String,
    pub name: String,
    pub symbol: String,
    pub icon: Option<String>,
    pub reference: Option<String>,
    pub reference_hash: Option<Vec<u8>>,
    pub decimals: u8,
}

impl TokenMetadata {
    /// The metadata of the DAO token: "ft-1.0.0", "CryptDAO", "DAO", the DAO icon, 24
    /// decimals and no reference.
    pub open spec fn is_default(self) -> bool {
        &&& self.spec@ == "ft-1.0.0"@
        &&& self.name@ == "CryptDAO"@
        &&& self.symbol@ == "DAO"@
        &&& self.icon matches Some(icon) && icon@ == DATA_IMAGE_SVG_NEAR_ICON@
        &&& self.reference is None
        &&& self.reference_hash is None
        &&& self.decimals == 24
    }
}

/// The metadata of the DAO token.
pub fn default_metadata() -> (res: TokenMetadata)
    ensures
        res.is_default(),
{
    TokenMetadata {
        spec: "ft-1.0.0".to_owned(),
        name: "CryptDAO".to_owned(),
        symbol: "DAO".to_owned(),
        icon: Some(DATA_IMAGE_SVG_NEAR_ICON.to_owned()),
        reference: None,
        reference_hash: None,
        decimals: 24,
    }
}

} // verus!
