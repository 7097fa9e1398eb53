use vstd::prelude::*;

verus! {

/// A citizen of the DAO.
pub struct Citizen {
    /// Name of the citizen.
    pub account_id: String,
    /// show citizen role.
    pub role_name: String,
    /// show citizen join date
    pub joined: u64,
}

impl Clone for Citizen {
    fn clone(&self) -> (res: Self)
        ensures
            res == *self,
    {
        Citizen { account_id: self.account_id.clone(), role_name: self.role_name.clone(), joined: self.joined }
    }
}

impl Citizen {
    /// A citizen with the given account and role, who joined at time `joined` (in seconds).
    pub fn new(account_id: String, role_name: String, joined: u64) -> (res: Self)
        ensures
            res == (Citizen { account_id, role_name, joined }),
    {
        Citizen { account_id, role_name, joined }
    }
}

pub enum VersionedCitizen {
    /// The current version of a citizen.
    Current(Citizen),
}

impl VersionedCitizen {
    /// The citizen that a versioned citizen holds.
    pub open spec fn latest(self) -> Citizen {
        match self {
            VersionedCitizen::Current(c) => c,
        }
    }
}

} // verus!
