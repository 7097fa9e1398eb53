use vstd::prelude::*;

verus! {

/// Name and purpose of the DAO.
pub struct Config {
    /// Name of the DAO.
    pub name: String,
    /// Purpose of this DAO.
    pub purpose: String,
}

impl Clone for Config {
    fn clone(&self) -> (res: Self)
        ensures
            res == *self,
    {
        Config { name: self.name.clone(), purpose: self.purpose.clone() }
    }
}

impl Config {
    /// The configuration used by the test suites: name "Test", purpose "to test".
    pub fn test_config() -> (res: Self)
        ensures
            res.name@ == "Test"@,
            res.purpose@ == "to test"@,
    {
        Config { name: "Test".to_owned(), purpose: "to test".to_owned() }
    }

    pub fn new(name: String, purpose: String) -> (res: Self)
        ensures
            res.name == name,
            res.purpose == purpose,
    {
        Config { name: name, purpose: purpose }
    }
}

/// Actions that a role may be permitted to take on a proposal.
#[derive(Clone, Copy, Debug, PartialEq, Eq, Structural)]
pub enum Action {
    /// Create a new proposal.
    AddProposal,
    /// Remove a proposal.
    RemoveProposal,
    /// Vote on a proposal.
    VoteApprove,
    /// Reject a proposal.
    VoteReject,
    /// Remove a vote.
    VoteRemove,
    /// Finalize a proposal.
    Finalize,
    /// Move to the next stage.
    MoveToHub,
}

impl Action {
    /// The label of an action: the name of its variant.
    pub open spec fn label_view(self) -> Seq<char> {
        match self {
            Action::AddProposal => "AddProposal"@,
            Action::RemoveProposal => "RemoveProposal"@,
            Action::VoteApprove => "VoteApprove"@,
            Action::VoteReject => "VoteReject"@,
            Action::VoteRemove => "VoteRemove"@,
            Action::Finalize => "Finalize"@,
            Action::MoveToHub => "MoveToHub"@,
        }
    }

    pub fn label(&self) -> (res: String)
        ensures
            res@ == self.label_view(),
    {
        match self {
            Action::AddProposal => "AddProposal".to_owned(),
            Action::RemoveProposal => "RemoveProposal".to_owned(),
            Action::VoteApprove => "VoteApprove".to_owned(),
            Action::VoteReject => "VoteReject".to_owned(),
            Action::VoteRemove => "VoteRemove".to_owned(),
            Action::Finalize => "Finalize".to_owned(),
            Action::MoveToHub => "MoveToHub".to_owned(),
        }
    }
}

} // verus!
