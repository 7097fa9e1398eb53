use vstd::prelude::*;

use crate::proposals::{Proposal, ProposalView};

verus! {

/// The name and headcount of the DAO.
pub struct DaoMeta {
    pub name: String,
    pub headcount: u64,
}

/// A proposal with its id.
pub struct ProposalOutput {
    pub id: u64,
    pub proposal: Proposal,
}

pub struct ProposalOutputView {
    pub id: u64,
    pub proposal: ProposalView,
}

impl View for ProposalOutput {
    type V = ProposalOutputView;

    open spec fn view(&self) -> ProposalOutputView {
        ProposalOutputView { id: self.id, proposal: self.proposal@ }
    }
}

} // verus!
