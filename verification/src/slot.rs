//! The proposal slot: the one place where a pending hand-over is kept.

use cosmwasm_std::Addr;
use vstd::prelude::*;

verus! {

/// A pending hand-over: who may take the ownership, and until when.
#[derive(Clone, Debug, PartialEq)]
pub struct OwnershipProposal {
    /// The candidate: the address that may claim the ownership.
    pub owner: Addr,
    /// The deadline, in seconds since the epoch. A claim at a later time
    /// fails.
    pub ttl: u64,
}

/// The slot of one owned component. It holds at most one proposal: saving a
/// second one replaces the first.
#[derive(Debug, PartialEq)]
pub struct ProposalSlot {
    record: Option<OwnershipProposal>,
}

impl View for ProposalSlot {
    type V = Option<OwnershipProposal>;

    /// The pending proposal, if there is one.
    closed spec fn view(&self) -> Option<OwnershipProposal> {
        self.record
    }
}

impl ProposalSlot {
    /// The slot with nothing pending.
    pub fn new() -> (slot: ProposalSlot)
        ensures
            slot@ is None,
    {
        ProposalSlot { record: None }
    }

    /// The slot as it was found in storage: with `record` pending, or with
    /// nothing.
    pub fn holding(record: Option<OwnershipProposal>) -> (slot: ProposalSlot)
        ensures
            slot@ == record,
    {
        ProposalSlot { record }
    }

    /// A copy of the pending proposal, or `None` where nothing is pending.
    pub fn load(&self) -> (record: Option<OwnershipProposal>)
        ensures
            record == self@,
    {
        match &self.record {
            Some(p) => Some(OwnershipProposal { owner: p.owner.clone(), ttl: p.ttl }),
            None => None,
        }
    }

    /// Makes `proposal` the pending one, whatever was pending before.
    pub fn save(&mut self, proposal: OwnershipProposal)
        ensures
            final(self)@ == Some(proposal),
    {
        self.record = Some(proposal);
    }

    /// Empties the slot. Nothing pending is no error.
    pub fn remove(&mut self)
        ensures
            final(self)@ is None,
    {
        self.record = None;
    }

    /// Gives up the slot for what it holds, to be written back to storage.
    pub fn into_record(self) -> (record: Option<OwnershipProposal>)
        ensures
            record == self@,
    {
        self.record
    }
}

} // verus!
