//! What an operation answers: an acknowledgement, or the reason why it
//! refused.

use crate::host::addr_text;
use crate::host::addr_to_string;
use crate::host::generic_err;
use crate::host::generic_error;
use crate::host::response_of;
use crate::host::response_with;
use cosmwasm_std::Addr;
use cosmwasm_std::Response;
use cosmwasm_std::StdError;
use vstd::prelude::*;

verus! {

/// The three operations.
#[derive(Clone, Copy, Debug, PartialEq, Eq, Structural)]
pub enum Action {
    ProposeNewOwner,
    DropOwnershipProposal,
    ClaimOwnership,
}

impl Action {
    /// The tag under which the operation is reported.
    pub open spec fn tag(self) -> Seq<char> {
        match self {
            Action::ProposeNewOwner => "propose_new_owner"@,
            Action::DropOwnershipProposal => "drop_ownership_proposal"@,
            Action::ClaimOwnership => "claim_ownership"@,
        }
    }

    /// The tag as text.
    pub fn as_str(&self) -> (text: &'static str)
        ensures
            text@ == self.tag(),
    {
        match self {
            Action::ProposeNewOwner => "propose_new_owner",
            Action::DropOwnershipProposal => "drop_ownership_proposal",
            Action::ClaimOwnership => "claim_ownership",
        }
    }
}

/// The acknowledgement of an operation that went through.
#[derive(Clone, Debug, PartialEq)]
pub struct Ack {
    /// The operation.
    pub action: Action,
    /// The candidate that was proposed, or the owner that has claimed; `None`
    /// for a withdrawal.
    pub new_owner: Option<Addr>,
}

impl Ack {
    /// The attributes that report the acknowledgement: the action's tag, and
    /// after it the new owner's address where there is one.
    pub open spec fn attributes(self) -> Seq<(Seq<char>, Seq<char>)> {
        match self.new_owner {
            Some(a) => seq![("action"@, self.action.tag()), ("new_owner"@, addr_text(a))],
            None => seq![("action"@, self.action.tag())],
        }
    }

    /// The response that carries the acknowledgement's attributes and nothing
    /// else.
    pub fn into_response(self) -> (response: Response)
        ensures
            response == response_with(self.attributes()),
    {
        let mut attributes: Vec<(String, String)> = Vec::new();
        proof {
            reveal_strlit("action");
            reveal_strlit("new_owner");
        }
        attributes.push(("action".to_string(), self.action.as_str().to_string()));
        match &self.new_owner {
            Some(a) => {
                attributes.push(("new_owner".to_string(), addr_to_string(a)));
            },
            None => {},
        }
        assert(attributes.deep_view() =~= self.attributes());
        response_of(attributes)
    }
}

/// Why an operation refused.
#[derive(Debug, PartialEq)]
pub enum OwnershipError {
    /// The sender is not the one who may do this: the owner for a proposal or
    /// a withdrawal, the candidate for a claim.
    Unauthorized,
    /// The candidate is the owner.
    InvalidProposal,
    /// The validator refused the candidate's address, with this error.
    ValidationError(StdError),
    /// Nothing is pending.
    NotFound,
    /// The deadline has passed.
    Expired,
    /// The owning component could not take the new owner, with this error.
    FinalizeError(StdError),
}

impl OwnershipError {
    /// The refusal as an error of `cosmwasm_std`: a collaborator's error as
    /// it came, any other as a generic error with its message.
    pub open spec fn as_std(self) -> StdError {
        match self {
            OwnershipError::Unauthorized => generic_error("Unauthorized"@),
            OwnershipError::InvalidProposal => generic_error("New owner cannot be same"@),
            OwnershipError::ValidationError(e) => e,
            OwnershipError::NotFound => generic_error("Ownership proposal not found"@),
            OwnershipError::Expired => generic_error("Ownership proposal expired"@),
            OwnershipError::FinalizeError(e) => e,
        }
    }

    /// Turns the refusal into an error of `cosmwasm_std`.
    pub fn into_std(self) -> (e: StdError)
        ensures
            e == self.as_std(),
    {
        match self {
            OwnershipError::Unauthorized => generic_err("Unauthorized"),
            OwnershipError::InvalidProposal => generic_err("New owner cannot be same"),
            OwnershipError::ValidationError(e) => e,
            OwnershipError::NotFound => generic_err("Ownership proposal not found"),
            OwnershipError::Expired => generic_err("Ownership proposal expired"),
            OwnershipError::FinalizeError(e) => e,
        }
    }
}

} // verus!
