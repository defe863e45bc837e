//! The three operations on the proposal slot: the owner proposes a
//! candidate, the owner withdraws the proposal, the candidate claims the
//! ownership.
//!
//! Each operation checks who is asking before it touches the slot. Two of
//! them consult a collaborator: a proposal has the candidate's address
//! validated, a claim has the owning component take the new owner. What the
//! operation does once the collaborator has answered is a function of its
//! own, so that it is stated for every answer.

use crate::reply::Ack;
use crate::reply::Action;
use crate::reply::OwnershipError;
pub use crate::slot::OwnershipProposal;
use crate::slot::ProposalSlot;
use cosmwasm_std::Addr;
use cosmwasm_std::StdError;
use vstd::prelude::*;

verus! {

/// Turns the text of an address into a validated address, or refuses it.
pub trait IdentityValidator {
    /// Whether `answer` is one that the validator may give for `raw`. An
    /// implementation that says nothing of itself leaves every answer open.
    open spec fn resolves(&self, raw: Seq<char>, answer: Result<Addr, StdError>) -> bool {
        true
    }

    fn validate(&self, raw: &str) -> (answer: Result<Addr, StdError>)
        ensures
            self.resolves(raw@, answer),
    ;
}

/// The owning component's side of a claim: it takes the new owner into its
/// own state, or fails.
pub trait FinalizeCallback: Sized {
    /// Whether one call for `new_owner` may take the component from `before`
    /// to `after` and return `reply`. An implementation that says nothing of
    /// itself leaves every outcome open.
    open spec fn finalized(
        before: Self,
        new_owner: Addr,
        after: Self,
        reply: Result<(), StdError>,
    ) -> bool {
        true
    }

    fn finalize(&mut self, new_owner: Addr) -> (reply: Result<(), StdError>)
        ensures
            Self::finalized(*old(self), new_owner, *final(self), reply),
    ;
}

/// What a proposal comes to once the validator has answered: the record to
/// write, or the refusal. The sender is checked first, then the validator's
/// answer, then that the candidate is not the owner; the deadline is `now`
/// plus `expires_in`, which may be zero.
pub open spec fn propose_verdict(
    sender: Addr,
    owner: Addr,
    answer: Result<Addr, StdError>,
    now: u64,
    expires_in: u64,
) -> Result<OwnershipProposal, OwnershipError> {
    if sender != owner {
        Err(OwnershipError::Unauthorized)
    } else {
        match answer {
            Err(e) => Err(OwnershipError::ValidationError(e)),
            Ok(candidate) => if candidate == owner {
                Err(OwnershipError::InvalidProposal)
            } else {
                Ok(OwnershipProposal { owner: candidate, ttl: (now + expires_in) as u64 })
            },
        }
    }
}

/// What the operation answers for a verdict.
pub open spec fn propose_result(verdict: Result<OwnershipProposal, OwnershipError>) -> Result<
    Ack,
    OwnershipError,
> {
    match verdict {
        Ok(p) => Ok(Ack { action: Action::ProposeNewOwner, new_owner: Some(p.owner) }),
        Err(e) => Err(e),
    }
}

/// The slot after a proposal: the new record in place of whatever was
/// there, or the slot as it was where the proposal was refused.
pub open spec fn propose_slot(
    before: Option<OwnershipProposal>,
    verdict: Result<OwnershipProposal, OwnershipError>,
) -> Option<OwnershipProposal> {
    match verdict {
        Ok(p) => Some(p),
        Err(_) => before,
    }
}

/// Proposes the candidate that the validator has answered with. `answer` is
/// what the validator returned for the candidate's address.
///
/// The deadline has to fit: where the proposal would be written, `now` plus
/// `expires_in` must not exceed `u64::MAX`.
pub fn propose_resolved(
    sender: Addr,
    now: u64,
    answer: Result<Addr, StdError>,
    expires_in: u64,
    owner: Addr,
    proposal: &mut ProposalSlot,
) -> (result: Result<Ack, OwnershipError>)
    requires
        propose_verdict(sender, owner, answer, now, expires_in) is Ok ==> now + expires_in
            <= u64::MAX,
    ensures
        result == propose_result(propose_verdict(sender, owner, answer, now, expires_in)),
        final(proposal)@ == propose_slot(
            old(proposal)@,
            propose_verdict(sender, owner, answer, now, expires_in),
        ),
{
    if sender != owner {
        return Err(OwnershipError::Unauthorized);
    }
    let candidate = match answer {
        Ok(candidate) => candidate,
        Err(e) => {
            return Err(OwnershipError::ValidationError(e));
        },
    };
    if candidate == owner {
        return Err(OwnershipError::InvalidProposal);
    }
    proposal.save(OwnershipProposal { owner: candidate.clone(), ttl: now + expires_in });
    Ok(Ack { action: Action::ProposeNewOwner, new_owner: Some(candidate) })
}

/// Whether the validator may answer `raw` with a candidate other than the
/// owner, so that a proposal of `raw` may come to be written.
pub open spec fn may_accept<V: IdentityValidator>(validator: &V, raw: Seq<char>, owner: Addr) -> bool {
    exists|candidate: Addr| candidate != owner && #[trigger] validator.resolves(raw, Ok(candidate))
}

/// Proposes `new_owner` as the next owner, to be claimed within `expires_in`
/// seconds from `now`.
///
/// A sender who is not the owner is refused before the validator is asked.
/// Otherwise the validator is asked once, for `new_owner` as it was given,
/// and the operation goes on as `propose_resolved` does with its answer: the
/// result tells which answer that was.
///
/// The deadline has to fit: where the sender is the owner and the validator
/// may accept the address as a candidate, `now` plus `expires_in` must not
/// exceed `u64::MAX`.
pub fn propose_new_owner<V: IdentityValidator>(
    validator: &V,
    sender: Addr,
    now: u64,
    new_owner: String,
    expires_in: u64,
    owner: Addr,
    proposal: &mut ProposalSlot,
) -> (result: Result<Ack, OwnershipError>)
    requires
        sender == owner && may_accept(validator, new_owner@, owner) ==> now + expires_in
            <= u64::MAX,
    ensures
        sender != owner ==> result == Err::<Ack, OwnershipError>(OwnershipError::Unauthorized)
            && final(proposal)@ == old(proposal)@,
        sender == owner ==> validator.resolves(new_owner@, validator_answer(result, owner)),
        result == propose_result(
            propose_verdict(sender, owner, validator_answer(result, owner), now, expires_in),
        ),
        final(proposal)@ == propose_slot(
            old(proposal)@,
            propose_verdict(sender, owner, validator_answer(result, owner), now, expires_in),
        ),
{
    if sender != owner {
        return Err(OwnershipError::Unauthorized);
    }
    let answer = validator.validate(new_owner.as_str());
    propose_resolved(sender, now, answer, expires_in, owner, proposal)
}

/// The validator's answer that a proposal's result shows: the candidate of
/// an acknowledgement, the error of a refused address, the owner where the
/// candidate was the owner.
pub open spec fn validator_answer(result: Result<Ack, OwnershipError>, owner: Addr) -> Result<
    Addr,
    StdError,
> {
    match result {
        Ok(ack) => Ok(ack.new_owner->0),
        Err(OwnershipError::ValidationError(e)) => Err(e),
        Err(_) => Ok(owner),
    }
}

/// What a withdrawal answers: the owner is acknowledged, anyone else
/// refused.
pub open spec fn drop_result(sender: Addr, owner: Addr) -> Result<Ack, OwnershipError> {
    if sender != owner {
        Err(OwnershipError::Unauthorized)
    } else {
        Ok(Ack { action: Action::DropOwnershipProposal, new_owner: None })
    }
}

/// The slot after a withdrawal: empty for the owner, as it was for anyone
/// else.
pub open spec fn drop_slot(before: Option<OwnershipProposal>, sender: Addr, owner: Addr) -> Option<
    OwnershipProposal,
> {
    if sender != owner {
        before
    } else {
        None
    }
}

/// Withdraws the pending proposal. That nothing is pending is no error.
pub fn drop_ownership_proposal(sender: Addr, owner: Addr, proposal: &mut ProposalSlot) -> (result:
    Result<Ack, OwnershipError>)
    ensures
        result == drop_result(sender, owner),
        final(proposal)@ == drop_slot(old(proposal)@, sender, owner),
{
    if sender != owner {
        return Err(OwnershipError::Unauthorized);
    }
    proposal.remove();
    Ok(Ack { action: Action::DropOwnershipProposal, new_owner: None })
}

/// Whether a claim is admitted: the new owner, or the refusal. There must be
/// a record, the sender must be its candidate, and `now` must not be past
/// its deadline, checked in this order. A claim at the deadline itself is in
/// time.
pub open spec fn claim_verdict(record: Option<OwnershipProposal>, sender: Addr, now: u64) -> Result<
    Addr,
    OwnershipError,
> {
    match record {
        None => Err(OwnershipError::NotFound),
        Some(p) => if sender != p.owner {
            Err(OwnershipError::Unauthorized)
        } else if now > p.ttl {
            Err(OwnershipError::Expired)
        } else {
            Ok(p.owner)
        },
    }
}

/// The slot after a claim was judged: empty where it was admitted, as it was
/// where it was refused.
pub open spec fn claim_slot(before: Option<OwnershipProposal>, sender: Addr, now: u64) -> Option<
    OwnershipProposal,
> {
    if claim_verdict(before, sender, now) is Ok {
        None
    } else {
        before
    }
}

/// What a claim answers once the owning component has replied: the
/// acknowledgement with the new owner, or the component's error.
pub open spec fn claim_result(new_owner: Addr, reply: Result<(), StdError>) -> Result<
    Ack,
    OwnershipError,
> {
    match reply {
        Ok(_) => Ok(Ack { action: Action::ClaimOwnership, new_owner: Some(new_owner) }),
        Err(e) => Err(OwnershipError::FinalizeError(e)),
    }
}

/// Judges a claim and, where it is admitted, empties the slot and returns
/// the new owner, whom the owning component has yet to take.
pub fn admit_claim(sender: Addr, now: u64, proposal: &mut ProposalSlot) -> (verdict: Result<
    Addr,
    OwnershipError,
>)
    ensures
        verdict == claim_verdict(old(proposal)@, sender, now),
        final(proposal)@ == claim_slot(old(proposal)@, sender, now),
{
    let p = match proposal.load() {
        Some(p) => p,
        None => {
            return Err(OwnershipError::NotFound);
        },
    };
    if sender != p.owner {
        return Err(OwnershipError::Unauthorized);
    }
    if now > p.ttl {
        return Err(OwnershipError::Expired);
    }
    proposal.remove();
    Ok(p.owner)
}

/// Ends an admitted claim with the reply of the owning component.
pub fn conclude_claim(new_owner: Addr, reply: Result<(), StdError>) -> (result: Result<
    Ack,
    OwnershipError,
>)
    ensures
        result == claim_result(new_owner, reply),
{
    match reply {
        Ok(_) => Ok(Ack { action: Action::ClaimOwnership, new_owner: Some(new_owner) }),
        Err(e) => Err(OwnershipError::FinalizeError(e)),
    }
}

/// The reply of the owning component that a claim's result shows.
pub open spec fn finalize_reply(result: Result<Ack, OwnershipError>) -> Result<(), StdError> {
    match result {
        Err(OwnershipError::FinalizeError(e)) => Err(e),
        _ => Ok(()),
    }
}

/// Claims the ownership for `sender` at the time `now`.
///
/// A claim that is not admitted leaves the slot and the owning component as
/// they were. An admitted claim empties the slot and then calls `finalize`
/// once, for the record's candidate: the result is the acknowledgement where
/// the component took the new owner, and the component's error where it did
/// not. The slot stays empty in both cases: to undo the removal after such
/// an error is left to the transaction around the call.
pub fn claim_ownership<F: FinalizeCallback>(
    sender: Addr,
    now: u64,
    proposal: &mut ProposalSlot,
    cb: &mut F,
) -> (result: Result<Ack, OwnershipError>)
    ensures
        final(proposal)@ == claim_slot(old(proposal)@, sender, now),
        match claim_verdict(old(proposal)@, sender, now) {
            Err(e) => result == Err::<Ack, OwnershipError>(e) && *final(cb) == *old(cb),
            Ok(new_owner) => result == claim_result(new_owner, finalize_reply(result))
                && F::finalized(*old(cb), new_owner, *final(cb), finalize_reply(result)),
        },
{
    let new_owner = match admit_claim(sender, now, proposal) {
        Ok(new_owner) => new_owner,
        Err(e) => {
            return Err(e);
        },
    };
    let reply = cb.finalize(new_owner.clone());
    proof {
        if reply is Ok {
            assert(reply->Ok_0 == ());
        }
    }
    conclude_claim(new_owner, reply)
}

} // verus!
