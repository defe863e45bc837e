//! What holds of the three operations, for every slot, sender and time.
//!
//! Each law is stated over the functions that the operations' contracts are
//! stated over, so that it holds of every call.

use crate::common::claim_result;
use crate::common::claim_slot;
use crate::common::claim_verdict;
use crate::common::drop_result;
use crate::common::drop_slot;
use crate::common::propose_result;
use crate::common::propose_slot;
use crate::common::propose_verdict;
use crate::reply::Ack;
use crate::reply::Action;
use crate::reply::OwnershipError;
use crate::slot::OwnershipProposal;
use cosmwasm_std::Addr;
use cosmwasm_std::StdError;
use vstd::prelude::*;

verus! {

/// Only the owner proposes or withdraws: any other sender is refused as
/// unauthorized, whatever the validator answers, and the slot stays as it
/// was.
pub proof fn law_only_the_owner_proposes_or_drops(
    before: Option<OwnershipProposal>,
    sender: Addr,
    owner: Addr,
    answer: Result<Addr, StdError>,
    now: u64,
    expires_in: u64,
)
    requires
        sender != owner,
    ensures
        propose_result(propose_verdict(sender, owner, answer, now, expires_in)) == Err::<
            Ack,
            OwnershipError,
        >(OwnershipError::Unauthorized),
        propose_slot(before, propose_verdict(sender, owner, answer, now, expires_in)) == before,
        drop_result(sender, owner) == Err::<Ack, OwnershipError>(OwnershipError::Unauthorized),
        drop_slot(before, sender, owner) == before,
{
}

/// The owner cannot propose the owner: the proposal is refused as invalid
/// and the slot stays as it was.
pub proof fn law_the_owner_is_no_candidate(
    before: Option<OwnershipProposal>,
    owner: Addr,
    now: u64,
    expires_in: u64,
)
    ensures
        propose_result(propose_verdict(owner, owner, Ok(owner), now, expires_in)) == Err::<
            Ack,
            OwnershipError,
        >(OwnershipError::InvalidProposal),
        propose_slot(before, propose_verdict(owner, owner, Ok(owner), now, expires_in)) == before,
{
}

/// An address that the validator refuses is not proposed: the owner gets the
/// validator's error back and the slot stays as it was.
pub proof fn law_a_refused_address_changes_nothing(
    before: Option<OwnershipProposal>,
    owner: Addr,
    refusal: StdError,
    now: u64,
    expires_in: u64,
)
    ensures
        propose_result(propose_verdict(owner, owner, Err(refusal), now, expires_in)) == Err::<
            Ack,
            OwnershipError,
        >(OwnershipError::ValidationError(refusal)),
        propose_slot(before, propose_verdict(owner, owner, Err(refusal), now, expires_in))
            == before,
{
}

/// A proposal replaces: after the owner has proposed another address, the
/// slot holds that candidate with the deadline `now + expires_in`, and
/// nothing of what it held before.
pub proof fn law_a_proposal_replaces(
    before: Option<OwnershipProposal>,
    owner: Addr,
    candidate: Addr,
    now: u64,
    expires_in: u64,
)
    requires
        candidate != owner,
        now + expires_in <= u64::MAX,
    ensures
        propose_result(propose_verdict(owner, owner, Ok(candidate), now, expires_in)) == Ok::<
            Ack,
            OwnershipError,
        >(Ack { action: Action::ProposeNewOwner, new_owner: Some(candidate) }),
        propose_slot(before, propose_verdict(owner, owner, Ok(candidate), now, expires_in))
            matches Some(p) && p.owner == candidate && p.ttl == now + expires_in,
{
}

/// A withdrawal by the owner empties the slot and is acknowledged, also
/// where the slot was empty already: then nothing changes.
pub proof fn law_a_withdrawal_empties(before: Option<OwnershipProposal>, owner: Addr)
    ensures
        drop_result(owner, owner) == Ok::<Ack, OwnershipError>(
            Ack { action: Action::DropOwnershipProposal, new_owner: None },
        ),
        drop_slot(before, owner, owner) is None,
        before is None ==> drop_slot(before, owner, owner) == before,
        drop_slot(drop_slot(before, owner, owner), owner, owner) == drop_slot(before, owner, owner),
{
}

/// Nothing pending, nothing to claim: on an empty slot every claim is
/// refused as not found, and the slot stays empty.
pub proof fn law_an_empty_slot_has_no_claim(sender: Addr, now: u64)
    ensures
        claim_verdict(None, sender, now) == Err::<Addr, OwnershipError>(OwnershipError::NotFound),
        claim_slot(None, sender, now) is None,
{
}

/// Only the candidate claims: any other sender is refused as unauthorized,
/// at any time, and the record stays, so that the candidate can still claim
/// it up to the deadline.
pub proof fn law_only_the_candidate_claims(
    record: OwnershipProposal,
    sender: Addr,
    now: u64,
    later: u64,
)
    requires
        sender != record.owner,
        later <= record.ttl,
    ensures
        claim_verdict(Some(record), sender, now) == Err::<Addr, OwnershipError>(
            OwnershipError::Unauthorized,
        ),
        claim_slot(Some(record), sender, now) == Some(record),
        claim_verdict(claim_slot(Some(record), sender, now), record.owner, later) == Ok::<
            Addr,
            OwnershipError,
        >(record.owner),
{
}

/// A claim after the deadline is refused as expired, and the record stays
/// as it was.
pub proof fn law_a_late_claim_expires(record: OwnershipProposal, now: u64)
    requires
        now > record.ttl,
    ensures
        claim_verdict(Some(record), record.owner, now) == Err::<Addr, OwnershipError>(
            OwnershipError::Expired,
        ),
        claim_slot(Some(record), record.owner, now) == Some(record),
{
}

/// A claim by the candidate up to the deadline is admitted: the slot is
/// emptied, and once the owning component has taken the new owner the
/// acknowledgement names the candidate.
pub proof fn law_a_claim_in_time_succeeds(record: OwnershipProposal, now: u64)
    requires
        now <= record.ttl,
    ensures
        claim_verdict(Some(record), record.owner, now) == Ok::<Addr, OwnershipError>(record.owner),
        claim_slot(Some(record), record.owner, now) is None,
        claim_result(record.owner, Ok(())) == Ok::<Ack, OwnershipError>(
            Ack { action: Action::ClaimOwnership, new_owner: Some(record.owner) },
        ),
{
}

/// Where the owning component fails to take the new owner, the claim
/// reports that failure and no other.
pub proof fn law_a_failed_finalize_is_reported(new_owner: Addr, failure: StdError)
    ensures
        claim_result(new_owner, Err(failure)) == Err::<Ack, OwnershipError>(
            OwnershipError::FinalizeError(failure),
        ),
{
}

} // verus!
