use std::cell::Cell;

use cosmwasm_std::{Addr, StdError};
use ownership_transfer::common::{
    admit_claim, claim_ownership, conclude_claim, drop_ownership_proposal, propose_new_owner,
    propose_resolved, FinalizeCallback, IdentityValidator,
};
use ownership_transfer::reply::{Ack, Action, OwnershipError};
use ownership_transfer::slot::{OwnershipProposal, ProposalSlot};

/// Accepts every address in lower case, and counts how often it was asked.
struct LowerCase {
    asked: Cell<u32>,
}

impl LowerCase {
    fn new() -> Self {
        LowerCase { asked: Cell::new(0) }
    }
}

impl IdentityValidator for LowerCase {
    fn validate(&self, raw: &str) -> Result<Addr, StdError> {
        self.asked.set(self.asked.get() + 1);
        if raw.to_lowercase() != raw {
            return Err(StdError::generic_err(format!("Address {} should be lowercase", raw)));
        }
        Ok(Addr::unchecked(raw))
    }
}

/// An owning component: it keeps its owner, and a list of the calls it got.
struct Component {
    owner: Addr,
    calls: Vec<Addr>,
    fail_with: Option<String>,
}

impl Component {
    fn owned_by(owner: &str) -> Self {
        Component { owner: Addr::unchecked(owner), calls: vec![], fail_with: None }
    }
}

impl FinalizeCallback for Component {
    fn finalize(&mut self, new_owner: Addr) -> Result<(), StdError> {
        self.calls.push(new_owner.clone());
        match &self.fail_with {
            Some(msg) => Err(StdError::generic_err(msg.clone())),
            None => {
                self.owner = new_owner;
                Ok(())
            }
        }
    }
}

fn addr(s: &str) -> Addr {
    Addr::unchecked(s)
}

fn record(candidate: &str, expiry: u64) -> OwnershipProposal {
    OwnershipProposal { owner: addr(candidate), ttl: expiry }
}

fn pending(candidate: &str, expiry: u64) -> ProposalSlot {
    ProposalSlot::holding(Some(record(candidate, expiry)))
}

#[test]
fn propose_by_stranger_is_unauthorized_and_keeps_slot() {
    let v = LowerCase::new();
    let mut slot = ProposalSlot::new();
    let r = propose_new_owner(&v, addr("mallory"), 1000, "b".to_string(), 100, addr("owner"), &mut slot);
    assert_eq!(r, Err(OwnershipError::Unauthorized));
    assert_eq!(slot.load(), None);

    let mut slot = pending("b", 1100);
    let r = propose_new_owner(&v, addr("mallory"), 1000, "c".to_string(), 100, addr("owner"), &mut slot);
    assert_eq!(r, Err(OwnershipError::Unauthorized));
    assert_eq!(slot.load(), Some(record("b", 1100)));
}

#[test]
fn propose_by_stranger_does_not_ask_the_validator() {
    let v = LowerCase::new();
    let mut slot = ProposalSlot::new();
    let r = propose_new_owner(&v, addr("mallory"), 1000, "NotLower".to_string(), 100, addr("owner"), &mut slot);
    assert_eq!(r, Err(OwnershipError::Unauthorized));
    assert_eq!(v.asked.get(), 0);
}

#[test]
fn propose_by_stranger_is_unauthorized_whatever_the_deadline() {
    let v = LowerCase::new();
    let mut slot = pending("b", 1100);
    let r = propose_new_owner(&v, addr("mallory"), u64::MAX, "c".to_string(), u64::MAX, addr("owner"), &mut slot);
    assert_eq!(r, Err(OwnershipError::Unauthorized));
    assert_eq!(slot.load(), Some(record("b", 1100)));
}

#[test]
fn drop_by_stranger_is_unauthorized_and_keeps_slot() {
    let mut slot = pending("b", 1100);
    let r = drop_ownership_proposal(addr("mallory"), addr("owner"), &mut slot);
    assert_eq!(r, Err(OwnershipError::Unauthorized));
    assert_eq!(slot.load(), Some(record("b", 1100)));

    let mut slot = ProposalSlot::new();
    let r = drop_ownership_proposal(addr("b"), addr("owner"), &mut slot);
    assert_eq!(r, Err(OwnershipError::Unauthorized));
    assert_eq!(slot.load(), None);
}

#[test]
fn propose_owner_as_candidate_is_invalid() {
    let v = LowerCase::new();
    let mut slot = ProposalSlot::new();
    let r = propose_new_owner(&v, addr("owner"), 1000, "owner".to_string(), 100, addr("owner"), &mut slot);
    assert_eq!(r, Err(OwnershipError::InvalidProposal));
    assert_eq!(slot.load(), None);
    assert_eq!(v.asked.get(), 1);

    let mut slot = pending("b", 1100);
    let r = propose_new_owner(&v, addr("owner"), 1000, "owner".to_string(), 0, addr("owner"), &mut slot);
    assert_eq!(r, Err(OwnershipError::InvalidProposal));
    assert_eq!(slot.load(), Some(record("b", 1100)));
}

#[test]
fn propose_writes_then_replaces() {
    let v = LowerCase::new();
    let mut slot = ProposalSlot::new();
    let r = propose_new_owner(&v, addr("owner"), 1000, "b".to_string(), 100, addr("owner"), &mut slot);
    assert_eq!(r, Ok(Ack { action: Action::ProposeNewOwner, new_owner: Some(addr("b")) }));
    assert_eq!(slot.load(), Some(OwnershipProposal { owner: addr("b"), ttl: 1100 }));

    let r = propose_new_owner(&v, addr("owner"), 1050, "c".to_string(), 50, addr("owner"), &mut slot);
    assert_eq!(r, Ok(Ack { action: Action::ProposeNewOwner, new_owner: Some(addr("c")) }));
    assert_eq!(slot.load(), Some(OwnershipProposal { owner: addr("c"), ttl: 1100 }));
}

#[test]
fn propose_hands_the_raw_address_to_the_validator() {
    let v = LowerCase::new();
    let mut slot = pending("b", 1100);
    let r = propose_new_owner(&v, addr("owner"), 1000, "Carol".to_string(), 100, addr("owner"), &mut slot);
    assert_eq!(
        r,
        Err(OwnershipError::ValidationError(StdError::generic_err(
            "Address Carol should be lowercase"
        )))
    );
    assert_eq!(slot.load(), Some(record("b", 1100)));
    assert_eq!(v.asked.get(), 1);
}

#[test]
fn propose_resolved_follows_the_answer() {
    let mut slot = pending("b", 1100);
    let r = propose_resolved(addr("owner"), 7, Err(StdError::generic_err("no")), 3, addr("owner"), &mut slot);
    assert_eq!(r, Err(OwnershipError::ValidationError(StdError::generic_err("no"))));
    assert_eq!(slot.load(), Some(record("b", 1100)));

    let r = propose_resolved(addr("owner"), 7, Ok(addr("owner")), 3, addr("owner"), &mut slot);
    assert_eq!(r, Err(OwnershipError::InvalidProposal));
    assert_eq!(slot.load(), Some(record("b", 1100)));

    let r = propose_resolved(addr("x"), 7, Ok(addr("c")), 3, addr("owner"), &mut slot);
    assert_eq!(r, Err(OwnershipError::Unauthorized));
    assert_eq!(slot.load(), Some(record("b", 1100)));

    let r = propose_resolved(addr("x"), 7, Err(StdError::generic_err("no")), 3, addr("owner"), &mut slot);
    assert_eq!(r, Err(OwnershipError::Unauthorized));

    let r = propose_resolved(addr("owner"), 7, Ok(addr("c")), 3, addr("owner"), &mut slot);
    assert_eq!(r, Ok(Ack { action: Action::ProposeNewOwner, new_owner: Some(addr("c")) }));
    assert_eq!(slot.load(), Some(record("c", 10)));
}

#[test]
fn propose_accepts_the_largest_deadline() {
    let mut slot = ProposalSlot::new();
    let r = propose_resolved(addr("owner"), u64::MAX - 5, Ok(addr("c")), 5, addr("owner"), &mut slot);
    assert_eq!(r, Ok(Ack { action: Action::ProposeNewOwner, new_owner: Some(addr("c")) }));
    assert_eq!(slot.load(), Some(record("c", u64::MAX)));
}

#[test]
fn propose_with_zero_ttl_expires_after_this_second() {
    let v = LowerCase::new();
    let mut slot = ProposalSlot::new();
    let r = propose_new_owner(&v, addr("owner"), 1000, "b".to_string(), 0, addr("owner"), &mut slot);
    assert!(r.is_ok());
    assert_eq!(slot.load(), Some(record("b", 1000)));
    assert_eq!(admit_claim(addr("b"), 1001, &mut slot), Err(OwnershipError::Expired));
    assert_eq!(admit_claim(addr("b"), 1000, &mut slot), Ok(addr("b")));
}

#[test]
fn drop_on_empty_slot_is_a_no_op() {
    let mut slot = ProposalSlot::new();
    let r = drop_ownership_proposal(addr("owner"), addr("owner"), &mut slot);
    assert_eq!(r, Ok(Ack { action: Action::DropOwnershipProposal, new_owner: None }));
    assert_eq!(slot.load(), None);
    assert_eq!(slot, ProposalSlot::new());
}

#[test]
fn drop_on_populated_slot_empties_it() {
    let mut slot = pending("b", 1100);
    let r = drop_ownership_proposal(addr("owner"), addr("owner"), &mut slot);
    assert_eq!(r, Ok(Ack { action: Action::DropOwnershipProposal, new_owner: None }));
    assert_eq!(slot.load(), None);
    let r = drop_ownership_proposal(addr("owner"), addr("owner"), &mut slot);
    assert_eq!(r, Ok(Ack { action: Action::DropOwnershipProposal, new_owner: None }));
    assert_eq!(slot.load(), None);
}

#[test]
fn claim_on_empty_slot_is_not_found() {
    for (who, now) in [("a", 0u64), ("b", 1050), ("owner", u64::MAX)] {
        let mut slot = ProposalSlot::new();
        let mut c = Component::owned_by("owner");
        let r = claim_ownership(addr(who), now, &mut slot, &mut c);
        assert_eq!(r, Err(OwnershipError::NotFound));
        assert_eq!(slot.load(), None);
        assert!(c.calls.is_empty());
    }
}

#[test]
fn claim_by_stranger_is_unauthorized_and_keeps_record() {
    let mut slot = pending("b", 1100);
    let mut c = Component::owned_by("owner");
    let r = claim_ownership(addr("a"), 1050, &mut slot, &mut c);
    assert_eq!(r, Err(OwnershipError::Unauthorized));
    assert_eq!(slot.load(), Some(record("b", 1100)));
    assert!(c.calls.is_empty());
    assert_eq!(c.owner, addr("owner"));

    let r = claim_ownership(addr("b"), 1099, &mut slot, &mut c);
    assert_eq!(r, Ok(Ack { action: Action::ClaimOwnership, new_owner: Some(addr("b")) }));
}

#[test]
fn claim_by_stranger_after_deadline_is_unauthorized() {
    let mut slot = pending("b", 1100);
    let mut c = Component::owned_by("owner");
    let r = claim_ownership(addr("a"), 1150, &mut slot, &mut c);
    assert_eq!(r, Err(OwnershipError::Unauthorized));
    assert_eq!(slot.load(), Some(record("b", 1100)));
}

#[test]
fn claim_by_owner_is_unauthorized() {
    let mut slot = pending("b", 1100);
    let mut c = Component::owned_by("owner");
    let r = claim_ownership(addr("owner"), 1050, &mut slot, &mut c);
    assert_eq!(r, Err(OwnershipError::Unauthorized));
    assert_eq!(slot.load(), Some(record("b", 1100)));
}

#[test]
fn claim_after_deadline_is_expired_and_keeps_record() {
    let mut slot = pending("b", 1100);
    let mut c = Component::owned_by("owner");
    let r = claim_ownership(addr("b"), 1150, &mut slot, &mut c);
    assert_eq!(r, Err(OwnershipError::Expired));
    assert_eq!(slot.load(), Some(record("b", 1100)));
    assert!(c.calls.is_empty());
    assert_eq!(c.owner, addr("owner"));

    let r = claim_ownership(addr("b"), 1101, &mut slot, &mut c);
    assert_eq!(r, Err(OwnershipError::Expired));
    assert_eq!(slot.load(), Some(record("b", 1100)));
}

#[test]
fn claim_in_time_hands_over() {
    let mut slot = pending("b", 1100);
    let mut c = Component::owned_by("owner");
    let r = claim_ownership(addr("b"), 1050, &mut slot, &mut c);
    assert_eq!(r, Ok(Ack { action: Action::ClaimOwnership, new_owner: Some(addr("b")) }));
    assert_eq!(slot.load(), None);
    assert_eq!(c.calls, vec![addr("b")]);
    assert_eq!(c.owner, addr("b"));
}

#[test]
fn claim_at_the_deadline_is_in_time() {
    let mut slot = pending("b", 1100);
    let mut c = Component::owned_by("owner");
    let r = claim_ownership(addr("b"), 1100, &mut slot, &mut c);
    assert_eq!(r, Ok(Ack { action: Action::ClaimOwnership, new_owner: Some(addr("b")) }));
    assert_eq!(slot.load(), None);
}

#[test]
fn claim_twice_finds_nothing_the_second_time() {
    let mut slot = pending("b", 1100);
    let mut c = Component::owned_by("owner");
    assert!(claim_ownership(addr("b"), 1050, &mut slot, &mut c).is_ok());
    let r = claim_ownership(addr("b"), 1051, &mut slot, &mut c);
    assert_eq!(r, Err(OwnershipError::NotFound));
    assert_eq!(c.calls, vec![addr("b")]);
}

#[test]
fn claim_reports_a_failed_finalize() {
    let mut slot = pending("b", 1100);
    let before = slot.load();
    let mut c = Component::owned_by("owner");
    c.fail_with = Some("config is locked".to_string());
    let r = claim_ownership(addr("b"), 1050, &mut slot, &mut c);
    assert_eq!(
        r,
        Err(OwnershipError::FinalizeError(StdError::generic_err("config is locked")))
    );
    assert_eq!(c.calls, vec![addr("b")]);
    assert_eq!(c.owner, addr("owner"));
    // The removal came before the call; the transaction around the claim
    // discards it together with everything else the request wrote.
    assert_eq!(slot.load(), None);
    let slot = if r.is_err() { ProposalSlot::holding(before) } else { slot };
    assert_eq!(slot.load(), Some(record("b", 1100)));
}

#[test]
fn admit_claim_judges_in_order() {
    let mut slot = ProposalSlot::new();
    assert_eq!(admit_claim(addr("b"), 5, &mut slot), Err(OwnershipError::NotFound));

    let mut slot = pending("b", 10);
    assert_eq!(admit_claim(addr("a"), 11, &mut slot), Err(OwnershipError::Unauthorized));
    assert_eq!(admit_claim(addr("b"), 11, &mut slot), Err(OwnershipError::Expired));
    assert_eq!(slot.load(), Some(record("b", 10)));
    assert_eq!(admit_claim(addr("b"), 10, &mut slot), Ok(addr("b")));
    assert_eq!(slot.load(), None);
}

#[test]
fn conclude_claim_follows_the_reply() {
    assert_eq!(
        conclude_claim(addr("b"), Ok(())),
        Ok(Ack { action: Action::ClaimOwnership, new_owner: Some(addr("b")) })
    );
    assert_eq!(
        conclude_claim(addr("b"), Err(StdError::generic_err("no"))),
        Err(OwnershipError::FinalizeError(StdError::generic_err("no")))
    );
}

#[test]
fn slot_holds_one_record() {
    let mut slot = ProposalSlot::new();
    assert_eq!(slot.load(), None);
    slot.save(record("b", 1));
    assert_eq!(slot.load(), Some(record("b", 1)));
    slot.save(record("c", 2));
    assert_eq!(slot.load(), Some(record("c", 2)));
    assert_eq!(slot.load(), Some(record("c", 2)));
    slot.remove();
    assert_eq!(slot.load(), None);
    slot.remove();
    assert_eq!(slot.load(), None);
    assert_eq!(slot.into_record(), None);
    assert_eq!(pending("b", 9).into_record(), Some(record("b", 9)));
    assert_eq!(ProposalSlot::holding(None), ProposalSlot::new());
}

#[test]
fn whole_life_of_a_proposal() {
    let v = LowerCase::new();
    let mut slot = ProposalSlot::new();
    let mut c = Component::owned_by("owner");

    assert!(propose_new_owner(&v, c.owner.clone(), 1000, "b".to_string(), 100, c.owner.clone(), &mut slot).is_ok());
    assert!(drop_ownership_proposal(c.owner.clone(), c.owner.clone(), &mut slot).is_ok());
    assert_eq!(claim_ownership(addr("b"), 1001, &mut slot, &mut c), Err(OwnershipError::NotFound));

    assert!(propose_new_owner(&v, c.owner.clone(), 1002, "b".to_string(), 100, c.owner.clone(), &mut slot).is_ok());
    assert!(claim_ownership(addr("b"), 1003, &mut slot, &mut c).is_ok());
    assert_eq!(c.owner, addr("b"));

    // The former owner has no say any more.
    let r = propose_new_owner(&v, addr("owner"), 1004, "owner".to_string(), 100, c.owner.clone(), &mut slot);
    assert_eq!(r, Err(OwnershipError::Unauthorized));
    let r = propose_new_owner(&v, addr("b"), 1004, "owner".to_string(), 100, c.owner.clone(), &mut slot);
    assert_eq!(r, Ok(Ack { action: Action::ProposeNewOwner, new_owner: Some(addr("owner")) }));
}
