//! The lifecycle state machine: which status transitions are legal.
//!
//! Legal edges: Pending -> Active, Active -> Suspended, Suspended -> Active,
//! and any of Pending/Active/Suspended -> Revoked. Revoked is terminal.

use vstd::prelude::*;
use crate::types::PartnerStatus;

verus! {

/// The full transition table. Exactly six (old, new) pairs are legal;
/// every other pair is rejected with `Error::InvalidStatusTransition`.
pub open spec fn transition_allowed(from: PartnerStatus, to: PartnerStatus) -> bool {
    match (from, to) {
        (PartnerStatus::Pending, PartnerStatus::Active) => true,
        (PartnerStatus::Active, PartnerStatus::Suspended) => true,
        (PartnerStatus::Suspended, PartnerStatus::Active) => true,
        (PartnerStatus::Pending, PartnerStatus::Revoked) => true,
        (PartnerStatus::Active, PartnerStatus::Revoked) => true,
        (PartnerStatus::Suspended, PartnerStatus::Revoked) => true,
        _ => false,
    }
}

/// Runtime check of the transition table, exact against `transition_allowed`.
pub fn is_transition_allowed(from: PartnerStatus, to: PartnerStatus) -> (r: bool)
    ensures
        r == transition_allowed(from, to),
{
    match (from, to) {
        (PartnerStatus::Pending, PartnerStatus::Active) => true,
        (PartnerStatus::Active, PartnerStatus::Suspended) => true,
        (PartnerStatus::Suspended, PartnerStatus::Active) => true,
        (PartnerStatus::Pending, PartnerStatus::Revoked) => true,
        (PartnerStatus::Active, PartnerStatus::Revoked) => true,
        (PartnerStatus::Suspended, PartnerStatus::Revoked) => true,
        _ => false,
    }
}

/// Law: Revoked is terminal. No transition out of Revoked is legal,
/// not even Revoked -> Revoked.
pub proof fn lemma_revoked_is_terminal(to: PartnerStatus)
    ensures
        !transition_allowed(PartnerStatus::Revoked, to),
{
}

/// Law: a legal transition never starts from Revoked, and a transition
/// into Revoked is legal from every other status.
pub proof fn lemma_revocation_always_open(from: PartnerStatus)
    ensures
        from != PartnerStatus::Revoked ==> transition_allowed(from, PartnerStatus::Revoked),
        transition_allowed(from, PartnerStatus::Revoked) ==> from != PartnerStatus::Revoked,
{
}

} // verus!
