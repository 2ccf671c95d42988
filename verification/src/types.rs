//! Data model: partner records, capability grants, configuration bounds,
//! and the error and event vocabulary of the registry.

use vstd::prelude::*;

verus! {

/// Role a partner holds in the consortium. Immutable after registration.
#[derive(Clone, Copy, PartialEq, Eq, Structural, Debug)]
pub enum PartnerType {
    Producer,
    Certifier,
    Retailer,
    LogisticsProvider,
    Auditor,
    Regulator,
}

/// Lifecycle status of a partner record. Mutated only through the
/// transition table enforced by `Registry::update_partner_status`.
#[derive(Clone, Copy, PartialEq, Eq, Structural, Debug)]
pub enum PartnerStatus {
    Pending,
    Active,
    Suspended,
    Revoked,
}

/// One partner record. `account_id` is the sole key: the registry keeps at
/// most one record per identity, and the record's own `account_id` always
/// equals the key it is stored under.
#[derive(Debug)]
pub struct PartnerInfo {
    pub account_id: u64,
    pub partner_type: PartnerType,
    pub status: PartnerStatus,
    pub name: Vec<u8>,
    pub description: Vec<u8>,
    pub registration_height: u64,
    pub certifications: Vec<Vec<u8>>,
    pub reputation_score: u32,
}

/// A capability: permission for one grantee to read and/or write one data
/// category, optionally until (exclusive) an expiry height.
#[derive(Debug)]
pub struct AccessPermission {
    pub data_type: Vec<u8>,
    pub read_access: bool,
    pub write_access: bool,
    pub expiry_height: Option<u64>,
}

/// One entry of the grant ledger: an `AccessPermission` attached to the
/// ordered pair (grantor, grantee).
#[derive(Debug)]
pub struct GrantRecord {
    pub grantor: u64,
    pub grantee: u64,
    pub permission: AccessPermission,
}

/// Configuration bounds, supplied once at construction. All must be positive.
#[derive(Clone, Copy, PartialEq, Eq, Structural, Debug)]
pub struct RegistryConfig {
    pub max_name_len: usize,
    pub max_description_len: usize,
    pub max_certifications: usize,
    pub max_partners_per_type: usize,
}

impl RegistryConfig {
    pub open spec fn wf(self) -> bool {
        &&& self.max_name_len >= 1
        &&& self.max_description_len >= 1
        &&& self.max_certifications >= 1
        &&& self.max_partners_per_type >= 1
    }
}

/// Every failure the registry can report. No operation mutates any state
/// when it returns one of these.
#[derive(Clone, Copy, PartialEq, Eq, Structural, Debug)]
pub enum Error {
    /// The identity already has a partner record.
    AlreadyExists,
    /// The identity (or a grant party) has no partner record.
    NotFound,
    /// The name exceeds the configured maximum length.
    NameTooLong,
    /// The description exceeds the configured maximum length.
    DescriptionTooLong,
    /// The partner already holds the maximum number of certifications.
    TooManyCertifications,
    /// The per-type index already holds the maximum number of partners.
    IndexFull,
    /// The requested lifecycle transition is not in the legal set.
    InvalidStatusTransition,
}

/// The record `p` with its status replaced.
pub open spec fn with_status(p: PartnerInfo, status: PartnerStatus) -> PartnerInfo {
    PartnerInfo { status, ..p }
}

/// The record `p` with its reputation score replaced.
pub open spec fn with_score(p: PartnerInfo, reputation_score: u32) -> PartnerInfo {
    PartnerInfo { reputation_score, ..p }
}

/// The record `p` with each provided profile field replaced and every
/// absent field kept.
pub open spec fn with_profile(
    p: PartnerInfo,
    name: Option<Vec<u8>>,
    description: Option<Vec<u8>>,
) -> PartnerInfo {
    PartnerInfo {
        name: match name {
            Option::Some(n) => n,
            Option::None => p.name,
        },
        description: match description {
            Option::Some(d) => d,
            Option::None => p.description,
        },
        ..p
    }
}

/// `post` is `pre` with exactly `certification` appended to its
/// certification list and nothing else changed.
pub open spec fn certification_added(
    pre: PartnerInfo,
    post: PartnerInfo,
    certification: Seq<u8>,
) -> bool {
    &&& post.account_id == pre.account_id
    &&& post.partner_type == pre.partner_type
    &&& post.status == pre.status
    &&& post.name == pre.name
    &&& post.description == pre.description
    &&& post.registration_height == pre.registration_height
    &&& post.certifications@.len() == pre.certifications@.len() + 1
    &&& forall|i: int|
        0 <= i < pre.certifications@.len()
            ==> #[trigger] post.certifications@[i] == pre.certifications@[i]
    &&& post.certifications@.last()@ == certification
    &&& post.reputation_score == pre.reputation_score
}

/// The record a successful registration creates: Pending, empty
/// certification list, the starting reputation score.
pub open spec fn fresh_partner(
    p: PartnerInfo,
    account_id: u64,
    partner_type: PartnerType,
    name: Seq<u8>,
    description: Seq<u8>,
    height: u64,
) -> bool {
    &&& p.account_id == account_id
    &&& p.partner_type == partner_type
    &&& p.status == PartnerStatus::Pending
    &&& p.name@ == name
    &&& p.description@ == description
    &&& p.registration_height == height
    &&& p.certifications@.len() == 0
    &&& p.reputation_score == crate::reputation::INITIAL_REPUTATION
}

/// Byte-wise equality of two byte strings, exact against view equality.
pub fn bytes_eq(a: &Vec<u8>, b: &Vec<u8>) -> (r: bool)
    ensures
        r == (a@ == b@),
{
    if a.len() != b.len() {
        return false;
    }
    let mut i: usize = 0;
    while i < a.len()
        invariant
            i <= a@.len(),
            a@.len() == b@.len(),
            forall|j: int| 0 <= j < i ==> a@[j] == b@[j],
        decreases a@.len() - i,
    {
        if a[i] != b[i] {
            return false;
        }
        i += 1;
    }
    proof {
        assert(a@ =~= b@);
    }
    true
}

/// A copy of a byte string, its contents equal to the source's.
pub fn clone_bytes(v: &Vec<u8>) -> (r: Vec<u8>)
    ensures
        r@ == v@,
{
    let r = v.clone();
    proof {
        assert forall|i: int| 0 <= i < v@.len() implies r@[i] == v@[i] by {
            assert(vstd::pervasive::cloned::<u8>(v@[i], r@[i]));
        }
        assert(r@ =~= v@);
    }
    r
}

/// Event a successful mutation returns, for the boundary layer to deliver.
#[derive(PartialEq, Eq, Debug)]
pub enum Event {
    PartnerRegistered { account_id: u64, partner_type: PartnerType },
    PartnerStatusUpdated { account_id: u64, old_status: PartnerStatus, new_status: PartnerStatus },
    PartnerUpdated { account_id: u64 },
    CertificationAdded { account_id: u64, certification: Vec<u8> },
    ReputationUpdated { account_id: u64, old_score: u32, new_score: u32 },
    PermissionGranted { grantor: u64, grantee: u64 },
    PermissionRevoked { grantor: u64, grantee: u64 },
}

} // verus!
