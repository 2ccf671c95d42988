//! Secondary index: the identities registered under each partner type,
//! one ordered bucket per type, each bounded by the configured maximum.

use vstd::prelude::*;
use crate::types::PartnerType;

verus! {

/// One bucket of identities per partner type. Derived data: the registry
/// keeps each bucket consistent with the primary partner records.
pub struct TypeIndex {
    producers: Vec<u64>,
    certifiers: Vec<u64>,
    retailers: Vec<u64>,
    logistics_providers: Vec<u64>,
    auditors: Vec<u64>,
    regulators: Vec<u64>,
}

impl TypeIndex {
    /// The identities in the bucket of `partner_type`, in insertion order.
    pub closed spec fn members(self, partner_type: PartnerType) -> Seq<u64> {
        match partner_type {
            PartnerType::Producer => self.producers@,
            PartnerType::Certifier => self.certifiers@,
            PartnerType::Retailer => self.retailers@,
            PartnerType::LogisticsProvider => self.logistics_providers@,
            PartnerType::Auditor => self.auditors@,
            PartnerType::Regulator => self.regulators@,
        }
    }

    /// An empty index: every bucket empty.
    pub fn new() -> (r: TypeIndex)
        ensures
            forall|t: PartnerType| #[trigger] r.members(t) == Seq::<u64>::empty(),
    {
        let r = TypeIndex {
            producers: Vec::new(),
            certifiers: Vec::new(),
            retailers: Vec::new(),
            logistics_providers: Vec::new(),
            auditors: Vec::new(),
            regulators: Vec::new(),
        };
        assert forall|t: PartnerType| #[trigger] r.members(t) == Seq::<u64>::empty() by {
            assert(r.members(t) =~= Seq::<u64>::empty());
        }
        r
    }

    /// How many identities the bucket of `partner_type` holds.
    pub fn bucket_len(&self, partner_type: PartnerType) -> (r: usize)
        ensures
            r == self.members(partner_type).len(),
    {
        match partner_type {
            PartnerType::Producer => self.producers.len(),
            PartnerType::Certifier => self.certifiers.len(),
            PartnerType::Retailer => self.retailers.len(),
            PartnerType::LogisticsProvider => self.logistics_providers.len(),
            PartnerType::Auditor => self.auditors.len(),
            PartnerType::Regulator => self.regulators.len(),
        }
    }

    /// Appends `account_id` to the bucket of `partner_type`; every other
    /// bucket is left as it was.
    pub fn push_member(&mut self, partner_type: PartnerType, account_id: u64)
        requires
            old(self).members(partner_type).len() < usize::MAX,
        ensures
            final(self).members(partner_type) == old(self).members(partner_type).push(account_id),
            forall|t: PartnerType|
                t != partner_type ==> #[trigger] final(self).members(t) == old(self).members(t),
    {
        match partner_type {
            PartnerType::Producer => self.producers.push(account_id),
            PartnerType::Certifier => self.certifiers.push(account_id),
            PartnerType::Retailer => self.retailers.push(account_id),
            PartnerType::LogisticsProvider => self.logistics_providers.push(account_id),
            PartnerType::Auditor => self.auditors.push(account_id),
            PartnerType::Regulator => self.regulators.push(account_id),
        }
    }
}

} // verus!
