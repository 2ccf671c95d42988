//! The registry aggregate: partner records keyed by identity, the per-type
//! index, and the grant ledger, mutated only through all-or-nothing
//! operations that each return the event they emit.

use vstd::prelude::*;
use std::collections::HashMap;
use crate::types::{
    bytes_eq, certification_added, clone_bytes, fresh_partner, with_profile, with_score,
    with_status,
    AccessPermission, Error, Event, GrantRecord, PartnerInfo, PartnerStatus, PartnerType,
    RegistryConfig,
};
use crate::status::{is_transition_allowed, transition_allowed};
use crate::reputation::{apply_delta, clamped_score};
use crate::grants::{
    grant_matches, lemma_remove_category_complete, remove_category, revocation_hits,
    seq_has_permission,
};
use crate::type_index::TypeIndex;

verus! {

broadcast use vstd::std_specs::hash::group_hash_axioms;

/// The whole registry state. Constructed once per deployment; every
/// mutating operation is atomic: fully applied, or an error with the
/// state untouched.
pub struct Registry {
    config: RegistryConfig,
    partners: HashMap<u64, PartnerInfo>,
    type_index: TypeIndex,
    grants: Vec<GrantRecord>,
}

impl Registry {
    /// The configuration bounds the registry was built with.
    pub closed spec fn spec_config(self) -> RegistryConfig {
        self.config
    }

    /// The partner records, as a map from identity to record.
    pub closed spec fn spec_partners(self) -> Map<u64, PartnerInfo> {
        self.partners@
    }

    /// The grant ledger, in insertion order.
    pub closed spec fn spec_grants(self) -> Seq<GrantRecord> {
        self.grants@
    }

    /// The per-type index bucket for `partner_type`, in insertion order.
    pub closed spec fn spec_members(self, partner_type: PartnerType) -> Seq<u64> {
        self.type_index.members(partner_type)
    }

    /// Bounds a single partner record must respect.
    pub open spec fn partner_ok(self, p: PartnerInfo) -> bool {
        &&& p.name@.len() <= self.spec_config().max_name_len
        &&& p.description@.len() <= self.spec_config().max_description_len
        &&& p.certifications@.len() <= self.spec_config().max_certifications
        &&& p.reputation_score <= crate::reputation::MAX_REPUTATION
    }

    /// Well-formedness of the whole registry:
    /// - the configuration bounds are positive;
    /// - each record sits under its own identity, respects the bounds, and
    ///   appears in the index bucket of its type;
    /// - each index entry refers to a registered partner of that type, no
    ///   bucket holds duplicates, and no bucket exceeds its bound;
    /// - both parties of every grant are registered.
    pub open spec fn wf(self) -> bool {
        &&& self.spec_config().wf()
        &&& forall|id: u64| #[trigger]
            self.spec_partners().contains_key(id) ==> {
                &&& self.spec_partners()[id].account_id == id
                &&& self.partner_ok(self.spec_partners()[id])
                &&& self.spec_members(self.spec_partners()[id].partner_type).contains(id)
            }
        &&& forall|t: PartnerType, i: int|
            0 <= i < self.spec_members(t).len() ==> {
                &&& self.spec_partners().contains_key(#[trigger] self.spec_members(t)[i])
                &&& self.spec_partners()[self.spec_members(t)[i]].partner_type == t
            }
        &&& forall|t: PartnerType, i: int, j: int|
            0 <= i < self.spec_members(t).len() && 0 <= j < self.spec_members(t).len() && i != j
                ==> #[trigger] self.spec_members(t)[i] != #[trigger] self.spec_members(t)[j]
        &&& forall|t: PartnerType| #[trigger]
            self.spec_members(t).len() <= self.spec_config().max_partners_per_type
        &&& forall|i: int|
            0 <= i < self.spec_grants().len() ==> {
                &&& self.spec_partners().contains_key(#[trigger] self.spec_grants()[i].grantor)
                &&& self.spec_partners().contains_key(self.spec_grants()[i].grantee)
            }
    }

    /// Replacing one record — same identity, same partner type, bounds
    /// respected — while the index and the ledger stand still keeps the
    /// registry well-formed.
    proof fn lemma_record_update_preserves_wf(
        pre: Registry,
        post: Registry,
        account_id: u64,
        info: PartnerInfo,
    )
        requires
            pre.wf(),
            pre.spec_partners().contains_key(account_id),
            info.account_id == account_id,
            info.partner_type == pre.spec_partners()[account_id].partner_type,
            pre.partner_ok(info),
            post.spec_config() == pre.spec_config(),
            post.spec_partners() == pre.spec_partners().insert(account_id, info),
            forall|t: PartnerType| #[trigger] post.spec_members(t) == pre.spec_members(t),
            post.spec_grants() == pre.spec_grants(),
        ensures
            post.wf(),
    {
        assert forall|id: u64| #[trigger] post.spec_partners().contains_key(id) implies {
            &&& post.spec_partners()[id].account_id == id
            &&& post.partner_ok(post.spec_partners()[id])
            &&& post.spec_members(post.spec_partners()[id].partner_type).contains(id)
        } by {
            assert(pre.spec_partners().contains_key(id));
            if id == account_id {
                assert(pre.spec_members(info.partner_type).contains(account_id));
            }
        }
        assert forall|t: PartnerType, i: int|
            0 <= i < post.spec_members(t).len() implies {
            &&& post.spec_partners().contains_key(#[trigger] post.spec_members(t)[i])
            &&& post.spec_partners()[post.spec_members(t)[i]].partner_type == t
        } by {
            assert(pre.spec_partners().contains_key(pre.spec_members(t)[i]));
        }
        assert forall|i: int|
            0 <= i < post.spec_grants().len() implies {
            &&& post.spec_partners().contains_key(#[trigger] post.spec_grants()[i].grantor)
            &&& post.spec_partners().contains_key(post.spec_grants()[i].grantee)
        } by {
            assert(pre.spec_partners().contains_key(pre.spec_grants()[i].grantor));
            assert(pre.spec_partners().contains_key(pre.spec_grants()[i].grantee));
        }
    }

    /// Changing only the grant ledger — with both parties of every entry
    /// still registered — keeps the registry well-formed.
    proof fn lemma_grants_update_preserves_wf(pre: Registry, post: Registry)
        requires
            pre.wf(),
            post.spec_config() == pre.spec_config(),
            post.spec_partners() == pre.spec_partners(),
            forall|t: PartnerType| #[trigger] post.spec_members(t) == pre.spec_members(t),
            forall|i: int|
                0 <= i < post.spec_grants().len() ==> {
                    &&& post.spec_partners().contains_key(
                        #[trigger] post.spec_grants()[i].grantor,
                    )
                    &&& post.spec_partners().contains_key(post.spec_grants()[i].grantee)
                },
        ensures
            post.wf(),
    {
        assert forall|id: u64| #[trigger] post.spec_partners().contains_key(id) implies {
            &&& post.spec_partners()[id].account_id == id
            &&& post.partner_ok(post.spec_partners()[id])
            &&& post.spec_members(post.spec_partners()[id].partner_type).contains(id)
        } by {
            assert(pre.spec_partners().contains_key(id));
            let t = pre.spec_partners()[id].partner_type;
            assert(pre.spec_members(t).contains(id));
            assert(post.spec_members(t) == pre.spec_members(t));
        }
        assert forall|t: PartnerType, i: int|
            0 <= i < post.spec_members(t).len() implies {
            &&& post.spec_partners().contains_key(#[trigger] post.spec_members(t)[i])
            &&& post.spec_partners()[post.spec_members(t)[i]].partner_type == t
        } by {
            assert(post.spec_members(t) == pre.spec_members(t));
            assert(pre.spec_partners().contains_key(pre.spec_members(t)[i]));
        }
        assert forall|t: PartnerType, i: int, j: int|
            0 <= i < post.spec_members(t).len() && 0 <= j < post.spec_members(t).len() && i != j
            implies #[trigger] post.spec_members(t)[i] != #[trigger] post.spec_members(t)[j] by {
            assert(post.spec_members(t) == pre.spec_members(t));
            assert(pre.spec_members(t)[i] != pre.spec_members(t)[j]);
        }
        assert forall|t: PartnerType| #[trigger] post.spec_members(t).len()
            <= post.spec_config().max_partners_per_type by {
            assert(post.spec_members(t) == pre.spec_members(t));
        }
    }

    /// A fresh, empty registry under the given positive bounds.
    pub fn new(config: RegistryConfig) -> (r: Registry)
        requires
            config.wf(),
        ensures
            r.wf(),
            r.spec_config() == config,
            r.spec_partners() == Map::<u64, PartnerInfo>::empty(),
            r.spec_grants() == Seq::<GrantRecord>::empty(),
            forall|t: PartnerType| #[trigger] r.spec_members(t) == Seq::<u64>::empty(),
    {
        let r = Registry {
            config,
            partners: HashMap::new(),
            type_index: TypeIndex::new(),
            grants: Vec::new(),
        };
        assert(r.spec_partners() =~= Map::<u64, PartnerInfo>::empty());
        assert(r.spec_grants() =~= Seq::<GrantRecord>::empty());
        r
    }

    /// How many partner records the registry holds.
    pub fn partner_count(&self) -> (r: usize)
        ensures
            r == self.spec_partners().dom().len(),
    {
        self.partners.len()
    }

    /// How many entries the grant ledger holds.
    pub fn grant_count(&self) -> (r: usize)
        ensures
            r == self.spec_grants().len(),
    {
        self.grants.len()
    }

    /// The configuration bounds, for callers that must validate inputs
    /// before handing them in.
    pub fn config(&self) -> (r: RegistryConfig)
        ensures
            r == self.spec_config(),
    {
        self.config
    }

    /// The partner record of `account_id`, if one exists. Pure lookup.
    pub fn get_partner(&self, account_id: u64) -> (r: Option<&PartnerInfo>)
        ensures
            match r {
                Option::Some(p) => self.spec_partners().contains_key(account_id) && *p
                    == self.spec_partners()[account_id],
                Option::None => !self.spec_partners().contains_key(account_id),
            },
    {
        self.partners.get(&account_id)
    }

    /// Whether `account_id` is registered and currently Active. Pure lookup.
    pub fn is_active_partner(&self, account_id: u64) -> (r: bool)
        ensures
            r == (self.spec_partners().contains_key(account_id)
                && self.spec_partners()[account_id].status == PartnerStatus::Active),
    {
        match self.partners.get(&account_id) {
            Option::Some(p) => p.status == PartnerStatus::Active,
            Option::None => false,
        }
    }

    /// The partner type of `account_id`, if registered. Pure lookup.
    pub fn get_partner_type(&self, account_id: u64) -> (r: Option<PartnerType>)
        ensures
            match r {
                Option::Some(t) => self.spec_partners().contains_key(account_id) && t
                    == self.spec_partners()[account_id].partner_type,
                Option::None => !self.spec_partners().contains_key(account_id),
            },
    {
        match self.partners.get(&account_id) {
            Option::Some(p) => Option::Some(p.partner_type),
            Option::None => Option::None,
        }
    }

    /// Whether `account_id` is registered with exactly `partner_type`.
    /// Pure lookup.
    pub fn is_partner_type(&self, account_id: u64, partner_type: PartnerType) -> (r: bool)
        ensures
            r == (self.spec_partners().contains_key(account_id)
                && self.spec_partners()[account_id].partner_type == partner_type),
    {
        match self.get_partner_type(account_id) {
            Option::Some(t) => t == partner_type,
            Option::None => false,
        }
    }

    /// Registers a new partner: creates its record with status Pending and
    /// the starting reputation, and appends it to the index bucket of its
    /// type — atomically, or fails leaving no trace. Exactly one error per
    /// rejected input, checked in this order: the identity must be free,
    /// the name and then the description must fit their bounds, and the
    /// type's index bucket must have room.
    pub fn register_partner(
        &mut self,
        account_id: u64,
        partner_type: PartnerType,
        name: Vec<u8>,
        description: Vec<u8>,
        height: u64,
    ) -> (r: Result<Event, Error>)
        requires
            old(self).wf(),
        ensures
            final(self).wf(),
            final(self).spec_config() == old(self).spec_config(),
            r is Ok <==> {
                &&& !old(self).spec_partners().contains_key(account_id)
                &&& name@.len() <= old(self).spec_config().max_name_len
                &&& description@.len() <= old(self).spec_config().max_description_len
                &&& old(self).spec_members(partner_type).len() < old(
                    self,
                ).spec_config().max_partners_per_type
            },
            r == Err::<Event, Error>(Error::AlreadyExists) <==> old(
                self,
            ).spec_partners().contains_key(account_id),
            r == Err::<Event, Error>(Error::NameTooLong) <==> {
                &&& !old(self).spec_partners().contains_key(account_id)
                &&& name@.len() > old(self).spec_config().max_name_len
            },
            r == Err::<Event, Error>(Error::DescriptionTooLong) <==> {
                &&& !old(self).spec_partners().contains_key(account_id)
                &&& name@.len() <= old(self).spec_config().max_name_len
                &&& description@.len() > old(self).spec_config().max_description_len
            },
            r == Err::<Event, Error>(Error::IndexFull) <==> {
                &&& !old(self).spec_partners().contains_key(account_id)
                &&& name@.len() <= old(self).spec_config().max_name_len
                &&& description@.len() <= old(self).spec_config().max_description_len
                &&& old(self).spec_members(partner_type).len() >= old(
                    self,
                ).spec_config().max_partners_per_type
            },
            r is Ok ==> {
                &&& final(self).spec_partners().contains_key(account_id)
                &&& fresh_partner(
                    final(self).spec_partners()[account_id],
                    account_id,
                    partner_type,
                    name@,
                    description@,
                    height,
                )
                &&& final(self).spec_partners().remove(account_id) == old(self).spec_partners()
                &&& final(self).spec_members(partner_type) == old(self).spec_members(
                    partner_type,
                ).push(account_id)
                &&& forall|t: PartnerType|
                    t != partner_type ==> #[trigger] final(self).spec_members(t) == old(
                        self,
                    ).spec_members(t)
                &&& final(self).spec_grants() == old(self).spec_grants()
                &&& r == Ok::<Event, Error>(
                    Event::PartnerRegistered { account_id, partner_type },
                )
            },
            r is Err ==> *final(self) == *old(self),
    {
        if self.partners.contains_key(&account_id) {
            return Err(Error::AlreadyExists);
        }
        if name.len() > self.config.max_name_len {
            return Err(Error::NameTooLong);
        }
        if description.len() > self.config.max_description_len {
            return Err(Error::DescriptionTooLong);
        }
        if self.type_index.bucket_len(partner_type) >= self.config.max_partners_per_type {
            return Err(Error::IndexFull);
        }
        let info = PartnerInfo {
            account_id,
            partner_type,
            status: PartnerStatus::Pending,
            name,
            description,
            registration_height: height,
            certifications: Vec::new(),
            reputation_score: crate::reputation::INITIAL_REPUTATION,
        };
        self.partners.insert(account_id, info);
        self.type_index.push_member(partner_type, account_id);
        proof {
            let pre = *old(self);
            let post = *self;
            assert(post.spec_partners().remove(account_id) =~= pre.spec_partners());
            assert(post.spec_members(partner_type) == pre.spec_members(partner_type).push(
                account_id,
            ));
            assert forall|t: PartnerType, i: int|
                0 <= i < pre.spec_members(t).len() implies #[trigger] pre.spec_members(t)[i]
                != account_id by {
                assert(pre.spec_partners().contains_key(pre.spec_members(t)[i]));
            }
            assert forall|id: u64| #[trigger] post.spec_partners().contains_key(id) implies {
                &&& post.spec_partners()[id].account_id == id
                &&& post.partner_ok(post.spec_partners()[id])
                &&& post.spec_members(post.spec_partners()[id].partner_type).contains(id)
            } by {
                if id == account_id {
                    let n = pre.spec_members(partner_type).len() as int;
                    assert(post.spec_members(partner_type)[n] == account_id);
                    assert(post.spec_members(partner_type).contains(account_id));
                } else {
                    assert(pre.spec_partners().contains_key(id));
                    let t = pre.spec_partners()[id].partner_type;
                    assert(pre.spec_members(t).contains(id));
                    let w = choose|w: int|
                        0 <= w < pre.spec_members(t).len() && pre.spec_members(t)[w] == id;
                    assert(post.spec_members(t)[w] == id);
                    assert(post.spec_members(t).contains(id));
                }
            }
            assert forall|t: PartnerType, i: int|
                0 <= i < post.spec_members(t).len() implies {
                &&& post.spec_partners().contains_key(#[trigger] post.spec_members(t)[i])
                &&& post.spec_partners()[post.spec_members(t)[i]].partner_type == t
            } by {
                if t == partner_type && i == pre.spec_members(t).len() {
                    assert(post.spec_members(t)[i] == account_id);
                } else {
                    assert(pre.spec_members(t)[i] == post.spec_members(t)[i]);
                }
            }
            assert forall|t: PartnerType, i: int, j: int|
                0 <= i < post.spec_members(t).len() && 0 <= j < post.spec_members(t).len() && i
                    != j implies #[trigger] post.spec_members(t)[i] != #[trigger] post.spec_members(
                t,
            )[j] by {
                let n = pre.spec_members(t).len() as int;
                if t == partner_type {
                    if i < n && j < n {
                        assert(pre.spec_members(t)[i] != pre.spec_members(t)[j]);
                    } else if i == n {
                        assert(pre.spec_members(t)[j] != account_id);
                    } else if j == n {
                        assert(pre.spec_members(t)[i] != account_id);
                    }
                } else {
                    assert(pre.spec_members(t)[i] != pre.spec_members(t)[j]);
                }
            }
            assert forall|t: PartnerType| #[trigger] post.spec_members(t).len()
                <= post.spec_config().max_partners_per_type by {
                if t != partner_type {
                    assert(post.spec_members(t) == pre.spec_members(t));
                }
            }
        }
        Ok(Event::PartnerRegistered { account_id, partner_type })
    }

    /// Moves a partner along the lifecycle state machine. Privileged: the
    /// boundary layer must have checked the caller's elevated authority.
    /// Fails with NotFound for an unknown identity and with
    /// InvalidStatusTransition for any (old, new) pair outside the legal
    /// set, leaving the state untouched either way.
    pub fn update_partner_status(
        &mut self,
        account_id: u64,
        new_status: PartnerStatus,
    ) -> (r: Result<Event, Error>)
        requires
            old(self).wf(),
        ensures
            final(self).wf(),
            final(self).spec_config() == old(self).spec_config(),
            r is Ok <==> {
                &&& old(self).spec_partners().contains_key(account_id)
                &&& transition_allowed(
                    old(self).spec_partners()[account_id].status,
                    new_status,
                )
            },
            r == Err::<Event, Error>(Error::NotFound) <==> !old(
                self,
            ).spec_partners().contains_key(account_id),
            r == Err::<Event, Error>(Error::InvalidStatusTransition) <==> {
                &&& old(self).spec_partners().contains_key(account_id)
                &&& !transition_allowed(
                    old(self).spec_partners()[account_id].status,
                    new_status,
                )
            },
            r is Ok ==> {
                &&& final(self).spec_partners() == old(self).spec_partners().insert(
                    account_id,
                    (with_status(old(self).spec_partners()[account_id], new_status)),
                )
                &&& forall|t: PartnerType| #[trigger]
                    final(self).spec_members(t) == old(self).spec_members(t)
                &&& final(self).spec_grants() == old(self).spec_grants()
                &&& r == Ok::<Event, Error>(
                    Event::PartnerStatusUpdated {
                        account_id,
                        old_status: old(self).spec_partners()[account_id].status,
                        new_status,
                    },
                )
            },
            r is Err ==> *final(self) == *old(self),
    {
        let old_status = match self.partners.get(&account_id) {
            Option::Some(p) => p.status,
            Option::None => return Err(Error::NotFound),
        };
        if !is_transition_allowed(old_status, new_status) {
            return Err(Error::InvalidStatusTransition);
        }
        let mut info = self.partners.remove(&account_id).unwrap();
        info.status = new_status;
        proof {
            assert(info == with_status(old(self).spec_partners()[account_id], new_status));
        }
        self.partners.insert(account_id, info);
        proof {
            let pre = *old(self);
            let post = *self;
            assert(post.spec_partners() =~= pre.spec_partners().insert(
                account_id,
                post.spec_partners()[account_id],
            ));
            Self::lemma_record_update_preserves_wf(
                pre,
                post,
                account_id,
                post.spec_partners()[account_id],
            );
        }
        Ok(Event::PartnerStatusUpdated { account_id, old_status, new_status })
    }

    /// Updates only the provided profile fields of the caller's own record.
    /// Fails with NotFound for an unknown identity and with the length
    /// errors — name checked before description — when a provided field
    /// exceeds its bound, leaving the state untouched on every error.
    pub fn update_partner(
        &mut self,
        account_id: u64,
        name: Option<Vec<u8>>,
        description: Option<Vec<u8>>,
    ) -> (r: Result<Event, Error>)
        requires
            old(self).wf(),
        ensures
            final(self).wf(),
            final(self).spec_config() == old(self).spec_config(),
            r is Ok <==> {
                &&& old(self).spec_partners().contains_key(account_id)
                &&& (name matches Option::Some(n) ==> n@.len() <= old(
                    self,
                ).spec_config().max_name_len)
                &&& (description matches Option::Some(d) ==> d@.len() <= old(
                    self,
                ).spec_config().max_description_len)
            },
            r == Err::<Event, Error>(Error::NotFound) <==> !old(
                self,
            ).spec_partners().contains_key(account_id),
            r == Err::<Event, Error>(Error::NameTooLong) <==> {
                &&& old(self).spec_partners().contains_key(account_id)
                &&& (name matches Option::Some(n) && n@.len() > old(
                    self,
                ).spec_config().max_name_len)
            },
            r == Err::<Event, Error>(Error::DescriptionTooLong) <==> {
                &&& old(self).spec_partners().contains_key(account_id)
                &&& (name matches Option::Some(n) ==> n@.len() <= old(
                    self,
                ).spec_config().max_name_len)
                &&& (description matches Option::Some(d) && d@.len() > old(
                    self,
                ).spec_config().max_description_len)
            },
            r is Ok ==> {
                &&& final(self).spec_partners() == old(self).spec_partners().insert(
                    account_id,
                    (with_profile(old(self).spec_partners()[account_id], name, description)),
                )
                &&& forall|t: PartnerType| #[trigger]
                    final(self).spec_members(t) == old(self).spec_members(t)
                &&& final(self).spec_grants() == old(self).spec_grants()
                &&& r == Ok::<Event, Error>(Event::PartnerUpdated { account_id })
            },
            r is Err ==> *final(self) == *old(self),
    {
        if !self.partners.contains_key(&account_id) {
            return Err(Error::NotFound);
        }
        if let Option::Some(n) = &name {
            if n.len() > self.config.max_name_len {
                return Err(Error::NameTooLong);
            }
        }
        if let Option::Some(d) = &description {
            if d.len() > self.config.max_description_len {
                return Err(Error::DescriptionTooLong);
            }
        }
        let mut info = self.partners.remove(&account_id).unwrap();
        match name {
            Option::Some(n) => {
                info.name = n;
            },
            Option::None => {},
        }
        match description {
            Option::Some(d) => {
                info.description = d;
            },
            Option::None => {},
        }
        proof {
            assert(info == with_profile(old(self).spec_partners()[account_id], name, description));
        }
        self.partners.insert(account_id, info);
        proof {
            let pre = *old(self);
            let post = *self;
            assert(post.spec_partners() =~= pre.spec_partners().insert(
                account_id,
                post.spec_partners()[account_id],
            ));
            Self::lemma_record_update_preserves_wf(
                pre,
                post,
                account_id,
                post.spec_partners()[account_id],
            );
        }
        Ok(Event::PartnerUpdated { account_id })
    }

    /// Appends a certification token to the caller's own record. Fails with
    /// NotFound for an unknown identity and with TooManyCertifications once
    /// the configured bound is reached, leaving the state untouched.
    pub fn add_certification(&mut self, account_id: u64, certification: Vec<u8>) -> (r: Result<
        Event,
        Error,
    >)
        requires
            old(self).wf(),
        ensures
            final(self).wf(),
            final(self).spec_config() == old(self).spec_config(),
            r is Ok <==> {
                &&& old(self).spec_partners().contains_key(account_id)
                &&& old(self).spec_partners()[account_id].certifications@.len() < old(
                    self,
                ).spec_config().max_certifications
            },
            r == Err::<Event, Error>(Error::NotFound) <==> !old(
                self,
            ).spec_partners().contains_key(account_id),
            r == Err::<Event, Error>(Error::TooManyCertifications) <==> {
                &&& old(self).spec_partners().contains_key(account_id)
                &&& old(self).spec_partners()[account_id].certifications@.len() >= old(
                    self,
                ).spec_config().max_certifications
            },
            r is Ok ==> {
                &&& final(self).spec_partners().contains_key(account_id)
                &&& certification_added(
                    old(self).spec_partners()[account_id],
                    final(self).spec_partners()[account_id],
                    certification@,
                )
                &&& final(self).spec_partners().remove(account_id) == old(
                    self,
                ).spec_partners().remove(account_id)
                &&& forall|t: PartnerType| #[trigger]
                    final(self).spec_members(t) == old(self).spec_members(t)
                &&& final(self).spec_grants() == old(self).spec_grants()
                &&& r == Ok::<Event, Error>(
                    Event::CertificationAdded { account_id, certification },
                )
            },
            r is Err ==> *final(self) == *old(self),
    {
        let cert_count = match self.partners.get(&account_id) {
            Option::Some(p) => p.certifications.len(),
            Option::None => return Err(Error::NotFound),
        };
        if cert_count >= self.config.max_certifications {
            return Err(Error::TooManyCertifications);
        }
        let stored = clone_bytes(&certification);
        let mut info = self.partners.remove(&account_id).unwrap();
        info.certifications.push(stored);
        self.partners.insert(account_id, info);
        proof {
            let pre = *old(self);
            let post = *self;
            assert(post.spec_partners() =~= pre.spec_partners().insert(
                account_id,
                post.spec_partners()[account_id],
            ));
            assert(post.spec_partners().remove(account_id) =~= pre.spec_partners().remove(
                account_id,
            ));
            Self::lemma_record_update_preserves_wf(
                pre,
                post,
                account_id,
                post.spec_partners()[account_id],
            );
        }
        Ok(Event::CertificationAdded { account_id, certification })
    }

    /// Applies a signed delta to a partner's reputation, saturating so the
    /// score always lands in [0, 1000]. Privileged: the boundary layer must
    /// have checked the caller's elevated authority. Fails only with
    /// NotFound for an unknown identity, leaving the state untouched.
    pub fn update_reputation(&mut self, account_id: u64, score_delta: i64) -> (r: Result<
        Event,
        Error,
    >)
        requires
            old(self).wf(),
        ensures
            final(self).wf(),
            final(self).spec_config() == old(self).spec_config(),
            r is Ok <==> old(self).spec_partners().contains_key(account_id),
            r == Err::<Event, Error>(Error::NotFound) <==> !old(
                self,
            ).spec_partners().contains_key(account_id),
            r is Ok ==> {
                &&& final(self).spec_partners()[account_id].reputation_score == clamped_score(
                    old(self).spec_partners()[account_id].reputation_score as int,
                    score_delta as int,
                )
                &&& final(self).spec_partners() == old(self).spec_partners().insert(
                    account_id,
                    (with_score(
                        old(self).spec_partners()[account_id],
                        final(self).spec_partners()[account_id].reputation_score,
                    )),
                )
                &&& forall|t: PartnerType| #[trigger]
                    final(self).spec_members(t) == old(self).spec_members(t)
                &&& final(self).spec_grants() == old(self).spec_grants()
                &&& r == Ok::<Event, Error>(
                    Event::ReputationUpdated {
                        account_id,
                        old_score: old(self).spec_partners()[account_id].reputation_score,
                        new_score: final(self).spec_partners()[account_id].reputation_score,
                    },
                )
            },
            r is Err ==> *final(self) == *old(self),
    {
        let old_score = match self.partners.get(&account_id) {
            Option::Some(p) => p.reputation_score,
            Option::None => return Err(Error::NotFound),
        };
        let new_score = apply_delta(old_score, score_delta);
        let mut info = self.partners.remove(&account_id).unwrap();
        info.reputation_score = new_score;
        proof {
            assert(info == with_score(old(self).spec_partners()[account_id], new_score));
        }
        self.partners.insert(account_id, info);
        proof {
            let pre = *old(self);
            let post = *self;
            assert(post.spec_partners() =~= pre.spec_partners().insert(
                account_id,
                post.spec_partners()[account_id],
            ));
            Self::lemma_record_update_preserves_wf(
                pre,
                post,
                account_id,
                post.spec_partners()[account_id],
            );
        }
        Ok(Event::ReputationUpdated { account_id, old_score, new_score })
    }

    /// Records a new capability grant from `grantor` to `grantee` for one
    /// data category. Both parties must be registered — any status will do —
    /// and duplicate grants for the same category are kept, not merged.
    /// Fails only with NotFound, leaving the state untouched.
    pub fn grant_permission(
        &mut self,
        grantor: u64,
        grantee: u64,
        data_type: Vec<u8>,
        read_access: bool,
        write_access: bool,
        expiry_height: Option<u64>,
    ) -> (r: Result<Event, Error>)
        requires
            old(self).wf(),
        ensures
            final(self).wf(),
            final(self).spec_config() == old(self).spec_config(),
            r is Ok <==> {
                &&& old(self).spec_partners().contains_key(grantor)
                &&& old(self).spec_partners().contains_key(grantee)
            },
            r == Err::<Event, Error>(Error::NotFound) <==> !{
                &&& old(self).spec_partners().contains_key(grantor)
                &&& old(self).spec_partners().contains_key(grantee)
            },
            r is Ok ==> {
                &&& final(self).spec_grants() == old(self).spec_grants().push(
                    (GrantRecord {
                        grantor,
                        grantee,
                        permission: AccessPermission {
                            data_type,
                            read_access,
                            write_access,
                            expiry_height,
                        },
                    }),
                )
                &&& final(self).spec_partners() == old(self).spec_partners()
                &&& forall|t: PartnerType| #[trigger]
                    final(self).spec_members(t) == old(self).spec_members(t)
                &&& r == Ok::<Event, Error>(Event::PermissionGranted { grantor, grantee })
            },
            r is Err ==> *final(self) == *old(self),
    {
        if !self.partners.contains_key(&grantor) {
            return Err(Error::NotFound);
        }
        if !self.partners.contains_key(&grantee) {
            return Err(Error::NotFound);
        }
        let record = GrantRecord {
            grantor,
            grantee,
            permission: AccessPermission { data_type, read_access, write_access, expiry_height },
        };
        self.grants.push(record);
        proof {
            let pre = *old(self);
            let post = *self;
            assert forall|i: int|
                0 <= i < post.spec_grants().len() implies {
                &&& post.spec_partners().contains_key(#[trigger] post.spec_grants()[i].grantor)
                &&& post.spec_partners().contains_key(post.spec_grants()[i].grantee)
            } by {
                if i < pre.spec_grants().len() {
                    assert(post.spec_grants()[i] == pre.spec_grants()[i]);
                    assert(pre.spec_partners().contains_key(pre.spec_grants()[i].grantor));
                    assert(pre.spec_partners().contains_key(pre.spec_grants()[i].grantee));
                } else {
                    assert(post.spec_grants()[i] == post.spec_grants().last());
                }
            }
            Self::lemma_grants_update_preserves_wf(pre, post);
        }
        Ok(Event::PermissionGranted { grantor, grantee })
    }

    /// Removes every grant of category `data_type` between the pair
    /// (grantor, grantee) — duplicates included — and keeps every other
    /// grant in order. A pair with no matching grant is a no-op success;
    /// the operation never fails.
    pub fn revoke_permission(&mut self, grantor: u64, grantee: u64, data_type: Vec<u8>) -> (r:
        Result<Event, Error>)
        requires
            old(self).wf(),
        ensures
            final(self).wf(),
            final(self).spec_config() == old(self).spec_config(),
            final(self).spec_partners() == old(self).spec_partners(),
            forall|t: PartnerType| #[trigger]
                final(self).spec_members(t) == old(self).spec_members(t),
            final(self).spec_grants() == remove_category(
                old(self).spec_grants(),
                grantor,
                grantee,
                data_type@,
            ),
            forall|i: int|
                0 <= i < final(self).spec_grants().len() ==> !revocation_hits(
                    #[trigger] final(self).spec_grants()[i],
                    grantor,
                    grantee,
                    data_type@,
                ),
            r == Ok::<Event, Error>(Event::PermissionRevoked { grantor, grantee }),
    {
        let ghost orig = self.grants@;
        let mut kept: Vec<GrantRecord> = Vec::new();
        while self.grants.len() > 0
            invariant
                self.spec_config() == old(self).spec_config(),
                self.spec_partners() == old(self).spec_partners(),
                self.type_index == old(self).type_index,
                self.grants@.len() <= orig.len(),
                self.grants@ == orig.subrange(
                    orig.len() - self.grants@.len(),
                    orig.len() as int,
                ),
                kept@ == remove_category(
                    orig.take(orig.len() - self.grants@.len()),
                    grantor,
                    grantee,
                    data_type@,
                ),
            decreases self.grants@.len(),
        {
            let ghost k = orig.len() - self.grants@.len();
            let g = self.grants.remove(0);
            proof {
                assert(g == orig[k]);
                assert(self.grants@ =~= orig.subrange(k + 1, orig.len() as int));
            }
            let hit = g.grantor == grantor && g.grantee == grantee && bytes_eq(
                &g.permission.data_type,
                &data_type,
            );
            proof {
                assert(hit == revocation_hits(g, grantor, grantee, data_type@));
                assert(orig.take(k + 1).drop_last() =~= orig.take(k));
                assert(orig.take(k + 1).last() == orig[k]);
            }
            if !hit {
                kept.push(g);
            }
        }
        proof {
            assert(orig.take(orig.len() as int) =~= orig);
        }
        self.grants = kept;
        proof {
            let pre = *old(self);
            let post = *self;
            let rc = remove_category(orig, grantor, grantee, data_type@);
            assert(post.spec_grants() == rc);
            assert forall|t: PartnerType| #[trigger] post.spec_members(t) == pre.spec_members(
                t,
            ) by {
                assert(post.type_index == pre.type_index);
            }
            lemma_remove_category_complete(orig, grantor, grantee, data_type@);
            assert forall|i: int|
                0 <= i < post.spec_grants().len() implies {
                &&& post.spec_partners().contains_key(#[trigger] post.spec_grants()[i].grantor)
                &&& post.spec_partners().contains_key(post.spec_grants()[i].grantee)
            } by {
                assert(post.spec_grants()[i] == rc[i]);
                assert(orig.contains(rc[i]));
                let j = choose|j: int| 0 <= j < orig.len() && orig[j] == rc[i];
                assert(pre.spec_grants()[j] == orig[j]);
                assert(pre.spec_partners().contains_key(pre.spec_grants()[j].grantor));
                assert(pre.spec_partners().contains_key(pre.spec_grants()[j].grantee));
            }
            Self::lemma_grants_update_preserves_wf(pre, post);
        }
        Ok(Event::PermissionRevoked { grantor, grantee })
    }

    /// Answers "may `grantee` access category `data_type` of `grantor`,
    /// for writing iff `write_access`, at height `at_height`": true iff
    /// some grant of the pair covers the category, has the requested
    /// access flag set, and has no expiry or one strictly above
    /// `at_height`. Pure lookup — absence of a grant is `false`, never an
    /// error.
    pub fn has_permission(
        &self,
        grantor: u64,
        grantee: u64,
        data_type: &Vec<u8>,
        write_access: bool,
        at_height: u64,
    ) -> (r: bool)
        ensures
            r == seq_has_permission(
                self.spec_grants(),
                grantor,
                grantee,
                data_type@,
                write_access,
                at_height,
            ),
    {
        let n = self.grants.len();
        let mut i: usize = 0;
        while i < n
            invariant
                n == self.spec_grants().len(),
                i <= n,
                forall|j: int|
                    0 <= j < i ==> !grant_matches(
                        #[trigger] self.spec_grants()[j],
                        grantor,
                        grantee,
                        data_type@,
                        write_access,
                        at_height,
                    ),
            decreases n - i,
        {
            let g = &self.grants[i];
            if g.grantor == grantor && g.grantee == grantee && bytes_eq(
                &g.permission.data_type,
                data_type,
            ) {
                let flag_set = if write_access {
                    g.permission.write_access
                } else {
                    g.permission.read_access
                };
                if flag_set {
                    let live = match g.permission.expiry_height {
                        Option::Some(expiry) => at_height < expiry,
                        Option::None => true,
                    };
                    if live {
                        proof {
                            assert(grant_matches(
                                self.spec_grants()[i as int],
                                grantor,
                                grantee,
                                data_type@,
                                write_access,
                                at_height,
                            ));
                        }
                        return true;
                    }
                }
            }
            i += 1;
        }
        false
    }

    /// Law: identities key the directory. Two registered identities whose
    /// records carry the same account id are the same identity holding the
    /// same single record — the registry cannot hold two records for one
    /// identity.
    pub proof fn lemma_partner_record_unique(r: Registry, a: u64, b: u64)
        requires
            r.wf(),
            r.spec_partners().contains_key(a),
            r.spec_partners().contains_key(b),
            r.spec_partners()[a].account_id == r.spec_partners()[b].account_id,
        ensures
            a == b,
            r.spec_partners()[a] == r.spec_partners()[b],
    {
    }

    /// Law: in any well-formed registry — so after any sequence of
    /// operations — every registered partner's reputation score lies
    /// within [0, 1000].
    pub proof fn lemma_reputation_invariant(r: Registry, account_id: u64)
        requires
            r.wf(),
            r.spec_partners().contains_key(account_id),
        ensures
            r.spec_partners()[account_id].reputation_score
                <= crate::reputation::MAX_REPUTATION,
    {
    }
}

} // verus!
