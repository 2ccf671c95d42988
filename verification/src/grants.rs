//! The grant ledger's mathematical core: which grants answer an access
//! query, and what revoking a category leaves behind.

use vstd::prelude::*;
use crate::types::{AccessPermission, GrantRecord};

verus! {

/// A grant is live at `at_height` when it has no expiry, or its expiry
/// height is still strictly in the future. A grant whose expiry height is
/// at or below the query height is dead.
pub open spec fn grant_live(permission: AccessPermission, at_height: u64) -> bool {
    match permission.expiry_height {
        Option::None => true,
        Option::Some(expiry) => at_height < expiry,
    }
}

/// Whether one ledger entry covers the query "may `grantee` access category
/// `data_type` of `grantor`, with write access iff `write_access`" — the
/// timeless part, expiry left aside.
pub open spec fn grant_applies(
    grant: GrantRecord,
    grantor: u64,
    grantee: u64,
    data_type: Seq<u8>,
    write_access: bool,
) -> bool {
    &&& grant.grantor == grantor
    &&& grant.grantee == grantee
    &&& grant.permission.data_type@ == data_type
    &&& if write_access {
        grant.permission.write_access
    } else {
        grant.permission.read_access
    }
}

/// Whether one ledger entry answers the query at `at_height`: it covers the
/// query and is still live.
pub open spec fn grant_matches(
    grant: GrantRecord,
    grantor: u64,
    grantee: u64,
    data_type: Seq<u8>,
    write_access: bool,
    at_height: u64,
) -> bool {
    &&& grant_applies(grant, grantor, grantee, data_type, write_access)
    &&& grant_live(grant.permission, at_height)
}

/// Law: a grant whose expiry height is at or below the query height never
/// answers a query, whatever else it says; a grant with no expiry, or with
/// an expiry strictly above the query height, answers exactly the queries
/// it covers.
pub proof fn lemma_expiry_boundary(
    grant: GrantRecord,
    grantor: u64,
    grantee: u64,
    data_type: Seq<u8>,
    write_access: bool,
    at_height: u64,
)
    ensures
        (grant.permission.expiry_height matches Option::Some(e) && e <= at_height)
            ==> !grant_matches(grant, grantor, grantee, data_type, write_access, at_height),
        grant_live(grant.permission, at_height) ==> grant_matches(
            grant,
            grantor,
            grantee,
            data_type,
            write_access,
            at_height,
        ) == grant_applies(grant, grantor, grantee, data_type, write_access),
{
}

/// The ledger answers a query iff some entry matches it.
pub open spec fn seq_has_permission(
    grants: Seq<GrantRecord>,
    grantor: u64,
    grantee: u64,
    data_type: Seq<u8>,
    write_access: bool,
    at_height: u64,
) -> bool {
    exists|i: int|
        0 <= i < grants.len() && grant_matches(
            #[trigger] grants[i],
            grantor,
            grantee,
            data_type,
            write_access,
            at_height,
        )
}

/// Whether a ledger entry is addressed by a revocation of `data_type`
/// between the pair (grantor, grantee).
pub open spec fn revocation_hits(
    grant: GrantRecord,
    grantor: u64,
    grantee: u64,
    data_type: Seq<u8>,
) -> bool {
    &&& grant.grantor == grantor
    &&& grant.grantee == grantee
    &&& grant.permission.data_type@ == data_type
}

/// The ledger after revoking `data_type` between (grantor, grantee):
/// every hit entry is removed, every other entry is kept in order.
pub open spec fn remove_category(
    grants: Seq<GrantRecord>,
    grantor: u64,
    grantee: u64,
    data_type: Seq<u8>,
) -> Seq<GrantRecord>
    decreases grants.len(),
{
    if grants.len() == 0 {
        Seq::empty()
    } else {
        let rest = remove_category(grants.drop_last(), grantor, grantee, data_type);
        if revocation_hits(grants.last(), grantor, grantee, data_type) {
            rest
        } else {
            rest.push(grants.last())
        }
    }
}

/// Law: revocation removes every grant of the category between the pair —
/// duplicates included — and keeps every other grant.
pub proof fn lemma_remove_category_complete(
    grants: Seq<GrantRecord>,
    grantor: u64,
    grantee: u64,
    data_type: Seq<u8>,
)
    ensures
        forall|i: int|
            0 <= i < remove_category(grants, grantor, grantee, data_type).len()
                ==> !revocation_hits(
                #[trigger] remove_category(grants, grantor, grantee, data_type)[i],
                grantor,
                grantee,
                data_type,
            ),
        forall|i: int|
            0 <= i < grants.len() && !revocation_hits(#[trigger] grants[i], grantor, grantee, data_type)
                ==> remove_category(grants, grantor, grantee, data_type).contains(grants[i]),
        forall|i: int|
            0 <= i < remove_category(grants, grantor, grantee, data_type).len()
                ==> grants.contains(#[trigger] remove_category(grants, grantor, grantee, data_type)[i]),
    decreases grants.len(),
{
    if grants.len() > 0 {
        lemma_remove_category_complete(grants.drop_last(), grantor, grantee, data_type);
        let prefix = grants.drop_last();
        let removed_prefix = remove_category(prefix, grantor, grantee, data_type);
        assert forall|i: int|
            0 <= i < grants.len() && !revocation_hits(#[trigger] grants[i], grantor, grantee, data_type)
                implies remove_category(grants, grantor, grantee, data_type).contains(
            grants[i],
        ) by {
            let result = remove_category(grants, grantor, grantee, data_type);
            if i < prefix.len() {
                assert(prefix[i] == grants[i]);
                assert(removed_prefix.contains(grants[i]));
                let j = choose|j: int| 0 <= j < removed_prefix.len() && removed_prefix[j] == grants[i];
                if revocation_hits(grants.last(), grantor, grantee, data_type) {
                    assert(result[j] == grants[i]);
                } else {
                    assert(result[j] == grants[i]);
                }
            } else {
                assert(grants[i] == grants.last());
                assert(result.last() == grants.last());
            }
        }
        assert forall|i: int|
            0 <= i < remove_category(grants, grantor, grantee, data_type).len()
                implies grants.contains(
            #[trigger] remove_category(grants, grantor, grantee, data_type)[i],
        ) by {
            let result = remove_category(grants, grantor, grantee, data_type);
            if i < removed_prefix.len() {
                assert(result[i] == removed_prefix[i]);
                assert(prefix.contains(removed_prefix[i]));
                let j = choose|j: int| 0 <= j < prefix.len() && prefix[j] == removed_prefix[i];
                assert(grants[j] == result[i]);
            } else {
                assert(result[i] == grants.last());
                assert(grants[grants.len() - 1] == grants.last());
            }
        }
    }
}

/// Law: a revocation never makes a query true that was false before; after
/// revoking a category, no query on that category between the pair succeeds.
pub proof fn lemma_revoked_category_denied(
    grants: Seq<GrantRecord>,
    grantor: u64,
    grantee: u64,
    data_type: Seq<u8>,
    write_access: bool,
    at_height: u64,
)
    ensures
        !seq_has_permission(
            remove_category(grants, grantor, grantee, data_type),
            grantor,
            grantee,
            data_type,
            write_access,
            at_height,
        ),
{
    lemma_remove_category_complete(grants, grantor, grantee, data_type);
    let result = remove_category(grants, grantor, grantee, data_type);
    assert forall|i: int| 0 <= i < result.len() implies !grant_matches(
        #[trigger] result[i],
        grantor,
        grantee,
        data_type,
        write_access,
        at_height,
    ) by {
        assert(!revocation_hits(result[i], grantor, grantee, data_type));
    }
}

} // verus!
