use vstd::prelude::*;
use crate::constants::REALM_MASTER_LEN;
use crate::errors::ErrorCode;
use crate::events::{RealmEvent, RealmEventType};
use crate::master::{RealmMaster, RealmMasterRole};
use crate::pubkey::Pubkey;
use crate::realm::{
    is_master, keys_unique, lemma_master_index_unique, master_index, role_of, sole_owner_at, Realm,
};

verus! {

/// `b` is `a` with only its masters and its update time changed.
pub open spec fn same_except_masters(a: Realm, b: Realm) -> bool {
    &&& a.description == b.description
    &&& a.created_at == b.created_at
    &&& a.dimensions == b.dimensions
    &&& a.starting_dimension == b.starting_dimension
    &&& a.starting_position == b.starting_position
}

/// The list after `swap_remove(i)`: the last entry takes the place of entry `i`.
pub open spec fn swap_removed(s: Seq<RealmMaster>, i: int) -> Seq<RealmMaster> {
    s.update(i, s.last()).drop_last()
}

/// The masters after `from` hands ownership to `to`: `from` becomes an
/// admin, then `to` becomes the owner.
pub open spec fn transferred(masters: Seq<RealmMaster>, from: Pubkey, to: Pubkey) -> Seq<
    RealmMaster,
> {
    masters.update(
        master_index(masters, from),
        RealmMaster { pubkey: from, role: RealmMasterRole::Admin },
    ).update(master_index(masters, to), RealmMaster { pubkey: to, role: RealmMasterRole::Owner })
}

/// Adds `new_master_pubkey` as an admin; the owner only.
pub fn add_realm_master(
    realm: &mut Realm,
    realm_key: Pubkey,
    caller: Pubkey,
    new_master_pubkey: Pubkey,
    now: i64,
) -> (r: Result<RealmEvent, ErrorCode>)
    requires
        old(realm).wf(),
    ensures
        final(realm).wf(),
        !old(realm).may_manage_masters(caller) ==> r == Err::<RealmEvent, ErrorCode>(
            ErrorCode::UnauthorizedRealmMaster,
        ),
        old(realm).may_manage_masters(caller) && is_master(old(realm).masters@, new_master_pubkey)
            ==> r == Err::<RealmEvent, ErrorCode>(ErrorCode::DuplicateRealmMaster),
        r is Ok <==> old(realm).may_manage_masters(caller) && !is_master(
            old(realm).masters@,
            new_master_pubkey,
        ),
        r is Err ==> *final(realm) == *old(realm),
        r matches Ok(event) ==> {
            let added = RealmMaster { pubkey: new_master_pubkey, role: RealmMasterRole::Admin };
            &&& final(realm).masters@ == old(realm).masters@.push(added)
            &&& final(realm).updated_at == now
            &&& same_except_masters(*old(realm), *final(realm))
            &&& final(realm).space_spec() == old(realm).space_spec() + REALM_MASTER_LEN
            &&& event == (RealmEvent {
                event_type: RealmEventType::RealmMasterAdded { master: added },
                realm_pubkey: realm_key,
            })
        },
{
    let allowed = match realm.find_master(&caller) {
        Some(i) => realm.masters[i].can_manage_realm_masters(),
        None => false,
    };
    if !allowed {
        return Err(ErrorCode::UnauthorizedRealmMaster);
    }
    if realm.find_master(&new_master_pubkey).is_some() {
        return Err(ErrorCode::DuplicateRealmMaster);
    }
    let master = RealmMaster { pubkey: new_master_pubkey, role: RealmMasterRole::Admin };
    let ghost before = realm.masters@;
    realm.masters.push(master);
    realm.updated_at = now;
    proof {
        let after = realm.masters@;
        let o = choose|o: int| sole_owner_at(before, o);
        assert(sole_owner_at(after, o));
        assert(keys_unique(after)) by {
            assert forall|i: int, j: int|
                0 <= i < after.len() && 0 <= j < after.len() && i != j implies after[i].pubkey
                != after[j].pubkey by {
                if i == before.len() as int {
                    assert(before[j].pubkey != new_master_pubkey);
                } else if j == before.len() as int {
                    assert(before[i].pubkey != new_master_pubkey);
                }
            }
        }
        assert(realm.masters@.len() == before.len() + 1);
    }
    Ok(RealmEvent {
        event_type: RealmEventType::RealmMasterAdded { master },
        realm_pubkey: realm_key,
    })
}

/// Removes the master `master_pubkey`; the owner only. The owner itself can
/// never be removed, whoever asks. The last master takes the removed one's place.
pub fn remove_realm_master(
    realm: &mut Realm,
    realm_key: Pubkey,
    caller: Pubkey,
    master_pubkey: Pubkey,
    now: i64,
) -> (r: Result<RealmEvent, ErrorCode>)
    requires
        old(realm).wf(),
    ensures
        final(realm).wf(),
        role_of(old(realm).masters@, master_pubkey) == Some(RealmMasterRole::Owner) ==> r == Err::<
            RealmEvent,
            ErrorCode,
        >(ErrorCode::CantRemoveRealmOwner),
        role_of(old(realm).masters@, master_pubkey) != Some(RealmMasterRole::Owner) && !old(
            realm,
        ).may_manage_masters(caller) ==> r == Err::<RealmEvent, ErrorCode>(
            ErrorCode::UnauthorizedRealmMaster,
        ),
        old(realm).may_manage_masters(caller) && !is_master(old(realm).masters@, master_pubkey)
            ==> r == Err::<RealmEvent, ErrorCode>(ErrorCode::RealmMasterNotFound),
        r is Ok <==> old(realm).may_manage_masters(caller) && is_master(
            old(realm).masters@,
            master_pubkey,
        ) && role_of(old(realm).masters@, master_pubkey) != Some(RealmMasterRole::Owner),
        r is Err ==> *final(realm) == *old(realm),
        r matches Ok(event) ==> {
            let i = master_index(old(realm).masters@, master_pubkey);
            &&& final(realm).masters@ == swap_removed(old(realm).masters@, i)
            &&& final(realm).updated_at == now
            &&& same_except_masters(*old(realm), *final(realm))
            &&& final(realm).space_spec() + REALM_MASTER_LEN == old(realm).space_spec()
            &&& event == (RealmEvent {
                event_type: RealmEventType::RealmMasterRemoved { master: old(realm).masters@[i] },
                realm_pubkey: realm_key,
            })
        },
{
    let target = realm.find_master(&master_pubkey);
    if let Some(t) = target {
        if realm.masters[t].role == RealmMasterRole::Owner {
            return Err(ErrorCode::CantRemoveRealmOwner);
        }
    }
    let allowed = match realm.find_master(&caller) {
        Some(i) => realm.masters[i].can_manage_realm_masters(),
        None => false,
    };
    if !allowed {
        return Err(ErrorCode::UnauthorizedRealmMaster);
    }
    let index = match target {
        Some(i) => i,
        None => {
            return Err(ErrorCode::RealmMasterNotFound);
        },
    };
    let ghost before = realm.masters@;
    let master = realm.masters.swap_remove(index);
    realm.updated_at = now;
    proof {
        let after = realm.masters@;
        let o = choose|o: int| sole_owner_at(before, o);
        assert(o != index);
        let last = before.len() - 1;
        // The owner either stays where it was or, being last, moves into the gap.
        let o2 = if o == last {
            index as int
        } else {
            o
        };
        assert(sole_owner_at(after, o2)) by {
            assert forall|j: int|
                0 <= j < after.len() && #[trigger] after[j].role == RealmMasterRole::Owner implies j
                == o2 by {
                if j == index {
                    assert(after[j] == before[last]);
                } else {
                    assert(after[j] == before[j]);
                }
            }
        }
        assert(keys_unique(after)) by {
            assert forall|i: int, j: int|
                0 <= i < after.len() && 0 <= j < after.len() && i != j implies after[i].pubkey
                != after[j].pubkey by {
                let bi = if i == index {
                    last
                } else {
                    i
                };
                let bj = if j == index {
                    last
                } else {
                    j
                };
                assert(after[i] == before[bi]);
                assert(after[j] == before[bj]);
            }
        }
    }
    Ok(RealmEvent {
        event_type: RealmEventType::RealmMasterRemoved { master },
        realm_pubkey: realm_key,
    })
}

/// Makes `new_owner_pubkey` the owner and the calling owner an admin.
pub fn transfer_realm_ownership(
    realm: &mut Realm,
    realm_key: Pubkey,
    caller: Pubkey,
    new_owner_pubkey: Pubkey,
    now: i64,
) -> (r: Result<RealmEvent, ErrorCode>)
    requires
        old(realm).wf(),
    ensures
        final(realm).wf(),
        !old(realm).may_manage_masters(caller) ==> r == Err::<RealmEvent, ErrorCode>(
            ErrorCode::UnauthorizedRealmMaster,
        ),
        old(realm).may_manage_masters(caller) && !is_master(old(realm).masters@, new_owner_pubkey)
            ==> r == Err::<RealmEvent, ErrorCode>(ErrorCode::RealmMasterNotFound),
        r is Ok <==> old(realm).may_manage_masters(caller) && is_master(
            old(realm).masters@,
            new_owner_pubkey,
        ),
        r is Err ==> *final(realm) == *old(realm),
        r matches Ok(event) ==> {
            let m = transferred(old(realm).masters@, caller, new_owner_pubkey);
            &&& final(realm).masters@ == m
            &&& final(realm).updated_at == now
            &&& same_except_masters(*old(realm), *final(realm))
            &&& event == (RealmEvent {
                event_type: RealmEventType::RealmOwnershipTransferred {
                    old_owner: m[master_index(old(realm).masters@, caller)],
                    new_owner: m[master_index(old(realm).masters@, new_owner_pubkey)],
                },
                realm_pubkey: realm_key,
            })
        },
{
    let old_index = match realm.find_master(&caller) {
        Some(i) => i,
        None => {
            return Err(ErrorCode::UnauthorizedRealmMaster);
        },
    };
    if !realm.masters[old_index].can_manage_realm_masters() {
        return Err(ErrorCode::UnauthorizedRealmMaster);
    }
    let new_index = match realm.find_master(&new_owner_pubkey) {
        Some(i) => i,
        None => {
            return Err(ErrorCode::RealmMasterNotFound);
        },
    };
    let ghost before = realm.masters@;
    realm.masters.set(old_index, RealmMaster { pubkey: caller, role: RealmMasterRole::Admin });
    realm.masters.set(
        new_index,
        RealmMaster { pubkey: new_owner_pubkey, role: RealmMasterRole::Owner },
    );
    realm.updated_at = now;
    proof {
        let after = realm.masters@;
        let o = choose|o: int| sole_owner_at(before, o);
        assert(o == old_index);
        assert(sole_owner_at(after, new_index as int)) by {
            assert forall|j: int|
                0 <= j < after.len() && #[trigger] after[j].role == RealmMasterRole::Owner implies j
                == new_index by {
                if j != new_index && j != old_index {
                    assert(after[j] == before[j]);
                }
            }
        }
        assert forall|j: int| 0 <= j < after.len() implies after[j].pubkey == before[j].pubkey by {}
        assert(keys_unique(after));
    }
    let old_owner = realm.masters[old_index];
    let new_owner = realm.masters[new_index];
    Ok(RealmEvent {
        event_type: RealmEventType::RealmOwnershipTransferred { old_owner, new_owner },
        realm_pubkey: realm_key,
    })
}

/// Handing ownership from the owner to an admin (or to itself) and straight
/// back restores every master and role exactly; after the first hand-over the
/// receiver is the owner, so it may hand ownership back.
pub proof fn lemma_transfer_and_back(masters: Seq<RealmMaster>, owner: Pubkey, other: Pubkey)
    requires
        keys_unique(masters),
        role_of(masters, owner) == Some(RealmMasterRole::Owner),
        role_of(masters, other) == Some(RealmMasterRole::Admin) || other == owner,
    ensures
        role_of(transferred(masters, owner, other), other) == Some(RealmMasterRole::Owner),
        transferred(transferred(masters, owner, other), other, owner) == masters,
{
    let i = master_index(masters, owner);
    let j = master_index(masters, other);
    assert(is_master(masters, owner));
    assert(is_master(masters, other));
    let m1 = transferred(masters, owner, other);
    assert forall|k: int| 0 <= k < m1.len() implies m1[k].pubkey == masters[k].pubkey by {}
    assert(keys_unique(m1));
    lemma_master_index_unique(m1, other, j);
    lemma_master_index_unique(m1, owner, i);
    let m2 = transferred(m1, other, owner);
    assert(masters[i] == RealmMaster { pubkey: owner, role: RealmMasterRole::Owner });
    if i != j {
        assert(masters[j] == RealmMaster { pubkey: other, role: RealmMasterRole::Admin });
    }
    assert(m2 =~= masters);
}

} // verus!
