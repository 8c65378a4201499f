use vstd::prelude::*;
use crate::common::{origin, Position};
use crate::constants::PUBKEY_LEN;
use crate::dimension::{dimension_error, validate_dimension, RealmDimension, RealmDimensionArea};
use crate::errors::ErrorCode;
use crate::events::{RealmDimensionEvent, RealmDimensionEventType, RealmEvent, RealmEventType};
use crate::pubkey::Pubkey;
use crate::realm::Realm;

verus! {

/// `b` is `a` with only its dimension list, its starting point and its
/// update time changed.
pub open spec fn same_except_dimensions(a: Realm, b: Realm) -> bool {
    &&& a.description == b.description
    &&& a.created_at == b.created_at
    &&& a.masters == b.masters
}

/// The starting dimension after `key` is added: the first dimension added to
/// a realm without a starting point becomes it.
pub open spec fn starting_after_add(start: Option<Pubkey>, key: Pubkey) -> Option<Pubkey> {
    match start {
        None => Some(key),
        Some(s) => Some(s),
    }
}

/// The starting dimension after `key` is removed: cleared if it was `key`.
pub open spec fn starting_after_remove(start: Option<Pubkey>, key: Pubkey) -> Option<Pubkey> {
    if start == Some(key) {
        None
    } else {
        start
    }
}

/// The starting position after `key` is removed: back to the origin if the
/// starting dimension was `key`.
pub open spec fn position_after_remove(
    start: Option<Pubkey>,
    position: Position,
    key: Pubkey,
) -> Position {
    if start == Some(key) {
        origin()
    } else {
        position
    }
}

/// `keys` with every occurrence of `key` left out, order kept.
pub open spec fn without(keys: Seq<Pubkey>, key: Pubkey) -> Seq<Pubkey>
    decreases keys.len(),
{
    if keys.len() == 0 {
        keys
    } else if keys.last() == key {
        without(keys.drop_last(), key)
    } else {
        without(keys.drop_last(), key).push(keys.last())
    }
}

/// What stays after leaving out `key` is exactly what was there and differs from it.
pub proof fn lemma_without_contains(keys: Seq<Pubkey>, key: Pubkey, x: Pubkey)
    ensures
        without(keys, key).contains(x) <==> keys.contains(x) && x != key,
    decreases keys.len(),
{
    if keys.len() > 0 {
        let d = keys.drop_last();
        lemma_without_contains(d, key, x);
        assert(d.push(keys.last()) =~= keys);
        lemma_push_contains(d, keys.last(), x);
        lemma_push_contains(without(d, key), keys.last(), x);
    }
}

proof fn lemma_push_contains(s: Seq<Pubkey>, a: Pubkey, x: Pubkey)
    ensures
        s.push(a).contains(x) <==> s.contains(x) || x == a,
{
    if s.contains(x) {
        let i = choose|i: int| 0 <= i < s.len() && s[i] == x;
        assert(s.push(a)[i] == x);
    }
    assert(s.push(a)[s.len() as int] == a);
    if s.push(a).contains(x) && x != a {
        let i = choose|i: int| 0 <= i < s.len() + 1 && s.push(a)[i] == x;
        assert(s[i] == x);
    }
}

/// Leaving out a key that is not there changes nothing.
pub proof fn lemma_without_absent(keys: Seq<Pubkey>, key: Pubkey)
    requires
        !keys.contains(key),
    ensures
        without(keys, key) == keys,
    decreases keys.len(),
{
    if keys.len() > 0 {
        assert(!keys.drop_last().contains(key)) by {
            if keys.drop_last().contains(key) {
                let i = choose|i: int| 0 <= i < keys.len() - 1 && keys.drop_last()[i] == key;
                assert(keys[i] == key);
            }
        }
        lemma_without_absent(keys.drop_last(), key);
        assert(keys[keys.len() - 1] != key);
        assert(keys.drop_last().push(keys.last()) =~= keys);
    }
}

/// Adds the dimension stored at `dimension_key` to the realm; owners and
/// admins only. The caller becomes the dimension's owner.
pub fn add_realm_dimension(
    realm: &mut Realm,
    realm_key: Pubkey,
    dimension_key: Pubkey,
    caller: Pubkey,
    name: String,
    areas: Vec<RealmDimensionArea>,
    now: i64,
) -> (r: Result<(RealmDimension, RealmDimensionEvent), ErrorCode>)
    requires
        old(realm).wf(),
    ensures
        final(realm).wf(),
        !old(realm).may_add_dimension(caller) ==> r == Err::<
            (RealmDimension, RealmDimensionEvent),
            ErrorCode,
        >(ErrorCode::UnauthorizedRealmMaster),
        old(realm).may_add_dimension(caller) ==> (dimension_error(name@, areas@) matches Some(e)
            ==> r == Err::<(RealmDimension, RealmDimensionEvent), ErrorCode>(e)),
        r is Ok <==> old(realm).may_add_dimension(caller) && dimension_error(name@, areas@) is None,
        r is Err ==> *final(realm) == *old(realm),
        r matches Ok((dimension, event)) ==> {
            &&& dimension == (RealmDimension { realm: realm_key, owner: caller, name, areas })
            &&& final(realm).dimensions@ == old(realm).dimensions@.push(dimension_key)
            &&& final(realm).starting_dimension == starting_after_add(
                old(realm).starting_dimension,
                dimension_key,
            )
            &&& final(realm).starting_position == old(realm).starting_position
            &&& final(realm).updated_at == now
            &&& same_except_dimensions(*old(realm), *final(realm))
            &&& final(realm).space_spec() == old(realm).space_spec() + PUBKEY_LEN
            &&& event == (RealmDimensionEvent {
                event_type: RealmDimensionEventType::DimensionAdded { name },
                dimension_pubkey: dimension_key,
                realm_pubkey: realm_key,
            })
        },
        r is Ok && old(realm).dimensions@.len() == 0 ==> final(realm).starting_dimension == Some(
            dimension_key,
        ),
        r is Ok && old(realm).starting_dimension is Some ==> final(realm).starting_dimension
            == old(realm).starting_dimension,
{
    let allowed = match realm.find_master(&caller) {
        Some(i) => realm.masters[i].can_add_realm_dimension(),
        None => false,
    };
    if !allowed {
        return Err(ErrorCode::UnauthorizedRealmMaster);
    }
    if let Err(e) = validate_dimension(&name, &areas) {
        return Err(e);
    }
    let ghost before = realm.dimensions@;
    realm.dimensions.push(dimension_key);
    if realm.starting_dimension.is_none() {
        realm.starting_dimension = Some(dimension_key);
    }
    realm.updated_at = now;
    proof {
        let after = realm.dimensions@;
        assert(after[before.len() as int] == dimension_key);
        if let Some(s) = old(realm).starting_dimension {
            let i = choose|i: int| 0 <= i < before.len() && before[i] == s;
            assert(after[i] == s);
        }
    }
    let event = RealmDimensionEvent {
        event_type: RealmDimensionEventType::DimensionAdded { name: name.clone() },
        dimension_pubkey: dimension_key,
        realm_pubkey: realm_key,
    };
    Ok((RealmDimension { realm: realm_key, owner: caller, name, areas }, event))
}

/// Replaces a dimension's name and areas; the owner, or the admin that added it.
pub fn update_realm_dimension(
    realm: &Realm,
    realm_key: Pubkey,
    dimension: &mut RealmDimension,
    dimension_key: Pubkey,
    caller: Pubkey,
    name: String,
    areas: Vec<RealmDimensionArea>,
) -> (r: Result<RealmDimensionEvent, ErrorCode>)
    requires
        realm.wf(),
    ensures
        !realm.may_manage_dimension(caller, old(dimension).owner) ==> r == Err::<
            RealmDimensionEvent,
            ErrorCode,
        >(ErrorCode::UnauthorizedRealmMaster),
        realm.may_manage_dimension(caller, old(dimension).owner) ==> (dimension_error(
            name@,
            areas@,
        ) matches Some(e) ==> r == Err::<RealmDimensionEvent, ErrorCode>(e)),
        r is Ok <==> realm.may_manage_dimension(caller, old(dimension).owner) && dimension_error(
            name@,
            areas@,
        ) is None,
        r is Err ==> *final(dimension) == *old(dimension),
        r matches Ok(event) ==> {
            &&& *final(dimension) == (RealmDimension { name, areas, ..*old(dimension) })
            &&& event == (RealmDimensionEvent {
                event_type: RealmDimensionEventType::DimensionUpdated { name },
                dimension_pubkey: dimension_key,
                realm_pubkey: realm_key,
            })
        },
{
    let allowed = match realm.find_master(&caller) {
        Some(i) => realm.masters[i].can_manage_realm_dimension(dimension),
        None => false,
    };
    if !allowed {
        return Err(ErrorCode::UnauthorizedRealmMaster);
    }
    if let Err(e) = validate_dimension(&name, &areas) {
        return Err(e);
    }
    let event = RealmDimensionEvent {
        event_type: RealmDimensionEventType::DimensionUpdated { name: name.clone() },
        dimension_pubkey: dimension_key,
        realm_pubkey: realm_key,
    };
    dimension.name = name;
    dimension.areas = areas;
    Ok(event)
}

/// Takes the dimension stored at `dimension_key` out of the realm; the owner,
/// or the admin that added it. A starting point there is cleared.
pub fn remove_realm_dimension(
    realm: &mut Realm,
    realm_key: Pubkey,
    dimension: &RealmDimension,
    dimension_key: Pubkey,
    caller: Pubkey,
    now: i64,
) -> (r: Result<RealmDimensionEvent, ErrorCode>)
    requires
        old(realm).wf(),
    ensures
        final(realm).wf(),
        !old(realm).may_manage_dimension(caller, dimension.owner) ==> r == Err::<
            RealmDimensionEvent,
            ErrorCode,
        >(ErrorCode::UnauthorizedRealmMaster),
        r is Ok <==> old(realm).may_manage_dimension(caller, dimension.owner),
        r is Err ==> *final(realm) == *old(realm),
        r matches Ok(event) ==> {
            &&& final(realm).dimensions@ == without(old(realm).dimensions@, dimension_key)
            &&& final(realm).starting_dimension == starting_after_remove(
                old(realm).starting_dimension,
                dimension_key,
            )
            &&& final(realm).starting_position == position_after_remove(
                old(realm).starting_dimension,
                old(realm).starting_position,
                dimension_key,
            )
            &&& final(realm).updated_at == now
            &&& same_except_dimensions(*old(realm), *final(realm))
            &&& event == (RealmDimensionEvent {
                event_type: RealmDimensionEventType::DimensionRemoved {},
                dimension_pubkey: dimension_key,
                realm_pubkey: realm_key,
            })
        },
{
    let allowed = match realm.find_master(&caller) {
        Some(i) => realm.masters[i].can_manage_realm_dimension(dimension),
        None => false,
    };
    if !allowed {
        return Err(ErrorCode::UnauthorizedRealmMaster);
    }
    let ghost before = realm.dimensions@;
    let mut kept: Vec<Pubkey> = Vec::new();
    let mut i: usize = 0;
    while i < realm.dimensions.len()
        invariant
            0 <= i <= realm.dimensions@.len(),
            realm.dimensions@ == before,
            kept@ == without(before.subrange(0, i as int), dimension_key),
        decreases realm.dimensions@.len() - i,
    {
        let k = realm.dimensions[i];
        proof {
            assert(before.subrange(0, i + 1).drop_last() =~= before.subrange(0, i as int));
        }
        if k != dimension_key {
            kept.push(k);
        }
        i = i + 1;
    }
    proof {
        assert(before.subrange(0, i as int) =~= before);
    }
    realm.dimensions = kept;
    if realm.starting_dimension == Some(dimension_key) {
        realm.starting_dimension = None;
        realm.starting_position = Position::default();
    }
    realm.updated_at = now;
    proof {
        if let Some(s) = realm.starting_dimension {
            lemma_without_contains(before, dimension_key, s);
        }
    }
    Ok(RealmDimensionEvent {
        event_type: RealmDimensionEventType::DimensionRemoved {},
        dimension_pubkey: dimension_key,
        realm_pubkey: realm_key,
    })
}

/// Moves the realm's starting point to `position` in one of its dimensions;
/// the owner only.
pub fn set_realm_starting_point(
    realm: &mut Realm,
    realm_key: Pubkey,
    dimension_key: Pubkey,
    caller: Pubkey,
    position: Position,
    now: i64,
) -> (r: Result<RealmEvent, ErrorCode>)
    requires
        old(realm).wf(),
    ensures
        final(realm).wf(),
        !old(realm).may_set_starting_point(caller) ==> r == Err::<RealmEvent, ErrorCode>(
            ErrorCode::UnauthorizedRealmMaster,
        ),
        old(realm).may_set_starting_point(caller) && !old(realm).dimensions@.contains(
            dimension_key,
        ) ==> r == Err::<RealmEvent, ErrorCode>(ErrorCode::StartingDimensionNotInRealm),
        r is Ok <==> old(realm).may_set_starting_point(caller) && old(realm).dimensions@.contains(
            dimension_key,
        ),
        r is Err ==> *final(realm) == *old(realm),
        r matches Ok(event) ==> {
            &&& *final(realm) == (Realm {
                starting_dimension: Some(dimension_key),
                starting_position: position,
                updated_at: now,
                ..*old(realm)
            })
            &&& event == (RealmEvent {
                event_type: RealmEventType::RealmStartingPointSet {
                    dimension_pubkey: dimension_key,
                    position,
                },
                realm_pubkey: realm_key,
            })
        },
{
    let allowed = match realm.find_master(&caller) {
        Some(i) => realm.masters[i].can_set_realm_starting_point(),
        None => false,
    };
    if !allowed {
        return Err(ErrorCode::UnauthorizedRealmMaster);
    }
    if !crate::realms::contains_key(&realm.dimensions, &dimension_key) {
        return Err(ErrorCode::StartingDimensionNotInRealm);
    }
    realm.starting_dimension = Some(dimension_key);
    realm.starting_position = position;
    realm.updated_at = now;
    Ok(
        RealmEvent {
            event_type: RealmEventType::RealmStartingPointSet {
                dimension_pubkey: dimension_key,
                position,
            },
            realm_pubkey: realm_key,
        },
    )
}

/// Adding a dimension that the realm does not hold and then removing it
/// leaves the dimension list, the starting dimension and the starting
/// position as they were.
pub proof fn lemma_add_then_remove_dimension(realm: Realm, key: Pubkey)
    requires
        realm.wf(),
        !realm.dimensions@.contains(key),
    ensures
        without(realm.dimensions@.push(key), key) == realm.dimensions@,
        starting_after_remove(starting_after_add(realm.starting_dimension, key), key)
            == realm.starting_dimension,
        position_after_remove(
            starting_after_add(realm.starting_dimension, key),
            realm.starting_position,
            key,
        ) == realm.starting_position,
{
    let ds = realm.dimensions@;
    assert(ds.push(key).drop_last() =~= ds);
    lemma_without_absent(ds, key);
    if let Some(s) = realm.starting_dimension {
        assert(s != key);
    }
}

} // verus!
