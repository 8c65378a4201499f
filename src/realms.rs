use vstd::prelude::*;
use crate::common::{origin, Position};
use crate::errors::ErrorCode;
use crate::events::{RealmEvent, RealmEventType};
use crate::master::{RealmMaster, RealmMasterRole};
use crate::pubkey::Pubkey;
use crate::realm::{description_error, sole_owner_at, Realm, RealmDescription};

verus! {

/// Creates the realm stored at `realm_key`, with `creator` as its only
/// master and owner.
pub fn create_realm(
    realm_key: Pubkey,
    creator: Pubkey,
    description: RealmDescription,
    now: i64,
) -> (r: Result<(Realm, RealmEvent), ErrorCode>)
    ensures
        r is Ok <==> description_error(description) is None,
        r matches Err(e) ==> description_error(description) == Some(e),
        r matches Ok((realm, event)) ==> {
            &&& realm.wf()
            &&& realm.description == description
            &&& realm.created_at == now
            &&& realm.updated_at == now
            &&& realm.masters@ == seq![
                RealmMaster { pubkey: creator, role: RealmMasterRole::Owner },
            ]
            &&& realm.dimensions@.len() == 0
            &&& realm.starting_dimension is None
            &&& realm.starting_position == origin()
            &&& event == (RealmEvent {
                event_type: RealmEventType::RealmCreated { description },
                realm_pubkey: realm_key,
            })
        },
{
    if let Err(e) = description.validate() {
        return Err(e);
    }
    let mut masters: Vec<RealmMaster> = Vec::new();
    masters.push(RealmMaster { pubkey: creator, role: RealmMasterRole::Owner });
    let event = RealmEvent {
        event_type: RealmEventType::RealmCreated { description: description.clone() },
        realm_pubkey: realm_key,
    };
    let realm = Realm {
        description,
        created_at: now,
        updated_at: now,
        masters,
        dimensions: Vec::new(),
        starting_dimension: None,
        starting_position: Position::default(),
    };
    proof {
        let owner = RealmMaster { pubkey: creator, role: RealmMasterRole::Owner };
        assert(realm.masters@ =~= seq![owner]);
        assert(sole_owner_at(realm.masters@, 0));
    }
    Ok((realm, event))
}

/// Replaces the description of a realm; owners and admins only.
pub fn update_realm_description(
    realm: &mut Realm,
    realm_key: Pubkey,
    caller: Pubkey,
    description: RealmDescription,
    now: i64,
) -> (r: Result<RealmEvent, ErrorCode>)
    requires
        old(realm).wf(),
    ensures
        final(realm).wf(),
        !old(realm).may_update(caller) ==> r == Err::<RealmEvent, ErrorCode>(
            ErrorCode::UnauthorizedRealmMaster,
        ),
        old(realm).may_update(caller) ==> (description_error(description) matches Some(e) ==> r
            == Err::<RealmEvent, ErrorCode>(e)),
        r is Ok <==> old(realm).may_update(caller) && description_error(description) is None,
        r is Err ==> *final(realm) == *old(realm),
        r matches Ok(event) ==> {
            &&& *final(realm) == (Realm { description, updated_at: now, ..*old(realm) })
            &&& event == (RealmEvent {
                event_type: RealmEventType::RealmDescriptionUpdated { description },
                realm_pubkey: realm_key,
            })
        },
{
    let allowed = match realm.find_master(&caller) {
        Some(i) => realm.masters[i].can_update_realm(),
        None => false,
    };
    if !allowed {
        return Err(ErrorCode::UnauthorizedRealmMaster);
    }
    if let Err(e) = description.validate() {
        return Err(e);
    }
    let event = RealmEvent {
        event_type: RealmEventType::RealmDescriptionUpdated { description: description.clone() },
        realm_pubkey: realm_key,
    };
    realm.description = description;
    realm.updated_at = now;
    Ok(event)
}

/// Checks that the owner asks and that every dimension of the realm is
/// supplied, so that the realm and all its dimensions can be closed together.
pub fn delete_realm(realm: &Realm, realm_key: Pubkey, caller: Pubkey, provided: &Vec<Pubkey>) -> (r:
    Result<RealmEvent, ErrorCode>)
    requires
        realm.wf(),
    ensures
        !realm.may_delete(caller) ==> r == Err::<RealmEvent, ErrorCode>(
            ErrorCode::UnauthorizedRealmMaster,
        ),
        realm.may_delete(caller) && (exists|d: Pubkey|
            realm.dimensions@.contains(d) && !provided@.contains(d)) ==> r == Err::<
            RealmEvent,
            ErrorCode,
        >(ErrorCode::DimensionNotProvided),
        r is Ok <==> realm.may_delete(caller) && (forall|d: Pubkey|
            realm.dimensions@.contains(d) ==> provided@.contains(d)),
        r matches Ok(event) ==> event == (RealmEvent {
            event_type: RealmEventType::RealmDeleted {},
            realm_pubkey: realm_key,
        }),
{
    let allowed = match realm.find_master(&caller) {
        Some(i) => realm.masters[i].can_delete_realm(),
        None => false,
    };
    if !allowed {
        return Err(ErrorCode::UnauthorizedRealmMaster);
    }
    let mut i: usize = 0;
    while i < realm.dimensions.len()
        invariant
            0 <= i <= realm.dimensions@.len(),
            realm.may_delete(caller),
            forall|j: int| 0 <= j < i ==> provided@.contains(#[trigger] realm.dimensions@[j]),
        decreases realm.dimensions@.len() - i,
    {
        if !contains_key(provided, &realm.dimensions[i]) {
            assert(realm.dimensions@.contains(realm.dimensions@[i as int]));
            return Err(ErrorCode::DimensionNotProvided);
        }
        i = i + 1;
    }
    assert forall|d: Pubkey| realm.dimensions@.contains(d) implies provided@.contains(d) by {
        let j = choose|j: int| 0 <= j < realm.dimensions@.len() && realm.dimensions@[j] == d;
        assert(provided@.contains(realm.dimensions@[j]));
    }
    Ok(RealmEvent { event_type: RealmEventType::RealmDeleted {}, realm_pubkey: realm_key })
}

/// Whether `key` is among `keys`.
pub fn contains_key(keys: &Vec<Pubkey>, key: &Pubkey) -> (r: bool)
    ensures
        r == keys@.contains(*key),
{
    let mut i: usize = 0;
    while i < keys.len()
        invariant
            0 <= i <= keys@.len(),
            forall|j: int| 0 <= j < i ==> keys@[j] != *key,
        decreases keys@.len() - i,
    {
        if keys[i] == *key {
            assert(keys@[i as int] == *key);
            return true;
        }
        i = i + 1;
    }
    false
}

} // verus!
