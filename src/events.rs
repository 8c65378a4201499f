use vstd::prelude::*;
use crate::common::Position;
use crate::master::RealmMaster;
use crate::pubkey::Pubkey;
use crate::realm::RealmDescription;

verus! {

/// What changed in a realm.
#[derive(Clone, Debug, PartialEq, Eq)]
pub enum RealmEventType {
    RealmCreated { description: RealmDescription },
    RealmDescriptionUpdated { description: RealmDescription },
    RealmDeleted {},
    RealmMasterAdded { master: RealmMaster },
    RealmMasterRemoved { master: RealmMaster },
    RealmOwnershipTransferred { old_owner: RealmMaster, new_owner: RealmMaster },
    RealmStartingPointSet { dimension_pubkey: Pubkey, position: Position },
}

/// The one notice that a successful realm operation hands to observers.
#[derive(Clone, Debug, PartialEq, Eq)]
pub struct RealmEvent {
    pub event_type: RealmEventType,
    pub realm_pubkey: Pubkey,
}

/// What changed in a dimension.
#[derive(Clone, Debug, PartialEq, Eq)]
pub enum RealmDimensionEventType {
    DimensionAdded { name: String },
    DimensionUpdated { name: String },
    DimensionRemoved {},
}

/// The one notice that a successful dimension operation hands to observers.
#[derive(Clone, Debug, PartialEq, Eq)]
pub struct RealmDimensionEvent {
    pub event_type: RealmDimensionEventType,
    pub dimension_pubkey: Pubkey,
    pub realm_pubkey: Pubkey,
}

/// What happened to a hero.
#[derive(Clone, Copy, Debug, PartialEq, Eq)]
pub enum HeroEventType {
    HeroCreated { hero_pubkey: Pubkey },
    HeroUpdated { hero_pubkey: Pubkey },
}

/// The one notice that a successful hero operation hands to observers.
#[derive(Clone, Copy, Debug, PartialEq, Eq)]
pub struct HeroEvent {
    pub event_type: HeroEventType,
}

} // verus!
