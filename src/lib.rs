//! Access control and resource lifecycle for realms: masters with roles,
//! child dimensions with a starting point, heroes and journeys, and the exact
//! storage size of every variable-length record.

pub mod common;
pub mod constants;
pub mod dimension;
pub mod dimensions;
pub mod errors;
pub mod events;
pub mod hero;
pub mod hero_stats;
pub mod heroes;
pub mod journey;
pub mod master;
pub mod masters;
pub mod pubkey;
pub mod realm;
pub mod realms;

pub use common::{Position, Rect};
pub use dimension::{RealmDimension, RealmDimensionArea};
pub use errors::ErrorCode;
pub use master::{RealmMaster, RealmMasterRole};
pub use pubkey::Pubkey;
pub use realm::{Realm, RealmDescription};
pub use events::{
    HeroEvent, HeroEventType, RealmDimensionEvent, RealmDimensionEventType, RealmEvent,
    RealmEventType,
};
pub use realms::{create_realm, delete_realm, update_realm_description};
pub use masters::{add_realm_master, remove_realm_master, transfer_realm_ownership};
pub use dimensions::{
    add_realm_dimension, remove_realm_dimension, set_realm_starting_point, update_realm_dimension,
};
pub use hero_stats::{HeroStats, HeroTag};
pub use hero::{Hero, HeroDescription, PlayerHero};
pub use heroes::{create_hero, update_hero_description};
pub use journey::{start_journey, Journey};
