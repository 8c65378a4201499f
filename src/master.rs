use vstd::prelude::*;
use crate::dimension::RealmDimension;
use crate::pubkey::Pubkey;

verus! {

/// What a master may do in a realm.
#[derive(Clone, Copy, Debug, PartialEq, Eq, Structural)]
pub enum RealmMasterRole {
    Owner,
    Admin,
    Curator,
}

/// A key bound to a role in one realm.
#[derive(Clone, Copy, Debug, PartialEq, Eq)]
pub struct RealmMaster {
    pub pubkey: Pubkey,
    pub role: RealmMasterRole,
}

/// Owners and admins may change a realm's description.
pub open spec fn role_can_update(role: RealmMasterRole) -> bool {
    role == RealmMasterRole::Owner || role == RealmMasterRole::Admin
}

/// Only the owner may delete a realm.
pub open spec fn role_can_delete(role: RealmMasterRole) -> bool {
    role == RealmMasterRole::Owner
}

/// Only the owner may add, remove or promote masters.
pub open spec fn role_can_manage_masters(role: RealmMasterRole) -> bool {
    role == RealmMasterRole::Owner
}

/// Owners and admins may add dimensions.
pub open spec fn role_can_add_dimension(role: RealmMasterRole) -> bool {
    role == RealmMasterRole::Owner || role == RealmMasterRole::Admin
}

/// The owner may change or remove any dimension, an admin only the ones it
/// created, a curator none.
pub open spec fn role_can_manage_dimension(
    role: RealmMasterRole,
    dimension_owner: Pubkey,
    caller: Pubkey,
) -> bool {
    match role {
        RealmMasterRole::Owner => true,
        RealmMasterRole::Admin => dimension_owner == caller,
        RealmMasterRole::Curator => false,
    }
}

/// Only the owner may move the starting point.
pub open spec fn role_can_set_starting_point(role: RealmMasterRole) -> bool {
    role == RealmMasterRole::Owner
}

impl RealmMaster {
    /// Whether this master may change the realm's description.
    pub fn can_update_realm(&self) -> (r: bool)
        ensures
            r == role_can_update(self.role),
    {
        matches!(self.role, RealmMasterRole::Owner | RealmMasterRole::Admin)
    }

    /// Whether this master may delete the realm.
    pub fn can_delete_realm(&self) -> (r: bool)
        ensures
            r == role_can_delete(self.role),
    {
        matches!(self.role, RealmMasterRole::Owner)
    }

    /// Whether this master may add, remove or promote masters.
    pub fn can_manage_realm_masters(&self) -> (r: bool)
        ensures
            r == role_can_manage_masters(self.role),
    {
        matches!(self.role, RealmMasterRole::Owner)
    }

    /// Whether this master may add dimensions.
    pub fn can_add_realm_dimension(&self) -> (r: bool)
        ensures
            r == role_can_add_dimension(self.role),
    {
        matches!(self.role, RealmMasterRole::Owner | RealmMasterRole::Admin)
    }

    /// Whether this master may change or remove `dimension`.
    pub fn can_manage_realm_dimension(&self, dimension: &RealmDimension) -> (r: bool)
        ensures
            r == role_can_manage_dimension(self.role, dimension.owner, self.pubkey),
    {
        match self.role {
            RealmMasterRole::Owner => true,
            RealmMasterRole::Admin => dimension.owner == self.pubkey,
            RealmMasterRole::Curator => false,
        }
    }

    /// Whether this master may move the starting point.
    pub fn can_set_realm_starting_point(&self) -> (r: bool)
        ensures
            r == role_can_set_starting_point(self.role),
    {
        matches!(self.role, RealmMasterRole::Owner)
    }
}

} // verus!
