use vstd::prelude::*;

verus! {

/// Every way an operation can be refused. A refused operation changes nothing.
#[derive(Clone, Copy, Debug, PartialEq, Eq, Structural)]
pub enum ErrorCode {
    /// The caller holds no role that allows the operation.
    UnauthorizedRealmMaster,
    /// The owner cannot be removed; ownership has to be transferred first.
    CantRemoveRealmOwner,
    /// The named key is not a master of the realm.
    RealmMasterNotFound,
    /// The key is already a master of the realm.
    DuplicateRealmMaster,
    /// A name is longer than `MAX_NAME_LEN` bytes.
    NameTooLong,
    /// Realm details are longer than `MAX_DETAILS_LEN` bytes.
    DetailsTooLong,
    /// A tileset or tilemap path is longer than `MAX_RESOURCE_PATH_LEN` bytes.
    ResourcePathTooLong,
    /// Deleting a realm needs every one of its dimensions to be supplied.
    DimensionNotProvided,
    /// A journey needs the realm to have a starting dimension.
    RealmHasNoStartingDimension,
    /// A starting point has to name a dimension of the realm.
    StartingDimensionNotInRealm,
    /// Only a hero's master may change it.
    Unauthorized,
}

} // verus!
