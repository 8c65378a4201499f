use vstd::prelude::*;
use crate::common::{byte_len, origin, text_len, Position};
use crate::constants::{
    DISCRIMINATOR_LEN, LEN_PREFIX, MAX_DETAILS_LEN, MAX_NAME_LEN, OPTION_PUBKEY_LEN, POSITION_LEN,
    PUBKEY_LEN, REALM_MASTER_LEN, TIMESTAMP_LEN,
};
use crate::errors::ErrorCode;
use crate::master::{
    role_can_add_dimension, role_can_delete, role_can_manage_dimension, role_can_manage_masters,
    role_can_set_starting_point, role_can_update, RealmMaster, RealmMasterRole,
};
use crate::pubkey::Pubkey;

verus! {

/// What a realm shows of itself.
#[derive(Debug, PartialEq, Eq)]
pub struct RealmDescription {
    pub name: String,
    pub details: String,
    pub logo: String,
}

/// The root record: its masters, its child dimensions and where journeys start.
#[derive(Clone, Debug, PartialEq, Eq)]
pub struct Realm {
    pub description: RealmDescription,
    pub created_at: i64,
    pub updated_at: i64,
    pub masters: Vec<RealmMaster>,
    pub dimensions: Vec<Pubkey>,
    pub starting_dimension: Option<Pubkey>,
    pub starting_position: Position,
}

/// The error a description is refused with, if any: the name is checked first.
pub open spec fn description_error(d: RealmDescription) -> Option<ErrorCode> {
    if byte_len(d.name@) > MAX_NAME_LEN {
        Some(ErrorCode::NameTooLong)
    } else if byte_len(d.details@) > MAX_DETAILS_LEN {
        Some(ErrorCode::DetailsTooLong)
    } else {
        None
    }
}

/// No key appears twice among the masters.
pub open spec fn keys_unique(masters: Seq<RealmMaster>) -> bool {
    forall|i: int, j: int|
        0 <= i < masters.len() && 0 <= j < masters.len() && i != j ==> masters[i].pubkey
            != masters[j].pubkey
}

/// The master at `i` is an owner, and no other master is.
pub open spec fn sole_owner_at(masters: Seq<RealmMaster>, i: int) -> bool {
    &&& 0 <= i < masters.len()
    &&& masters[i].role == RealmMasterRole::Owner
    &&& forall|j: int|
        0 <= j < masters.len() && #[trigger] masters[j].role == RealmMasterRole::Owner ==> j == i
}

/// Exactly one master is an owner.
pub open spec fn has_sole_owner(masters: Seq<RealmMaster>) -> bool {
    exists|i: int| sole_owner_at(masters, i)
}

/// `key` is one of the masters.
pub open spec fn is_master(masters: Seq<RealmMaster>, key: Pubkey) -> bool {
    exists|i: int| 0 <= i < masters.len() && #[trigger] masters[i].pubkey == key
}

/// Where `key` stands among the masters (meaningful when it is one).
pub open spec fn master_index(masters: Seq<RealmMaster>, key: Pubkey) -> int {
    choose|i: int| 0 <= i < masters.len() && #[trigger] masters[i].pubkey == key
}

/// The role that `key` holds, if it is a master.
pub open spec fn role_of(masters: Seq<RealmMaster>, key: Pubkey) -> Option<RealmMasterRole> {
    if is_master(masters, key) {
        Some(masters[master_index(masters, key)].role)
    } else {
        None
    }
}

/// Stored bytes of a realm with this description and these list lengths.
pub open spec fn realm_space_spec(
    d: RealmDescription,
    masters_count: int,
    dimensions_count: int,
) -> int {
    DISCRIMINATOR_LEN + LEN_PREFIX + byte_len(d.name@) + LEN_PREFIX + byte_len(d.details@)
        + LEN_PREFIX + byte_len(d.logo@) + TIMESTAMP_LEN + TIMESTAMP_LEN + LEN_PREFIX
        + masters_count * REALM_MASTER_LEN + LEN_PREFIX + dimensions_count * PUBKEY_LEN
        + OPTION_PUBKEY_LEN + POSITION_LEN
}

impl Realm {
    /// The realm's invariant: masters are unique by key with exactly one
    /// owner; a starting dimension is one of the realm's dimensions, and
    /// without one the starting position is the origin.
    pub open spec fn wf(&self) -> bool {
        &&& keys_unique(self.masters@)
        &&& has_sole_owner(self.masters@)
        &&& (self.starting_dimension matches Some(k) ==> self.dimensions@.contains(k))
        &&& (self.starting_dimension is None ==> self.starting_position == origin())
    }

    /// The role that `caller` holds here, if it is a master.
    pub open spec fn caller_role(&self, caller: Pubkey) -> Option<RealmMasterRole> {
        role_of(self.masters@, caller)
    }

    /// Whether `caller` may change the description.
    pub open spec fn may_update(&self, caller: Pubkey) -> bool {
        self.caller_role(caller) matches Some(role) && role_can_update(role)
    }

    /// Whether `caller` may delete the realm.
    pub open spec fn may_delete(&self, caller: Pubkey) -> bool {
        self.caller_role(caller) matches Some(role) && role_can_delete(role)
    }

    /// Whether `caller` may add, remove or promote masters.
    pub open spec fn may_manage_masters(&self, caller: Pubkey) -> bool {
        self.caller_role(caller) matches Some(role) && role_can_manage_masters(role)
    }

    /// Whether `caller` may add dimensions.
    pub open spec fn may_add_dimension(&self, caller: Pubkey) -> bool {
        self.caller_role(caller) matches Some(role) && role_can_add_dimension(role)
    }

    /// Whether `caller` may change or remove a dimension owned by `dimension_owner`.
    pub open spec fn may_manage_dimension(&self, caller: Pubkey, dimension_owner: Pubkey) -> bool {
        self.caller_role(caller) matches Some(role) && role_can_manage_dimension(
            role,
            dimension_owner,
            caller,
        )
    }

    /// Whether `caller` may move the starting point.
    pub open spec fn may_set_starting_point(&self, caller: Pubkey) -> bool {
        self.caller_role(caller) matches Some(role) && role_can_set_starting_point(role)
    }

    /// Stored bytes of this realm.
    pub open spec fn space_spec(&self) -> int {
        realm_space_spec(
            self.description,
            self.masters@.len() as int,
            self.dimensions@.len() as int,
        )
    }

    /// Index of the master whose key is `key`.
    pub fn find_master(&self, key: &Pubkey) -> (r: Option<usize>)
        requires
            keys_unique(self.masters@),
        ensures
            r matches Some(i) ==> i < self.masters@.len() && self.masters@[i as int].pubkey == *key
                && i == master_index(self.masters@, *key),
            r is None <==> !is_master(self.masters@, *key),
            r matches Some(i) ==> self.caller_role(*key) == Some(self.masters@[i as int].role),
    {
        let mut i: usize = 0;
        while i < self.masters.len()
            invariant
                0 <= i <= self.masters@.len(),
                keys_unique(self.masters@),
                forall|j: int| 0 <= j < i ==> self.masters@[j].pubkey != *key,
            decreases self.masters@.len() - i,
        {
            if self.masters[i].pubkey == *key {
                proof {
                    lemma_master_index_unique(self.masters@, *key, i as int);
                }
                return Some(i);
            }
            i = i + 1;
        }
        None
    }

    /// The role that `key` holds in this realm, if any.
    pub fn role_of(&self, key: &Pubkey) -> (r: Option<RealmMasterRole>)
        requires
            keys_unique(self.masters@),
        ensures
            r == self.caller_role(*key),
    {
        match self.find_master(key) {
            Some(i) => Some(self.masters[i].role),
            None => None,
        }
    }

    /// Whether this realm meets its invariant, for realms read back from storage.
    pub fn is_valid(&self) -> (r: bool)
        ensures
            r == self.wf(),
    {
        let n = self.masters.len();
        // Unique keys.
        let mut i: usize = 0;
        while i < n
            invariant
                n == self.masters@.len(),
                0 <= i <= n,
                forall|a: int, b: int|
                    0 <= a < i && 0 <= b < n && a != b ==> self.masters@[a].pubkey
                        != self.masters@[b].pubkey,
            decreases n - i,
        {
            let mut j: usize = 0;
            while j < n
                invariant
                    n == self.masters@.len(),
                    0 <= i < n,
                    0 <= j <= n,
                    forall|a: int, b: int|
                        0 <= a < i && 0 <= b < n && a != b ==> self.masters@[a].pubkey
                            != self.masters@[b].pubkey,
                    forall|b: int|
                        0 <= b < j && b != i ==> self.masters@[i as int].pubkey
                            != self.masters@[b].pubkey,
                decreases n - j,
            {
                if j != i && self.masters[i].pubkey == self.masters[j].pubkey {
                    assert(!keys_unique(self.masters@));
                    return false;
                }
                j = j + 1;
            }
            i = i + 1;
        }
        assert(keys_unique(self.masters@));
        // Exactly one owner.
        let mut owner: Option<usize> = None;
        let mut k: usize = 0;
        while k < n
            invariant
                n == self.masters@.len(),
                0 <= k <= n,
                owner matches Some(o) ==> o < k && self.masters@[o as int].role
                    == RealmMasterRole::Owner,
                forall|b: int|
                    0 <= b < k && self.masters@[b].role == RealmMasterRole::Owner ==> owner == Some(
                        b as usize,
                    ),
            decreases n - k,
        {
            if self.masters[k].role == RealmMasterRole::Owner {
                if let Some(o) = owner {
                    assert(!sole_owner_at(self.masters@, o as int));
                    assert(!has_sole_owner(self.masters@)) by {
                        if has_sole_owner(self.masters@) {
                            let w = choose|w: int| sole_owner_at(self.masters@, w);
                            assert(w == k as int);
                            assert(w == o as int);
                        }
                    }
                    return false;
                }
                owner = Some(k);
            }
            k = k + 1;
        }
        match owner {
            Some(o) => {
                assert(sole_owner_at(self.masters@, o as int));
            },
            None => {
                assert(!has_sole_owner(self.masters@)) by {
                    if has_sole_owner(self.masters@) {
                        let w = choose|w: int| sole_owner_at(self.masters@, w);
                        assert(self.masters@[w].role == RealmMasterRole::Owner);
                    }
                }
                return false;
            },
        }
        match self.starting_dimension {
            Some(d) => crate::realms::contains_key(&self.dimensions, &d),
            None => self.starting_position == Position::default(),
        }
    }

    /// Stored bytes of this realm.
    pub fn space(&self) -> (r: usize)
        requires
            self.space_spec() <= usize::MAX,
        ensures
            r == self.space_spec(),
    {
        realm_space(&self.description, self.masters.len(), self.dimensions.len())
    }
}

/// Under unique keys, the one index that holds `key` is its `master_index`.
pub proof fn lemma_master_index_unique(masters: Seq<RealmMaster>, key: Pubkey, i: int)
    requires
        keys_unique(masters),
        0 <= i < masters.len(),
        masters[i].pubkey == key,
    ensures
        is_master(masters, key),
        master_index(masters, key) == i,
        role_of(masters, key) == Some(masters[i].role),
{
    assert(is_master(masters, key));
    let k = master_index(masters, key);
    assert(0 <= k < masters.len() && masters[k].pubkey == key);
}

impl Clone for RealmDescription {
    fn clone(&self) -> (r: RealmDescription)
        ensures
            r == *self,
    {
        RealmDescription {
            name: self.name.clone(),
            details: self.details.clone(),
            logo: self.logo.clone(),
        }
    }
}

impl RealmDescription {
    /// Checks the name and details against their length limits.
    pub fn validate(&self) -> (r: Result<(), ErrorCode>)
        ensures
            r is Ok <==> description_error(*self) is None,
            r matches Err(e) ==> description_error(*self) == Some(e),
    {
        if text_len(&self.name) > MAX_NAME_LEN {
            return Err(ErrorCode::NameTooLong);
        }
        if text_len(&self.details) > MAX_DETAILS_LEN {
            return Err(ErrorCode::DetailsTooLong);
        }
        Ok(())
    }
}

/// Stored bytes of a realm with this description, `masters_count` masters
/// and `dimensions_count` dimensions.
pub fn realm_space(
    description: &RealmDescription,
    masters_count: usize,
    dimensions_count: usize,
) -> (r: usize)
    requires
        realm_space_spec(*description, masters_count as int, dimensions_count as int) <= usize::MAX,
    ensures
        r == realm_space_spec(*description, masters_count as int, dimensions_count as int),
{
    assert(0 <= masters_count * REALM_MASTER_LEN) by (nonlinear_arith);
    assert(0 <= dimensions_count * PUBKEY_LEN) by (nonlinear_arith);
    DISCRIMINATOR_LEN + LEN_PREFIX + text_len(&description.name) + LEN_PREFIX + text_len(
        &description.details,
    ) + LEN_PREFIX + text_len(&description.logo) + TIMESTAMP_LEN + TIMESTAMP_LEN + LEN_PREFIX
        + masters_count * REALM_MASTER_LEN + LEN_PREFIX + dimensions_count * PUBKEY_LEN
        + OPTION_PUBKEY_LEN + POSITION_LEN
}

} // verus!
