use vstd::prelude::*;
use crate::common::Position;
use crate::errors::ErrorCode;
use crate::pubkey::Pubkey;
use crate::realm::Realm;

verus! {

/// A player's progress through a realm.
#[derive(Clone, Copy, Debug, PartialEq, Eq)]
pub struct Journey {
    pub realm: Pubkey,
    pub player: Pubkey,
    pub started_at: i64,
    pub dimension: Pubkey,
    pub position: Position,
}

/// Starts `player`'s journey in the realm stored at `realm_key`, at the
/// realm's starting point.
pub fn start_journey(realm: &Realm, realm_key: Pubkey, player: Pubkey, now: i64) -> (r: Result<
    Journey,
    ErrorCode,
>)
    ensures
        r is Err <==> realm.starting_dimension is None,
        r is Err ==> r == Err::<Journey, ErrorCode>(ErrorCode::RealmHasNoStartingDimension),
        r matches Ok(journey) ==> realm.starting_dimension matches Some(d) && journey == (Journey {
            realm: realm_key,
            player,
            started_at: now,
            dimension: d,
            position: realm.starting_position,
        }),
{
    match realm.starting_dimension {
        Some(dimension) => Ok(
            Journey {
                realm: realm_key,
                player,
                started_at: now,
                dimension,
                position: realm.starting_position,
            },
        ),
        None => Err(ErrorCode::RealmHasNoStartingDimension),
    }
}

} // verus!
