use vstd::prelude::*;
use crate::errors::ErrorCode;
use crate::events::{HeroEvent, HeroEventType};
use crate::hero::{Hero, HeroDescription};
use crate::hero_stats::{stats_for_tags, stats_for_tags_spec, HeroTag};
use crate::pubkey::Pubkey;

verus! {

/// Creates the hero stored at `hero_key`, owned by `master`, with base stats
/// from its tags.
pub fn create_hero(
    hero_key: Pubkey,
    master: Pubkey,
    description: HeroDescription,
    tags: &Vec<HeroTag>,
    now: i64,
) -> (r: (Hero, HeroEvent))
    ensures
        r.0 == (Hero {
            master,
            description,
            base_stats: stats_for_tags_spec(tags@),
            created_at: now,
            updated_at: now,
        }),
        r.1 == (HeroEvent { event_type: HeroEventType::HeroCreated { hero_pubkey: hero_key } }),
{
    let hero = Hero {
        master,
        description,
        base_stats: stats_for_tags(tags),
        created_at: now,
        updated_at: now,
    };
    (hero, HeroEvent { event_type: HeroEventType::HeroCreated { hero_pubkey: hero_key } })
}

/// Replaces a hero's description; its master only.
pub fn update_hero_description(
    hero: &mut Hero,
    hero_key: Pubkey,
    caller: Pubkey,
    description: HeroDescription,
    now: i64,
) -> (r: Result<HeroEvent, ErrorCode>)
    ensures
        r is Ok <==> caller == old(hero).master,
        r is Err ==> r == Err::<HeroEvent, ErrorCode>(ErrorCode::Unauthorized) && *final(hero)
            == *old(hero),
        r matches Ok(event) ==> {
            &&& *final(hero) == (Hero { description, updated_at: now, ..*old(hero) })
            &&& event == (HeroEvent {
                event_type: HeroEventType::HeroUpdated { hero_pubkey: hero_key },
            })
        },
{
    if hero.master != caller {
        return Err(ErrorCode::Unauthorized);
    }
    hero.description = description;
    hero.updated_at = now;
    Ok(HeroEvent { event_type: HeroEventType::HeroUpdated { hero_pubkey: hero_key } })
}

} // verus!
