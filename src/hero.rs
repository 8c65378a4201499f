use vstd::prelude::*;
use crate::common::{byte_len, text_len};
use crate::constants::{
    DISCRIMINATOR_LEN, HERO_STATS_LEN, LEN_PREFIX, PUBKEY_LEN, TIMESTAMP_LEN, U64_LEN,
};
use crate::hero_stats::HeroStats;
use crate::pubkey::Pubkey;

verus! {

/// What a hero class shows of itself.
#[derive(Clone, Debug, PartialEq, Eq)]
pub struct HeroDescription {
    /// Base name of the hero class.
    pub name: String,
    /// Where its graphics are found.
    pub graphics: String,
    /// Its background.
    pub lore: String,
}

/// A hero class, owned by the master that created it.
#[derive(Clone, Debug, PartialEq, Eq)]
pub struct Hero {
    pub master: Pubkey,
    pub description: HeroDescription,
    pub base_stats: HeroStats,
    pub created_at: i64,
    pub updated_at: i64,
}

/// A player's own instance of a hero class.
#[derive(Clone, Debug, PartialEq, Eq)]
pub struct PlayerHero {
    pub player: Pubkey,
    pub hero: Pubkey,
    pub name: String,
    pub level: u64,
    pub xp: u64,
    pub stats: HeroStats,
    pub items: Vec<Pubkey>,
    pub created_at: i64,
    pub updated_at: i64,
}

/// Stored bytes of a hero with this description.
pub open spec fn hero_space_spec(d: HeroDescription) -> int {
    DISCRIMINATOR_LEN + PUBKEY_LEN + LEN_PREFIX + byte_len(d.name@) + LEN_PREFIX + byte_len(
        d.graphics@,
    ) + LEN_PREFIX + byte_len(d.lore@) + HERO_STATS_LEN + TIMESTAMP_LEN + TIMESTAMP_LEN
}

/// Stored bytes of a player hero with this name and `items_count` items.
pub open spec fn player_hero_space_spec(name: Seq<char>, items_count: int) -> int {
    DISCRIMINATOR_LEN + PUBKEY_LEN + PUBKEY_LEN + LEN_PREFIX + byte_len(name) + U64_LEN + U64_LEN
        + HERO_STATS_LEN + LEN_PREFIX + items_count * PUBKEY_LEN + TIMESTAMP_LEN + TIMESTAMP_LEN
}

/// Stored bytes of a hero with this description.
pub fn hero_space(description: &HeroDescription) -> (r: usize)
    requires
        hero_space_spec(*description) <= usize::MAX,
    ensures
        r == hero_space_spec(*description),
{
    DISCRIMINATOR_LEN + PUBKEY_LEN + LEN_PREFIX + text_len(&description.name) + LEN_PREFIX
        + text_len(&description.graphics) + LEN_PREFIX + text_len(&description.lore)
        + HERO_STATS_LEN + TIMESTAMP_LEN + TIMESTAMP_LEN
}

/// Stored bytes of a player hero with this name and `items_count` items.
pub fn player_hero_space(name: &String, items_count: usize) -> (r: usize)
    requires
        player_hero_space_spec(name@, items_count as int) <= usize::MAX,
    ensures
        r == player_hero_space_spec(name@, items_count as int),
{
    assert(0 <= items_count * PUBKEY_LEN) by (nonlinear_arith);
    DISCRIMINATOR_LEN + PUBKEY_LEN + PUBKEY_LEN + LEN_PREFIX + text_len(name) + U64_LEN + U64_LEN
        + HERO_STATS_LEN + LEN_PREFIX + items_count * PUBKEY_LEN + TIMESTAMP_LEN + TIMESTAMP_LEN
}

impl Hero {
    /// Stored bytes of this hero.
    pub fn space(&self) -> (r: usize)
        requires
            hero_space_spec(self.description) <= usize::MAX,
        ensures
            r == hero_space_spec(self.description),
    {
        hero_space(&self.description)
    }
}

impl PlayerHero {
    /// Stored bytes of this player hero.
    pub fn space(&self) -> (r: usize)
        requires
            player_hero_space_spec(self.name@, self.items@.len() as int) <= usize::MAX,
        ensures
            r == player_hero_space_spec(self.name@, self.items@.len() as int),
    {
        player_hero_space(&self.name, self.items.len())
    }
}

} // verus!
