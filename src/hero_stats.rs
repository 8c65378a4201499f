use vstd::prelude::*;

verus! {

/// The eight base attributes of a hero.
#[derive(Clone, Copy, Debug, PartialEq, Eq, Structural)]
pub struct HeroStats {
    /// Melee damage and physical power.
    pub strength: u64,
    /// Movement, evasion and initiative.
    pub agility: u64,
    /// Precision, accuracy and stealth.
    pub dexterity: u64,
    /// Health and physical endurance.
    pub constitution: u64,
    /// Magical power and logical reasoning.
    pub intelligence: u64,
    /// Healing, perception and magical defence.
    pub wisdom: u64,
    /// Social skills and leadership.
    pub charisma: u64,
    /// Mental resilience and focus.
    pub willpower: u64,
}

/// A hero class; each one adds a point to three attributes.
#[derive(Clone, Copy, Debug, PartialEq, Eq, Structural)]
pub enum HeroTag {
    Mage,
    Archer,
    Knight,
}

/// Every attribute at `v`.
pub open spec fn uniform_stats(v: u64) -> HeroStats {
    HeroStats {
        strength: v,
        agility: v,
        dexterity: v,
        constitution: v,
        intelligence: v,
        wisdom: v,
        charisma: v,
        willpower: v,
    }
}

/// The points one tag adds: intelligence, wisdom and willpower for a mage;
/// agility, dexterity and wisdom for an archer; strength, constitution and
/// willpower for a knight.
pub open spec fn tag_stats(tag: HeroTag) -> HeroStats {
    match tag {
        HeroTag::Mage => HeroStats { intelligence: 1, wisdom: 1, willpower: 1, ..uniform_stats(0) },
        HeroTag::Archer => HeroStats { agility: 1, dexterity: 1, wisdom: 1, ..uniform_stats(0) },
        HeroTag::Knight => HeroStats {
            strength: 1,
            constitution: 1,
            willpower: 1,
            ..uniform_stats(0)
        },
    }
}

/// How many times `tag` occurs in `tags`.
pub open spec fn tag_count(tags: Seq<HeroTag>, tag: HeroTag) -> nat
    decreases tags.len(),
{
    if tags.len() == 0 {
        0
    } else {
        tag_count(tags.drop_last(), tag) + if tags.last() == tag {
            1nat
        } else {
            0nat
        }
    }
}

/// The sum of the tags' points, attribute by attribute.
pub open spec fn tags_sum(tags: Seq<HeroTag>) -> HeroStats {
    let mage = tag_count(tags, HeroTag::Mage);
    let archer = tag_count(tags, HeroTag::Archer);
    let knight = tag_count(tags, HeroTag::Knight);
    HeroStats {
        strength: knight as u64,
        agility: archer as u64,
        dexterity: archer as u64,
        constitution: knight as u64,
        intelligence: mage as u64,
        wisdom: (mage + archer) as u64,
        charisma: 0,
        willpower: (mage + knight) as u64,
    }
}

/// Base stats of a hero with these tags: one in every attribute without
/// tags, else the sum of the tags' points.
pub open spec fn stats_for_tags_spec(tags: Seq<HeroTag>) -> HeroStats {
    if tags.len() == 0 {
        uniform_stats(1)
    } else {
        tags_sum(tags)
    }
}

/// Attribute-wise sum, when no attribute overflows.
pub open spec fn stats_sum(a: HeroStats, b: HeroStats) -> HeroStats {
    HeroStats {
        strength: (a.strength + b.strength) as u64,
        agility: (a.agility + b.agility) as u64,
        dexterity: (a.dexterity + b.dexterity) as u64,
        constitution: (a.constitution + b.constitution) as u64,
        intelligence: (a.intelligence + b.intelligence) as u64,
        wisdom: (a.wisdom + b.wisdom) as u64,
        charisma: (a.charisma + b.charisma) as u64,
        willpower: (a.willpower + b.willpower) as u64,
    }
}

/// No attribute of `a + b` exceeds `u64::MAX`.
pub open spec fn sum_fits(a: HeroStats, b: HeroStats) -> bool {
    &&& a.strength + b.strength <= u64::MAX
    &&& a.agility + b.agility <= u64::MAX
    &&& a.dexterity + b.dexterity <= u64::MAX
    &&& a.constitution + b.constitution <= u64::MAX
    &&& a.intelligence + b.intelligence <= u64::MAX
    &&& a.wisdom + b.wisdom <= u64::MAX
    &&& a.charisma + b.charisma <= u64::MAX
    &&& a.willpower + b.willpower <= u64::MAX
}

impl HeroStats {
    /// One in every attribute.
    pub fn default() -> (r: HeroStats)
        ensures
            r == uniform_stats(1),
    {
        HeroStats {
            strength: 1,
            agility: 1,
            dexterity: 1,
            constitution: 1,
            intelligence: 1,
            wisdom: 1,
            charisma: 1,
            willpower: 1,
        }
    }

    /// Zero in every attribute.
    pub fn zero() -> (r: HeroStats)
        ensures
            r == uniform_stats(0),
    {
        HeroStats {
            strength: 0,
            agility: 0,
            dexterity: 0,
            constitution: 0,
            intelligence: 0,
            wisdom: 0,
            charisma: 0,
            willpower: 0,
        }
    }

    /// The same stats with strength set to `value`.
    pub fn with_strength(self, value: u64) -> (r: HeroStats)
        ensures
            r == (HeroStats { strength: value, ..self }),
    {
        HeroStats { strength: value, ..self }
    }

    /// The same stats with agility set to `value`.
    pub fn with_agility(self, value: u64) -> (r: HeroStats)
        ensures
            r == (HeroStats { agility: value, ..self }),
    {
        HeroStats { agility: value, ..self }
    }

    /// The same stats with dexterity set to `value`.
    pub fn with_dexterity(self, value: u64) -> (r: HeroStats)
        ensures
            r == (HeroStats { dexterity: value, ..self }),
    {
        HeroStats { dexterity: value, ..self }
    }

    /// The same stats with constitution set to `value`.
    pub fn with_constitution(self, value: u64) -> (r: HeroStats)
        ensures
            r == (HeroStats { constitution: value, ..self }),
    {
        HeroStats { constitution: value, ..self }
    }

    /// The same stats with intelligence set to `value`.
    pub fn with_intelligence(self, value: u64) -> (r: HeroStats)
        ensures
            r == (HeroStats { intelligence: value, ..self }),
    {
        HeroStats { intelligence: value, ..self }
    }

    /// The same stats with wisdom set to `value`.
    pub fn with_wisdom(self, value: u64) -> (r: HeroStats)
        ensures
            r == (HeroStats { wisdom: value, ..self }),
    {
        HeroStats { wisdom: value, ..self }
    }

    /// The same stats with charisma set to `value`.
    pub fn with_charisma(self, value: u64) -> (r: HeroStats)
        ensures
            r == (HeroStats { charisma: value, ..self }),
    {
        HeroStats { charisma: value, ..self }
    }

    /// The same stats with willpower set to `value`.
    pub fn with_willpower(self, value: u64) -> (r: HeroStats)
        ensures
            r == (HeroStats { willpower: value, ..self }),
    {
        HeroStats { willpower: value, ..self }
    }

    /// Attribute-wise sum.
    pub fn add(self, other: HeroStats) -> (r: HeroStats)
        requires
            sum_fits(self, other),
        ensures
            r == stats_sum(self, other),
    {
        HeroStats {
            strength: self.strength + other.strength,
            agility: self.agility + other.agility,
            dexterity: self.dexterity + other.dexterity,
            constitution: self.constitution + other.constitution,
            intelligence: self.intelligence + other.intelligence,
            wisdom: self.wisdom + other.wisdom,
            charisma: self.charisma + other.charisma,
            willpower: self.willpower + other.willpower,
        }
    }
}

impl HeroTag {
    /// The points this tag adds to a hero's base stats.
    pub fn base_stats(&self) -> (r: HeroStats)
        ensures
            r == tag_stats(*self),
    {
        match self {
            HeroTag::Mage => HeroStats::zero().with_intelligence(1).with_wisdom(1).with_willpower(1),
            HeroTag::Archer => HeroStats::zero().with_agility(1).with_dexterity(1).with_wisdom(1),
            HeroTag::Knight => HeroStats::zero().with_strength(1).with_constitution(1).with_willpower(
                1,
            ),
        }
    }
}

/// Base stats for a hero with `tags`: all ones without tags, else the sum of
/// every tag's points.
pub fn stats_for_tags(tags: &Vec<HeroTag>) -> (r: HeroStats)
    ensures
        r == stats_for_tags_spec(tags@),
{
    if tags.len() == 0 {
        return HeroStats::default();
    }
    let mut stats = HeroStats::zero();
    let mut i: usize = 0;
    while i < tags.len()
        invariant
            0 <= i <= tags@.len(),
            tag_count(tags@.subrange(0, i as int), HeroTag::Mage) + tag_count(
                tags@.subrange(0, i as int),
                HeroTag::Archer,
            ) + tag_count(tags@.subrange(0, i as int), HeroTag::Knight) == i,
            stats == tags_sum(tags@.subrange(0, i as int)),
        decreases tags@.len() - i,
    {
        let ghost prefix = tags@.subrange(0, i + 1);
        proof {
            assert(prefix.drop_last() =~= tags@.subrange(0, i as int));
            assert(prefix.last() == tags@[i as int]);
        }
        let tag = tags[i];
        stats = stats.add(tag.base_stats());
        i = i + 1;
    }
    proof {
        assert(tags@.subrange(0, i as int) =~= tags@);
    }
    stats
}

} // verus!
