use realm_voyagers::hero::{hero_space, player_hero_space};
use realm_voyagers::hero_stats::stats_for_tags;
use realm_voyagers::{
    create_hero, update_hero_description, ErrorCode, HeroDescription, HeroEventType, HeroStats,
    HeroTag, Pubkey,
};

fn key(b: u8) -> Pubkey {
    Pubkey::new([b; 32])
}

fn description(name: &str) -> HeroDescription {
    HeroDescription {
        name: name.to_string(),
        graphics: "ipfs://x".to_string(),
        lore: "old".to_string(),
    }
}

#[test]
fn default_and_zero_stats() {
    let d = HeroStats::default();
    assert_eq!((d.strength, d.agility, d.charisma, d.willpower), (1, 1, 1, 1));
    let z = HeroStats::zero();
    assert_eq!((z.strength, z.dexterity, z.wisdom, z.willpower), (0, 0, 0, 0));
}

#[test]
fn builders_set_one_attribute() {
    let s = HeroStats::zero()
        .with_strength(1)
        .with_agility(2)
        .with_dexterity(3)
        .with_constitution(4)
        .with_intelligence(5)
        .with_wisdom(6)
        .with_charisma(7)
        .with_willpower(8);
    assert_eq!(
        (s.strength, s.agility, s.dexterity, s.constitution, s.intelligence, s.wisdom, s.charisma, s.willpower),
        (1, 2, 3, 4, 5, 6, 7, 8)
    );
    let t = s.add(HeroStats::default());
    assert_eq!((t.strength, t.willpower), (2, 9));
}

#[test]
fn tag_points() {
    let m = HeroTag::Mage.base_stats();
    assert_eq!(m, HeroStats::zero().with_intelligence(1).with_wisdom(1).with_willpower(1));
    let a = HeroTag::Archer.base_stats();
    assert_eq!(a, HeroStats::zero().with_agility(1).with_dexterity(1).with_wisdom(1));
    let k = HeroTag::Knight.base_stats();
    assert_eq!(k, HeroStats::zero().with_strength(1).with_constitution(1).with_willpower(1));
}

#[test]
fn stats_from_tags_sum() {
    assert_eq!(stats_for_tags(&vec![]), HeroStats::default());
    let s = stats_for_tags(&vec![HeroTag::Mage, HeroTag::Knight, HeroTag::Mage]);
    assert_eq!(
        s,
        HeroStats {
            strength: 1,
            agility: 0,
            dexterity: 0,
            constitution: 1,
            intelligence: 2,
            wisdom: 2,
            charisma: 0,
            willpower: 3,
        }
    );
}

#[test]
fn hero_creation_and_update() {
    let (m, x) = (key(1), key(2));
    let (mut hero, event) = create_hero(key(90), m, description("Ayla"), &vec![HeroTag::Archer], 5);
    assert_eq!(hero.master, m);
    assert_eq!(hero.description, description("Ayla"));
    assert_eq!(hero.base_stats, HeroTag::Archer.base_stats());
    assert_eq!((hero.created_at, hero.updated_at), (5, 5));
    assert_eq!(event.event_type, HeroEventType::HeroCreated { hero_pubkey: key(90) });
    let before = hero.clone();
    assert_eq!(
        update_hero_description(&mut hero, key(90), x, description("Bo"), 6),
        Err(ErrorCode::Unauthorized)
    );
    assert_eq!(hero, before);
    let event = update_hero_description(&mut hero, key(90), m, description("Bo"), 7).unwrap();
    assert_eq!(hero.description, description("Bo"));
    assert_eq!((hero.created_at, hero.updated_at), (5, 7));
    assert_eq!(event.event_type, HeroEventType::HeroUpdated { hero_pubkey: key(90) });
}

#[test]
fn hero_space_formula() {
    let d = description("Ayla");
    // 8 + 32 + (4+4) + (4+8) + (4+3) + 64 + 8 + 8
    assert_eq!(hero_space(&d), 147);
    let (hero, _) = create_hero(key(90), key(1), d, &vec![], 5);
    assert_eq!(hero.space(), 147);
    // 8 + 32 + 32 + (4+2) + 8 + 8 + 64 + (4 + 3*32) + 8 + 8
    assert_eq!(player_hero_space(&"Bo".to_string(), 3), 274);
}
