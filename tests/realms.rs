use realm_voyagers::constants::{MAX_DETAILS_LEN, MAX_NAME_LEN};
use realm_voyagers::realm::realm_space;
use realm_voyagers::{
    add_realm_dimension, add_realm_master, create_realm, delete_realm, update_realm_description,
    ErrorCode, Position, Pubkey, RealmDescription, RealmDimensionArea, RealmEventType,
    RealmMaster, RealmMasterRole, Rect,
};

fn key(b: u8) -> Pubkey {
    Pubkey::new([b; 32])
}

fn description(name: &str, details: &str) -> RealmDescription {
    RealmDescription { name: name.to_string(), details: details.to_string(), logo: "l".to_string() }
}

fn area(tileset: &str, tilemap: &str) -> RealmDimensionArea {
    RealmDimensionArea {
        name: "a".to_string(),
        area: Rect { top_left: Position { x: 0, y: 0 }, bottom_right: Position { x: 9, y: 9 } },
        tileset: tileset.to_string(),
        tilemap: tilemap.to_string(),
    }
}

#[test]
fn create_realm_makes_creator_owner() {
    let a = key(1);
    let (realm, event) = create_realm(key(100), a, description("R1", "d"), 42).unwrap();
    assert_eq!(realm.masters, vec![RealmMaster { pubkey: a, role: RealmMasterRole::Owner }]);
    assert_eq!(realm.created_at, 42);
    assert_eq!(realm.updated_at, 42);
    assert!(realm.dimensions.is_empty());
    assert_eq!(realm.starting_dimension, None);
    assert_eq!(realm.starting_position, Position { x: 0, y: 0 });
    assert_eq!(realm.description, description("R1", "d"));
    assert_eq!(
        event.event_type,
        RealmEventType::RealmCreated { description: description("R1", "d") }
    );
    assert_eq!(event.realm_pubkey, key(100));
}

#[test]
fn create_realm_length_limits() {
    let a = key(1);
    let name_max = "n".repeat(MAX_NAME_LEN);
    let details_max = "d".repeat(MAX_DETAILS_LEN);
    assert!(create_realm(key(100), a, description(&name_max, &details_max), 1).is_ok());
    let name_over = "n".repeat(MAX_NAME_LEN + 1);
    let details_over = "d".repeat(MAX_DETAILS_LEN + 1);
    assert_eq!(
        create_realm(key(100), a, description(&name_over, "d"), 1).map(|_| ()),
        Err(ErrorCode::NameTooLong)
    );
    assert_eq!(
        create_realm(key(100), a, description("n", &details_over), 1).map(|_| ()),
        Err(ErrorCode::DetailsTooLong)
    );
    assert_eq!(
        create_realm(key(100), a, description(&name_over, &details_over), 1).map(|_| ()),
        Err(ErrorCode::NameTooLong)
    );
}

#[test]
fn name_limit_counts_bytes() {
    // 40 two-byte characters fill the 80-byte limit exactly; one more does not fit.
    let fits = "é".repeat(40);
    let over = "é".repeat(41);
    assert!(description(&fits, "d").validate().is_ok());
    assert_eq!(description(&over, "d").validate(), Err(ErrorCode::NameTooLong));
}

#[test]
fn update_description_by_owner_and_admin() {
    let (a, b, c) = (key(1), key(2), key(3));
    let (mut realm, _) = create_realm(key(100), a, description("R1", "d"), 1).unwrap();
    add_realm_master(&mut realm, key(100), a, b, 2).unwrap();
    let event = update_realm_description(&mut realm, key(100), b, description("R2", "e"), 3).unwrap();
    assert_eq!(realm.description, description("R2", "e"));
    assert_eq!(realm.updated_at, 3);
    assert_eq!(realm.created_at, 1);
    assert_eq!(
        event.event_type,
        RealmEventType::RealmDescriptionUpdated { description: description("R2", "e") }
    );
    update_realm_description(&mut realm, key(100), a, description("R3", "f"), 4).unwrap();
    assert_eq!(realm.description.name, "R3");
    let before = realm.clone();
    assert_eq!(
        update_realm_description(&mut realm, key(100), c, description("X", "x"), 5),
        Err(ErrorCode::UnauthorizedRealmMaster)
    );
    assert_eq!(
        update_realm_description(&mut realm, key(100), a, description(&"n".repeat(81), "x"), 5),
        Err(ErrorCode::NameTooLong)
    );
    assert_eq!(
        update_realm_description(&mut realm, key(100), a, description("n", &"d".repeat(251)), 5),
        Err(ErrorCode::DetailsTooLong)
    );
    assert_eq!(realm, before);
}

#[test]
fn delete_realm_needs_every_dimension() {
    let a = key(1);
    let (mut realm, _) = create_realm(key(100), a, description("R1", "d"), 1).unwrap();
    add_realm_dimension(&mut realm, key(100), key(50), a, "D1".to_string(), vec![area("t", "m")], 2)
        .unwrap();
    add_realm_dimension(&mut realm, key(100), key(51), a, "D2".to_string(), vec![], 3).unwrap();
    assert_eq!(
        delete_realm(&realm, key(100), a, &vec![key(50)]),
        Err(ErrorCode::DimensionNotProvided)
    );
    assert_eq!(delete_realm(&realm, key(100), a, &vec![]), Err(ErrorCode::DimensionNotProvided));
    let event = delete_realm(&realm, key(100), a, &vec![key(51), key(7), key(50)]).unwrap();
    assert_eq!(event.event_type, RealmEventType::RealmDeleted {});
    assert_eq!(event.realm_pubkey, key(100));
}

#[test]
fn delete_realm_owner_only() {
    let (a, b) = (key(1), key(2));
    let (mut realm, _) = create_realm(key(100), a, description("R1", "d"), 1).unwrap();
    add_realm_master(&mut realm, key(100), a, b, 2).unwrap();
    assert_eq!(delete_realm(&realm, key(100), b, &vec![]), Err(ErrorCode::UnauthorizedRealmMaster));
    assert_eq!(delete_realm(&realm, key(100), key(9), &vec![]), Err(ErrorCode::UnauthorizedRealmMaster));
    assert!(delete_realm(&realm, key(100), a, &vec![]).is_ok());
}

#[test]
fn realm_space_formula() {
    let d = description("abc", "de");
    // 8 + (4+3) + (4+2) + (4+1) + 8 + 8 + (4 + 2*33) + (4 + 3*32) + 33 + 8
    assert_eq!(realm_space(&d, 2, 3), 253);
    let (mut realm, _) = create_realm(key(100), key(1), d, 1).unwrap();
    assert_eq!(realm.space(), 8 + 7 + 6 + 5 + 8 + 8 + 4 + 33 + 4 + 33 + 8);
    let before = realm.space();
    add_realm_master(&mut realm, key(100), key(1), key(2), 2).unwrap();
    assert_eq!(realm.space(), before + 33);
    add_realm_dimension(&mut realm, key(100), key(50), key(1), "D".to_string(), vec![], 3).unwrap();
    assert_eq!(realm.space(), before + 33 + 32);
}
