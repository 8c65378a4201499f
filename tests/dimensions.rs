use realm_voyagers::constants::{MAX_NAME_LEN, MAX_RESOURCE_PATH_LEN};
use realm_voyagers::dimension::{realm_dimension_space, validate_dimension};
use realm_voyagers::{
    add_realm_dimension, add_realm_master, create_realm, remove_realm_dimension,
    remove_realm_master, set_realm_starting_point, start_journey, update_realm_dimension,
    ErrorCode, Position, Pubkey, Realm, RealmDescription, RealmDimension, RealmDimensionArea,
    RealmDimensionEventType, RealmEventType, Rect,
};

fn key(b: u8) -> Pubkey {
    Pubkey::new([b; 32])
}

fn rect(x0: i32, y0: i32, x1: i32, y1: i32) -> Rect {
    Rect { top_left: Position { x: x0, y: y0 }, bottom_right: Position { x: x1, y: y1 } }
}

fn area(name: &str, r: Rect, tileset: &str, tilemap: &str) -> RealmDimensionArea {
    RealmDimensionArea {
        name: name.to_string(),
        area: r,
        tileset: tileset.to_string(),
        tilemap: tilemap.to_string(),
    }
}

fn new_realm(owner: Pubkey) -> Realm {
    let d = RealmDescription {
        name: "R1".to_string(),
        details: "d".to_string(),
        logo: "l".to_string(),
    };
    create_realm(key(100), owner, d, 1).unwrap().0
}

#[test]
fn first_dimension_becomes_start_and_owner_cannot_be_removed() {
    let (a, b) = (key(1), key(2));
    let mut realm = new_realm(a);
    let (l1, event) = add_realm_dimension(
        &mut realm,
        key(100),
        key(50),
        a,
        "L1".to_string(),
        vec![area("main", rect(0, 0, 9, 9), "ts1", "tm1")],
        2,
    )
    .unwrap();
    assert_eq!(realm.starting_dimension, Some(key(50)));
    assert_eq!(realm.dimensions, vec![key(50)]);
    assert_eq!(l1.owner, a);
    assert_eq!(l1.realm, key(100));
    assert_eq!(l1.name, "L1");
    assert_eq!(l1.areas[0].tileset, "ts1");
    assert_eq!(l1.areas[0].tilemap, "tm1");
    assert_eq!(event.event_type, RealmDimensionEventType::DimensionAdded { name: "L1".to_string() });
    add_realm_master(&mut realm, key(100), a, b, 3).unwrap();
    assert_eq!(
        remove_realm_master(&mut realm, key(100), b, a, 4),
        Err(ErrorCode::CantRemoveRealmOwner)
    );
}

#[test]
fn admin_cannot_update_anothers_dimension() {
    let (a, c) = (key(1), key(3));
    let mut realm = new_realm(a);
    add_realm_master(&mut realm, key(100), a, c, 2).unwrap();
    let (mut l2, _) =
        add_realm_dimension(&mut realm, key(100), key(52), a, "L2".to_string(), vec![], 3).unwrap();
    let before = l2.clone();
    let areas = vec![area("x", rect(0, 0, 1, 1), "ts2", "tm2")];
    assert_eq!(
        update_realm_dimension(&realm, key(100), &mut l2, key(52), c, "L2b".to_string(), areas.clone()),
        Err(ErrorCode::UnauthorizedRealmMaster)
    );
    assert_eq!(l2, before);
    let event =
        update_realm_dimension(&realm, key(100), &mut l2, key(52), a, "L2b".to_string(), areas.clone())
            .unwrap();
    assert_eq!(l2.name, "L2b");
    assert_eq!(l2.areas, areas);
    assert_eq!(l2.owner, a);
    assert_eq!(event.event_type, RealmDimensionEventType::DimensionUpdated { name: "L2b".to_string() });
}

#[test]
fn admin_manages_own_dimension_only() {
    let (a, c, d) = (key(1), key(3), key(4));
    let mut realm = new_realm(a);
    add_realm_master(&mut realm, key(100), a, c, 2).unwrap();
    add_realm_master(&mut realm, key(100), a, d, 2).unwrap();
    let (mut mine, _) =
        add_realm_dimension(&mut realm, key(100), key(60), c, "C".to_string(), vec![], 3).unwrap();
    assert_eq!(mine.owner, c);
    assert!(update_realm_dimension(&realm, key(100), &mut mine, key(60), c, "C2".to_string(), vec![]).is_ok());
    assert_eq!(
        remove_realm_dimension(&mut realm, key(100), &mine, key(60), d, 4),
        Err(ErrorCode::UnauthorizedRealmMaster)
    );
    assert!(remove_realm_dimension(&mut realm, key(100), &mine, key(60), c, 4).is_ok());
    assert!(realm.dimensions.is_empty());
}

#[test]
fn outsiders_cannot_add_dimensions() {
    let a = key(1);
    let mut realm = new_realm(a);
    assert_eq!(
        add_realm_dimension(&mut realm, key(100), key(50), key(9), "X".to_string(), vec![], 2)
            .map(|_| ()),
        Err(ErrorCode::UnauthorizedRealmMaster)
    );
    assert!(realm.dimensions.is_empty());
}

#[test]
fn later_dimension_keeps_start() {
    let a = key(1);
    let mut realm = new_realm(a);
    add_realm_dimension(&mut realm, key(100), key(50), a, "D1".to_string(), vec![], 2).unwrap();
    add_realm_dimension(&mut realm, key(100), key(51), a, "D2".to_string(), vec![], 3).unwrap();
    assert_eq!(realm.starting_dimension, Some(key(50)));
    assert_eq!(realm.dimensions, vec![key(50), key(51)]);
}

#[test]
fn add_then_remove_restores_dimensions() {
    let a = key(1);
    let mut realm = new_realm(a);
    add_realm_dimension(&mut realm, key(100), key(50), a, "D1".to_string(), vec![], 2).unwrap();
    set_realm_starting_point(&mut realm, key(100), key(50), a, Position { x: 3, y: 4 }, 3).unwrap();
    let before = realm.clone();
    let (d2, _) =
        add_realm_dimension(&mut realm, key(100), key(51), a, "D2".to_string(), vec![], 4).unwrap();
    let event = remove_realm_dimension(&mut realm, key(100), &d2, key(51), a, 5).unwrap();
    assert_eq!(event.event_type, RealmDimensionEventType::DimensionRemoved {});
    assert_eq!(realm.dimensions, before.dimensions);
    assert_eq!(realm.starting_dimension, before.starting_dimension);
    assert_eq!(realm.starting_position, before.starting_position);
}

#[test]
fn add_then_remove_on_empty_realm() {
    let a = key(1);
    let mut realm = new_realm(a);
    let (d, _) =
        add_realm_dimension(&mut realm, key(100), key(50), a, "D".to_string(), vec![], 2).unwrap();
    assert_eq!(realm.starting_dimension, Some(key(50)));
    remove_realm_dimension(&mut realm, key(100), &d, key(50), a, 3).unwrap();
    assert!(realm.dimensions.is_empty());
    assert_eq!(realm.starting_dimension, None);
    assert_eq!(realm.starting_position, Position { x: 0, y: 0 });
}

#[test]
fn removing_start_clears_it() {
    let a = key(1);
    let mut realm = new_realm(a);
    let (d1, _) =
        add_realm_dimension(&mut realm, key(100), key(50), a, "D1".to_string(), vec![], 2).unwrap();
    add_realm_dimension(&mut realm, key(100), key(51), a, "D2".to_string(), vec![], 2).unwrap();
    set_realm_starting_point(&mut realm, key(100), key(50), a, Position { x: 5, y: 6 }, 3).unwrap();
    remove_realm_dimension(&mut realm, key(100), &d1, key(50), a, 4).unwrap();
    assert_eq!(realm.dimensions, vec![key(51)]);
    assert_eq!(realm.starting_dimension, None);
    assert_eq!(realm.starting_position, Position { x: 0, y: 0 });
    assert_eq!(start_journey(&realm, key(100), key(8), 5), Err(ErrorCode::RealmHasNoStartingDimension));
    // The next dimension added becomes the start again.
    add_realm_dimension(&mut realm, key(100), key(52), a, "D3".to_string(), vec![], 5).unwrap();
    assert_eq!(realm.starting_dimension, Some(key(52)));
}

#[test]
fn starting_point_rules() {
    let (a, b) = (key(1), key(2));
    let mut realm = new_realm(a);
    add_realm_master(&mut realm, key(100), a, b, 2).unwrap();
    add_realm_dimension(&mut realm, key(100), key(50), a, "D1".to_string(), vec![], 2).unwrap();
    add_realm_dimension(&mut realm, key(100), key(51), a, "D2".to_string(), vec![], 2).unwrap();
    let before = realm.clone();
    assert_eq!(
        set_realm_starting_point(&mut realm, key(100), key(51), b, Position { x: 1, y: 1 }, 3),
        Err(ErrorCode::UnauthorizedRealmMaster)
    );
    assert_eq!(
        set_realm_starting_point(&mut realm, key(100), key(77), a, Position { x: 1, y: 1 }, 3),
        Err(ErrorCode::StartingDimensionNotInRealm)
    );
    assert_eq!(realm, before);
    let event =
        set_realm_starting_point(&mut realm, key(100), key(51), a, Position { x: -4, y: 7 }, 3).unwrap();
    assert_eq!(
        event.event_type,
        RealmEventType::RealmStartingPointSet {
            dimension_pubkey: key(51),
            position: Position { x: -4, y: 7 },
        }
    );
    assert_eq!(event.realm_pubkey, key(100));
    assert_eq!(realm.starting_dimension, Some(key(51)));
    assert_eq!(realm.starting_position, Position { x: -4, y: 7 });
    assert_eq!(realm.updated_at, 3);
}

#[test]
fn journey_starts_at_starting_point() {
    let a = key(1);
    let mut realm = new_realm(a);
    assert_eq!(start_journey(&realm, key(100), key(8), 2), Err(ErrorCode::RealmHasNoStartingDimension));
    add_realm_dimension(&mut realm, key(100), key(50), a, "D1".to_string(), vec![], 2).unwrap();
    set_realm_starting_point(&mut realm, key(100), key(50), a, Position { x: 2, y: 3 }, 3).unwrap();
    let journey = start_journey(&realm, key(100), key(8), 9).unwrap();
    assert_eq!(journey.realm, key(100));
    assert_eq!(journey.player, key(8));
    assert_eq!(journey.started_at, 9);
    assert_eq!(journey.dimension, key(50));
    assert_eq!(journey.position, Position { x: 2, y: 3 });
}

#[test]
fn dimension_length_limits() {
    let name_max = "n".repeat(MAX_NAME_LEN);
    let path_max = "p".repeat(MAX_RESOURCE_PATH_LEN);
    let path_over = "p".repeat(MAX_RESOURCE_PATH_LEN + 1);
    let r = rect(0, 0, 1, 1);
    let ok = vec![area(&name_max, r, &path_max, &path_max)];
    assert_eq!(validate_dimension(&name_max, &ok), Ok(()));
    assert_eq!(
        validate_dimension(&"n".repeat(MAX_NAME_LEN + 1), &ok),
        Err(ErrorCode::NameTooLong)
    );
    assert_eq!(
        validate_dimension(&"n".to_string(), &vec![area(&"n".repeat(81), r, "t", "m")]),
        Err(ErrorCode::NameTooLong)
    );
    assert_eq!(
        validate_dimension(&"n".to_string(), &vec![area("a", r, &path_over, "m")]),
        Err(ErrorCode::ResourcePathTooLong)
    );
    assert_eq!(
        validate_dimension(&"n".to_string(), &vec![area("a", r, "t", "m"), area("b", r, "t", &path_over)]),
        Err(ErrorCode::ResourcePathTooLong)
    );
    let mut realm = new_realm(key(1));
    assert_eq!(
        add_realm_dimension(&mut realm, key(100), key(50), key(1), "n".to_string(), vec![area("a", r, &path_over, "m")], 2)
            .map(|_| ()),
        Err(ErrorCode::ResourcePathTooLong)
    );
    assert!(realm.dimensions.is_empty());
    assert!(add_realm_dimension(&mut realm, key(100), key(50), key(1), name_max, ok, 2).is_ok());
}

#[test]
fn dimension_space_and_area_lookup() {
    let areas = vec![
        area("west", rect(0, 0, 9, 9), "t1", "m1"),
        area("overlap", rect(5, 5, 20, 20), "ts", "tm"),
    ];
    // 8 + 32 + 32 + (4 + 3) + 4 + [(4+4) + 16 + (4+2) + (4+2)] + [(4+7) + 16 + (4+2) + (4+2)]
    assert_eq!(realm_dimension_space(&"dim".to_string(), &areas), 79 + 38 + 41);
    let dim = RealmDimension { realm: key(100), owner: key(1), name: "dim".to_string(), areas };
    assert_eq!(dim.space(), 158);
    assert_eq!(dim.area_at(&Position { x: 0, y: 0 }), Some(0));
    assert_eq!(dim.area_at(&Position { x: 7, y: 7 }), Some(0));
    assert_eq!(dim.area_at(&Position { x: 15, y: 20 }), Some(1));
    assert_eq!(dim.area_at(&Position { x: 21, y: 3 }), None);
}
