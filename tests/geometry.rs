use realm_voyagers::master::RealmMaster as Master;
use realm_voyagers::{
    Position, Pubkey, RealmDimension, RealmMaster, RealmMasterRole, Rect,
};

fn rect(x0: i32, y0: i32, x1: i32, y1: i32) -> Rect {
    Rect { top_left: Position { x: x0, y: y0 }, bottom_right: Position { x: x1, y: y1 } }
}

#[test]
fn distances() {
    let a = Position { x: 1, y: 2 };
    let b = Position { x: 4, y: 6 };
    assert_eq!(a.distance_squared(&b), 25);
    assert_eq!(a.distance(&b), 5);
    let c = Position { x: 0, y: 0 };
    let d = Position { x: 2, y: 2 };
    assert_eq!(c.distance_squared(&d), 8);
    assert_eq!(c.distance(&d), 2);
    assert_eq!(c.distance(&c), 0);
    let far = Position { x: 30000, y: 30000 };
    assert_eq!(c.distance_squared(&far), 1_800_000_000);
    assert_eq!(c.distance(&far), 42426);
}

#[test]
fn rect_queries() {
    let r = rect(0, 0, 10, 5);
    assert!(r.contains(&Position { x: 0, y: 0 }));
    assert!(r.contains(&Position { x: 10, y: 5 }));
    assert!(!r.contains(&Position { x: 11, y: 5 }));
    assert!(!r.contains(&Position { x: 3, y: -1 }));
    assert!(r.intersects(&rect(10, 5, 20, 20)));
    assert!(!r.intersects(&rect(11, 0, 20, 20)));
    assert!(rect(2, 2, 3, 3).intersects(&r));
    assert_eq!(r.area(), 50);
    assert_eq!(rect(-2, -3, 2, 3).area(), 24);
    assert_eq!(Rect::default(), rect(0, 0, 0, 0));
    assert_eq!(Position::default(), Position { x: 0, y: 0 });
}

#[test]
fn role_capabilities() {
    let me = Pubkey::new([1; 32]);
    let other = Pubkey::new([2; 32]);
    let mine = RealmDimension { realm: other, owner: me, name: String::new(), areas: vec![] };
    let theirs = RealmDimension { realm: other, owner: other, name: String::new(), areas: vec![] };
    let owner = RealmMaster { pubkey: me, role: RealmMasterRole::Owner };
    let admin = RealmMaster { pubkey: me, role: RealmMasterRole::Admin };
    let curator: Master = RealmMaster { pubkey: me, role: RealmMasterRole::Curator };
    assert!(owner.can_update_realm() && admin.can_update_realm() && !curator.can_update_realm());
    assert!(owner.can_delete_realm() && !admin.can_delete_realm() && !curator.can_delete_realm());
    assert!(owner.can_manage_realm_masters() && !admin.can_manage_realm_masters());
    assert!(!curator.can_manage_realm_masters());
    assert!(owner.can_add_realm_dimension() && admin.can_add_realm_dimension());
    assert!(!curator.can_add_realm_dimension());
    assert!(owner.can_manage_realm_dimension(&theirs) && owner.can_manage_realm_dimension(&mine));
    assert!(admin.can_manage_realm_dimension(&mine) && !admin.can_manage_realm_dimension(&theirs));
    assert!(!curator.can_manage_realm_dimension(&mine));
    assert!(owner.can_set_realm_starting_point() && !admin.can_set_realm_starting_point());
    assert!(!curator.can_set_realm_starting_point());
}

#[test]
fn key_equality() {
    let mut bytes = [7u8; 32];
    let a = Pubkey::new(bytes);
    bytes[31] = 8;
    let b = Pubkey::new(bytes);
    assert!(a == Pubkey::new([7u8; 32]));
    assert!(a != b);
    assert_eq!(a.bytes[0], 7);
}
