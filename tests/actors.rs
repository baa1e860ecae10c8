use elder_god::board::Pos;
use elder_god::entities::{Attributes, ClassType, Entity, PlayerType, Status};

fn at(class: ClassType) -> Entity {
    Entity::new_char(class, PlayerType::Player2, 1, Pos { x: 3, y: 3 }, false)
}

#[test]
fn class_table_is_reproduced() {
    let mut a = Attributes::new();
    assert_eq!(a.get_hp(), 1);
    assert_eq!(a.get_speed(), 0);
    let s = a.set_class(&ClassType::Support);
    assert_eq!((s.get_hp(), s.get_speed(), s.get_armor(), s.get_power(), s.get_actions(), s.get_exp()), (100, 3, 2, 2, 1, 0));
    assert_eq!(a, Attributes::new());
    let s = a.set_class(&ClassType::Assault);
    assert_eq!((s.hp, s.speed, s.armor, s.power, s.actions), (90, 4, 1, 4, 1));
    let s = a.set_class(&ClassType::Trapper);
    assert_eq!((s.hp, s.speed, s.armor, s.power, s.actions), (100, 3, 2, 2, 1));
    let s = a.set_class(&ClassType::Wraith);
    assert_eq!((s.hp, s.speed, s.armor, s.power, s.actions), (200, 6, 2, 2, 1));
    let s = a.set_class(&ClassType::Kraken);
    assert_eq!((s.hp, s.speed, s.armor, s.power, s.actions), (200, 4, 3, 4, 1));
    let s = a.set_class(&ClassType::Elder);
    assert_eq!((s.hp, s.speed, s.armor, s.power, s.actions), (500, 4, 5, 6, 2));
    let s = a.set_class(&ClassType::NPC);
    assert_eq!((s.hp, s.speed, s.armor, s.power, s.actions), (1, 1, 1, 1, 1));
}

#[test]
fn class_keys() {
    assert_eq!(ClassType::Support.key(), "Support");
    assert_eq!(ClassType::Assault.key(), "Assault");
    assert_eq!(ClassType::Trapper.key(), "Trapper");
    assert_eq!(ClassType::Wraith.key(), "Wraith");
    assert_eq!(ClassType::Kraken.key(), "Kraken");
    assert_eq!(ClassType::Elder.key(), "Elder");
    assert_eq!(ClassType::NPC.key(), "-");
}

#[test]
fn armor_two_takes_a_fifth_off_ten_damage() {
    let s = Attributes::new_custom_stats(100, 3, 2, 2, 1, 0);
    assert_eq!(s.armor_reduce(10), 8);
    let mut e = at(ClassType::Support);
    assert!(e.apply_damage(10));
    assert_eq!(e.get_curr_stats().hp, 92);
    assert_eq!(e.get_stats().hp, 100);
}

#[test]
fn armor_reduction_edges() {
    let s = Attributes::new_custom_stats(1, 0, 3, 0, 0, 0);
    assert_eq!(s.armor_reduce(-5), 0);
    assert_eq!(s.armor_reduce(0), 0);
    assert_eq!(s.armor_reduce(5), 3);
    assert_eq!(s.armor_reduce(i64::MAX), ((i64::MAX as i128) * 7 / 10) as i64);
    let heavy = Attributes::new_custom_stats(1, 0, 12, 0, 0, 0);
    assert_eq!(heavy.armor_reduce(100), 0);
    let none = Attributes::new_custom_stats(1, 0, 0, 0, 0, 0);
    assert_eq!(none.armor_reduce(100), 100);
}

#[test]
fn damage_stops_at_zero() {
    let mut e = at(ClassType::Assault);
    assert!(!e.apply_damage(1000));
    assert_eq!(e.get_curr_stats().hp, 0);
    let mut f = at(ClassType::Assault);
    // 100 raw through armor 1 is 90: exactly all of it.
    assert!(f.apply_damage(100));
    assert_eq!(f.get_curr_stats().hp, 0);
}

#[test]
fn healing_stops_at_the_maximum() {
    let mut e = at(ClassType::Support);
    assert!(e.add_checked_hp(-30));
    assert_eq!(e.get_curr_stats().hp, 70);
    assert!(e.add_checked_hp(30));
    assert_eq!(e.get_curr_stats().hp, 100);
    assert!(e.add_checked_hp(-30));
    assert!(!e.add_checked_hp(50));
    assert_eq!(e.get_curr_stats().hp, 100);
    assert!(!e.add_checked_hp(i64::MAX));
    assert_eq!(e.get_curr_stats().hp, 100);
    assert!(!e.add_checked_hp(i64::MIN));
    assert_eq!(e.get_curr_stats().hp, 0);
    assert!(e.add_checked_hp(0));
}

#[test]
fn lowering_the_maximum_lowers_current_hp() {
    let mut e = at(ClassType::Wraith);
    e.set_stats(50, 2, 1, 1, 1, 7);
    assert_eq!(e.get_stats(), Attributes::new_custom_stats(50, 2, 1, 1, 1, 7));
    assert_eq!(e.get_curr_stats().hp, 50);
    assert_eq!(e.get_curr_stats().speed, 6);
    e.set_stats(80, 2, 1, 1, 1, 7);
    assert_eq!(e.get_curr_stats().hp, 50);
}

#[test]
fn status_timer_runs_out() {
    let mut e = at(ClassType::Trapper);
    assert_eq!(e.get_status(), Status::Normal);
    e.set_status(Status::Crippled, 2);
    e.decrement_timer();
    assert_eq!(e.get_status(), Status::Crippled);
    assert_eq!(e.get_status_timer(), 1);
    e.decrement_timer();
    assert_eq!(e.get_status(), Status::Normal);
    assert_eq!(e.get_status_timer(), 0);
    e.decrement_timer();
    assert_eq!(e.get_status_timer(), 0);
}

#[test]
fn new_character_fields() {
    let mut e = Entity::new_char(ClassType::Wraith, PlayerType::Player1, 2, Pos { x: 9, y: 11 }, true);
    assert_eq!(e.get_player(), PlayerType::Player1);
    assert_eq!(e.get_class(), ClassType::Wraith);
    assert_eq!(e.get_level(), 2);
    assert_eq!(e.get_pos(), Pos { x: 9, y: 11 });
    assert!(e.get_invincible());
    assert!(e.get_tangible());
    assert_eq!(e.get_curr_stats(), e.get_stats());
    e.set_pos(Pos { x: 1, y: 2 });
    assert_eq!(e.get_pos(), Pos { x: 1, y: 2 });
    e.set_tangible(false);
    assert!(!e.get_tangible());
}
