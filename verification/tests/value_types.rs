use demo_analyser::classes::ClassList;
use demo_analyser::data::{Class, EntityId, Team, UserId};
use demo_analyser::events::PlayerDeathEvent;
use demo_analyser::records::{Death, UserInfo};

#[test]
fn test_classlist_sorted() {
    let list = ClassList([0, 1, 5, 0, 0, 3, 0, 0, 0, 0]);
    assert_eq!(
        list.sorted(),
        &[(Class::Sniper, 5), (Class::Medic, 3), (Class::Scout, 1)]
    )
}

#[test]
fn team_construction_is_total() {
    assert_eq!(Team::new(0), Team::Other);
    assert_eq!(Team::new(1), Team::Spectator);
    assert_eq!(Team::new(2), Team::Red);
    assert_eq!(Team::new(3), Team::Blue);
    assert_eq!(Team::new(4), Team::Other);
    assert_eq!(Team::new(77), Team::Other);
    // construction truncates to the low eight bits first
    assert_eq!(Team::new(258), Team::Red);
    assert_eq!(Team::new(u32::MAX), Team::Other);
    assert_eq!(Team::default(), Team::Other);
}

#[test]
fn team_is_player_only_for_red_and_blue() {
    assert!(Team::Red.is_player());
    assert!(Team::Blue.is_player());
    assert!(!Team::Other.is_player());
    assert!(!Team::Spectator.is_player());
}

#[test]
fn class_construction_is_total() {
    assert_eq!(Class::new(0), Class::Other);
    assert_eq!(Class::new(1), Class::Scout);
    assert_eq!(Class::new(9), Class::Engineer);
    assert_eq!(Class::new(10), Class::Other);
    assert_eq!(Class::new(200), Class::Other);
    // construction truncates to the low eight bits first
    assert_eq!(Class::new(260), Class::Demoman);
    assert_eq!(Class::default(), Class::Other);
}

#[test]
fn user_id_masks_low_eight_bits() {
    assert_eq!(UserId::from(3u16), UserId(3));
    assert_eq!(UserId::from(0x1FFu16), UserId(255));
    assert_eq!(UserId::from(256u32), UserId(0));
    assert_eq!(UserId::from(0xABCDu32), UserId(0xCD));
}

#[test]
fn classlist_indexing_is_total_for_every_class() {
    let all = [
        Class::Other,
        Class::Scout,
        Class::Sniper,
        Class::Soldier,
        Class::Demoman,
        Class::Medic,
        Class::Heavy,
        Class::Pyro,
        Class::Spy,
        Class::Engineer,
    ];
    let mut list = ClassList([0, 0, 0, 0, 0, 0, 0, 0, 0, 0]);
    for class in all {
        assert_eq!(list.get(class), 0);
    }
    for class in all {
        list.increment(class);
        list.increment(class);
    }
    for class in all {
        assert_eq!(list.get(class), 2);
    }
}

#[test]
fn classlist_counter_wraps_at_the_8_bit_limit() {
    let mut list = ClassList([0, 0, 0, 0, 0, 0, 0, 0, 0, 0]);
    for _ in 0..255 {
        list.increment(Class::Spy);
    }
    assert_eq!(list.get(Class::Spy), 255);
    list.increment(Class::Spy);
    assert_eq!(list.get(Class::Spy), 0);
}

#[test]
fn classlist_iter_skips_zero_counts_in_ordinal_order() {
    let list = ClassList([1, 0, 0, 2, 0, 0, 0, 0, 0, 9]);
    assert_eq!(
        list.iter(),
        &[(Class::Other, 1), (Class::Soldier, 2), (Class::Engineer, 9)]
    );
    let empty = ClassList([0, 0, 0, 0, 0, 0, 0, 0, 0, 0]);
    assert_eq!(empty.iter(), &[]);
}

#[test]
fn classlist_sorted_keeps_ordinal_order_among_equal_counts() {
    let list = ClassList([0, 2, 2, 0, 0, 2, 0, 0, 0, 1]);
    assert_eq!(
        list.sorted(),
        &[
            (Class::Scout, 2),
            (Class::Sniper, 2),
            (Class::Medic, 2),
            (Class::Engineer, 1)
        ]
    );
}

#[test]
fn death_assister_sentinel_boundary() {
    let below = PlayerDeathEvent {
        user_id: 1,
        attacker: 2,
        assister: 16383,
        weapon: String::from("scattergun"),
    };
    let d = Death::from_event(&below, 40);
    assert_eq!(d.assister, Some(UserId((16383u16 & 255) as u8)));
    assert_eq!(d.assister, Some(UserId(255)));
    assert_eq!(d.victim, UserId(1));
    assert_eq!(d.killer, UserId(2));
    assert_eq!(d.weapon, "scattergun");
    assert_eq!(d.tick, 40);

    let at = PlayerDeathEvent {
        user_id: 1,
        attacker: 2,
        assister: 16384,
        weapon: String::from("scattergun"),
    };
    assert_eq!(Death::from_event(&at, 40).assister, None);
}

#[test]
fn user_info_equality_ignores_entity_id() {
    let a = UserInfo {
        classes: ClassList([0, 1, 0, 0, 0, 0, 0, 0, 0, 0]),
        name: String::from("A"),
        user_id: UserId(1),
        steam_id: String::from("STEAM_0:0:1"),
        entity_id: EntityId(4),
        team: Team::Red,
    };
    let mut b = UserInfo {
        classes: ClassList([0, 1, 0, 0, 0, 0, 0, 0, 0, 0]),
        name: String::from("A"),
        user_id: UserId(1),
        steam_id: String::from("STEAM_0:0:1"),
        entity_id: EntityId(9000),
        team: Team::Red,
    };
    assert!(a == b);
    b.name = String::from("B");
    assert!(a != b);
}
