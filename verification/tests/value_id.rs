use openzwave_rs::ValueGenre;
use openzwave_rs::ValueID;
use openzwave_rs::ValueType;
use std::cmp::Ordering;

fn switch() -> ValueID {
    ValueID {
        home_id: 4100030940,
        node_id: 3,
        genre: ValueGenre::User,
        command_class_id: 37,
        instance: 1,
        value_index: 0,
        value_type: ValueType::Bool,
    }
}

fn power() -> ValueID {
    ValueID {
        home_id: 4100030940,
        node_id: 3,
        genre: ValueGenre::User,
        command_class_id: 50,
        instance: 1,
        value_index: 8,
        value_type: ValueType::Decimal,
    }
}

#[test]
fn new_descriptor_is_all_zero() {
    let v = ValueID::new();
    assert_eq!(v.home_id, 0);
    assert_eq!(v.node_id, 0);
    assert_eq!(v.genre, ValueGenre::Basic);
    assert_eq!(v.command_class_id, 0);
    assert_eq!(v.instance, 0);
    assert_eq!(v.value_index, 0);
    assert_eq!(v.value_type, ValueType::Bool);
}

#[test]
fn value_type_takes_no_part_in_equality() {
    let mut other = switch();
    other.value_type = ValueType::Raw;
    assert!(switch() == other);
    assert!(!(switch() != other));
    assert_eq!(switch().partial_cmp(&other), Some(Ordering::Equal));
    assert!(!(switch() < other));
    assert!(!(switch() > other));
    assert!(switch() <= other);
    assert!(switch() >= other);
}

#[test]
fn value_type_takes_no_part_in_ordering() {
    let mut late = power();
    late.value_type = ValueType::Bool;
    let mut early = switch();
    early.value_type = ValueType::Raw;
    assert_eq!(switch().partial_cmp(&power()), Some(Ordering::Less));
    assert_eq!(early.partial_cmp(&late), Some(Ordering::Less));
    assert_eq!(late.partial_cmp(&early), Some(Ordering::Greater));
}

#[test]
fn each_identifying_field_decides_equality() {
    let base = switch();
    let mut v = base;
    v.home_id = 1;
    assert!(v != base);
    v = base;
    v.node_id = 4;
    assert!(v != base);
    v = base;
    v.genre = ValueGenre::Config;
    assert!(v != base);
    v = base;
    v.command_class_id = 38;
    assert!(v != base);
    v = base;
    v.instance = 2;
    assert!(v != base);
    v = base;
    v.value_index = 1;
    assert!(v != base);
}

#[test]
fn order_goes_field_by_field() {
    let base = switch();
    let mut bigger = base;
    bigger.value_index = 1;
    assert!(base < bigger);
    let mut smaller_instance = bigger;
    smaller_instance.instance = 0;
    assert!(smaller_instance < base);
    let mut smaller_class = bigger;
    smaller_class.instance = 200;
    smaller_class.command_class_id = 36;
    assert!(smaller_class < base);
    let mut smaller_genre = smaller_class;
    smaller_genre.command_class_id = 255;
    smaller_genre.genre = ValueGenre::Basic;
    assert!(smaller_genre < base);
    let mut bigger_genre = base;
    bigger_genre.genre = ValueGenre::System;
    bigger_genre.command_class_id = 0;
    assert!(bigger_genre > base);
    let mut smaller_node = bigger_genre;
    smaller_node.node_id = 2;
    assert!(smaller_node < base);
    let mut smaller_home = base;
    smaller_home.home_id = 7;
    smaller_home.node_id = 255;
    assert!(smaller_home < base);
    assert_eq!(base.partial_cmp(&smaller_home), Some(Ordering::Greater));
}

#[test]
fn genres_are_ordered_by_rank() {
    let mut a = switch();
    let mut b = switch();
    a.genre = ValueGenre::Basic;
    b.genre = ValueGenre::User;
    assert!(a < b);
    a.genre = ValueGenre::Config;
    assert!(b < a);
    b.genre = ValueGenre::System;
    assert!(a < b);
}

#[test]
fn genre_numbers_go_both_ways() {
    assert_eq!(ValueGenre::Basic.raw(), 0);
    assert_eq!(ValueGenre::User.raw(), 1);
    assert_eq!(ValueGenre::Config.raw(), 2);
    assert_eq!(ValueGenre::System.raw(), 3);
    for raw in 0..4u32 {
        assert_eq!(ValueGenre::from_raw(raw).unwrap().raw(), raw);
    }
    assert_eq!(ValueGenre::from_raw(4), None);
    assert_eq!(ValueGenre::from_raw(u32::MAX), None);
}

#[test]
fn type_numbers_go_both_ways() {
    assert_eq!(ValueType::Bool.raw(), 0);
    assert_eq!(ValueType::Decimal.raw(), 2);
    assert_eq!(ValueType::String.raw(), 7);
    assert_eq!(ValueType::Raw.raw(), 9);
    for raw in 0..10u32 {
        assert_eq!(ValueType::from_raw(raw).unwrap().raw(), raw);
    }
    assert_eq!(ValueType::from_raw(10), None);
}

#[test]
fn names_of_genres_and_types() {
    assert_eq!(ValueGenre::Basic.as_str(), "Basic");
    assert_eq!(ValueGenre::User.as_str(), "User");
    assert_eq!(ValueGenre::Config.as_str(), "Config");
    assert_eq!(ValueGenre::System.as_str(), "System");
    assert_eq!(ValueType::Bool.as_str(), "Bool");
    assert_eq!(ValueType::Byte.as_str(), "Byte");
    assert_eq!(ValueType::Decimal.as_str(), "Decimal");
    assert_eq!(ValueType::Int.as_str(), "Int");
    assert_eq!(ValueType::List.as_str(), "List");
    assert_eq!(ValueType::Schedule.as_str(), "Schedule");
    assert_eq!(ValueType::Short.as_str(), "Short");
    assert_eq!(ValueType::String.as_str(), "String");
    assert_eq!(ValueType::Button.as_str(), "Button");
    assert_eq!(ValueType::Raw.as_str(), "Raw");
}

#[test]
fn label_is_the_reply_or_the_placeholder() {
    assert_eq!(switch().label(Some("Switch".to_string())), "Switch");
    assert_eq!(switch().label(None), "unnamed");
    assert_eq!(switch().label(Some(String::new())), "");
}

#[test]
fn get_string_hands_out_the_reply() {
    assert_eq!(power().get_string(Some("12.5".to_string())), "12.5");
    assert_eq!(power().get_string(Some(String::new())), "");
}

#[test]
fn describe_names_every_part() {
    assert_eq!(
        switch().describe("Switch"),
        "ValueID(node_id: 3, genre: User, cmd_class_id: 37, instance: 1, type: Bool, index: 0, label: 'Switch')"
    );
    assert_eq!(
        power().describe("unnamed"),
        "ValueID(node_id: 3, genre: User, cmd_class_id: 50, instance: 1, type: Decimal, index: 8, label: 'unnamed')"
    );
    let wide = ValueID {
        home_id: 1,
        node_id: 255,
        genre: ValueGenre::System,
        command_class_id: 100,
        instance: 10,
        value_index: 99,
        value_type: ValueType::Schedule,
    };
    assert_eq!(
        wide.describe(""),
        "ValueID(node_id: 255, genre: System, cmd_class_id: 100, instance: 10, type: Schedule, index: 99, label: '')"
    );
}
