use openzwave_rs::Notification;
use openzwave_rs::NotificationCode;
use openzwave_rs::NotificationType;
use openzwave_rs::ValueGenre;
use openzwave_rs::ValueID;
use openzwave_rs::ValueType;

fn event(kind: NotificationType, code: Option<NotificationCode>) -> Notification {
    Notification::new(kind, 4100030940, 3, ValueID::new(), code)
}

#[test]
fn accessors_hand_out_the_parts() {
    let value = ValueID {
        home_id: 4100030940,
        node_id: 3,
        genre: ValueGenre::User,
        command_class_id: 37,
        instance: 1,
        value_index: 0,
        value_type: ValueType::Bool,
    };
    let n = Notification::new(NotificationType::ValueAdded, 4100030940, 3, value, None);
    assert_eq!(n.get_type(), NotificationType::ValueAdded);
    assert_eq!(n.home_id(), 4100030940);
    assert_eq!(n.node_id(), 3);
    assert_eq!(n.value_id(), value);
    assert_eq!(n.value_id().value_type, ValueType::Bool);
}

#[test]
fn code_of_a_notification_event() {
    let n = event(NotificationType::Notification, Some(NotificationCode::Dead));
    assert_eq!(n.code(), Ok(NotificationCode::Dead));
}

#[test]
fn code_of_a_controller_command_event() {
    let n = event(NotificationType::ControllerCommand, Some(NotificationCode::Timeout));
    assert_eq!(n.code(), Ok(NotificationCode::Timeout));
}

#[test]
fn no_code_for_every_other_kind() {
    let mut others = 0;
    for raw in 0..30u32 {
        let kind = NotificationType::from_raw(raw).unwrap();
        if kind == NotificationType::Notification || kind == NotificationType::ControllerCommand {
            assert!(kind.has_code());
            continue;
        }
        assert!(!kind.has_code());
        assert_eq!(event(kind, Some(NotificationCode::Awake)).code(), Err(()));
        assert_eq!(event(kind, None).code(), Err(()));
        others += 1;
    }
    assert_eq!(others, 28);
}

#[test]
fn no_code_where_none_was_read() {
    assert_eq!(event(NotificationType::Notification, None).code(), Err(()));
    assert_eq!(event(NotificationType::ControllerCommand, None).code(), Err(()));
}

#[test]
fn kind_numbers_go_both_ways() {
    assert_eq!(NotificationType::ValueAdded.raw(), 0);
    assert_eq!(NotificationType::ValueChanged.raw(), 2);
    assert_eq!(NotificationType::NodeNew.raw(), 5);
    assert_eq!(NotificationType::NodeAdded.raw(), 6);
    assert_eq!(NotificationType::DriverReady.raw(), 18);
    assert_eq!(NotificationType::DriverFailed.raw(), 19);
    assert_eq!(NotificationType::NodeQueriesComplete.raw(), 22);
    assert_eq!(NotificationType::Notification.raw(), 26);
    assert_eq!(NotificationType::ControllerCommand.raw(), 28);
    assert_eq!(NotificationType::NodeReset.raw(), 29);
    for raw in 0..30u32 {
        assert_eq!(NotificationType::from_raw(raw).unwrap().raw(), raw);
    }
    assert_eq!(NotificationType::from_raw(30), None);
    assert_eq!(NotificationType::from_raw(u32::MAX), None);
}

#[test]
fn code_numbers_go_both_ways() {
    assert_eq!(NotificationCode::MsgComplete.raw(), 0);
    assert_eq!(NotificationCode::Timeout.raw(), 1);
    assert_eq!(NotificationCode::NoOperation.raw(), 2);
    assert_eq!(NotificationCode::Awake.raw(), 3);
    assert_eq!(NotificationCode::Sleep.raw(), 4);
    assert_eq!(NotificationCode::Dead.raw(), 5);
    assert_eq!(NotificationCode::Alive.raw(), 6);
    for raw in 0..7u32 {
        assert_eq!(NotificationCode::from_raw(raw).unwrap().raw(), raw);
    }
    assert_eq!(NotificationCode::from_raw(7), None);
}

#[test]
fn node_name_is_the_reply_unless_empty() {
    let n = event(NotificationType::NodeNaming, None);
    assert_eq!(n.node_name(Some("Smart Plug".to_string())), Some("Smart Plug".to_string()));
    assert_eq!(n.node_name(Some(String::new())), None);
    assert_eq!(n.node_name(None), None);
}

#[test]
fn manufacturer_name_is_the_reply_unless_empty() {
    let n = event(NotificationType::NodeProtocolInfo, None);
    assert_eq!(n.node_manufacturer_name(Some("Acme".to_string())), Some("Acme".to_string()));
    assert_eq!(n.node_manufacturer_name(Some(String::new())), None);
    assert_eq!(n.node_manufacturer_name(None), None);
}
