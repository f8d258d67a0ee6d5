//! The events that the driver reports, as plain values.

use vstd::prelude::*;
use crate::text::non_empty;
use crate::text::non_empty_text;
use crate::value_id::ValueID;

verus! {

/// The kinds of event that the driver reports.
#[derive(Clone, Copy, Debug, PartialEq, Eq, Structural)]
pub enum NotificationType {
    /// A value of a device was discovered.
    ValueAdded,
    /// A value of a device was removed.
    ValueRemoved,
    /// A value changed on the device.
    ValueChanged,
    /// A value was read again and had not changed.
    ValueRefreshed,
    /// The associations of a device changed.
    Group,
    /// A device was found that the driver had not known.
    NodeNew,
    /// A device was added to the driver's list.
    NodeAdded,
    /// A device was removed from the driver's list.
    NodeRemoved,
    /// The basic facts about a device were received.
    NodeProtocolInfo,
    /// The name of a device changed.
    NodeNaming,
    /// A device sent a basic event.
    NodeEvent,
    /// Polling of a device was switched off.
    PollingDisabled,
    /// Polling of a device was switched on.
    PollingEnabled,
    /// A scene was activated.
    SceneEvent,
    /// A button of a handheld controller was created.
    CreateButton,
    /// A button of a handheld controller was deleted.
    DeleteButton,
    /// A button of a handheld controller was switched on.
    ButtonOn,
    /// A button of a handheld controller was switched off.
    ButtonOff,
    /// The driver is ready for use.
    DriverReady,
    /// The driver could not start or lost its hardware.
    DriverFailed,
    /// The driver was reset; all devices were forgotten.
    DriverReset,
    /// The essential queries of one device are done.
    EssentialNodeQueriesComplete,
    /// All queries of one device are done.
    NodeQueriesComplete,
    /// All devices that are awake were queried.
    AwakeNodeQueries,
    /// All devices were queried; some did not answer.
    AllNodeQueriedSomeDead,
    /// All devices were queried.
    AllNodeQueried,
    /// An occurrence that a notification code tells more about.
    Notification,
    /// The driver was removed.
    DriverRemoved,
    /// The state of a controller command changed.
    ControllerCommand,
    /// A device was reset to its factory state.
    NodeReset,
}

impl NotificationType {
    /// The number by which the driver knows the variant.
    pub open spec fn rank(self) -> int {
        match self {
            NotificationType::ValueAdded => 0,
            NotificationType::ValueRemoved => 1,
            NotificationType::ValueChanged => 2,
            NotificationType::ValueRefreshed => 3,
            NotificationType::Group => 4,
            NotificationType::NodeNew => 5,
            NotificationType::NodeAdded => 6,
            NotificationType::NodeRemoved => 7,
            NotificationType::NodeProtocolInfo => 8,
            NotificationType::NodeNaming => 9,
            NotificationType::NodeEvent => 10,
            NotificationType::PollingDisabled => 11,
            NotificationType::PollingEnabled => 12,
            NotificationType::SceneEvent => 13,
            NotificationType::CreateButton => 14,
            NotificationType::DeleteButton => 15,
            NotificationType::ButtonOn => 16,
            NotificationType::ButtonOff => 17,
            NotificationType::DriverReady => 18,
            NotificationType::DriverFailed => 19,
            NotificationType::DriverReset => 20,
            NotificationType::EssentialNodeQueriesComplete => 21,
            NotificationType::NodeQueriesComplete => 22,
            NotificationType::AwakeNodeQueries => 23,
            NotificationType::AllNodeQueriedSomeDead => 24,
            NotificationType::AllNodeQueried => 25,
            NotificationType::Notification => 26,
            NotificationType::DriverRemoved => 27,
            NotificationType::ControllerCommand => 28,
            NotificationType::NodeReset => 29,
        }
    }

    /// The number by which the driver knows the variant.
    pub fn raw(&self) -> (r: u32)
        ensures
            r == self.rank(),
    {
        match self {
            NotificationType::ValueAdded => 0,
            NotificationType::ValueRemoved => 1,
            NotificationType::ValueChanged => 2,
            NotificationType::ValueRefreshed => 3,
            NotificationType::Group => 4,
            NotificationType::NodeNew => 5,
            NotificationType::NodeAdded => 6,
            NotificationType::NodeRemoved => 7,
            NotificationType::NodeProtocolInfo => 8,
            NotificationType::NodeNaming => 9,
            NotificationType::NodeEvent => 10,
            NotificationType::PollingDisabled => 11,
            NotificationType::PollingEnabled => 12,
            NotificationType::SceneEvent => 13,
            NotificationType::CreateButton => 14,
            NotificationType::DeleteButton => 15,
            NotificationType::ButtonOn => 16,
            NotificationType::ButtonOff => 17,
            NotificationType::DriverReady => 18,
            NotificationType::DriverFailed => 19,
            NotificationType::DriverReset => 20,
            NotificationType::EssentialNodeQueriesComplete => 21,
            NotificationType::NodeQueriesComplete => 22,
            NotificationType::AwakeNodeQueries => 23,
            NotificationType::AllNodeQueriedSomeDead => 24,
            NotificationType::AllNodeQueried => 25,
            NotificationType::Notification => 26,
            NotificationType::DriverRemoved => 27,
            NotificationType::ControllerCommand => 28,
            NotificationType::NodeReset => 29,
        }
    }

    /// The kind of event that the driver knows by the number `raw`, if there
    /// is one.
    pub open spec fn of_rank(raw: int) -> Option<NotificationType> {
        if raw == 0 {
            Some(NotificationType::ValueAdded)
        } else if raw == 1 {
            Some(NotificationType::ValueRemoved)
        } else if raw == 2 {
            Some(NotificationType::ValueChanged)
        } else if raw == 3 {
            Some(NotificationType::ValueRefreshed)
        } else if raw == 4 {
            Some(NotificationType::Group)
        } else if raw == 5 {
            Some(NotificationType::NodeNew)
        } else if raw == 6 {
            Some(NotificationType::NodeAdded)
        } else if raw == 7 {
            Some(NotificationType::NodeRemoved)
        } else if raw == 8 {
            Some(NotificationType::NodeProtocolInfo)
        } else if raw == 9 {
            Some(NotificationType::NodeNaming)
        } else if raw == 10 {
            Some(NotificationType::NodeEvent)
        } else if raw == 11 {
            Some(NotificationType::PollingDisabled)
        } else if raw == 12 {
            Some(NotificationType::PollingEnabled)
        } else if raw == 13 {
            Some(NotificationType::SceneEvent)
        } else if raw == 14 {
            Some(NotificationType::CreateButton)
        } else if raw == 15 {
            Some(NotificationType::DeleteButton)
        } else if raw == 16 {
            Some(NotificationType::ButtonOn)
        } else if raw == 17 {
            Some(NotificationType::ButtonOff)
        } else if raw == 18 {
            Some(NotificationType::DriverReady)
        } else if raw == 19 {
            Some(NotificationType::DriverFailed)
        } else if raw == 20 {
            Some(NotificationType::DriverReset)
        } else if raw == 21 {
            Some(NotificationType::EssentialNodeQueriesComplete)
        } else if raw == 22 {
            Some(NotificationType::NodeQueriesComplete)
        } else if raw == 23 {
            Some(NotificationType::AwakeNodeQueries)
        } else if raw == 24 {
            Some(NotificationType::AllNodeQueriedSomeDead)
        } else if raw == 25 {
            Some(NotificationType::AllNodeQueried)
        } else if raw == 26 {
            Some(NotificationType::Notification)
        } else if raw == 27 {
            Some(NotificationType::DriverRemoved)
        } else if raw == 28 {
            Some(NotificationType::ControllerCommand)
        } else if raw == 29 {
            Some(NotificationType::NodeReset)
        } else {
            None
        }
    }

    /// Each kind of event is the one that its own number stands for, and
    /// a number stands for no other.
    pub proof fn lemma_rank_names_one(self, raw: int)
        ensures
            NotificationType::of_rank(self.rank()) == Some(self),
            NotificationType::of_rank(raw) == Some(self) <==> raw == self.rank(),
    {
    }

    /// The kind of event that the driver knows by `raw`, if there is one.
    pub fn from_raw(raw: u32) -> (r: Option<NotificationType>)
        ensures
            r == NotificationType::of_rank(raw as int),
    {
        if raw == 0 {
            Some(NotificationType::ValueAdded)
        } else if raw == 1 {
            Some(NotificationType::ValueRemoved)
        } else if raw == 2 {
            Some(NotificationType::ValueChanged)
        } else if raw == 3 {
            Some(NotificationType::ValueRefreshed)
        } else if raw == 4 {
            Some(NotificationType::Group)
        } else if raw == 5 {
            Some(NotificationType::NodeNew)
        } else if raw == 6 {
            Some(NotificationType::NodeAdded)
        } else if raw == 7 {
            Some(NotificationType::NodeRemoved)
        } else if raw == 8 {
            Some(NotificationType::NodeProtocolInfo)
        } else if raw == 9 {
            Some(NotificationType::NodeNaming)
        } else if raw == 10 {
            Some(NotificationType::NodeEvent)
        } else if raw == 11 {
            Some(NotificationType::PollingDisabled)
        } else if raw == 12 {
            Some(NotificationType::PollingEnabled)
        } else if raw == 13 {
            Some(NotificationType::SceneEvent)
        } else if raw == 14 {
            Some(NotificationType::CreateButton)
        } else if raw == 15 {
            Some(NotificationType::DeleteButton)
        } else if raw == 16 {
            Some(NotificationType::ButtonOn)
        } else if raw == 17 {
            Some(NotificationType::ButtonOff)
        } else if raw == 18 {
            Some(NotificationType::DriverReady)
        } else if raw == 19 {
            Some(NotificationType::DriverFailed)
        } else if raw == 20 {
            Some(NotificationType::DriverReset)
        } else if raw == 21 {
            Some(NotificationType::EssentialNodeQueriesComplete)
        } else if raw == 22 {
            Some(NotificationType::NodeQueriesComplete)
        } else if raw == 23 {
            Some(NotificationType::AwakeNodeQueries)
        } else if raw == 24 {
            Some(NotificationType::AllNodeQueriedSomeDead)
        } else if raw == 25 {
            Some(NotificationType::AllNodeQueried)
        } else if raw == 26 {
            Some(NotificationType::Notification)
        } else if raw == 27 {
            Some(NotificationType::DriverRemoved)
        } else if raw == 28 {
            Some(NotificationType::ControllerCommand)
        } else if raw == 29 {
            Some(NotificationType::NodeReset)
        } else {
            None
        }
    }

    /// Whether events of this kind carry a notification code.
    pub open spec fn carries_code(self) -> bool {
        self == NotificationType::Notification || self == NotificationType::ControllerCommand
    }

    /// Whether events of this kind carry a notification code.
    pub fn has_code(&self) -> (r: bool)
        ensures
            r == self.carries_code(),
    {
        match self {
            NotificationType::Notification => true,
            NotificationType::ControllerCommand => true,
            _ => false,
        }
    }
}

/// What an event of kind `Notification` or `ControllerCommand` tells of a device.
#[derive(Clone, Copy, Debug, PartialEq, Eq, Structural)]
pub enum NotificationCode {
    /// A message was delivered.
    MsgComplete,
    /// A message timed out.
    Timeout,
    /// A no-operation message was answered.
    NoOperation,
    /// The device woke up.
    Awake,
    /// The device went to sleep.
    Sleep,
    /// The device is presumed dead.
    Dead,
    /// The device came back to life.
    Alive,
}

impl NotificationCode {
    /// The number by which the driver knows the variant.
    pub open spec fn rank(self) -> int {
        match self {
            NotificationCode::MsgComplete => 0,
            NotificationCode::Timeout => 1,
            NotificationCode::NoOperation => 2,
            NotificationCode::Awake => 3,
            NotificationCode::Sleep => 4,
            NotificationCode::Dead => 5,
            NotificationCode::Alive => 6,
        }
    }

    /// The number by which the driver knows the variant.
    pub fn raw(&self) -> (r: u32)
        ensures
            r == self.rank(),
    {
        match self {
            NotificationCode::MsgComplete => 0,
            NotificationCode::Timeout => 1,
            NotificationCode::NoOperation => 2,
            NotificationCode::Awake => 3,
            NotificationCode::Sleep => 4,
            NotificationCode::Dead => 5,
            NotificationCode::Alive => 6,
        }
    }

    /// The code that the driver knows by the number `raw`, if there
    /// is one.
    pub open spec fn of_rank(raw: int) -> Option<NotificationCode> {
        if raw == 0 {
            Some(NotificationCode::MsgComplete)
        } else if raw == 1 {
            Some(NotificationCode::Timeout)
        } else if raw == 2 {
            Some(NotificationCode::NoOperation)
        } else if raw == 3 {
            Some(NotificationCode::Awake)
        } else if raw == 4 {
            Some(NotificationCode::Sleep)
        } else if raw == 5 {
            Some(NotificationCode::Dead)
        } else if raw == 6 {
            Some(NotificationCode::Alive)
        } else {
            None
        }
    }

    /// Each code is the one that its own number stands for, and
    /// a number stands for no other.
    pub proof fn lemma_rank_names_one(self, raw: int)
        ensures
            NotificationCode::of_rank(self.rank()) == Some(self),
            NotificationCode::of_rank(raw) == Some(self) <==> raw == self.rank(),
    {
    }

    /// The code that the driver knows by `raw`, if there is one.
    pub fn from_raw(raw: u32) -> (r: Option<NotificationCode>)
        ensures
            r == NotificationCode::of_rank(raw as int),
    {
        if raw == 0 {
            Some(NotificationCode::MsgComplete)
        } else if raw == 1 {
            Some(NotificationCode::Timeout)
        } else if raw == 2 {
            Some(NotificationCode::NoOperation)
        } else if raw == 3 {
            Some(NotificationCode::Awake)
        } else if raw == 4 {
            Some(NotificationCode::Sleep)
        } else if raw == 5 {
            Some(NotificationCode::Dead)
        } else if raw == 6 {
            Some(NotificationCode::Alive)
        } else {
            None
        }
    }
}

/// One event, with what the driver told of it.
///
/// `value_id` means something only for the kinds of event that are about a
/// value; for the others it is whatever the driver left there. `code` is
/// the notification code that came with the event, where one was read.
#[derive(Clone, Copy, Debug)]
pub struct Notification {
    /// The kind of event.
    pub notification_type: NotificationType,
    /// The network that the event comes from.
    pub home_id: u32,
    /// The device that the event is about.
    pub node_id: u8,
    /// The value that the event is about.
    pub value_id: ValueID,
    /// The notification code that came with the event.
    pub code: Option<NotificationCode>,
}

impl Notification {
    /// What `code` hands out: the code that came with the event if the
    /// event is of a kind that carries one, and the error otherwise.
    pub open spec fn code_result(&self) -> Result<NotificationCode, ()> {
        match self.code {
            Some(c) => if self.notification_type.carries_code() {
                Ok(c)
            } else {
                Err(())
            },
            None => Err(()),
        }
    }

    /// An event made of its parts.
    pub fn new(
        notification_type: NotificationType,
        home_id: u32,
        node_id: u8,
        value_id: ValueID,
        code: Option<NotificationCode>,
    ) -> (n: Notification)
        ensures
            n == (Notification { notification_type, home_id, node_id, value_id, code }),
    {
        Notification { notification_type, home_id, node_id, value_id, code }
    }

    /// The kind of event.
    pub fn get_type(&self) -> (r: NotificationType)
        ensures
            r == self.notification_type,
    {
        self.notification_type
    }

    /// The device that the event is about.
    pub fn node_id(&self) -> (r: u8)
        ensures
            r == self.node_id,
    {
        self.node_id
    }

    /// The network that the event comes from.
    pub fn home_id(&self) -> (r: u32)
        ensures
            r == self.home_id,
    {
        self.home_id
    }

    /// The value that the event is about.
    pub fn value_id(&self) -> (r: ValueID)
        ensures
            r == self.value_id,
    {
        self.value_id
    }

    /// The notification code of the event. Only events of kind
    /// `Notification` and `ControllerCommand` have one; for every other
    /// kind the result is the error.
    pub fn code(&self) -> (r: Result<NotificationCode, ()>)
        ensures
            r == self.code_result(),
            !self.notification_type.carries_code() ==> r is Err,
    {
        if self.notification_type.has_code() {
            match self.code {
                Some(c) => Ok(c),
                None => Err(()),
            }
        } else {
            Err(())
        }
    }

    /// The name of the device that the event is about, given what the
    /// driver replied when asked for it. An empty reply is no name.
    pub fn node_name(&self, reply: Option<String>) -> (name: Option<String>)
        ensures
            name == non_empty_text(reply),
    {
        non_empty(reply)
    }

    /// The name of the maker of the device that the event is about, given
    /// what the driver replied when asked for it. An empty reply is no
    /// name.
    pub fn node_manufacturer_name(&self, reply: Option<String>) -> (name: Option<String>)
        ensures
            name == non_empty_text(reply),
    {
        non_empty(reply)
    }
}

} // verus!
