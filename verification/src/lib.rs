//! A typed event and command model for a Z-Wave controller driver.
//!
//! The driver reports what happens on the network as a stream of events and
//! answers questions about devices and their values. This library holds the
//! typed side of that conversation: the descriptors that name a value, the
//! events as plain data, the registry of devices that the events build up,
//! and the signal on which the starting thread waits for a milestone. It
//! performs no input or output; the host talks to the driver and hands over
//! what the driver said.

pub mod driver_data;
pub mod notification;
pub mod registry;
pub mod session;
pub mod synchronizer;
pub mod text;
pub mod value_id;

pub use driver_data::DriverData;
pub use notification::Notification;
pub use notification::NotificationCode;
pub use notification::NotificationType;
pub use registry::Node;
pub use registry::Registry;
pub use registry::RegistryError;
pub use registry::Rejected;
pub use session::Session;
pub use synchronizer::Synchronizer;
pub use synchronizer::WaitOutcome;
pub use value_id::ValueGenre;
pub use value_id::ValueID;
pub use value_id::ValueType;
