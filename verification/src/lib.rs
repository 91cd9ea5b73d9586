//! A process-local publish/subscribe bus with latest-only delivery.
//!
//! Each named topic holds at most one pending message: a publish replaces any
//! unread prior value instead of queuing it. Subscribers keep a version cursor
//! to tell "new value since I last looked" from "already seen", and detect
//! disconnection of a topic through the bus's explicit ownership accounting.

pub mod bus;
pub mod error;
pub mod payload;
pub mod prelude;
pub mod sub;
pub mod topic;
pub mod version;

pub use bus::Bus;
pub use error::BusError;
pub use sub::Sub;
pub use topic::Topic;
