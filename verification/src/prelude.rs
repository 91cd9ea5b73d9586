//! Convenience re-export of the most commonly used bus types.

pub use crate::bus::Bus;
pub use crate::error::BusError;
pub use crate::sub::Sub;
pub use crate::topic::Topic;
