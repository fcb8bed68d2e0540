//! Records kept by the native module's database and the rules on user events.

pub mod records;
pub mod user_events;
