//! Trigger events and the operations they encode.
pub mod pg_trigger_option;
pub mod trigger_event;

pub use pg_trigger_option::PgTriggerOperation;
pub use trigger_event::{PgTriggerError, TriggerEvent};
