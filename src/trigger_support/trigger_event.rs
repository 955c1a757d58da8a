use vstd::prelude::*;

verus! {

/// A raw trigger event bitmask, as the engine hands it to a trigger.
#[derive(Clone, Copy, Debug, PartialEq, Eq, Structural)]
pub struct TriggerEvent(pub u32);

/// Failure to read a trigger event.
#[derive(Clone, Copy, Debug, PartialEq, Eq, Structural)]
pub enum PgTriggerError {
    /// The operation bits of the event name no known statement kind; holds
    /// those bits.
    InvalidPgTriggerOperation(u32),
}

} // verus!
