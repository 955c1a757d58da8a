//! Trigger-event bits as laid out by PostgreSQL's `commands/trigger.h`.
use vstd::prelude::*;

verus! {

/// Bits of a trigger event that name the statement kind.
pub const TRIGGER_EVENT_OPMASK: u32 = 0x3;

/// Statement kind: `INSERT`.
pub const TRIGGER_EVENT_INSERT: u32 = 0x0;

/// Statement kind: `DELETE`.
pub const TRIGGER_EVENT_DELETE: u32 = 0x1;

/// Statement kind: `UPDATE`.
pub const TRIGGER_EVENT_UPDATE: u32 = 0x2;

/// Statement kind: `TRUNCATE`.
pub const TRIGGER_EVENT_TRUNCATE: u32 = 0x3;

/// Granularity bit: set when the trigger fires for each row.
pub const TRIGGER_EVENT_ROW: u32 = 0x4;

/// Timing: after the statement or row (no bit set).
pub const TRIGGER_EVENT_AFTER: u32 = 0x0;

/// Timing: before the statement or row.
pub const TRIGGER_EVENT_BEFORE: u32 = 0x8;

/// Timing: in place of the row operation.
pub const TRIGGER_EVENT_INSTEAD: u32 = 0x10;

/// Bits of a trigger event that name its timing.
pub const TRIGGER_EVENT_TIMINGMASK: u32 = 0x18;

} // verus!
