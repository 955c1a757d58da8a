use vstd::prelude::*;
use vstd::std_specs::convert::TryFromSpecImpl;

use crate::pg_sys;
use crate::trigger_support::trigger_event::{PgTriggerError, TriggerEvent};

verus! {

/// The operation for which the trigger was fired.
///
/// Shown as the SQL keyword `INSERT`, `UPDATE`, `DELETE` or `TRUNCATE`, and
/// read from a [`TriggerEvent`].
#[derive(Clone, Copy, Debug, PartialEq, Eq, Structural)]
pub enum PgTriggerOperation {
    /// `INSERT`
    Insert,
    /// `UPDATE`
    Update,
    /// `DELETE`
    Delete,
    /// `TRUNCATE`
    Truncate,
}

/// The operation bits of an event bitmask.
pub open spec fn operation_bits(bits: u32) -> u32 {
    bits & pg_sys::TRIGGER_EVENT_OPMASK
}

/// The operation that the masked value `op` names, if any.
pub open spec fn operation_of(op: u32) -> Option<PgTriggerOperation> {
    if op == pg_sys::TRIGGER_EVENT_INSERT {
        Some(PgTriggerOperation::Insert)
    } else if op == pg_sys::TRIGGER_EVENT_DELETE {
        Some(PgTriggerOperation::Delete)
    } else if op == pg_sys::TRIGGER_EVENT_UPDATE {
        Some(PgTriggerOperation::Update)
    } else if op == pg_sys::TRIGGER_EVENT_TRUNCATE {
        Some(PgTriggerOperation::Truncate)
    } else {
        None
    }
}

/// What reading an event gives: the operation its operation bits name, or
/// an error that carries those bits.
pub open spec fn classify(event: TriggerEvent) -> Result<PgTriggerOperation, PgTriggerError> {
    match operation_of(operation_bits(event.0)) {
        Some(op) => Ok(op),
        None => Err(PgTriggerError::InvalidPgTriggerOperation(operation_bits(event.0))),
    }
}

/// The engine constant of each operation.
pub open spec fn constant_of(op: PgTriggerOperation) -> u32 {
    match op {
        PgTriggerOperation::Insert => pg_sys::TRIGGER_EVENT_INSERT,
        PgTriggerOperation::Update => pg_sys::TRIGGER_EVENT_UPDATE,
        PgTriggerOperation::Delete => pg_sys::TRIGGER_EVENT_DELETE,
        PgTriggerOperation::Truncate => pg_sys::TRIGGER_EVENT_TRUNCATE,
    }
}

/// The SQL keyword of each operation.
pub open spec fn keyword(op: PgTriggerOperation) -> Seq<char> {
    match op {
        PgTriggerOperation::Insert => "INSERT"@,
        PgTriggerOperation::Update => "UPDATE"@,
        PgTriggerOperation::Delete => "DELETE"@,
        PgTriggerOperation::Truncate => "TRUNCATE"@,
    }
}

impl TryFrom<TriggerEvent> for PgTriggerOperation {
    type Error = PgTriggerError;

    fn try_from(event: TriggerEvent) -> (r: Result<Self, Self::Error>) {
        let op = event.0 & pg_sys::TRIGGER_EVENT_OPMASK;
        if op == pg_sys::TRIGGER_EVENT_INSERT {
            Ok(Self::Insert)
        } else if op == pg_sys::TRIGGER_EVENT_DELETE {
            Ok(Self::Delete)
        } else if op == pg_sys::TRIGGER_EVENT_UPDATE {
            Ok(Self::Update)
        } else if op == pg_sys::TRIGGER_EVENT_TRUNCATE {
            Ok(Self::Truncate)
        } else {
            Err(PgTriggerError::InvalidPgTriggerOperation(op))
        }
    }
}

impl TryFromSpecImpl<TriggerEvent> for PgTriggerOperation {
    open spec fn obeys_try_from_spec() -> bool {
        true
    }

    open spec fn try_from_spec(event: TriggerEvent) -> Result<Self, PgTriggerError> {
        classify(event)
    }
}

impl PgTriggerOperation {
    /// The SQL keyword of the operation.
    pub fn to_string(&self) -> (r: String)
        ensures
            r@ == keyword(*self),
    {
        match self {
            PgTriggerOperation::Insert => "INSERT",
            PgTriggerOperation::Update => "UPDATE",
            PgTriggerOperation::Delete => "DELETE",
            PgTriggerOperation::Truncate => "TRUNCATE",
        }.to_owned()
    }
}

/// Setting bits outside the operation mask never changes the operation read:
/// the constant of `op`, with any other bits added, reads as `op`.
pub proof fn lemma_operation_ignores_other_bits(op: PgTriggerOperation, other: u32)
    ensures
        classify(TriggerEvent(constant_of(op) | (other & !pg_sys::TRIGGER_EVENT_OPMASK)))
            == Ok::<PgTriggerOperation, PgTriggerError>(op),
{
    let c = constant_of(op);
    assert((c | (other & !0x3u32)) & 0x3u32 == c) by (bit_vector)
        requires
            c <= 3,
    ;
}

/// An event whose operation bits match none of the four engine constants is
/// rejected, and the error carries exactly those bits.
pub proof fn lemma_unknown_operation_rejected(event: TriggerEvent)
    requires
        forall|op: PgTriggerOperation| operation_bits(event.0) != #[trigger] constant_of(op),
    ensures
        classify(event) == Err::<PgTriggerOperation, PgTriggerError>(
            PgTriggerError::InvalidPgTriggerOperation(operation_bits(event.0)),
        ),
{
    assert(operation_bits(event.0) != constant_of(PgTriggerOperation::Insert));
    assert(operation_bits(event.0) != constant_of(PgTriggerOperation::Update));
    assert(operation_bits(event.0) != constant_of(PgTriggerOperation::Delete));
    assert(operation_bits(event.0) != constant_of(PgTriggerOperation::Truncate));
}

/// Under the engine's layout the four constants fill the whole operation
/// mask, so every event reads as the operation whose constant its operation
/// bits are.
pub proof fn lemma_every_event_names_an_operation(event: TriggerEvent)
    ensures
        classify(event) is Ok,
        constant_of(classify(event)->Ok_0) == operation_bits(event.0),
{
    let bits = event.0;
    assert(bits & 0x3u32 <= 3) by (bit_vector);
}

/// Each keyword is written in upper-case ASCII letters.
pub proof fn lemma_keyword_upper_case(op: PgTriggerOperation)
    ensures
        keyword(op).len() > 0,
        forall|i: int| 0 <= i < keyword(op).len() ==> 'A' <= #[trigger] keyword(op)[i] <= 'Z',
{
    reveal_strlit("INSERT");
    reveal_strlit("UPDATE");
    reveal_strlit("DELETE");
    reveal_strlit("TRUNCATE");
}

/// Distinct operations are shown as distinct keywords.
pub proof fn lemma_keyword_injective(a: PgTriggerOperation, b: PgTriggerOperation)
    ensures
        keyword(a) == keyword(b) ==> a == b,
{
    reveal_strlit("INSERT");
    reveal_strlit("UPDATE");
    reveal_strlit("DELETE");
    reveal_strlit("TRUNCATE");
    if a != b {
        // Any two keywords differ in length or in one of their first two letters.
        assert(keyword(a).len() != keyword(b).len() || keyword(a)[0] != keyword(b)[0]
            || keyword(a)[1] != keyword(b)[1]);
    }
}

} // verus!
