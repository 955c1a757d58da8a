use pg_trigger::pg_sys::{
    TRIGGER_EVENT_AFTER, TRIGGER_EVENT_BEFORE, TRIGGER_EVENT_DELETE, TRIGGER_EVENT_INSERT,
    TRIGGER_EVENT_INSTEAD, TRIGGER_EVENT_OPMASK, TRIGGER_EVENT_ROW, TRIGGER_EVENT_TRUNCATE,
    TRIGGER_EVENT_UPDATE,
};
use pg_trigger::trigger_support::{PgTriggerOperation, TriggerEvent};

fn classify(bits: u32) -> PgTriggerOperation {
    PgTriggerOperation::try_from(TriggerEvent(bits)).expect("a known operation")
}

#[test]
fn insert_after_row() {
    let op = classify(TRIGGER_EVENT_INSERT | TRIGGER_EVENT_AFTER | TRIGGER_EVENT_ROW);
    assert_eq!(op, PgTriggerOperation::Insert);
    assert_eq!(op.to_string(), "INSERT");
}

#[test]
fn delete_before_statement() {
    let op = classify(TRIGGER_EVENT_DELETE | TRIGGER_EVENT_BEFORE);
    assert_eq!(op, PgTriggerOperation::Delete);
    assert_eq!(op.to_string(), "DELETE");
}

#[test]
fn update_alone() {
    let op = classify(TRIGGER_EVENT_UPDATE);
    assert_eq!(op, PgTriggerOperation::Update);
    assert_eq!(op.to_string(), "UPDATE");
}

#[test]
fn truncate_alone() {
    let op = classify(TRIGGER_EVENT_TRUNCATE);
    assert_eq!(op, PgTriggerOperation::Truncate);
    assert_eq!(op.to_string(), "TRUNCATE");
}

#[test]
fn exact_bit_values() {
    assert_eq!(classify(0x0), PgTriggerOperation::Insert);
    assert_eq!(classify(0x1), PgTriggerOperation::Delete);
    assert_eq!(classify(0x2), PgTriggerOperation::Update);
    assert_eq!(classify(0x3), PgTriggerOperation::Truncate);
    assert_eq!(classify(0x5), PgTriggerOperation::Delete);
    assert_eq!(classify(0x1e), PgTriggerOperation::Update);
}

#[test]
fn other_bits_do_not_change_the_operation() {
    let extras: [u32; 6] = [
        0,
        TRIGGER_EVENT_ROW,
        TRIGGER_EVENT_BEFORE | TRIGGER_EVENT_ROW,
        TRIGGER_EVENT_INSTEAD | TRIGGER_EVENT_ROW,
        0xffff_fff0,
        u32::MAX & !TRIGGER_EVENT_OPMASK,
    ];
    let ops = [
        (TRIGGER_EVENT_INSERT, PgTriggerOperation::Insert),
        (TRIGGER_EVENT_UPDATE, PgTriggerOperation::Update),
        (TRIGGER_EVENT_DELETE, PgTriggerOperation::Delete),
        (TRIGGER_EVENT_TRUNCATE, PgTriggerOperation::Truncate),
    ];
    for (c, expected) in ops {
        for extra in extras {
            assert_eq!(classify(c | extra), expected);
        }
    }
}

#[test]
fn every_mask_value_names_an_operation() {
    for bits in [0u32, 1, 2, 3, 0x7fff_ffff, 0x8000_0000, u32::MAX] {
        assert!(PgTriggerOperation::try_from(TriggerEvent(bits)).is_ok());
    }
    assert_eq!(classify(u32::MAX), PgTriggerOperation::Truncate);
}

#[test]
fn keywords_are_distinct_and_upper_case() {
    let all = [
        PgTriggerOperation::Insert,
        PgTriggerOperation::Update,
        PgTriggerOperation::Delete,
        PgTriggerOperation::Truncate,
    ];
    for a in all {
        let s = a.to_string();
        assert!(!s.is_empty());
        assert!(s.chars().all(|c| c.is_ascii_uppercase()));
        for b in all {
            assert_eq!(a == b, s == b.to_string());
        }
    }
}
