use level_override::model::{Field, PLACEHOLDER_CALLSITE};
use level_override::visitor::Visitor;

#[test]
fn fresh_buffer_holds_placeholder_slots() {
    let visitor: Visitor<3> = Visitor::new();
    let slots = visitor.get_values();
    assert_eq!(slots.len(), 3);
    for (field, value) in &slots {
        assert_eq!(field.callsite, PLACEHOLDER_CALLSITE);
        assert_eq!(field.index, 0);
        assert!(value.is_none());
    }
}

#[test]
fn recording_fills_slots_in_order() {
    let mut visitor: Visitor<3> = Visitor::new();
    visitor.record(Field { index: 4, callsite: 11 }, "first".to_string());
    visitor.record(Field { index: 5, callsite: 11 }, "second".to_string());
    let slots = visitor.get_values();
    assert_eq!(slots.len(), 3);
    assert_eq!(slots[0].0, Field { index: 4, callsite: 11 });
    assert_eq!(slots[0].1.as_deref(), Some("first"));
    assert_eq!(slots[1].0, Field { index: 5, callsite: 11 });
    assert_eq!(slots[1].1.as_deref(), Some("second"));
    assert_eq!(slots[2].0.callsite, PLACEHOLDER_CALLSITE);
    assert!(slots[2].1.is_none());
}

#[test]
fn recording_past_capacity_is_a_no_op() {
    let mut visitor: Visitor<2> = Visitor::new();
    visitor.record(Field { index: 0, callsite: 11 }, "a".to_string());
    visitor.record(Field { index: 1, callsite: 11 }, "b".to_string());
    visitor.record(Field { index: 2, callsite: 11 }, "c".to_string());
    let slots = visitor.get_values();
    assert_eq!(slots.len(), 2);
    assert_eq!(slots[0].1.as_deref(), Some("a"));
    assert_eq!(slots[1].1.as_deref(), Some("b"));
}

#[test]
fn zero_capacity_buffer_drops_everything() {
    let mut visitor: Visitor<0> = Visitor::new();
    visitor.record(Field { index: 0, callsite: 11 }, "a".to_string());
    let slots = visitor.get_values();
    assert!(slots.is_empty());
}
