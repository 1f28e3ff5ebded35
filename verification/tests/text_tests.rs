//! Tests for the mutation batch and its reduction to a covering range and
//! replacement text.

use rule_signals::rule::ServiceBag;
use rule_signals::text::{BatchMutation, TextRange};

#[test]
fn empty_batch_reduces_to_empty_range_and_text() {
    let m = BatchMutation::new();
    assert!(m.is_empty());
    assert_eq!(m.as_text_range_and_edit(), None);
    let (range, text) = m.to_text_range_and_edit();
    assert_eq!(range, TextRange::new(0, 0));
    assert_eq!(text, "");
}

#[test]
fn single_edit_reduces_to_itself() {
    let mut m = BatchMutation::new();
    m.replace_range(TextRange::new(4, 9), "hello".to_string());
    assert_eq!(m.len(), 1);
    let (range, text) = m.to_text_range_and_edit();
    assert_eq!(range, TextRange::new(4, 9));
    assert_eq!(text, "hello");
}

#[test]
fn several_edits_reduce_to_the_covering_range() {
    let mut m = BatchMutation::new();
    m.replace_range(TextRange::new(10, 12), "ab".to_string());
    m.replace_range(TextRange::new(2, 5), "c".to_string());
    m.remove_range(TextRange::new(7, 8));
    let (range, text) = m.to_text_range_and_edit();
    assert_eq!(range, TextRange::new(2, 12));
    // The replacement joins the edits' texts in recording order.
    assert_eq!(text, "abc");
}

#[test]
fn duplicate_preserves_the_edits() {
    let mut m = BatchMutation::new();
    m.replace_range(TextRange::new(1, 3), "xy".to_string());
    let copy = m.duplicate();
    assert_eq!(copy, m);
    assert_eq!(copy.to_text_range_and_edit(), m.to_text_range_and_edit());
}

#[test]
fn text_range_accessors() {
    let r = TextRange::new(3, 10);
    assert_eq!(r.len(), 7);
    assert_eq!(TextRange::empty(), TextRange::new(0, 0));
}

#[test]
fn service_bag_membership() {
    let mut bag = ServiceBag::new();
    assert!(!bag.provides(7));
    bag.insert(7);
    bag.insert(9);
    assert!(bag.provides(7));
    assert!(bag.provides(9));
    assert!(!bag.provides(8));
}
