//! The error taxonomy and the slot that carries a seed one way and its value
//! the other.

use serde_untagged::seed::Slot;
use serde_untagged::{DefaultVisitor, Error, ErrorImpl, Expected, Unexpected};

#[test]
fn custom_holds_the_message() {
    assert_eq!(
        Error::custom("it broke"),
        Error {
            imp: ErrorImpl::Custom("it broke".to_owned())
        }
    );
}

#[test]
fn invalid_type_holds_both_sides() {
    assert_eq!(
        Error::invalid_type(Unexpected::Signed(-3), "a string"),
        Error {
            imp: ErrorImpl::InvalidType {
                unexpected: Unexpected::Signed(-3),
                expected: "a string".to_owned(),
            }
        }
    );
}

#[test]
fn invalid_value_holds_both_sides() {
    assert_eq!(
        Error::invalid_value(Unexpected::Str("off".to_owned()), "fat or thin"),
        Error {
            imp: ErrorImpl::InvalidValue {
                unexpected: Unexpected::Str("off".to_owned()),
                expected: "fat or thin".to_owned(),
            }
        }
    );
}

#[test]
fn invalid_length_holds_the_count() {
    assert_eq!(
        Error::invalid_length(3, "two elements"),
        Error {
            imp: ErrorImpl::InvalidLength {
                len: 3,
                expected: "two elements".to_owned(),
            }
        }
    );
}

#[test]
fn unknown_variant_and_field_hold_the_valid_names() {
    const NAMES: &[&str] = &["min", "max"];
    assert_eq!(
        Error::unknown_variant("mid", NAMES),
        Error {
            imp: ErrorImpl::UnknownVariant {
                variant: "mid".to_owned(),
                expected: NAMES,
            }
        }
    );
    assert_eq!(
        Error::unknown_field("mid", NAMES),
        Error {
            imp: ErrorImpl::UnknownField {
                field: "mid".to_owned(),
                expected: NAMES,
            }
        }
    );
}

#[test]
fn missing_and_duplicate_field_hold_the_name() {
    assert_eq!(
        Error::missing_field("min"),
        Error {
            imp: ErrorImpl::MissingField { field: "min" }
        }
    );
    assert_eq!(
        Error::duplicate_field("min"),
        Error {
            imp: ErrorImpl::DuplicateField { field: "min" }
        }
    );
}

#[test]
fn text_describes_itself() {
    assert_eq!("an array".describe(), "an array");
}

fn mismatch(unexpected: Unexpected) -> Result<(), Error> {
    Err(Error {
        imp: ErrorImpl::InvalidType {
            unexpected,
            expected: "a map".to_owned(),
        },
    })
}

#[test]
fn default_answers_report_the_shape() {
    assert_eq!(
        DefaultVisitor::new("a map").visit_bool(true),
        mismatch(Unexpected::Bool(true))
    );
    assert_eq!(
        DefaultVisitor::new("a map").visit_float64(7),
        mismatch(Unexpected::Float(7))
    );
    assert_eq!(
        DefaultVisitor::new("a map").visit_str("s"),
        mismatch(Unexpected::Str("s".to_owned()))
    );
    assert_eq!(
        DefaultVisitor::new("a map").visit_bytes(&[1]),
        mismatch(Unexpected::Bytes(vec![1]))
    );
    assert_eq!(
        DefaultVisitor::new("a map").visit_none(),
        mismatch(Unexpected::Option)
    );
    assert_eq!(
        DefaultVisitor::new("a map").visit_unit(),
        mismatch(Unexpected::Unit)
    );
    assert_eq!(
        DefaultVisitor::new("a map").visit_seq(vec![1]),
        mismatch(Unexpected::Sequence)
    );
    assert_eq!(
        DefaultVisitor::new("a map").visit_map(()),
        mismatch(Unexpected::Mapping)
    );
    assert_eq!(
        DefaultVisitor::new("a map").visit_u128(1 << 100),
        mismatch(Unexpected::Unsigned128(1 << 100))
    );
    assert_eq!(
        DefaultVisitor::new("a map").visit_i128(-(1 << 100)),
        mismatch(Unexpected::Signed128(-(1 << 100)))
    );
}

#[test]
fn slot_gives_its_seed_once() {
    let mut slot: Slot<&str, i32> = Slot::new("seed");
    assert_eq!(slot.take_seed(), Some("seed"));
    assert_eq!(slot.take_seed(), None);
    assert_eq!(slot.take(), None);
}

#[test]
fn slot_gives_back_the_value_it_was_filled_with() {
    let mut slot: Slot<&str, i32> = Slot::new("seed");
    let seed = slot.take_seed().unwrap();
    slot.fill(seed.len() as i32);
    assert_eq!(slot.take_seed(), None);
    assert_eq!(slot.take(), Some(4));
}

#[test]
fn unused_slot_holds_no_value() {
    let slot: Slot<&str, i32> = Slot::new("seed");
    assert_eq!(slot.take(), None);
}
