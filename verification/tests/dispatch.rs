//! Routing of each shape to its handler, and the error for a shape that no
//! handler takes, without any decoder: each test reports the shape itself.

use serde_untagged::handler::Cursors;
use serde_untagged::{Error, ErrorImpl, Expected, Unexpected, UntaggedEnumVisitor};
use std::cell::Cell;

struct Plain;

impl<'de> Cursors<'de> for Plain {
    type SeqCursor<'access> = &'access mut Vec<i32>;
    type MapCursor<'access> = &'access mut Vec<(String, i32)>;
}

fn visitor<'closure, 'de, Value>() -> UntaggedEnumVisitor<'closure, 'de, Value, Plain> {
    UntaggedEnumVisitor::new()
}

fn mismatch(unexpected: Unexpected, expected: &str) -> Error {
    Error {
        imp: ErrorImpl::InvalidType {
            unexpected,
            expected: expected.to_owned(),
        },
    }
}

#[test]
fn handler_runs_once_and_its_result_comes_back() {
    let calls = Cell::new(0);
    let got = visitor()
        .bool(|b| {
            calls.set(calls.get() + 1);
            Ok(if b { "yes" } else { "no" })
        })
        .visit_bool(true);
    assert_eq!(got, Ok("yes"));
    assert_eq!(calls.get(), 1);
}

#[test]
fn handler_error_comes_back_unchanged() {
    let got: Result<(), Error> = visitor()
        .bool(|b| Err(Error::invalid_value(Unexpected::Bool(b), "the truth")))
        .visit_bool(false);
    assert_eq!(
        got,
        Err(Error {
            imp: ErrorImpl::InvalidValue {
                unexpected: Unexpected::Bool(false),
                expected: "the truth".to_owned(),
            },
        })
    );
}

#[test]
fn other_handlers_are_not_run() {
    let calls = Cell::new(0);
    let got = visitor()
        .bool(|_| {
            calls.set(calls.get() + 1);
            Ok(1)
        })
        .char(|_| {
            calls.set(calls.get() + 10);
            Ok(2)
        })
        .unit(|| {
            calls.set(calls.get() + 100);
            Ok(3)
        })
        .visit_char('c');
    assert_eq!(got, Ok(2));
    assert_eq!(calls.get(), 10);
}

#[test]
fn bool_without_handler() {
    let got: Result<(), Error> = visitor().string(|_| Ok(())).visit_bool(true);
    assert_eq!(got, Err(mismatch(Unexpected::Bool(true), "a string")));
}

#[test]
fn char_goes_to_its_own_handler_first() {
    let got = visitor()
        .char(|c| Ok(format!("char {c}")))
        .string(|s| Ok(format!("string {s}")))
        .visit_char('x');
    assert_eq!(got, Ok("char x".to_owned()));
}

#[test]
fn char_falls_back_to_string_handler() {
    let got = visitor()
        .string(|s| Ok(format!("string {s}")))
        .visit_char('x');
    assert_eq!(got, Ok("string x".to_owned()));
}

#[test]
fn char_of_several_bytes_falls_back_as_the_same_char() {
    let got = visitor().string(|s| Ok(s.to_owned())).visit_char('\u{df}');
    assert_eq!(got, Ok("\u{df}".to_owned()));
    let got = visitor().string(|s| Ok(s.to_owned())).visit_char('\u{1f980}');
    assert_eq!(got, Ok("\u{1f980}".to_owned()));
}

#[test]
fn char_without_any_handler_is_reported_as_char() {
    let got: Result<(), Error> = visitor().bool(|_| Ok(())).visit_char('x');
    assert_eq!(got, Err(mismatch(Unexpected::Char('x'), "a boolean")));
}

#[test]
fn string_does_not_fall_back_to_char_handler() {
    let got: Result<(), Error> = visitor().char(|_| Ok(())).visit_str("x");
    assert_eq!(
        got,
        Err(mismatch(Unexpected::Str("x".to_owned()), "a character"))
    );
}

#[test]
fn borrowed_str_goes_to_its_own_handler_first() {
    let input = String::from("borrowed");
    let got = visitor()
        .borrowed_str(|s| Ok((1, s.len())))
        .string(|s| Ok((2, s.len())))
        .visit_borrowed_str(&input);
    assert_eq!(got, Ok((1, 8)));
}

#[test]
fn borrowed_str_handler_gets_the_input_itself() {
    let input = String::from("borrowed");
    let got: Result<&str, Error> = visitor().borrowed_str(|s| Ok(s)).visit_borrowed_str(&input);
    let text = got.unwrap();
    assert_eq!(text.as_bytes(), input.as_bytes());
    assert!(std::ptr::eq(text, input.as_str()));
}

#[test]
fn borrowed_str_falls_back_to_string_handler() {
    let input = String::from("borrowed");
    let got = visitor()
        .string(|s| Ok((2, s.to_owned())))
        .visit_borrowed_str(&input);
    assert_eq!(got, Ok((2, "borrowed".to_owned())));
}

#[test]
fn lent_str_does_not_reach_borrowed_handler() {
    let got: Result<usize, Error> = visitor().borrowed_str(|s| Ok(s.len())).visit_str("lent");
    assert_eq!(
        got,
        Err(mismatch(
            Unexpected::Str("lent".to_owned()),
            "a borrowed string"
        ))
    );
}

#[test]
fn bytes_chain() {
    let input = vec![1u8, 2, 3];
    let got = visitor()
        .bytes(|b| Ok((0, b.to_vec())))
        .visit_borrowed_bytes(&input);
    assert_eq!(got, Ok((0, vec![1, 2, 3])));

    let got = visitor()
        .bytes(|b| Ok((0, b.to_vec())))
        .visit_byte_buf(vec![4, 5]);
    assert_eq!(got, Ok((0, vec![4, 5])));

    let got = visitor()
        .bytes(|b| Ok((0, b.to_vec())))
        .borrowed_bytes(|b| Ok((1, b.to_vec())))
        .byte_buf(|b| Ok((2, b)))
        .visit_borrowed_bytes(&input);
    assert_eq!(got, Ok((1, vec![1, 2, 3])));

    let got = visitor()
        .bytes(|b| Ok((0, b.to_vec())))
        .borrowed_bytes(|b| Ok((1, b.to_vec())))
        .byte_buf(|b| Ok((2, b)))
        .visit_byte_buf(vec![6]);
    assert_eq!(got, Ok((2, vec![6])));

    let got = visitor()
        .bytes(|b| Ok((0, b.to_vec())))
        .borrowed_bytes(|b| Ok((1, b.to_vec())))
        .byte_buf(|b| Ok((2, b)))
        .visit_bytes(&[7, 8]);
    assert_eq!(got, Ok((0, vec![7, 8])));
}

#[test]
fn byte_buf_does_not_reach_borrowed_handler() {
    let got: Result<usize, Error> = visitor()
        .borrowed_bytes(|b| Ok(b.len()))
        .visit_byte_buf(vec![9, 9]);
    assert_eq!(got, Err(mismatch(Unexpected::Bytes(vec![9, 9]), "a byte array")));
}

#[test]
fn bytes_without_handler() {
    let got: Result<(), Error> = visitor().visit_bytes(&[1, 2]);
    assert_eq!(got, Err(mismatch(Unexpected::Bytes(vec![1, 2]), "unspecified")));
}

#[test]
fn single_precision_goes_to_its_own_handler_first() {
    let half = 0.5f32;
    let got = visitor()
        .float32(|bits| Ok(f64::from(f32::from_bits(bits)) + 1.0))
        .float64(|bits| Ok(f64::from_bits(bits) + 2.0))
        .visit_float32(half.to_bits(), f64::from(half).to_bits());
    assert_eq!(got, Ok(1.5));
}

#[test]
fn single_precision_falls_back_widened() {
    let half = 0.5f32;
    let got = visitor()
        .float64(|bits| Ok(f64::from_bits(bits) + 2.0))
        .visit_float32(half.to_bits(), f64::from(half).to_bits());
    assert_eq!(got, Ok(2.5));
}

#[test]
fn double_precision_does_not_reach_single_handler() {
    let got: Result<(), Error> = visitor()
        .float32(|_| Ok(()))
        .visit_float64(2.5f64.to_bits());
    assert_eq!(got, Err(mismatch(Unexpected::Float(2.5f64.to_bits()), "a float")));
}

#[test]
fn single_precision_without_handler_is_reported_widened() {
    let half = 0.5f32;
    let got: Result<(), Error> =
        visitor().visit_float32(half.to_bits(), f64::from(half).to_bits());
    assert_eq!(
        got,
        Err(mismatch(Unexpected::Float(0.5f64.to_bits()), "unspecified"))
    );
}

#[test]
fn none_and_unit_have_handlers_of_their_own() {
    let got = visitor().none(|| Ok(1)).unit(|| Ok(2)).visit_none();
    assert_eq!(got, Ok(1));
    let got = visitor().none(|| Ok(1)).unit(|| Ok(2)).visit_unit();
    assert_eq!(got, Ok(2));
}

#[test]
fn none_does_not_reach_unit_handler() {
    let got: Result<i32, Error> = visitor().unit(|| Ok(2)).visit_none();
    assert_eq!(got, Err(mismatch(Unexpected::Option, "null")));
    let got: Result<i32, Error> = visitor().none(|| Ok(1)).visit_unit();
    assert_eq!(got, Err(mismatch(Unexpected::Unit, "null")));
}

#[test]
fn null_with_only_a_sequence_handler() {
    let got: Result<(), Error> = visitor().seq(|_seq| Ok(())).visit_unit();
    assert_eq!(got, Err(mismatch(Unexpected::Unit, "an array")));
}

#[test]
fn seq_handler_reads_through_the_cursor() {
    let mut elements = vec![3, 4, 5];
    let got = visitor()
        .seq(|seq| {
            let mut sum = 0;
            while let Some(element) = seq.pop() {
                sum += element;
            }
            Ok(sum)
        })
        .visit_seq(&mut elements);
    assert_eq!(got, Ok(12));
    assert!(elements.is_empty());
}

#[test]
fn seq_without_handler_is_left_unread() {
    let mut elements = vec![3, 4, 5];
    let got: Result<(), Error> = visitor().map(|_map| Ok(())).visit_seq(&mut elements);
    assert_eq!(got, Err(mismatch(Unexpected::Sequence, "a map")));
    assert_eq!(elements, vec![3, 4, 5]);
}

#[test]
fn map_handler_reads_through_the_cursor() {
    let mut entries = vec![("a".to_owned(), 1), ("b".to_owned(), 2)];
    let got = visitor()
        .map(|map| Ok(map.iter().map(|(key, _)| key.clone()).collect::<Vec<_>>()))
        .visit_map(&mut entries);
    assert_eq!(got, Ok(vec!["a".to_owned(), "b".to_owned()]));
}

#[test]
fn map_without_handler() {
    let mut entries = Vec::new();
    let got: Result<(), Error> = visitor().seq(|_seq| Ok(())).visit_map(&mut entries);
    assert_eq!(got, Err(mismatch(Unexpected::Mapping, "an array")));
}

#[test]
fn description_of_nothing() {
    assert_eq!(visitor::<()>().describe(), "unspecified");
}

#[test]
fn description_grows_with_the_groups() {
    let v = visitor::<()>().seq(|_| Ok(()));
    assert_eq!(v.describe(), "an array");
    let v = v.bool(|_| Ok(()));
    assert_eq!(v.describe(), "a boolean or array");
    let v = v.i8(|_| Ok(()));
    assert_eq!(v.describe(), "a boolean, integer or array");
    let v = v.i16(|_| Ok(()));
    assert_eq!(v.describe(), "a boolean, integer or array");
    let v = v.u128(|_| Ok(()));
    assert_eq!(v.describe(), "a boolean, integer or array");
}

#[test]
fn description_names_every_group_in_order() {
    let v = visitor::<()>()
        .map(|_| Ok(()))
        .seq(|_| Ok(()))
        .unit(|| Ok(()))
        .bytes(|_| Ok(()))
        .string(|_| Ok(()))
        .char(|_| Ok(()))
        .float64(|_| Ok(()))
        .u64(|_| Ok(()))
        .bool(|_| Ok(()));
    assert_eq!(
        v.describe(),
        "a boolean, integer, float, character, string, byte array, null, array or map"
    );
}

#[test]
fn description_of_each_group_alone() {
    assert_eq!(visitor::<()>().bool(|_| Ok(())).describe(), "a boolean");
    assert_eq!(visitor::<()>().i32(|_| Ok(())).describe(), "an integer");
    assert_eq!(visitor::<()>().u8(|_| Ok(())).describe(), "an integer");
    assert_eq!(visitor::<()>().float32(|_| Ok(())).describe(), "a float");
    assert_eq!(visitor::<()>().float64(|_| Ok(())).describe(), "a float");
    assert_eq!(visitor::<()>().char(|_| Ok(())).describe(), "a character");
    assert_eq!(visitor::<()>().string(|_| Ok(())).describe(), "a string");
    assert_eq!(
        visitor::<()>().borrowed_str(|_| Ok(())).describe(),
        "a borrowed string"
    );
    assert_eq!(visitor::<()>().bytes(|_| Ok(())).describe(), "a byte array");
    assert_eq!(
        visitor::<()>().borrowed_bytes(|_| Ok(())).describe(),
        "a byte array"
    );
    assert_eq!(visitor::<()>().byte_buf(|_| Ok(())).describe(), "a byte array");
    assert_eq!(visitor::<()>().none(|| Ok(())).describe(), "null");
    assert_eq!(visitor::<()>().unit(|| Ok(())).describe(), "null");
    assert_eq!(visitor::<()>().seq(|_| Ok(())).describe(), "an array");
    assert_eq!(visitor::<()>().map(|_| Ok(())).describe(), "a map");
}

#[test]
fn borrowed_string_is_not_named_beside_string() {
    let v = visitor::<()>().borrowed_str(|_| Ok(())).string(|_| Ok(()));
    assert_eq!(v.describe(), "a string");
    let v = visitor::<()>().bool(|_| Ok(())).borrowed_str(|_| Ok(()));
    assert_eq!(v.describe(), "a boolean or borrowed string");
}

#[test]
fn null_leads_without_article() {
    let v = visitor::<()>().none(|| Ok(())).map(|_| Ok(()));
    assert_eq!(v.describe(), "null or map");
}

#[test]
fn given_description_wins() {
    let v = visitor::<()>()
        .bool(|_| Ok(()))
        .expecting("foo of type T")
        .seq(|_| Ok(()));
    assert_eq!(v.describe(), "foo of type T");
    let got = v.visit_unit();
    assert_eq!(got, Err(mismatch(Unexpected::Unit, "foo of type T")));
}

#[test]
fn given_description_may_be_empty() {
    let v = visitor::<()>().bool(|_| Ok(())).expecting("");
    assert_eq!(v.describe(), "");
}
