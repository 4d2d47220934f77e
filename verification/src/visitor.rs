//! The visitor: one optional handler for each shape, the description of
//! what it expects, and the registration of handlers.

use crate::error::Error;
use crate::error::Expected;
use crate::expecting::message;
use crate::expecting::Expecting;
use crate::expecting::Phrase;
use crate::handler::BytesHandler;
use crate::handler::Cursors;
use crate::handler::Handler;
use crate::handler::MapHandler;
use crate::handler::SeqHandler;
use crate::handler::StrHandler;
use crate::handler::UnitHandler;
use crate::integer::IntKind;
use vstd::prelude::*;

verus! {

/// The handlers registered for one dispatch, and the description to put in
/// place of the default one in an invalid-type error.
///
/// A shape takes one handler at most: each registering function requires
/// that its shape has none yet. A handler is used up by the one call it gets.
///
/// A floating-point number crosses the dispatcher as its IEEE 754 bit
/// pattern: 32 bits at single precision, 64 bits at double precision.
#[verifier::reject_recursive_types(Value)]
#[verifier::reject_recursive_types(C)]
pub struct UntaggedEnumVisitor<'closure, 'de, Value, C: Cursors<'de>> {
    pub expecting: Option<String>,
    pub visit_bool: Option<Box<dyn Handler<bool, Value> + 'closure>>,
    pub visit_i8: Option<Box<dyn Handler<i8, Value> + 'closure>>,
    pub visit_i16: Option<Box<dyn Handler<i16, Value> + 'closure>>,
    pub visit_i32: Option<Box<dyn Handler<i32, Value> + 'closure>>,
    pub visit_i64: Option<Box<dyn Handler<i64, Value> + 'closure>>,
    pub visit_i128: Option<Box<dyn Handler<i128, Value> + 'closure>>,
    pub visit_u8: Option<Box<dyn Handler<u8, Value> + 'closure>>,
    pub visit_u16: Option<Box<dyn Handler<u16, Value> + 'closure>>,
    pub visit_u32: Option<Box<dyn Handler<u32, Value> + 'closure>>,
    pub visit_u64: Option<Box<dyn Handler<u64, Value> + 'closure>>,
    pub visit_u128: Option<Box<dyn Handler<u128, Value> + 'closure>>,
    pub visit_float32: Option<Box<dyn Handler<u32, Value> + 'closure>>,
    pub visit_float64: Option<Box<dyn Handler<u64, Value> + 'closure>>,
    pub visit_char: Option<Box<dyn Handler<char, Value> + 'closure>>,
    pub visit_str: Option<Box<dyn StrHandler<Value> + 'closure>>,
    pub visit_borrowed_str: Option<Box<dyn Handler<&'de str, Value> + 'closure>>,
    pub visit_bytes: Option<Box<dyn BytesHandler<Value> + 'closure>>,
    pub visit_borrowed_bytes: Option<Box<dyn Handler<&'de [u8], Value> + 'closure>>,
    pub visit_byte_buf: Option<Box<dyn Handler<Vec<u8>, Value> + 'closure>>,
    pub visit_none: Option<Box<dyn UnitHandler<Value> + 'closure>>,
    pub visit_unit: Option<Box<dyn UnitHandler<Value> + 'closure>>,
    pub visit_seq: Option<Box<dyn SeqHandler<'de, Value, C> + 'closure>>,
    pub visit_map: Option<Box<dyn MapHandler<'de, Value, C> + 'closure>>,
}

/// The phrase made of an article and a noun.
pub open spec fn phrase(article: &str, noun: &str) -> Phrase {
    Phrase { article: article@, noun: noun@ }
}

/// `phrases`, followed by the phrase where `registered` holds.
pub open spec fn with_phrase(
    phrases: Seq<Phrase>,
    registered: bool,
    article: &str,
    noun: &str,
) -> Seq<Phrase> {
    if registered {
        phrases.push(phrase(article, noun))
    } else {
        phrases
    }
}

impl<'closure, 'de, Value, C: Cursors<'de>> UntaggedEnumVisitor<'closure, 'de, Value, C> {
    /// Whether a handler is registered for the width.
    pub open spec fn has_int(&self, kind: IntKind) -> bool {
        match kind {
            IntKind::I8 => self.visit_i8.is_some(),
            IntKind::I16 => self.visit_i16.is_some(),
            IntKind::I32 => self.visit_i32.is_some(),
            IntKind::I64 => self.visit_i64.is_some(),
            IntKind::I128 => self.visit_i128.is_some(),
            IntKind::U8 => self.visit_u8.is_some(),
            IntKind::U16 => self.visit_u16.is_some(),
            IntKind::U32 => self.visit_u32.is_some(),
            IntKind::U64 => self.visit_u64.is_some(),
            IntKind::U128 => self.visit_u128.is_some(),
        }
    }

    /// Whether a handler is registered for any integer width.
    pub open spec fn has_any_int(&self) -> bool {
        ||| self.visit_i8.is_some()
        ||| self.visit_i16.is_some()
        ||| self.visit_i32.is_some()
        ||| self.visit_i64.is_some()
        ||| self.visit_i128.is_some()
        ||| self.visit_u8.is_some()
        ||| self.visit_u16.is_some()
        ||| self.visit_u32.is_some()
        ||| self.visit_u64.is_some()
        ||| self.visit_u128.is_some()
    }

    /// Whether a handler is registered for a number of either precision.
    pub open spec fn has_float(&self) -> bool {
        self.visit_float32.is_some() || self.visit_float64.is_some()
    }

    /// Whether a handler is registered for bytes, however they are held.
    pub open spec fn has_byte_array(&self) -> bool {
        ||| self.visit_bytes.is_some()
        ||| self.visit_borrowed_bytes.is_some()
        ||| self.visit_byte_buf.is_some()
    }

    /// Whether a handler is registered for the unit value or for an absent
    /// value.
    pub open spec fn has_null(&self) -> bool {
        self.visit_unit.is_some() || self.visit_none.is_some()
    }

    /// Whether text that lives as long as the input has a handler and lent
    /// text has none, so that the borrowed kind is named on its own.
    pub open spec fn has_borrowed_str_only(&self) -> bool {
        self.visit_borrowed_str.is_some() && self.visit_str.is_none()
    }

    /// The phrases of the default description: one for each group of shapes
    /// that has a handler, in a fixed order, however many handlers the group
    /// has.
    pub open spec fn phrases(&self) -> Seq<Phrase> {
        let p = Seq::<Phrase>::empty();
        let p = with_phrase(p, self.visit_bool.is_some(), "a", "boolean");
        let p = with_phrase(p, self.has_any_int(), "an", "integer");
        let p = with_phrase(p, self.has_float(), "a", "float");
        let p = with_phrase(p, self.visit_char.is_some(), "a", "character");
        let p = with_phrase(p, self.visit_str.is_some(), "a", "string");
        let p = with_phrase(p, self.has_borrowed_str_only(), "a", "borrowed string");
        let p = with_phrase(p, self.has_byte_array(), "a", "byte array");
        let p = with_phrase(p, self.has_null(), "", "null");
        let p = with_phrase(p, self.visit_seq.is_some(), "an", "array");
        let p = with_phrase(p, self.visit_map.is_some(), "a", "map");
        p
    }

    /// Whether the two visitors have handlers in the same groups of shapes,
    /// as the default description groups them.
    pub open spec fn same_groups(&self, other: &Self) -> bool {
        &&& self.visit_bool.is_some() == other.visit_bool.is_some()
        &&& self.has_any_int() == other.has_any_int()
        &&& self.has_float() == other.has_float()
        &&& self.visit_char.is_some() == other.visit_char.is_some()
        &&& self.visit_str.is_some() == other.visit_str.is_some()
        &&& self.has_borrowed_str_only() == other.has_borrowed_str_only()
        &&& self.has_byte_array() == other.has_byte_array()
        &&& self.has_null() == other.has_null()
        &&& self.visit_seq.is_some() == other.visit_seq.is_some()
        &&& self.visit_map.is_some() == other.visit_map.is_some()
    }

    /// The default description names a group once, however many of its
    /// shapes have a handler: visitors with handlers in the same groups
    /// expect the same. A second integer handler adds no second `integer`.
    pub proof fn lemma_group_named_once(&self, other: &Self)
        requires
            self.same_groups(other),
            self.expecting.is_none(),
            other.expecting.is_none(),
        ensures
            self.text() == other.text(),
    {
    }

    /// A description given with `expecting` is what is reported, letter for
    /// letter, whatever handlers are registered.
    pub proof fn lemma_given_description_wins(&self)
        requires
            self.expecting.is_some(),
        ensures
            self.text() == self.expecting.unwrap()@,
    {
    }

    /// The default description has at most one phrase for each of the ten
    /// groups.
    pub proof fn lemma_phrases_are_few(&self)
        ensures
            self.phrases().len() <= 10,
    {
    }

    /// A visitor with no handler and no description of its own.
    pub fn new() -> (visitor: Self)
        ensures
            visitor.text() == "unspecified"@,
            visitor.expecting.is_none(),
            visitor.visit_bool.is_none(),
            visitor.visit_i8.is_none(),
            visitor.visit_i16.is_none(),
            visitor.visit_i32.is_none(),
            visitor.visit_i64.is_none(),
            visitor.visit_i128.is_none(),
            visitor.visit_u8.is_none(),
            visitor.visit_u16.is_none(),
            visitor.visit_u32.is_none(),
            visitor.visit_u64.is_none(),
            visitor.visit_u128.is_none(),
            visitor.visit_float32.is_none(),
            visitor.visit_float64.is_none(),
            visitor.visit_char.is_none(),
            visitor.visit_str.is_none(),
            visitor.visit_borrowed_str.is_none(),
            visitor.visit_bytes.is_none(),
            visitor.visit_borrowed_bytes.is_none(),
            visitor.visit_byte_buf.is_none(),
            visitor.visit_none.is_none(),
            visitor.visit_unit.is_none(),
            visitor.visit_seq.is_none(),
            visitor.visit_map.is_none(),
    {
        UntaggedEnumVisitor {
            expecting: None,
            visit_bool: None,
            visit_i8: None,
            visit_i16: None,
            visit_i32: None,
            visit_i64: None,
            visit_i128: None,
            visit_u8: None,
            visit_u16: None,
            visit_u32: None,
            visit_u64: None,
            visit_u128: None,
            visit_float32: None,
            visit_float64: None,
            visit_char: None,
            visit_str: None,
            visit_borrowed_str: None,
            visit_bytes: None,
            visit_borrowed_bytes: None,
            visit_byte_buf: None,
            visit_none: None,
            visit_unit: None,
            visit_seq: None,
            visit_map: None,
        }
    }

    /// Gives the description of what this visitor expects, to be used in
    /// place of the list of registered shapes. It completes the sentence
    /// "This visitor expects to receive ...".
    #[must_use]
    pub fn expecting(self, expecting: &str) -> (visitor: Self)
        requires
            self.expecting.is_none(),
        ensures
            visitor == (UntaggedEnumVisitor { expecting: visitor.expecting, ..self }),
            visitor.expecting.is_some(),
            visitor.expecting.unwrap()@ == expecting@,
            visitor.text() == expecting@,
    {
        let mut visitor = self;
        visitor.expecting = Some(expecting.to_owned());
        visitor
    }

    /// Registers the handler of a boolean.
    #[must_use]
    pub fn bool(
        self,
        visit: impl FnOnce(bool) -> Result<Value, Error> + 'closure,
    ) -> (visitor: Self)
        requires
            self.visit_bool.is_none(),
        ensures
            visitor == (UntaggedEnumVisitor { visit_bool: visitor.visit_bool, ..self }),
            visitor.visit_bool.is_some(),
            forall|a: bool|
                #![trigger visitor.visit_bool.unwrap().accepts(a)]
                visitor.visit_bool.unwrap().accepts(a) == call_requires(visit, (a,)),
            forall|a: bool, r: Result<Value, Error>|
                #![trigger visitor.visit_bool.unwrap().yields(a, r)]
                visitor.visit_bool.unwrap().yields(a, r) == call_ensures(visit, (a,), r),
    {
        let mut visitor = self;
        visitor.visit_bool = Some(Box::new(visit));
        visitor
    }

    /// Registers the handler of an integer that fits `i8`.
    #[must_use]
    pub fn i8(
        self,
        visit: impl FnOnce(i8) -> Result<Value, Error> + 'closure,
    ) -> (visitor: Self)
        requires
            self.visit_i8.is_none(),
        ensures
            visitor == (UntaggedEnumVisitor { visit_i8: visitor.visit_i8, ..self }),
            visitor.visit_i8.is_some(),
            forall|a: i8|
                #![trigger visitor.visit_i8.unwrap().accepts(a)]
                visitor.visit_i8.unwrap().accepts(a) == call_requires(visit, (a,)),
            forall|a: i8, r: Result<Value, Error>|
                #![trigger visitor.visit_i8.unwrap().yields(a, r)]
                visitor.visit_i8.unwrap().yields(a, r) == call_ensures(visit, (a,), r),
    {
        let mut visitor = self;
        visitor.visit_i8 = Some(Box::new(visit));
        visitor
    }

    /// Registers the handler of an integer that fits `i16`.
    #[must_use]
    pub fn i16(
        self,
        visit: impl FnOnce(i16) -> Result<Value, Error> + 'closure,
    ) -> (visitor: Self)
        requires
            self.visit_i16.is_none(),
        ensures
            visitor == (UntaggedEnumVisitor { visit_i16: visitor.visit_i16, ..self }),
            visitor.visit_i16.is_some(),
            forall|a: i16|
                #![trigger visitor.visit_i16.unwrap().accepts(a)]
                visitor.visit_i16.unwrap().accepts(a) == call_requires(visit, (a,)),
            forall|a: i16, r: Result<Value, Error>|
                #![trigger visitor.visit_i16.unwrap().yields(a, r)]
                visitor.visit_i16.unwrap().yields(a, r) == call_ensures(visit, (a,), r),
    {
        let mut visitor = self;
        visitor.visit_i16 = Some(Box::new(visit));
        visitor
    }

    /// Registers the handler of an integer that fits `i32`.
    #[must_use]
    pub fn i32(
        self,
        visit: impl FnOnce(i32) -> Result<Value, Error> + 'closure,
    ) -> (visitor: Self)
        requires
            self.visit_i32.is_none(),
        ensures
            visitor == (UntaggedEnumVisitor { visit_i32: visitor.visit_i32, ..self }),
            visitor.visit_i32.is_some(),
            forall|a: i32|
                #![trigger visitor.visit_i32.unwrap().accepts(a)]
                visitor.visit_i32.unwrap().accepts(a) == call_requires(visit, (a,)),
            forall|a: i32, r: Result<Value, Error>|
                #![trigger visitor.visit_i32.unwrap().yields(a, r)]
                visitor.visit_i32.unwrap().yields(a, r) == call_ensures(visit, (a,), r),
    {
        let mut visitor = self;
        visitor.visit_i32 = Some(Box::new(visit));
        visitor
    }

    /// Registers the handler of an integer that fits `i64`.
    #[must_use]
    pub fn i64(
        self,
        visit: impl FnOnce(i64) -> Result<Value, Error> + 'closure,
    ) -> (visitor: Self)
        requires
            self.visit_i64.is_none(),
        ensures
            visitor == (UntaggedEnumVisitor { visit_i64: visitor.visit_i64, ..self }),
            visitor.visit_i64.is_some(),
            forall|a: i64|
                #![trigger visitor.visit_i64.unwrap().accepts(a)]
                visitor.visit_i64.unwrap().accepts(a) == call_requires(visit, (a,)),
            forall|a: i64, r: Result<Value, Error>|
                #![trigger visitor.visit_i64.unwrap().yields(a, r)]
                visitor.visit_i64.unwrap().yields(a, r) == call_ensures(visit, (a,), r),
    {
        let mut visitor = self;
        visitor.visit_i64 = Some(Box::new(visit));
        visitor
    }

    /// Registers the handler of an integer that fits `i128`.
    #[must_use]
    pub fn i128(
        self,
        visit: impl FnOnce(i128) -> Result<Value, Error> + 'closure,
    ) -> (visitor: Self)
        requires
            self.visit_i128.is_none(),
        ensures
            visitor == (UntaggedEnumVisitor { visit_i128: visitor.visit_i128, ..self }),
            visitor.visit_i128.is_some(),
            forall|a: i128|
                #![trigger visitor.visit_i128.unwrap().accepts(a)]
                visitor.visit_i128.unwrap().accepts(a) == call_requires(visit, (a,)),
            forall|a: i128, r: Result<Value, Error>|
                #![trigger visitor.visit_i128.unwrap().yields(a, r)]
                visitor.visit_i128.unwrap().yields(a, r) == call_ensures(visit, (a,), r),
    {
        let mut visitor = self;
        visitor.visit_i128 = Some(Box::new(visit));
        visitor
    }

    /// Registers the handler of an integer that fits `u8`.
    #[must_use]
    pub fn u8(
        self,
        visit: impl FnOnce(u8) -> Result<Value, Error> + 'closure,
    ) -> (visitor: Self)
        requires
            self.visit_u8.is_none(),
        ensures
            visitor == (UntaggedEnumVisitor { visit_u8: visitor.visit_u8, ..self }),
            visitor.visit_u8.is_some(),
            forall|a: u8|
                #![trigger visitor.visit_u8.unwrap().accepts(a)]
                visitor.visit_u8.unwrap().accepts(a) == call_requires(visit, (a,)),
            forall|a: u8, r: Result<Value, Error>|
                #![trigger visitor.visit_u8.unwrap().yields(a, r)]
                visitor.visit_u8.unwrap().yields(a, r) == call_ensures(visit, (a,), r),
    {
        let mut visitor = self;
        visitor.visit_u8 = Some(Box::new(visit));
        visitor
    }

    /// Registers the handler of an integer that fits `u16`.
    #[must_use]
    pub fn u16(
        self,
        visit: impl FnOnce(u16) -> Result<Value, Error> + 'closure,
    ) -> (visitor: Self)
        requires
            self.visit_u16.is_none(),
        ensures
            visitor == (UntaggedEnumVisitor { visit_u16: visitor.visit_u16, ..self }),
            visitor.visit_u16.is_some(),
            forall|a: u16|
                #![trigger visitor.visit_u16.unwrap().accepts(a)]
                visitor.visit_u16.unwrap().accepts(a) == call_requires(visit, (a,)),
            forall|a: u16, r: Result<Value, Error>|
                #![trigger visitor.visit_u16.unwrap().yields(a, r)]
                visitor.visit_u16.unwrap().yields(a, r) == call_ensures(visit, (a,), r),
    {
        let mut visitor = self;
        visitor.visit_u16 = Some(Box::new(visit));
        visitor
    }

    /// Registers the handler of an integer that fits `u32`.
    #[must_use]
    pub fn u32(
        self,
        visit: impl FnOnce(u32) -> Result<Value, Error> + 'closure,
    ) -> (visitor: Self)
        requires
            self.visit_u32.is_none(),
        ensures
            visitor == (UntaggedEnumVisitor { visit_u32: visitor.visit_u32, ..self }),
            visitor.visit_u32.is_some(),
            forall|a: u32|
                #![trigger visitor.visit_u32.unwrap().accepts(a)]
                visitor.visit_u32.unwrap().accepts(a) == call_requires(visit, (a,)),
            forall|a: u32, r: Result<Value, Error>|
                #![trigger visitor.visit_u32.unwrap().yields(a, r)]
                visitor.visit_u32.unwrap().yields(a, r) == call_ensures(visit, (a,), r),
    {
        let mut visitor = self;
        visitor.visit_u32 = Some(Box::new(visit));
        visitor
    }

    /// Registers the handler of an integer that fits `u64`.
    #[must_use]
    pub fn u64(
        self,
        visit: impl FnOnce(u64) -> Result<Value, Error> + 'closure,
    ) -> (visitor: Self)
        requires
            self.visit_u64.is_none(),
        ensures
            visitor == (UntaggedEnumVisitor { visit_u64: visitor.visit_u64, ..self }),
            visitor.visit_u64.is_some(),
            forall|a: u64|
                #![trigger visitor.visit_u64.unwrap().accepts(a)]
                visitor.visit_u64.unwrap().accepts(a) == call_requires(visit, (a,)),
            forall|a: u64, r: Result<Value, Error>|
                #![trigger visitor.visit_u64.unwrap().yields(a, r)]
                visitor.visit_u64.unwrap().yields(a, r) == call_ensures(visit, (a,), r),
    {
        let mut visitor = self;
        visitor.visit_u64 = Some(Box::new(visit));
        visitor
    }

    /// Registers the handler of an integer that fits `u128`.
    #[must_use]
    pub fn u128(
        self,
        visit: impl FnOnce(u128) -> Result<Value, Error> + 'closure,
    ) -> (visitor: Self)
        requires
            self.visit_u128.is_none(),
        ensures
            visitor == (UntaggedEnumVisitor { visit_u128: visitor.visit_u128, ..self }),
            visitor.visit_u128.is_some(),
            forall|a: u128|
                #![trigger visitor.visit_u128.unwrap().accepts(a)]
                visitor.visit_u128.unwrap().accepts(a) == call_requires(visit, (a,)),
            forall|a: u128, r: Result<Value, Error>|
                #![trigger visitor.visit_u128.unwrap().yields(a, r)]
                visitor.visit_u128.unwrap().yields(a, r) == call_ensures(visit, (a,), r),
    {
        let mut visitor = self;
        visitor.visit_u128 = Some(Box::new(visit));
        visitor
    }

    /// Registers the handler of a single-precision number, which it receives as
    /// its bit pattern.
    #[must_use]
    pub fn float32(
        self,
        visit: impl FnOnce(u32) -> Result<Value, Error> + 'closure,
    ) -> (visitor: Self)
        requires
            self.visit_float32.is_none(),
        ensures
            visitor == (UntaggedEnumVisitor { visit_float32: visitor.visit_float32, ..self }),
            visitor.visit_float32.is_some(),
            forall|a: u32|
                #![trigger visitor.visit_float32.unwrap().accepts(a)]
                visitor.visit_float32.unwrap().accepts(a) == call_requires(visit, (a,)),
            forall|a: u32, r: Result<Value, Error>|
                #![trigger visitor.visit_float32.unwrap().yields(a, r)]
                visitor.visit_float32.unwrap().yields(a, r) == call_ensures(visit, (a,), r),
    {
        let mut visitor = self;
        visitor.visit_float32 = Some(Box::new(visit));
        visitor
    }

    /// Registers the handler of a double-precision number, which it receives as
    /// its bit pattern.
    #[must_use]
    pub fn float64(
        self,
        visit: impl FnOnce(u64) -> Result<Value, Error> + 'closure,
    ) -> (visitor: Self)
        requires
            self.visit_float64.is_none(),
        ensures
            visitor == (UntaggedEnumVisitor { visit_float64: visitor.visit_float64, ..self }),
            visitor.visit_float64.is_some(),
            forall|a: u64|
                #![trigger visitor.visit_float64.unwrap().accepts(a)]
                visitor.visit_float64.unwrap().accepts(a) == call_requires(visit, (a,)),
            forall|a: u64, r: Result<Value, Error>|
                #![trigger visitor.visit_float64.unwrap().yields(a, r)]
                visitor.visit_float64.unwrap().yields(a, r) == call_ensures(visit, (a,), r),
    {
        let mut visitor = self;
        visitor.visit_float64 = Some(Box::new(visit));
        visitor
    }

    /// Registers the handler of a character.
    #[must_use]
    pub fn char(
        self,
        visit: impl FnOnce(char) -> Result<Value, Error> + 'closure,
    ) -> (visitor: Self)
        requires
            self.visit_char.is_none(),
        ensures
            visitor == (UntaggedEnumVisitor { visit_char: visitor.visit_char, ..self }),
            visitor.visit_char.is_some(),
            forall|a: char|
                #![trigger visitor.visit_char.unwrap().accepts(a)]
                visitor.visit_char.unwrap().accepts(a) == call_requires(visit, (a,)),
            forall|a: char, r: Result<Value, Error>|
                #![trigger visitor.visit_char.unwrap().yields(a, r)]
                visitor.visit_char.unwrap().yields(a, r) == call_ensures(visit, (a,), r),
    {
        let mut visitor = self;
        visitor.visit_char = Some(Box::new(visit));
        visitor
    }

    /// Registers the handler of text that is lent for the call only.
    #[must_use]
    pub fn string(
        self,
        visit: impl FnOnce(&str) -> Result<Value, Error> + 'closure,
    ) -> (visitor: Self)
        requires
            self.visit_str.is_none(),
        ensures
            visitor == (UntaggedEnumVisitor { visit_str: visitor.visit_str, ..self }),
            visitor.visit_str.is_some(),
            forall|a: &str|
                #![trigger visitor.visit_str.unwrap().accepts(a)]
                visitor.visit_str.unwrap().accepts(a) == call_requires(visit, (a,)),
            forall|a: &str, r: Result<Value, Error>|
                #![trigger visitor.visit_str.unwrap().yields(a, r)]
                visitor.visit_str.unwrap().yields(a, r) == call_ensures(visit, (a,), r),
    {
        let mut visitor = self;
        visitor.visit_str = Some(Box::new(visit));
        visitor
    }

    /// Registers the handler of text that lives as long as the input.
    #[must_use]
    pub fn borrowed_str(
        self,
        visit: impl FnOnce(&'de str) -> Result<Value, Error> + 'closure,
    ) -> (visitor: Self)
        requires
            self.visit_borrowed_str.is_none(),
        ensures
            visitor == (UntaggedEnumVisitor { visit_borrowed_str: visitor.visit_borrowed_str, ..self }),
            visitor.visit_borrowed_str.is_some(),
            forall|a: &'de str|
                #![trigger visitor.visit_borrowed_str.unwrap().accepts(a)]
                visitor.visit_borrowed_str.unwrap().accepts(a) == call_requires(visit, (a,)),
            forall|a: &'de str, r: Result<Value, Error>|
                #![trigger visitor.visit_borrowed_str.unwrap().yields(a, r)]
                visitor.visit_borrowed_str.unwrap().yields(a, r) == call_ensures(visit, (a,), r),
    {
        let mut visitor = self;
        visitor.visit_borrowed_str = Some(Box::new(visit));
        visitor
    }

    /// Registers the handler of bytes that are lent for the call only.
    #[must_use]
    pub fn bytes(
        self,
        visit: impl FnOnce(&[u8]) -> Result<Value, Error> + 'closure,
    ) -> (visitor: Self)
        requires
            self.visit_bytes.is_none(),
        ensures
            visitor == (UntaggedEnumVisitor { visit_bytes: visitor.visit_bytes, ..self }),
            visitor.visit_bytes.is_some(),
            forall|a: &[u8]|
                #![trigger visitor.visit_bytes.unwrap().accepts(a)]
                visitor.visit_bytes.unwrap().accepts(a) == call_requires(visit, (a,)),
            forall|a: &[u8], r: Result<Value, Error>|
                #![trigger visitor.visit_bytes.unwrap().yields(a, r)]
                visitor.visit_bytes.unwrap().yields(a, r) == call_ensures(visit, (a,), r),
    {
        let mut visitor = self;
        visitor.visit_bytes = Some(Box::new(visit));
        visitor
    }

    /// Registers the handler of bytes that live as long as the input.
    #[must_use]
    pub fn borrowed_bytes(
        self,
        visit: impl FnOnce(&'de [u8]) -> Result<Value, Error> + 'closure,
    ) -> (visitor: Self)
        requires
            self.visit_borrowed_bytes.is_none(),
        ensures
            visitor == (UntaggedEnumVisitor { visit_borrowed_bytes: visitor.visit_borrowed_bytes, ..self }),
            visitor.visit_borrowed_bytes.is_some(),
            forall|a: &'de [u8]|
                #![trigger visitor.visit_borrowed_bytes.unwrap().accepts(a)]
                visitor.visit_borrowed_bytes.unwrap().accepts(a) == call_requires(visit, (a,)),
            forall|a: &'de [u8], r: Result<Value, Error>|
                #![trigger visitor.visit_borrowed_bytes.unwrap().yields(a, r)]
                visitor.visit_borrowed_bytes.unwrap().yields(a, r) == call_ensures(visit, (a,), r),
    {
        let mut visitor = self;
        visitor.visit_borrowed_bytes = Some(Box::new(visit));
        visitor
    }

    /// Registers the handler of bytes that it comes to own.
    #[must_use]
    pub fn byte_buf(
        self,
        visit: impl FnOnce(Vec<u8>) -> Result<Value, Error> + 'closure,
    ) -> (visitor: Self)
        requires
            self.visit_byte_buf.is_none(),
        ensures
            visitor == (UntaggedEnumVisitor { visit_byte_buf: visitor.visit_byte_buf, ..self }),
            visitor.visit_byte_buf.is_some(),
            forall|a: Vec<u8>|
                #![trigger visitor.visit_byte_buf.unwrap().accepts(a)]
                visitor.visit_byte_buf.unwrap().accepts(a) == call_requires(visit, (a,)),
            forall|a: Vec<u8>, r: Result<Value, Error>|
                #![trigger visitor.visit_byte_buf.unwrap().yields(a, r)]
                visitor.visit_byte_buf.unwrap().yields(a, r) == call_ensures(visit, (a,), r),
    {
        let mut visitor = self;
        visitor.visit_byte_buf = Some(Box::new(visit));
        visitor
    }

    /// Registers the handler of an absent value.
    #[must_use]
    pub fn none(
        self,
        visit: impl FnOnce() -> Result<Value, Error> + 'closure,
    ) -> (visitor: Self)
        requires
            self.visit_none.is_none(),
        ensures
            visitor == (UntaggedEnumVisitor { visit_none: visitor.visit_none, ..self }),
            visitor.visit_none.is_some(),
            visitor.visit_none.unwrap().accepts() == call_requires(visit, ()),
            forall|r: Result<Value, Error>|
                #![trigger visitor.visit_none.unwrap().yields(r)]
                visitor.visit_none.unwrap().yields(r) == call_ensures(visit, (), r),
    {
        let mut visitor = self;
        visitor.visit_none = Some(Box::new(visit));
        visitor
    }

    /// Registers the handler of the unit value.
    #[must_use]
    pub fn unit(
        self,
        visit: impl FnOnce() -> Result<Value, Error> + 'closure,
    ) -> (visitor: Self)
        requires
            self.visit_unit.is_none(),
        ensures
            visitor == (UntaggedEnumVisitor { visit_unit: visitor.visit_unit, ..self }),
            visitor.visit_unit.is_some(),
            visitor.visit_unit.unwrap().accepts() == call_requires(visit, ()),
            forall|r: Result<Value, Error>|
                #![trigger visitor.visit_unit.unwrap().yields(r)]
                visitor.visit_unit.unwrap().yields(r) == call_ensures(visit, (), r),
    {
        let mut visitor = self;
        visitor.visit_unit = Some(Box::new(visit));
        visitor
    }

    /// Registers the handler of a sequence, which reads it through the cursor.
    #[must_use]
    pub fn seq(
        self,
        visit: impl for <'access> FnOnce(C::SeqCursor<'access>) -> Result<Value, Error> + 'closure,
    ) -> (visitor: Self)
        requires
            self.visit_seq.is_none(),
        ensures
            visitor == (UntaggedEnumVisitor { visit_seq: visitor.visit_seq, ..self }),
            visitor.visit_seq.is_some(),
            forall|a: C::SeqCursor<'_>|
                #![trigger visitor.visit_seq.unwrap().accepts(a)]
                visitor.visit_seq.unwrap().accepts(a) == call_requires(visit, (a,)),
            forall|a: C::SeqCursor<'_>, r: Result<Value, Error>|
                #![trigger visitor.visit_seq.unwrap().yields(a, r)]
                visitor.visit_seq.unwrap().yields(a, r) == call_ensures(visit, (a,), r),
    {
        let mut visitor = self;
        visitor.visit_seq = Some(Box::new(visit));
        visitor
    }

    /// Registers the handler of a map, which reads it through the cursor.
    #[must_use]
    pub fn map(
        self,
        visit: impl for <'access> FnOnce(C::MapCursor<'access>) -> Result<Value, Error> + 'closure,
    ) -> (visitor: Self)
        requires
            self.visit_map.is_none(),
        ensures
            visitor == (UntaggedEnumVisitor { visit_map: visitor.visit_map, ..self }),
            visitor.visit_map.is_some(),
            forall|a: C::MapCursor<'_>|
                #![trigger visitor.visit_map.unwrap().accepts(a)]
                visitor.visit_map.unwrap().accepts(a) == call_requires(visit, (a,)),
            forall|a: C::MapCursor<'_>, r: Result<Value, Error>|
                #![trigger visitor.visit_map.unwrap().yields(a, r)]
                visitor.visit_map.unwrap().yields(a, r) == call_ensures(visit, (a,), r),
    {
        let mut visitor = self;
        visitor.visit_map = Some(Box::new(visit));
        visitor
    }
}

impl<'closure, 'de, Value, C: Cursors<'de>> Expected for UntaggedEnumVisitor<
    'closure,
    'de,
    Value,
    C,
> {
    /// The description given with `expecting`, or else the sentence that
    /// lists the registered shapes.
    open spec fn text(&self) -> Seq<char> {
        match self.expecting {
            Some(expecting) => expecting@,
            None => message(self.phrases()),
        }
    }

    fn describe(&self) -> (s: String) {
        if let Some(expecting) = &self.expecting {
            return expecting.clone();
        }
        let mut message = Expecting::new();
        let ghost p = Seq::<Phrase>::empty();
        if self.visit_bool.is_some() {
            message.push("a", "boolean");
        }
        let ghost p = with_phrase(p, self.visit_bool.is_some(), "a", "boolean");
        assert(message.phrases() == p);
        if self.visit_i8.is_some() || self.visit_i16.is_some() || self.visit_i32.is_some()
            || self.visit_i64.is_some() || self.visit_i128.is_some() || self.visit_u8.is_some()
            || self.visit_u16.is_some() || self.visit_u32.is_some() || self.visit_u64.is_some()
            || self.visit_u128.is_some() {
            message.push("an", "integer");
        }
        let ghost p = with_phrase(p, self.has_any_int(), "an", "integer");
        assert(message.phrases() == p);
        if self.visit_float32.is_some() || self.visit_float64.is_some() {
            message.push("a", "float");
        }
        let ghost p = with_phrase(p, self.has_float(), "a", "float");
        assert(message.phrases() == p);
        if self.visit_char.is_some() {
            message.push("a", "character");
        }
        let ghost p = with_phrase(p, self.visit_char.is_some(), "a", "character");
        assert(message.phrases() == p);
        if self.visit_str.is_some() {
            message.push("a", "string");
        }
        let ghost p = with_phrase(p, self.visit_str.is_some(), "a", "string");
        assert(message.phrases() == p);
        if self.visit_borrowed_str.is_some() && self.visit_str.is_none() {
            message.push("a", "borrowed string");
        }
        let ghost p = with_phrase(p, self.has_borrowed_str_only(), "a", "borrowed string");
        assert(message.phrases() == p);
        if self.visit_bytes.is_some() || self.visit_borrowed_bytes.is_some()
            || self.visit_byte_buf.is_some() {
            message.push("a", "byte array");
        }
        let ghost p = with_phrase(p, self.has_byte_array(), "a", "byte array");
        assert(message.phrases() == p);
        if self.visit_unit.is_some() || self.visit_none.is_some() {
            message.push("", "null");
        }
        let ghost p = with_phrase(p, self.has_null(), "", "null");
        assert(message.phrases() == p);
        if self.visit_seq.is_some() {
            message.push("an", "array");
        }
        let ghost p = with_phrase(p, self.visit_seq.is_some(), "an", "array");
        assert(message.phrases() == p);
        if self.visit_map.is_some() {
            message.push("a", "map");
        }
        let ghost p = with_phrase(p, self.visit_map.is_some(), "a", "map");
        assert(message.phrases() == p);
        assert(p == self.phrases());
        message.flush()
    }
}

} // verus!
