//! The coercion of a reported integer: it goes to the first handler, in the
//! order of trial for the width it was reported at, whose width holds it.

use crate::error::Error;
use crate::error::Expected;
use crate::error::Unexpected;
use crate::error::UnexpectedView;
use crate::fallback::is_mismatch;
use crate::fallback::DefaultVisitor;
use crate::handler::Cursors;
use crate::integer::first_match;
use crate::integer::lemma_exact_width_wins;
use crate::integer::lemma_first_match_is_first;
use crate::integer::IntFrom;
use crate::integer::IntKind;
use crate::integer::IntKind::I128;
use crate::integer::IntKind::I16;
use crate::integer::IntKind::I32;
use crate::integer::IntKind::I64;
use crate::integer::IntKind::I8;
use crate::integer::IntKind::U128;
use crate::integer::IntKind::U16;
use crate::integer::IntKind::U32;
use crate::integer::IntKind::U64;
use crate::integer::IntKind::U8;
use crate::integer::Integer;
use crate::visitor::UntaggedEnumVisitor;
use vstd::prelude::*;

verus! {

/// How an integer that no handler takes is reported: at 64 bits where 64 bits
/// hold it, unsigned before signed, and at 128 bits otherwise.
pub open spec fn unexpected_integer(value: int) -> UnexpectedView {
    if IntKind::U64.holds(value) {
        UnexpectedView::Unsigned(value as u64)
    } else if IntKind::I64.holds(value) {
        UnexpectedView::Signed(value as i64)
    } else if IntKind::U128.holds(value) {
        UnexpectedView::Unsigned128(value as u128)
    } else {
        UnexpectedView::Signed128(value as i128)
    }
}

impl<'closure, 'de, Value, C: Cursors<'de>> UntaggedEnumVisitor<'closure, 'de, Value, C> {
    /// The widths for which a handler is registered.
    pub open spec fn int_kinds(&self) -> Set<IntKind> {
        Set::new(|kind: IntKind| self.has_int(kind))
    }

    /// Whether the handler registered for the width may be run on `value`.
    pub open spec fn int_accepts(&self, kind: IntKind, value: int) -> bool {
        match kind {
            IntKind::I8 => self.visit_i8.unwrap().accepts(value as i8),
            IntKind::I16 => self.visit_i16.unwrap().accepts(value as i16),
            IntKind::I32 => self.visit_i32.unwrap().accepts(value as i32),
            IntKind::I64 => self.visit_i64.unwrap().accepts(value as i64),
            IntKind::I128 => self.visit_i128.unwrap().accepts(value as i128),
            IntKind::U8 => self.visit_u8.unwrap().accepts(value as u8),
            IntKind::U16 => self.visit_u16.unwrap().accepts(value as u16),
            IntKind::U32 => self.visit_u32.unwrap().accepts(value as u32),
            IntKind::U64 => self.visit_u64.unwrap().accepts(value as u64),
            IntKind::U128 => self.visit_u128.unwrap().accepts(value as u128),
        }
    }

    /// Whether `r` is a result that the handler registered for the width can
    /// give on `value`.
    pub open spec fn int_yields(&self, kind: IntKind, value: int, r: Result<Value, Error>) -> bool {
        match kind {
            IntKind::I8 => self.visit_i8.unwrap().yields(value as i8, r),
            IntKind::I16 => self.visit_i16.unwrap().yields(value as i16, r),
            IntKind::I32 => self.visit_i32.unwrap().yields(value as i32, r),
            IntKind::I64 => self.visit_i64.unwrap().yields(value as i64, r),
            IntKind::I128 => self.visit_i128.unwrap().yields(value as i128, r),
            IntKind::U8 => self.visit_u8.unwrap().yields(value as u8, r),
            IntKind::U16 => self.visit_u16.unwrap().yields(value as u16, r),
            IntKind::U32 => self.visit_u32.unwrap().yields(value as u32, r),
            IntKind::U64 => self.visit_u64.unwrap().yields(value as u64, r),
            IntKind::U128 => self.visit_u128.unwrap().yields(value as u128, r),
        }
    }

    /// Whether the handler that `value` goes to, if any, may be run on it.
    pub open spec fn int_ready(&self, value: int, precedence: Seq<IntKind>) -> bool {
        match first_match(precedence, value, self.int_kinds()) {
            Some(kind) => self.int_accepts(kind, value),
            None => true,
        }
    }

    /// Whether `r` is what the dispatch of `value` gives: a result of the
    /// first handler in `precedence` whose width holds the value, or, where
    /// there is none, the invalid-type error that reports the value.
    pub open spec fn int_outcome(
        &self,
        value: int,
        precedence: Seq<IntKind>,
        r: Result<Value, Error>,
    ) -> bool {
        match first_match(precedence, value, self.int_kinds()) {
            Some(kind) => self.int_yields(kind, value, r),
            None => is_mismatch(r, unexpected_integer(value), self.text()),
        }
    }

    /// A dispatch is ready where every registered handler whose width holds
    /// the value may be run on it, whichever of them the order picks.
    pub proof fn lemma_ready_where_all_accept(&self, value: int, precedence: Seq<IntKind>)
        requires
            forall|kind: IntKind|
                self.has_int(kind) && kind.holds(value) ==> #[trigger] self.int_accepts(kind, value),
        ensures
            self.int_ready(value, precedence),
    {
        lemma_first_match_is_first(precedence, value, self.int_kinds());
    }

    /// Hands `value` to the first handler in `precedence` whose width holds
    /// it, converted to that width.
    pub fn dispatch_integer(self, value: Integer, precedence: [IntKind; 10]) -> (r: Result<
        Value,
        Error,
    >)
        requires
            self.int_ready(value.value(), precedence@),
        ensures
            self.int_outcome(value.value(), precedence@, r),
    {
        let ghost registered = self.int_kinds();
        let mut i: usize = 0;
        assert(precedence@.skip(0) == precedence@);
        while i < 10
            invariant
                i <= 10,
                registered == self.int_kinds(),
                self.int_ready(value.value(), precedence@),
                first_match(precedence@, value.value(), registered) == first_match(
                    precedence@.skip(i as int),
                    value.value(),
                    registered,
                ),
            decreases 10 - i,
        {
            let ghost rest = precedence@.skip(i as int);
            assert(rest[0] == precedence@[i as int]);
            assert(rest.drop_first() == precedence@.skip(i as int + 1));
            assert(registered.contains(precedence@[i as int]) == self.has_int(precedence@[i as int]));
            match precedence[i] {
                IntKind::I8 => {
                    if let Some(n) = i8::int_from(value) {
                        if let Some(visit_i8) = self.visit_i8 {
                            return visit_i8.handle(n);
                        }
                    }
                },
                IntKind::I16 => {
                    if let Some(n) = i16::int_from(value) {
                        if let Some(visit_i16) = self.visit_i16 {
                            return visit_i16.handle(n);
                        }
                    }
                },
                IntKind::I32 => {
                    if let Some(n) = i32::int_from(value) {
                        if let Some(visit_i32) = self.visit_i32 {
                            return visit_i32.handle(n);
                        }
                    }
                },
                IntKind::I64 => {
                    if let Some(n) = i64::int_from(value) {
                        if let Some(visit_i64) = self.visit_i64 {
                            return visit_i64.handle(n);
                        }
                    }
                },
                IntKind::I128 => {
                    if let Some(n) = i128::int_from(value) {
                        if let Some(visit_i128) = self.visit_i128 {
                            return visit_i128.handle(n);
                        }
                    }
                },
                IntKind::U8 => {
                    if let Some(n) = u8::int_from(value) {
                        if let Some(visit_u8) = self.visit_u8 {
                            return visit_u8.handle(n);
                        }
                    }
                },
                IntKind::U16 => {
                    if let Some(n) = u16::int_from(value) {
                        if let Some(visit_u16) = self.visit_u16 {
                            return visit_u16.handle(n);
                        }
                    }
                },
                IntKind::U32 => {
                    if let Some(n) = u32::int_from(value) {
                        if let Some(visit_u32) = self.visit_u32 {
                            return visit_u32.handle(n);
                        }
                    }
                },
                IntKind::U64 => {
                    if let Some(n) = u64::int_from(value) {
                        if let Some(visit_u64) = self.visit_u64 {
                            return visit_u64.handle(n);
                        }
                    }
                },
                IntKind::U128 => {
                    if let Some(n) = u128::int_from(value) {
                        if let Some(visit_u128) = self.visit_u128 {
                            return visit_u128.handle(n);
                        }
                    }
                },
            }
            i += 1;
        }
        assert(precedence@.skip(10).len() == 0);
        if let Some(n) = u64::int_from(value) {
            return Err(Error::invalid_type(Unexpected::Unsigned(n), &self));
        }
        if let Some(n) = i64::int_from(value) {
            return Err(Error::invalid_type(Unexpected::Signed(n), &self));
        }
        if let Some(n) = u128::int_from(value) {
            return DefaultVisitor::new(&self).visit_u128(n);
        }
        match value {
            Integer::Signed(n) => DefaultVisitor::new(&self).visit_i128(n),
            Integer::Unsigned(n) => DefaultVisitor::new(&self).visit_u128(n),
        }
    }

    /// The input is an integer that the decoder reports as `i8`.
    pub fn visit_i8(self, v: i8) -> (r: Result<Value, Error>)
        requires
            self.int_ready(v as int, IntKind::I8.precedence()),
        ensures
            self.int_outcome(v as int, IntKind::I8.precedence(), r),
            self.visit_i8 matches Some(h) ==> h.yields(v, r),
    {
        let precedence = [I8, I16, I32, I64, I128, U8, U16, U32, U64, U128];
        proof {
            assert(precedence@ == IntKind::I8.precedence());
            if self.visit_i8.is_some() {
                assert(self.int_kinds().contains(IntKind::I8));
                lemma_exact_width_wins(IntKind::I8, v as int, self.int_kinds());
            }
        }
        self.dispatch_integer(Integer::Signed(v as i128), precedence)
    }

    /// The input is an integer that the decoder reports as `i16`.
    pub fn visit_i16(self, v: i16) -> (r: Result<Value, Error>)
        requires
            self.int_ready(v as int, IntKind::I16.precedence()),
        ensures
            self.int_outcome(v as int, IntKind::I16.precedence(), r),
            self.visit_i16 matches Some(h) ==> h.yields(v, r),
    {
        let precedence = [I16, I32, I64, I128, I8, U8, U16, U32, U64, U128];
        proof {
            assert(precedence@ == IntKind::I16.precedence());
            if self.visit_i16.is_some() {
                assert(self.int_kinds().contains(IntKind::I16));
                lemma_exact_width_wins(IntKind::I16, v as int, self.int_kinds());
            }
        }
        self.dispatch_integer(Integer::Signed(v as i128), precedence)
    }

    /// The input is an integer that the decoder reports as `i32`.
    pub fn visit_i32(self, v: i32) -> (r: Result<Value, Error>)
        requires
            self.int_ready(v as int, IntKind::I32.precedence()),
        ensures
            self.int_outcome(v as int, IntKind::I32.precedence(), r),
            self.visit_i32 matches Some(h) ==> h.yields(v, r),
    {
        let precedence = [I32, I64, I128, I8, I16, U8, U16, U32, U64, U128];
        proof {
            assert(precedence@ == IntKind::I32.precedence());
            if self.visit_i32.is_some() {
                assert(self.int_kinds().contains(IntKind::I32));
                lemma_exact_width_wins(IntKind::I32, v as int, self.int_kinds());
            }
        }
        self.dispatch_integer(Integer::Signed(v as i128), precedence)
    }

    /// The input is an integer that the decoder reports as `i64`.
    pub fn visit_i64(self, v: i64) -> (r: Result<Value, Error>)
        requires
            self.int_ready(v as int, IntKind::I64.precedence()),
        ensures
            self.int_outcome(v as int, IntKind::I64.precedence(), r),
            self.visit_i64 matches Some(h) ==> h.yields(v, r),
    {
        let precedence = [I64, I128, I8, I16, I32, U8, U16, U32, U64, U128];
        proof {
            assert(precedence@ == IntKind::I64.precedence());
            if self.visit_i64.is_some() {
                assert(self.int_kinds().contains(IntKind::I64));
                lemma_exact_width_wins(IntKind::I64, v as int, self.int_kinds());
            }
        }
        self.dispatch_integer(Integer::Signed(v as i128), precedence)
    }

    /// The input is an integer that the decoder reports as `i128`.
    pub fn visit_i128(self, v: i128) -> (r: Result<Value, Error>)
        requires
            self.int_ready(v as int, IntKind::I128.precedence()),
        ensures
            self.int_outcome(v as int, IntKind::I128.precedence(), r),
            self.visit_i128 matches Some(h) ==> h.yields(v, r),
    {
        let precedence = [I128, I8, I16, I32, I64, U8, U16, U32, U64, U128];
        proof {
            assert(precedence@ == IntKind::I128.precedence());
            if self.visit_i128.is_some() {
                assert(self.int_kinds().contains(IntKind::I128));
                lemma_exact_width_wins(IntKind::I128, v as int, self.int_kinds());
            }
        }
        self.dispatch_integer(Integer::Signed(v), precedence)
    }

    /// The input is an integer that the decoder reports as `u8`.
    pub fn visit_u8(self, v: u8) -> (r: Result<Value, Error>)
        requires
            self.int_ready(v as int, IntKind::U8.precedence()),
        ensures
            self.int_outcome(v as int, IntKind::U8.precedence(), r),
            self.visit_u8 matches Some(h) ==> h.yields(v, r),
    {
        let precedence = [U8, U16, U32, U64, U128, I8, I16, I32, I64, I128];
        proof {
            assert(precedence@ == IntKind::U8.precedence());
            if self.visit_u8.is_some() {
                assert(self.int_kinds().contains(IntKind::U8));
                lemma_exact_width_wins(IntKind::U8, v as int, self.int_kinds());
            }
        }
        self.dispatch_integer(Integer::Unsigned(v as u128), precedence)
    }

    /// The input is an integer that the decoder reports as `u16`.
    pub fn visit_u16(self, v: u16) -> (r: Result<Value, Error>)
        requires
            self.int_ready(v as int, IntKind::U16.precedence()),
        ensures
            self.int_outcome(v as int, IntKind::U16.precedence(), r),
            self.visit_u16 matches Some(h) ==> h.yields(v, r),
    {
        let precedence = [U16, U32, U64, U128, U8, I8, I16, I32, I64, I128];
        proof {
            assert(precedence@ == IntKind::U16.precedence());
            if self.visit_u16.is_some() {
                assert(self.int_kinds().contains(IntKind::U16));
                lemma_exact_width_wins(IntKind::U16, v as int, self.int_kinds());
            }
        }
        self.dispatch_integer(Integer::Unsigned(v as u128), precedence)
    }

    /// The input is an integer that the decoder reports as `u32`.
    pub fn visit_u32(self, v: u32) -> (r: Result<Value, Error>)
        requires
            self.int_ready(v as int, IntKind::U32.precedence()),
        ensures
            self.int_outcome(v as int, IntKind::U32.precedence(), r),
            self.visit_u32 matches Some(h) ==> h.yields(v, r),
    {
        let precedence = [U32, U64, U128, U8, U16, I8, I16, I32, I64, I128];
        proof {
            assert(precedence@ == IntKind::U32.precedence());
            if self.visit_u32.is_some() {
                assert(self.int_kinds().contains(IntKind::U32));
                lemma_exact_width_wins(IntKind::U32, v as int, self.int_kinds());
            }
        }
        self.dispatch_integer(Integer::Unsigned(v as u128), precedence)
    }

    /// The input is an integer that the decoder reports as `u64`.
    pub fn visit_u64(self, v: u64) -> (r: Result<Value, Error>)
        requires
            self.int_ready(v as int, IntKind::U64.precedence()),
        ensures
            self.int_outcome(v as int, IntKind::U64.precedence(), r),
            self.visit_u64 matches Some(h) ==> h.yields(v, r),
    {
        let precedence = [U64, U128, U8, U16, U32, I8, I16, I32, I64, I128];
        proof {
            assert(precedence@ == IntKind::U64.precedence());
            if self.visit_u64.is_some() {
                assert(self.int_kinds().contains(IntKind::U64));
                lemma_exact_width_wins(IntKind::U64, v as int, self.int_kinds());
            }
        }
        self.dispatch_integer(Integer::Unsigned(v as u128), precedence)
    }

    /// The input is an integer that the decoder reports as `u128`.
    pub fn visit_u128(self, v: u128) -> (r: Result<Value, Error>)
        requires
            self.int_ready(v as int, IntKind::U128.precedence()),
        ensures
            self.int_outcome(v as int, IntKind::U128.precedence(), r),
            self.visit_u128 matches Some(h) ==> h.yields(v, r),
    {
        let precedence = [U128, U8, U16, U32, U64, I8, I16, I32, I64, I128];
        proof {
            assert(precedence@ == IntKind::U128.precedence());
            if self.visit_u128.is_some() {
                assert(self.int_kinds().contains(IntKind::U128));
                lemma_exact_width_wins(IntKind::U128, v as int, self.int_kinds());
            }
        }
        self.dispatch_integer(Integer::Unsigned(v), precedence)
    }
}

} // verus!
