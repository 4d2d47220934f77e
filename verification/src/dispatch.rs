//! The arrival of a shape other than an integer: it goes to its handler,
//! or to the handler that stands in for it, or it is refused.

use crate::error::Error;
use crate::error::Expected;
use crate::error::Unexpected;
use crate::error::UnexpectedView;
use crate::fallback::is_mismatch;
use crate::fallback::DefaultVisitor;
use crate::handler::Cursors;
use crate::visitor::UntaggedEnumVisitor;
use vstd::prelude::*;

verus! {

impl<'closure, 'de, Value, C: Cursors<'de>> UntaggedEnumVisitor<'closure, 'de, Value, C> {
    /// Whether the handler that lent text goes to, if any, may be run on `v`.
    pub open spec fn str_ready(&self, v: &str) -> bool {
        self.visit_str matches Some(h) ==> h.accepts(v)
    }

    /// Whether `r` is what lent text gives: a result of its handler, or the
    /// invalid-type error that reports the text.
    pub open spec fn str_outcome(&self, v: &str, r: Result<Value, Error>) -> bool {
        match self.visit_str {
            Some(h) => h.yields(v, r),
            None => is_mismatch(r, UnexpectedView::Str(v@), self.text()),
        }
    }

    /// Whether the handler that lent bytes go to, if any, may be run on `v`.
    pub open spec fn bytes_ready(&self, v: &[u8]) -> bool {
        self.visit_bytes matches Some(h) ==> h.accepts(v)
    }

    /// Whether `r` is what lent bytes give: a result of their handler, or the
    /// invalid-type error that reports the bytes.
    pub open spec fn bytes_outcome(&self, v: &[u8], r: Result<Value, Error>) -> bool {
        match self.visit_bytes {
            Some(h) => h.yields(v, r),
            None => is_mismatch(r, UnexpectedView::Bytes(v@), self.text()),
        }
    }

    /// Whether the handler that a double-precision number goes to, if any,
    /// may be run on `v`.
    pub open spec fn float64_ready(&self, v: u64) -> bool {
        self.visit_float64 matches Some(h) ==> h.accepts(v)
    }

    /// Whether `r` is what a double-precision number gives: a result of its
    /// handler, or the invalid-type error that reports the number.
    pub open spec fn float64_outcome(&self, v: u64, r: Result<Value, Error>) -> bool {
        match self.visit_float64 {
            Some(h) => h.yields(v, r),
            None => is_mismatch(r, UnexpectedView::Float(v), self.text()),
        }
    }

    /// The input is a boolean.
    pub fn visit_bool(self, v: bool) -> (r: Result<Value, Error>)
        requires
            self.visit_bool matches Some(h) ==> h.accepts(v),
        ensures
            match self.visit_bool {
                Some(h) => h.yields(v, r),
                None => is_mismatch(r, UnexpectedView::Bool(v), self.text()),
            },
    {
        if let Some(visit_bool) = self.visit_bool {
            visit_bool.handle(v)
        } else {
            DefaultVisitor::new(&self).visit_bool(v)
        }
    }

    /// The input is a single-precision number with the bit pattern `v`;
    /// `widened` is the bit pattern of the same number at double precision.
    pub fn visit_float32(self, v: u32, widened: u64) -> (r: Result<Value, Error>)
        requires
            match self.visit_float32 {
                Some(h) => h.accepts(v),
                None => self.float64_ready(widened),
            },
        ensures
            match self.visit_float32 {
                Some(h) => h.yields(v, r),
                None => self.float64_outcome(widened, r),
            },
    {
        if let Some(visit_float32) = self.visit_float32 {
            visit_float32.handle(v)
        } else {
            self.visit_float64(widened)
        }
    }

    /// The input is a double-precision number with the bit pattern `v`.
    pub fn visit_float64(self, v: u64) -> (r: Result<Value, Error>)
        requires
            self.float64_ready(v),
        ensures
            self.float64_outcome(v, r),
    {
        if let Some(visit_float64) = self.visit_float64 {
            visit_float64.handle(v)
        } else {
            DefaultVisitor::new(&self).visit_float64(v)
        }
    }

    /// The input is a character. Without a handler of characters it goes, as
    /// text of one character, to the handler of lent text.
    pub fn visit_char(self, v: char) -> (r: Result<Value, Error>)
        requires
            match self.visit_char {
                Some(h) => h.accepts(v),
                None => forall|s: &str| s@ == seq![v] ==> #[trigger] self.str_ready(s),
            },
        ensures
            match (self.visit_char, self.visit_str) {
                (Some(h), _) => h.yields(v, r),
                (None, Some(h)) => exists|s: &str| s@ == seq![v] && #[trigger] h.yields(s, r),
                (None, None) => is_mismatch(r, UnexpectedView::Char(v), self.text()),
            },
    {
        if let Some(visit_char) = self.visit_char {
            visit_char.handle(v)
        } else if self.visit_str.is_some() {
            let text = encode_utf8(v);
            self.visit_str(text.as_str())
        } else {
            Err(Error::invalid_type(Unexpected::Char(v), &self))
        }
    }

    /// The input is text that is lent for the call only.
    pub fn visit_str(self, v: &str) -> (r: Result<Value, Error>)
        requires
            self.str_ready(v),
        ensures
            self.str_outcome(v, r),
    {
        if let Some(visit_str) = self.visit_str {
            visit_str.handle(v)
        } else {
            DefaultVisitor::new(&self).visit_str(v)
        }
    }

    /// Whether `r` is what text that lives as long as the input gives: a
    /// result of its handler on that very text, or else what lent text gives.
    pub open spec fn borrowed_str_outcome(&self, v: &'de str, r: Result<Value, Error>) -> bool {
        match self.visit_borrowed_str {
            Some(h) => h.yields(v, r),
            None => self.str_outcome(v, r),
        }
    }

    /// Borrowed text makes the round trip: a handler that keeps the text it
    /// is given, and gives nothing else back, gives back the input itself.
    /// Its argument has the lifetime of the input, so it is handed the
    /// input's own text and not a copy that ends with the call.
    pub proof fn lemma_borrowed_str_round_trip(
        &self,
        keep: spec_fn(&'de str) -> Value,
        v: &'de str,
        r: Result<Value, Error>,
    )
        requires
            self.visit_borrowed_str.is_some(),
            forall|a: &'de str, o: Result<Value, Error>| #[trigger]
                self.visit_borrowed_str.unwrap().yields(a, o) ==> o == Ok::<Value, Error>(keep(a)),
            self.borrowed_str_outcome(v, r),
        ensures
            r == Ok::<Value, Error>(keep(v)),
    {
    }

    /// The input is text that lives as long as the input. Without a handler
    /// of such text it goes to the handler of lent text.
    pub fn visit_borrowed_str(self, v: &'de str) -> (r: Result<Value, Error>)
        requires
            match self.visit_borrowed_str {
                Some(h) => h.accepts(v),
                None => self.str_ready(v),
            },
        ensures
            self.borrowed_str_outcome(v, r),
    {
        if let Some(visit_borrowed_str) = self.visit_borrowed_str {
            visit_borrowed_str.handle(v)
        } else {
            self.visit_str(v)
        }
    }

    /// The input is bytes that are lent for the call only.
    pub fn visit_bytes(self, v: &[u8]) -> (r: Result<Value, Error>)
        requires
            self.bytes_ready(v),
        ensures
            self.bytes_outcome(v, r),
    {
        if let Some(visit_bytes) = self.visit_bytes {
            visit_bytes.handle(v)
        } else {
            DefaultVisitor::new(&self).visit_bytes(v)
        }
    }

    /// The input is bytes that live as long as the input. Without a handler
    /// of such bytes they go to the handler of lent bytes.
    pub fn visit_borrowed_bytes(self, v: &'de [u8]) -> (r: Result<Value, Error>)
        requires
            match self.visit_borrowed_bytes {
                Some(h) => h.accepts(v),
                None => self.bytes_ready(v),
            },
        ensures
            match self.visit_borrowed_bytes {
                Some(h) => h.yields(v, r),
                None => self.bytes_outcome(v, r),
            },
    {
        if let Some(visit_borrowed_bytes) = self.visit_borrowed_bytes {
            visit_borrowed_bytes.handle(v)
        } else {
            self.visit_bytes(v)
        }
    }

    /// The input is bytes that the visitor comes to own. Without a handler of
    /// such bytes they go to the handler of lent bytes.
    pub fn visit_byte_buf(self, v: Vec<u8>) -> (r: Result<Value, Error>)
        requires
            match self.visit_byte_buf {
                Some(h) => h.accepts(v),
                None => forall|s: &[u8]| s@ == v@ ==> #[trigger] self.bytes_ready(s),
            },
        ensures
            match self.visit_byte_buf {
                Some(h) => h.yields(v, r),
                None => exists|s: &[u8]| s@ == v@ && #[trigger] self.bytes_outcome(s, r),
            },
    {
        if let Some(visit_byte_buf) = self.visit_byte_buf {
            visit_byte_buf.handle(v)
        } else {
            self.visit_bytes(v.as_slice())
        }
    }

    /// The input is an absent value.
    pub fn visit_none(self) -> (r: Result<Value, Error>)
        requires
            self.visit_none matches Some(h) ==> h.accepts(),
        ensures
            match self.visit_none {
                Some(h) => h.yields(r),
                None => is_mismatch(r, UnexpectedView::Option, self.text()),
            },
    {
        if let Some(visit_none) = self.visit_none {
            visit_none.handle()
        } else {
            DefaultVisitor::new(&self).visit_none()
        }
    }

    /// The input is the unit value.
    pub fn visit_unit(self) -> (r: Result<Value, Error>)
        requires
            self.visit_unit matches Some(h) ==> h.accepts(),
        ensures
            match self.visit_unit {
                Some(h) => h.yields(r),
                None => is_mismatch(r, UnexpectedView::Unit, self.text()),
            },
    {
        if let Some(visit_unit) = self.visit_unit {
            visit_unit.handle()
        } else {
            DefaultVisitor::new(&self).visit_unit()
        }
    }

    /// The input is a sequence, to be read through `seq`.
    pub fn visit_seq<'access>(self, seq: C::SeqCursor<'access>) -> (r: Result<Value, Error>)
        requires
            self.visit_seq matches Some(h) ==> h.accepts(seq),
        ensures
            match self.visit_seq {
                Some(h) => h.yields(seq, r),
                None => is_mismatch(r, UnexpectedView::Sequence, self.text()),
            },
    {
        if let Some(visit_seq) = self.visit_seq {
            visit_seq.handle(seq)
        } else {
            DefaultVisitor::new(&self).visit_seq(seq)
        }
    }

    /// The input is a map, to be read through `map`.
    pub fn visit_map<'access>(self, map: C::MapCursor<'access>) -> (r: Result<Value, Error>)
        requires
            self.visit_map matches Some(h) ==> h.accepts(map),
        ensures
            match self.visit_map {
                Some(h) => h.yields(map, r),
                None => is_mismatch(r, UnexpectedView::Mapping, self.text()),
            },
    {
        if let Some(visit_map) = self.visit_map {
            visit_map.handle(map)
        } else {
            DefaultVisitor::new(&self).visit_map(map)
        }
    }
}

/// The text that holds the character `c` and nothing else, as
/// `char::encode_utf8` of std writes it. That the result is this one
/// character is what std documents; it is believed here, not proved.
#[verifier::external_body]
fn encode_utf8(c: char) -> (text: String)
    ensures
        text@ == seq![c],
{
    c.encode_utf8(&mut [0u8; 4]).to_owned()
}

} // verus!
