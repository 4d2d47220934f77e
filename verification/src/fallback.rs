//! What a shape gets where no handler is registered for it.

use crate::error::Error;
use crate::error::ErrorView;
use crate::error::Expected;
use crate::error::Unexpected;
use crate::error::UnexpectedView;
use vstd::prelude::*;
use vstd::slice::slice_to_vec;

verus! {

/// Whether `r` is the invalid-type error that reports `unexpected` where
/// `expected` was wanted.
pub open spec fn is_mismatch<V>(
    r: Result<V, Error>,
    unexpected: UnexpectedView,
    expected: Seq<char>,
) -> bool {
    r matches Err(e) && e@ == (ErrorView::InvalidType { unexpected, expected })
}

/// The answers to a shape for which no handler is registered: each is the
/// invalid-type error that reports the shape and what was expected instead.
pub struct DefaultVisitor<'a, E: ?Sized, T> {
    expected: &'a E,
    value: core::marker::PhantomData<T>,
}

impl<'a, E: Expected + ?Sized, T> DefaultVisitor<'a, E, T> {
    /// What the answers give as expected.
    pub closed spec fn expected(&self) -> Seq<char> {
        self.expected.text()
    }

    /// The answers that give `expected` as what was wanted.
    pub fn new(expected: &'a E) -> (visitor: Self)
        ensures
            visitor.expected() == expected.text(),
    {
        DefaultVisitor { expected, value: core::marker::PhantomData }
    }

    /// A boolean was found.
    pub fn visit_bool(self, v: bool) -> (r: Result<T, Error>)
        ensures
            is_mismatch(r, UnexpectedView::Bool(v), self.expected()),
    {
        Err(Error::invalid_type(Unexpected::Bool(v), self.expected))
    }

    /// A floating-point number was found; `v` is its bit pattern at double
    /// precision.
    pub fn visit_float64(self, v: u64) -> (r: Result<T, Error>)
        ensures
            is_mismatch(r, UnexpectedView::Float(v), self.expected()),
    {
        Err(Error::invalid_type(Unexpected::Float(v), self.expected))
    }

    /// Text was found.
    pub fn visit_str(self, v: &str) -> (r: Result<T, Error>)
        ensures
            is_mismatch(r, UnexpectedView::Str(v@), self.expected()),
    {
        Err(Error::invalid_type(Unexpected::Str(v.to_owned()), self.expected))
    }

    /// Bytes were found.
    pub fn visit_bytes(self, v: &[u8]) -> (r: Result<T, Error>)
        ensures
            is_mismatch(r, UnexpectedView::Bytes(v@), self.expected()),
    {
        Err(Error::invalid_type(Unexpected::Bytes(slice_to_vec(v)), self.expected))
    }

    /// An absent value was found.
    pub fn visit_none(self) -> (r: Result<T, Error>)
        ensures
            is_mismatch(r, UnexpectedView::Option, self.expected()),
    {
        Err(Error::invalid_type(Unexpected::Option, self.expected))
    }

    /// The unit value was found.
    pub fn visit_unit(self) -> (r: Result<T, Error>)
        ensures
            is_mismatch(r, UnexpectedView::Unit, self.expected()),
    {
        Err(Error::invalid_type(Unexpected::Unit, self.expected))
    }

    /// A sequence was found. The cursor `seq` is given up unread.
    pub fn visit_seq<A>(self, seq: A) -> (r: Result<T, Error>)
        ensures
            is_mismatch(r, UnexpectedView::Sequence, self.expected()),
    {
        Err(Error::invalid_type(Unexpected::Sequence, self.expected))
    }

    /// A map was found. The cursor `map` is given up unread.
    pub fn visit_map<A>(self, map: A) -> (r: Result<T, Error>)
        ensures
            is_mismatch(r, UnexpectedView::Mapping, self.expected()),
    {
        Err(Error::invalid_type(Unexpected::Mapping, self.expected))
    }

    /// An integer was found that 64 bits do not hold.
    pub fn visit_i128(self, v: i128) -> (r: Result<T, Error>)
        ensures
            is_mismatch(r, UnexpectedView::Signed128(v), self.expected()),
    {
        Err(Error::invalid_type(Unexpected::Signed128(v), self.expected))
    }

    /// An integer was found that 64 bits do not hold.
    pub fn visit_u128(self, v: u128) -> (r: Result<T, Error>)
        ensures
            is_mismatch(r, UnexpectedView::Unsigned128(v), self.expected()),
    {
        Err(Error::invalid_type(Unexpected::Unsigned128(v), self.expected))
    }
}

} // verus!
