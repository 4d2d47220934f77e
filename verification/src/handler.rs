//! Single-use handlers, one trait for each way a shape hands over its value.
//!
//! Every closure of the right signature is a handler: its precondition is what
//! the handler accepts, its postcondition is what the handler yields. The
//! dispatcher stores handlers boxed, so that one visitor type holds closures of
//! any types.

use crate::error::Error;
use vstd::prelude::*;

verus! {

/// The cursor types that a decoder hands out for the elements of a sequence
/// and for the entries of a map. `'access` is the time for which the cursor
/// may be used.
pub trait Cursors<'de> {
    type SeqCursor<'access>;

    type MapCursor<'access>;
}

/// A handler of a value passed by value.
pub trait Handler<A, V> {
    /// Whether the handler may be run on `a`.
    spec fn accepts(&self, a: A) -> bool;

    /// Whether `r` is a result that the handler can give on `a`.
    spec fn yields(&self, a: A, r: Result<V, Error>) -> bool;

    fn handle(self: Box<Self>, a: A) -> (r: Result<V, Error>)
        requires
            self.accepts(a),
        ensures
            self.yields(a, r),
    ;
}

impl<A, V, F: FnOnce(A) -> Result<V, Error>> Handler<A, V> for F {
    open spec fn accepts(&self, a: A) -> bool {
        call_requires(*self, (a,))
    }

    open spec fn yields(&self, a: A, r: Result<V, Error>) -> bool {
        call_ensures(*self, (a,), r)
    }

    fn handle(self: Box<Self>, a: A) -> (r: Result<V, Error>) {
        let f = *self;
        f(a)
    }
}

/// A handler of text that is lent for the call only.
pub trait StrHandler<V> {
    /// Whether the handler may be run on `a`.
    spec fn accepts(&self, a: &str) -> bool;

    /// Whether `r` is a result that the handler can give on `a`.
    spec fn yields(&self, a: &str, r: Result<V, Error>) -> bool;

    fn handle(self: Box<Self>, a: &str) -> (r: Result<V, Error>)
        requires
            self.accepts(a),
        ensures
            self.yields(a, r),
    ;
}

impl<V, F: FnOnce(&str) -> Result<V, Error>> StrHandler<V> for F {
    open spec fn accepts(&self, a: &str) -> bool {
        call_requires(*self, (a,))
    }

    open spec fn yields(&self, a: &str, r: Result<V, Error>) -> bool {
        call_ensures(*self, (a,), r)
    }

    fn handle(self: Box<Self>, a: &str) -> (r: Result<V, Error>) {
        let f = *self;
        f(a)
    }
}

/// A handler of bytes that are lent for the call only.
pub trait BytesHandler<V> {
    /// Whether the handler may be run on `a`.
    spec fn accepts(&self, a: &[u8]) -> bool;

    /// Whether `r` is a result that the handler can give on `a`.
    spec fn yields(&self, a: &[u8], r: Result<V, Error>) -> bool;

    fn handle(self: Box<Self>, a: &[u8]) -> (r: Result<V, Error>)
        requires
            self.accepts(a),
        ensures
            self.yields(a, r),
    ;
}

impl<V, F: FnOnce(&[u8]) -> Result<V, Error>> BytesHandler<V> for F {
    open spec fn accepts(&self, a: &[u8]) -> bool {
        call_requires(*self, (a,))
    }

    open spec fn yields(&self, a: &[u8], r: Result<V, Error>) -> bool {
        call_ensures(*self, (a,), r)
    }

    fn handle(self: Box<Self>, a: &[u8]) -> (r: Result<V, Error>) {
        let f = *self;
        f(a)
    }
}

/// A handler of a shape that carries no value.
pub trait UnitHandler<V> {
    /// Whether the handler may be run.
    spec fn accepts(&self) -> bool;

    /// Whether `r` is a result that the handler can give.
    spec fn yields(&self, r: Result<V, Error>) -> bool;

    fn handle(self: Box<Self>) -> (r: Result<V, Error>)
        requires
            self.accepts(),
        ensures
            self.yields(r),
    ;
}

impl<V, F: FnOnce() -> Result<V, Error>> UnitHandler<V> for F {
    open spec fn accepts(&self) -> bool {
        call_requires(*self, ())
    }

    open spec fn yields(&self, r: Result<V, Error>) -> bool {
        call_ensures(*self, (), r)
    }

    fn handle(self: Box<Self>) -> (r: Result<V, Error>) {
        let f = *self;
        f()
    }
}

/// A handler of a sequence, which reads it through the decoder's cursor.
pub trait SeqHandler<'de, V, C: Cursors<'de>> {
    /// Whether the handler may be run on `a`.
    spec fn accepts<'access>(&self, a: C::SeqCursor<'access>) -> bool;

    /// Whether `r` is a result that the handler can give on `a`.
    spec fn yields<'access>(&self, a: C::SeqCursor<'access>, r: Result<V, Error>) -> bool;

    fn handle<'access>(self: Box<Self>, a: C::SeqCursor<'access>) -> (r: Result<V, Error>)
        requires
            self.accepts(a),
        ensures
            self.yields(a, r),
    ;
}

impl<'de, V, C: Cursors<'de>, F: for <'access> FnOnce(C::SeqCursor<'access>) -> Result<
    V,
    Error,
>> SeqHandler<'de, V, C> for F {
    open spec fn accepts<'access>(&self, a: C::SeqCursor<'access>) -> bool {
        call_requires(*self, (a,))
    }

    open spec fn yields<'access>(&self, a: C::SeqCursor<'access>, r: Result<V, Error>) -> bool {
        call_ensures(*self, (a,), r)
    }

    fn handle<'access>(self: Box<Self>, a: C::SeqCursor<'access>) -> (r: Result<V, Error>) {
        let f = *self;
        f(a)
    }
}

/// A handler of a map, which reads it through the decoder's cursor.
pub trait MapHandler<'de, V, C: Cursors<'de>> {
    /// Whether the handler may be run on `a`.
    spec fn accepts<'access>(&self, a: C::MapCursor<'access>) -> bool;

    /// Whether `r` is a result that the handler can give on `a`.
    spec fn yields<'access>(&self, a: C::MapCursor<'access>, r: Result<V, Error>) -> bool;

    fn handle<'access>(self: Box<Self>, a: C::MapCursor<'access>) -> (r: Result<V, Error>)
        requires
            self.accepts(a),
        ensures
            self.yields(a, r),
    ;
}

impl<'de, V, C: Cursors<'de>, F: for <'access> FnOnce(C::MapCursor<'access>) -> Result<
    V,
    Error,
>> MapHandler<'de, V, C> for F {
    open spec fn accepts<'access>(&self, a: C::MapCursor<'access>) -> bool {
        call_requires(*self, (a,))
    }

    open spec fn yields<'access>(&self, a: C::MapCursor<'access>, r: Result<V, Error>) -> bool {
        call_ensures(*self, (a,), r)
    }

    fn handle<'access>(self: Box<Self>, a: C::MapCursor<'access>) -> (r: Result<V, Error>) {
        let f = *self;
        f(a)
    }
}

} // verus!
