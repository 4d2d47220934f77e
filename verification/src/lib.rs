//! Dispatch of one self-describing input value to the handler registered for
//! its shape.
//!
//! A caller builds an [`UntaggedEnumVisitor`], registering at most one handler
//! per shape, and a decoder then reports exactly one shape to it. Integers are
//! coerced to the first registered width that holds them; every other shape is
//! routed by a fixed fallback table; a shape nobody handles yields an
//! invalid-type error that lists the shapes that were registered.
//!
//! The library reads no input itself. What reports the shape, and what the
//! cursors over sequences and maps are, is the decoder's side: it names its
//! cursor types through [`Cursors`] and calls the `visit_` function of the
//! shape it found.

pub mod coerce;
pub mod de;
pub mod dispatch;
pub mod error;
pub mod expecting;
pub mod fallback;
pub mod handler;
pub mod integer;
pub mod seed;
pub mod visitor;

pub use crate::error::Error;
pub use crate::error::ErrorImpl;
pub use crate::error::ErrorView;
pub use crate::error::Expected;
pub use crate::error::Unexpected;
pub use crate::error::UnexpectedView;
pub use crate::fallback::DefaultVisitor;
pub use crate::handler::Cursors;
pub use crate::integer::IntKind;
pub use crate::integer::Integer;
pub use crate::visitor::UntaggedEnumVisitor;
