//! The names that a handler needs beside the visitor itself.

pub use crate::error::Error;
pub use crate::error::Expected;
pub use crate::error::Unexpected;
pub use crate::handler::Cursors;
